//! Rectangles of terminal cells, and how the screen is divided among the
//! panes.

use ratatui::layout::{Constraint, Direction, Layout, Rect};
use vstd::prelude::*;

verus! {

/// The cells left free on every side of the stack of panes.
pub const PANE_MARGIN: u16 = 1;

/// The rows of a pane that its border takes: one at the top, one at the
/// bottom.
pub const BORDER_ROWS: u16 = 2;

/// A rectangle of terminal cells: its top left corner and its size.
#[derive(Debug, Clone, Copy, PartialEq, Eq, Structural)]
pub struct Area {
    pub x: u16,
    pub y: u16,
    pub width: u16,
    pub height: u16,
}

/// Twice `margin`, held at the largest `u16` where it would go beyond it.
pub open spec fn doubled_margin(margin: u16) -> u16 {
    if 2 * margin > u16::MAX {
        u16::MAX
    } else {
        (2 * margin) as u16
    }
}

/// `start` moved by `margin`, held at the largest `u16` where it would go
/// beyond it.
pub open spec fn moved_by_margin(start: u16, margin: u16) -> u16 {
    if start + margin > u16::MAX {
        u16::MAX
    } else {
        (start + margin) as u16
    }
}

/// What is left of `area` when `margin` cells are taken off each of its four
/// sides; the empty rectangle at the origin where `area` is narrower or lower
/// than twice the margin.
pub open spec fn inner_area(area: Area, margin: u16) -> Area {
    if area.width < doubled_margin(margin) || area.height < doubled_margin(margin) {
        Area { x: 0, y: 0, width: 0, height: 0 }
    } else {
        Area {
            x: moved_by_margin(area.x, margin),
            y: moved_by_margin(area.y, margin),
            width: (area.width - doubled_margin(margin)) as u16,
            height: (area.height - doubled_margin(margin)) as u16,
        }
    }
}

/// Whether `row` is one of the rows into which `within` is divided from top
/// to bottom: it spans the width of `within`, it does not begin above it, and
/// it does not end below it.
pub open spec fn is_row_of(row: Area, within: Area) -> bool {
    &&& row.x == within.x
    &&& row.width == within.width
    &&& within.y <= row.y
    &&& row.y + row.height <= within.y + within.height
    &&& row.y + row.height <= u16::MAX
}

/// The share of the height, in percent, that each of `count` panes asks for.
pub open spec fn row_percentage(count: nat) -> nat
    recommends
        count > 0,
{
    100nat / count
}

/// The rows of text that a pane of the given area shows inside its border.
pub open spec fn rows_inside_border(area: Area) -> nat {
    if area.height >= BORDER_ROWS {
        (area.height - BORDER_ROWS) as nat
    } else {
        0
    }
}

/// The rows of text that the pane at `index` shows: those inside the border
/// of its area in `layout`, and none where the layout has no area for it.
pub open spec fn visible_rows(layout: Seq<Area>, index: int) -> nat {
    if 0 <= index < layout.len() {
        rows_inside_border(layout[index])
    } else {
        0
    }
}

/// Calls `ratatui::layout::Layout::split` on `area`, for a vertical layout
/// with the given margin on every side and `count` constraints that each ask
/// for `percent` percent of the height.
///
/// Believed of it: one area comes back for each constraint; each has the left
/// edge and the width of `area` without its margin (`Rect::inner`); each lies
/// between the top and the bottom of `area` without its margin, which the
/// solver is required to keep every boundary within; and the bottom edge of
/// each is a `u16`. How the solver divides the height among the areas, and
/// that they follow one another without overlap, is not stated: the solver
/// is asked for both, but not required to give them.
///
/// `count` is bounded so that the list of constraints can be allocated.
#[verifier::external_body]
fn split_vertically(area: Area, margin: u16, percent: u16, count: usize) -> (rows: Vec<Area>)
    requires
        count <= u16::MAX,
    ensures
        rows@.len() == count,
        forall|i: int|
            0 <= i < rows@.len() ==> is_row_of(#[trigger] rows@[i], inner_area(area, margin)),
{
    let rect = Rect { x: area.x, y: area.y, width: area.width, height: area.height };
    Layout::default()
        .direction(Direction::Vertical)
        .margin(margin)
        .constraints(vec![Constraint::Percentage(percent); count])
        .split(rect)
        .iter()
        .map(|r| Area { x: r.x, y: r.y, width: r.width, height: r.height })
        .collect()
}

/// The share of the height, in percent, that each of `count` panes asks for.
pub fn percentage_per_pane(count: usize) -> (percent: u16)
    requires
        1 <= count <= u16::MAX,
    ensures
        percent == row_percentage(count as nat),
{
    100 / (count as u16)
}

/// Divides `area` among `count` panes stacked from top to bottom, leaving
/// `PANE_MARGIN` cells free on every side. Each pane asks for the same share
/// of the height.
///
/// One area comes back for each pane. All of them span the width that the
/// margin leaves and lie between the top and the bottom that it leaves.
/// Their heights are those that the layout solver finds for equal shares.
pub fn get_layout(area: Area, count: usize) -> (rows: Vec<Area>)
    requires
        1 <= count <= u16::MAX,
    ensures
        rows@.len() == count,
        forall|i: int|
            0 <= i < rows@.len() ==> is_row_of(#[trigger] rows@[i], inner_area(area, PANE_MARGIN)),
{
    split_vertically(area, PANE_MARGIN, percentage_per_pane(count), count)
}

/// The rows of text that the pane at `index` shows, given the areas of all
/// panes: the height of its area without the two rows of its border, and
/// none where `layout` has no area for it.
pub fn visible_height(layout: &Vec<Area>, index: usize) -> (rows: u16)
    ensures
        rows == visible_rows(layout@, index as int),
{
    if index < layout.len() {
        let height = layout[index].height;
        if height >= BORDER_ROWS {
            height - BORDER_ROWS
        } else {
            0
        }
    } else {
        0
    }
}

} // verus!

//! The dashboard: one pane for each session, and how the panes react to
//! output and to key presses.
//!
//! The dashboard owns no terminal. The loop around it hands it the lines
//! that arrived and the key that was pressed, sends the command that a key
//! press asks for, and draws the windows that the dashboard describes.

use crate::config::count_allowed;
use crate::layout::{visible_height, visible_rows, Area};
use crate::process::ProcessCommand;
use vstd::prelude::*;

verus! {

/// How long, in milliseconds, the loop waits for a key before it looks for
/// new output again.
pub const INPUT_POLL_MILLIS: u64 = 100;

/// A key press, as far as the dashboard tells keys apart.
#[derive(Debug, Clone, Copy, PartialEq, Eq, Structural)]
pub enum Key {
    Char(char),
    Up,
    Down,
    Other,
}

/// What the loop has to do after a key press.
#[derive(Debug, Clone, Copy, PartialEq, Eq, Structural)]
pub enum InputOutcome {
    /// Leave the loop.
    Quit,
    /// Send `command` to the inbox of the session at `session`, and to no
    /// other.
    Send { session: usize, command: ProcessCommand },
    /// Nothing to send; go on.
    Continue,
}

/// What a pane is, as a value.
pub struct PaneModel {
    /// The name of the process, as the title shows it.
    pub name: Seq<char>,
    /// Every line received so far, oldest first.
    pub lines: Seq<Seq<char>>,
    /// The index of the topmost line shown.
    pub offset: nat,
    /// Whether the last command issued for the process was a start.
    pub running: bool,
}

/// The largest scroll offset of a buffer of `count` lines: the index of its
/// last line, and 0 for an empty buffer.
pub open spec fn last_offset(count: nat) -> nat {
    if count == 0 {
        0
    } else {
        (count - 1) as nat
    }
}

/// The command that brings a session in line with a pane's flag.
pub open spec fn mirrored_command(running: bool) -> ProcessCommand {
    if running {
        ProcessCommand::Start
    } else {
        ProcessCommand::Stop
    }
}

/// Whether `c` is one of the digits that stand for a pane: `1` to `9`.
pub open spec fn is_pane_digit(c: char) -> bool {
    '1' <= c && c <= '9'
}

/// The index of the pane that the digit `c` stands for: 0 for `1`, and so on.
pub open spec fn pane_of_digit(c: char) -> int
    recommends
        is_pane_digit(c),
{
    c as int - '1' as int
}

/// The texts of `lines`.
pub open spec fn texts(lines: Seq<String>) -> Seq<Seq<char>> {
    Seq::new(lines.len(), |i: int| lines[i]@)
}

/// The texts of the lines of each pane.
pub open spec fn pane_texts(output: Seq<Vec<String>>) -> Seq<Seq<Seq<char>>> {
    Seq::new(output.len(), |i: int| texts(output[i]@))
}

/// `lines` as one text, with a line feed between each two.
pub open spec fn joined(lines: Seq<Seq<char>>) -> Seq<char>
    decreases lines.len(),
{
    if lines.len() == 0 {
        Seq::empty()
    } else if lines.len() == 1 {
        lines[0]
    } else {
        joined(lines.drop_last()) + seq!['\n'] + lines.last()
    }
}

impl PaneModel {
    /// The scroll offset names a line of the buffer, or is 0 where the
    /// buffer is empty.
    pub open spec fn wf(self) -> bool {
        self.offset <= last_offset(self.lines.len())
    }

    /// The pane of a process that was just launched: no output yet.
    pub open spec fn fresh(name: Seq<char>) -> PaneModel {
        PaneModel { name, lines: Seq::empty(), offset: 0, running: true }
    }

    /// One line up, unless the first line is at the top already.
    pub open spec fn scrolled_up(self) -> PaneModel {
        PaneModel {
            name: self.name,
            lines: self.lines,
            offset: if self.offset > 0 {
                (self.offset - 1) as nat
            } else {
                self.offset
            },
            running: self.running,
        }
    }

    /// One line down, unless the last line is at the top already.
    pub open spec fn scrolled_down(self) -> PaneModel {
        PaneModel {
            name: self.name,
            lines: self.lines,
            offset: if self.offset < last_offset(self.lines.len()) {
                self.offset + 1
            } else {
                self.offset
            },
            running: self.running,
        }
    }

    /// The flag turned over.
    pub open spec fn toggled(self) -> PaneModel {
        PaneModel {
            name: self.name,
            lines: self.lines,
            offset: self.offset,
            running: !self.running,
        }
    }

    /// The pane after `lines` were appended while it showed `rows` rows of
    /// text. Where lines arrived and the buffer now fills the rows that the
    /// pane shows, the newest line is on the last row shown, wherever the
    /// pane was scrolled to. A buffer that is still shorter than the pane, a
    /// pane that shows no rows, and a drain that brought no line leave the
    /// offset as it was.
    pub open spec fn appended(self, lines: Seq<Seq<char>>, rows: nat) -> PaneModel {
        PaneModel {
            name: self.name,
            lines: self.lines + lines,
            offset: if lines.len() > 0 && rows > 0 && self.lines.len() + lines.len() >= rows {
                (self.lines.len() + lines.len() - rows) as nat
            } else {
                self.offset
            },
            running: self.running,
        }
    }

    /// The title of the pane's window: the name, a space, and the label of
    /// the button, which names what the next toggle does.
    pub open spec fn title(self) -> Seq<char> {
        self.name + " "@ + if self.running {
            "[Stop]"@
        } else {
            "[Start]"@
        }
    }

    /// The text of the pane's window: the lines from the one at the scroll
    /// offset on, with a line feed between each two.
    pub open spec fn shown_text(self) -> Seq<char> {
        joined(self.lines.skip(self.offset as int))
    }
}

/// Whether `panes` can be the panes of a dashboard.
pub open spec fn panes_wf(panes: Seq<PaneModel>) -> bool {
    &&& count_allowed(panes.len())
    &&& forall|i: int| 0 <= i < panes.len() ==> (#[trigger] panes[i]).wf()
}

/// The panes of a dashboard that was just started for processes of these
/// names.
pub open spec fn fresh_panes(names: Seq<String>) -> Seq<PaneModel> {
    Seq::new(names.len(), |i: int| PaneModel::fresh(names[i]@))
}

/// Whether the key `key` toggles one of `count` panes.
pub open spec fn toggles_a_pane(count: nat, key: Key) -> bool {
    key matches Key::Char(c) && is_pane_digit(c) && pane_of_digit(c) < count
}

/// The panes after a key press.
///
/// A digit that stands for one of the panes toggles that pane. The arrow
/// keys scroll every pane by one line. Any other key changes nothing.
pub open spec fn after_key(panes: Seq<PaneModel>, key: Key) -> Seq<PaneModel> {
    match key {
        Key::Char(c) => if toggles_a_pane(panes.len(), key) {
            panes.update(pane_of_digit(c), panes[pane_of_digit(c)].toggled())
        } else {
            panes
        },
        Key::Up => Seq::new(panes.len(), |i: int| panes[i].scrolled_up()),
        Key::Down => Seq::new(panes.len(), |i: int| panes[i].scrolled_down()),
        Key::Other => panes,
    }
}

/// What the loop has to do after a key press.
///
/// `q` quits. A digit that stands for one of the panes sends one command to
/// the session of that pane: the one that brings it in line with the pane's
/// new flag.
pub open spec fn outcome_of(panes: Seq<PaneModel>, key: Key) -> InputOutcome {
    match key {
        Key::Char(c) => if c == 'q' {
            InputOutcome::Quit
        } else if toggles_a_pane(panes.len(), key) {
            InputOutcome::Send {
                session: pane_of_digit(c) as usize,
                command: mirrored_command(!panes[pane_of_digit(c)].running),
            }
        } else {
            InputOutcome::Continue
        },
        _ => InputOutcome::Continue,
    }
}

/// The panes after `output[i]` was appended to pane `i`, for every pane,
/// while the panes had the areas of `layout`.
pub open spec fn after_output(
    panes: Seq<PaneModel>,
    output: Seq<Seq<Seq<char>>>,
    layout: Seq<Area>,
) -> Seq<PaneModel> {
    Seq::new(panes.len(), |i: int| panes[i].appended(output[i], visible_rows(layout, i)))
}

/// The log of one process and how it is shown.
pub struct PaneState {
    name: String,
    lines: Vec<String>,
    offset: usize,
    running: bool,
}

impl View for PaneState {
    type V = PaneModel;

    closed spec fn view(&self) -> PaneModel {
        PaneModel {
            name: self.name@,
            lines: texts(self.lines@),
            offset: self.offset as nat,
            running: self.running,
        }
    }
}

impl PaneState {
    pub open spec fn wf(&self) -> bool {
        self@.wf()
    }

    /// The pane of a process that is launched together with the dashboard.
    pub fn new(name: String) -> (pane: Self)
        ensures
            pane.wf(),
            pane@ == PaneModel::fresh(name@),
    {
        let pane = PaneState { name, lines: Vec::new(), offset: 0, running: true };
        assert(pane@.lines =~= Seq::empty());
        pane
    }

    pub fn name(&self) -> (name: &str)
        ensures
            name@ == self@.name,
    {
        self.name.as_str()
    }

    /// Every line received so far, oldest first.
    pub fn lines(&self) -> (lines: &Vec<String>)
        ensures
            texts(lines@) == self@.lines,
    {
        &self.lines
    }

    /// The index of the topmost line shown.
    pub fn scroll_offset(&self) -> (offset: usize)
        ensures
            offset == self@.offset,
    {
        self.offset
    }

    pub fn is_running(&self) -> (running: bool)
        ensures
            running == self@.running,
    {
        self.running
    }

    /// Appends one line that arrived while the pane showed `rows` rows.
    pub fn append_line(&mut self, line: String, rows: u16)
        requires
            old(self).wf(),
        ensures
            final(self).wf(),
            final(self)@ == old(self)@.appended(seq![line@], rows as nat),
    {
        self.lines.push(line);
        let count = self.lines.len();
        if rows > 0 && count >= rows as usize {
            self.offset = count - rows as usize;
        }
        assert(self@.lines =~= old(self)@.lines + seq![line@]);
    }

    /// Appends the lines that arrived while the pane showed `rows` rows, in
    /// their order, and keeps the newest of them in sight.
    pub fn append_lines(&mut self, lines: Vec<String>, rows: u16)
        requires
            old(self).wf(),
        ensures
            final(self).wf(),
            final(self)@ == old(self)@.appended(texts(lines@), rows as nat),
    {
        let ghost arrived = texts(lines@);
        assert(old(self)@.lines + arrived.take(0) =~= old(self)@.lines);
        for line in it: lines.into_iter()
            invariant
                it.seq() == lines@,
                arrived == texts(lines@),
                self.wf(),
                self@ == old(self)@.appended(arrived.take(it.index()), rows as nat),
        {
            let ghost before = self@;
            let ghost done = it.index();
            self.append_line(line, rows);
            assert(arrived.take(done) + seq![line@] =~= arrived.take(done + 1));
            assert(old(self)@.lines + arrived.take(done) + seq![line@] =~= old(self)@.lines
                + arrived.take(done + 1));
        }
        assert(arrived.take(arrived.len() as int) =~= arrived);
    }

    /// Scrolls one line up, unless the first line is at the top already.
    pub fn scroll_up(&mut self)
        requires
            old(self).wf(),
        ensures
            final(self).wf(),
            final(self)@ == old(self)@.scrolled_up(),
    {
        if self.offset > 0 {
            self.offset = self.offset - 1;
        }
    }

    /// Scrolls one line down, unless the last line is at the top already.
    pub fn scroll_down(&mut self)
        requires
            old(self).wf(),
        ensures
            final(self).wf(),
            final(self)@ == old(self)@.scrolled_down(),
    {
        let count = self.lines.len();
        if count > 0 && self.offset < count - 1 {
            self.offset = self.offset + 1;
        }
    }

    /// Turns the flag over and returns the command that brings the session
    /// in line with it: stop for a pane that was running, start for one that
    /// was not.
    pub fn toggle(&mut self) -> (command: ProcessCommand)
        requires
            old(self).wf(),
        ensures
            final(self).wf(),
            final(self)@ == old(self)@.toggled(),
            command == mirrored_command(!old(self)@.running),
    {
        self.running = !self.running;
        if self.running {
            ProcessCommand::Start
        } else {
            ProcessCommand::Stop
        }
    }

    /// The title of the pane's window: `name [Stop]` while the process is
    /// meant to run, `name [Start]` while it is not.
    pub fn title(&self) -> (title: String)
        ensures
            title@ == self@.title(),
    {
        let mut title = self.name.clone();
        title.append(" ");
        if self.running {
            title.append("[Stop]");
        } else {
            title.append("[Start]");
        }
        title
    }

    /// The text of the pane's window: the lines from the one at the scroll
    /// offset on, with a line feed between each two.
    pub fn shown_text(&self) -> (text: String)
        requires
            self.wf(),
        ensures
            text@ == self@.shown_text(),
    {
        let ghost all = texts(self.lines@);
        let count = self.lines.len();
        let mut text = String::new();
        let mut index = self.offset;
        assert(all.subrange(self.offset as int, index as int) =~= Seq::empty());
        while index < count
            invariant
                self.wf(),
                self.offset <= index <= count,
                count == self.lines@.len(),
                all == texts(self.lines@),
                text@ == joined(all.subrange(self.offset as int, index as int)),
            decreases count - index,
        {
            let ghost shown = all.subrange(self.offset as int, index as int);
            let ghost next = all.subrange(self.offset as int, index + 1);
            assert(next.drop_last() =~= shown);
            assert(next.last() == self.lines@[index as int]@);
            if index > self.offset {
                proof {
                    reveal_strlit("\n");
                    assert("\n"@ =~= seq!['\n']);
                }
                text.append("\n");
            } else {
                assert(text@ + self.lines@[index as int]@ =~= self.lines@[index as int]@);
            }
            text.append(self.lines[index].as_str());
            index = index + 1;
        }
        assert(all.subrange(self.offset as int, index as int) =~= all.skip(self.offset as int));
        text
    }
}

/// What is drawn for one pane.
#[derive(Debug, Clone, PartialEq, Eq)]
pub struct PaneWindow {
    /// The title in the border of the window.
    pub title: String,
    /// The text inside the border, from its first row on.
    pub text: String,
    /// The length that the scrollbar stands for: the number of lines in the
    /// buffer.
    pub content_length: usize,
    /// The position of the scrollbar: the scroll offset.
    pub position: usize,
    /// Where the window is drawn.
    pub area: Area,
}

impl PaneWindow {
    /// Whether this is the window of `pane`, drawn in `area`.
    pub open spec fn shows(&self, pane: PaneModel, area: Area) -> bool {
        &&& self.title@ == pane.title()
        &&& self.text@ == pane.shown_text()
        &&& self.content_length == pane.lines.len()
        &&& self.position == pane.offset
        &&& self.area == area
    }
}

/// The line of key bindings at the bottom of the screen.
#[derive(Debug, Clone, PartialEq, Eq)]
pub struct HelpLine {
    pub text: String,
    pub area: Area,
}

/// The row of the last line of `area`: its first row, where it has none.
pub open spec fn last_row(area: Area) -> int {
    if area.height > 0 {
        area.y + area.height - 1
    } else {
        area.y as int
    }
}

/// The help line for a screen of the given area: the key bindings, on the
/// last row of the screen and as wide as the screen.
pub fn help_line(area: Area) -> (line: HelpLine)
    requires
        last_row(area) <= u16::MAX,
    ensures
        line.text@ == "(q: quit, 1-9: toggle process, ↑/↓: scroll)"@,
        line.area == (Area { x: area.x, y: last_row(area) as u16, width: area.width, height: 1 }),
{
    let below_first: u16 = if area.height > 0 {
        area.height - 1
    } else {
        0
    };
    HelpLine {
        text: String::from_str("(q: quit, 1-9: toggle process, ↑/↓: scroll)"),
        area: Area { x: area.x, y: area.y + below_first, width: area.width, height: 1 },
    }
}

/// The panes of all sessions, in the order of the sessions.
pub struct Dashboard {
    panes: Vec<PaneState>,
}

impl View for Dashboard {
    type V = Seq<PaneModel>;

    closed spec fn view(&self) -> Seq<PaneModel> {
        Seq::new(self.panes@.len(), |i: int| self.panes@[i]@)
    }
}

impl Dashboard {
    /// There is one pane for each process of an accepted configuration, and
    /// the scroll offset of each names a line of its buffer.
    pub open spec fn wf(&self) -> bool {
        panes_wf(self@)
    }

    /// The dashboard at startup: one pane for each name, in order, each
    /// without output and each meant to run.
    pub fn new(names: Vec<String>) -> (dashboard: Self)
        requires
            count_allowed(names@.len()),
        ensures
            dashboard.wf(),
            dashboard@ == fresh_panes(names@),
    {
        let mut panes: Vec<PaneState> = Vec::new();
        for name in it: names.into_iter()
            invariant
                it.seq() == names@,
                panes@.len() == it.index(),
                forall|i: int|
                    0 <= i < panes@.len() ==> (#[trigger] panes@[i])@ == PaneModel::fresh(
                        names@[i]@,
                    ),
        {
            panes.push(PaneState::new(name));
        }
        let dashboard = Dashboard { panes };
        assert(dashboard@ =~= fresh_panes(names@));
        dashboard
    }

    /// The number of panes. It never changes.
    pub fn pane_count(&self) -> (count: usize)
        ensures
            count == self@.len(),
    {
        self.panes.len()
    }

    pub fn pane(&self, index: usize) -> (pane: &PaneState)
        requires
            index < self@.len(),
        ensures
            pane@ == self@[index as int],
    {
        &self.panes[index]
    }

    /// The commands to send at startup, one for the session of each pane in
    /// order: the command that the pane's flag mirrors, which at startup is
    /// a start for every session.
    pub fn startup_commands(&self) -> (commands: Vec<ProcessCommand>)
        ensures
            commands@.len() == self@.len(),
            forall|i: int|
                0 <= i < commands@.len() ==> #[trigger] commands@[i] == mirrored_command(
                    self@[i].running,
                ),
    {
        let mut commands: Vec<ProcessCommand> = Vec::new();
        let count = self.panes.len();
        let mut index: usize = 0;
        while index < count
            invariant
                index <= count,
                count == self@.len(),
                commands@.len() == index,
                forall|i: int|
                    0 <= i < index ==> #[trigger] commands@[i] == mirrored_command(
                        self@[i].running,
                    ),
            decreases count - index,
        {
            let command = if self.panes[index].is_running() {
                ProcessCommand::Start
            } else {
                ProcessCommand::Stop
            };
            commands.push(command);
            index = index + 1;
        }
        commands
    }

    /// Appends to each pane the lines that were taken from its session's
    /// output channel, `output[i]` to pane `i`, and keeps the newest line of
    /// each pane that received any in sight. `layout` holds the areas of the
    /// panes, from which the rows that each shows follow.
    pub fn update_buffers_and_scroll(&mut self, output: Vec<Vec<String>>, layout: &Vec<Area>)
        requires
            old(self).wf(),
            output@.len() == old(self)@.len(),
        ensures
            final(self).wf(),
            final(self)@ == after_output(old(self)@, pane_texts(output@), layout@),
    {
        let ghost arrived = pane_texts(output@);
        let mut index: usize = 0;
        for lines in it: output.into_iter()
            invariant
                it.seq() == output@,
                arrived == pane_texts(output@),
                index == it.index(),
                self@.len() == old(self)@.len(),
                output@.len() == old(self)@.len(),
                count_allowed(self@.len()),
                forall|i: int|
                    0 <= i < index ==> #[trigger] self@[i] == old(self)@[i].appended(
                        arrived[i],
                        visible_rows(layout@, i),
                    ),
                forall|i: int| index <= i < self@.len() ==> #[trigger] self@[i] == old(self)@[i],
                forall|i: int| 0 <= i < self@.len() ==> (#[trigger] self@[i]).wf(),
        {
            let ghost before = self@;
            assert(index < before.len());
            assert(before[index as int].wf());
            let rows = visible_height(layout, index);
            self.panes[index].append_lines(lines, rows);
            assert(self@ =~= before.update(
                index as int,
                before[index as int].appended(texts(lines@), rows as nat),
            ));
            index = index + 1;
        }
        assert(self@ =~= after_output(old(self)@, arrived, layout@));
    }

    /// Reacts to a key press and says what the loop has to do.
    ///
    /// `q` asks the loop to quit. A digit from `1` to `9` that stands for one
    /// of the panes turns the flag of that pane over and asks for one
    /// command to be sent to its session; no other pane changes. The up and
    /// down arrows scroll every pane by one line, each within its own
    /// buffer. Every other key, and a digit beyond the panes, is ignored.
    pub fn handle_input_event(&mut self, key: Key) -> (outcome: InputOutcome)
        requires
            old(self).wf(),
        ensures
            final(self).wf(),
            final(self)@ == after_key(old(self)@, key),
            outcome == outcome_of(old(self)@, key),
    {
        match key {
            Key::Char(c) => {
                if c == 'q' {
                    return InputOutcome::Quit;
                }
                if c >= '1' && c <= '9' {
                    let session = (c as u32 - '1' as u32) as usize;
                    if session < self.panes.len() {
                        assert(old(self)@[session as int].wf());
                        let command = self.panes[session].toggle();
                        assert(self@ =~= old(self)@.update(
                            session as int,
                            old(self)@[session as int].toggled(),
                        ));
                        return InputOutcome::Send { session, command };
                    }
                }
                InputOutcome::Continue
            },
            Key::Up => {
                let count = self.panes.len();
                let mut index: usize = 0;
                while index < count
                    invariant
                        index <= count,
                        count == self@.len(),
                        self@.len() == old(self)@.len(),
                        forall|i: int|
                            0 <= i < index ==> #[trigger] self@[i] == old(self)@[i].scrolled_up(),
                        forall|i: int| index <= i < count ==> #[trigger] self@[i] == old(self)@[i],
                        forall|i: int| 0 <= i < count ==> (#[trigger] self@[i]).wf(),
                    decreases count - index,
                {
                    let ghost before = self@;
                    assert(before[index as int].wf());
                    self.panes[index].scroll_up();
                    assert(self@ =~= before.update(
                        index as int,
                        before[index as int].scrolled_up(),
                    ));
                    index = index + 1;
                }
                assert(self@ =~= after_key(old(self)@, key));
                InputOutcome::Continue
            },
            Key::Down => {
                let count = self.panes.len();
                let mut index: usize = 0;
                while index < count
                    invariant
                        index <= count,
                        count == self@.len(),
                        self@.len() == old(self)@.len(),
                        forall|i: int|
                            0 <= i < index ==> #[trigger] self@[i] == old(
                                self,
                            )@[i].scrolled_down(),
                        forall|i: int| index <= i < count ==> #[trigger] self@[i] == old(self)@[i],
                        forall|i: int| 0 <= i < count ==> (#[trigger] self@[i]).wf(),
                    decreases count - index,
                {
                    let ghost before = self@;
                    assert(before[index as int].wf());
                    self.panes[index].scroll_down();
                    assert(self@ =~= before.update(
                        index as int,
                        before[index as int].scrolled_down(),
                    ));
                    index = index + 1;
                }
                assert(self@ =~= after_key(old(self)@, key));
                InputOutcome::Continue
            },
            Key::Other => InputOutcome::Continue,
        }
    }

    /// Describes the window of every pane, in order: the window of pane `i`
    /// is drawn in `layout[i]`.
    pub fn windows(&self, layout: &Vec<Area>) -> (windows: Vec<PaneWindow>)
        requires
            self.wf(),
            layout@.len() == self@.len(),
        ensures
            windows@.len() == self@.len(),
            forall|i: int|
                0 <= i < windows@.len() ==> (#[trigger] windows@[i]).shows(self@[i], layout@[i]),
    {
        let mut windows: Vec<PaneWindow> = Vec::new();
        let count = self.panes.len();
        let mut index: usize = 0;
        while index < count
            invariant
                index <= count,
                count == self@.len(),
                layout@.len() == self@.len(),
                self.wf(),
                windows@.len() == index,
                forall|i: int|
                    0 <= i < index ==> (#[trigger] windows@[i]).shows(self@[i], layout@[i]),
            decreases count - index,
        {
            let pane = &self.panes[index];
            assert(self@[index as int].wf());
            let window = PaneWindow {
                title: pane.title(),
                text: pane.shown_text(),
                content_length: pane.lines.len(),
                position: pane.offset,
                area: layout[index],
            };
            windows.push(window);
            index = index + 1;
        }
        windows
    }
}

/// Autoscroll: after lines were appended to a pane that shows `rows` rows,
/// a buffer that is at least as long as the pane shows has its scroll offset
/// at its length less `rows`, so that the newest line is on the last row.
///
/// This holds whatever the offset was before, where the pane shows at least
/// one row and at least one line arrived.
pub proof fn lemma_autoscroll_keeps_newest_in_sight(
    pane: PaneModel,
    lines: Seq<Seq<char>>,
    rows: nat,
)
    requires
        pane.wf(),
        rows >= 1,
        lines.len() >= 1,
        pane.lines.len() + lines.len() >= rows,
    ensures
        pane.appended(lines, rows).lines.len() == pane.lines.len() + lines.len(),
        pane.appended(lines, rows).offset == pane.appended(lines, rows).lines.len() - rows,
        pane.appended(lines, rows).wf(),
{
}

/// Appending lines one after the other leaves a pane as appending them all
/// at once does.
pub proof fn lemma_appending_in_parts(
    pane: PaneModel,
    first: Seq<Seq<char>>,
    second: Seq<Seq<char>>,
    rows: nat,
)
    ensures
        pane.appended(first, rows).appended(second, rows) == pane.appended(first + second, rows),
{
    assert(pane.lines + first + second =~= pane.lines + (first + second));
}

/// Scrolling stops at both ends of the buffer: up leaves an offset of 0 at
/// 0, down leaves the offset of the last line where it is, and neither takes
/// the offset out of the buffer.
pub proof fn lemma_scroll_stops_at_the_ends(pane: PaneModel)
    requires
        pane.wf(),
    ensures
        pane.offset == 0 ==> pane.scrolled_up().offset == 0,
        pane.offset > 0 ==> pane.scrolled_up().offset == pane.offset - 1,
        pane.offset == last_offset(pane.lines.len()) ==> pane.scrolled_down().offset
            == pane.offset,
        pane.offset < last_offset(pane.lines.len()) ==> pane.scrolled_down().offset == pane.offset
            + 1,
        pane.scrolled_up().wf(),
        pane.scrolled_down().wf(),
{
}

/// The digit `k`, counted from 1, sends exactly one command, to session
/// `k - 1`, and turns over the flag of that pane and of no other; nothing
/// else of any pane changes. A digit beyond the panes sends nothing and
/// changes nothing.
pub proof fn lemma_digit_toggles_its_pane(panes: Seq<PaneModel>, digit: char)
    requires
        is_pane_digit(digit),
    ensures
        pane_of_digit(digit) < panes.len() ==> {
            let k = pane_of_digit(digit);
            &&& outcome_of(panes, Key::Char(digit)) == (InputOutcome::Send {
                session: k as usize,
                command: mirrored_command(!panes[k].running),
            })
            &&& after_key(panes, Key::Char(digit)).len() == panes.len()
            &&& after_key(panes, Key::Char(digit))[k] == panes[k].toggled()
            &&& forall|j: int|
                0 <= j < panes.len() && j != k ==> #[trigger] after_key(panes, Key::Char(digit))[j]
                    == panes[j]
        },
        pane_of_digit(digit) >= panes.len() ==> {
            &&& outcome_of(panes, Key::Char(digit)) == InputOutcome::Continue
            &&& after_key(panes, Key::Char(digit)) == panes
        },
{
}

/// No output changes the number of panes or takes a scroll offset out of
/// its buffer, whatever arrived and whatever the areas of the panes are.
pub proof fn lemma_output_keeps_panes_wf(
    panes: Seq<PaneModel>,
    output: Seq<Seq<Seq<char>>>,
    layout: Seq<Area>,
)
    requires
        panes_wf(panes),
    ensures
        after_output(panes, output, layout).len() == panes.len(),
        panes_wf(after_output(panes, output, layout)),
{
    assert forall|i: int| 0 <= i < panes.len() implies (#[trigger] after_output(
        panes,
        output,
        layout,
    )[i]).wf() by {
        assert(panes[i].wf());
    }
}

/// No key press changes the number of panes or takes a scroll offset out of
/// its buffer.
pub proof fn lemma_keys_keep_panes_wf(panes: Seq<PaneModel>, key: Key)
    requires
        panes_wf(panes),
    ensures
        after_key(panes, key).len() == panes.len(),
        panes_wf(after_key(panes, key)),
{
}

} // verus!

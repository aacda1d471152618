//! The line reader: what becomes of each line read from a child's output.
//!
//! A reader reads its stream line by line. After each read it asks
//! `next_step` what to do: forward the line, without the line ending that the
//! read left on it, or finish. It finishes when the stream has closed and
//! when a read has failed, which is how it learns that its process stopped.

use vstd::prelude::*;

verus! {

/// Whether `c` belongs to a line ending: a line feed or a carriage return.
pub open spec fn is_line_ending(c: char) -> bool {
    c == '\n' || c == '\r'
}

/// `line` without the line feeds and carriage returns that it ends with.
/// Everything before them stays as it is, spaces included.
pub open spec fn without_line_ending(line: Seq<char>) -> Seq<char>
    decreases line.len(),
{
    if line.len() > 0 && is_line_ending(line.last()) {
        without_line_ending(line.drop_last())
    } else {
        line
    }
}

/// How a read from the stream ended.
#[derive(Debug, Clone, Copy, PartialEq, Eq, Structural)]
pub enum ReadOutcome {
    /// The read succeeded and took this many bytes. Zero bytes mean that
    /// the stream has closed.
    Read { bytes: usize },
    /// The read failed.
    Failed,
}

/// What a reader does after a read.
#[derive(Debug, Clone, PartialEq, Eq)]
pub enum ReaderStep {
    /// Send this text to the output channel, then read on.
    Forward(String),
    /// Stop reading. Nothing is sent and no error is raised.
    Finish,
}

/// Whether a reader goes on after a read that ended with `outcome`.
pub open spec fn reads_on(outcome: ReadOutcome) -> bool {
    outcome matches ReadOutcome::Read { bytes } && bytes > 0
}

/// Removes the line ending from `line`: every line feed and carriage return
/// at its end. Nothing else is removed.
pub fn strip_line_ending(line: &str) -> (stripped: String)
    ensures
        stripped@ == without_line_ending(line@),
{
    let mut end: usize = line.unicode_len();
    assert(line@.subrange(0, end as int) == line@);
    loop
        invariant
            end <= line@.len(),
            without_line_ending(line@) == without_line_ending(line@.subrange(0, end as int)),
        ensures
            end <= line@.len(),
            without_line_ending(line@) == line@.subrange(0, end as int),
        decreases end,
    {
        if end == 0 {
            break;
        }
        let last = line.get_char(end - 1);
        if last != '\n' && last != '\r' {
            break;
        }
        assert(line@.subrange(0, end as int).drop_last() == line@.subrange(0, end - 1));
        end = end - 1;
    }
    String::from_str(line.substring_char(0, end))
}

/// Decides what a reader does after a read that ended with `outcome` and
/// left `line` in its buffer.
///
/// A read that took at least one byte forwards the line without its line
/// ending. A read that took none, or that failed, finishes the reader.
pub fn next_step(outcome: ReadOutcome, line: &str) -> (step: ReaderStep)
    ensures
        match step {
            ReaderStep::Forward(text) => reads_on(outcome) && text@ == without_line_ending(line@),
            ReaderStep::Finish => !reads_on(outcome),
        },
{
    match outcome {
        ReadOutcome::Read { bytes } => {
            if bytes > 0 {
                ReaderStep::Forward(strip_line_ending(line))
            } else {
                ReaderStep::Finish
            }
        },
        ReadOutcome::Failed => ReaderStep::Finish,
    }
}

/// What stripping leaves is the longest beginning of the line that does not
/// end with a line feed or a carriage return: it is a beginning of the line,
/// it ends with neither, and everything after it is one of the two.
pub proof fn lemma_stripping_removes_the_ending_only(line: Seq<char>)
    ensures
        without_line_ending(line).len() <= line.len(),
        without_line_ending(line) == line.subrange(0, without_line_ending(line).len() as int),
        without_line_ending(line).len() > 0 ==> !is_line_ending(without_line_ending(line).last()),
        forall|i: int|
            without_line_ending(line).len() <= i < line.len() ==> is_line_ending(#[trigger] line[i]),
    decreases line.len(),
{
    if line.len() > 0 && is_line_ending(line.last()) {
        let rest = line.drop_last();
        lemma_stripping_removes_the_ending_only(rest);
        assert(rest.subrange(0, without_line_ending(rest).len() as int) == line.subrange(
            0,
            without_line_ending(rest).len() as int,
        ));
        assert forall|i: int| without_line_ending(line).len() <= i < line.len() implies is_line_ending(
            #[trigger] line[i],
        ) by {
            if i < rest.len() {
                assert(line[i] == rest[i]);
            }
        }
    } else {
        assert(line.subrange(0, line.len() as int) == line);
    }
}

} // verus!

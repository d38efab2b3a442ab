//! A single task and the line of text that stands for it.

use vstd::prelude::*;
use vstd::string::StringExecFns;
use crate::text::string_of;

verus! {

/// What is known of a task's progress.
#[derive(Clone, Copy, Debug, PartialEq, Eq, Structural)]
pub enum Status {
    /// Still to do; its line starts with `"[ ] "`.
    Pending,
    /// Completed; its line starts with `"[*] "`.
    Done,
    /// A legacy line that carries no marker and is kept as it was found.
    Raw,
}

/// One entry of the list.
#[derive(Clone, Debug, PartialEq, Eq)]
pub struct Task {
    pub status: Status,
    pub text: String,
}

/// The mathematical value of a task: its status and the characters of its
/// text.
pub struct TaskModel {
    pub status: Status,
    pub text: Seq<char>,
}

impl View for Task {
    type V = TaskModel;

    open spec fn view(&self) -> TaskModel {
        TaskModel { status: self.status, text: self.text@ }
    }
}

/// The four characters that open the line of a pending task.
pub open spec fn pending_marker() -> Seq<char> {
    seq!['[', ' ', ']', ' ']
}

/// The four characters that open the line of a completed task.
pub open spec fn done_marker() -> Seq<char> {
    seq!['[', '*', ']', ' ']
}

/// The marker that a status puts in front of the text; none for a legacy
/// line.
pub open spec fn marker_of(status: Status) -> Seq<char> {
    match status {
        Status::Pending => pending_marker(),
        Status::Done => done_marker(),
        Status::Raw => Seq::<char>::empty(),
    }
}

/// Whether `line` starts with the characters of `marker`.
pub open spec fn starts_with(line: Seq<char>, marker: Seq<char>) -> bool {
    marker.len() <= line.len() && line.take(marker.len() as int) == marker
}

/// The line that stands for a task: its marker, then its text.
pub open spec fn encode_task(t: TaskModel) -> Seq<char> {
    marker_of(t.status) + t.text
}

/// The task that a line stands for. A line that starts with one of the two
/// markers is a pending or a completed task whose text is what follows the
/// marker; any other line is a legacy task whose text is the whole line.
pub open spec fn decode_line(line: Seq<char>) -> TaskModel {
    if starts_with(line, pending_marker()) {
        TaskModel { status: Status::Pending, text: line.skip(4) }
    } else if starts_with(line, done_marker()) {
        TaskModel { status: Status::Done, text: line.skip(4) }
    } else {
        TaskModel { status: Status::Raw, text: line }
    }
}

/// The pending task with the given text.
pub open spec fn pending(text: Seq<char>) -> TaskModel {
    TaskModel { status: Status::Pending, text }
}

/// The task once completed: the same text, marked done.
pub open spec fn completed(t: TaskModel) -> TaskModel {
    TaskModel { status: Status::Done, text: t.text }
}

/// Decoding the line of a marked task gives the task back.
pub proof fn lemma_decode_encoded(t: TaskModel)
    requires
        t.status != Status::Raw,
    ensures
        decode_line(encode_task(t)) == t,
        encode_task(t).len() == t.text.len() + 4,
{
    let line = encode_task(t);
    assert(line.take(4) =~= marker_of(t.status));
    assert(line.skip(4) =~= t.text);
}

impl Task {
    /// A new pending task with the given text.
    pub fn new(text: &str) -> (t: Task)
        ensures
            t@ == pending(text@),
    {
        Task { status: Status::Pending, text: text.to_owned() }
    }

    /// Whether the task has been completed.
    pub fn is_done(&self) -> (b: bool)
        ensures
            b == (self@.status == Status::Done),
    {
        match self.status {
            Status::Done => true,
            _ => false,
        }
    }

    /// The line that stands for the task in the stored list.
    pub fn line(&self) -> (out: String)
        ensures
            out@ == encode_task(self@),
    {
        let mut out = String::new();
        match self.status {
            Status::Pending => {
                out.push('[');
                out.push(' ');
                out.push(']');
                out.push(' ');
            },
            Status::Done => {
                out.push('[');
                out.push('*');
                out.push(']');
                out.push(' ');
            },
            Status::Raw => {},
        }
        out.append(self.text.as_str());
        out
    }

    /// Reads the task that the line `chars[from..to]` stands for.
    pub fn from_line(chars: &Vec<char>, from: usize, to: usize) -> (t: Task)
        requires
            from <= to <= chars.len(),
        ensures
            t@ == decode_line(chars@.subrange(from as int, to as int)),
    {
        let ghost line = chars@.subrange(from as int, to as int);
        if to - from >= 4 && chars[from] == '[' && chars[from + 2] == ']' && chars[from + 3] == ' '
            && (chars[from + 1] == ' ' || chars[from + 1] == '*') {
            let status = if chars[from + 1] == ' ' {
                Status::Pending
            } else {
                Status::Done
            };
            proof {
                assert(line.take(4) =~= marker_of(status));
                assert(line.skip(4) =~= chars@.subrange(from + 4, to as int));
            }
            Task { status, text: string_of(chars, from + 4, to) }
        } else {
            Task { status: Status::Raw, text: string_of(chars, from, to) }
        }
    }
}

} // verus!

//! The stored form of a list: one line per task, each closed by a line feed.

use vstd::prelude::*;
use vstd::string::StringExecFns;
use crate::task::{
    decode_line, done_marker, encode_task, lemma_decode_encoded, pending_marker, starts_with, Status,
    Task, TaskModel,
};
use crate::text::chars_of;

verus! {

/// The values of a run of tasks, in order.
pub open spec fn models(tasks: Seq<Task>) -> Seq<TaskModel> {
    tasks.map_values(|t: Task| t@)
}

/// The stored text of a list: the line of each task in order, each followed
/// by a line feed.
pub open spec fn encode(tasks: Seq<TaskModel>) -> Seq<char>
    decreases tasks.len(),
{
    if tasks.len() == 0 {
        Seq::<char>::empty()
    } else {
        encode(tasks.drop_last()) + encode_task(tasks.last()).push('\n')
    }
}

/// Where the first line of `s` ends: the position of its first line feed,
/// or the length of `s` where it holds none.
pub open spec fn line_end(s: Seq<char>) -> int
    decreases s.len(),
{
    if s.len() == 0 || s[0] == '\n' {
        0
    } else {
        1 + line_end(s.drop_first())
    }
}

/// A line without the carriage return that a line feed may follow.
pub open spec fn without_return(line: Seq<char>) -> Seq<char> {
    if line.len() > 0 && line.last() == '\r' {
        line.drop_last()
    } else {
        line
    }
}

/// The list that a stored text stands for. The text is cut at line feeds; a
/// carriage return just before a line feed belongs to the line ending. Each
/// line that is not empty is one task, in order; what follows the last line
/// feed is a line too, taken as it stands.
pub open spec fn decode(s: Seq<char>) -> Seq<TaskModel>
    decreases s.len(),
{
    let k = line_end(s);
    if s.len() == 0 {
        Seq::<TaskModel>::empty()
    } else if k < 0 || k >= s.len() {
        seq![decode_line(s)]
    } else {
        let line = without_return(s.take(k));
        let rest = decode(s.skip(k + 1));
        if line.len() == 0 {
            rest
        } else {
            seq![decode_line(line)] + rest
        }
    }
}

/// A task that the stored form keeps: its text holds no line feed and does
/// not end in a carriage return, and a legacy task is a line that is not
/// empty and starts with neither marker.
pub open spec fn storable(t: TaskModel) -> bool {
    &&& forall|i: int| 0 <= i < t.text.len() ==> t.text[i] != '\n'
    &&& t.text.len() > 0 ==> t.text.last() != '\r'
    &&& t.status == Status::Raw ==> {
        &&& t.text.len() > 0
        &&& !starts_with(t.text, pending_marker())
        &&& !starts_with(t.text, done_marker())
    }
}

/// The first line of `s` ends at `k` where no line feed comes before `k`
/// and one stands at `k`, or `s` ends there.
pub proof fn lemma_line_end(s: Seq<char>, k: int)
    requires
        0 <= k <= s.len(),
        forall|j: int| 0 <= j < k ==> s[j] != '\n',
        k == s.len() || s[k] == '\n',
    ensures
        line_end(s) == k,
    decreases k,
{
    if k > 0 {
        let t = s.drop_first();
        lemma_line_end(t, k - 1);
    }
}

/// The stored text of a list that is not empty is the line of its first
/// task, a line feed, and the stored text of the others.
pub proof fn lemma_encode_first(tasks: Seq<TaskModel>)
    requires
        tasks.len() > 0,
    ensures
        encode(tasks) == encode_task(tasks[0]).push('\n') + encode(tasks.drop_first()),
    decreases tasks.len(),
{
    if tasks.len() == 1 {
        assert(tasks.drop_last() =~= Seq::<TaskModel>::empty());
        assert(tasks.drop_first() =~= Seq::<TaskModel>::empty());
    } else {
        let front = tasks.drop_last();
        lemma_encode_first(front);
        assert(front.drop_first() =~= tasks.drop_first().drop_last());
        assert(encode(tasks) =~= encode_task(tasks[0]).push('\n') + encode(tasks.drop_first()));
    }
}

/// Storing a list and reading the stored text again gives the same list:
/// the same tasks in the same order, each with its text and its status,
/// provided that the stored form keeps every task.
pub proof fn lemma_store_then_read(tasks: Seq<TaskModel>)
    requires
        forall|i: int| 0 <= i < tasks.len() ==> storable(#[trigger] tasks[i]),
    ensures
        decode(encode(tasks)) == tasks,
    decreases tasks.len(),
{
    if tasks.len() > 0 {
        let first = tasks[0];
        let others = tasks.drop_first();
        let line = encode_task(first);
        let s = encode(tasks);
        lemma_encode_first(tasks);
        lemma_store_then_read(others);
        if first.status != Status::Raw {
            lemma_decode_encoded(first);
        }
        assert forall|j: int| 0 <= j < line.len() implies line[j] != '\n' by {}
        let k = line.len() as int;
        lemma_line_end(s, k);
        assert(s.take(k) =~= line);
        assert(s.skip(k + 1) =~= encode(others));
    }
}

/// Reads a stored text: the list it stands for.
pub fn parse(contents: &str) -> (tasks: Vec<Task>)
    ensures
        models(tasks@) == decode(contents@),
{
    let chars = chars_of(contents);
    let n = chars.len();
    let mut tasks: Vec<Task> = Vec::new();
    let mut pos: usize = 0;
    assert(chars@.skip(0) =~= chars@);
    while pos < n
        invariant
            pos <= n,
            n == chars.len(),
            chars@ == contents@,
            decode(chars@) == models(tasks@) + decode(chars@.skip(pos as int)),
        decreases n - pos,
    {
        let ghost rest = chars@.skip(pos as int);
        let mut end: usize = pos;
        while end < n && chars[end] != '\n'
            invariant
                pos <= end <= n,
                n == chars.len(),
                forall|j: int| pos <= j < end ==> chars@[j] != '\n',
            decreases n - end,
        {
            end += 1;
        }
        let ghost k = end - pos;
        proof {
            lemma_line_end(rest, k);
        }
        if end == n {
            tasks.push(Task::from_line(&chars, pos, n));
            pos = n;
        } else {
            let mut stop: usize = end;
            if stop > pos && chars[stop - 1] == '\r' {
                stop -= 1;
            }
            proof {
                assert(without_return(rest.take(k)) =~= chars@.subrange(pos as int, stop as int));
                assert(rest.skip(k + 1) =~= chars@.skip(end + 1));
            }
            if stop > pos {
                tasks.push(Task::from_line(&chars, pos, stop));
            }
            pos = end + 1;
        }
    }
    tasks
}

/// Writes a list in its stored form.
pub fn serialize(tasks: &Vec<Task>) -> (out: String)
    ensures
        out@ == encode(models(tasks@)),
{
    let mut out = String::new();
    let mut i: usize = 0;
    let ghost all = models(tasks@);
    while i < tasks.len()
        invariant
            i <= tasks.len(),
            all == models(tasks@),
            out@ == encode(all.take(i as int)),
        decreases tasks.len() - i,
    {
        let line = tasks[i].line();
        proof {
            assert(all.take(i + 1).drop_last() =~= all.take(i as int));
        }
        out.append(line.as_str());
        out.push('\n');
        i += 1;
    }
    assert(all.take(i as int) =~= all);
    out
}

} // verus!

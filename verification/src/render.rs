//! The listing: one numbered line per task, with terminal styles.

use vstd::prelude::*;
use vstd::string::StringExecFns;
use colored::Colorize;
use crate::task::{Status, Task, TaskModel};
use crate::text::{decimal, to_decimal};

verus! {

/// The escape sequence that switches bold type on.
pub open spec fn bold_code() -> Seq<char> {
    seq!['\x1b', '[', '1', 'm']
}

/// The escape sequence that switches struck-through type on.
pub open spec fn strike_code() -> Seq<char> {
    seq!['\x1b', '[', '9', 'm']
}

/// The escape sequence that switches every style off.
pub open spec fn reset_code() -> Seq<char> {
    seq!['\x1b', '[', '0', 'm']
}

/// The two forms in which a styled text is written: the text as it is, or
/// the text between the style's escape sequence and the reset sequence.
pub open spec fn plain_or_wrapped(plain: Seq<char>, code: Seq<char>, out: Seq<char>) -> bool {
    out == plain || out == code + plain + reset_code()
}

/// What styling may make of a text. Whether styles are written at all is
/// decided by the terminal and the environment, once for the whole run, so
/// a text without an escape character comes out in one of the two forms.
/// A text that itself holds an escape character may also come out with
/// further sequences inside; of it nothing more is said than that it is
/// unchanged where styles are off.
pub open spec fn styled(plain: Seq<char>, code: Seq<char>, out: Seq<char>) -> bool {
    out == plain || (!plain.contains('\x1b') ==> out == code + plain + reset_code())
}

/// A line of the listing: the number, a space, the text and a line feed.
pub open spec fn listing_line(ordinal: Seq<char>, body: Seq<char>) -> Seq<char> {
    ordinal + seq![' '] + body + seq!['\n']
}

/// Whether `line` may be shown for the task `t` at `position`, counted from
/// zero: the task's number in bold, counted from one, then its text without
/// the marker, struck through where the task is done.
pub open spec fn shows(line: Seq<char>, position: int, t: TaskModel) -> bool {
    exists|ordinal: Seq<char>, body: Seq<char>|
        {
            &&& plain_or_wrapped(decimal((position + 1) as nat), bold_code(), ordinal)
            &&& if t.status == Status::Done {
                styled(t.text, strike_code(), body)
            } else {
                body == t.text
            }
            &&& line == #[trigger] listing_line(ordinal, body)
        }
}

/// The text of the notice shown in place of an empty list.
pub open spec fn empty_notice() -> Seq<char> {
    "📭 Your todo list is empty!"@
}

/// No decimal numeral holds an escape character.
pub proof fn lemma_numeral_without_escape(n: nat)
    ensures
        !decimal(n).contains('\x1b'),
    decreases n,
{
    if n >= 10 {
        lemma_numeral_without_escape(n / 10);
    }
    assert forall|i: int| 0 <= i < decimal(n).len() implies decimal(n)[i] != '\x1b' by {
        if n >= 10 && i < decimal(n).len() - 1 {
            assert(decimal(n / 10).contains(decimal(n)[i]));
        }
    }
}

/// `colored::Colorize::bold` on a `&str`, written out through `Display`:
/// the text itself where styles are switched off, and, for a text without
/// an escape character, the text between `ESC[1m` and `ESC[0m` where they
/// are on.
#[verifier::external_body]
fn bold(text: &str) -> (out: String)
    ensures
        styled(text@, bold_code(), out@),
{
    format!("{}", text.bold())
}

/// `colored::Colorize::strikethrough` on a `&str`, written out through
/// `Display`: the text itself where styles are switched off, and, for a
/// text without an escape character, the text between `ESC[9m` and `ESC[0m`
/// where they are on.
#[verifier::external_body]
fn strikethrough(text: &str) -> (out: String)
    ensures
        styled(text@, strike_code(), out@),
{
    format!("{}", text.strikethrough())
}

/// Puts a line of the listing together from its number and its text, each
/// as it is to appear.
pub fn compose_line(ordinal: &str, body: &str) -> (out: String)
    ensures
        out@ == listing_line(ordinal@, body@),
{
    let mut out = String::new();
    out.append(ordinal);
    out.push(' ');
    out.append(body);
    out.push('\n');
    out
}

/// The line of the listing for `task` at `position`, counted from zero.
pub fn render_task(position: usize, task: &Task) -> (out: String)
    requires
        position < usize::MAX,
    ensures
        shows(out@, position as int, task@),
{
    let number = to_decimal(position + 1);
    let ordinal = bold(number.as_str());
    proof {
        lemma_numeral_without_escape((position + 1) as nat);
    }
    match task.status {
        Status::Done => {
            let body = strikethrough(task.text.as_str());
            compose_line(ordinal.as_str(), body.as_str())
        },
        _ => compose_line(ordinal.as_str(), task.text.as_str()),
    }
}

/// The line shown in place of an empty list.
pub fn empty_line() -> (out: String)
    ensures
        out@ == empty_notice().push('\n'),
{
    let mut out = "📭 Your todo list is empty!".to_owned();
    out.push('\n');
    out
}

} // verus!

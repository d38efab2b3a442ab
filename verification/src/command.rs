//! One command at a time: which command a word names, what it does to the
//! list, and whether the list has to be written back afterwards.

use vstd::prelude::*;
use crate::render::{empty_notice, shows};
use crate::store::{after_done, pending_all, position_of, Todo, TodoError};
use crate::task::{encode_task, pending, Task, TaskModel};

verus! {

/// The commands.
#[derive(Clone, Copy, Debug, PartialEq, Eq, Structural)]
pub enum Command {
    /// Show the list.
    List,
    /// Append one task for each argument.
    Add,
    /// Delete the task that the first argument names.
    Rm,
    /// Complete the task that the first argument names.
    Done,
    /// Replace the task that the first argument names by the second.
    Edit,
    /// Empty the list.
    Reset,
}

/// What a command did.
#[derive(Clone, Debug, PartialEq, Eq)]
pub enum Outcome {
    /// The lines of the listing; the list is as it was.
    Listed(Vec<String>),
    /// Tasks were appended.
    Added,
    /// The task that is handed back was deleted.
    Removed(Task),
    /// A task was completed; its new line is handed back.
    Completed(String),
    /// A task was replaced.
    Edited,
    /// The list was emptied.
    Cleared,
    /// The command was refused and the list is as it was.
    Refused(TodoError),
}

/// The command that a word names, if any.
pub open spec fn command_named(word: Seq<char>) -> Option<Command> {
    if word == "list"@ {
        Some(Command::List)
    } else if word == "add"@ {
        Some(Command::Add)
    } else if word == "rm"@ {
        Some(Command::Rm)
    } else if word == "done"@ {
        Some(Command::Done)
    } else if word == "edit"@ {
        Some(Command::Edit)
    } else if word == "reset"@ {
        Some(Command::Reset)
    } else {
        None
    }
}

/// The position that the first argument names, where there is one.
pub open spec fn named_position(tasks: Seq<TaskModel>, args: Seq<String>) -> Result<
    int,
    TodoError,
> {
    if args.len() == 0 {
        Err(TodoError::MissingArgument)
    } else {
        position_of(args[0]@, tasks.len())
    }
}

/// The list that a command leaves behind, or the reason why it is refused.
pub open spec fn list_after(command: Command, tasks: Seq<TaskModel>, args: Seq<String>) -> Result<
    Seq<TaskModel>,
    TodoError,
> {
    match command {
        Command::List => Ok(tasks),
        Command::Add => if args.len() == 0 {
            Err(TodoError::MissingArgument)
        } else {
            Ok(tasks + pending_all(args))
        },
        Command::Rm => match named_position(tasks, args) {
            Ok(p) => Ok(tasks.remove(p)),
            Err(e) => Err(e),
        },
        Command::Done => match named_position(tasks, args) {
            Ok(p) => Ok(after_done(tasks, p)),
            Err(e) => Err(e),
        },
        Command::Edit => if args.len() < 2 {
            Err(TodoError::MissingArgument)
        } else {
            match position_of(args[0]@, tasks.len()) {
                Ok(p) => Ok(tasks.update(p, pending(args[1]@))),
                Err(e) => Err(e),
            }
        },
        Command::Reset => Ok(Seq::<TaskModel>::empty()),
    }
}

/// Whether an outcome is the one that a command gives when it is carried
/// out.
pub open spec fn answers(out: Outcome, command: Command) -> bool {
    match command {
        Command::List => out is Listed,
        Command::Add => out is Added,
        Command::Rm => out is Removed,
        Command::Done => out is Completed,
        Command::Edit => out is Edited,
        Command::Reset => out is Cleared,
    }
}

impl Outcome {
    /// Whether the stored list is out of date after this outcome: after
    /// every command that was carried out, but for a listing.
    pub open spec fn stale(self) -> bool {
        !(self is Listed) && !(self is Refused)
    }

    /// Whether the list has to be written back.
    pub fn must_save(&self) -> (b: bool)
        ensures
            b == self.stale(),
    {
        match self {
            Outcome::Listed(_) => false,
            Outcome::Refused(_) => false,
            _ => true,
        }
    }
}

/// Reads the name of a command.
pub fn parse_command(word: &str) -> (r: Option<Command>)
    ensures
        r == command_named(word@),
{
    let word = word.to_owned();
    if word == "list".to_owned() {
        Some(Command::List)
    } else if word == "add".to_owned() {
        Some(Command::Add)
    } else if word == "rm".to_owned() {
        Some(Command::Rm)
    } else if word == "done".to_owned() {
        Some(Command::Done)
    } else if word == "edit".to_owned() {
        Some(Command::Edit)
    } else if word == "reset".to_owned() {
        Some(Command::Reset)
    } else {
        None
    }
}

/// Carries out one command on the list. A command that is refused leaves
/// the list as it was; one that is carried out leaves the list that the
/// command describes and answers with its own outcome.
pub fn run(todo: &mut Todo, command: Command, args: &[String]) -> (out: Outcome)
    ensures
        final(todo).path() == old(todo).path(),
        match list_after(command, old(todo)@, args@) {
            Ok(tasks) => final(todo)@ == tasks && answers(out, command),
            Err(e) => final(todo)@ == old(todo)@ && out == Outcome::Refused(e),
        },
        match out {
            Outcome::Listed(lines) => {
                &&& old(todo)@.len() == 0 ==> lines@.len() == 1 && lines@[0]@
                    == empty_notice().push('\n')
                &&& old(todo)@.len() > 0 ==> lines@.len() == old(todo)@.len()
                &&& old(todo)@.len() > 0 ==> forall|i: int|
                    0 <= i < old(todo)@.len() ==> shows(#[trigger] lines@[i]@, i, old(todo)@[i])
            },
            Outcome::Removed(task) => {
                &&& named_position(old(todo)@, args@) is Ok
                &&& task@ == old(todo)@[named_position(old(todo)@, args@)->Ok_0]
            },
            Outcome::Completed(line) => final(todo)@.len() > 0 && line@ == encode_task(
                final(todo)@.last(),
            ),
            _ => true,
        },
{
    match command {
        Command::List => Outcome::Listed(todo.list()),
        Command::Add => match todo.add(args) {
            Ok(()) => Outcome::Added,
            Err(e) => Outcome::Refused(e),
        },
        Command::Rm => match todo.rm(args) {
            Ok(task) => Outcome::Removed(task),
            Err(e) => Outcome::Refused(e),
        },
        Command::Done => match todo.done(args) {
            Ok(line) => Outcome::Completed(line),
            Err(e) => Outcome::Refused(e),
        },
        Command::Edit => match todo.edit(args) {
            Ok(()) => Outcome::Edited,
            Err(e) => Outcome::Refused(e),
        },
        Command::Reset => {
            todo.reset();
            Outcome::Cleared
        },
    }
}

} // verus!

//! The list itself: tasks known by their position, counted from one.

use vstd::prelude::*;
use crate::format::{decode, encode, models, parse, serialize};
use crate::render::{empty_line, empty_notice, render_task, shows};
use crate::task::{completed, encode_task, pending, Status, Task, TaskModel};
use crate::text::{index_value, parse_index};

verus! {

/// Why a command left the list as it was.
#[derive(Clone, Copy, Debug, PartialEq, Eq, Structural)]
pub enum TodoError {
    /// The command was given fewer arguments than it needs.
    MissingArgument,
    /// The argument that should name a task is no number.
    InvalidIndex,
    /// No task has that number.
    OutOfRange,
}

/// An ordered list of tasks and the place where it is kept.
pub struct Todo {
    todo: Vec<Task>,
    file_path: String,
}

impl View for Todo {
    type V = Seq<TaskModel>;

    closed spec fn view(&self) -> Seq<TaskModel> {
        models(self.todo@)
    }
}

/// The pending tasks that a run of texts gives, one for each, in order.
pub open spec fn pending_all(texts: Seq<String>) -> Seq<TaskModel> {
    Seq::new(texts.len(), |i: int| pending(texts[i]@))
}

/// The position, counted from zero, that an argument names in a list of
/// `len` tasks: the argument must denote a number, and the number must lie
/// between 1 and `len`, both included. Every command that takes a task
/// number goes by this one rule.
pub open spec fn position_of(arg: Seq<char>, len: nat) -> Result<int, TodoError> {
    match index_value(arg) {
        None => Err(TodoError::InvalidIndex),
        Some(number) => if 1 <= number <= len {
            Ok(number - 1)
        } else {
            Err(TodoError::OutOfRange)
        },
    }
}

/// The list after the task at `p` was completed: the task leaves its place,
/// is marked done and joins the end.
pub open spec fn after_done(tasks: Seq<TaskModel>, p: int) -> Seq<TaskModel> {
    tasks.remove(p).push(completed(tasks[p]))
}

/// Reads the position that `arg` names in a list of `len` tasks.
pub fn find_position(arg: &str, len: usize) -> (r: Result<usize, TodoError>)
    ensures
        match position_of(arg@, len as nat) {
            Ok(p) => r == Ok::<usize, TodoError>(p as usize) && p < len,
            Err(e) => r == Err::<usize, TodoError>(e),
        },
{
    match parse_index(arg) {
        None => Err(TodoError::InvalidIndex),
        Some(number) => {
            if 1 <= number && number <= len {
                Ok(number - 1)
            } else {
                Err(TodoError::OutOfRange)
            }
        },
    }
}

impl Todo {
    /// The place where the list is kept.
    pub closed spec fn path(&self) -> Seq<char> {
        self.file_path@
    }

    /// The list kept at `file_path`, read from what was found there:
    /// `Some` with the stored text, or `None` where nothing is stored yet,
    /// which gives the empty list.
    pub fn new(file_path: &str, contents: Option<&str>) -> (t: Todo)
        ensures
            t.path() == file_path@,
            match contents {
                Some(stored) => t@ == decode(stored@),
                None => t@ == Seq::<TaskModel>::empty(),
            },
    {
        let todo = match contents {
            Some(stored) => parse(stored),
            None => Vec::new(),
        };
        Todo { todo, file_path: file_path.to_owned() }
    }

    /// The place where the list is kept.
    pub fn file_path(&self) -> (p: &str)
        ensures
            p@ == self.path(),
    {
        self.file_path.as_str()
    }

    /// The tasks, in order.
    pub fn tasks(&self) -> (tasks: &Vec<Task>)
        ensures
            models(tasks@) == self@,
    {
        &self.todo
    }

    /// The number of tasks.
    pub fn len(&self) -> (n: usize)
        ensures
            n == self@.len(),
    {
        self.todo.len()
    }

    /// The stored form of the list, to be written in place of what was
    /// stored before.
    pub fn save(&self) -> (out: String)
        ensures
            out@ == encode(self@),
    {
        serialize(&self.todo)
    }

    /// Appends one pending task for each text, in the order given. Without
    /// any text nothing is added and the call fails.
    pub fn add(&mut self, args: &[String]) -> (r: Result<(), TodoError>)
        ensures
            final(self).path() == old(self).path(),
            args@.len() == 0 ==> r == Err::<(), TodoError>(TodoError::MissingArgument),
            args@.len() == 0 ==> final(self)@ == old(self)@,
            args@.len() > 0 ==> r is Ok && final(self)@ == old(self)@ + pending_all(args@),
            args@.len() > 0 ==> final(self)@.len() == old(self)@.len() + args@.len(),
            args@.len() > 0 ==> forall|i: int|
                old(self)@.len() <= i < final(self)@.len() ==> (#[trigger] final(self)@[i]).status
                    == Status::Pending,
    {
        if args.len() == 0 {
            return Err(TodoError::MissingArgument);
        }
        let mut i: usize = 0;
        while i < args.len()
            invariant
                i <= args.len(),
                self.file_path == old(self).file_path,
                models(self.todo@) == models(old(self).todo@) + pending_all(args@).take(i as int),
            decreases args.len() - i,
        {
            let task = Task::new(args[i].as_str());
            proof {
                assert(models(self.todo@.push(task)) =~= models(self.todo@).push(task@));
            }
            self.todo.push(task);
            i += 1;
        }
        Ok(())
    }

    /// Deletes the task with the number `index`, counted from one, and hands
    /// it back. Every later task moves up by one place. A number that no
    /// task has leaves the list as it was.
    pub fn remove(&mut self, index: usize) -> (r: Result<Task, TodoError>)
        ensures
            final(self).path() == old(self).path(),
            1 <= index <= old(self)@.len() ==> {
                &&& r is Ok
                &&& r->Ok_0@ == old(self)@[index - 1]
                &&& final(self)@ == old(self)@.remove(index - 1)
                &&& final(self)@.len() == old(self)@.len() - 1
                &&& forall|j: int| 0 <= j < index - 1 ==> final(self)@[j] == old(self)@[j]
                &&& forall|j: int|
                    index - 1 <= j < final(self)@.len() ==> final(self)@[j] == old(self)@[j + 1]
            },
            !(1 <= index <= old(self)@.len()) ==> {
                &&& r is Err
                &&& r->Err_0 == TodoError::OutOfRange
                &&& final(self)@ == old(self)@
            },
    {
        if 1 <= index && index <= self.todo.len() {
            let task = self.todo.remove(index - 1);
            Ok(task)
        } else {
            Err(TodoError::OutOfRange)
        }
    }

    /// Deletes the task that the first argument names by its number.
    pub fn rm(&mut self, args: &[String]) -> (r: Result<Task, TodoError>)
        ensures
            final(self).path() == old(self).path(),
            args@.len() == 0 ==> r is Err && r->Err_0 == TodoError::MissingArgument && final(self)@
                == old(self)@,
            args@.len() > 0 ==> match position_of(args@[0]@, old(self)@.len()) {
                Ok(p) => {
                    &&& r is Ok
                    &&& r->Ok_0@ == old(self)@[p]
                    &&& final(self)@ == old(self)@.remove(p)
                },
                Err(e) => r is Err && r->Err_0 == e && final(self)@ == old(self)@,
            },
    {
        if args.len() == 0 {
            return Err(TodoError::MissingArgument);
        }
        match find_position(args[0].as_str(), self.todo.len()) {
            Ok(p) => self.remove(p + 1),
            Err(e) => Err(e),
        }
    }

    /// Marks the task with the number `index`, counted from one, as done
    /// and moves it to the end of the list; hands back its new line. Tasks
    /// before it stay, tasks after it move up by one place, and the list
    /// keeps its length. A legacy line gains the done marker. A number that
    /// no task has leaves the list as it was.
    pub fn complete(&mut self, index: usize) -> (r: Result<String, TodoError>)
        ensures
            final(self).path() == old(self).path(),
            1 <= index <= old(self)@.len() ==> {
                &&& r is Ok
                &&& r->Ok_0@ == encode_task(completed(old(self)@[index - 1]))
                &&& final(self)@ == after_done(old(self)@, index - 1)
                &&& final(self)@.len() == old(self)@.len()
                &&& final(self)@.last().status == Status::Done
                &&& final(self)@.last().text == old(self)@[index - 1].text
                &&& forall|j: int| 0 <= j < index - 1 ==> final(self)@[j] == old(self)@[j]
                &&& forall|j: int|
                    index - 1 <= j < old(self)@.len() - 1 ==> final(self)@[j] == old(self)@[j + 1]
            },
            !(1 <= index <= old(self)@.len()) ==> {
                &&& r is Err
                &&& r->Err_0 == TodoError::OutOfRange
                &&& final(self)@ == old(self)@
            },
    {
        if 1 <= index && index <= self.todo.len() {
            let task = self.todo.remove(index - 1);
            let done = Task { status: Status::Done, text: task.text };
            let line = done.line();
            self.todo.push(done);
            Ok(line)
        } else {
            Err(TodoError::OutOfRange)
        }
    }

    /// Completes the task that the first argument names by its number.
    pub fn done(&mut self, args: &[String]) -> (r: Result<String, TodoError>)
        ensures
            final(self).path() == old(self).path(),
            args@.len() == 0 ==> r is Err && r->Err_0 == TodoError::MissingArgument && final(self)@
                == old(self)@,
            args@.len() > 0 ==> match position_of(args@[0]@, old(self)@.len()) {
                Ok(p) => {
                    &&& r is Ok
                    &&& r->Ok_0@ == encode_task(completed(old(self)@[p]))
                    &&& final(self)@ == after_done(old(self)@, p)
                },
                Err(e) => r is Err && r->Err_0 == e && final(self)@ == old(self)@,
            },
    {
        if args.len() == 0 {
            return Err(TodoError::MissingArgument);
        }
        match find_position(args[0].as_str(), self.todo.len()) {
            Ok(p) => self.complete(p + 1),
            Err(e) => Err(e),
        }
    }

    /// Puts a pending task with the given text in the place of the task
    /// with the number `index`, counted from one, whatever that task was.
    /// All other tasks stay. A number that no task has leaves the list as
    /// it was.
    pub fn replace(&mut self, index: usize, text: &str) -> (r: Result<(), TodoError>)
        ensures
            final(self).path() == old(self).path(),
            1 <= index <= old(self)@.len() ==> {
                &&& r is Ok
                &&& final(self)@ == old(self)@.update(index - 1, pending(text@))
                &&& final(self)@.len() == old(self)@.len()
                &&& final(self)@[index - 1] == pending(text@)
                &&& forall|j: int|
                    0 <= j < old(self)@.len() && j != index - 1 ==> final(self)@[j] == old(self)@[j]
            },
            !(1 <= index <= old(self)@.len()) ==> {
                &&& r == Err::<(), TodoError>(TodoError::OutOfRange)
                &&& final(self)@ == old(self)@
            },
    {
        if 1 <= index && index <= self.todo.len() {
            let task = Task::new(text);
            self.todo.set(index - 1, task);
            Ok(())
        } else {
            Err(TodoError::OutOfRange)
        }
    }

    /// Replaces the task that the first argument names by its number with
    /// a pending task whose text is the second argument.
    pub fn edit(&mut self, args: &[String]) -> (r: Result<(), TodoError>)
        ensures
            final(self).path() == old(self).path(),
            args@.len() < 2 ==> r == Err::<(), TodoError>(TodoError::MissingArgument),
            args@.len() < 2 ==> final(self)@ == old(self)@,
            args@.len() >= 2 ==> match position_of(args@[0]@, old(self)@.len()) {
                Ok(p) => r is Ok && final(self)@ == old(self)@.update(p, pending(args@[1]@)),
                Err(e) => r == Err::<(), TodoError>(e) && final(self)@ == old(self)@,
            },
    {
        if args.len() < 2 {
            return Err(TodoError::MissingArgument);
        }
        match find_position(args[0].as_str(), self.todo.len()) {
            Ok(p) => self.replace(p + 1, args[1].as_str()),
            Err(e) => Err(e),
        }
    }

    /// Empties the list.
    pub fn reset(&mut self)
        ensures
            final(self).path() == old(self).path(),
            final(self)@ == Seq::<TaskModel>::empty(),
    {
        self.todo = Vec::new();
    }

    /// The listing, line by line. An empty list gives the one line of the
    /// notice; any other list gives one line for each task, in order.
    pub fn list(&self) -> (lines: Vec<String>)
        ensures
            self@.len() == 0 ==> lines@.len() == 1 && lines@[0]@ == empty_notice().push('\n'),
            self@.len() > 0 ==> lines@.len() == self@.len(),
            self@.len() > 0 ==> forall|i: int|
                0 <= i < self@.len() ==> shows(#[trigger] lines@[i]@, i, self@[i]),
    {
        let mut lines: Vec<String> = Vec::new();
        if self.todo.len() == 0 {
            lines.push(empty_line());
            return lines;
        }
        let mut i: usize = 0;
        while i < self.todo.len()
            invariant
                i <= self.todo.len(),
                lines@.len() == i,
                forall|j: int| 0 <= j < i ==> shows(#[trigger] lines@[j]@, j, self.todo@[j]@),
            decreases self.todo.len() - i,
        {
            let line = render_task(i, &self.todo[i]);
            lines.push(line);
            i += 1;
        }
        lines
    }
}

} // verus!

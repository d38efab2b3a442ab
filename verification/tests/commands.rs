use todo::command::{parse_command, run, Command, Outcome};
use todo::store::{Todo, TodoError};
use todo::task::{Status, Task};

fn args(items: &[&str]) -> Vec<String> {
    items.iter().map(|s| String::from(*s)).collect()
}

fn sample() -> Todo {
    Todo::new("list.txt", Some("[ ] a\n[*] b\n[ ] c\n"))
}

#[test]
fn parse_command_knows_the_six_commands() {
    assert_eq!(parse_command("list"), Some(Command::List));
    assert_eq!(parse_command("add"), Some(Command::Add));
    assert_eq!(parse_command("rm"), Some(Command::Rm));
    assert_eq!(parse_command("done"), Some(Command::Done));
    assert_eq!(parse_command("edit"), Some(Command::Edit));
    assert_eq!(parse_command("reset"), Some(Command::Reset));
}

#[test]
fn parse_command_knows_no_other_word() {
    assert_eq!(parse_command(""), None);
    assert_eq!(parse_command("List"), None);
    assert_eq!(parse_command("list "), None);
    assert_eq!(parse_command("remove"), None);
    assert_eq!(parse_command("ad"), None);
    assert_eq!(parse_command("adds"), None);
}

#[test]
fn run_list_shows_and_changes_nothing() {
    colored::control::set_override(false);
    let mut todo = sample();
    let out = run(&mut todo, Command::List, &[]);
    assert_eq!(
        out,
        Outcome::Listed(vec![String::from("1 a\n"), String::from("2 b\n"), String::from("3 c\n")])
    );
    assert!(!out.must_save());
    assert_eq!(todo.tasks(), sample().tasks());
}

#[test]
fn run_add_appends() {
    let mut todo = sample();
    let out = run(&mut todo, Command::Add, &args(&["d", "e"]));
    assert_eq!(out, Outcome::Added);
    assert!(out.must_save());
    assert_eq!(todo.save(), "[ ] a\n[*] b\n[ ] c\n[ ] d\n[ ] e\n");
}

#[test]
fn run_rm_hands_back_the_task() {
    let mut todo = sample();
    let out = run(&mut todo, Command::Rm, &args(&["2"]));
    assert_eq!(out, Outcome::Removed(Task { status: Status::Done, text: String::from("b") }));
    assert!(out.must_save());
    assert_eq!(todo.save(), "[ ] a\n[ ] c\n");
}

#[test]
fn run_done_hands_back_the_new_line() {
    let mut todo = sample();
    let out = run(&mut todo, Command::Done, &args(&["1"]));
    assert_eq!(out, Outcome::Completed(String::from("[*] a")));
    assert!(out.must_save());
    assert_eq!(todo.save(), "[*] b\n[ ] c\n[*] a\n");
}

#[test]
fn run_edit_replaces() {
    let mut todo = sample();
    let out = run(&mut todo, Command::Edit, &args(&["2", "new"]));
    assert_eq!(out, Outcome::Edited);
    assert!(out.must_save());
    assert_eq!(todo.save(), "[ ] a\n[ ] new\n[ ] c\n");
}

#[test]
fn run_reset_empties() {
    let mut todo = sample();
    let out = run(&mut todo, Command::Reset, &args(&["ignored"]));
    assert_eq!(out, Outcome::Cleared);
    assert!(out.must_save());
    assert_eq!(todo.save(), "");
}

#[test]
fn run_refuses_without_saving() {
    let mut todo = sample();
    let cases = [
        (Command::Add, args(&[]), TodoError::MissingArgument),
        (Command::Rm, args(&[]), TodoError::MissingArgument),
        (Command::Done, args(&[]), TodoError::MissingArgument),
        (Command::Edit, args(&["1"]), TodoError::MissingArgument),
        (Command::Rm, args(&["two"]), TodoError::InvalidIndex),
        (Command::Done, args(&["2nd"]), TodoError::InvalidIndex),
        (Command::Edit, args(&["", "x"]), TodoError::InvalidIndex),
        (Command::Rm, args(&["4"]), TodoError::OutOfRange),
        (Command::Done, args(&["0"]), TodoError::OutOfRange),
        (Command::Edit, args(&["4", "x"]), TodoError::OutOfRange),
    ];
    for (command, arguments, error) in cases {
        let out = run(&mut todo, command, &arguments);
        assert_eq!(out, Outcome::Refused(error));
        assert!(!out.must_save());
        assert_eq!(todo.tasks(), sample().tasks());
    }
}

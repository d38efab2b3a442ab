use todo::render::{compose_line, empty_line, render_task};
use todo::store::Todo;
use todo::task::{Status, Task};

fn args(items: &[&str]) -> Vec<String> {
    items.iter().map(|s| String::from(*s)).collect()
}

#[test]
fn compose_line_joins_number_and_text() {
    assert_eq!(compose_line("1", "buy milk"), "1 buy milk\n");
    assert_eq!(compose_line("", ""), " \n");
    assert_eq!(compose_line("12", "é"), "12 é\n");
}

#[test]
fn empty_line_is_the_notice() {
    assert_eq!(empty_line(), "📭 Your todo list is empty!\n");
}

#[test]
fn list_of_an_empty_store_is_the_notice_alone() {
    colored::control::set_override(false);
    let todo = Todo::new("p", None);
    assert_eq!(todo.list(), vec![String::from("📭 Your todo list is empty!\n")]);
}

#[test]
fn list_without_styles_numbers_the_texts() {
    colored::control::set_override(false);
    let todo = Todo::new("p", Some("[ ] a\n[*] b\nraw line\n[ ] \n"));
    assert_eq!(todo.list(), ["1 a\n", "2 b\n", "3 raw line\n", "4 \n"]);
}

#[test]
fn list_counts_past_nine() {
    colored::control::set_override(false);
    let mut todo = Todo::new("p", None);
    let texts = args(&["a", "b", "c", "d", "e", "f", "g", "h", "i", "j", "k"]);
    assert_eq!(todo.add(&texts), Ok(()));
    let lines = todo.list();
    assert_eq!(lines.len(), 11);
    assert_eq!(lines[8], "9 i\n");
    assert_eq!(lines[9], "10 j\n");
    assert_eq!(lines[10], "11 k\n");
}

#[test]
fn render_task_without_styles() {
    colored::control::set_override(false);
    let t = Task { status: Status::Done, text: String::from("x") };
    assert_eq!(render_task(0, &t), "1 x\n");
    assert_eq!(render_task(41, &t), "42 x\n");
}

#[test]
fn a_session_listed_without_styles() {
    colored::control::set_override(false);
    let mut todo = Todo::new("p", None);
    assert_eq!(todo.add(&args(&["buy milk", "walk dog"])), Ok(()));
    assert_eq!(todo.list(), ["1 buy milk\n", "2 walk dog\n"]);
    assert!(todo.tasks().iter().all(|t| t.status == Status::Pending));
    assert!(todo.done(&args(&["1"])).is_ok());
    assert_eq!(todo.list(), ["1 walk dog\n", "2 buy milk\n"]);
}

use todo_list::input::{command_of, parse_command, parse_number, Command};
use todo_list::persist::{restore, StoredTasks};
use todo_list::store::{add_task, complete_task, delete_task, render_entry, view_tasks, InvalidTaskNumber, ViewEntry};
use todo_list::task::Task;

fn task(description: &str, completed: bool) -> Task {
    Task { description: description.to_string(), completed }
}

fn lines(tasks: &Vec<Task>) -> Vec<String> {
    view_tasks(tasks).iter().map(render_entry).collect()
}

#[test]
fn new_task_is_pending() {
    let t = Task::new("write report".to_string());
    assert_eq!(t, task("write report", false));
}

#[test]
fn add_then_view_shows_pending_last() {
    let mut tasks = vec![task("a", true), task("b", false)];
    add_task(&mut tasks, "c".to_string());
    let entries = view_tasks(&tasks);
    assert_eq!(entries.len(), 3);
    let last = entries.last().unwrap();
    assert_eq!(last.position, 3);
    assert_eq!(last.description, "c");
    assert_eq!(last.status, "pending");
}

#[test]
fn add_accepts_empty_and_duplicate_descriptions() {
    let mut tasks = Vec::new();
    add_task(&mut tasks, String::new());
    add_task(&mut tasks, "x".to_string());
    add_task(&mut tasks, "x".to_string());
    assert_eq!(tasks, vec![task("", false), task("x", false), task("x", false)]);
}

#[test]
fn complete_marks_only_the_named_task() {
    let mut tasks = vec![task("a", false), task("b", false), task("c", false)];
    assert_eq!(complete_task(&mut tasks, 2), Ok(()));
    assert_eq!(tasks, vec![task("a", false), task("b", true), task("c", false)]);
}

#[test]
fn complete_twice_same_as_once() {
    let mut once = vec![task("a", false), task("b", false)];
    let mut twice = once.clone();
    assert_eq!(complete_task(&mut once, 1), Ok(()));
    assert_eq!(complete_task(&mut twice, 1), Ok(()));
    assert_eq!(complete_task(&mut twice, 1), Ok(()));
    assert_eq!(once, twice);
}

#[test]
fn delete_shifts_positions() {
    let mut tasks = vec![task("A", false), task("B", false), task("C", false)];
    assert_eq!(delete_task(&mut tasks, 1), Ok(()));
    assert_eq!(tasks, vec![task("B", false), task("C", false)]);
    let entries = view_tasks(&tasks);
    assert_eq!(entries[0].position, 1);
    assert_eq!(entries[0].description, "B");
}

#[test]
fn delete_same_index_twice_targets_next_task() {
    let mut tasks = vec![task("A", false), task("B", false)];
    assert_eq!(delete_task(&mut tasks, 1), Ok(()));
    assert_eq!(delete_task(&mut tasks, 1), Ok(()));
    assert!(tasks.is_empty());
    assert_eq!(delete_task(&mut tasks, 1), Err(InvalidTaskNumber));
}

#[test]
fn out_of_range_numbers_are_rejected() {
    for n in 0..4usize {
        let original: Vec<Task> = (0..n).map(|i| task(&format!("t{}", i), i % 2 == 0)).collect();
        let mut tasks = original.clone();
        assert_eq!(complete_task(&mut tasks, 0), Err(InvalidTaskNumber));
        assert_eq!(complete_task(&mut tasks, n + 1), Err(InvalidTaskNumber));
        assert_eq!(delete_task(&mut tasks, 0), Err(InvalidTaskNumber));
        assert_eq!(delete_task(&mut tasks, n + 1), Err(InvalidTaskNumber));
        assert_eq!(tasks, original);
    }
}

#[test]
fn largest_number_is_rejected() {
    let mut tasks = vec![task("a", false)];
    assert_eq!(complete_task(&mut tasks, usize::MAX), Err(InvalidTaskNumber));
    assert_eq!(delete_task(&mut tasks, usize::MAX), Err(InvalidTaskNumber));
    assert_eq!(tasks, vec![task("a", false)]);
}

#[test]
fn view_of_empty_store_is_empty() {
    let tasks: Vec<Task> = Vec::new();
    assert!(view_tasks(&tasks).is_empty());
}

#[test]
fn view_is_repeatable() {
    let tasks = vec![task("a", true), task("b", false)];
    assert_eq!(view_tasks(&tasks), view_tasks(&tasks));
    assert_eq!(tasks, vec![task("a", true), task("b", false)]);
}

#[test]
fn render_writes_position_description_and_status() {
    let entry = ViewEntry { position: 1, description: "buy milk".to_string(), status: "pending".to_string() };
    assert_eq!(render_entry(&entry), "1. buy milk [pending]");
    let entry = ViewEntry { position: 120, description: "x".to_string(), status: "completed".to_string() };
    assert_eq!(render_entry(&entry), "120. x [completed]");
}

#[test]
fn parse_number_reads_unsigned_decimals() {
    assert_eq!(parse_number("42"), 42);
    assert_eq!(parse_number("007"), 7);
    assert_eq!(parse_number("+7"), 7);
    assert_eq!(parse_number("0"), 0);
    assert_eq!(parse_number(&usize::MAX.to_string()), usize::MAX);
}

#[test]
fn parse_number_reads_anything_else_as_zero() {
    assert_eq!(parse_number(""), 0);
    assert_eq!(parse_number("abc"), 0);
    assert_eq!(parse_number("-1"), 0);
    assert_eq!(parse_number("+"), 0);
    assert_eq!(parse_number("1a"), 0);
    assert_eq!(parse_number(" 5"), 0);
    assert_eq!(parse_number("4.5"), 0);
    let too_large = format!("{}0", usize::MAX);
    assert_eq!(parse_number(&too_large), 0);
}

#[test]
fn menu_choices_select_commands() {
    assert_eq!(parse_command("1"), Command::AddTask);
    assert_eq!(parse_command("2"), Command::ViewTasks);
    assert_eq!(parse_command("3"), Command::CompleteTask);
    assert_eq!(parse_command("4"), Command::DeleteTask);
    assert_eq!(parse_command("5"), Command::SaveAndExit);
    assert_eq!(parse_command("+5"), Command::SaveAndExit);
}

#[test]
fn other_menu_input_is_invalid() {
    assert_eq!(parse_command("0"), Command::Invalid);
    assert_eq!(parse_command("6"), Command::Invalid);
    assert_eq!(parse_command(""), Command::Invalid);
    assert_eq!(parse_command("add"), Command::Invalid);
    assert_eq!(command_of(usize::MAX), Command::Invalid);
}

#[test]
fn restore_keeps_a_parsed_list() {
    let saved = vec![task("call Sam", true), task("buy milk", false)];
    assert_eq!(restore(StoredTasks::Parsed(saved.clone())), saved);
}

#[test]
fn restore_of_corrupt_file_is_empty() {
    assert!(restore(StoredTasks::Corrupt).is_empty());
}

#[test]
fn restore_of_missing_file_is_empty() {
    assert!(restore(StoredTasks::Missing).is_empty());
}

#[test]
fn end_to_end_scenario() {
    let mut tasks = restore(StoredTasks::Missing);
    add_task(&mut tasks, "buy milk".to_string());
    add_task(&mut tasks, "call Sam".to_string());
    assert_eq!(complete_task(&mut tasks, 2), Ok(()));
    assert_eq!(lines(&tasks), vec!["1. buy milk [pending]", "2. call Sam [completed]"]);
    assert_eq!(delete_task(&mut tasks, 1), Ok(()));
    assert_eq!(lines(&tasks), vec!["1. call Sam [completed]"]);
    let reloaded = restore(StoredTasks::Parsed(tasks.clone()));
    assert_eq!(reloaded, vec![task("call Sam", true)]);
}

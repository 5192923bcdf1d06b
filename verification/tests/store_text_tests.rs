use mpv_control::store::{add_item, delete_item, list_items, Store};
use mpv_control::text::{diagnostic_report, greet, spawn_failure_report};

#[test]
fn store_starts_empty() {
    let store = Store::default();
    assert!(list_items(&store).is_empty());
}

#[test]
fn added_items_are_listed_in_order() {
    let mut store = Store::default();
    add_item(&mut store, String::from("first"));
    add_item(&mut store, String::from("second"));
    add_item(&mut store, String::from("third"));
    assert_eq!(list_items(&store), vec!["first", "second", "third"]);
}

#[test]
fn delete_removes_only_the_indexed_item() {
    let mut store = Store::default();
    add_item(&mut store, String::from("a"));
    add_item(&mut store, String::from("b"));
    add_item(&mut store, String::from("c"));
    assert_eq!(delete_item(&mut store, 1), Ok(()));
    assert_eq!(list_items(&store), vec!["a", "c"]);
}

#[test]
fn delete_out_of_range_reports_the_index() {
    let mut store = Store::default();
    add_item(&mut store, String::from("only"));
    assert_eq!(delete_item(&mut store, 3), Err(3));
    assert_eq!(list_items(&store), vec!["only"]);
}

#[test]
fn greet_formats_the_name() {
    assert_eq!(
        greet("Ada"),
        "Hello, Ada! You've been greeted from Rust!"
    );
}

#[test]
fn diagnostic_success_is_stdout_alone() {
    assert_eq!(diagnostic_report("machine info\n", "", true, "exit status: 0"), "machine info\n");
}

#[test]
fn diagnostic_failure_includes_stderr_and_status() {
    assert_eq!(
        diagnostic_report("partial", "boom", false, "exit status: 1"),
        "partial\nSTDERR:\nboom\nExit status: exit status: 1"
    );
}

#[test]
fn diagnostic_failure_without_output_is_status_only() {
    assert_eq!(
        diagnostic_report("", "", false, "exit status: 2"),
        "\nExit status: exit status: 2"
    );
}

#[test]
fn diagnostic_failure_without_stderr_skips_the_label() {
    assert_eq!(
        diagnostic_report("out", "", false, "exit status: 1"),
        "out\nExit status: exit status: 1"
    );
}

#[test]
fn spawn_failure_report_names_the_tool() {
    assert_eq!(
        spawn_failure_report("No such file or directory (os error 2)"),
        "Failed to spawn `neofetch`: No such file or directory (os error 2)\nMake sure `neofetch` is installed and available on PATH."
    );
}

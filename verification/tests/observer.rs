use winshift::observer::{CurrentWindow, Observation};

#[test]
fn new_record_has_an_empty_title() {
    let record = CurrentWindow::new();
    assert_eq!(record.title(), "");
}

#[test]
fn first_title_replaces_the_empty_record() {
    let mut record = CurrentWindow::new();
    assert_eq!(record.observe("Editor".to_string()), Observation::Changed(String::new()));
    assert_eq!(record.title(), "Editor");
}

#[test]
fn empty_title_is_reported_and_dropped() {
    let mut record = CurrentWindow::new();
    assert_eq!(record.observe(String::new()), Observation::Empty);
    assert_eq!(record.title(), "");
    record.observe("Editor".to_string());
    assert_eq!(record.observe(String::new()), Observation::Empty);
    assert_eq!(record.title(), "Editor");
}

#[test]
fn same_title_is_unchanged_and_another_hands_back_the_previous() {
    let mut record = CurrentWindow::new();
    record.observe("Editor".to_string());
    assert_eq!(record.observe("Editor".to_string()), Observation::Unchanged);
    assert_eq!(record.title(), "Editor");
    assert_eq!(record.observe("Browser".to_string()), Observation::Changed("Editor".to_string()));
    assert_eq!(record.title(), "Browser");
}

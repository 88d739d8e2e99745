use notes_cli::poller::Poller;
use notes_cli::{App, AppState, KeyCode, KeyEvent, Note};

fn notes(titles: &[&str]) -> Vec<Note> {
    titles
        .iter()
        .enumerate()
        .map(|(i, t)| Note::new(Some(i + 1), t.to_string(), format!("text of {}", t)))
        .collect()
}

#[test]
fn tab_index_of_each_screen() {
    assert_eq!(usize::from(AppState::Home), 0);
    assert_eq!(usize::from(AppState::Note), 1);
    assert_eq!(usize::from(AppState::Add), 2);
    assert_eq!(usize::from(AppState::Delete), 3);
    let index: usize = AppState::Add.into();
    assert_eq!(index, 2);
}

#[test]
fn set_state_changes_only_the_screen() {
    let mut app = App::new();
    app.set_notes(notes(&["A", "B"]));
    app.set_note_state(1);
    app.set_state(AppState::Delete);
    assert!(app.is_state(AppState::Delete));
    assert!(!app.is_state(AppState::Home));
    assert_eq!(*app.state(), AppState::Delete);
    assert_eq!(app.note_state(), 1);
    assert_eq!(app.notes().as_ref().unwrap().len(), 2);
    assert_eq!(app.buffer(), "");
}

#[test]
fn set_note_state_selects() {
    let mut app = App::new();
    app.set_note_state(0);
    assert_eq!(app.note_state(), 0);
    app.set_notes(notes(&["A", "B", "C"]));
    app.set_note_state(2);
    assert_eq!(app.note_state(), 2);
    assert_eq!(app.selected_note().unwrap().title, "C");
    app.set_note_state(0);
    assert_eq!(app.selected_note().unwrap().title, "A");
}

#[test]
fn a_refresh_keeps_a_selection_that_still_fits() {
    let mut app = App::new();
    app.set_notes(notes(&["A", "B", "C"]));
    app.set_note_state(1);
    app.set_notes(notes(&["A", "B", "C", "D"]));
    assert_eq!(app.note_state(), 1);
    app.set_notes(notes(&["X", "Y"]));
    assert_eq!(app.note_state(), 1);
    assert_eq!(app.selected_note().unwrap().title, "Y");
}

#[test]
fn a_refresh_pulls_the_selection_back_to_the_last_note() {
    let mut app = App::new();
    app.set_notes(notes(&["A", "B", "C", "D", "E"]));
    app.set_note_state(4);
    app.set_notes(notes(&["A", "B", "C", "D"]));
    assert_eq!(app.note_state(), 3);
    app.set_notes(notes(&["A"]));
    assert_eq!(app.note_state(), 0);
    assert_eq!(app.selected_note().unwrap().title, "A");
}

#[test]
fn a_refresh_with_no_notes_selects_zero() {
    let mut app = App::new();
    app.set_notes(notes(&["A"]));
    app.set_notes(Vec::new());
    assert_eq!(app.note_state(), 0);
    assert!(app.notes().as_ref().unwrap().is_empty());
    assert!(app.selected_note().is_none());
}

#[test]
fn end_editing_hands_out_the_title() {
    let mut app = App::new();
    app.set_state(AppState::Add);
    let title = app.end_editing();
    assert_eq!(title, "");
    assert_eq!(*app.state(), AppState::Note);
    assert_eq!(app.buffer(), "");
}

#[test]
fn key_events_compare_by_key_and_modifier() {
    let plain = KeyEvent { code: KeyCode::Char('x'), control: false };
    let held = KeyEvent { code: KeyCode::Char('x'), control: true };
    assert_eq!(plain, plain.clone());
    assert_ne!(plain, held);
    assert_ne!(KeyCode::Up, KeyCode::Down);
}

#[test]
fn a_new_poller_reads_keys() {
    let poller = Poller::new(20);
    assert_eq!(poller.tick_rate(), 20);
    assert!(poller.input_enabled());
}

#[test]
fn the_key_wait_is_the_rest_of_the_tick() {
    let poller = Poller::new(20);
    assert_eq!(poller.key_timeout(0), Some(20));
    assert_eq!(poller.key_timeout(5), Some(15));
    assert_eq!(poller.key_timeout(19), Some(1));
    assert_eq!(poller.key_timeout(20), Some(0));
    assert_eq!(poller.key_timeout(1000), Some(0));
    assert_eq!(Poller::new(0).key_timeout(0), Some(0));
    assert_eq!(Poller::new(u64::MAX).key_timeout(1), Some(u64::MAX - 1));
}

#[test]
fn a_tick_is_due_once_the_interval_has_passed() {
    let poller = Poller::new(20);
    assert!(!poller.tick_due(0));
    assert!(!poller.tick_due(19));
    assert!(poller.tick_due(20));
    assert!(poller.tick_due(21));
    assert!(Poller::new(0).tick_due(0));
}

#[test]
fn a_suspended_poller_reads_no_keys_but_still_ticks() {
    let mut poller = Poller::new(20);
    poller.control(true);
    assert!(!poller.input_enabled());
    assert_eq!(poller.key_timeout(0), None);
    assert_eq!(poller.key_timeout(50), None);
    assert!(poller.tick_due(20));
    assert!(!poller.tick_due(3));
    poller.control(true);
    assert_eq!(poller.key_timeout(0), None);
    poller.control(false);
    assert!(poller.input_enabled());
    assert_eq!(poller.key_timeout(5), Some(15));
    assert_eq!(poller.tick_rate(), 20);
}

#[test]
fn the_selected_id_is_that_of_the_selected_note() {
    let mut app = App::new();
    assert_eq!(app.selected_id(), None);
    app.set_notes(notes(&["A", "B", "C"]));
    assert_eq!(app.selected_id(), Some(1));
    app.set_note_state(2);
    assert_eq!(app.selected_id(), Some(3));
    app.set_notes(vec![Note::new(None, "draft".to_string(), String::new())]);
    assert_eq!(app.note_state(), 0);
    assert_eq!(app.selected_id(), None);
    app.set_notes(Vec::new());
    assert_eq!(app.selected_id(), None);
}

//! End-to-end key-press scenarios driven through the controller.

use ticket_tui::{AppMode, FieldName, Key, TerminalController, TerminalInteractor, Ticket};

fn ticket(id: &str, title: &str) -> Ticket {
    Ticket {
        id: id.to_string(),
        created_at: 1_700_000_000,
        resolved_at: None,
        title: title.to_string(),
        completion_condition: String::new(),
        level: String::new(),
        status: String::new(),
    }
}

fn controller_with(n: usize) -> TerminalController {
    let mut items = Vec::new();
    for i in 0..n {
        items.push(ticket(&format!("T-{}", i), &format!("ticket {}", i)));
    }
    TerminalController::new(TerminalInteractor::new(items))
}

#[test]
fn three_records_down_thrice_clamps_at_last_row() {
    let mut c = controller_with(3);
    assert_eq!(c.input_port().selected_index(), Some(0));
    assert!(!c.handle_event(Key::Down));
    assert!(!c.handle_event(Key::Down));
    assert!(!c.handle_event(Key::Down));
    assert_eq!(c.input_port().selected_index(), Some(2));
}

#[test]
fn normal_inquiry_round_trip() {
    let mut c = controller_with(1);
    assert_eq!(c.mode(), AppMode::Normal);
    assert!(!c.handle_event(Key::Char('l')));
    assert_eq!(c.mode(), AppMode::Inquiry);
    assert!(!c.handle_event(Key::Char('h')));
    assert_eq!(c.mode(), AppMode::Normal);
}

#[test]
fn amend_typing_and_backspace() {
    let mut c = controller_with(1);
    c.handle_event(Key::Char('l'));
    c.handle_event(Key::Char('l'));
    assert_eq!(c.mode(), AppMode::Amend);
    assert_eq!(c.input_port().session().buffer_text(FieldName::Title), "");
    for ch in "Fix bug".chars() {
        c.handle_event(Key::Char(ch));
    }
    c.handle_event(Key::Backspace);
    assert_eq!(
        c.input_port().session().buffer_text(FieldName::Title),
        "Fix bu"
    );
}

#[test]
fn amend_tab_four_times_returns_to_start() {
    let mut c = controller_with(1);
    c.handle_event(Key::Char('l'));
    c.handle_event(Key::Char('l'));
    let start = c.input_port().session().active_field;
    c.handle_event(Key::Tab);
    assert_ne!(c.input_port().session().active_field, start);
    c.handle_event(Key::Tab);
    c.handle_event(Key::Tab);
    c.handle_event(Key::Tab);
    assert_eq!(c.input_port().session().active_field, start);
}

#[test]
fn quit_from_normal_and_inquiry_but_not_amend() {
    let mut c = controller_with(1);
    let mut d = controller_with(1);
    d.handle_event(Key::Char('l'));
    let mut e = controller_with(1);
    e.handle_event(Key::Char('l'));
    e.handle_event(Key::Char('l'));
    assert!(c.handle_event(Key::Char('q')));
    assert!(d.handle_event(Key::Char('q')));
    assert!(!e.handle_event(Key::Char('q')));
    assert_eq!(e.mode(), AppMode::Amend);
    assert_eq!(e.input_port().session().buffer_text(FieldName::Title), "q");
}

#[test]
fn unlisted_pairs_leave_mode_unchanged() {
    let mut c = controller_with(1);
    c.handle_event(Key::Char('x'));
    c.handle_event(Key::Esc);
    c.handle_event(Key::Left);
    assert_eq!(c.mode(), AppMode::Normal);

    let mut d = controller_with(1);
    d.handle_event(Key::Char('l'));
    d.handle_event(Key::Char('+'));
    d.handle_event(Key::Tab);
    assert_eq!(d.mode(), AppMode::Inquiry);
}

#[test]
fn raise_and_back() {
    let mut c = controller_with(1);
    c.handle_event(Key::Char('+'));
    assert_eq!(c.mode(), AppMode::Raise);
    c.handle_event(Key::Char('a'));
    assert_eq!(c.input_port().session().buffer_text(FieldName::Title), "a");
    c.handle_event(Key::Esc);
    assert_eq!(c.mode(), AppMode::Normal);
}

#[test]
fn navigation_works_in_inquiry_too() {
    let mut c = controller_with(3);
    c.handle_event(Key::Char('l'));
    assert_eq!(c.mode(), AppMode::Inquiry);
    c.handle_event(Key::Char('j'));
    assert_eq!(c.input_port().selected_index(), Some(1));
    c.handle_event(Key::Char('k'));
    assert_eq!(c.input_port().selected_index(), Some(0));
}

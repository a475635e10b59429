//! Unit tests of the interactor and the edit session.

use ticket_tui::{
    AppMode, EditSession, FieldName, Key, NoSelectionError, TerminalInteractor, Ticket,
};

fn ticket(id: &str) -> Ticket {
    Ticket {
        id: id.to_string(),
        created_at: 1_650_000_000,
        resolved_at: Some(1_650_100_000),
        title: "old title".to_string(),
        completion_condition: "old condition".to_string(),
        level: "3".to_string(),
        status: "open".to_string(),
    }
}

fn interactor_with(n: usize) -> TerminalInteractor {
    let mut items = Vec::new();
    for i in 0..n {
        items.push(ticket(&format!("T-{}", i)));
    }
    TerminalInteractor::new(items)
}

#[test]
fn next_row_clamps_at_last_row() {
    let mut it = interactor_with(2);
    it.next_row();
    assert_eq!(it.selected_index(), Some(1));
    it.next_row();
    assert_eq!(it.selected_index(), Some(1));
}

#[test]
fn previous_row_clamps_at_row_zero() {
    let mut it = interactor_with(2);
    it.previous_row();
    assert_eq!(it.selected_index(), Some(0));
    it.previous_row();
    assert_eq!(it.selected_index(), Some(0));
}

#[test]
fn empty_list_has_no_selection() {
    let mut it = interactor_with(0);
    assert_eq!(it.selected_index(), None);
    it.next_row();
    assert_eq!(it.selected_index(), None);
    it.previous_row();
    assert_eq!(it.selected_index(), None);
    assert!(it.selected_ticket().is_none());
}

#[test]
fn single_record_list_starts_selected() {
    let it = interactor_with(1);
    assert_eq!(it.selected_index(), Some(0));
    assert_eq!(it.selected_ticket().unwrap().id, "T-0");
}

#[test]
fn cycle_visits_every_field_once_in_order() {
    let mut s = EditSession::new();
    assert_eq!(s.active_field, FieldName::Title);
    s.cycle_active_field();
    assert_eq!(s.active_field, FieldName::CompletionCondition);
    s.cycle_active_field();
    assert_eq!(s.active_field, FieldName::Level);
    s.cycle_active_field();
    assert_eq!(s.active_field, FieldName::Status);
    s.cycle_active_field();
    assert_eq!(s.active_field, FieldName::Title);
}

#[test]
fn characters_go_to_the_active_buffer_only() {
    let mut s = EditSession::new();
    s.handle_character('a');
    s.cycle_active_field();
    s.handle_character('b');
    assert_eq!(s.buffer_text(FieldName::Title), "a");
    assert_eq!(s.buffer_text(FieldName::CompletionCondition), "b");
    assert_eq!(s.buffer_text(FieldName::Level), "");
    assert_eq!(s.buffer_text(FieldName::Status), "");
}

#[test]
fn delete_on_empty_buffer_is_a_no_op() {
    let mut s = EditSession::new();
    s.handle_delete();
    assert_eq!(s.buffer_text(FieldName::Title), "");
    s.handle_character('x');
    s.handle_delete();
    s.handle_delete();
    assert_eq!(s.buffer_text(FieldName::Title), "");
}

#[test]
fn submit_preserves_identity_fields_whatever_the_buffers_hold() {
    let mut it = interactor_with(2);
    it.next_row();
    for ch in "new title".chars() {
        it.handle_input(Key::Char(ch));
    }
    it.handle_input(Key::Tab);
    for ch in "done when tested".chars() {
        it.handle_input(Key::Char(ch));
    }
    let draft = it.submit().expect("a row is selected");
    assert_eq!(draft.id, "T-1");
    assert_eq!(draft.created_at, 1_650_000_000);
    assert_eq!(draft.resolved_at, Some(1_650_100_000));
    assert_eq!(draft.title, "new title");
    assert_eq!(draft.completion_condition, "done when tested");
    assert_eq!(draft.level, "");
    assert_eq!(draft.status, "");
}

#[test]
fn submit_without_selection_fails_with_no_selection_error() {
    let it = interactor_with(0);
    assert_eq!(it.submit().err(), Some(NoSelectionError));
}

#[test]
fn submit_does_not_clear_the_buffers() {
    let mut it = interactor_with(1);
    it.handle_input(Key::Char('z'));
    let _ = it.submit().unwrap();
    assert_eq!(it.session().buffer_text(FieldName::Title), "z");
}

#[test]
fn mode_labels() {
    assert_eq!(AppMode::Normal.label(), "Normal");
    assert_eq!(AppMode::Inquiry.label(), "Inquiry");
    assert_eq!(AppMode::Amend.label(), "Amend");
    assert_eq!(AppMode::Raise.label(), "Raise");
}

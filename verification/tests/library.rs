//! Tests of the library's pieces: history invariants, motion boundaries,
//! failed searches, the undo/redo round trip, and the state machine's
//! answers to single events.

use vim_buffer::{
    Action, Actions, Buffer, GoToAction, History, KeyCode, KeyEvent, KeyModifiers, Mode,
};

fn text(s: &str) -> Vec<char> {
    s.chars().collect()
}

fn content_str(buffer: &Buffer) -> String {
    buffer.as_content().iter().collect()
}

fn press(buffer: &mut Buffer, code: KeyCode) {
    buffer.update(&KeyEvent::plain(code));
}

#[test]
fn only_one_history_entry() {
    let mut x = Buffer::with_text(text("abcabc"));
    x.update(&KeyEvent::plain(KeyCode::Char('f')));
    assert_eq!(x.history.as_vec(), &vec![text("abcabc")]);
    x.update(&KeyEvent::plain(KeyCode::Char('c')));
    assert_eq!(x.history.as_vec(), &vec![text("abcabc")]);
}

#[test]
fn history_no_adjacent_duplicates() {
    let mut h = History::with_initial_value(text("a"));
    h.save(&text("a"));
    h.save(&text("ab"));
    h.save(&text("ab"));
    h.save(&text("a"));
    assert_eq!(h.as_vec(), &vec![text("a"), text("ab"), text("a")]);
}

#[test]
fn history_undo_redo_restores() {
    let mut h = History::with_initial_value(text(""));
    h.save(&text("x"));
    h.save(&text("xy"));
    assert_eq!(h.undo(), Some(&text("x")));
    assert_eq!(h.redo(), Some(&text("xy")));
}

#[test]
fn history_undo_at_start_fails() {
    let mut h = History::with_initial_value(text("a"));
    assert_eq!(h.undo(), None);
    assert_eq!(h.as_vec(), &vec![text("a")]);
}

#[test]
fn history_redo_at_end_fails() {
    let mut h = History::with_initial_value(text("a"));
    h.save(&text("ab"));
    assert_eq!(h.redo(), None);
}

#[test]
fn history_save_after_undo_discards_redo_branch() {
    let mut h = History::with_initial_value(text(""));
    h.save(&text("a"));
    h.save(&text("ab"));
    h.undo();
    h.save(&text("ax"));
    assert_eq!(h.as_vec(), &vec![text(""), text("a"), text("ax")]);
    assert_eq!(h.redo(), None);
}

#[test]
fn left_at_line_start_is_noop() {
    let mut b = Buffer::with_text(text("abc"));
    assert_eq!(b.cursor(), 0);
    press(&mut b, KeyCode::Left);
    assert_eq!(b.cursor(), 0);
    assert_eq!(content_str(&b), "abc");
}

#[test]
fn right_at_line_end_is_noop() {
    let mut b = Buffer::with_text(text("ab"));
    press(&mut b, KeyCode::Char('$'));
    assert_eq!(b.cursor(), 2);
    press(&mut b, KeyCode::Right);
    assert_eq!(b.cursor(), 2);
}

#[test]
fn failed_search_moves_nothing() {
    let mut b = Buffer::with_text(text("abc"));
    press(&mut b, KeyCode::Char('f'));
    press(&mut b, KeyCode::Char('z'));
    assert_eq!(b.cursor(), 0);
    assert_eq!(content_str(&b), "abc");
}

#[test]
fn failed_search_under_delete_deletes_nothing() {
    let mut b = Buffer::with_text(text("abc"));
    press(&mut b, KeyCode::Char('d'));
    press(&mut b, KeyCode::Char('f'));
    press(&mut b, KeyCode::Char('z'));
    assert_eq!(content_str(&b), "abc");
    assert_eq!(b.history.as_vec(), &vec![text("abc")]);
}

#[test]
fn insert_undo_redo_round_trip() {
    let mut b = Buffer::default();
    press(&mut b, KeyCode::Char('i'));
    press(&mut b, KeyCode::Char('a'));
    press(&mut b, KeyCode::Char('b'));
    press(&mut b, KeyCode::Esc);
    assert_eq!(content_str(&b), "ab");
    press(&mut b, KeyCode::Char('u'));
    assert_eq!(content_str(&b), "a");
    press(&mut b, KeyCode::Char('u'));
    assert_eq!(content_str(&b), "");
    b.update(&KeyEvent::with_modifiers(KeyCode::Char('r'), KeyModifiers::Control));
    assert_eq!(content_str(&b), "a");
    b.update(&KeyEvent::with_modifiers(KeyCode::Char('r'), KeyModifiers::Control));
    assert_eq!(content_str(&b), "ab");
}

#[test]
fn undo_past_start_keeps_content() {
    let mut b = Buffer::default();
    press(&mut b, KeyCode::Char('u'));
    assert_eq!(content_str(&b), "");
    press(&mut b, KeyCode::Char('i'));
    press(&mut b, KeyCode::Char('q'));
    press(&mut b, KeyCode::Esc);
    press(&mut b, KeyCode::Char('u'));
    press(&mut b, KeyCode::Char('u'));
    assert_eq!(content_str(&b), "");
}

#[test]
fn repeated_replace_with_same_char_collapses() {
    let mut b = Buffer::with_text(text("x"));
    press(&mut b, KeyCode::Char('r'));
    press(&mut b, KeyCode::Char('y'));
    press(&mut b, KeyCode::Char('r'));
    press(&mut b, KeyCode::Char('y'));
    assert_eq!(content_str(&b), "y");
    assert_eq!(b.history.as_vec(), &vec![text("x"), text("y")]);
}

#[test]
fn mode_switches_are_tracked() {
    let mut b = Buffer::default();
    assert_eq!(b.mode(), Mode::Normal);
    press(&mut b, KeyCode::Char('i'));
    assert_eq!(b.mode(), Mode::Insert);
    press(&mut b, KeyCode::Esc);
    assert_eq!(b.mode(), Mode::Normal);
}

#[test]
fn pending_state_is_set_and_cleared() {
    let mut b = Buffer::default();
    press(&mut b, KeyCode::Char('d'));
    assert!(b.pending().is_some());
    press(&mut b, KeyCode::Char(' '));
    assert!(b.pending().is_none());
}

#[test]
fn handle_event_unknown_key_is_noop() {
    let m = Mode::Normal;
    let r = m.handle_event(&KeyEvent::plain(KeyCode::Char('z')), None);
    match r {
        Actions::List(l) => assert!(l.is_empty()),
        Actions::OPending(_) => panic!("expected the empty answer"),
    }
}

#[test]
fn handle_event_uppercase_implies_shift() {
    let m = Mode::Normal;
    let r = m.handle_event(&KeyEvent::plain(KeyCode::Char('D')), None);
    match r {
        Actions::List(l) => {
            assert_eq!(l, vec![Action::Delete(GoToAction::EndOfLine, None)]);
        },
        Actions::OPending(_) => panic!("expected a delete-to-end action"),
    }
}

#[test]
fn control_modifier_uses_control_table() {
    let m = Mode::Normal;
    let r = m.handle_event(
        &KeyEvent::with_modifiers(KeyCode::Char('r'), KeyModifiers::Control),
        None,
    );
    match r {
        Actions::List(l) => assert_eq!(l, vec![Action::Redo]),
        Actions::OPending(_) => panic!("expected redo"),
    }
}

#[test]
fn unknown_modifier_combination_is_noop() {
    let m = Mode::Normal;
    let r = m.handle_event(
        &KeyEvent::with_modifiers(KeyCode::Char('x'), KeyModifiers::Other),
        None,
    );
    match r {
        Actions::List(l) => assert!(l.is_empty()),
        Actions::OPending(_) => panic!("expected the empty answer"),
    }
}

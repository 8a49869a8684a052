use chat_interface::session::ChatInterface;
use chat_interface::session::KeyCode;

#[test]
fn new_session_is_empty() {
    let c = ChatInterface::new();
    assert!(!c.check_quit());
    assert!(!c.is_editing());
    assert_eq!(c.message_count(), 0);
    assert_eq!(c.input_text(), "");
    assert_eq!(c.scroll_offset(), 0);
}

#[test]
fn scroll_up_at_zero_stays_zero() {
    let mut c = ChatInterface::new();
    c.handle_event(KeyCode::Up);
    assert_eq!(c.scroll_offset(), 0);
    c.handle_event(KeyCode::Up);
    assert_eq!(c.scroll_offset(), 0);
}

#[test]
fn scroll_down_never_decreases() {
    let mut c = ChatInterface::new();
    let mut prev: u16 = c.scroll_offset();
    for _ in 0..5 {
        c.handle_event(KeyCode::Down);
        assert!(c.scroll_offset() >= prev);
        prev = c.scroll_offset();
    }
    assert_eq!(c.scroll_offset(), 5);
}

#[test]
fn scroll_down_saturates_at_max() {
    let mut c = ChatInterface::new();
    c.scroll_y = u16::MAX;
    c.handle_event(KeyCode::Down);
    assert_eq!(c.scroll_offset(), u16::MAX);
}

#[test]
fn scroll_mixed_sequence_stays_in_range() {
    let mut c = ChatInterface::new();
    let keys = [
        KeyCode::Up,
        KeyCode::Down,
        KeyCode::Down,
        KeyCode::Up,
        KeyCode::Up,
        KeyCode::Up,
        KeyCode::Down,
    ];
    for k in keys {
        c.handle_event(k);
    }
    assert_eq!(c.scroll_offset(), 1);
}

#[test]
fn quit_only_from_normal_mode() {
    let mut c = ChatInterface::new();
    c.handle_event(KeyCode::Char('e'));
    c.handle_event(KeyCode::Char('q'));
    assert!(!c.check_quit());
    c.handle_event(KeyCode::Esc);
    c.handle_event(KeyCode::Char('q'));
    assert!(c.check_quit());
}

#[test]
fn commit_empty_buffer_adds_no_entry() {
    let mut c = ChatInterface::new();
    c.handle_event(KeyCode::Char('e'));
    c.handle_event(KeyCode::Enter);
    assert_eq!(c.message_count(), 0);
    assert_eq!(c.input_text(), "");
    assert!(c.is_editing());
}

#[test]
fn commit_nonempty_buffer_appends_and_drains() {
    let mut c = ChatInterface::new();
    c.handle_event(KeyCode::Char('e'));
    c.handle_event(KeyCode::Char('h'));
    c.handle_event(KeyCode::Char('i'));
    assert_eq!(c.input_text(), "hi");
    c.handle_event(KeyCode::Enter);
    assert_eq!(c.message_count(), 1);
    assert_eq!(c.message_at(0), "hi");
    assert_eq!(c.input_text(), "");
    assert!(c.is_editing());
}

#[test]
fn backspace_drops_last_character() {
    let mut c = ChatInterface::new();
    c.handle_event(KeyCode::Char('e'));
    c.handle_event(KeyCode::Char('a'));
    c.handle_event(KeyCode::Char('b'));
    c.handle_event(KeyCode::Backspace);
    assert_eq!(c.input_text(), "a");
    c.handle_event(KeyCode::Backspace);
    assert_eq!(c.input_text(), "");
    c.handle_event(KeyCode::Backspace);
    assert_eq!(c.input_text(), "");
}

#[test]
fn esc_preserves_buffer_and_reentry_keeps_it() {
    let mut c = ChatInterface::new();
    c.handle_event(KeyCode::Char('e'));
    c.handle_event(KeyCode::Char('a'));
    c.handle_event(KeyCode::Char('b'));
    c.handle_event(KeyCode::Esc);
    assert!(!c.is_editing());
    assert_eq!(c.input_text(), "ab");
    c.handle_event(KeyCode::Char('e'));
    assert!(c.is_editing());
    assert_eq!(c.input_text(), "ab");
}

#[test]
fn unrecognized_keys_are_no_ops() {
    let mut c = ChatInterface::new();
    c.handle_event(KeyCode::Other);
    c.handle_event(KeyCode::Enter);
    c.handle_event(KeyCode::Backspace);
    c.handle_event(KeyCode::Esc);
    c.handle_event(KeyCode::Char('x'));
    assert!(!c.check_quit());
    assert!(!c.is_editing());
    assert_eq!(c.message_count(), 0);
    assert_eq!(c.input_text(), "");
    assert_eq!(c.scroll_offset(), 0);
    c.handle_event(KeyCode::Char('e'));
    c.handle_event(KeyCode::Other);
    c.handle_event(KeyCode::Up);
    c.handle_event(KeyCode::Down);
    assert!(c.is_editing());
    assert_eq!(c.scroll_offset(), 0);
    assert_eq!(c.input_text(), "");
}

#[test]
fn push_message_works_in_any_mode() {
    let mut c = ChatInterface::new();
    c.push_message(String::from("one"));
    c.handle_event(KeyCode::Char('e'));
    c.push_message(String::from("two"));
    assert_eq!(c.message_count(), 2);
    assert_eq!(c.message_at(0), "one");
    assert_eq!(c.message_at(1), "two");
    assert!(c.is_editing());
}

#[test]
fn welcome_scenario_quit_needs_normal_mode() {
    let mut c = ChatInterface::new();
    c.push_message(String::from("Welcome to the Chat"));
    assert_eq!(c.message_count(), 1);
    assert_eq!(c.message_at(0), "Welcome to the Chat");
    c.handle_event(KeyCode::Char('e'));
    assert!(c.is_editing());
    c.handle_event(KeyCode::Char('h'));
    c.handle_event(KeyCode::Char('i'));
    assert_eq!(c.input_text(), "hi");
    c.handle_event(KeyCode::Enter);
    assert_eq!(c.message_count(), 2);
    assert_eq!(c.message_at(0), "Welcome to the Chat");
    assert_eq!(c.message_at(1), "hi");
    assert_eq!(c.input_text(), "");
    c.handle_event(KeyCode::Char('q'));
    assert!(!c.check_quit());
    assert!(c.is_editing());
}

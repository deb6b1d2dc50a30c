use term_session::input_task::InputEvent;
use term_session::keys::{handle_key_input, is_detach_key, Key, KeyRead};

#[test]
fn a_key_read_hands_on_the_key_and_its_bytes() {
    assert_eq!(
        handle_key_input(KeyRead::Key(Key::Char('x'), vec![0x78])),
        Some((Key::Char('x'), vec![0x78]))
    );
    assert_eq!(
        handle_key_input(KeyRead::Key(Key::Up, vec![0x1b, 0x5b, 0x41])),
        Some((Key::Up, vec![0x1b, 0x5b, 0x41]))
    );
    assert_eq!(handle_key_input(KeyRead::Key(Key::Null, vec![])), Some((Key::Null, vec![])));
}

#[test]
fn a_read_without_a_key_hands_on_nothing() {
    assert_eq!(handle_key_input(KeyRead::Other), None);
    assert_eq!(handle_key_input(KeyRead::Failed), None);
    assert_eq!(handle_key_input(KeyRead::Ended), None);
}

#[test]
fn control_b_is_the_detach_key() {
    assert!(is_detach_key(Key::Ctrl('b')));
}

#[test]
fn other_keys_are_no_detach_key() {
    assert!(!is_detach_key(Key::Ctrl('c')));
    assert!(!is_detach_key(Key::Ctrl('B')));
    assert!(!is_detach_key(Key::Char('b')));
    assert!(!is_detach_key(Key::Alt('b')));
    assert!(!is_detach_key(Key::F(2)));
    assert!(!is_detach_key(Key::Esc));
}

#[test]
fn key_bytes_become_text() {
    assert_eq!(
        InputEvent::from_key(Some((Key::Char('x'), vec![0x78]))),
        InputEvent::Key(Key::Char('x'), String::from("x"))
    );
    assert_eq!(
        InputEvent::from_key(Some((Key::Char('é'), vec![0xc3, 0xa9]))),
        InputEvent::Key(Key::Char('é'), String::from("é"))
    );
    assert_eq!(
        InputEvent::from_key(Some((Key::Up, vec![0x1b, 0x5b, 0x41]))),
        InputEvent::Key(Key::Up, String::from("\x1b[A"))
    );
}

#[test]
fn bytes_that_are_no_utf8_are_replaced() {
    assert_eq!(
        InputEvent::from_key(Some((Key::Null, vec![0xff, 0x61]))),
        InputEvent::Key(Key::Null, String::from("\u{FFFD}a"))
    );
    assert_eq!(
        InputEvent::from_key(Some((Key::Null, vec![0x61, 0xc3]))),
        InputEvent::Key(Key::Null, String::from("a\u{FFFD}"))
    );
}

#[test]
fn no_key_makes_the_no_key_event() {
    assert_eq!(InputEvent::from_key(None), InputEvent::NoKey);
    assert_eq!(InputEvent::from_key(handle_key_input(KeyRead::Other)), InputEvent::NoKey);
}

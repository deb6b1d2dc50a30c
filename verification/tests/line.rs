use term_session::input_task::InputEvent;
use term_session::line::{is_detach_line, line_prompt, read_line, ReadError};

#[test]
fn the_prompt_given_is_shown() {
    assert_eq!(line_prompt(Some("abc> ")), "abc> ");
    assert_eq!(line_prompt(Some("")), "");
}

#[test]
fn no_prompt_is_the_empty_prompt() {
    assert_eq!(line_prompt(None), "");
}

#[test]
fn a_line_gets_its_line_feed() {
    assert_eq!(read_line(Ok(String::from("hello"))), Ok(String::from("hello\n")));
    assert_eq!(read_line(Ok(String::new())), Ok(String::from("\n")));
    assert_eq!(read_line(Ok(String::from("ls -l "))), Ok(String::from("ls -l \n")));
}

#[test]
fn an_error_comes_out_as_it_went_in() {
    assert_eq!(read_line(Err(ReadError::Interrupted)), Err(ReadError::Interrupted));
    assert_eq!(read_line(Err(ReadError::Eof)), Err(ReadError::Eof));
    assert_eq!(read_line(Err(ReadError::WindowResized)), Err(ReadError::WindowResized));
    assert_eq!(read_line(Err(ReadError::Io)), Err(ReadError::Io));
    assert_eq!(read_line(Err(ReadError::Other)), Err(ReadError::Other));
}

#[test]
fn an_interrupt_stays_apart_from_the_end_and_from_a_failure() {
    let interrupted = read_line(Err(ReadError::Interrupted));
    assert_ne!(interrupted, read_line(Err(ReadError::Eof)));
    assert_ne!(interrupted, read_line(Err(ReadError::Io)));
    assert_ne!(interrupted, read_line(Ok(String::new())));
}

#[test]
fn interrupt_and_resize_are_transient() {
    assert!(ReadError::Interrupted.is_transient());
    assert!(ReadError::WindowResized.is_transient());
}

#[test]
fn other_errors_are_not_transient() {
    assert!(!ReadError::Io.is_transient());
    assert!(!ReadError::Eof.is_transient());
    assert!(!ReadError::Other.is_transient());
}

#[test]
fn back_is_the_detach_command() {
    assert!(is_detach_line("back\n"));
    assert!(is_detach_line("back"));
    assert!(is_detach_line("back  \t\r\n"));
    assert!(is_detach_line(" back"));
    assert!(is_detach_line(" back\n"));
    assert!(is_detach_line("back "));
    assert!(is_detach_line("\t \u{3000}back \n"));
}

#[test]
fn other_lines_are_no_detach_command() {
    assert!(!is_detach_line("ba ck\n"));
    assert!(!is_detach_line("back back\n"));
    assert!(!is_detach_line("  \n"));
    assert!(!is_detach_line("backs\n"));
    assert!(!is_detach_line("Back\n"));
    assert!(!is_detach_line("go back\n"));
    assert!(!is_detach_line("bac\n"));
    assert!(!is_detach_line("hello\n"));
    assert!(!is_detach_line("\n"));
    assert!(!is_detach_line(""));
}

#[test]
fn a_line_read_makes_its_event() {
    assert_eq!(
        InputEvent::from_line(read_line(Ok(String::from("hello")))),
        InputEvent::Line(String::from("hello\n"))
    );
    assert_eq!(
        InputEvent::from_line(read_line(Err(ReadError::Eof))),
        InputEvent::ReadFailed(ReadError::Eof)
    );
}

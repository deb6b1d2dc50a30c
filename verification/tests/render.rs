use term_session::output_task::{OutputAction, OutputEvent, OutputTask};
use term_session::render::{clear_screen_text, next_prompt, render_output};
use term_session::signal::Signal;

#[test]
fn raw_mode_output_is_written_as_it_is() {
    assert_eq!(render_output("abc\r\ndef", true), "abc\r\ndef");
    assert_eq!(render_output("", true), "");
}

#[test]
fn line_mode_output_clears_the_line_first() {
    assert_eq!(render_output("abc", false), "\x1b[2K\rabc");
    assert_eq!(render_output("", false), "\x1b[2K\r");
    assert_eq!(render_output("one\ntwo> ", false), "\x1b[2K\rone\ntwo> ");
}

#[test]
fn clear_screen_text_is_the_sequence_and_a_line_feed() {
    assert_eq!(clear_screen_text(), "\x1b[1J\n");
}

#[test]
fn prompt_is_what_follows_the_last_line_feed() {
    assert_eq!(next_prompt("line1\nabc> "), "abc> ");
    assert_eq!(next_prompt("a\nb\nc\n$ "), "$ ");
    assert_eq!(next_prompt("\n> "), "> ");
}

#[test]
fn prompt_is_empty_behind_a_final_line_feed() {
    assert_eq!(next_prompt("abc\n"), "");
    assert_eq!(next_prompt("\n"), "");
    assert_eq!(next_prompt(""), "");
}

#[test]
fn prompt_is_the_whole_output_without_a_line_feed() {
    assert_eq!(next_prompt("abc> "), "abc> ");
    assert_eq!(next_prompt("\x1b[2K\rready> "), "\x1b[2K\rready> ");
}

#[test]
fn prompt_handles_text_beyond_ascii() {
    assert_eq!(next_prompt("größe\nλ→ "), "λ→ ");
    assert_eq!(next_prompt("日本語\n"), "");
}

#[test]
fn prompt_propagation() {
    let mut task = OutputTask::new(false);
    assert_eq!(task.step(OutputEvent::Signal(Signal::Start)), OutputAction::Nothing);
    let action = task.step(OutputEvent::Output(String::from("welcome\nabc> ")));
    assert_eq!(
        action,
        OutputAction::Render {
            text: String::from("\x1b[2K\rwelcome\nabc> "),
            prompt: String::from("abc> "),
        }
    );
}

#[test]
fn prompt_propagation_in_raw_mode() {
    let mut task = OutputTask::new(true);
    task.step(OutputEvent::Signal(Signal::Start));
    let action = task.step(OutputEvent::Output(String::from("abc> ")));
    assert_eq!(
        action,
        OutputAction::Render { text: String::from("abc> "), prompt: String::from("abc> ") }
    );
}

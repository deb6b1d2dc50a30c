use term_session::handle::Handle;
use term_session::input_task::{InputAction, InputEvent, InputTask};
use term_session::output_task::{OutputAction, OutputEvent, OutputTask};
use term_session::signal::Signal;
use tokio::sync::{broadcast, watch};
use tokio_util::sync::CancellationToken;

#[test]
fn a_new_handle_is_in_line_mode() {
    let (handle, _) = Handle::new();
    assert!(!handle.raw_mode);
}

#[test]
fn a_new_handle_shares_its_token() {
    let (handle, token) = Handle::new();
    assert!(handle.soc_kill_token == token);
    assert!(!handle.soc_kill_token.is_cancelled());
    assert!(!token.is_cancelled());
    token.cancel();
    assert!(handle.soc_kill_token.is_cancelled());
    let (other, apart) = Handle::new();
    assert!(other.soc_kill_token == apart);
    assert!(other.soc_kill_token != token);
    assert!(!other.soc_kill_token.is_cancelled());
}

#[test]
fn a_new_handle_has_a_bus_of_its_own() {
    let (handle, _) = Handle::new();
    let (other, _) = Handle::new();
    assert_eq!(handle.tx.receiver_count(), 0);
    let mut rx = handle.tx.subscribe();
    let mut elsewhere = other.tx.subscribe();
    assert_eq!(handle.tx.send("quit").unwrap(), 1);
    assert_eq!(rx.try_recv().unwrap(), "quit");
    assert!(matches!(elsewhere.try_recv(), Err(broadcast::error::TryRecvError::Empty)));
    let mut count = 0;
    while count < 1024 {
        handle.tx.send("start").unwrap();
        count += 1;
    }
    assert_eq!(rx.try_recv().unwrap(), "start");
    handle.tx.send("start").unwrap();
    handle.tx.send("start").unwrap();
    assert!(matches!(rx.try_recv(), Err(broadcast::error::TryRecvError::Lagged(1))));
}

#[test]
fn a_cloned_handle_is_of_the_same_session() {
    let (mut handle, token) = Handle::new();
    handle.raw_mode = true;
    let other = handle.clone();
    assert!(other.raw_mode);
    assert!(handle.tx.same_channel(&other.tx));
    let mut rx = handle.tx.subscribe();
    other.tx.send("start").unwrap();
    assert_eq!(rx.try_recv().unwrap(), "start");
    other.soc_kill_token.cancel();
    assert!(token.is_cancelled());
    assert!(handle.soc_kill_token.is_cancelled());
}

#[test]
fn the_tasks_begin_in_the_mode_of_the_handle() {
    let (mut handle, _) = Handle::new();
    let (output, input) = handle.handle_listen();
    assert_eq!(output, OutputTask::new(false));
    assert_eq!(input, InputTask::new(false));
    handle.raw_mode = true;
    let (output, input) = handle.handle_listen();
    assert_eq!(output, OutputTask::new(true));
    assert_eq!(input, InputTask::new(true));
}

#[test]
fn test_handle() {
    let (handle, _cancel_token) = Handle::new();
    let (mut output, mut input) = handle.handle_listen();
    let (to_handle, from_socket) = watch::channel::<String>(String::from(""));
    let mut rx = handle.tx.subscribe();
    handle.tx.send("start").unwrap();
    let name = rx.try_recv().unwrap();
    assert_eq!(name, "start");
    let signal = Signal::parse(name).unwrap();
    assert_eq!(output.step(OutputEvent::Signal(signal)), OutputAction::Nothing);
    assert_eq!(input.step(InputEvent::Signal(signal)), InputAction::NotifyMode(false));

    to_handle.send(String::from("mock value")).unwrap();
    assert!(from_socket.has_changed().unwrap());
    assert_eq!("mock value", from_socket.borrow().as_str());
    let latest = from_socket.borrow().to_owned();
    assert_eq!(
        output.step(OutputEvent::Output(latest)),
        OutputAction::Render {
            text: String::from("\x1b[2K\rmock value"),
            prompt: String::from("\x1b[2K\rmock value"),
        }
    );
}

#[test]
fn a_pause_and_resume_leaves_the_connection_open() {
    let (handle, token) = Handle::new();
    let shared: CancellationToken = handle.soc_kill_token.clone();
    let (mut output, mut input) = handle.handle_listen();
    output.step(OutputEvent::Signal(Signal::Start));
    input.step(InputEvent::Signal(Signal::Start));
    input.step(InputEvent::Done);
    let mut cycles = 0;
    while cycles < 3 {
        assert_eq!(input.step(InputEvent::Line(String::from("back\n"))), InputAction::ClearScreen);
        assert_eq!(input.step(InputEvent::Done), InputAction::Broadcast(Signal::Quit));
        assert_eq!(output.step(OutputEvent::Signal(Signal::Quit)), OutputAction::SetRaw(false));
        assert_eq!(input.step(InputEvent::Done), InputAction::AwaitSignal);
        assert!(!output.is_active());
        assert_eq!(output.step(OutputEvent::Signal(Signal::Start)), OutputAction::Nothing);
        assert_eq!(
            input.step(InputEvent::Signal(Signal::Start)),
            InputAction::Forward(String::from("\n"))
        );
        assert!(output.is_active());
        assert!(!output.is_stopped());
        assert!(!input.is_stopped());
        assert_eq!(input.step(InputEvent::Done), InputAction::NotifyMode(false));
        assert_eq!(output.step(OutputEvent::Mode(false)), OutputAction::SetRaw(false));
        assert_eq!(input.step(InputEvent::Done), InputAction::ReadLine);
        cycles += 1;
    }
    assert!(!token.is_cancelled());
    assert!(!shared.is_cancelled());
}

#[test]
fn the_terminal_follows_the_mode_within_one_notice() {
    let (mut handle, _) = Handle::new();
    handle.raw_mode = true;
    let (mut output, mut input) = handle.handle_listen();
    output.step(OutputEvent::Signal(Signal::Start));
    let notice = input.step(InputEvent::Signal(Signal::Start));
    assert_eq!(notice, InputAction::NotifyMode(true));
    assert_eq!(output.step(OutputEvent::Mode(true)), OutputAction::SetRaw(true));
    assert_eq!(input.step(InputEvent::Done), InputAction::ReadKey);
    assert_eq!(output.raw_mode, input.raw_mode);
}

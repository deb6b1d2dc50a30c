//! The input task of a session: the one producer of what goes to the socket.
//! It reads a line or a key, by its mode, forwards it, and runs the pause
//! protocol when the user detaches.
//!
//! The task is a state machine. Its driver owns the line editor, the
//! terminal and the channels: it performs the request that the task made,
//! hands the task what came of it, and gets the next request.

use crate::keys::{decode_lossy, detach_key, is_detach_key, lossy_text, Key};
use vstd::utf8::{decode_utf8, valid_utf8};
use crate::line::{detach_line, is_detach_line, ReadError};
use crate::signal::{observe, Signal};
use vstd::prelude::*;

verus! {

/// Why an input task waits for `Signal::Start`.
#[derive(Clone, Copy, Debug, PartialEq, Eq, Structural)]
pub enum Pause {
    /// It has not started yet.
    Startup,
    /// The user detached in line mode.
    Line,
    /// The user detached in raw mode.
    Key,
}

/// Where the input task stands: each phase but the last awaits what came of
/// one request.
#[derive(Clone, Copy, Debug, PartialEq, Eq, Structural)]
pub enum InputPhase {
    /// Awaits a signal.
    Waiting(Pause),
    /// A quit arrived in raw mode during a wait: awaits that the terminal has
    /// left raw mode.
    Cooking(Pause),
    /// At the start of a round: awaits that the mode was notified.
    Notifying,
    /// Awaits a line.
    ReadingLine,
    /// Awaits a key.
    ReadingKey,
    /// Detaching: awaits that the screen was cleared.
    Clearing(Pause),
    /// Detaching: awaits that the quit was broadcast.
    Broadcasting(Pause),
    /// Detaching in raw mode: awaits that the output task was told that raw
    /// mode is off.
    NotifyingPause,
    /// Resumed in raw mode: awaits that the output task was told that raw
    /// mode is on again.
    Renotifying,
    /// Awaits that content was forwarded to the socket.
    Forwarding,
    /// The task has ended.
    Stopped,
}

/// The input task.
#[derive(Clone, Copy, Debug, PartialEq, Eq, Structural)]
pub struct InputTask {
    pub phase: InputPhase,
    /// The input mode: `true` for raw mode, `false` for line mode.
    pub raw_mode: bool,
}

/// What came of the request that the input task made last.
#[derive(Debug, PartialEq, Eq)]
pub enum InputEvent {
    /// A signal arrived on the control bus.
    Signal(Signal),
    /// The control bus is closed.
    BusClosed,
    /// The request was carried out.
    Done,
    /// The request failed: the receiving side is gone.
    Failed,
    /// The line that was read, with the line feed that ends it.
    Line(String),
    /// The line read failed.
    ReadFailed(ReadError),
    /// The key that was read, and its raw bytes as text.
    Key(Key, String),
    /// The key read gave no key.
    NoKey,
}

/// `InputEvent` with its text as a sequence of characters.
pub ghost enum InputEventView {
    Signal(Signal),
    BusClosed,
    Done,
    Failed,
    Line(Seq<char>),
    ReadFailed(ReadError),
    Key(Key, Seq<char>),
    NoKey,
}

impl View for InputEvent {
    type V = InputEventView;

    open spec fn view(&self) -> InputEventView {
        match self {
            InputEvent::Signal(s) => InputEventView::Signal(*s),
            InputEvent::BusClosed => InputEventView::BusClosed,
            InputEvent::Done => InputEventView::Done,
            InputEvent::Failed => InputEventView::Failed,
            InputEvent::Line(content) => InputEventView::Line(content@),
            InputEvent::ReadFailed(e) => InputEventView::ReadFailed(*e),
            InputEvent::Key(key, text) => InputEventView::Key(*key, text@),
            InputEvent::NoKey => InputEventView::NoKey,
        }
    }
}

/// What the driver is to do next for the input task.
#[derive(Debug, PartialEq, Eq)]
pub enum InputAction {
    /// Nothing new: the request made before still stands.
    Wait,
    /// Wait for the next signal on the control bus. A wait listens from the
    /// moment it begins: what was sent before, the task's own quit among it,
    /// is not for it.
    AwaitSignal,
    /// Switch the terminal's raw mode off.
    LeaveRaw,
    /// Tell the output task the mode: `true` for raw mode.
    NotifyMode(bool),
    /// Take the latest prompt and read a line.
    ReadLine,
    /// Read a key.
    ReadKey,
    /// Clear the screen above the cursor.
    ClearScreen,
    /// Send the signal on the control bus. That nobody listens is of no
    /// account.
    Broadcast(Signal),
    /// Send the text to the socket.
    Forward(String),
    /// End the task.
    Stop,
}

/// `InputAction` with its text as a sequence of characters.
pub ghost enum InputActionView {
    Wait,
    AwaitSignal,
    LeaveRaw,
    NotifyMode(bool),
    ReadLine,
    ReadKey,
    ClearScreen,
    Broadcast(Signal),
    Forward(Seq<char>),
    Stop,
}

impl View for InputAction {
    type V = InputActionView;

    open spec fn view(&self) -> InputActionView {
        match self {
            InputAction::Wait => InputActionView::Wait,
            InputAction::AwaitSignal => InputActionView::AwaitSignal,
            InputAction::LeaveRaw => InputActionView::LeaveRaw,
            InputAction::NotifyMode(raw) => InputActionView::NotifyMode(*raw),
            InputAction::ReadLine => InputActionView::ReadLine,
            InputAction::ReadKey => InputActionView::ReadKey,
            InputAction::ClearScreen => InputActionView::ClearScreen,
            InputAction::Broadcast(s) => InputActionView::Broadcast(*s),
            InputAction::Forward(text) => InputActionView::Forward(text@),
            InputAction::Stop => InputActionView::Stop,
        }
    }
}

/// The single line feed that goes to the socket in place of a detach
/// gesture, so that the other side answers with a fresh prompt.
pub open spec fn line_feed() -> Seq<char> {
    seq!['\n']
}

/// The task at `phase` in the given mode.
pub open spec fn at(phase: InputPhase, raw_mode: bool) -> InputTask {
    InputTask { phase, raw_mode }
}

/// The start of a round: the output task is told the mode.
pub open spec fn begin_round(raw_mode: bool) -> (InputTask, InputActionView) {
    (at(InputPhase::Notifying, raw_mode), InputActionView::NotifyMode(raw_mode))
}

/// The end of the task.
pub open spec fn stop(raw_mode: bool) -> (InputTask, InputActionView) {
    (at(InputPhase::Stopped, raw_mode), InputActionView::Stop)
}

/// What follows the start signal that ends a wait. At startup a round
/// begins. After a detach in line mode a line feed is forwarded. After a
/// detach in raw mode, a task that is still in raw mode tells the output task
/// so again, and forwards a line feed after that; one that has left raw mode
/// begins a round.
pub open spec fn resume(pause: Pause, raw_mode: bool) -> (InputTask, InputActionView) {
    match pause {
        Pause::Startup => begin_round(raw_mode),
        Pause::Line => (at(InputPhase::Forwarding, raw_mode), InputActionView::Forward(line_feed())),
        Pause::Key => if raw_mode {
            (at(InputPhase::Renotifying, raw_mode), InputActionView::NotifyMode(true))
        } else {
            begin_round(raw_mode)
        },
    }
}

/// The task after `event`, and the request it makes.
///
/// An event that does not answer the request of the task's phase changes
/// nothing. A wait ends with a start signal, or with the task when the bus
/// closes; a quit that arrives during a wait in raw mode makes the task leave
/// raw mode and wait on. A round tells the output task the mode, then reads a
/// line or a key. A line that is the detach command, and the detach key, begin
/// the pause: the screen is cleared, the quit is broadcast, in raw mode the
/// output task is told that raw mode is off, and the task waits for a start.
/// Any other line, and the text of any other key, is forwarded. A read error
/// that is transient, and a read that gave no key, begin a new round; any
/// other read error ends the task, as does a notice or a forward that fails.
pub open spec fn input_step(task: InputTask, event: InputEventView) -> (
    InputTask,
    InputActionView,
) {
    let raw = task.raw_mode;
    let ignored = (task, InputActionView::Wait);
    match task.phase {
        InputPhase::Stopped => (task, InputActionView::Stop),
        InputPhase::Waiting(pause) => match event {
            InputEventView::Signal(Signal::Start) => resume(pause, raw),
            InputEventView::Signal(Signal::Quit) => if raw {
                (at(InputPhase::Cooking(pause), false), InputActionView::LeaveRaw)
            } else {
                (task, InputActionView::AwaitSignal)
            },
            InputEventView::BusClosed => stop(raw),
            _ => ignored,
        },
        InputPhase::Cooking(pause) => match event {
            InputEventView::Done | InputEventView::Failed => (
                at(InputPhase::Waiting(pause), raw),
                InputActionView::AwaitSignal,
            ),
            _ => ignored,
        },
        InputPhase::Notifying => match event {
            InputEventView::Done => if raw {
                (at(InputPhase::ReadingKey, raw), InputActionView::ReadKey)
            } else {
                (at(InputPhase::ReadingLine, raw), InputActionView::ReadLine)
            },
            InputEventView::Failed => stop(raw),
            _ => ignored,
        },
        InputPhase::ReadingLine => match event {
            InputEventView::Line(content) => if detach_line(content) {
                (at(InputPhase::Clearing(Pause::Line), raw), InputActionView::ClearScreen)
            } else {
                (at(InputPhase::Forwarding, raw), InputActionView::Forward(content))
            },
            InputEventView::ReadFailed(error) => if error.transient() {
                begin_round(raw)
            } else {
                stop(raw)
            },
            _ => ignored,
        },
        InputPhase::ReadingKey => match event {
            InputEventView::Key(key, text) => if key == detach_key() {
                (at(InputPhase::Clearing(Pause::Key), raw), InputActionView::ClearScreen)
            } else {
                (at(InputPhase::Forwarding, raw), InputActionView::Forward(text))
            },
            InputEventView::NoKey => begin_round(raw),
            _ => ignored,
        },
        InputPhase::Clearing(pause) => match event {
            InputEventView::Done | InputEventView::Failed => (
                at(InputPhase::Broadcasting(pause), raw),
                InputActionView::Broadcast(Signal::Quit),
            ),
            _ => ignored,
        },
        InputPhase::Broadcasting(pause) => match event {
            InputEventView::Done | InputEventView::Failed => if pause == Pause::Key {
                (at(InputPhase::NotifyingPause, raw), InputActionView::NotifyMode(false))
            } else {
                (at(InputPhase::Waiting(pause), raw), InputActionView::AwaitSignal)
            },
            _ => ignored,
        },
        InputPhase::NotifyingPause => match event {
            InputEventView::Done => (
                at(InputPhase::Waiting(Pause::Key), raw),
                InputActionView::AwaitSignal,
            ),
            InputEventView::Failed => stop(raw),
            _ => ignored,
        },
        InputPhase::Renotifying => match event {
            InputEventView::Done => (
                at(InputPhase::Forwarding, raw),
                InputActionView::Forward(line_feed()),
            ),
            InputEventView::Failed => stop(raw),
            _ => ignored,
        },
        InputPhase::Forwarding => match event {
            InputEventView::Done => begin_round(raw),
            InputEventView::Failed => stop(raw),
            _ => ignored,
        },
    }
}

/// The event that a key read makes, given the key and its raw bytes: the
/// bytes become text, and what is no UTF-8 in them is replaced.
pub open spec fn key_event(input: Option<(Key, Vec<u8>)>) -> InputEventView {
    match input {
        Some((key, raw)) => InputEventView::Key(key, lossy_text(raw@)),
        None => InputEventView::NoKey,
    }
}

impl InputEvent {
    /// The event that a key read makes.
    pub fn from_key(input: Option<(Key, Vec<u8>)>) -> (event: InputEvent)
        ensures
            event@ == key_event(input),
            match input {
                Some((key, raw)) => valid_utf8(raw@) ==> event@ == InputEventView::Key(
                    key,
                    decode_utf8(raw@),
                ),
                None => true,
            },
    {
        match input {
            Some((key, raw)) => InputEvent::Key(key, decode_lossy(&raw)),
            None => InputEvent::NoKey,
        }
    }

    /// The event that a line read makes.
    pub fn from_line(content: Result<String, ReadError>) -> (event: InputEvent)
        ensures
            event@ == match content {
                Ok(line) => InputEventView::Line(line@),
                Err(error) => InputEventView::ReadFailed(error),
            },
    {
        match content {
            Ok(line) => InputEvent::Line(line),
            Err(error) => InputEvent::ReadFailed(error),
        }
    }
}

impl InputTask {
    /// A task that has not started yet, for a session in the given mode. Its
    /// first request is `InputAction::AwaitSignal`.
    pub fn new(raw_mode: bool) -> (task: InputTask)
        ensures
            task == at(InputPhase::Waiting(Pause::Startup), raw_mode),
    {
        InputTask { phase: InputPhase::Waiting(Pause::Startup), raw_mode }
    }

    /// Whether the task has ended.
    pub fn is_stopped(&self) -> (b: bool)
        ensures
            b == (self.phase == InputPhase::Stopped),
    {
        self.phase == InputPhase::Stopped
    }

    /// Takes what came of the last request: moves the task on and makes the
    /// next request.
    pub fn step(&mut self, event: InputEvent) -> (action: InputAction)
        ensures
            (*final(self), action@) == input_step(*old(self), event@),
    {
        match self.phase {
            InputPhase::Stopped => InputAction::Stop,
            InputPhase::Waiting(pause) => match event {
                InputEvent::Signal(signal) => {
                    let seen = observe(signal, Signal::Start, Some(self.raw_mode));
                    if seen.leaves_raw {
                        self.raw_mode = false;
                        self.phase = InputPhase::Cooking(pause);
                        InputAction::LeaveRaw
                    } else if seen.arrived {
                        self.resume(pause)
                    } else {
                        InputAction::AwaitSignal
                    }
                },
                InputEvent::BusClosed => self.stop(),
                _ => InputAction::Wait,
            },
            InputPhase::Cooking(pause) => match event {
                InputEvent::Done | InputEvent::Failed => {
                    self.phase = InputPhase::Waiting(pause);
                    InputAction::AwaitSignal
                },
                _ => InputAction::Wait,
            },
            InputPhase::Notifying => match event {
                InputEvent::Done => if self.raw_mode {
                    self.phase = InputPhase::ReadingKey;
                    InputAction::ReadKey
                } else {
                    self.phase = InputPhase::ReadingLine;
                    InputAction::ReadLine
                },
                InputEvent::Failed => self.stop(),
                _ => InputAction::Wait,
            },
            InputPhase::ReadingLine => match event {
                InputEvent::Line(content) => if is_detach_line(content.as_str()) {
                    self.phase = InputPhase::Clearing(Pause::Line);
                    InputAction::ClearScreen
                } else {
                    self.phase = InputPhase::Forwarding;
                    InputAction::Forward(content)
                },
                InputEvent::ReadFailed(error) => if error.is_transient() {
                    self.begin_round()
                } else {
                    self.stop()
                },
                _ => InputAction::Wait,
            },
            InputPhase::ReadingKey => match event {
                InputEvent::Key(key, text) => if is_detach_key(key) {
                    self.phase = InputPhase::Clearing(Pause::Key);
                    InputAction::ClearScreen
                } else {
                    self.phase = InputPhase::Forwarding;
                    InputAction::Forward(text)
                },
                InputEvent::NoKey => self.begin_round(),
                _ => InputAction::Wait,
            },
            InputPhase::Clearing(pause) => match event {
                InputEvent::Done | InputEvent::Failed => {
                    self.phase = InputPhase::Broadcasting(pause);
                    InputAction::Broadcast(Signal::Quit)
                },
                _ => InputAction::Wait,
            },
            InputPhase::Broadcasting(pause) => match event {
                InputEvent::Done | InputEvent::Failed => if pause == Pause::Key {
                    self.phase = InputPhase::NotifyingPause;
                    InputAction::NotifyMode(false)
                } else {
                    self.phase = InputPhase::Waiting(pause);
                    InputAction::AwaitSignal
                },
                _ => InputAction::Wait,
            },
            InputPhase::NotifyingPause => match event {
                InputEvent::Done => {
                    self.phase = InputPhase::Waiting(Pause::Key);
                    InputAction::AwaitSignal
                },
                InputEvent::Failed => self.stop(),
                _ => InputAction::Wait,
            },
            InputPhase::Renotifying => match event {
                InputEvent::Done => self.forward_line_feed(),
                InputEvent::Failed => self.stop(),
                _ => InputAction::Wait,
            },
            InputPhase::Forwarding => match event {
                InputEvent::Done => self.begin_round(),
                InputEvent::Failed => self.stop(),
                _ => InputAction::Wait,
            },
        }
    }

    /// Begins a round.
    fn begin_round(&mut self) -> (action: InputAction)
        ensures
            (*final(self), action@) == begin_round(old(self).raw_mode),
    {
        self.phase = InputPhase::Notifying;
        InputAction::NotifyMode(self.raw_mode)
    }

    /// Ends the task.
    fn stop(&mut self) -> (action: InputAction)
        ensures
            (*final(self), action@) == stop(old(self).raw_mode),
    {
        self.phase = InputPhase::Stopped;
        InputAction::Stop
    }

    /// Forwards the line feed that stands for a detach gesture.
    fn forward_line_feed(&mut self) -> (action: InputAction)
        ensures
            *final(self) == at(InputPhase::Forwarding, old(self).raw_mode),
            action@ == InputActionView::Forward(line_feed()),
    {
        self.phase = InputPhase::Forwarding;
        proof {
            reveal_strlit("\n");
        }
        let text = String::from_str("\n");
        assert(text@ =~= line_feed());
        InputAction::Forward(text)
    }

    /// Goes on after the start signal that ended a wait.
    fn resume(&mut self, pause: Pause) -> (action: InputAction)
        ensures
            (*final(self), action@) == resume(pause, old(self).raw_mode),
    {
        match pause {
            Pause::Startup => self.begin_round(),
            Pause::Line => self.forward_line_feed(),
            Pause::Key => if self.raw_mode {
                self.phase = InputPhase::Renotifying;
                InputAction::NotifyMode(true)
            } else {
                self.begin_round()
            },
        }
    }
}

} // verus!

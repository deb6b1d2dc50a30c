//! The output task of a session: it renders what the socket sends, follows
//! the input task's mode, and goes quiet while the session is paused.
//!
//! The task is a state machine. Its driver owns the terminal and the
//! channels: it hands the task one event at a time and performs the action
//! that the task answers with.

use crate::render::{next_prompt, prompt_of, render_output, rendered};
use crate::signal::{observe, Signal};
use vstd::prelude::*;

verus! {

/// Where the output task stands.
#[derive(Clone, Copy, Debug, PartialEq, Eq, Structural)]
pub enum OutputPhase {
    /// Paused, or not started yet: the task waits for `Signal::Start` and takes
    /// nothing else.
    Inactive,
    /// Engaged: the task renders output, follows mode notices and waits for
    /// `Signal::Quit`.
    Active,
    /// The control bus is closed: the task has ended.
    Stopped,
}

/// The output task.
#[derive(Clone, Copy, Debug, PartialEq, Eq, Structural)]
pub struct OutputTask {
    pub phase: OutputPhase,
    /// The input mode as the output task knows it, from the mode notices and from
    /// the pauses it has seen.
    pub raw_mode: bool,
}

/// What can happen to the output task.
#[derive(Debug, PartialEq, Eq)]
pub enum OutputEvent {
    /// A signal arrived on the control bus.
    Signal(Signal),
    /// The control bus is closed.
    BusClosed,
    /// The output slot holds a value that was not seen yet; this is the latest.
    Output(String),
    /// The input task says which mode it is in: `true` for raw mode.
    Mode(bool),
    /// The mode channel has no sender left.
    ModeClosed,
}

/// `OutputEvent` with its text as a sequence of characters.
pub ghost enum OutputEventView {
    Signal(Signal),
    BusClosed,
    Output(Seq<char>),
    Mode(bool),
    ModeClosed,
}

impl View for OutputEvent {
    type V = OutputEventView;

    open spec fn view(&self) -> OutputEventView {
        match self {
            OutputEvent::Signal(s) => OutputEventView::Signal(*s),
            OutputEvent::BusClosed => OutputEventView::BusClosed,
            OutputEvent::Output(resp) => OutputEventView::Output(resp@),
            OutputEvent::Mode(raw) => OutputEventView::Mode(*raw),
            OutputEvent::ModeClosed => OutputEventView::ModeClosed,
        }
    }
}

/// What the driver is to do for the output task.
#[derive(Debug, PartialEq, Eq)]
pub enum OutputAction {
    /// Nothing.
    Nothing,
    /// Switch the terminal's raw mode on (`true`) or off.
    SetRaw(bool),
    /// Write `text` to the terminal and flush it, then publish `prompt` on the
    /// prompt slot. A publish that fails is of no account.
    Render { text: String, prompt: String },
    /// Report that the mode channel is closed, and go on.
    ReportClosed,
    /// End the task.
    Stop,
}

/// `OutputAction` with its text as sequences of characters.
pub ghost enum OutputActionView {
    Nothing,
    SetRaw(bool),
    Render { text: Seq<char>, prompt: Seq<char> },
    ReportClosed,
    Stop,
}

impl View for OutputAction {
    type V = OutputActionView;

    open spec fn view(&self) -> OutputActionView {
        match self {
            OutputAction::Nothing => OutputActionView::Nothing,
            OutputAction::SetRaw(raw) => OutputActionView::SetRaw(*raw),
            OutputAction::Render { text, prompt } => OutputActionView::Render {
                text: text@,
                prompt: prompt@,
            },
            OutputAction::ReportClosed => OutputActionView::ReportClosed,
            OutputAction::Stop => OutputActionView::Stop,
        }
    }
}

/// The task after `event`, and the action it asks for.
///
/// A stopped task stays stopped. An inactive task takes signals only: a start
/// engages it, and a quit that finds it in raw mode makes it leave raw mode;
/// output and mode notices are not for it, and the driver keeps them until
/// the task is active. An active task renders output in its mode and derives
/// the prompt from what it rendered, takes the mode of a notice as its own and
/// switches the terminal to it, and on a quit, or when the bus closes, leaves
/// raw mode and goes inactive.
pub open spec fn output_step(task: OutputTask, event: OutputEventView) -> (
    OutputTask,
    OutputActionView,
) {
    match task.phase {
        OutputPhase::Stopped => (task, OutputActionView::Stop),
        OutputPhase::Inactive => match event {
            OutputEventView::Signal(Signal::Start) => (
                OutputTask { phase: OutputPhase::Active, raw_mode: task.raw_mode },
                OutputActionView::Nothing,
            ),
            OutputEventView::Signal(Signal::Quit) => (
                OutputTask { phase: OutputPhase::Inactive, raw_mode: false },
                if task.raw_mode {
                    OutputActionView::SetRaw(false)
                } else {
                    OutputActionView::Nothing
                },
            ),
            OutputEventView::BusClosed => (
                OutputTask { phase: OutputPhase::Stopped, raw_mode: task.raw_mode },
                OutputActionView::Stop,
            ),
            _ => (task, OutputActionView::Nothing),
        },
        OutputPhase::Active => match event {
            OutputEventView::Signal(Signal::Start) => (task, OutputActionView::Nothing),
            OutputEventView::Signal(Signal::Quit) | OutputEventView::BusClosed => (
                OutputTask { phase: OutputPhase::Inactive, raw_mode: false },
                OutputActionView::SetRaw(false),
            ),
            OutputEventView::Output(resp) => (
                task,
                OutputActionView::Render {
                    text: rendered(resp, task.raw_mode),
                    prompt: prompt_of(rendered(resp, task.raw_mode)),
                },
            ),
            OutputEventView::Mode(raw) => (
                OutputTask { phase: OutputPhase::Active, raw_mode: raw },
                OutputActionView::SetRaw(raw),
            ),
            OutputEventView::ModeClosed => (task, OutputActionView::ReportClosed),
        },
    }
}

impl OutputTask {
    /// A task that has not started yet, for a session in the given mode.
    pub fn new(raw_mode: bool) -> (task: OutputTask)
        ensures
            task == (OutputTask { phase: OutputPhase::Inactive, raw_mode }),
    {
        OutputTask { phase: OutputPhase::Inactive, raw_mode }
    }

    /// Whether the task is engaged with the terminal.
    pub fn is_active(&self) -> (b: bool)
        ensures
            b == (self.phase == OutputPhase::Active),
    {
        self.phase == OutputPhase::Active
    }

    /// Whether the task has ended.
    pub fn is_stopped(&self) -> (b: bool)
        ensures
            b == (self.phase == OutputPhase::Stopped),
    {
        self.phase == OutputPhase::Stopped
    }

    /// Takes one event: moves the task on and says what the driver is to do.
    pub fn step(&mut self, event: OutputEvent) -> (action: OutputAction)
        ensures
            (*final(self), action@) == output_step(*old(self), event@),
    {
        match self.phase {
            OutputPhase::Stopped => OutputAction::Stop,
            OutputPhase::Inactive => match event {
                OutputEvent::Signal(signal) => {
                    let seen = observe(signal, Signal::Start, Some(self.raw_mode));
                    if seen.leaves_raw || signal == Signal::Quit {
                        self.raw_mode = false;
                    }
                    if seen.arrived {
                        self.phase = OutputPhase::Active;
                    }
                    if seen.leaves_raw {
                        OutputAction::SetRaw(false)
                    } else {
                        OutputAction::Nothing
                    }
                },
                OutputEvent::BusClosed => {
                    self.phase = OutputPhase::Stopped;
                    OutputAction::Stop
                },
                _ => OutputAction::Nothing,
            },
            OutputPhase::Active => match event {
                OutputEvent::Signal(signal) => {
                    let seen = observe(signal, Signal::Quit, Some(self.raw_mode));
                    if seen.arrived {
                        self.pause()
                    } else {
                        OutputAction::Nothing
                    }
                },
                OutputEvent::BusClosed => self.pause(),
                OutputEvent::Output(resp) => {
                    let text = render_output(resp.as_str(), self.raw_mode);
                    let prompt = next_prompt(text.as_str());
                    OutputAction::Render { text, prompt }
                },
                OutputEvent::Mode(raw) => {
                    self.raw_mode = raw;
                    OutputAction::SetRaw(raw)
                },
                OutputEvent::ModeClosed => OutputAction::ReportClosed,
            },
        }
    }

    /// Leaves raw mode and goes inactive.
    fn pause(&mut self) -> (action: OutputAction)
        ensures
            *final(self) == (OutputTask { phase: OutputPhase::Inactive, raw_mode: false }),
            action@ == OutputActionView::SetRaw(false),
    {
        self.raw_mode = false;
        self.phase = OutputPhase::Inactive;
        OutputAction::SetRaw(false)
    }
}

} // verus!

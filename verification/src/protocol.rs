//! What holds of the two tasks together: the mode they agree on, the pause
//! and resume cycle, and what a detach gesture sends in its own place.

use crate::input_task::{
    at, input_step, line_feed, InputActionView, InputEventView, InputPhase, InputTask, Pause,
};
use crate::keys::detach_key;
use crate::line::detach_line;
use crate::output_task::{
    output_step, OutputActionView, OutputEventView, OutputPhase, OutputTask,
};
use crate::render::{prompt_of, prompt_start, lemma_prompt_start};
use crate::signal::Signal;
use vstd::prelude::*;

verus! {

/// The request that a phase awaits the outcome of. `Forwarding` awaits a
/// forward, whatever its text.
pub open spec fn awaited(task: InputTask, action: InputActionView) -> bool {
    match task.phase {
        InputPhase::Waiting(_) => action == InputActionView::AwaitSignal,
        InputPhase::Cooking(_) => action == InputActionView::LeaveRaw,
        InputPhase::Notifying => action == InputActionView::NotifyMode(task.raw_mode),
        InputPhase::ReadingLine => action == InputActionView::ReadLine,
        InputPhase::ReadingKey => action == InputActionView::ReadKey,
        InputPhase::Clearing(_) => action == InputActionView::ClearScreen,
        InputPhase::Broadcasting(_) => action == InputActionView::Broadcast(Signal::Quit),
        InputPhase::NotifyingPause => action == InputActionView::NotifyMode(false),
        InputPhase::Renotifying => action == InputActionView::NotifyMode(true),
        InputPhase::Forwarding => action is Forward,
        InputPhase::Stopped => action == InputActionView::Stop,
    }
}

/// One request is outstanding at any time, and the phase says which: a step
/// either changes nothing and makes no request, or makes the one request that
/// the phase it leads to awaits. So no two reads are ever under way.
pub proof fn lemma_phase_names_request(task: InputTask, event: InputEventView)
    ensures
        ({
            let (next, action) = input_step(task, event);
            if action == InputActionView::Wait {
                next == task
            } else {
                awaited(next, action)
            }
        }),
{
}

/// What goes to the socket is a line as it was read, the text of a key as it
/// was read, or the single line feed; and a detach gesture is never what was
/// read.
pub proof fn lemma_forward_origin(task: InputTask, event: InputEventView, text: Seq<char>)
    requires
        input_step(task, event).1 == InputActionView::Forward(text),
    ensures
        ({
            ||| text == line_feed()
            ||| event == InputEventView::Line(text) && !detach_line(text)
            ||| exists|key: crate::keys::Key|
                event == InputEventView::Key(key, text) && key != detach_key()
        }),
{
    match event {
        InputEventView::Key(key, t) => {
            if task.phase == InputPhase::ReadingKey {
                assert(event == InputEventView::Key(key, text) && key != detach_key());
            }
        },
        _ => {},
    }
}

/// The mode changes in one way only: a step leaves the mode as it was, or
/// takes a waiting task out of raw mode on a quit.
pub proof fn lemma_mode_changes_on_quit_only(task: InputTask, event: InputEventView)
    ensures
        ({
            let next = input_step(task, event).0;
            ||| next.raw_mode == task.raw_mode
            ||| task.raw_mode && !next.raw_mode && task.phase is Waiting && event
                == InputEventView::Signal(Signal::Quit)
        }),
{
}

/// The input task is in exactly one mode, and reads by it: a step that asks
/// for a line leaves the task in line mode, one that asks for a key leaves it
/// in raw mode, and each such step answers the notice of that very mode. A
/// step that leads into a round sends the notice of the task's mode.
pub proof fn lemma_reads_follow_mode(task: InputTask, event: InputEventView)
    ensures
        ({
            let (next, action) = input_step(task, event);
            &&& action == InputActionView::ReadLine ==> !next.raw_mode && next == at(
                InputPhase::ReadingLine,
                task.raw_mode,
            ) && task.phase == InputPhase::Notifying
            &&& action == InputActionView::ReadKey ==> next.raw_mode && next == at(
                InputPhase::ReadingKey,
                task.raw_mode,
            ) && task.phase == InputPhase::Notifying
            &&& next.phase == InputPhase::Notifying && action != InputActionView::Wait ==> action
                == InputActionView::NotifyMode(next.raw_mode)
        }),
{
}

/// The output task's view of the mode, and the terminal with it, matches the
/// input task's mode one notice after a round begins: an active output task
/// that takes the notice of a round switches the terminal to the mode of the
/// notice and holds that mode, and the input task then reads in that mode.
pub proof fn lemma_notice_aligns_terminal(input: InputTask, output: OutputTask)
    requires
        input.phase == InputPhase::Notifying,
        output.phase == OutputPhase::Active,
    ensures
        ({
            let (shown, switch) = output_step(output, OutputEventView::Mode(input.raw_mode));
            let (reader, read) = input_step(input, InputEventView::Done);
            &&& shown.raw_mode == reader.raw_mode
            &&& shown.phase == OutputPhase::Active
            &&& switch == OutputActionView::SetRaw(reader.raw_mode)
            &&& read == if reader.raw_mode {
                InputActionView::ReadKey
            } else {
                InputActionView::ReadLine
            }
        }),
{
}

/// A signal ends no task: whatever signal arrives, a task that has not
/// stopped does not stop and does not ask to be ended.
pub proof fn lemma_signals_end_nothing(input: InputTask, output: OutputTask, signal: Signal)
    ensures
        input.phase != InputPhase::Stopped ==> {
            let (next, action) = input_step(input, InputEventView::Signal(signal));
            next.phase != InputPhase::Stopped && action != InputActionView::Stop
        },
        output.phase != OutputPhase::Stopped ==> {
            let (next, action) = output_step(output, OutputEventView::Signal(signal));
            next.phase != OutputPhase::Stopped && action != OutputActionView::Stop
        },
{
}

/// A pause destroys nothing. After a quit and then a start, an output task
/// that had not stopped is active, in line mode, and on the way the terminal
/// has left raw mode if it was in it; an input task that had not stopped has
/// not stopped.
pub proof fn lemma_pause_then_resume(input: InputTask, output: OutputTask)
    requires
        input.phase != InputPhase::Stopped,
        output.phase != OutputPhase::Stopped,
    ensures
        ({
            let (paused, leave) = output_step(output, OutputEventView::Signal(Signal::Quit));
            let (resumed, go) = output_step(paused, OutputEventView::Signal(Signal::Start));
            &&& paused == (OutputTask { phase: OutputPhase::Inactive, raw_mode: false })
            &&& output.raw_mode || output.phase == OutputPhase::Active ==> leave
                == OutputActionView::SetRaw(false)
            &&& resumed == (OutputTask { phase: OutputPhase::Active, raw_mode: false })
            &&& leave != OutputActionView::Stop
            &&& go == OutputActionView::Nothing
        }),
        ({
            let (paused, leave) = input_step(input, InputEventView::Signal(Signal::Quit));
            let (resumed, go) = input_step(paused, InputEventView::Signal(Signal::Start));
            &&& resumed.phase != InputPhase::Stopped
            &&& leave != InputActionView::Stop
            &&& go != InputActionView::Stop
        }),
{
}

/// A detach command in line mode never reaches the socket. From the line to
/// the forward the task clears the screen, broadcasts the quit, waits for the
/// start and then forwards a single line feed, whatever the line was.
pub proof fn lemma_line_detach_sends_line_feed(raw_mode: bool, content: Seq<char>)
    requires
        detach_line(content),
    ensures
        ({
            let reading = at(InputPhase::ReadingLine, raw_mode);
            let (clearing, clear) = input_step(reading, InputEventView::Line(content));
            let (telling, tell) = input_step(clearing, InputEventView::Done);
            let (waiting, wait) = input_step(telling, InputEventView::Done);
            let (sending, send) = input_step(waiting, InputEventView::Signal(Signal::Start));
            &&& clear == InputActionView::ClearScreen
            &&& tell == InputActionView::Broadcast(Signal::Quit)
            &&& wait == InputActionView::AwaitSignal
            &&& waiting == at(InputPhase::Waiting(Pause::Line), raw_mode)
            &&& send == InputActionView::Forward(line_feed())
            &&& sending == at(InputPhase::Forwarding, raw_mode)
        }),
{
}

/// A line that is no detach command goes to the socket as it is.
pub proof fn lemma_line_is_forwarded(raw_mode: bool, content: Seq<char>)
    requires
        !detach_line(content),
    ensures
        input_step(at(InputPhase::ReadingLine, raw_mode), InputEventView::Line(content)) == (
            at(InputPhase::Forwarding, raw_mode),
            InputActionView::Forward(content),
        ),
{
}

/// The detach key in raw mode runs the pause protocol, and the key itself
/// never reaches the socket: the screen is cleared, the quit is broadcast, the
/// output task is told that raw mode is off, and the task waits. On the start
/// signal the task, still in raw mode, tells the output task that raw mode is
/// on again and forwards a single line feed; then the next round begins. An
/// active output task that sees the quit switches the terminal's raw mode off
/// and goes inactive.
pub proof fn lemma_key_detach_in_raw_mode(text: Seq<char>, output: OutputTask)
    requires
        output.phase == OutputPhase::Active,
    ensures
        ({
            let reading = at(InputPhase::ReadingKey, true);
            let (s1, clear) = input_step(reading, InputEventView::Key(detach_key(), text));
            let (s2, tell) = input_step(s1, InputEventView::Done);
            let (s3, cook) = input_step(s2, InputEventView::Done);
            let (s4, wait) = input_step(s3, InputEventView::Done);
            let (s5, again) = input_step(s4, InputEventView::Signal(Signal::Start));
            let (s6, send) = input_step(s5, InputEventView::Done);
            let (s7, round) = input_step(s6, InputEventView::Done);
            &&& clear == InputActionView::ClearScreen
            &&& tell == InputActionView::Broadcast(Signal::Quit)
            &&& cook == InputActionView::NotifyMode(false)
            &&& wait == InputActionView::AwaitSignal
            &&& s4 == at(InputPhase::Waiting(Pause::Key), true)
            &&& again == InputActionView::NotifyMode(true)
            &&& send == InputActionView::Forward(line_feed())
            &&& round == InputActionView::NotifyMode(true)
            &&& s7 == at(InputPhase::Notifying, true)
        }),
        output_step(output, OutputEventView::Signal(Signal::Quit)) == (
            OutputTask { phase: OutputPhase::Inactive, raw_mode: false },
            OutputActionView::SetRaw(false),
        ),
{
}

/// A task that waits after a detach in raw mode and has left raw mode
/// meanwhile resumes in line mode: it forwards nothing and begins a round.
pub proof fn lemma_key_detach_resumed_in_line_mode()
    ensures
        ({
            let waiting = at(InputPhase::Waiting(Pause::Key), true);
            let (s1, leave) = input_step(waiting, InputEventView::Signal(Signal::Quit));
            let (s2, wait) = input_step(s1, InputEventView::Done);
            let (s3, round) = input_step(s2, InputEventView::Signal(Signal::Start));
            &&& leave == InputActionView::LeaveRaw
            &&& wait == InputActionView::AwaitSignal
            &&& round == InputActionView::NotifyMode(false)
            &&& s3 == at(InputPhase::Notifying, false)
        }),
{
}

/// Any key but the detach key sends its text, as it is.
pub proof fn lemma_key_is_forwarded(raw_mode: bool, key: crate::keys::Key, text: Seq<char>)
    requires
        key != detach_key(),
    ensures
        input_step(at(InputPhase::ReadingKey, raw_mode), InputEventView::Key(key, text)) == (
            at(InputPhase::Forwarding, raw_mode),
            InputActionView::Forward(text),
        ),
{
}

/// The task after a sequence of events, taken one after the other.
pub open spec fn input_run(task: InputTask, events: Seq<InputEventView>) -> InputTask
    decreases events.len(),
{
    if events.len() == 0 {
        task
    } else {
        input_step(input_run(task, events.drop_last()), events.last()).0
    }
}

/// Through every sequence of events the task is in one of its two modes, and
/// raw mode is never entered: a task that is in raw mode after the events was
/// in raw mode before them. A task that has stopped stays stopped.
pub proof fn lemma_run_never_enters_raw_mode(task: InputTask, events: Seq<InputEventView>)
    ensures
        input_run(task, events).raw_mode ==> task.raw_mode,
        task.phase == InputPhase::Stopped ==> input_run(task, events) == task,
    decreases events.len(),
{
    if events.len() > 0 {
        lemma_run_never_enters_raw_mode(task, events.drop_last());
        lemma_mode_changes_on_quit_only(input_run(task, events.drop_last()), events.last());
    }
}

/// The prompt is what follows the last line feed: for output that ends in a
/// line feed and then `tail`, where `tail` holds no line feed, the prompt is
/// exactly `tail`.
pub proof fn lemma_prompt_after_line_feed(head: Seq<char>, tail: Seq<char>)
    requires
        forall|i: int| 0 <= i < tail.len() ==> tail[i] != '\n',
    ensures
        prompt_of(head + seq!['\n'] + tail) == tail,
{
    let text = head + seq!['\n'] + tail;
    lemma_prompt_start(text);
    let k = prompt_start(text);
    assert(text[head.len() as int] == '\n');
    if k > head.len() + 1 {
        assert(text[k - 1] == tail[k - 1 - (head.len() + 1)]);
    }
    assert(k == head.len() + 1);
    assert(prompt_of(text) =~= tail);
}

/// Output that holds no line feed is a prompt as a whole.
pub proof fn lemma_prompt_without_line_feed(text: Seq<char>)
    requires
        forall|i: int| 0 <= i < text.len() ==> text[i] != '\n',
    ensures
        prompt_of(text) == text,
{
    lemma_prompt_start(text);
    assert(prompt_of(text) =~= text);
}

} // verus!

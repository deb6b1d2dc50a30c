//! The control signals that start and pause a terminal's engagement with a
//! connection.

use crate::text::same_text;
use vstd::prelude::*;

verus! {

/// A signal on the control bus.
#[derive(Clone, Copy, Debug, PartialEq, Eq, Structural)]
pub enum Signal {
    /// The terminal is handed to the session.
    Start,
    /// The session pauses; the connection stays open.
    Quit,
}

impl Signal {
    /// The name under which the signal travels on the bus.
    pub open spec fn name_seq(self) -> Seq<char> {
        match self {
            Signal::Start => seq!['s', 't', 'a', 'r', 't'],
            Signal::Quit => seq!['q', 'u', 'i', 't'],
        }
    }

    /// The name under which the signal travels on the bus.
    pub fn name(self) -> (name: &'static str)
        ensures
            name@ == self.name_seq(),
    {
        match self {
            Signal::Start => {
                proof {
                    reveal_strlit("start");
                }
                assert("start"@ =~= Signal::Start.name_seq());
                "start"
            },
            Signal::Quit => {
                proof {
                    reveal_strlit("quit");
                }
                assert("quit"@ =~= Signal::Quit.name_seq());
                "quit"
            },
        }
    }

    /// The signal that travels under `name`, if there is one.
    pub fn parse(name: &str) -> (signal: Option<Signal>)
        ensures
            match signal {
                Some(s) => name@ == s.name_seq(),
                None => name@ != Signal::Start.name_seq() && name@ != Signal::Quit.name_seq(),
            },
    {
        if same_text(name, Signal::Start.name()) {
            Some(Signal::Start)
        } else if same_text(name, Signal::Quit.name()) {
            Some(Signal::Quit)
        } else {
            None
        }
    }
}

/// What a task that waits for a signal learns from one signal that arrived.
#[derive(Clone, Copy, Debug, PartialEq, Eq, Structural)]
pub struct Observation {
    /// The signal is the one waited for: the wait is over.
    pub arrived: bool,
    /// The signal pauses a terminal that is in raw mode: raw mode is to be
    /// left before anything else happens, so that a paused terminal is always
    /// cooked, whichever task saw the pause first.
    pub leaves_raw: bool,
}

/// Judges one signal for a task that waits for `expected`. `raw_mode` is the
/// mode flag of the waiting task, where it has handed one to the wait.
pub fn observe(received: Signal, expected: Signal, raw_mode: Option<bool>) -> (seen: Observation)
    ensures
        seen.arrived == (received == expected),
        seen.leaves_raw == (received == Signal::Quit && raw_mode == Some(true)),
{
    let leaves_raw = match (received, raw_mode) {
        (Signal::Quit, Some(true)) => true,
        _ => false,
    };
    Observation { arrived: received == expected, leaves_raw }
}

} // verus!

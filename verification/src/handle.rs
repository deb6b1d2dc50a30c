//! The session handle: what binds one terminal to one connection.

use crate::input_task::{at, InputPhase, InputTask, Pause};
use crate::output_task::{OutputPhase, OutputTask};
use tokio::sync::broadcast::Sender;
use tokio_util::sync::CancellationToken;
use vstd::prelude::*;

verus! {

/// The sending side of the control bus.
#[verifier::external_type_specification]
#[verifier::external_body]
#[verifier::reject_recursive_types(T)]
pub struct ExSender<T>(Sender<T>);

/// The token that tears the socket down when it is cancelled.
#[verifier::external_type_specification]
#[verifier::external_body]
pub struct ExCancellationToken(CancellationToken);

/// How many signals the control bus holds for a listener that lags.
pub const BUS_CAPACITY: usize = 1024;

/// The handle of a session.
#[derive(Debug)]
pub struct Handle {
    /// The control bus, on which signals travel under their names.
    pub tx: Sender<&'static str>,
    /// Cancelled to tear the socket down. Nothing in a session's tasks
    /// cancels it: a pause leaves the connection open.
    pub soc_kill_token: CancellationToken,
    /// The input mode in which the session's tasks begin: `true` for raw
    /// mode, `false` for line mode.
    pub raw_mode: bool,
}

/// `tokio::sync::broadcast::channel` for signal names, of which the sending
/// half is kept. The call panics on a capacity of 0 or above half of
/// `usize::MAX`; nothing is claimed of what it returns.
#[verifier::external_body]
fn new_bus(capacity: usize) -> Sender<&'static str>
    requires
        0 < capacity <= usize::MAX / 2,
{
    tokio::sync::broadcast::channel::<&'static str>(capacity).0
}

/// `CancellationToken::new`: a token of its own, not cancelled. Nothing is
/// claimed of it here.
#[verifier::external_body]
fn new_token() -> CancellationToken {
    CancellationToken::new()
}

/// `CancellationToken::clone`: the same token once more. The clone holds the
/// very node that the given token holds, so that each is cancelled when the
/// other is, and the token's own `==` holds of the two.
pub assume_specification[ <CancellationToken as Clone>::clone ](
    token: &CancellationToken,
) -> (shared: CancellationToken)
    ensures
        shared == *token,
;

/// `Sender::clone`: one more sending side of the same bus. The clone holds
/// the very channel that the given sender holds, so that `same_channel` holds
/// of the two.
pub assume_specification<T>[ <Sender<T> as Clone>::clone ](bus: &Sender<T>) -> (same: Sender<T>)
    ensures
        same == *bus,
;

impl Handle {
    /// A handle for a session that begins in line mode, with a control bus of
    /// its own, and the token to share with the socket's side: the token that
    /// is handed out is the handle's own, so that cancelling either tears the
    /// socket down for both.
    pub fn new() -> (made: (Handle, CancellationToken))
        ensures
            !made.0.raw_mode,
            made.1 == made.0.soc_kill_token,
    {
        let tx = new_bus(BUS_CAPACITY);
        let soc_kill_token = new_token();
        let soc_kill_token_listen = soc_kill_token.clone();
        (Handle { tx, soc_kill_token, raw_mode: false }, soc_kill_token_listen)
    }

    /// The two tasks of the session, in the handle's mode, neither started
    /// yet: the output task is inactive, and the input task waits for the
    /// start signal.
    pub fn handle_listen(&self) -> (tasks: (OutputTask, InputTask))
        ensures
            tasks.0 == (OutputTask { phase: OutputPhase::Inactive, raw_mode: self.raw_mode }),
            tasks.1 == at(InputPhase::Waiting(Pause::Startup), self.raw_mode),
    {
        (OutputTask::new(self.raw_mode), InputTask::new(self.raw_mode))
    }
}

impl Clone for Handle {
    /// A handle of the same session: it sends on the same bus, shares the
    /// token, and is in the same mode.
    fn clone(&self) -> (other: Handle)
        ensures
            other.tx == self.tx,
            other.soc_kill_token == self.soc_kill_token,
            other.raw_mode == self.raw_mode,
    {
        Handle {
            tx: self.tx.clone(),
            soc_kill_token: self.soc_kill_token.clone(),
            raw_mode: self.raw_mode,
        }
    }
}

} // verus!

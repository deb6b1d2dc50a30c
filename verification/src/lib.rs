//! The session handle of an interactive terminal front-end for a live duplex
//! socket: two input modes (line editing and raw keystrokes), the rendering of
//! what the socket sends, and a pause and resume protocol that detaches the
//! terminal from a connection without closing it.
//!
//! The library holds the decisions. Each of the two tasks of a session is a
//! state machine that is handed one event at a time and answers with the next
//! thing to do; whoever drives it owns the terminal, the channels and the
//! socket.

pub mod input_task;
pub mod handle;
pub mod keys;
pub mod line;
pub mod output_task;
pub mod protocol;
pub mod render;
pub mod signal;
pub mod text;

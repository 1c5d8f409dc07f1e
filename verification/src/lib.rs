//! A scripted, remotely drivable client for a stateful login/session
//! protocol over an unreliable datagram transport.
//!
//! The library holds the verified core: the operator command parser, the
//! session state machine, the timing policy (process timeout, auto-logout,
//! sleep), and the trace-line formatter. The surrounding process (threads,
//! sockets, argument handling) drives these pure components.

pub mod cmd;
pub mod codec;
pub mod engine;
pub mod msg;
pub mod timing;
pub mod trace;

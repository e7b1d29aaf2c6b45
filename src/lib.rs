//! Remote-session orchestration for an interactive server console.
//!
//! The library holds the server catalogue model, the command formatter, the
//! session lifecycle state machine and the orchestration flow that reports
//! progress through a status channel. Network, terminal and file work is done
//! by the caller, which feeds the outcomes back as events.
pub mod error;
pub mod formatter;
pub mod parser;
pub mod connection;
pub mod session;
pub mod flow;
pub mod view;

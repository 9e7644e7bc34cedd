//! The verified core of a small FTP server: the command parser, the
//! per-session state, one executor per verb, the session engine's
//! decisions, and the wire formatting of replies. Sockets and the
//! filesystem stay with the caller, which performs each
//! [`executor::OutsideRequest`] and hands the answer back; everything
//! the protocol decides is proved here. The laws the server keeps are
//! collected in [`laws`].
pub mod auth;
pub mod command;
pub mod config;
pub mod errors;
pub mod executor;
pub mod laws;
pub mod numbers;
pub mod paths;
pub mod session;
pub mod sessionstate;
pub mod status;
pub mod text;
pub mod verb;
pub mod wire;

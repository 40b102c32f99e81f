//! The verified core of a pipelined RPC client transport: the error layer that folds the
//! nested outcome of a call into one flat error type, the choice of the address that is
//! dialled, the steps by which a connection is established and its one-shot resolved,
//! and what a poll of the connect future reports.
//!
//! Sockets, the event loop and the futures themselves live with the caller; the
//! functions here take what that work reports and say what follows from it.

pub mod connect;
pub mod error;
pub mod outside;
pub mod readiness;
pub mod service;

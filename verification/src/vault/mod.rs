//! The encrypted vault that keeps the pending deletion list between sessions.

pub mod crypto;
pub mod storage;

//! Cancellation of running deletion operations.

use vstd::prelude::*;
use std::sync::Arc;
use std::sync::atomic::{AtomicBool, Ordering};

verus! {

/// A shared stop flag. Clones observe the same flag.
#[derive(Clone)]
pub struct CancellationToken {
    cancelled: Arc<AtomicBool>,
}

impl CancellationToken {
    /// A fresh token that is not stopped.
    pub fn new() -> (r: Self) {
        CancellationToken { cancelled: Arc::new(AtomicBool::new(false)) }
    }

    /// Stops every holder of this token.
    pub fn cancel(&self) {
        self.cancelled.store(true, Ordering::Relaxed);
    }

    /// Whether some holder stopped the token. Other threads may set the flag at
    /// any time, so nothing is stated of the value read.
    pub fn is_cancelled(&self) -> (r: bool) {
        self.cancelled.load(Ordering::Relaxed)
    }
}

/// The operation session that the user interface can stop: at most one
/// current token, replaced at the start of each operation.
pub struct OperationRegistry {
    current: Option<CancellationToken>,
}

impl OperationRegistry {
    /// The session state before any operation began.
    pub closed spec fn has_session(&self) -> bool {
        self.current is Some
    }

    /// A registry with no operation session.
    pub fn new() -> (r: Self)
        ensures
            !r.has_session(),
    {
        OperationRegistry { current: None }
    }

    /// Starts a new operation with a fresh token, which replaces the previous one.
    pub fn begin_global_operation(&mut self) -> (r: CancellationToken)
        ensures
            final(self).has_session(),
    {
        let token = CancellationToken::new();
        self.current = Some(token.clone());
        token
    }

    /// The current session's token, if a session exists; never creates one.
    pub fn get_global_token(&self) -> (r: Option<CancellationToken>)
        ensures
            r is Some <==> self.has_session(),
    {
        match &self.current {
            Some(token) => Some(token.clone()),
            None => None,
        }
    }

    /// Whether the current session was stopped; `false` without a session.
    pub fn is_global_operation_cancelled(&self) -> (r: bool)
        ensures
            !self.has_session() ==> !r,
    {
        match &self.current {
            Some(token) => token.is_cancelled(),
            None => false,
        }
    }

    /// Stops the current session, if any.
    pub fn cancel_global(&self) {
        if let Some(token) = &self.current {
            token.cancel();
        }
    }
}

} // verus!

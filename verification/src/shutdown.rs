//! Cancellation shared across tasks, and the flags of a graceful shutdown.
//!
//! A `CancelToken` is a flag that every clone and every child shares: a
//! cancel through any of them is seen through all of them. Because the flag
//! lives behind an `Arc` and other threads may set it at any time, no
//! contract here speaks of its value.  The contracts compare the handles'
//! `Arc`s by `==`, which compares what they point to, not where: they say
//! that a child or a returned handle is a copy of the handle it came from,
//! and the tests show that the copies share one flag.
use std::sync::atomic::AtomicBool;
use std::sync::atomic::Ordering;
use std::sync::Arc;
use vstd::prelude::*;

verus! {

/// `Arc::clone`: a second handle on the same allocation, so the same flag.
#[verifier::external_body]
fn share_flag(flag: &Arc<AtomicBool>) -> (r: Arc<AtomicBool>)
    ensures
        r == *flag,
{
    Arc::clone(flag)
}

/// Seconds that the cleanup after a shutdown signal may take before the
/// process exits anyway.
pub const SHUTDOWN_TIMEOUT_SECS: u64 = 5;

/// A cancellation flag shared by all of its clones and children.
#[derive(Clone, Debug, Default)]
pub struct CancelToken {
    cancelled: Arc<AtomicBool>,
}

impl CancelToken {
    /// Whether this token's handle on its flag equals `other`'s (`==` on the
    /// `Arc`s, that is, on the flags they point to).
    pub closed spec fn same_flag_as(&self, other: &CancelToken) -> bool {
        self.cancelled == other.cancelled
    }

    /// A new token that is not cancelled.
    pub fn new() -> (r: CancelToken) {
        CancelToken { cancelled: Arc::new(AtomicBool::new(false)) }
    }

    /// Sets the flag; cancelling twice is the same as cancelling once.
    pub fn cancel(&self) {
        self.cancelled.store(true, Ordering::SeqCst);
    }

    /// Whether any holder of the flag has cancelled it.
    pub fn is_cancelled(&self) -> (r: bool) {
        self.cancelled.load(Ordering::SeqCst)
    }

    /// A token that shares this token's flag.
    pub fn child_token(&self) -> (r: CancelToken)
        ensures
            r.same_flag_as(self),
    {
        CancelToken { cancelled: share_flag(&self.cancelled) }
    }
}

/// The flags of a graceful shutdown: the shared cancel token, whether a
/// second signal asked to exit at once, and whether a first one came.
#[derive(Debug, Default)]
pub struct ShutdownHandler {
    pub token: CancelToken,
    force_shutdown: Arc<AtomicBool>,
    shutdown_initiated: Arc<AtomicBool>,
}

impl ShutdownHandler {
    /// The flag that a second signal sets.
    pub closed spec fn spec_force_flag(&self) -> Arc<AtomicBool> {
        self.force_shutdown
    }

    /// The flag that the first signal sets.
    pub closed spec fn spec_initiated_flag(&self) -> Arc<AtomicBool> {
        self.shutdown_initiated
    }

    /// A handler with a fresh token and both flags unset.
    pub fn new() -> (r: ShutdownHandler) {
        ShutdownHandler {
            token: CancelToken::new(),
            force_shutdown: Arc::new(AtomicBool::new(false)),
            shutdown_initiated: Arc::new(AtomicBool::new(false)),
        }
    }

    /// Whether a second signal asked for an immediate exit.
    pub fn is_force_shutdown(&self) -> (r: bool) {
        self.force_shutdown.load(Ordering::SeqCst)
    }

    /// The flag that a second signal sets, shared with this handler.
    pub fn force_flag(&self) -> (r: Arc<AtomicBool>)
        ensures
            r == self.spec_force_flag(),
    {
        share_flag(&self.force_shutdown)
    }

    /// The flag that the first signal sets, shared with this handler.
    pub fn initiated_flag(&self) -> (r: Arc<AtomicBool>)
        ensures
            r == self.spec_initiated_flag(),
    {
        share_flag(&self.shutdown_initiated)
    }
}

} // verus!

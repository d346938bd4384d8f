//! One-shot completion signals.
//!
//! Every pending protocol round-trip pairs a packet identifier with a
//! notification handle; the tracker fires the handle when the matching
//! acknowledgment arrives, and whoever started the round-trip waits on the
//! clone it was handed back.

use std::sync::Arc;

use vstd::prelude::*;

use tokio::sync::Notify;

verus! {

#[verifier::external_type_specification]
#[verifier::external_body]
pub struct ExNotify(Notify);

/// Relies on `tokio::sync::Notify::new`: a fresh signal nobody holds yet.
#[verifier::external_body]
pub fn fresh_notify() -> Arc<Notify> {
    Arc::new(Notify::new())
}

/// Relies on `Arc::clone`: a second handle to the same signal.
#[verifier::external_body]
pub fn clone_notify(n: &Arc<Notify>) -> (r: Arc<Notify>)
    ensures
        r == *n,
{
    Arc::clone(n)
}

/// Relies on `tokio::sync::Notify::notify_one`: wakes the signal's single
/// waiter, or stores a permit if none waits yet.
#[verifier::external_body]
pub fn notify_one(n: &Arc<Notify>) {
    n.notify_one();
}

/// Relies on `tokio::sync::Notify::notify_waiters`: wakes every current
/// waiter without storing a permit.
#[verifier::external_body]
pub fn notify_waiters(n: &Arc<Notify>) {
    n.notify_waiters();
}

/// What a caller must still wait for after handing a packet to a tracker.
pub enum Completion {
    /// Nothing: the operation is already complete.
    Immediate,
    /// The round-trip completes when this signal fires.
    Wait(Arc<Notify>),
}

} // verus!

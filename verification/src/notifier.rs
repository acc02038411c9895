//! The release primitive behind a shutdown: tokio's `Notify`.

use std::sync::Arc;
use tokio::sync::Notify;
use vstd::prelude::*;

verus! {

#[verifier::external_type_specification]
#[verifier::external_body]
pub struct ExNotify(Notify);

/// Calls `tokio::sync::Notify::new`. Nothing is claimed of the notifier made.
#[verifier::external_body]
pub(crate) fn new_notifier() -> Arc<Notify> {
    Arc::new(Notify::new())
}

/// Calls `Arc::clone`, which makes a second pointer to the same allocation:
/// the contract claims that the pointer handed back equals the one given.
#[verifier::external_body]
pub(crate) fn share_notifier(notifier: &Arc<Notify>) -> (shared: Arc<Notify>)
    ensures
        shared == *notifier,
{
    Arc::clone(notifier)
}

/// Calls `tokio::sync::Notify::notify_waiters`, which wakes every task that
/// waits on the notifier at this moment and stores no permit for later ones.
/// Nothing is claimed of it: what it does is not visible in a value. It
/// returns unless the waker of a waiting task panics; those of tokio's own
/// tasks do not.
#[verifier::external_body]
pub(crate) fn release_waiters(notifier: &Arc<Notify>) {
    notifier.notify_waiters();
}

} // verus!

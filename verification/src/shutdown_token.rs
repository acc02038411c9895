//! The handshake by which a running dispatcher is asked to stop.
//!
//! A token is in one of three states. Dispatching takes it from `Idle` to
//! `Running`; a shutdown request takes it from `Running` to `ShuttingDown`;
//! the loop, once drained, takes it back to `Idle` and releases whoever
//! waits for that.

use crate::notifier::new_notifier;
use crate::notifier::release_waiters;
use crate::notifier::share_notifier;
use crate::shutdown_state::DispatcherState;
use crate::shutdown_state::ShutdownState;
use crate::timeout::saturating_sum;
use crate::timeout::Timeout;
use crate::timeout::NANOS_PER_SEC;
use std::sync::Arc;
use tokio::sync::Notify;
use vstd::prelude::*;

verus! {

/// This error is returned from [`ShutdownToken::shutdown`] when trying to
/// shutdown an idle dispatcher.
#[derive(Clone, Copy, Debug, PartialEq, Eq, Structural)]
pub struct IdleShutdownError;

impl IdleShutdownError {
    /// The error in words.
    pub fn message(&self) -> (text: String)
        ensures
            text@ == "Dispatcher was idle and as such couldn't be shut down"@,
    {
        "Dispatcher was idle and as such couldn't be shut down".to_owned()
    }
}

/// Said of a shutdown request that found a shutdown already under way.
#[derive(Clone, Copy, Debug, PartialEq, Eq, Structural)]
pub struct AlreadyShuttingDown;

/// What a shutdown request is answered with when it finds the state `held`.
pub open spec fn shutdown_outcome(held: ShutdownState) -> Result<
    (),
    Result<AlreadyShuttingDown, IdleShutdownError>,
> {
    match held {
        ShutdownState::Running => Ok(()),
        ShutdownState::ShuttingDown => Err(Ok(AlreadyShuttingDown)),
        ShutdownState::Idle => Err(Err(IdleShutdownError)),
    }
}

/// The state that a shutdown request leaves behind when it finds `held`.
pub open spec fn state_after_shutdown(held: ShutdownState) -> ShutdownState {
    match held {
        ShutdownState::Running => ShutdownState::ShuttingDown,
        ShutdownState::ShuttingDown => ShutdownState::ShuttingDown,
        ShutdownState::Idle => ShutdownState::Idle,
    }
}

/// Requests a shutdown of the dispatcher whose state `state` holds.
///
/// A running dispatcher starts to shut down. One that shuts down already is
/// left to it, and one that is idle is left idle; both are reported.
pub fn shutdown_inner(state: &mut DispatcherState) -> (answer: Result<
    (),
    Result<AlreadyShuttingDown, IdleShutdownError>,
>)
    ensures
        answer == shutdown_outcome(old(state)@),
        final(state)@ == state_after_shutdown(old(state)@),
{
    let res = state.compare_exchange(ShutdownState::Running, ShutdownState::ShuttingDown);
    match res {
        Ok(_) => Ok(()),
        Err(ShutdownState::ShuttingDown) => Err(Ok(AlreadyShuttingDown)),
        Err(_) => Err(Err(IdleShutdownError)),
    }
}

/// What a successful shutdown request hands out: the notifier on which the
/// end of the drain is announced.
pub struct ShutdownWait {
    notifier: Arc<Notify>,
}

impl ShutdownWait {
    /// The notifier to wait on.
    pub closed spec fn notifier(&self) -> Arc<Notify> {
        self.notifier
    }

    /// Hands out the notifier to wait on.
    pub fn into_notifier(self) -> (notifier: Arc<Notify>)
        ensures
            notifier == self.notifier(),
    {
        self.notifier
    }
}

/// A token which used to shutdown a dispatcher.
pub struct ShutdownToken {
    dispatcher_state: DispatcherState,
    shutdown_notify_back: Arc<Notify>,
}

impl ShutdownToken {
    /// The state of the dispatcher.
    pub closed spec fn state(&self) -> ShutdownState {
        self.dispatcher_state@
    }

    /// The notifier on which the token announces the end of a drain.
    pub closed spec fn notifier(&self) -> Arc<Notify> {
        self.shutdown_notify_back
    }

    /// A token of an idle dispatcher.
    pub fn new() -> (token: ShutdownToken)
        ensures
            token.state() == ShutdownState::Idle,
    {
        ShutdownToken {
            dispatcher_state: DispatcherState::new(ShutdownState::Idle),
            shutdown_notify_back: new_notifier(),
        }
    }

    /// The state of the dispatcher.
    pub fn current(&self) -> (state: ShutdownState)
        ensures
            state == self.state(),
    {
        self.dispatcher_state.load()
    }

    /// Tries to shutdown dispatching.
    ///
    /// Returns an error if the dispatcher is idle at the moment, and changes
    /// nothing then. Otherwise the dispatcher shuts down from now on, whether
    /// it did so before or not, and the caller gets the token's notifier to
    /// wait on: every request made during one shutdown waits for the same
    /// announcement.
    pub fn shutdown(&mut self) -> (wait: Result<ShutdownWait, IdleShutdownError>)
        ensures
            answers_shutdown(*old(self), wait, *final(self)),
    {
        match shutdown_inner(&mut self.dispatcher_state) {
            Ok(()) | Err(Ok(AlreadyShuttingDown)) => Ok(
                ShutdownWait { notifier: share_notifier(&self.shutdown_notify_back) },
            ),
            Err(Err(err)) => Err(err),
        }
    }

    /// Marks the dispatcher as running. Only an idle dispatcher can start.
    pub fn start_dispatching(&mut self)
        requires
            old(self).state() == ShutdownState::Idle,
        ensures
            final(self).state() == ShutdownState::Running,
            final(self).notifier() == old(self).notifier(),
    {
        let _ = self.dispatcher_state.compare_exchange(
            ShutdownState::Idle,
            ShutdownState::Running,
        );
    }

    /// Whether a shutdown was requested and is not finished.
    pub fn is_shutting_down(&self) -> (yes: bool)
        ensures
            yes == (self.state() == ShutdownState::ShuttingDown),
    {
        match self.dispatcher_state.load() {
            ShutdownState::ShuttingDown => true,
            _ => false,
        }
    }

    /// Ends dispatching: the dispatcher is idle afterwards. Where it was
    /// shutting down, whoever waits on the notifier is released, and `true`
    /// is returned; where the loop ended by itself nobody is, and `false` is.
    pub fn done(&mut self) -> (released: bool)
        ensures
            ends_dispatching(*old(self), released, *final(self)),
    {
        let released = self.is_shutting_down();
        if released {
            release_waiters(&self.shutdown_notify_back);
        }
        self.dispatcher_state.store(ShutdownState::Idle);
        released
    }
}

/// How a shutdown request relates the token before it, its answer and the
/// token after it.
pub open spec fn answers_shutdown(
    before: ShutdownToken,
    wait: Result<ShutdownWait, IdleShutdownError>,
    after: ShutdownToken,
) -> bool {
    &&& wait is Err <==> before.state() == ShutdownState::Idle
    &&& wait matches Ok(handle) ==> handle.notifier() == before.notifier()
    &&& after.state() == state_after_shutdown(before.state())
    &&& after.notifier() == before.notifier()
}

/// How the end of dispatching relates the token before it, whether waiters
/// were released, and the token after it.
pub open spec fn ends_dispatching(before: ShutdownToken, released: bool, after: ShutdownToken) -> bool {
    &&& released == (before.state() == ShutdownState::ShuttingDown)
    &&& after.state() == ShutdownState::Idle
    &&& after.notifier() == before.notifier()
}

/// A shutdown request to an idle dispatcher is refused and leaves it idle,
/// however often it is made: the token after it is again one to which this
/// applies.
pub proof fn idle_shutdown_is_refused(
    before: ShutdownToken,
    wait: Result<ShutdownWait, IdleShutdownError>,
    after: ShutdownToken,
)
    requires
        before.state() == ShutdownState::Idle,
        answers_shutdown(before, wait, after),
    ensures
        wait == Err::<ShutdownWait, IdleShutdownError>(IdleShutdownError),
        after.state() == ShutdownState::Idle,
        shutdown_outcome(before.state()) == Err::<
            (),
            Result<AlreadyShuttingDown, IdleShutdownError>,
        >(Err(IdleShutdownError)),
{
    assert(wait->Err_0 == IdleShutdownError);
}

/// Two shutdown requests to a running dispatcher, one after the other, are
/// both granted, and both wait on the token's one notifier. The first starts
/// the shutdown; the second finds it under way and starts no other. The one
/// end of dispatching that follows releases the waiters, and leaves a token
/// whose next end of dispatching releases nobody.
pub proof fn shutdown_requests_share_one_drain(
    before: ShutdownToken,
    first: Result<ShutdownWait, IdleShutdownError>,
    between: ShutdownToken,
    second: Result<ShutdownWait, IdleShutdownError>,
    after: ShutdownToken,
    released: bool,
    drained: ShutdownToken,
)
    requires
        before.state() == ShutdownState::Running,
        answers_shutdown(before, first, between),
        answers_shutdown(between, second, after),
        ends_dispatching(after, released, drained),
    ensures
        first is Ok,
        second is Ok,
        first->Ok_0.notifier() == second->Ok_0.notifier(),
        second->Ok_0.notifier() == after.notifier(),
        shutdown_outcome(before.state()) == Ok::<(), Result<AlreadyShuttingDown, IdleShutdownError>>(
            (),
        ),
        shutdown_outcome(between.state()) == Err::<
            (),
            Result<AlreadyShuttingDown, IdleShutdownError>,
        >(Ok(AlreadyShuttingDown)),
        between.state() == ShutdownState::ShuttingDown,
        after.state() == ShutdownState::ShuttingDown,
        released,
        drained.state() == ShutdownState::Idle,
        drained.notifier() == before.notifier(),
        forall|again: bool, rest: ShutdownToken| ends_dispatching(drained, again, rest) ==> !again,
{
}

/// A shutdown request changes the state at most once: a second request
/// leaves the state as the first left it.
pub proof fn shutdown_is_idempotent(held: ShutdownState)
    ensures
        state_after_shutdown(state_after_shutdown(held)) == state_after_shutdown(held),
        shutdown_outcome(held) is Ok <==> held == ShutdownState::Running,
        shutdown_outcome(state_after_shutdown(held)) !is Ok,
{
}

/// The least time between two looks at the shutdown state, in nanoseconds.
pub open spec fn min_shutdown_check_timeout() -> nat {
    NANOS_PER_SEC as nat
}

/// How long the main loop may wait for an update before it looks at the
/// shutdown state again: the listener's own timeout, where it names one, and
/// a second on top of it, cut off at the longest span.
pub fn shutdown_check_timeout_for(timeout_hint: Option<Timeout>) -> (timeout: Timeout)
    ensures
        timeout@ == saturating_sum(
            match timeout_hint {
                Some(hint) => hint@,
                None => 0,
            },
            min_shutdown_check_timeout(),
        ),
{
    let min_shutdown_check_timeout = Timeout::from_secs(1);
    let shutdown_check_timeout = match timeout_hint {
        Some(hint) => hint,
        None => Timeout::zero(),
    };
    shutdown_check_timeout.saturating_add(min_shutdown_check_timeout)
}

} // verus!

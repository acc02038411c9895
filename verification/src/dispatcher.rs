//! The main loop of a dispatcher, as the decisions it takes.
//!
//! The loop itself runs elsewhere: it waits for updates, runs evaluations
//! side by side and tells the dispatcher what happened. The dispatcher
//! keeps count and says what is to be done next, so that a shutdown lets
//! every evaluation under way finish and lets nothing new in.

use crate::dependencies::DependencyMap;
use crate::evaluation::Actions;
use crate::evaluation::Evaluation;
use crate::evaluation::Outcome;
use crate::requirements::with_kinds;
use crate::handler::Handler;
use crate::shutdown_state::ShutdownState;
use crate::shutdown_token::state_after_shutdown;
use crate::shutdown_token::IdleShutdownError;
use crate::shutdown_token::ShutdownToken;
use crate::shutdown_token::ShutdownWait;
use std::sync::Arc;
use tokio::sync::Notify;
use vstd::prelude::*;

verus! {

/// What a dispatcher's loop is at.
pub struct LoopState {
    /// The shutdown state.
    pub state: ShutdownState,
    /// The number of evaluations that were started and have not finished.
    pub in_flight: nat,
    /// Whether the update source may still yield updates.
    pub listening: bool,
}

/// What happens to a dispatcher's loop.
#[derive(Clone, Copy, Debug, PartialEq, Eq, Structural)]
pub enum LoopEvent {
    /// Dispatching starts.
    Started,
    /// The source yields an update.
    Arrived,
    /// An evaluation finishes.
    Evaluated,
    /// The source reports that it yields no more updates.
    SourceEnded,
    /// A shutdown is requested.
    ShutdownRequested,
    /// The loop asks to end.
    Finished,
}

/// What the loop is to do next.
#[derive(Clone, Copy, Debug, PartialEq, Eq, Structural)]
pub enum LoopAction {
    /// Nothing: no loop is running.
    Rest,
    /// Wait for the next update, no longer than the shutdown check timeout.
    Poll,
    /// Take no new update, and wait for an evaluation to finish.
    AwaitEvaluation,
    /// End the loop.
    Finish,
}

/// What is to be told about an evaluation that has ended.
#[derive(Clone, Copy, Debug, PartialEq, Eq, Structural)]
pub enum Report {
    /// Nothing: the update was handled.
    Nothing,
    /// That no handler took the update; the default handler gets it.
    Unhandled,
    /// That an action failed; the error handler gets the error.
    Error,
}

/// What is to be told about an evaluation with this outcome.
pub open spec fn report_spec<E>(outcome: Outcome<E>) -> Report {
    match outcome {
        Outcome::Handled => Report::Nothing,
        Outcome::NotHandled => Report::Unhandled,
        Outcome::Failed(_) => Report::Error,
    }
}

/// What is to be told about an evaluation with this outcome. An error is
/// told to the error handler and an unhandled update to the default
/// handler; neither ends the loop.
pub fn report<E>(outcome: &Outcome<E>) -> (told: Report)
    ensures
        told == report_spec(*outcome),
{
    match outcome {
        Outcome::Handled => Report::Nothing,
        Outcome::NotHandled => Report::Unhandled,
        Outcome::Failed(_) => Report::Error,
    }
}

impl LoopState {
    /// The most evaluations that a dispatcher counts at one time.
    pub open spec fn capacity() -> nat {
        usize::MAX as nat
    }

    /// Whether an update that arrives now is taken: only while the loop
    /// runs, no shutdown was requested and the source has not ended.
    pub open spec fn accepts(self) -> bool {
        &&& self.state == ShutdownState::Running
        &&& self.listening
        &&& self.in_flight < Self::capacity()
    }

    /// Whether the loop may end now: it has stopped taking updates, and no
    /// evaluation is under way.
    pub open spec fn may_finish(self) -> bool {
        &&& self.state != ShutdownState::Idle
        &&& self.state == ShutdownState::ShuttingDown || !self.listening
        &&& self.in_flight == 0
    }

    /// Whether the end of the loop, asked for now, releases those who wait
    /// for a shutdown.
    pub open spec fn releases(self, event: LoopEvent) -> bool {
        event == LoopEvent::Finished && self.may_finish() && self.state
            == ShutdownState::ShuttingDown
    }

    /// What the loop is at after `event`.
    pub open spec fn step(self, event: LoopEvent) -> LoopState {
        match event {
            LoopEvent::Started => if self.state == ShutdownState::Idle {
                LoopState { state: ShutdownState::Running, in_flight: 0, listening: true }
            } else {
                self
            },
            LoopEvent::Arrived => if self.accepts() {
                LoopState { in_flight: self.in_flight + 1, ..self }
            } else {
                self
            },
            LoopEvent::Evaluated => if self.in_flight > 0 {
                LoopState { in_flight: (self.in_flight - 1) as nat, ..self }
            } else {
                self
            },
            LoopEvent::SourceEnded => LoopState { listening: false, ..self },
            LoopEvent::ShutdownRequested => LoopState {
                state: state_after_shutdown(self.state),
                ..self
            },
            LoopEvent::Finished => if self.may_finish() {
                LoopState { state: ShutdownState::Idle, ..self }
            } else {
                self
            },
        }
    }

    /// What the loop is to do next.
    pub open spec fn next_action(self) -> LoopAction {
        if self.state == ShutdownState::Idle {
            LoopAction::Rest
        } else if self.state == ShutdownState::Running && self.listening {
            LoopAction::Poll
        } else if self.in_flight > 0 {
            LoopAction::AwaitEvaluation
        } else {
            LoopAction::Finish
        }
    }
}

/// Why a loop that asked to end goes on.
#[derive(Clone, Copy, Debug, PartialEq, Eq, Structural)]
pub enum StillBusy {
    /// No loop is running.
    NotDispatching,
    /// The loop still takes updates.
    Polling,
    /// Evaluations are still under way.
    Draining,
}

/// Why no dispatcher was built: a node of the tree reads a dependency of
/// this kind, and there is none where the node stands.
#[derive(Clone, Copy, Debug, PartialEq, Eq, Structural)]
pub struct MissingDependency {
    pub kind: u64,
}

/// A dispatcher: the handler tree, the dependencies that its handlers read,
/// the shutdown token, and the count of the evaluations under way.
pub struct Dispatcher<V> {
    handler: Handler,
    dependencies: DependencyMap<V>,
    injected: Vec<u64>,
    token: ShutdownToken,
    in_flight: usize,
    listening: bool,
}

impl<V> View for Dispatcher<V> {
    type V = LoopState;

    closed spec fn view(&self) -> LoopState {
        LoopState {
            state: self.token.state(),
            in_flight: self.in_flight as nat,
            listening: self.listening,
        }
    }
}

impl<V> Dispatcher<V> {
    /// The handler tree.
    pub closed spec fn tree(&self) -> Handler {
        self.handler
    }

    /// The dependencies that the handlers read.
    pub closed spec fn container(&self) -> DependencyMap<V> {
        self.dependencies
    }

    /// The kinds of the dependencies that come with each update.
    pub closed spec fn brought(&self) -> Seq<u64> {
        self.injected@
    }

    /// The notifier on which the end of a drain is announced.
    pub closed spec fn notifier(&self) -> Arc<Notify> {
        self.token.notifier()
    }

    /// An idle dispatcher for the tree `handler`, where every node of the
    /// tree finds each dependency that it reads: in `dependencies`, among
    /// those that come with each update, whose kinds are `injected`, or
    /// from a transform above the node. Where a node does not, no
    /// dispatcher is built, and the first kind that is missing is returned.
    pub fn build(handler: Handler, dependencies: DependencyMap<V>, injected: Vec<u64>) -> (built:
        Result<Dispatcher<V>, MissingDependency>)
        ensures
            built is Ok <==> handler.satisfied(dependencies.kinds_spec() + injected@),
            built matches Ok(dispatcher) ==> {
                &&& dispatcher@ == (LoopState {
                    state: ShutdownState::Idle,
                    in_flight: 0,
                    listening: true,
                })
                &&& dispatcher.tree() == handler
                &&& dispatcher.container() == dependencies
                &&& dispatcher.brought() == injected@
            },
            built matches Err(missing) ==> handler.unmet_spec(dependencies.kinds_spec() + injected@)
                == Some(missing.kind),
    {
        let available = with_kinds(dependencies.kinds(), &injected);
        match handler.unmet(&available) {
            Some(kind) => Err(MissingDependency { kind }),
            None => Ok(
                Dispatcher {
                    handler,
                    dependencies,
                    injected,
                    token: ShutdownToken::new(),
                    in_flight: 0,
                    listening: true,
                },
            ),
        }
    }

    /// The handler tree.
    pub fn handler(&self) -> (handler: &Handler)
        ensures
            *handler == self.tree(),
    {
        &self.handler
    }

    /// The dependencies that the handlers read.
    pub fn dependencies(&self) -> (dependencies: &DependencyMap<V>)
        ensures
            *dependencies == self.container(),
    {
        &self.dependencies
    }

    /// The shutdown state.
    pub fn state(&self) -> (state: ShutdownState)
        ensures
            state == self@.state,
    {
        self.token.current()
    }

    /// The number of evaluations under way.
    pub fn in_flight(&self) -> (count: usize)
        ensures
            count == self@.in_flight,
    {
        self.in_flight
    }

    /// Starts dispatching. Only an idle dispatcher can start: to start one
    /// that runs is a fault of the caller.
    pub fn start(&mut self)
        requires
            old(self)@.state == ShutdownState::Idle,
        ensures
            final(self)@ == old(self)@.step(LoopEvent::Started),
            final(self)@.state == ShutdownState::Running,
            final(self).tree() == old(self).tree(),
            final(self).container() == old(self).container(),
            final(self).brought() == old(self).brought(),
            final(self).notifier() == old(self).notifier(),
    {
        self.token.start_dispatching();
        self.in_flight = 0;
        self.listening = true;
    }

    /// What the loop is to do next.
    pub fn next_action(&self) -> (action: LoopAction)
        ensures
            action == self@.next_action(),
    {
        let state = self.token.current();
        if state == ShutdownState::Idle {
            LoopAction::Rest
        } else if state == ShutdownState::Running && self.listening {
            LoopAction::Poll
        } else if self.in_flight > 0 {
            LoopAction::AwaitEvaluation
        } else {
            LoopAction::Finish
        }
    }

    /// Tells the dispatcher that the source yielded an update. The update
    /// is taken, and counts as under way from now on, where `true` is
    /// returned; it is dropped where `false` is.
    pub fn arrived(&mut self) -> (accepted: bool)
        ensures
            accepted == old(self)@.accepts(),
            final(self)@ == old(self)@.step(LoopEvent::Arrived),
            final(self).tree() == old(self).tree(),
            final(self).container() == old(self).container(),
            final(self).brought() == old(self).brought(),
            final(self).notifier() == old(self).notifier(),
    {
        let state = self.token.current();
        if state == ShutdownState::Running && self.listening && self.in_flight < usize::MAX {
            self.in_flight = self.in_flight + 1;
            true
        } else {
            false
        }
    }

    /// Tells the dispatcher that an evaluation finished, and asks what is to
    /// be told about it. `None` where no evaluation was under way: nothing
    /// changes then.
    pub fn evaluated<E>(&mut self, outcome: &Outcome<E>) -> (told: Option<Report>)
        ensures
            told is Some <==> old(self)@.in_flight > 0,
            told matches Some(r) ==> r == report_spec(*outcome),
            final(self)@ == old(self)@.step(LoopEvent::Evaluated),
            final(self).tree() == old(self).tree(),
            final(self).container() == old(self).container(),
            final(self).brought() == old(self).brought(),
            final(self).notifier() == old(self).notifier(),
    {
        if self.in_flight > 0 {
            self.in_flight = self.in_flight - 1;
            Some(report(outcome))
        } else {
            None
        }
    }

    /// Tells the dispatcher that the source yields no more updates.
    pub fn source_ended(&mut self)
        ensures
            final(self)@ == old(self)@.step(LoopEvent::SourceEnded),
            final(self).tree() == old(self).tree(),
            final(self).container() == old(self).container(),
            final(self).brought() == old(self).brought(),
            final(self).notifier() == old(self).notifier(),
    {
        self.listening = false;
    }

    /// Tries to shutdown dispatching.
    ///
    /// Returns an error if the dispatcher is idle at the moment. Otherwise
    /// the loop takes no update from now on, and the caller gets the
    /// notifier on which the end of the drain is announced.
    pub fn shutdown(&mut self) -> (wait: Result<ShutdownWait, IdleShutdownError>)
        ensures
            wait is Err <==> old(self)@.state == ShutdownState::Idle,
            wait matches Ok(handle) ==> handle.notifier() == old(self).notifier(),
            final(self)@ == old(self)@.step(LoopEvent::ShutdownRequested),
            final(self).tree() == old(self).tree(),
            final(self).container() == old(self).container(),
            final(self).brought() == old(self).brought(),
            final(self).notifier() == old(self).notifier(),
    {
        self.token.shutdown()
    }

    /// Ends the loop, if it may end: the dispatcher is idle then, and
    /// `Ok(released)` says whether those who wait for a shutdown were
    /// released. Where the loop may not end yet nothing changes, and the
    /// reason is returned.
    pub fn finish(&mut self) -> (ended: Result<bool, StillBusy>)
        ensures
            ended is Ok <==> old(self)@.may_finish(),
            ended matches Ok(released) ==> released == old(self)@.releases(LoopEvent::Finished),
            ended matches Err(why) ==> why == Self::busy(old(self)@),
            final(self)@ == old(self)@.step(LoopEvent::Finished),
            final(self).tree() == old(self).tree(),
            final(self).container() == old(self).container(),
            final(self).brought() == old(self).brought(),
            final(self).notifier() == old(self).notifier(),
    {
        let state = self.token.current();
        if state == ShutdownState::Idle {
            Err(StillBusy::NotDispatching)
        } else if state == ShutdownState::Running && self.listening {
            Err(StillBusy::Polling)
        } else if self.in_flight > 0 {
            Err(StillBusy::Draining)
        } else {
            Ok(self.token.done())
        }
    }

    /// Why a loop at `at` that asks to end goes on.
    pub open spec fn busy(at: LoopState) -> StillBusy {
        if at.state == ShutdownState::Idle {
            StillBusy::NotDispatching
        } else if at.state == ShutdownState::Running && at.listening {
            StillBusy::Polling
        } else {
            StillBusy::Draining
        }
    }

    /// Takes one update and evaluates the tree for it at once, with
    /// `actions` to carry out the steps, from `context`. `None` where the
    /// update is not taken: nothing was asked of `actions` then. Otherwise
    /// the evaluation and what is to be told about it.
    pub fn handle_update<A: Actions>(&mut self, actions: &mut A, context: &A::Context) -> (handled:
        Option<(Evaluation<A::Error, A::Context>, Report)>)
        ensures
            handled is Some <==> old(self)@.accepts(),
            handled matches Some((done, told)) ==> {
                &&& old(self).tree().evaluates_to(*old(actions), *context, done)
                &&& told == report_spec(done.outcome)
                &&& done.ran is None ==> *final(actions) == *old(actions)
            },
            handled is None ==> *final(actions) == *old(actions),
            final(self)@ == old(self)@,
            final(self).tree() == old(self).tree(),
            final(self).container() == old(self).container(),
            final(self).brought() == old(self).brought(),
            final(self).notifier() == old(self).notifier(),
    {
        if !self.arrived() {
            return None;
        }
        let done = self.handler.evaluate(actions, context);
        let told = report(&done.outcome);
        let _ = self.evaluated(&done.outcome);
        Some((done, told))
    }
}

/// What a stretch of a loop's life came to, up to the first release of
/// those who wait for a shutdown.
pub struct Drain {
    /// What the loop is at, at the end of the stretch.
    pub at: LoopState,
    /// The number of updates taken before the release.
    pub accepted: nat,
    /// The number of evaluations that finished before the release.
    pub evaluated: nat,
    /// Whether the waiters were released.
    pub released: bool,
}

impl Drain {
    /// A stretch in which nothing has happened yet.
    pub open spec fn begin(at: LoopState) -> Drain {
        Drain { at, accepted: 0, evaluated: 0, released: false }
    }

    /// The stretch, longer by `event`.
    pub open spec fn after(self, event: LoopEvent) -> Drain {
        if self.released {
            Drain { at: self.at.step(event), ..self }
        } else {
            Drain {
                at: self.at.step(event),
                accepted: if event == LoopEvent::Arrived && self.at.accepts() {
                    self.accepted + 1
                } else {
                    self.accepted
                },
                evaluated: if event == LoopEvent::Evaluated && self.at.in_flight > 0 {
                    self.evaluated + 1
                } else {
                    self.evaluated
                },
                released: self.at.releases(event),
            }
        }
    }

    /// The stretch that begins at `at` and in which `events` happen in this
    /// order.
    pub open spec fn of(at: LoopState, events: Seq<LoopEvent>) -> Drain
        decreases events.len(),
    {
        if events.len() == 0 {
            Self::begin(at)
        } else {
            Self::of(at, events.drop_last()).after(events.last())
        }
    }
}

/// A drain is complete. From the moment at which a dispatcher shuts down,
/// whatever happens and in whatever order: no update is taken, and those who
/// wait for the shutdown are not released before every evaluation that was
/// under way at that moment has finished. As long as they are not released
/// the dispatcher keeps shutting down, and the evaluations that have
/// finished and those still under way add up to those of that moment.
pub proof fn drain_is_complete(at: LoopState, events: Seq<LoopEvent>)
    requires
        at.state == ShutdownState::ShuttingDown,
    ensures
        Drain::of(at, events).accepted == 0,
        Drain::of(at, events).released ==> Drain::of(at, events).evaluated == at.in_flight,
        !Drain::of(at, events).released ==> {
            &&& Drain::of(at, events).at.state == ShutdownState::ShuttingDown
            &&& Drain::of(at, events).at.in_flight + Drain::of(at, events).evaluated == at.in_flight
        },
    decreases events.len(),
{
    if events.len() > 0 {
        drain_is_complete(at, events.drop_last());
    }
}

/// Once a shutdown is requested of a running dispatcher it takes no update,
/// and it asks the loop to wait for evaluations as long as one is under way,
/// and to end only then.
pub proof fn shutdown_stops_the_intake(at: LoopState)
    requires
        at.state == ShutdownState::Running,
    ensures
        at.step(LoopEvent::ShutdownRequested).state == ShutdownState::ShuttingDown,
        at.step(LoopEvent::ShutdownRequested).in_flight == at.in_flight,
        !at.step(LoopEvent::ShutdownRequested).accepts(),
        at.step(LoopEvent::ShutdownRequested).next_action() == if at.in_flight > 0 {
            LoopAction::AwaitEvaluation
        } else {
            LoopAction::Finish
        },
        at.step(LoopEvent::ShutdownRequested).may_finish() <==> at.in_flight == 0,
{
}

} // verus!

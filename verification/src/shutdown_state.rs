//! The three states of a dispatcher and the cell that holds one of them.

use vstd::prelude::*;

verus! {

/// What a dispatcher is doing.
#[derive(Clone, Copy, Debug, PartialEq, Eq, Structural)]
pub enum ShutdownState {
    /// The main loop is polling for updates.
    Running,
    /// A stop was requested; the loop accepts nothing new and drains.
    ShuttingDown,
    /// No loop is running.
    Idle,
}

impl ShutdownState {
    /// The byte that stands for a state in a cell.
    pub open spec fn code(self) -> u8 {
        match self {
            ShutdownState::Running => 0,
            ShutdownState::ShuttingDown => 1,
            ShutdownState::Idle => 2,
        }
    }

    /// The state that a byte stands for; bytes above 2 stand for none, and
    /// are read as `Idle` here only to make the function total.
    pub open spec fn decode(n: u8) -> ShutdownState {
        if n == 0 {
            ShutdownState::Running
        } else if n == 1 {
            ShutdownState::ShuttingDown
        } else {
            ShutdownState::Idle
        }
    }

    /// Whether a byte stands for a state.
    pub open spec fn is_code(n: u8) -> bool {
        n <= 2
    }

    /// Decodes a byte. Only the three codes are accepted.
    pub fn from_u8(n: u8) -> (state: ShutdownState)
        requires
            Self::is_code(n),
        ensures
            state == Self::decode(n),
            state.code() == n,
    {
        if n == 0 {
            ShutdownState::Running
        } else if n == 1 {
            ShutdownState::ShuttingDown
        } else {
            ShutdownState::Idle
        }
    }

    /// Decodes a byte, or reports that it is no code.
    pub fn try_from_u8(n: u8) -> (state: Option<ShutdownState>)
        ensures
            Self::is_code(n) ==> state == Some(Self::decode(n)),
            !Self::is_code(n) ==> state is None,
    {
        if n <= 2 {
            Some(Self::from_u8(n))
        } else {
            None
        }
    }

    /// Encodes a state.
    pub fn to_u8(self) -> (n: u8)
        ensures
            n == self.code(),
            Self::is_code(n),
    {
        match self {
            ShutdownState::Running => 0,
            ShutdownState::ShuttingDown => 1,
            ShutdownState::Idle => 2,
        }
    }
}

/// Encoding and decoding are inverse to each other on the three states and
/// on the three codes.
pub proof fn code_round_trip(state: ShutdownState, n: u8)
    ensures
        ShutdownState::is_code(state.code()),
        ShutdownState::decode(state.code()) == state,
        ShutdownState::is_code(n) ==> ShutdownState::decode(n).code() == n,
{
}

/// The cell that holds a dispatcher's state, as its code.
pub struct DispatcherState {
    inner: u8,
}

impl View for DispatcherState {
    type V = ShutdownState;

    closed spec fn view(&self) -> ShutdownState {
        ShutdownState::decode(self.inner)
    }
}

impl DispatcherState {
    #[verifier::type_invariant]
    spec fn holds_a_code(self) -> bool {
        ShutdownState::is_code(self.inner)
    }

    /// A cell that holds `initial`.
    pub fn new(initial: ShutdownState) -> (cell: DispatcherState)
        ensures
            cell@ == initial,
    {
        DispatcherState { inner: initial.to_u8() }
    }

    /// The state held.
    pub fn load(&self) -> (state: ShutdownState)
        ensures
            state == self@,
    {
        proof {
            use_type_invariant(self);
        }
        ShutdownState::from_u8(self.inner)
    }

    /// Replaces the state held by `new`.
    pub fn store(&mut self, new: ShutdownState)
        ensures
            final(self)@ == new,
    {
        self.inner = new.to_u8();
    }

    /// Replaces the state by `new` if it is `current`, and leaves it alone
    /// otherwise. Either way the state found is handed back: in `Ok` when it
    /// was replaced, in `Err` when it was not.
    pub fn compare_exchange(&mut self, current: ShutdownState, new: ShutdownState) -> (found: Result<
        ShutdownState,
        ShutdownState,
    >)
        ensures
            found == Self::exchange_result(old(self)@, current),
            final(self)@ == Self::exchange_next(old(self)@, current, new),
    {
        proof {
            use_type_invariant(&*self);
        }
        let held = ShutdownState::from_u8(self.inner);
        if held == current {
            self.inner = new.to_u8();
            Ok(held)
        } else {
            Err(held)
        }
    }

    /// What `compare_exchange` hands back when the cell holds `held`.
    pub open spec fn exchange_result(held: ShutdownState, current: ShutdownState) -> Result<
        ShutdownState,
        ShutdownState,
    > {
        if held == current {
            Ok(held)
        } else {
            Err(held)
        }
    }

    /// What the cell holds after `compare_exchange` when it held `held`.
    pub open spec fn exchange_next(
        held: ShutdownState,
        current: ShutdownState,
        new: ShutdownState,
    ) -> ShutdownState {
        if held == current {
            new
        } else {
            held
        }
    }
}

} // verus!

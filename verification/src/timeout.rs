//! Spans of time, to the nanosecond, as whole seconds and a rest.

use vstd::prelude::*;

verus! {

/// The number of nanoseconds in a second.
pub const NANOS_PER_SEC: u32 = 1_000_000_000;

/// A span of time of at most `u64::MAX` seconds and 999,999,999 nanoseconds.
#[derive(Clone, Copy, Debug)]
pub struct Timeout {
    secs: u64,
    nanos: u32,
}

/// The longest span, in nanoseconds.
pub open spec fn max_nanos() -> nat {
    (u64::MAX as nat) * (NANOS_PER_SEC as nat) + 999_999_999
}

/// The sum of two spans in nanoseconds, cut off at the longest span.
pub open spec fn saturating_sum(a: nat, b: nat) -> nat {
    if a + b <= max_nanos() {
        a + b
    } else {
        max_nanos()
    }
}

impl View for Timeout {
    type V = nat;

    /// The span in nanoseconds.
    closed spec fn view(&self) -> nat {
        (self.secs as nat) * (NANOS_PER_SEC as nat) + (self.nanos as nat)
    }
}

impl Timeout {
    #[verifier::type_invariant]
    spec fn rest_is_below_a_second(self) -> bool {
        self.nanos < NANOS_PER_SEC
    }

    /// The span of `secs` seconds and `nanos` nanoseconds, where `nanos` is
    /// less than a second; `None` where it is not.
    pub fn new(secs: u64, nanos: u32) -> (span: Option<Timeout>)
        ensures
            span is Some <==> nanos < NANOS_PER_SEC,
            span matches Some(t) ==> t@ == secs as nat * NANOS_PER_SEC as nat + nanos as nat,
    {
        if nanos < NANOS_PER_SEC {
            Some(Timeout { secs, nanos })
        } else {
            None
        }
    }

    /// The span of `secs` seconds.
    pub fn from_secs(secs: u64) -> (span: Timeout)
        ensures
            span@ == secs as nat * NANOS_PER_SEC as nat,
    {
        Timeout { secs, nanos: 0 }
    }

    /// The empty span.
    pub fn zero() -> (span: Timeout)
        ensures
            span@ == 0,
    {
        Timeout { secs: 0, nanos: 0 }
    }

    /// The whole seconds of the span.
    pub fn as_secs(&self) -> (secs: u64)
        ensures
            secs as nat == self@ / (NANOS_PER_SEC as nat),
    {
        proof {
            use_type_invariant(self);
            assert((self.secs as nat * 1_000_000_000 + self.nanos as nat) / 1_000_000_000
                == self.secs as nat) by (nonlinear_arith)
                requires
                    self.nanos < 1_000_000_000,
            ;
        }
        self.secs
    }

    /// What the span holds beyond its whole seconds, in nanoseconds.
    pub fn subsec_nanos(&self) -> (nanos: u32)
        ensures
            nanos as nat == self@ % (NANOS_PER_SEC as nat),
            nanos < NANOS_PER_SEC,
    {
        proof {
            use_type_invariant(self);
            assert((self.secs as nat * 1_000_000_000 + self.nanos as nat) % 1_000_000_000
                == self.nanos as nat) by (nonlinear_arith)
                requires
                    self.nanos < 1_000_000_000,
            ;
        }
        self.nanos
    }

    /// The sum of two spans, or the longest span where the sum is longer.
    pub fn saturating_add(self, rhs: Timeout) -> (sum: Timeout)
        ensures
            sum@ == saturating_sum(self@, rhs@),
    {
        proof {
            use_type_invariant(&self);
            use_type_invariant(&rhs);
        }
        let mut nanos: u32 = self.nanos + rhs.nanos;
        let mut carry: u64 = 0;
        if nanos >= NANOS_PER_SEC {
            nanos = nanos - NANOS_PER_SEC;
            carry = 1;
        }
        let longest = Timeout { secs: u64::MAX, nanos: NANOS_PER_SEC - 1 };
        match self.secs.checked_add(rhs.secs) {
            None => longest,
            Some(secs) => match secs.checked_add(carry) {
                None => longest,
                Some(secs) => Timeout { secs, nanos },
            },
        }
    }
}

/// Adding the empty span changes nothing, the order of the two spans does
/// not matter, and no sum is shorter than either span or longer than the
/// longest span.
pub proof fn saturating_sum_laws(a: nat, b: nat)
    requires
        a <= max_nanos(),
        b <= max_nanos(),
    ensures
        saturating_sum(a, 0) == a,
        saturating_sum(a, b) == saturating_sum(b, a),
        a <= saturating_sum(a, b) <= max_nanos(),
        b <= saturating_sum(a, b),
{
}

} // verus!

//! The dependencies that the nodes of a tree read, and the check that each
//! node finds them.
//!
//! The check is made once, before any update is evaluated: at a node the
//! kinds at hand are those at hand at the root and, below a transform, the
//! kind that the transform gives.

use crate::handler::Handler;
use vstd::prelude::*;

verus! {

/// The first of the kinds `needs[from..]` that is not among `available`.
pub open spec fn first_missing(needs: Seq<u64>, from: int, available: Seq<u64>) -> Option<u64>
    decreases needs.len() - from,
{
    if 0 <= from < needs.len() {
        if available.contains(needs[from]) {
            first_missing(needs, from + 1, available)
        } else {
            Some(needs[from])
        }
    } else {
        None
    }
}

/// Whether a dependency of the kind `kind` is among `available`.
pub fn is_available(available: &Vec<u64>, kind: u64) -> (found: bool)
    ensures
        found == available@.contains(kind),
{
    let mut i: usize = 0;
    while i < available.len()
        invariant
            i <= available.len(),
            forall|j: int| 0 <= j < i ==> available@[j] != kind,
        decreases available.len() - i,
    {
        if available[i] == kind {
            return true;
        }
        i += 1;
    }
    false
}

/// The first of the kinds `needs` that is not among `available`.
pub fn missing_among(needs: &Vec<u64>, available: &Vec<u64>) -> (missing: Option<u64>)
    ensures
        missing == first_missing(needs@, 0, available@),
{
    let mut i: usize = 0;
    while i < needs.len()
        invariant
            i <= needs.len(),
            first_missing(needs@, 0, available@) == first_missing(needs@, i as int, available@),
        decreases needs.len() - i,
    {
        if !is_available(available, needs[i]) {
            return Some(needs[i]);
        }
        i += 1;
    }
    None
}

/// The kinds `available`, and `kind` behind them.
pub fn with_kind(available: &Vec<u64>, kind: u64) -> (extended: Vec<u64>)
    ensures
        extended@ == available@.push(kind),
{
    let mut one: Vec<u64> = Vec::new();
    one.push(kind);
    let extended = with_kinds(available, &one);
    assert(extended@ =~= available@.push(kind));
    extended
}

/// The kinds `available`, and the kinds `more` behind them.
pub fn with_kinds(available: &Vec<u64>, more: &Vec<u64>) -> (extended: Vec<u64>)
    ensures
        extended@ == available@ + more@,
{
    let mut extended: Vec<u64> = Vec::new();
    let mut i: usize = 0;
    while i < available.len()
        invariant
            i <= available.len(),
            extended@ == available@.take(i as int),
        decreases available.len() - i,
    {
        extended.push(available[i]);
        assert(available@.take(i as int).push(available@[i as int]) =~= available@.take(i + 1));
        i += 1;
    }
    assert(available@.take(available.len() as int) =~= available@);
    let mut j: usize = 0;
    while j < more.len()
        invariant
            j <= more.len(),
            extended@ == available@ + more@.take(j as int),
        decreases more.len() - j,
    {
        extended.push(more[j]);
        assert((available@ + more@.take(j as int)).push(more@[j as int]) =~= available@
            + more@.take(j + 1));
        j += 1;
    }
    assert(more@.take(more.len() as int) =~= more@);
    extended
}

impl Handler {
    /// Whether every node of the tree finds the dependencies that it reads
    /// where the kinds `available` are at hand at the root: at each node,
    /// those kinds and what the transforms above the node give.
    pub open spec fn satisfied(self, available: Seq<u64>) -> bool
        decreases self, 0nat,
    {
        match self {
            Handler::Entry => true,
            Handler::Endpoint { needs, .. } => first_missing(needs@, 0, available) is None,
            Handler::Filter { needs, next, .. } => first_missing(needs@, 0, available) is None
                && next.satisfied(available),
            Handler::FilterMap { needs, gives, next, .. } => first_missing(needs@, 0, available)
                is None && next.satisfied(available.push(gives)),
            Handler::Branch { children } => Self::satisfied_all(children@, 0, available),
        }
    }

    /// The same for each of `children[from..]`.
    pub open spec fn satisfied_all(children: Seq<Handler>, from: int, available: Seq<u64>) -> bool
        decreases children, children.len() - from,
    {
        if 0 <= from < children.len() {
            children[from].satisfied(available) && Self::satisfied_all(children, from + 1, available)
        } else {
            true
        }
    }

    /// The first kind, in the order of the tree, that a node reads and does
    /// not find; `None` where every node finds what it reads.
    pub open spec fn unmet_spec(self, available: Seq<u64>) -> Option<u64>
        decreases self, 0nat,
    {
        match self {
            Handler::Entry => None,
            Handler::Endpoint { needs, .. } => first_missing(needs@, 0, available),
            Handler::Filter { needs, next, .. } => match first_missing(needs@, 0, available) {
                Some(kind) => Some(kind),
                None => next.unmet_spec(available),
            },
            Handler::FilterMap { needs, gives, next, .. } => match first_missing(
                needs@,
                0,
                available,
            ) {
                Some(kind) => Some(kind),
                None => next.unmet_spec(available.push(gives)),
            },
            Handler::Branch { children } => Self::unmet_first(children@, 0, available),
        }
    }

    /// The same for `children[from..]`.
    pub open spec fn unmet_first(children: Seq<Handler>, from: int, available: Seq<u64>) -> Option<
        u64,
    >
        decreases children, children.len() - from,
    {
        if 0 <= from < children.len() {
            match children[from].unmet_spec(available) {
                Some(kind) => Some(kind),
                None => Self::unmet_first(children, from + 1, available),
            }
        } else {
            None
        }
    }

    /// Checks, before any update is evaluated, that every node of the tree
    /// finds the dependencies that it reads where the kinds `available` are
    /// at hand. Returns the first kind that a node reads and does not find.
    pub fn unmet(&self, available: &Vec<u64>) -> (missing: Option<u64>)
        ensures
            missing == self.unmet_spec(available@),
            missing is None <==> self.satisfied(available@),
        decreases self,
    {
        proof {
            self.unmet_is_none_where_satisfied(available@);
        }
        match self {
            Handler::Entry => None,
            Handler::Endpoint { needs, .. } => missing_among(needs, available),
            Handler::Filter { needs, next, .. } => match missing_among(needs, available) {
                Some(kind) => Some(kind),
                None => next.unmet(available),
            },
            Handler::FilterMap { needs, gives, next, .. } => match missing_among(needs, available) {
                Some(kind) => Some(kind),
                None => {
                    let extended = with_kind(available, *gives);
                    next.unmet(&extended)
                },
            },
            Handler::Branch { children } => {
                let mut i: usize = 0;
                while i < children.len()
                    invariant
                        i <= children.len(),
                        *self == (Handler::Branch { children: *children }),
                        self.unmet_spec(available@) is None <==> self.satisfied(available@),
                        Self::unmet_first(children@, 0, available@) == Self::unmet_first(
                            children@,
                            i as int,
                            available@,
                        ),
                    decreases children.len() - i,
                {
                    assert(decreases_to!(*self => children[i as int])) by {
                        assert(self->children == *children);
                        assert(decreases_to!(*self => self->children));
                        assert(decreases_to!(*children => children[i as int]));
                    }
                    match children[i].unmet(available) {
                        Some(kind) => {
                            return Some(kind);
                        },
                        None => {
                            i += 1;
                        },
                    }
                }
                None
            },
        }
    }

    /// No kind is unmet exactly where every node is satisfied.
    pub proof fn unmet_is_none_where_satisfied(self, available: Seq<u64>)
        ensures
            self.unmet_spec(available) is None <==> self.satisfied(available),
        decreases self, 0nat,
    {
        match self {
            Handler::Entry => {},
            Handler::Endpoint { .. } => {},
            Handler::Filter { next, .. } => {
                next.unmet_is_none_where_satisfied(available);
            },
            Handler::FilterMap { gives, next, .. } => {
                next.unmet_is_none_where_satisfied(available.push(gives));
            },
            Handler::Branch { children } => {
                Self::unmet_first_is_none_where_all_satisfied(children@, 0, available);
            },
        }
    }

    /// The same for `children[from..]`.
    pub proof fn unmet_first_is_none_where_all_satisfied(
        children: Seq<Handler>,
        from: int,
        available: Seq<u64>,
    )
        requires
            0 <= from,
        ensures
            Self::unmet_first(children, from, available) is None <==> Self::satisfied_all(
                children,
                from,
                available,
            ),
        decreases children, children.len() - from,
    {
        if from < children.len() {
            children[from].unmet_is_none_where_satisfied(available);
            Self::unmet_first_is_none_where_all_satisfied(children, from + 1, available);
        }
    }
}

} // verus!

//! The dependency container: the shared values that handlers read, one of
//! each kind at most.

use std::collections::HashMap;
use vstd::prelude::*;

verus! {

broadcast use vstd::std_specs::hash::group_hash_axioms;

/// A container of dependencies, each under the key of its kind.
///
/// A container is built before dispatching starts and is not changed after
/// that; to add a dependency for one update, make a new container from it.
pub struct DependencyMap<V> {
    values: HashMap<u64, V>,
    kinds: Vec<u64>,
}

impl<V> View for DependencyMap<V> {
    type V = Map<u64, V>;

    closed spec fn view(&self) -> Map<u64, V> {
        self.values@
    }
}

impl<V> DependencyMap<V> {
    #[verifier::type_invariant]
    spec fn kinds_are_the_keys(self) -> bool {
        forall|kind: u64| self.kinds@.contains(kind) <==> self.values@.contains_key(kind)
    }

    /// The kinds that the container holds, in the order in which they came.
    pub closed spec fn kinds_spec(&self) -> Seq<u64> {
        self.kinds@
    }

    /// A container that holds nothing.
    pub fn new() -> (deps: DependencyMap<V>)
        ensures
            deps@ == Map::<u64, V>::empty(),
            deps.kinds_spec() == Seq::<u64>::empty(),
    {
        DependencyMap { values: HashMap::new(), kinds: Vec::new() }
    }

    /// The container with `value` as its dependency of the kind `kind`, in
    /// place of any other of that kind.
    pub fn with(self, kind: u64, value: V) -> (deps: DependencyMap<V>)
        ensures
            deps@ == self@.insert(kind, value),
            deps.kinds_spec() == if self@.contains_key(kind) {
                self.kinds_spec()
            } else {
                self.kinds_spec().push(kind)
            },
    {
        proof {
            use_type_invariant(&self);
        }
        let DependencyMap { values, kinds } = self;
        let mut values = values;
        let mut kinds = kinds;
        let known = values.contains_key(&kind);
        values.insert(kind, value);
        if !known {
            let ghost before = kinds@;
            kinds.push(kind);
            assert forall|k: u64| kinds@.contains(k) <==> values@.contains_key(k) by {
                if k == kind {
                    assert(kinds@[before.len() as int] == kind);
                } else if before.contains(k) {
                    let i = choose|i: int| 0 <= i < before.len() && before[i] == k;
                    assert(kinds@[i] == k);
                } else if kinds@.contains(k) {
                    let i = choose|i: int| 0 <= i < kinds@.len() && kinds@[i] == k;
                    assert(before[i] == k);
                }
            }
        }
        DependencyMap { values, kinds }
    }

    /// The dependency of the kind `kind`, if the container holds one.
    pub fn get(&self, kind: u64) -> (value: Option<&V>)
        ensures
            value == (if self@.contains_key(kind) {
                Some(&self@[kind])
            } else {
                None
            }),
    {
        self.values.get(&kind)
    }

    /// Whether the container holds a dependency of the kind `kind`.
    pub fn contains(&self, kind: u64) -> (held: bool)
        ensures
            held == self@.contains_key(kind),
    {
        self.values.contains_key(&kind)
    }

    /// The kinds that the container holds: each kind that has a dependency
    /// in it, and no other.
    pub fn kinds(&self) -> (kinds: &Vec<u64>)
        ensures
            kinds@ == self.kinds_spec(),
            forall|kind: u64| kinds@.contains(kind) <==> self@.contains_key(kind),
    {
        proof {
            use_type_invariant(self);
        }
        &self.kinds
    }
}

} // verus!

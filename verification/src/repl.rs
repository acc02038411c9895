//! The tree of a REPL for messages: one handler that gets every new
//! message, and nothing else.

use crate::evaluation::Rules;
use crate::handler::Handler;
use crate::handler::Step;
use crate::requirements::first_missing;
use vstd::prelude::*;

verus! {

/// The keys by which a REPL's tree names its parts.
#[derive(Clone, Copy, Debug, PartialEq, Eq, Structural)]
pub struct ReplKeys {
    /// The transform that takes the new message out of an update.
    pub message_filter: u64,
    /// The kind of the dependency that holds the update.
    pub update_kind: u64,
    /// The kind of the dependency that holds the message.
    pub message_kind: u64,
    /// The handler.
    pub handler: u64,
}

/// The tree of a REPL, as a value of the model.
pub open spec fn repl_tree(keys: ReplKeys, needs: Seq<u64>, tree: Handler) -> bool {
    &&& tree matches Handler::FilterMap { map, needs: reads, gives, next }
    &&& map == keys.message_filter
    &&& reads@ == seq![keys.update_kind]
    &&& gives == keys.message_kind
    &&& *next matches Handler::Branch { children }
    &&& children@.len() == 1
    &&& children@[0] matches Handler::Endpoint { endpoint, needs: wants }
    &&& endpoint == keys.handler
    &&& wants@ == needs
}

/// The tree of a REPL for messages: the transform that takes the new
/// message out of an update, and under it one branch, which ends in the
/// handler. The handler reads the dependencies of the kinds `needs`.
pub fn repl_handler(keys: ReplKeys, needs: Vec<u64>) -> (tree: Handler)
    ensures
        repl_tree(keys, needs@, tree),
{
    let mut reads: Vec<u64> = Vec::new();
    reads.push(keys.update_kind);
    let mut children: Vec<Handler> = Vec::new();
    children.push(Handler::Endpoint { endpoint: keys.handler, needs });
    Handler::FilterMap {
        map: keys.message_filter,
        needs: reads,
        gives: keys.message_kind,
        next: Box::new(Handler::Branch { children }),
    }
}

/// A REPL's handler gets the updates that carry a new message, and no
/// others: under any rules and from any context, the tree reaches the
/// handler where the transform yields a context, and hands that context to
/// it; where the transform yields none, the tree reaches nothing.
pub proof fn repl_handles_messages_only<C>(
    keys: ReplKeys,
    needs: Seq<u64>,
    tree: Handler,
    rules: Rules<C>,
    context: C,
)
    requires
        repl_tree(keys, needs, tree),
    ensures
        tree.reaches(rules, context) == match (rules.yields)(keys.message_filter, context) {
            Some(inner) => Some((keys.handler, inner)),
            None => None,
        },
        tree.route_spec(Seq::empty()) == Step::Transform(keys.message_filter),
        tree.route_spec(seq![true]) == Step::Run(keys.handler),
        tree.route_spec(seq![false]) == Step::Decline,
{
    let children = tree->FilterMap_next->children@;
    match (rules.yields)(keys.message_filter, context) {
        Some(inner) => {
            assert(children[0].reaches(rules, inner) == Some((keys.handler, inner)));
            assert(Handler::reaches_first(children, 0, rules, inner) == Some((keys.handler, inner)));
            assert(tree->FilterMap_next.reaches(rules, inner) == Some((keys.handler, inner)));
            assert(tree.reaches(rules, context) == tree->FilterMap_next.reaches(rules, inner));
        },
        None => {},
    }
    let yes = seq![true];
    assert(yes[0]);
    assert(children[0].route_from(yes, 1) == (Step::Run(keys.handler), 1int));
    assert(Handler::route_first(children, 0, yes, 1) == (Step::Run(keys.handler), 1int));
    assert(tree->FilterMap_next.route_from(yes, 1) == (Step::Run(keys.handler), 1int));
    let no = seq![false];
    assert(!no[0]);
}

/// A REPL's tree finds what it reads exactly where the update is at hand
/// and the handler finds what it reads once the message is at hand too.
pub proof fn repl_is_satisfied(keys: ReplKeys, needs: Seq<u64>, tree: Handler, available: Seq<u64>)
    requires
        repl_tree(keys, needs, tree),
    ensures
        tree.satisfied(available) <==> available.contains(keys.update_kind) && first_missing(
            needs,
            0,
            available.push(keys.message_kind),
        ) is None,
{
    let children = tree->FilterMap_next->children@;
    let below = available.push(keys.message_kind);
    assert(Handler::satisfied_all(children, 1, below));
    assert(children[0].satisfied(below) == (first_missing(needs, 0, below) is None));
    assert(Handler::satisfied_all(children, 0, below) == children[0].satisfied(below));
    assert(tree->FilterMap_next.satisfied(below) == children[0].satisfied(below));
    let reads = tree->FilterMap_needs@;
    assert(reads[0] == keys.update_kind);
    assert(first_missing(reads, 1, available) is None);
    assert(first_missing(reads, 0, available) is None <==> available.contains(keys.update_kind));
}

} // verus!

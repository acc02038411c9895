//! The evaluation of a handler tree for one update.
//!
//! The tree is walked from the root. Each predicate and each transform is
//! asked in the context that has come down to its node: the context of the
//! evaluation at the root, and below a transform the context that the
//! transform yielded. The children of a branch all start from the context
//! of the branch, so that what one child has learnt does not reach the next.

use crate::handler::Handler;
use crate::handler::Step;
use vstd::prelude::*;

verus! {

/// How the evaluation of a tree for one update ended.
pub enum Outcome<E> {
    /// An action ran and succeeded.
    Handled,
    /// Every way through the tree was rejected; no action ran.
    NotHandled,
    /// An action ran and failed with this error.
    Failed(E),
}

/// What carries out the steps that a tree asks for: the predicates, the
/// transforms and the actions behind the keys.
pub trait Actions {
    /// What predicates, transforms and actions read: the update, and the
    /// dependencies at hand where they are asked.
    type Context;

    /// What a failed action reports.
    type Error;

    /// Whether the predicate `filter` accepts what it finds in `context`.
    fn test(&self, filter: u64, context: &Self::Context) -> bool;

    /// What the transform `map` makes of `context`: the context for the
    /// nodes below it, with what it has learnt, or `None` where it learns
    /// nothing.
    fn transform(&self, map: u64, context: &Self::Context) -> Option<Self::Context>;

    /// Runs the action `endpoint` in `context`.
    fn run(&mut self, endpoint: u64, context: &Self::Context) -> Result<(), Self::Error>;
}

/// One answer that an evaluation got.
pub enum Answer<C> {
    /// What a predicate said.
    Verdict(bool),
    /// What a transform yielded.
    Yielded(Option<C>),
}

impl<C> Answer<C> {
    /// Whether the answer lets the update through.
    pub open spec fn passed(self) -> bool {
        match self {
            Answer::Verdict(accepted) => accepted,
            Answer::Yielded(context) => context is Some,
        }
    }
}

/// Which of the answers let the update through, in their order.
pub open spec fn passes<C>(trace: Seq<Answer<C>>) -> Seq<bool> {
    Seq::new(trace.len(), |i: int| trace[i].passed())
}

/// Whether the predicate `filter` of `actions` may say `verdict` in
/// `context`.
pub open spec fn may_accept<A: Actions>(
    actions: A,
    filter: u64,
    context: A::Context,
    verdict: bool,
) -> bool {
    call_ensures(A::test, (&actions, filter, &context), verdict)
}

/// Whether the transform `map` of `actions` may yield `yielded` in
/// `context`.
pub open spec fn may_yield<A: Actions>(
    actions: A,
    map: u64,
    context: A::Context,
    yielded: Option<A::Context>,
) -> bool {
    call_ensures(A::transform, (&actions, map, &context), yielded)
}

/// What a walk through a tree along a trace of answers comes to.
pub struct Walk<C> {
    /// Whether each answer read is of the kind that its node asks for, and
    /// one that the actions may give there.
    pub fits: bool,
    /// The position behind the last answer read.
    pub end: int,
    /// The action reached, with the context that has come down to it.
    pub reached: Option<(u64, C)>,
}

impl<C> Walk<C> {
    /// A walk on which an answer does not fit.
    pub open spec fn astray(end: int) -> Walk<C> {
        Walk { fits: false, end, reached: None }
    }

    /// A walk that was rejected after the answer before `end`.
    pub open spec fn rejected(end: int) -> Walk<C> {
        Walk { fits: true, end, reached: None }
    }

    /// The key of the action reached.
    pub open spec fn action(self) -> Option<u64> {
        match self.reached {
            Some((endpoint, _)) => Some(endpoint),
            None => None,
        }
    }
}

impl Handler {
    /// The walk through the tree from `context` along the answers
    /// `trace[pos..]`, for the actions `actions`.
    pub open spec fn walk<A: Actions>(
        self,
        actions: A,
        context: A::Context,
        trace: Seq<Answer<A::Context>>,
        pos: int,
    ) -> Walk<A::Context>
        decreases self, 0nat,
    {
        match self {
            Handler::Entry => Walk::rejected(pos),
            Handler::Endpoint { endpoint, .. } => Walk {
                fits: true,
                end: pos,
                reached: Some((endpoint, context)),
            },
            Handler::Filter { filter, next, .. } => if 0 <= pos < trace.len() {
                match trace[pos] {
                    Answer::Verdict(accepted) => if !may_accept(actions, filter, context, accepted) {
                        Walk::astray(pos)
                    } else if accepted {
                        next.walk(actions, context, trace, pos + 1)
                    } else {
                        Walk::rejected(pos + 1)
                    },
                    Answer::Yielded(_) => Walk::astray(pos),
                }
            } else {
                Walk::astray(pos)
            },
            Handler::FilterMap { map, next, .. } => if 0 <= pos < trace.len() {
                match trace[pos] {
                    Answer::Yielded(yielded) => if !may_yield(actions, map, context, yielded) {
                        Walk::astray(pos)
                    } else {
                        match yielded {
                            Some(inner) => next.walk(actions, inner, trace, pos + 1),
                            None => Walk::rejected(pos + 1),
                        }
                    },
                    Answer::Verdict(_) => Walk::astray(pos),
                }
            } else {
                Walk::astray(pos)
            },
            Handler::Branch { children } => Self::walk_first(
                children@,
                0,
                actions,
                context,
                trace,
                pos,
            ),
        }
    }

    /// The same for the children `children[from..]` of a branch: the walk
    /// through the first of them that is not rejected, each child reading
    /// on where the one before it stopped, and each starting from `context`.
    pub open spec fn walk_first<A: Actions>(
        children: Seq<Handler>,
        from: int,
        actions: A,
        context: A::Context,
        trace: Seq<Answer<A::Context>>,
        pos: int,
    ) -> Walk<A::Context>
        decreases children, children.len() - from,
    {
        if 0 <= from < children.len() {
            let walk = children[from].walk(actions, context, trace, pos);
            if walk.fits && walk.reached is None {
                Self::walk_first(children, from + 1, actions, context, trace, walk.end)
            } else {
                walk
            }
        } else {
            Walk::rejected(pos)
        }
    }
}

/// Whether the trace `longer` begins with the trace `shorter`.
pub open spec fn begins_with<C>(longer: Seq<Answer<C>>, shorter: Seq<Answer<C>>) -> bool {
    &&& shorter.len() <= longer.len()
    &&& forall|i: int| 0 <= i < shorter.len() ==> longer[i] == shorter[i]
}

impl Handler {
    /// A walk on which every answer fits reads no answer beyond its end:
    /// it is the same along every trace that begins with the given one.
    pub proof fn walk_reads_only_its_part<A: Actions>(
        self,
        actions: A,
        context: A::Context,
        shorter: Seq<Answer<A::Context>>,
        longer: Seq<Answer<A::Context>>,
        pos: int,
    )
        requires
            begins_with(longer, shorter),
            self.walk(actions, context, shorter, pos).fits,
        ensures
            self.walk(actions, context, longer, pos) == self.walk(actions, context, shorter, pos),
            pos <= self.walk(actions, context, shorter, pos).end,
            pos <= shorter.len() ==> self.walk(actions, context, shorter, pos).end <= shorter.len(),
        decreases self, 0nat,
    {
        match self {
            Handler::Entry => {},
            Handler::Endpoint { .. } => {},
            Handler::Filter { next, .. } => {
                match shorter[pos] {
                    Answer::Verdict(accepted) => {
                        if accepted {
                            next.walk_reads_only_its_part(
                                actions,
                                context,
                                shorter,
                                longer,
                                pos + 1,
                            );
                        }
                    },
                    Answer::Yielded(_) => {},
                }
            },
            Handler::FilterMap { next, .. } => {
                match shorter[pos] {
                    Answer::Yielded(Some(inner)) => {
                        next.walk_reads_only_its_part(actions, inner, shorter, longer, pos + 1);
                    },
                    _ => {},
                }
            },
            Handler::Branch { children } => {
                Self::first_walk_reads_only_its_part(
                    children@,
                    0,
                    actions,
                    context,
                    shorter,
                    longer,
                    pos,
                );
            },
        }
    }

    /// The same for the children `children[from..]` of a branch.
    pub proof fn first_walk_reads_only_its_part<A: Actions>(
        children: Seq<Handler>,
        from: int,
        actions: A,
        context: A::Context,
        shorter: Seq<Answer<A::Context>>,
        longer: Seq<Answer<A::Context>>,
        pos: int,
    )
        requires
            0 <= from,
            begins_with(longer, shorter),
            Self::walk_first(children, from, actions, context, shorter, pos).fits,
        ensures
            Self::walk_first(children, from, actions, context, longer, pos) == Self::walk_first(
                children,
                from,
                actions,
                context,
                shorter,
                pos,
            ),
            pos <= Self::walk_first(children, from, actions, context, shorter, pos).end,
            pos <= shorter.len() ==> Self::walk_first(
                children,
                from,
                actions,
                context,
                shorter,
                pos,
            ).end <= shorter.len(),
        decreases children, children.len() - from,
    {
        if from < children.len() {
            let walk = children[from].walk(actions, context, shorter, pos);
            children[from].walk_reads_only_its_part(actions, context, shorter, longer, pos);
            if walk.reached is None {
                Self::first_walk_reads_only_its_part(
                    children,
                    from + 1,
                    actions,
                    context,
                    shorter,
                    longer,
                    walk.end,
                );
            }
        }
    }
}

impl Handler {
    /// A walk on which every answer fits goes the way of the route: where
    /// the walk reads an answer the route reads whether it lets the update
    /// through, and the route ends in the step for the action that the walk
    /// reaches.
    pub proof fn walk_is_a_route<A: Actions>(
        self,
        actions: A,
        context: A::Context,
        trace: Seq<Answer<A::Context>>,
        pos: int,
    )
        requires
            0 <= pos,
            self.walk(actions, context, trace, pos).fits,
        ensures
            self.route_from(passes(trace), pos) == (
                Step::last(self.walk(actions, context, trace, pos).action()),
                self.walk(actions, context, trace, pos).end,
            ),
        decreases self, 0nat,
    {
        match self {
            Handler::Entry => {},
            Handler::Endpoint { .. } => {},
            Handler::Filter { next, .. } => {
                match trace[pos] {
                    Answer::Verdict(accepted) => {
                        if accepted {
                            next.walk_is_a_route(actions, context, trace, pos + 1);
                        }
                    },
                    Answer::Yielded(_) => {},
                }
            },
            Handler::FilterMap { next, .. } => {
                match trace[pos] {
                    Answer::Yielded(Some(inner)) => {
                        next.walk_is_a_route(actions, inner, trace, pos + 1);
                    },
                    _ => {},
                }
            },
            Handler::Branch { children } => {
                Self::first_walk_is_a_route(children@, 0, actions, context, trace, pos);
            },
        }
    }

    /// The same for the children `children[from..]` of a branch.
    pub proof fn first_walk_is_a_route<A: Actions>(
        children: Seq<Handler>,
        from: int,
        actions: A,
        context: A::Context,
        trace: Seq<Answer<A::Context>>,
        pos: int,
    )
        requires
            0 <= from,
            0 <= pos,
            Self::walk_first(children, from, actions, context, trace, pos).fits,
        ensures
            Self::route_first(children, from, passes(trace), pos) == (
                Step::last(Self::walk_first(children, from, actions, context, trace, pos).action()),
                Self::walk_first(children, from, actions, context, trace, pos).end,
            ),
        decreases children, children.len() - from,
    {
        if from < children.len() {
            let walk = children[from].walk(actions, context, trace, pos);
            children[from].walk_is_a_route(actions, context, trace, pos);
            if walk.reached is None {
                children[from].walk_reads_only_its_part(actions, context, trace, trace, pos);
                Self::first_walk_is_a_route(children, from + 1, actions, context, trace, walk.end);
            }
        }
    }

    /// What an evaluation comes to is a whole run of the tree: the answers
    /// that let the update through or did not are those that the route asks
    /// for, one after the other, and the route along them ends in the step
    /// for the action that ran.
    pub proof fn evaluation_is_a_whole_run<A: Actions>(
        self,
        actions: A,
        context: A::Context,
        done: Evaluation<A::Error, A::Context>,
    )
        requires
            self.evaluates_to(actions, context, done),
        ensures
            self.is_whole_run(done.verdicts@),
            self.route_spec(done.verdicts@) == Step::last(done.ran),
    {
        self.walk_is_a_route(actions, context, done.trace@, 0);
        self.route_to_the_end_is_a_whole_run(done.verdicts@);
    }
}

/// What predicates and transforms answer, where each answer is settled by
/// the key and the context.
#[verifier::reject_recursive_types(C)]
pub struct Rules<C> {
    pub accepts: spec_fn(u64, C) -> bool,
    pub yields: spec_fn(u64, C) -> Option<C>,
}

/// Whether the predicates and transforms of `actions` answer as `rules`
/// says, and in no other way.
pub open spec fn obeys<A: Actions>(actions: A, rules: Rules<A::Context>) -> bool {
    &&& forall|filter: u64, context: A::Context, verdict: bool| #[trigger]
        may_accept(actions, filter, context, verdict) ==> verdict == (rules.accepts)(
            filter,
            context,
        )
    &&& forall|map: u64, context: A::Context, yielded: Option<A::Context>| #[trigger]
        may_yield(actions, map, context, yielded) ==> yielded == (rules.yields)(map, context)
}

impl Handler {
    /// The action that the tree selects from `context` under `rules`, and
    /// the context that has come down to it: the first action, in the order
    /// of the tree, above which nothing rejects.
    pub open spec fn reaches<C>(self, rules: Rules<C>, context: C) -> Option<(u64, C)>
        decreases self, 0nat,
    {
        match self {
            Handler::Entry => None,
            Handler::Endpoint { endpoint, .. } => Some((endpoint, context)),
            Handler::Filter { filter, next, .. } => if (rules.accepts)(filter, context) {
                next.reaches(rules, context)
            } else {
                None
            },
            Handler::FilterMap { map, next, .. } => match (rules.yields)(map, context) {
                Some(inner) => next.reaches(rules, inner),
                None => None,
            },
            Handler::Branch { children } => Self::reaches_first(children@, 0, rules, context),
        }
    }

    /// What the first of `children[from..]` reaches that reaches an action.
    pub open spec fn reaches_first<C>(
        children: Seq<Handler>,
        from: int,
        rules: Rules<C>,
        context: C,
    ) -> Option<(u64, C)>
        decreases children, children.len() - from,
    {
        if 0 <= from < children.len() {
            match children[from].reaches(rules, context) {
                Some(reached) => Some(reached),
                None => Self::reaches_first(children, from + 1, rules, context),
            }
        } else {
            None
        }
    }

    /// Evaluation is deterministic. Where the answers of `actions` are
    /// settled by `rules`, a walk on which every answer fits reaches the
    /// action that the tree selects under `rules`, in the context in which
    /// the tree selects it.
    pub proof fn walk_reaches_what_the_rules_select<A: Actions>(
        self,
        actions: A,
        rules: Rules<A::Context>,
        context: A::Context,
        trace: Seq<Answer<A::Context>>,
        pos: int,
    )
        requires
            obeys(actions, rules),
            self.walk(actions, context, trace, pos).fits,
        ensures
            self.walk(actions, context, trace, pos).reached == self.reaches(rules, context),
        decreases self, 0nat,
    {
        match self {
            Handler::Entry => {},
            Handler::Endpoint { .. } => {},
            Handler::Filter { next, .. } => {
                match trace[pos] {
                    Answer::Verdict(accepted) => {
                        if accepted {
                            next.walk_reaches_what_the_rules_select(
                                actions,
                                rules,
                                context,
                                trace,
                                pos + 1,
                            );
                        }
                    },
                    Answer::Yielded(_) => {},
                }
            },
            Handler::FilterMap { next, .. } => {
                match trace[pos] {
                    Answer::Yielded(Some(inner)) => {
                        next.walk_reaches_what_the_rules_select(
                            actions,
                            rules,
                            inner,
                            trace,
                            pos + 1,
                        );
                    },
                    _ => {},
                }
            },
            Handler::Branch { children } => {
                Self::first_walk_reaches_what_the_rules_select(
                    children@,
                    0,
                    actions,
                    rules,
                    context,
                    trace,
                    pos,
                );
            },
        }
    }

    /// The same for the children `children[from..]` of a branch.
    pub proof fn first_walk_reaches_what_the_rules_select<A: Actions>(
        children: Seq<Handler>,
        from: int,
        actions: A,
        rules: Rules<A::Context>,
        context: A::Context,
        trace: Seq<Answer<A::Context>>,
        pos: int,
    )
        requires
            0 <= from,
            obeys(actions, rules),
            Self::walk_first(children, from, actions, context, trace, pos).fits,
        ensures
            Self::walk_first(children, from, actions, context, trace, pos).reached
                == Self::reaches_first(children, from, rules, context),
        decreases children, children.len() - from,
    {
        if from < children.len() {
            let walk = children[from].walk(actions, context, trace, pos);
            children[from].walk_reaches_what_the_rules_select(actions, rules, context, trace, pos);
            if walk.reached is None {
                Self::first_walk_reaches_what_the_rules_select(
                    children,
                    from + 1,
                    actions,
                    rules,
                    context,
                    trace,
                    walk.end,
                );
            }
        }
    }

    /// Where the answers of `actions` are settled by `rules`, two walks
    /// from one context on which every answer fits read the same answers.
    pub proof fn walks_read_the_same_answers<A: Actions>(
        self,
        actions: A,
        rules: Rules<A::Context>,
        context: A::Context,
        one: Seq<Answer<A::Context>>,
        at: int,
        other: Seq<Answer<A::Context>>,
        there: int,
    )
        requires
            obeys(actions, rules),
            self.walk(actions, context, one, at).fits,
            self.walk(actions, context, other, there).fits,
        ensures
            self.walk(actions, context, one, at).end - at == self.walk(
                actions,
                context,
                other,
                there,
            ).end - there,
            self.walk(actions, context, one, at).reached == self.walk(
                actions,
                context,
                other,
                there,
            ).reached,
            forall|i: int|
                at <= i < self.walk(actions, context, one, at).end ==> (#[trigger] one[i])
                    == other[i - at + there],
        decreases self, 0nat,
    {
        match self {
            Handler::Entry => {},
            Handler::Endpoint { .. } => {},
            Handler::Filter { next, .. } => {
                match one[at] {
                    Answer::Verdict(accepted) => {
                        assert(other[there] == one[at]);
                        if accepted {
                            next.walks_read_the_same_answers(
                                actions,
                                rules,
                                context,
                                one,
                                at + 1,
                                other,
                                there + 1,
                            );
                            let end = next.walk(actions, context, one, at + 1).end;
                            assert forall|i: int| at <= i < end implies (#[trigger] one[i])
                                == other[i - at + there] by {
                                if i > at {
                                    assert(one[i] == other[i - (at + 1) + (there + 1)]);
                                }
                            }
                        }
                    },
                    Answer::Yielded(_) => {},
                }
            },
            Handler::FilterMap { next, .. } => {
                match one[at] {
                    Answer::Yielded(yielded) => {
                        assert(other[there] == one[at]);
                        match yielded {
                            Some(inner) => {
                                next.walks_read_the_same_answers(
                                    actions,
                                    rules,
                                    inner,
                                    one,
                                    at + 1,
                                    other,
                                    there + 1,
                                );
                                let end = next.walk(actions, inner, one, at + 1).end;
                                assert forall|i: int| at <= i < end implies (#[trigger] one[i])
                                    == other[i - at + there] by {
                                    if i > at {
                                        assert(one[i] == other[i - (at + 1) + (there + 1)]);
                                    }
                                }
                            },
                            None => {},
                        }
                    },
                    Answer::Verdict(_) => {},
                }
            },
            Handler::Branch { children } => {
                Self::first_walks_read_the_same_answers(
                    children@,
                    0,
                    actions,
                    rules,
                    context,
                    one,
                    at,
                    other,
                    there,
                );
            },
        }
    }

    /// The same for the children `children[from..]` of a branch.
    pub proof fn first_walks_read_the_same_answers<A: Actions>(
        children: Seq<Handler>,
        from: int,
        actions: A,
        rules: Rules<A::Context>,
        context: A::Context,
        one: Seq<Answer<A::Context>>,
        at: int,
        other: Seq<Answer<A::Context>>,
        there: int,
    )
        requires
            0 <= from,
            obeys(actions, rules),
            Self::walk_first(children, from, actions, context, one, at).fits,
            Self::walk_first(children, from, actions, context, other, there).fits,
        ensures
            Self::walk_first(children, from, actions, context, one, at).end - at
                == Self::walk_first(children, from, actions, context, other, there).end - there,
            Self::walk_first(children, from, actions, context, one, at).reached
                == Self::walk_first(children, from, actions, context, other, there).reached,
            forall|i: int|
                at <= i < Self::walk_first(children, from, actions, context, one, at).end ==> (
                #[trigger] one[i]) == other[i - at + there],
        decreases children, children.len() - from,
    {
        if from < children.len() {
            let first = children[from].walk(actions, context, one, at);
            let second = children[from].walk(actions, context, other, there);
            children[from].walks_read_the_same_answers(
                actions,
                rules,
                context,
                one,
                at,
                other,
                there,
            );
            if first.reached is None {
                children[from].walk_reads_only_its_part(actions, context, one, one, at);
                Self::first_walks_read_the_same_answers(
                    children,
                    from + 1,
                    actions,
                    rules,
                    context,
                    one,
                    first.end,
                    other,
                    second.end,
                );
                let end = Self::walk_first(children, from, actions, context, one, at).end;
                assert forall|i: int| at <= i < end implies (#[trigger] one[i]) == other[i - at
                    + there] by {
                    if i >= first.end {
                        assert(one[i] == other[i - first.end + second.end]);
                    }
                }
            }
        }
    }

    /// Repeated evaluation gives the same. Where the answers of `actions`
    /// are settled by `rules`, two evaluations from one context get the same
    /// answers in the same order and run the same action, which is the one
    /// that the tree selects under `rules`.
    pub proof fn evaluation_is_determined<A: Actions>(
        self,
        actions: A,
        rules: Rules<A::Context>,
        context: A::Context,
        first: Evaluation<A::Error, A::Context>,
        second: Evaluation<A::Error, A::Context>,
    )
        requires
            obeys(actions, rules),
            self.evaluates_to(actions, context, first),
            self.evaluates_to(actions, context, second),
        ensures
            first.trace@ == second.trace@,
            first.verdicts@ == second.verdicts@,
            first.ran == second.ran,
            first.ran == match self.reaches(rules, context) {
                Some((endpoint, _)) => Some(endpoint),
                None => None,
            },
            first.outcome is NotHandled <==> self.reaches(rules, context) is None,
    {
        self.walks_read_the_same_answers(
            actions,
            rules,
            context,
            first.trace@,
            0,
            second.trace@,
            0,
        );
        self.walk_reaches_what_the_rules_select(actions, rules, context, first.trace@, 0);
        assert(first.trace@ =~= second.trace@);
    }

    /// The first match wins. Where the children before `winner` all reach
    /// nothing from `context` under `rules` and the child `winner` reaches
    /// an action, the branch reaches that action, whatever the children
    /// behind it would reach; where no child reaches an action, the branch
    /// reaches none.
    pub proof fn first_child_to_reach_wins<C>(
        children: Seq<Handler>,
        from: int,
        winner: int,
        rules: Rules<C>,
        context: C,
    )
        requires
            0 <= from <= winner <= children.len(),
            forall|i: int|
                from <= i < winner ==> (#[trigger] children[i]).reaches(rules, context) is None,
            winner < children.len() ==> children[winner].reaches(rules, context) is Some,
        ensures
            winner < children.len() ==> Self::reaches_first(children, from, rules, context)
                == children[winner].reaches(rules, context),
            winner == children.len() ==> Self::reaches_first(children, from, rules, context)
                is None,
        decreases winner - from,
    {
        if from < winner {
            assert(children[from].reaches(rules, context) is None);
            Self::first_child_to_reach_wins(children, from + 1, winner, rules, context);
        }
    }
}

/// An evaluation that has ended.
pub struct Evaluation<E, C> {
    /// How it ended.
    pub outcome: Outcome<E>,
    /// The key of the action that ran, if one ran.
    pub ran: Option<u64>,
    /// Which of the answers let the update through, in their order.
    pub verdicts: Vec<bool>,
    /// The answers, in their order.
    pub trace: Ghost<Seq<Answer<C>>>,
}

impl Handler {
    /// Whether `done` is what an evaluation of the tree by `actions` from
    /// `context` may come to: its answers are those that the nodes on the
    /// way asked for, each one that the actions may give in the context of
    /// its node; they are read to the last; and the action that ran is the
    /// one that the walk along them reaches.
    pub open spec fn evaluates_to<A: Actions>(
        self,
        actions: A,
        context: A::Context,
        done: Evaluation<A::Error, A::Context>,
    ) -> bool {
        let walk = self.walk(actions, context, done.trace@, 0);
        &&& walk.fits
        &&& walk.end == done.trace@.len()
        &&& done.verdicts@ == passes(done.trace@)
        &&& done.ran == walk.action()
        &&& done.outcome is NotHandled <==> done.ran is None
    }

    /// Evaluates the tree for one update: walks from the root, asks
    /// `actions` what each node on the way needs to know, and runs the
    /// action that the walk reaches, if it reaches one.
    ///
    /// At most one action runs, and it runs last. The outcome is
    /// `NotHandled` exactly where none ran, and `actions` is then as it was;
    /// otherwise the outcome says how the action ended.
    pub fn evaluate<A: Actions>(&self, actions: &mut A, context: &A::Context) -> (done: Evaluation<
        A::Error,
        A::Context,
    >)
        ensures
            self.evaluates_to(*old(actions), *context, done),
            done.ran is None ==> *final(actions) == *old(actions),
    {
        let mut verdicts: Vec<bool> = Vec::new();
        let ghost empty = Seq::<Answer<A::Context>>::empty();
        assert(verdicts@ =~= passes(empty));
        let (found, trace) = self.descend(actions, context, &mut verdicts, Ghost(empty));
        match found {
            None => Evaluation { outcome: Outcome::NotHandled, ran: None, verdicts, trace },
            Some((endpoint, Ok(()))) => Evaluation {
                outcome: Outcome::Handled,
                ran: Some(endpoint),
                verdicts,
                trace,
            },
            Some((endpoint, Err(error))) => Evaluation {
                outcome: Outcome::Failed(error),
                ran: Some(endpoint),
                verdicts,
                trace,
            },
        }
    }

    /// Goes on with an evaluation at this node: `trace` holds the answers
    /// got before, and the answers got from here on are added behind them.
    fn descend<A: Actions>(
        &self,
        actions: &mut A,
        context: &A::Context,
        verdicts: &mut Vec<bool>,
        trace: Ghost<Seq<Answer<A::Context>>>,
    ) -> (found: (Option<(u64, Result<(), A::Error>)>, Ghost<Seq<Answer<A::Context>>>))
        requires
            old(verdicts)@ == passes(trace@),
        ensures
            begins_with(found.1@, trace@),
            self.walk(*old(actions), *context, found.1@, trace@.len() as int).fits,
            self.walk(*old(actions), *context, found.1@, trace@.len() as int).end
                == found.1@.len(),
            final(verdicts)@ == passes(found.1@),
            match found.0 {
                Some((endpoint, _)) => self.walk(
                    *old(actions),
                    *context,
                    found.1@,
                    trace@.len() as int,
                ).action() == Some(endpoint),
                None => {
                    &&& self.walk(*old(actions), *context, found.1@, trace@.len() as int).reached
                        is None
                    &&& *final(actions) == *old(actions)
                },
            },
        decreases self,
    {
        match self {
            Handler::Entry => (None, trace),
            Handler::Endpoint { endpoint, .. } => {
                let result = actions.run(*endpoint, context);
                (Some((*endpoint, result)), trace)
            },
            Handler::Filter { filter, next, .. } => {
                let accepted = actions.test(*filter, context);
                verdicts.push(accepted);
                let ghost longer = trace@.push(Answer::Verdict(accepted));
                assert(verdicts@ =~= passes(longer));
                if accepted {
                    next.descend(actions, context, verdicts, Ghost(longer))
                } else {
                    (None, Ghost(longer))
                }
            },
            Handler::FilterMap { map, next, .. } => {
                let yielded = actions.transform(*map, context);
                let ghost longer = trace@.push(Answer::Yielded(yielded));
                match yielded {
                    Some(inner) => {
                        verdicts.push(true);
                        assert(verdicts@ =~= passes(longer));
                        next.descend(actions, &inner, verdicts, Ghost(longer))
                    },
                    None => {
                        verdicts.push(false);
                        assert(verdicts@ =~= passes(longer));
                        (None, Ghost(longer))
                    },
                }
            },
            Handler::Branch { children } => {
                let ghost before = *actions;
                let ghost start = trace@;
                let mut current = trace;
                let mut i: usize = 0;
                while i < children.len()
                    invariant
                        i <= children.len(),
                        *self == (Handler::Branch { children: *children }),
                        *actions == before,
                        before == *old(actions),
                        start == trace@,
                        begins_with(current@, start),
                        verdicts@ == passes(current@),
                        forall|longer: Seq<Answer<A::Context>>| #[trigger]
                            begins_with(longer, current@) ==> Self::walk_first(
                                children@,
                                0,
                                before,
                                *context,
                                longer,
                                start.len() as int,
                            ) == Self::walk_first(
                                children@,
                                i as int,
                                before,
                                *context,
                                longer,
                                current@.len() as int,
                            ),
                    decreases children.len() - i,
                {
                    assert(decreases_to!(*self => children[i as int])) by {
                        assert(self->children == *children);
                        assert(decreases_to!(*self => self->children));
                        assert(decreases_to!(*children => children[i as int]));
                    }
                    let ghost sofar = current@;
                    let (found, after) = children[i].descend(actions, context, verdicts, current);
                    proof {
                        assert forall|longer: Seq<Answer<A::Context>>| #[trigger]
                            begins_with(longer, after@) implies Self::walk_first(
                            children@,
                            0,
                            before,
                            *context,
                            longer,
                            start.len() as int,
                        ) == (if found is None {
                            Self::walk_first(
                                children@,
                                i + 1,
                                before,
                                *context,
                                longer,
                                after@.len() as int,
                            )
                        } else {
                            children[i as int].walk(before, *context, after@, sofar.len() as int)
                        }) by {
                            assert(begins_with(longer, sofar));
                            children[i as int].walk_reads_only_its_part(
                                before,
                                *context,
                                after@,
                                longer,
                                sofar.len() as int,
                            );
                        }
                        assert(begins_with(after@, after@));
                        assert(begins_with(after@, start));
                    }
                    match found {
                        Some(reached) => {
                            return (Some(reached), after);
                        },
                        None => {
                            current = after;
                            i += 1;
                        },
                    }
                }
                assert(begins_with(current@, current@));
                (None, current)
            },
        }
    }
}

} // verus!

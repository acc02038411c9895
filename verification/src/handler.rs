//! The handler tree and the route of one update through it.
//!
//! A tree says in which order predicates are tried and which action ends
//! the search; it holds no code. Predicates, transforms and actions are
//! known to it by keys. Whoever evaluates a tree carries out what the tree
//! asks for, one step at a time, and reports each answer; the route is a
//! function of the tree and the answers given so far.

use vstd::prelude::*;

verus! {

/// A node of a handler tree.
pub enum Handler {
    /// Passes the update on untouched; alone it handles nothing.
    Entry,
    /// Lets the update through to `next` where the predicate `filter`
    /// accepts it, and rejects it otherwise. The predicate reads the
    /// dependencies of the kinds `needs`.
    Filter { filter: u64, needs: Vec<u64>, next: Box<Handler> },
    /// Lets the update through to `next` where the transform `map` yields a
    /// value, and rejects it otherwise. The transform reads the dependencies
    /// of the kinds `needs`; what it yields is a dependency of the kind
    /// `gives`, for `next` alone.
    FilterMap { map: u64, needs: Vec<u64>, gives: u64, next: Box<Handler> },
    /// Tries its children in order, up to the first that does not reject.
    Branch { children: Vec<Handler> },
    /// Ends the search: the action `endpoint` handles the update. It reads
    /// the dependencies of the kinds `needs`.
    Endpoint { endpoint: u64, needs: Vec<u64> },
}

/// What the evaluation of a tree asks for next.
#[derive(Clone, Copy, Debug, PartialEq, Eq, Structural)]
pub enum Step {
    /// Try the predicate of this key and report whether it accepts.
    Test(u64),
    /// Run the transform of this key and report whether it yielded a value.
    Transform(u64),
    /// Run the action of this key; with it the evaluation ends.
    Run(u64),
    /// Nothing more: every way through the tree was rejected.
    Decline,
}

impl Step {
    /// Whether the step asks for an answer, after which the evaluation
    /// goes on.
    pub open spec fn is_question(self) -> bool {
        self is Test || self is Transform
    }

    /// The action that the step runs, if it runs one.
    pub open spec fn action(self) -> Option<u64> {
        match self {
            Step::Run(endpoint) => Some(endpoint),
            _ => None,
        }
    }

    /// The step in which an evaluation ends that selects `selected`.
    pub open spec fn last(selected: Option<u64>) -> Step {
        match selected {
            Some(endpoint) => Step::Run(endpoint),
            None => Step::Decline,
        }
    }
}

impl Handler {
    /// The step that the tree asks for once the answers `verdicts[pos..]`
    /// were given in this order, and the position behind the last answer
    /// that was read on the way to it.
    pub open spec fn route_from(self, verdicts: Seq<bool>, pos: int) -> (Step, int)
        decreases self, 0nat,
    {
        match self {
            Handler::Entry => (Step::Decline, pos),
            Handler::Endpoint { endpoint, .. } => (Step::Run(endpoint), pos),
            Handler::Filter { filter, next, .. } => if pos >= verdicts.len() {
                (Step::Test(filter), pos)
            } else if verdicts[pos] {
                next.route_from(verdicts, pos + 1)
            } else {
                (Step::Decline, pos + 1)
            },
            Handler::FilterMap { map, next, .. } => if pos >= verdicts.len() {
                (Step::Transform(map), pos)
            } else if verdicts[pos] {
                next.route_from(verdicts, pos + 1)
            } else {
                (Step::Decline, pos + 1)
            },
            Handler::Branch { children } => Self::route_first(children@, 0, verdicts, pos),
        }
    }

    /// The same for the children `children[from..]` of a branch: the step of
    /// the first of them that does not decline, each child reading on where
    /// the one before it stopped.
    pub open spec fn route_first(
        children: Seq<Handler>,
        from: int,
        verdicts: Seq<bool>,
        pos: int,
    ) -> (Step, int)
        decreases children, children.len() - from,
    {
        if 0 <= from < children.len() {
            let (step, at) = children[from].route_from(verdicts, pos);
            if step is Decline {
                Self::route_first(children, from + 1, verdicts, at)
            } else {
                (step, at)
            }
        } else {
            (Step::Decline, pos)
        }
    }

    /// The step that the tree asks for once the answers `verdicts` were
    /// given, from the first on.
    pub open spec fn route_spec(self, verdicts: Seq<bool>) -> Step {
        self.route_from(verdicts, 0).0
    }

    /// The step that the tree asks for once the answers `verdicts` were
    /// given, from the first on.
    ///
    /// With no answers yet this is the first thing to do; each answer that
    /// is added leads one step further, until an action is to be run or the
    /// tree declines. Answers beyond that point are not read.
    pub fn route(&self, verdicts: &Vec<bool>) -> (step: Step)
        ensures
            step == self.route_spec(verdicts@),
    {
        self.route_at(verdicts, 0).0
    }

    /// The step that the tree asks for once the answers `verdicts[pos..]`
    /// were given, and the position behind the last answer read.
    pub fn route_at(&self, verdicts: &Vec<bool>, pos: usize) -> (routed: (Step, usize))
        requires
            pos <= verdicts.len(),
        ensures
            routed.0 == self.route_from(verdicts@, pos as int).0,
            routed.1 == self.route_from(verdicts@, pos as int).1,
            pos <= routed.1 <= verdicts.len(),
        decreases self,
    {
        match self {
            Handler::Entry => (Step::Decline, pos),
            Handler::Endpoint { endpoint, .. } => (Step::Run(*endpoint), pos),
            Handler::Filter { filter, next, .. } => {
                if pos >= verdicts.len() {
                    (Step::Test(*filter), pos)
                } else if verdicts[pos] {
                    next.route_at(verdicts, pos + 1)
                } else {
                    (Step::Decline, pos + 1)
                }
            },
            Handler::FilterMap { map, next, .. } => {
                if pos >= verdicts.len() {
                    (Step::Transform(*map), pos)
                } else if verdicts[pos] {
                    next.route_at(verdicts, pos + 1)
                } else {
                    (Step::Decline, pos + 1)
                }
            },
            Handler::Branch { children } => {
                let mut at: usize = pos;
                let mut i: usize = 0;
                while i < children.len()
                    invariant
                        i <= children.len(),
                        pos <= at <= verdicts.len(),
                        *self == (Handler::Branch { children: *children }),
                        Self::route_first(children@, 0, verdicts@, pos as int) == Self::route_first(
                            children@,
                            i as int,
                            verdicts@,
                            at as int,
                        ),
                    decreases children.len() - i,
                {
                    assert(decreases_to!(*self => children[i as int])) by {
                        assert(self->children == *children);
                        assert(decreases_to!(*self => self->children));
                        assert(decreases_to!(*children => children[i as int]));
                    }
                    let (step, behind) = children[i].route_at(verdicts, at);
                    match step {
                        Step::Decline => {
                            at = behind;
                            i += 1;
                        },
                        _ => {
                            return (step, behind);
                        },
                    }
                }
                (Step::Decline, at)
            },
        }
    }
}

impl Handler {
    /// The number of predicates and transforms in the tree: no evaluation
    /// asks more questions than that.
    pub open spec fn questions(self) -> nat
        decreases self, 0nat,
    {
        match self {
            Handler::Entry => 0,
            Handler::Endpoint { endpoint, .. } => 0,
            Handler::Filter { filter, next, .. } => 1 + next.questions(),
            Handler::FilterMap { map, next, .. } => 1 + next.questions(),
            Handler::Branch { children } => Self::questions_of(children@, 0),
        }
    }

    /// The number of predicates and transforms in `children[from..]`.
    pub open spec fn questions_of(children: Seq<Handler>, from: int) -> nat
        decreases children, children.len() - from,
    {
        if 0 <= from < children.len() {
            children[from].questions() + Self::questions_of(children, from + 1)
        } else {
            0
        }
    }

    /// Each answer that a route reads belongs to a question of the tree: a
    /// route reads no more answers than the tree has questions, and where it
    /// ends in a question it has read all the answers given, and fewer than
    /// the tree has questions.
    pub proof fn route_reads_answers_to_questions(self, verdicts: Seq<bool>, pos: int)
        requires
            0 <= pos <= verdicts.len(),
        ensures
            pos <= self.route_from(verdicts, pos).1 <= verdicts.len(),
            self.route_from(verdicts, pos).1 - pos <= self.questions(),
            self.route_from(verdicts, pos).0.is_question() ==> {
                &&& self.route_from(verdicts, pos).1 == verdicts.len()
                &&& self.route_from(verdicts, pos).1 - pos < self.questions()
            },
        decreases self, 0nat,
    {
        match self {
            Handler::Entry => {},
            Handler::Endpoint { endpoint, .. } => {},
            Handler::Filter { filter, next, .. } => {
                if pos < verdicts.len() && verdicts[pos] {
                    next.route_reads_answers_to_questions(verdicts, pos + 1);
                }
            },
            Handler::FilterMap { map, next, .. } => {
                if pos < verdicts.len() && verdicts[pos] {
                    next.route_reads_answers_to_questions(verdicts, pos + 1);
                }
            },
            Handler::Branch { children } => {
                Self::first_route_reads_answers_to_questions(children@, 0, verdicts, pos);
            },
        }
    }

    /// The same for the children `children[from..]` of a branch.
    pub proof fn first_route_reads_answers_to_questions(
        children: Seq<Handler>,
        from: int,
        verdicts: Seq<bool>,
        pos: int,
    )
        requires
            0 <= pos <= verdicts.len(),
            0 <= from,
        ensures
            pos <= Self::route_first(children, from, verdicts, pos).1 <= verdicts.len(),
            Self::route_first(children, from, verdicts, pos).1 - pos <= Self::questions_of(
                children,
                from,
            ),
            Self::route_first(children, from, verdicts, pos).0.is_question() ==> {
                &&& Self::route_first(children, from, verdicts, pos).1 == verdicts.len()
                &&& Self::route_first(children, from, verdicts, pos).1 - pos < Self::questions_of(
                    children,
                    from,
                )
            },
        decreases children, children.len() - from,
    {
        if from < children.len() {
            children[from].route_reads_answers_to_questions(verdicts, pos);
            let (step, at) = children[from].route_from(verdicts, pos);
            if step is Decline {
                Self::first_route_reads_answers_to_questions(children, from + 1, verdicts, at);
            }
        }
    }
}

impl Handler {
    /// A route reads no answer beyond its end: it is the same along every
    /// sequence of answers that agrees with the given one up to that end.
    pub proof fn route_reads_only_its_part(self, verdicts: Seq<bool>, other: Seq<bool>, pos: int)
        requires
            0 <= pos <= verdicts.len(),
            self.route_from(verdicts, pos).1 <= other.len(),
            forall|i: int| pos <= i < self.route_from(verdicts, pos).1 ==> other[i] == verdicts[i],
            !self.route_from(verdicts, pos).0.is_question(),
        ensures
            self.route_from(other, pos) == self.route_from(verdicts, pos),
        decreases self, 0nat,
    {
        self.route_reads_answers_to_questions(verdicts, pos);
        match self {
            Handler::Entry => {},
            Handler::Endpoint { .. } => {},
            Handler::Filter { next, .. } => {
                next.route_reads_answers_to_questions(verdicts, pos + 1);
                if verdicts[pos] {
                    next.route_reads_only_its_part(verdicts, other, pos + 1);
                }
            },
            Handler::FilterMap { next, .. } => {
                next.route_reads_answers_to_questions(verdicts, pos + 1);
                if verdicts[pos] {
                    next.route_reads_only_its_part(verdicts, other, pos + 1);
                }
            },
            Handler::Branch { children } => {
                Self::first_route_reads_only_its_part(children@, 0, verdicts, other, pos);
            },
        }
    }

    /// The same for the children `children[from..]` of a branch.
    pub proof fn first_route_reads_only_its_part(
        children: Seq<Handler>,
        from: int,
        verdicts: Seq<bool>,
        other: Seq<bool>,
        pos: int,
    )
        requires
            0 <= from,
            0 <= pos <= verdicts.len(),
            Self::route_first(children, from, verdicts, pos).1 <= other.len(),
            forall|i: int|
                pos <= i < Self::route_first(children, from, verdicts, pos).1 ==> other[i]
                    == verdicts[i],
            !Self::route_first(children, from, verdicts, pos).0.is_question(),
        ensures
            Self::route_first(children, from, other, pos) == Self::route_first(
                children,
                from,
                verdicts,
                pos,
            ),
        decreases children, children.len() - from,
    {
        if from < children.len() {
            let (step, at) = children[from].route_from(verdicts, pos);
            children[from].route_reads_answers_to_questions(verdicts, pos);
            if step is Decline {
                Self::first_route_reads_answers_to_questions(children, from + 1, verdicts, at);
            }
            children[from].route_reads_only_its_part(verdicts, other, pos);
            if step is Decline {
                Self::first_route_reads_only_its_part(children, from + 1, verdicts, other, at);
            }
        }
    }

    /// Before the last answer that a route reads is given, the tree asks a
    /// question: with the answers `verdicts[..upto]` alone, where the whole
    /// route reads beyond `upto`, the route ends in a question at `upto`.
    pub proof fn route_asks_until_its_end(self, verdicts: Seq<bool>, pos: int, upto: int)
        requires
            0 <= pos <= upto < self.route_from(verdicts, pos).1,
            upto <= verdicts.len(),
        ensures
            self.route_from(verdicts.take(upto), pos).0.is_question(),
            self.route_from(verdicts.take(upto), pos).1 == upto,
        decreases self, 0nat,
    {
        let fewer = verdicts.take(upto);
        match self {
            Handler::Entry => {},
            Handler::Endpoint { .. } => {},
            Handler::Filter { next, .. } => {
                if pos < upto && verdicts[pos] {
                    next.route_asks_until_its_end(verdicts, pos + 1, upto);
                }
            },
            Handler::FilterMap { next, .. } => {
                if pos < upto && verdicts[pos] {
                    next.route_asks_until_its_end(verdicts, pos + 1, upto);
                }
            },
            Handler::Branch { children } => {
                Self::first_route_asks_until_its_end(children@, 0, verdicts, pos, upto);
            },
        }
    }

    /// The same for the children `children[from..]` of a branch.
    pub proof fn first_route_asks_until_its_end(
        children: Seq<Handler>,
        from: int,
        verdicts: Seq<bool>,
        pos: int,
        upto: int,
    )
        requires
            0 <= from,
            0 <= pos <= upto < Self::route_first(children, from, verdicts, pos).1,
            upto <= verdicts.len(),
        ensures
            Self::route_first(children, from, verdicts.take(upto), pos).0.is_question(),
            Self::route_first(children, from, verdicts.take(upto), pos).1 == upto,
        decreases children, children.len() - from,
    {
        if from < children.len() {
            let (step, at) = children[from].route_from(verdicts, pos);
            children[from].route_reads_answers_to_questions(verdicts, pos);
            if upto < at {
                children[from].route_asks_until_its_end(verdicts, pos, upto);
            } else {
                children[from].route_reads_only_its_part(verdicts, verdicts.take(upto), pos);
                Self::first_route_asks_until_its_end(children, from + 1, verdicts, at, upto);
            }
        }
    }

    /// A route that reads all the answers given and ends in no question is
    /// a whole run.
    pub proof fn route_to_the_end_is_a_whole_run(self, verdicts: Seq<bool>)
        requires
            self.route_from(verdicts, 0).1 == verdicts.len(),
            !self.route_spec(verdicts).is_question(),
        ensures
            self.is_whole_run(verdicts),
    {
        assert forall|k: int| 0 <= k < verdicts.len() implies (#[trigger] self.route_spec(
            verdicts.take(k),
        )).is_question() by {
            self.route_asks_until_its_end(verdicts, 0, k);
        }
    }

    /// Whether `verdicts` is the record of a whole evaluation of the tree:
    /// each answer in it was asked for, and after the last one the tree asks
    /// no further question.
    pub open spec fn is_whole_run(self, verdicts: Seq<bool>) -> bool {
        &&& !self.route_spec(verdicts).is_question()
        &&& forall|k: int|
            0 <= k < verdicts.len() ==> (#[trigger] self.route_spec(verdicts.take(k))).is_question()
    }
}

} // verus!

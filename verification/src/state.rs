//! The lifecycle state machine of a Keep.
//!
//! A Keep moves `Indeterminate -> Ready -> Running -> Shutdown`, and may fall
//! to `Error` from any non-terminal state. `Shutdown` is terminal; `Error` is
//! sticky. Any other requested transition is rejected and leaves the record
//! unchanged.

use vstd::prelude::*;

verus! {

/// Published lifecycle state of a Keep's loader.
#[derive(Clone, Copy, Debug, PartialEq, Eq, Structural)]
pub enum LoaderState {
    Indeterminate,
    Ready,
    Running,
    Shutdown,
    Error,
}

/// The transition table of the lifecycle state machine: exactly the moves a
/// Keep's published state may make.
pub open spec fn transition_allowed(from: LoaderState, to: LoaderState) -> bool {
    match (from, to) {
        (LoaderState::Indeterminate, LoaderState::Ready) => true,
        (LoaderState::Ready, LoaderState::Running) => true,
        (LoaderState::Running, LoaderState::Shutdown) => true,
        (LoaderState::Indeterminate, LoaderState::Error) => true,
        (LoaderState::Ready, LoaderState::Error) => true,
        (LoaderState::Running, LoaderState::Error) => true,
        _ => false,
    }
}

/// A state with no legal outgoing transition.
pub open spec fn is_terminal(s: LoaderState) -> bool {
    s is Shutdown || s is Error
}

impl LoaderState {
    /// Decides whether the table permits moving from `self` to `to`.
    pub fn legal_transition(&self, to: &LoaderState) -> (b: bool)
        ensures
            b == transition_allowed(*self, *to),
    {
        match (self, to) {
            (LoaderState::Indeterminate, LoaderState::Ready) => true,
            (LoaderState::Ready, LoaderState::Running) => true,
            (LoaderState::Running, LoaderState::Shutdown) => true,
            (LoaderState::Indeterminate, LoaderState::Error) => true,
            (LoaderState::Ready, LoaderState::Error) => true,
            (LoaderState::Running, LoaderState::Error) => true,
            _ => false,
        }
    }
}

/// One step as the registry applies it: a legal request moves the state, an
/// illegal one is rejected and the prior state is preserved.
pub open spec fn step(cur: LoaderState, req: LoaderState) -> LoaderState {
    if transition_allowed(cur, req) {
        req
    } else {
        cur
    }
}

/// The state after a whole sequence of transition requests, each applied as
/// [`step`] does.
pub open spec fn run(start: LoaderState, reqs: Seq<LoaderState>) -> LoaderState
    decreases reqs.len(),
{
    if reqs.len() == 0 {
        start
    } else {
        run(step(start, reqs[0]), reqs.drop_first())
    }
}

/// `b` can be reached from `a` by zero or more moves of the table.
pub open spec fn reachable(a: LoaderState, b: LoaderState) -> bool {
    ||| a == b
    ||| (a is Indeterminate && (b is Ready || b is Running || b is Shutdown || b is Error))
    ||| (a is Ready && (b is Running || b is Shutdown || b is Error))
    ||| (a is Running && (b is Shutdown || b is Error))
}

/// One legal move stays within reach: [`reachable`] really is closed under
/// the table.
pub proof fn lemma_reachable_step(a: LoaderState, b: LoaderState, c: LoaderState)
    requires
        reachable(a, b),
        transition_allowed(b, c),
    ensures
        reachable(a, c),
{
}

/// However a run of requests interleaves legal and rejected moves, the state
/// it ends in is reachable from its start through the table alone.
pub proof fn lemma_run_reachable(start: LoaderState, reqs: Seq<LoaderState>)
    ensures
        reachable(start, run(start, reqs)),
    decreases reqs.len(),
{
    if reqs.len() > 0 {
        let next = step(start, reqs[0]);
        lemma_run_reachable(next, reqs.drop_first());
        if transition_allowed(start, reqs[0]) {
            lemma_reachable_step(start, start, next);
        }
        assert(reachable(start, next));
        lemma_reachable_trans(start, next, run(next, reqs.drop_first()));
    }
}

/// Reach through the table is transitive.
pub proof fn lemma_reachable_trans(a: LoaderState, b: LoaderState, c: LoaderState)
    requires
        reachable(a, b),
        reachable(b, c),
    ensures
        reachable(a, c),
{
}

/// No state has a legal transition to itself, so of two identical transition
/// requests on one Keep, at most one can be applied: once the first has moved
/// the state, the second finds the target already current and is rejected.
pub proof fn lemma_no_self_transition(s: LoaderState)
    ensures
        !transition_allowed(s, s),
{
}

/// After a request wins the move from `s` to `t`, a rival request for the
/// same `t` is rejected: the two can never both be applied.
pub proof fn lemma_rival_request_loses(s: LoaderState, t: LoaderState)
    requires
        transition_allowed(s, t),
    ensures
        !transition_allowed(step(s, t), t),
{
}

/// A terminal state absorbs every further request: no run of requests leaves
/// `Shutdown`, and `Error` is sticky.
pub proof fn lemma_terminal_sticky(s: LoaderState, reqs: Seq<LoaderState>)
    requires
        is_terminal(s),
    ensures
        run(s, reqs) == s,
    decreases reqs.len(),
{
    if reqs.len() > 0 {
        lemma_terminal_sticky(s, reqs.drop_first());
    }
}

} // verus!

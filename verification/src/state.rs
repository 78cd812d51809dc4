//! A walk along the lifecycle graph of a pod where nothing goes wrong.
//!
//! [`next`] says where a pod goes from a phase when the work of that phase
//! succeeds, and [`run`] follows these steps to the end. The walk takes the
//! success edge of each phase. It never takes an edge out of `Error`: whether
//! and how a failed pod is taken up again is not for the walk to decide.

use vstd::prelude::*;
use crate::pod::status::Phase;

verus! {

/// Settings of the agent. There are none yet.
#[derive(Clone, Copy, Debug, Default)]
pub struct Config;

/// A walk that ended in a phase other than `Completed`.
#[derive(Clone, Copy, Debug, PartialEq, Eq, Structural)]
pub struct Failure {
    /// The phase in which the walk ended.
    pub phase: Phase,
}

/// What follows a state.
#[derive(Debug)]
pub enum Transition<S, E> {
    /// The work of the state succeeded; `S` is the state that follows.
    Advance(S),
    /// The work of the state failed; `E` is the state that follows.
    Error(E),
    /// Nothing follows: the walk is over, with this outcome.
    Completed(Result<(), Failure>),
}

/// What follows `phase` on the walk.
///
/// `Completed` ends the walk with success and `Error` ends it with failure.
/// Any other phase is left by its success edge; a phase that has none is
/// left by its other edge; a phase without edges ends the walk with failure.
pub open spec fn onward(phase: Phase) -> Transition<Phase, Phase> {
    if phase == Phase::Completed {
        Transition::Completed(Ok(()))
    } else if phase == Phase::Error {
        Transition::Completed(Err(Failure { phase }))
    } else {
        match phase.success_edge() {
            Some(next) => Transition::Advance(next),
            None => match phase.failure_edge() {
                Some(next) => Transition::Error(next),
                None => Transition::Completed(Err(Failure { phase })),
            },
        }
    }
}

/// How the walk from `phase` ends: with success from the phases that lead to
/// `Completed` by success edges, with failure in `Error` from
/// `CrashLoopBackoff` and from `Error` itself, and with failure on the spot
/// from a phase without edges.
pub open spec fn outcome(phase: Phase) -> Result<(), Failure> {
    match phase {
        Phase::Registered | Phase::Pending | Phase::Running | Phase::Completed => Ok(()),
        Phase::Error | Phase::CrashLoopBackoff => Err(Failure { phase: Phase::Error }),
        _ => Err(Failure { phase }),
    }
}

/// How many steps the walk from `phase` takes at most.
spec fn distance(phase: Phase) -> nat {
    match phase {
        Phase::Registered => 3,
        Phase::Pending => 2,
        Phase::Running => 1,
        Phase::CrashLoopBackoff => 1,
        _ => 0,
    }
}

/// What follows `phase` on the walk.
pub fn next(phase: Phase) -> (transition: Transition<Phase, Phase>)
    ensures
        transition == onward(phase),
{
    match phase {
        Phase::Completed => Transition::Completed(Ok(())),
        Phase::Error => Transition::Completed(Err(Failure { phase })),
        _ => match phase.on_success() {
            Some(next) => Transition::Advance(next),
            None => match phase.on_failure() {
                Some(next) => Transition::Error(next),
                None => Transition::Completed(Err(Failure { phase })),
            },
        },
    }
}

/// Walks from `phase` to the end, step by step, and says how the walk ended.
/// Every step is an edge of the lifecycle graph.
pub fn run(phase: Phase) -> (result: Result<(), Failure>)
    ensures
        result == outcome(phase),
{
    let mut current = phase;
    loop
        invariant
            outcome(current) == outcome(phase),
        decreases distance(current),
    {
        match next(current) {
            Transition::Advance(state) => {
                current = state;
            },
            Transition::Error(state) => {
                current = state;
            },
            Transition::Completed(result) => {
                return result;
            },
        }
    }
}

/// Every step of the walk is an edge of the lifecycle graph.
pub proof fn lemma_walk_follows_edges(phase: Phase)
    ensures
        match onward(phase) {
            Transition::Advance(next) => phase.edge(next),
            Transition::Error(next) => phase.edge(next),
            Transition::Completed(_) => true,
        },
{
}

} // verus!

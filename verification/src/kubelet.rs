//! The agent: it takes the pods that a source supplies, one by one, registers
//! each and starts its run.
//!
//! Taking a pod from the source and carrying out its run are the caller's
//! part. [`Kubelet::accept`] is what the agent decides for each item that the
//! source yields.

use vstd::prelude::*;
use crate::api::Pod;
use crate::api::PodView;
use crate::concrete_state_machine::started;
use crate::concrete_state_machine::StateMachineTest;
use crate::pod::identity;
use crate::pod::no_entries;
use crate::pod::registered;
use crate::pod::Manager;
use crate::pod::Registry;
use crate::pod::RegistryError;
use crate::state_machine::initial;

verus! {

/// The agent, with the registry of the pods that it has taken on.
pub struct Kubelet {
    pub manager: Manager,
}

/// What the agent made of an item of the pod source.
#[derive(Debug)]
pub enum Admission {
    /// The pod is registered and its run has started: the run is to be
    /// carried out.
    Launched(StateMachineTest),
    /// The pod was not taken on.
    Refused(RegistryError),
    /// The source has come to its end.
    Stopped,
}

/// What the source yielded, as the contracts see it.
pub open spec fn supplied(next: Option<Pod>) -> Option<PodView> {
    match next {
        Some(pod) => Some(pod@),
        None => None,
    }
}

/// What an item of the pod source makes of `registry`: a pod that can be
/// registered is registered and started, and anything else changes nothing.
pub open spec fn accepted(registry: Registry, next: Option<PodView>) -> Registry {
    match next {
        None => registry,
        Some(pod) => if registered(registry, pod).1 is Err {
            registry
        } else {
            started(registered(registry, pod).0, pod).0
        },
    }
}

impl Kubelet {
    /// An agent that has taken on no pod.
    pub fn new() -> (kubelet: Kubelet)
        ensures
            kubelet.manager@ == no_entries(),
    {
        Kubelet { manager: Manager::new() }
    }

    /// Deals with the next item of the pod source.
    ///
    /// When the source has ended, the agent stops. A pod is registered and
    /// its run is started; the run is handed to the caller. A pod that the
    /// registry refuses, for want of an identity or because its identity is
    /// taken, is not taken on, and the registry stays as it was.
    pub fn accept(&mut self, next: Option<Pod>) -> (admission: Admission)
        ensures
            final(self).manager@ == accepted(old(self).manager@, supplied(next)),
            match admission {
                Admission::Stopped => next is None,
                Admission::Refused(error) => next matches Some(pod) && registered(
                    old(self).manager@,
                    pod@,
                ).1 == Err::<(), RegistryError>(error),
                Admission::Launched(run) => next matches Some(pod) && registered(
                    old(self).manager@,
                    pod@,
                ).1 is Ok && identity(pod@) == Some(run@.key) && run@.pod == pod@ && run@.stage
                    == initial(pod@),
            },
    {
        match next {
            None => Admission::Stopped,
            Some(pod) => {
                let copy = pod.clone();
                match self.manager.register_pod(pod) {
                    Err(error) => Admission::Refused(error),
                    Ok(_) => match StateMachineTest::start(&mut self.manager, copy) {
                        Ok(run) => Admission::Launched(run),
                        Err(error) => Admission::Refused(error),
                    },
                }
            },
        }
    }
}

} // verus!

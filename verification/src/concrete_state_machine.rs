//! The run of one pod, with its bookkeeping in the registry.
//!
//! [`StateMachineTest`] walks a pod through its operations, stage by stage,
//! and keeps the phase of the pod in the registry in step: a pod is `Pending`
//! while images are acquired and volumes mounted, goes through `Running` to
//! `Completed` when every operation has succeeded, and to `Error`, with the
//! message of the backend, when one fails for good. Retries and cooldowns
//! leave the phase alone. The machine does not call the backend: its caller
//! performs the outstanding action and reports what came of it.

use vstd::prelude::*;
use crate::api::Pod;
use crate::api::PodView;
use crate::api::VolumeMount;
use crate::pod::failed;
use crate::pod::identity;
use crate::pod::moved;
use crate::pod::stored;
use crate::pod::Key;
use crate::pod::Manager;
use crate::pod::Registry;
use crate::pod::RegistryError;
use crate::pod::status::lemma_reaches_by_edge;
use crate::pod::status::reaches;
use crate::pod::status::Phase;
use crate::state_machine::initial;
use crate::state_machine::lemma_mount_from_is_mount;
use crate::state_machine::step;
use crate::state_machine::Action;
use crate::state_machine::Event;
use crate::state_machine::Stage;
use crate::provider::Outcome;

verus! {

/// What recording the success of a run makes of `registry`, and what it
/// answers: the pod `key` goes to `Running` and on to `Completed`. If it
/// cannot go to `Running`, nothing changes.
pub open spec fn completed(registry: Registry, key: Key) -> (Registry, Result<(), RegistryError>) {
    let running = moved(registry, key, Phase::Running);
    if running.1 is Err {
        (registry, running.1)
    } else {
        moved(running.0, key, Phase::Completed)
    }
}

/// What the start of a run of `pod` makes of `registry`, and what it
/// answers.
///
/// A pod without identity cannot be run. Otherwise the pod goes to
/// `Pending`; if it has no operation at all, it goes on through `Running` to
/// `Completed` at once. If the pod is not registered, or cannot go to
/// `Pending` from the phase it is in, nothing changes.
pub open spec fn started(registry: Registry, pod: PodView) -> (Registry, Result<(), RegistryError>) {
    match identity(pod) {
        None => (registry, Err(RegistryError::Configuration)),
        Some(key) => {
            let pending = moved(registry, key, Phase::Pending);
            if pending.1 is Err {
                (registry, pending.1)
            } else if initial(pod) == Stage::Completed {
                completed(pending.0, key)
            } else {
                pending
            }
        },
    }
}

/// What the step from stage `before` to stage `after` on `event` makes of
/// `registry`, and what it answers.
///
/// Reaching the end of the operations is recorded as success, a fatal error
/// as failure with the message of the error. Any other step changes nothing.
pub open spec fn recorded(registry: Registry, key: Key, before: Stage, after: Stage, event: Event) -> (
    Registry,
    Result<(), RegistryError>,
) {
    if after == before {
        (registry, Ok(()))
    } else {
        match after {
            Stage::Completed => completed(registry, key),
            Stage::Failed => match event.fatal_text() {
                Some(message) => failed(registry, key, message),
                None => (registry, Ok(())),
            },
            _ => (registry, Ok(())),
        }
    }
}

/// The run of one pod: the pod, its identity and the stage that the run is
/// in.
#[derive(Debug)]
pub struct StateMachineTest {
    namespace: String,
    name: String,
    pod: Pod,
    stage: Stage,
}

/// What a [`StateMachineTest`] holds.
pub struct RunView {
    pub key: Key,
    pub pod: PodView,
    pub stage: Stage,
}

impl View for StateMachineTest {
    type V = RunView;

    closed spec fn view(&self) -> RunView {
        RunView { key: (self.namespace@, self.name@), pod: self.pod@, stage: self.stage }
    }
}

impl StateMachineTest {
    /// The stage names an operation that the pod has.
    #[verifier::type_invariant]
    spec fn stage_fits(&self) -> bool {
        self.stage.wf(self.pod@)
    }

    /// Starts the run of `pod`, which is to be registered with `manager`.
    ///
    /// The pod goes to `Pending`, and the run stands at the first operation
    /// of the pod. A pod without any operation is completed at once. The
    /// start is refused, and nothing changes, if the pod has no identity, is
    /// not registered, or is in a phase from which it cannot go to
    /// `Pending`.
    pub fn start(manager: &mut Manager, pod: Pod) -> (result: Result<StateMachineTest, RegistryError>)
        ensures
            final(manager)@ == started(old(manager)@, pod@).0,
            match result {
                Ok(run) => started(old(manager)@, pod@).1 is Ok && identity(pod@) == Some(run@.key)
                    && run@.pod == pod@ && run@.stage == initial(pod@),
                Err(error) => started(old(manager)@, pod@).1 == Err::<(), RegistryError>(error),
            },
    {
        let namespace = match &pod.namespace {
            Some(namespace) => namespace.clone(),
            None => {
                return Err(RegistryError::Configuration);
            },
        };
        let name = match &pod.name {
            Some(name) => name.clone(),
            None => {
                return Err(RegistryError::Configuration);
            },
        };
        match manager.transition(namespace.as_str(), name.as_str(), Phase::Pending) {
            Ok(_) => {},
            Err(error) => {
                return Err(error);
            },
        }
        let stage = Stage::first(&pod);
        if stage == Stage::Completed {
            match manager.transition(namespace.as_str(), name.as_str(), Phase::Running) {
                Ok(_) => {},
                Err(error) => {
                    return Err(error);
                },
            }
            match manager.transition(namespace.as_str(), name.as_str(), Phase::Completed) {
                Ok(_) => {},
                Err(error) => {
                    return Err(error);
                },
            }
        }
        Ok(StateMachineTest { namespace, name, pod, stage })
    }

    /// The namespace of the pod.
    pub fn namespace(&self) -> (namespace: &str)
        ensures
            namespace@ == self@.key.0,
    {
        self.namespace.as_str()
    }

    /// The name of the pod.
    pub fn name(&self) -> (name: &str)
        ensures
            name@ == self@.key.1,
    {
        self.name.as_str()
    }

    /// The pod that is run.
    pub fn pod(&self) -> (pod: &Pod)
        ensures
            pod@ == self@.pod,
    {
        &self.pod
    }

    /// The stage that the run is in.
    pub fn stage(&self) -> (stage: Stage)
        ensures
            stage == self@.stage,
            stage.wf(self@.pod),
    {
        proof {
            use_type_invariant(self);
        }
        self.stage
    }

    /// What the caller is to do next.
    pub fn action(&self) -> (action: Action)
        ensures
            action == self@.stage.pending(),
    {
        self.stage.action()
    }

    /// The image that the backend is to acquire, when that is the
    /// outstanding action: the image of the container that the action names.
    pub fn image(&self) -> (image: Option<&String>)
        ensures
            match self@.stage {
                Stage::ImagePull { container, .. } => image matches Some(text) && container
                    < self@.pod.containers.len() && text@
                    == self@.pod.containers[container as int].image,
                _ => image is None,
            },
    {
        proof {
            use_type_invariant(self);
        }
        match self.stage {
            Stage::ImagePull { container, .. } => Some(&self.pod.containers[container].image),
            _ => None,
        }
    }

    /// The volume that the backend is to mount, when that is the
    /// outstanding action: the volume of the container that the action names.
    pub fn volume_mount(&self) -> (volume_mount: Option<&VolumeMount>)
        ensures
            match self@.stage {
                Stage::VolumeMount { container, mount, .. } => volume_mount matches Some(volume)
                    && container < self@.pod.containers.len() && mount
                    < self@.pod.containers[container as int].volume_mounts.len() && volume@
                    == self@.pod.containers[container as int].volume_mounts[mount as int],
                _ => volume_mount is None,
            },
    {
        proof {
            use_type_invariant(self);
        }
        match self.stage {
            Stage::VolumeMount { container, mount, .. } => Some(
                &self.pod.containers[container].volume_mounts[mount],
            ),
            _ => None,
        }
    }

    /// Takes the run one step further: `event` is what came of the
    /// outstanding action.
    ///
    /// The run moves to the stage that follows on `event`, and the caller is
    /// told what to do next. When the run reaches its end by this step, the
    /// outcome is recorded with `manager`: success takes the pod through
    /// `Running` to `Completed`, a fatal error takes it to `Error` with the
    /// message of the error. If `manager` refuses that, because the pod is
    /// not registered or is in a phase that has no such edge, the refusal is
    /// answered and neither the run nor the registry changes.
    pub fn step(&mut self, manager: &mut Manager, event: &Event) -> (result: Result<
        Action,
        RegistryError,
    >)
        ensures
            final(self)@.key == old(self)@.key,
            final(self)@.pod == old(self)@.pod,
            final(manager)@ == recorded(
                old(manager)@,
                old(self)@.key,
                old(self)@.stage,
                step(old(self)@.pod, old(self)@.stage, *event),
                *event,
            ).0,
            match result {
                Ok(action) => final(self)@.stage == step(old(self)@.pod, old(self)@.stage, *event)
                    && action == final(self)@.stage.pending() && recorded(
                    old(manager)@,
                    old(self)@.key,
                    old(self)@.stage,
                    final(self)@.stage,
                    *event,
                ).1 is Ok,
                Err(error) => final(self)@.stage == old(self)@.stage && recorded(
                    old(manager)@,
                    old(self)@.key,
                    old(self)@.stage,
                    step(old(self)@.pod, old(self)@.stage, *event),
                    *event,
                ).1 == Err::<(), RegistryError>(error),
            },
    {
        proof {
            use_type_invariant(&*self);
        }
        let after = self.stage.next(&self.pod, event);
        if after == self.stage {
            return Ok(after.action());
        }
        match after {
            Stage::Completed => {
                match manager.transition(self.namespace.as_str(), self.name.as_str(), Phase::Running) {
                    Ok(_) => {},
                    Err(error) => {
                        return Err(error);
                    },
                }
                match manager.transition(self.namespace.as_str(), self.name.as_str(), Phase::Completed) {
                    Ok(_) => {},
                    Err(error) => {
                        return Err(error);
                    },
                }
            },
            Stage::Failed => {
                match event.fatal() {
                    Some(error) => {
                        match manager.fail(
                            self.namespace.as_str(),
                            self.name.as_str(),
                            error.message.as_str(),
                        ) {
                            Ok(_) => {},
                            Err(error) => {
                                return Err(error);
                            },
                        }
                    },
                    None => {},
                }
            },
            _ => {},
        }
        self.stage = after;
        Ok(after.action())
    }
}

/// A fatal error fails the pod with the message of the error: when the
/// error answers the outstanding action of a pending pod, the pod is in
/// `Error` afterwards, its message is the text of the error and the rest of
/// its metadata is as before; the run is over, and no operation follows.
pub proof fn lemma_fatal_is_recorded(registry: Registry, key: Key, pod: PodView, stage: Stage, event: Event)
    requires
        !stage.is_final(),
        step(pod, stage, event) == Stage::Failed,
        registry.contains_key(key),
        registry[key].status.phase == Phase::Pending,
    ensures
        event.fatal_text() is Some,
        recorded(registry, key, stage, Stage::Failed, event) == (
            stored(registry, key, registry[key].status.failed(event.fatal_text().unwrap())),
            Ok::<(), RegistryError>(()),
        ),
        Stage::Failed.pending() == Action::Abort,
{
    lemma_mount_from_is_mount(pod, 0, 0);
    match stage {
        Stage::VolumeMount { container, mount, .. } => {
            lemma_mount_from_is_mount(pod, container as int, mount + 1);
        },
        _ => {},
    }
}

/// The success of the last operation completes the pod: a pending pod is in
/// `Completed` afterwards, with its metadata as before.
pub proof fn lemma_success_is_recorded(registry: Registry, key: Key, pod: PodView, stage: Stage, event: Event)
    requires
        !stage.is_final(),
        step(pod, stage, event) == Stage::Completed,
        registry.contains_key(key),
        registry[key].status.phase == Phase::Pending,
    ensures
        recorded(registry, key, stage, Stage::Completed, event) == (
            stored(registry, key, registry[key].status.moved_to(Phase::Completed)),
            Ok::<(), RegistryError>(()),
        ),
{
    let running = stored(registry, key, registry[key].status.moved_to(Phase::Running));
    assert(stored(running, key, running[key].status.moved_to(Phase::Completed)) =~= stored(
        registry,
        key,
        registry[key].status.moved_to(Phase::Completed),
    ));
}

/// Retries and cooldowns do not show in the registry: an attempt that asks
/// to be retried, and a cooldown that succeeds, change nothing there.
pub proof fn lemma_retry_is_invisible(registry: Registry, key: Key, pod: PodView, stage: Stage)
    ensures
        recorded(
            registry,
            key,
            stage,
            step(pod, stage, Event::Attempted(Ok(Outcome::Retryable))),
            Event::Attempted(Ok(Outcome::Retryable)),
        ) == (registry, Ok::<(), RegistryError>(())),
        recorded(
            registry,
            key,
            stage,
            step(pod, stage, Event::CooledDown(Ok(()))),
            Event::CooledDown(Ok(())),
        ) == (registry, Ok::<(), RegistryError>(())),
{
}

/// A run touches no pod but its own, and evicts none: what the start of a
/// run and each of its steps leave in the registry holds every pod that was
/// registered, and every other pod as it was.
pub proof fn lemma_run_keeps_to_its_pod(
    registry: Registry,
    key: Key,
    other: Key,
    pod: PodView,
    before: Stage,
    after: Stage,
    event: Event,
)
    requires
        registry.contains_key(other),
    ensures
        recorded(registry, key, before, after, event).0.contains_key(other),
        other != key ==> recorded(registry, key, before, after, event).0[other] == registry[other],
        started(registry, pod).0.contains_key(other),
        identity(pod) != Some(other) ==> started(registry, pod).0[other] == registry[other],
{
}

/// A run moves its pod along the edges of the lifecycle graph and in no
/// other way: the phase in which the start of a run or one of its steps
/// leaves the pod is reached from the phase in which it found the pod by
/// edges of the graph, three at most.
pub proof fn lemma_run_follows_the_graph(
    registry: Registry,
    key: Key,
    pod: PodView,
    before: Stage,
    after: Stage,
    event: Event,
)
    requires
        registry.contains_key(key),
        identity(pod) == Some(key),
    ensures
        reaches(
            registry[key].status.phase,
            recorded(registry, key, before, after, event).0[key].status.phase,
            2,
        ),
        reaches(registry[key].status.phase, started(registry, pod).0[key].status.phase, 3),
{
    let phase = registry[key].status.phase;
    let by_step = recorded(registry, key, before, after, event).0[key].status.phase;
    let by_start = started(registry, pod).0[key].status.phase;
    lemma_reaches_by_edge(Phase::Running, Phase::Completed, Phase::Completed, 0);
    lemma_reaches_by_edge(Phase::Pending, Phase::Running, Phase::Completed, 1);
    if by_step != phase {
        if by_step == Phase::Error {
            lemma_reaches_by_edge(phase, Phase::Error, Phase::Error, 1);
        } else {
            assert(phase == Phase::Pending && by_step == Phase::Completed);
        }
    }
    if by_start != phase {
        if by_start == Phase::Pending {
            lemma_reaches_by_edge(phase, Phase::Pending, Phase::Pending, 2);
        } else {
            assert(by_start == Phase::Completed);
            lemma_reaches_by_edge(phase, Phase::Pending, Phase::Completed, 2);
        }
    }
}

} // verus!

//! The run of one pod as a state machine.
//!
//! The work on a pod is a sequence of operations on a backend: first the
//! image of every container is acquired, container by container, then every
//! volume of every container is mounted. A [`Stage`] says which operation is
//! outstanding. Whoever runs the machine performs the [`Action`] of the
//! stage, reports what came of it as an [`Event`], and gets the next stage.
//! The machine itself does no outside work and never waits.

use vstd::prelude::*;
use crate::api::Pod;
use crate::api::PodView;
use crate::provider::after_attempt;
use crate::provider::decide;
use crate::provider::Decision;
use crate::provider::FatalError;
use crate::provider::Outcome;
use crate::provider::RETRY_THRESHOLD;

verus! {

/// Where the run of a pod stands.
#[derive(Clone, Copy, Debug, PartialEq, Eq, Structural)]
pub enum Stage {
    /// The image of container `container` is to be acquired; `failures`
    /// attempts have failed in a row.
    ImagePull { container: usize, failures: u8 },
    /// Image acquisition for container `container` is cooling down.
    ImagePullBackoff { container: usize },
    /// Volume `mount` of container `container` is to be mounted; `failures`
    /// attempts have failed in a row.
    VolumeMount { container: usize, mount: usize, failures: u8 },
    /// Mounting volume `mount` of container `container` is cooling down.
    VolumeMountBackoff { container: usize, mount: usize },
    /// Every operation succeeded.
    Completed,
    /// An operation failed for good.
    Failed,
}

/// What the runner is to do next.
#[derive(Clone, Copy, Debug, PartialEq, Eq, Structural)]
pub enum Action {
    /// Acquire the image of container `container`.
    ImagePull { container: usize },
    /// Let image acquisition cool down.
    ImagePullBackoff,
    /// Mount volume `mount` of container `container`.
    VolumeMount { container: usize, mount: usize },
    /// Let volume mounting cool down.
    VolumeMountBackoff,
    /// Nothing is left to do: the run succeeded.
    Complete,
    /// Nothing is left to do: the run failed.
    Abort,
}

/// What came of the last action.
#[derive(Debug)]
pub enum Event {
    /// The answer to an attempt to acquire an image or to mount a volume.
    Attempted(Result<Outcome, FatalError>),
    /// The answer to a cooldown.
    CooledDown(Result<(), FatalError>),
}

impl Event {
    /// Whether the event reports a fatal error.
    pub open spec fn is_fatal(self) -> bool {
        match self {
            Event::Attempted(Err(_)) => true,
            Event::CooledDown(Err(_)) => true,
            _ => false,
        }
    }

    /// The text of the fatal error that the event reports, if it reports one.
    pub open spec fn fatal_text(self) -> Option<Seq<char>> {
        match self {
            Event::Attempted(Err(error)) => Some(error.message@),
            Event::CooledDown(Err(error)) => Some(error.message@),
            _ => None,
        }
    }

    /// The fatal error that the event reports, if it reports one.
    pub fn fatal(&self) -> (error: Option<&FatalError>)
        ensures
            match error {
                Some(error) => self.fatal_text() == Some(error.message@),
                None => self.fatal_text().is_none(),
            },
    {
        match self {
            Event::Attempted(Err(error)) => Some(error),
            Event::CooledDown(Err(error)) => Some(error),
            _ => None,
        }
    }
}

/// The first volume to mount among volume `mount` and those after it of
/// container `container`, and all volumes of the containers after it; if
/// there is none, the run is complete.
pub open spec fn mount_from(pod: PodView, container: int, mount: int) -> Stage
    decreases pod.containers.len() - container,
{
    if container < 0 || container >= pod.containers.len() {
        Stage::Completed
    } else if 0 <= mount < pod.containers[container].volume_mounts.len() {
        Stage::VolumeMount { container: container as usize, mount: mount as usize, failures: 0 }
    } else {
        mount_from(pod, container + 1, 0)
    }
}

/// The stage in which the images of the containers before `container` have
/// been acquired and nothing else.
pub open spec fn pull_from(pod: PodView, container: int) -> Stage {
    if 0 <= container < pod.containers.len() {
        Stage::ImagePull { container: container as usize, failures: 0 }
    } else {
        mount_from(pod, 0, 0)
    }
}

/// The stage in which the run of `pod` starts.
pub open spec fn initial(pod: PodView) -> Stage {
    pull_from(pod, 0)
}

/// The stage that follows `stage` when `event` is reported. An event that
/// does not answer the outstanding action changes nothing, and nothing
/// follows the end of a run.
pub open spec fn step(pod: PodView, stage: Stage, event: Event) -> Stage {
    match stage {
        Stage::ImagePull { container, failures } => match event {
            Event::Attempted(Ok(outcome)) => match decide(failures, outcome) {
                Decision::Proceed => pull_from(pod, container + 1),
                Decision::Retry { failures } => Stage::ImagePull { container, failures },
                Decision::Backoff => Stage::ImagePullBackoff { container },
            },
            Event::Attempted(Err(_)) => Stage::Failed,
            Event::CooledDown(_) => stage,
        },
        Stage::ImagePullBackoff { container } => match event {
            Event::CooledDown(Ok(_)) => Stage::ImagePull { container, failures: 0 },
            Event::CooledDown(Err(_)) => Stage::Failed,
            Event::Attempted(_) => stage,
        },
        Stage::VolumeMount { container, mount, failures } => match event {
            Event::Attempted(Ok(outcome)) => match decide(failures, outcome) {
                Decision::Proceed => mount_from(pod, container as int, mount + 1),
                Decision::Retry { failures } => Stage::VolumeMount { container, mount, failures },
                Decision::Backoff => Stage::VolumeMountBackoff { container, mount },
            },
            Event::Attempted(Err(_)) => Stage::Failed,
            Event::CooledDown(_) => stage,
        },
        Stage::VolumeMountBackoff { container, mount } => match event {
            Event::CooledDown(Ok(_)) => Stage::VolumeMount { container, mount, failures: 0 },
            Event::CooledDown(Err(_)) => Stage::Failed,
            Event::Attempted(_) => stage,
        },
        Stage::Completed => stage,
        Stage::Failed => stage,
    }
}

impl Stage {
    /// Whether the stage names an operation that `pod` has, with a count of
    /// failures that the retry policy allows.
    pub open spec fn wf(self, pod: PodView) -> bool {
        match self {
            Stage::ImagePull { container, failures } => container < pod.containers.len() && failures
                <= RETRY_THRESHOLD,
            Stage::ImagePullBackoff { container } => container < pod.containers.len(),
            Stage::VolumeMount { container, mount, failures } => container < pod.containers.len()
                && mount < pod.containers[container as int].volume_mounts.len() && failures
                <= RETRY_THRESHOLD,
            Stage::VolumeMountBackoff { container, mount } => container < pod.containers.len()
                && mount < pod.containers[container as int].volume_mounts.len(),
            Stage::Completed => true,
            Stage::Failed => true,
        }
    }

    /// What the runner is to do in this stage.
    pub open spec fn pending(self) -> Action {
        match self {
            Stage::ImagePull { container, .. } => Action::ImagePull { container },
            Stage::ImagePullBackoff { .. } => Action::ImagePullBackoff,
            Stage::VolumeMount { container, mount, .. } => Action::VolumeMount { container, mount },
            Stage::VolumeMountBackoff { .. } => Action::VolumeMountBackoff,
            Stage::Completed => Action::Complete,
            Stage::Failed => Action::Abort,
        }
    }

    /// Whether the run is over in this stage.
    pub open spec fn is_final(self) -> bool {
        self == Stage::Completed || self == Stage::Failed
    }

    /// What the runner is to do in this stage.
    pub fn action(self) -> (action: Action)
        ensures
            action == self.pending(),
    {
        match self {
            Stage::ImagePull { container, .. } => Action::ImagePull { container },
            Stage::ImagePullBackoff { .. } => Action::ImagePullBackoff,
            Stage::VolumeMount { container, mount, .. } => Action::VolumeMount { container, mount },
            Stage::VolumeMountBackoff { .. } => Action::VolumeMountBackoff,
            Stage::Completed => Action::Complete,
            Stage::Failed => Action::Abort,
        }
    }

    /// Finds the first volume to mount, starting at volume `mount` of
    /// container `container`.
    pub fn seek_mount(pod: &Pod, container: usize, mount: usize) -> (stage: Stage)
        ensures
            stage == mount_from(pod@, container as int, mount as int),
            stage.wf(pod@),
    {
        let mut c: usize = container;
        let mut m: usize = mount;
        while c < pod.containers.len()
            invariant
                mount_from(pod@, c as int, m as int) == mount_from(pod@, container as int, mount as int),
            decreases pod.containers@.len() - c,
        {
            if m < pod.containers[c].volume_mounts.len() {
                return Stage::VolumeMount { container: c, mount: m, failures: 0 };
            }
            c += 1;
            m = 0;
        }
        Stage::Completed
    }

    /// The stage in which the images of the containers before `container`
    /// have been acquired and nothing else.
    pub fn seek_pull(pod: &Pod, container: usize) -> (stage: Stage)
        ensures
            stage == pull_from(pod@, container as int),
            stage.wf(pod@),
    {
        if container < pod.containers.len() {
            Stage::ImagePull { container, failures: 0 }
        } else {
            Stage::seek_mount(pod, 0, 0)
        }
    }

    /// The stage in which the run of `pod` starts: the first image to
    /// acquire, else the first volume to mount, else the end.
    pub fn first(pod: &Pod) -> (stage: Stage)
        ensures
            stage == initial(pod@),
            stage.wf(pod@),
    {
        Stage::seek_pull(pod, 0)
    }

    /// The stage that follows this one when `event` is reported.
    ///
    /// A successful attempt moves on to the next operation. A retryable one
    /// is counted, and once the count goes over the threshold the operation
    /// cools down; after the cooldown it is tried again with nothing
    /// counted. A fatal error ends the run. An event that does not answer
    /// the outstanding action is ignored.
    pub fn next(self, pod: &Pod, event: &Event) -> (next: Stage)
        ensures
            next == step(pod@, self, *event),
            self.wf(pod@) ==> next.wf(pod@),
    {
        match self {
            Stage::ImagePull { container, failures } => match event {
                Event::Attempted(Ok(outcome)) => match after_attempt(failures, *outcome) {
                    Decision::Proceed => if container < pod.containers.len() {
                        Stage::seek_pull(pod, container + 1)
                    } else {
                        Stage::seek_mount(pod, 0, 0)
                    },
                    Decision::Retry { failures } => Stage::ImagePull { container, failures },
                    Decision::Backoff => Stage::ImagePullBackoff { container },
                },
                Event::Attempted(Err(_)) => Stage::Failed,
                Event::CooledDown(_) => self,
            },
            Stage::ImagePullBackoff { container } => match event {
                Event::CooledDown(Ok(_)) => Stage::ImagePull { container, failures: 0 },
                Event::CooledDown(Err(_)) => Stage::Failed,
                Event::Attempted(_) => self,
            },
            Stage::VolumeMount { container, mount, failures } => match event {
                Event::Attempted(Ok(outcome)) => match after_attempt(failures, *outcome) {
                    Decision::Proceed => if container >= pod.containers.len() {
                        Stage::Completed
                    } else if mount < pod.containers[container].volume_mounts.len() {
                        Stage::seek_mount(pod, container, mount + 1)
                    } else {
                        Stage::seek_mount(pod, container + 1, 0)
                    },
                    Decision::Retry { failures } => Stage::VolumeMount { container, mount, failures },
                    Decision::Backoff => Stage::VolumeMountBackoff { container, mount },
                },
                Event::Attempted(Err(_)) => Stage::Failed,
                Event::CooledDown(_) => self,
            },
            Stage::VolumeMountBackoff { container, mount } => match event {
                Event::CooledDown(Ok(_)) => Stage::VolumeMount { container, mount, failures: 0 },
                Event::CooledDown(Err(_)) => Stage::Failed,
                Event::Attempted(_) => self,
            },
            Stage::Completed => self,
            Stage::Failed => self,
        }
    }
}

/// An attempt that asks to be retried never ends a run: going over the
/// threshold brings a cooldown, not a failure.
pub proof fn lemma_retryable_is_absorbed(pod: PodView, stage: Stage)
    requires
        !stage.is_final(),
    ensures
        !step(pod, stage, Event::Attempted(Ok(Outcome::Retryable))).is_final(),
{
}

/// A fatal error that answers the outstanding action ends the run in
/// failure, at whatever operation the run stands.
pub proof fn lemma_fatal_ends_run(pod: PodView, stage: Stage, error: FatalError)
    requires
        !stage.is_final(),
    ensures
        stage.pending() is ImagePull || stage.pending() is VolumeMount ==> step(
            pod,
            stage,
            Event::Attempted(Err(error)),
        ) == Stage::Failed,
        stage.pending() is ImagePullBackoff || stage.pending() is VolumeMountBackoff ==> step(
            pod,
            stage,
            Event::CooledDown(Err(error)),
        ) == Stage::Failed,
{
}

/// The search for the next volume never comes back to an image.
pub proof fn lemma_mount_from_is_mount(pod: PodView, container: int, mount: int)
    ensures
        mount_from(pod, container, mount) is VolumeMount || mount_from(pod, container, mount)
            == Stage::Completed,
    decreases pod.containers.len() - container,
{
    if 0 <= container < pod.containers.len() && !(0 <= mount
        < pod.containers[container].volume_mounts.len()) {
        lemma_mount_from_is_mount(pod, container + 1, 0);
    }
}

/// Images come before volumes: once a run is at a volume, nothing that is
/// reported takes it back to an image.
pub proof fn lemma_images_before_volumes(pod: PodView, stage: Stage, event: Event)
    requires
        stage is VolumeMount || stage is VolumeMountBackoff,
    ensures
        !(step(pod, stage, event) is ImagePull),
        !(step(pod, stage, event) is ImagePullBackoff),
{
    match stage {
        Stage::VolumeMount { container, mount, .. } => {
            lemma_mount_from_is_mount(pod, container as int, mount + 1);
        },
        _ => {},
    }
}

/// What a run has come to: the stage that it is in, how many attempts were
/// made and how many cooldowns were taken.
pub struct Tally {
    pub stage: Stage,
    pub attempts: nat,
    pub cooldowns: nat,
}

/// What a run comes to from `stage` on when a runner carries it out against
/// a backend that answers the attempts with `replies`, one by one, and lets
/// every cooldown succeed. The runner stops when the run is over, or when an
/// attempt is due and no reply is left.
pub open spec fn carried_out(pod: PodView, stage: Stage, replies: Seq<Result<Outcome, FatalError>>) -> Tally
    decreases replies.len(), (if stage is ImagePullBackoff || stage is VolumeMountBackoff {
        1nat
    } else {
        0nat
    }),
{
    if stage is ImagePull || stage is VolumeMount {
        if replies.len() == 0 {
            Tally { stage, attempts: 0, cooldowns: 0 }
        } else {
            let rest = carried_out(pod, step(pod, stage, Event::Attempted(replies[0])), replies.drop_first());
            Tally { stage: rest.stage, attempts: rest.attempts + 1, cooldowns: rest.cooldowns }
        }
    } else if stage is ImagePullBackoff || stage is VolumeMountBackoff {
        let rest = carried_out(pod, step(pod, stage, Event::CooledDown(Ok(()))), replies);
        Tally { stage: rest.stage, attempts: rest.attempts, cooldowns: rest.cooldowns + 1 }
    } else {
        Tally { stage, attempts: 0, cooldowns: 0 }
    }
}

/// The answers of a backend that asks `count` times to be retried and then
/// succeeds.
pub open spec fn retried(count: nat) -> Seq<Result<Outcome, FatalError>> {
    Seq::new(count, |i: int| Ok::<Outcome, FatalError>(Outcome::Retryable)).push(Ok(Outcome::Success))
}

/// An image that is acquired at the attempt after `count` retryable ones
/// takes `count + 1` attempts, and one cooldown for every time that the
/// failures in a row go over the threshold. Then the run moves on.
pub proof fn lemma_pulls_and_cooldowns(pod: PodView, container: usize, failures: u8, count: nat)
    requires
        failures <= RETRY_THRESHOLD,
    ensures
        carried_out(pod, Stage::ImagePull { container, failures }, retried(count)) == (Tally {
            stage: pull_from(pod, container + 1),
            attempts: count + 1,
            cooldowns: ((failures + count) / (RETRY_THRESHOLD + 1)) as nat,
        }),
    decreases count,
{
    let stage = Stage::ImagePull { container, failures };
    let replies = retried(count);
    let next = step(pod, stage, Event::Attempted(replies[0]));
    if count == 0 {
        assert(replies.drop_first() =~= Seq::empty());
        lemma_mount_from_is_mount(pod, 0, 0);
        assert(next == pull_from(pod, container + 1));
        assert(carried_out(pod, next, Seq::empty()) == (Tally { stage: next, attempts: 0, cooldowns: 0 }));
    } else {
        let rest = retried((count - 1) as nat);
        assert(replies.drop_first() =~= rest);
        assert(replies[0] == Ok::<Outcome, FatalError>(Outcome::Retryable));
        if failures < RETRY_THRESHOLD {
            lemma_pulls_and_cooldowns(pod, container, (failures + 1) as u8, (count - 1) as nat);
            assert(next == (Stage::ImagePull { container, failures: (failures + 1) as u8 }));
        } else {
            lemma_pulls_and_cooldowns(pod, container, 0, (count - 1) as nat);
            let again = Stage::ImagePull { container, failures: 0 };
            assert(next == (Stage::ImagePullBackoff { container }));
            assert(step(pod, next, Event::CooledDown(Ok(()))) == again);
            assert(carried_out(pod, next, rest) == (Tally {
                stage: carried_out(pod, again, rest).stage,
                attempts: carried_out(pod, again, rest).attempts,
                cooldowns: carried_out(pod, again, rest).cooldowns + 1,
            }));
        }
    }
}

/// A volume that is mounted at the attempt after `count` retryable ones
/// takes `count + 1` attempts, and one cooldown for every time that the
/// failures in a row go over the threshold. Then the run moves on.
pub proof fn lemma_mounts_and_cooldowns(
    pod: PodView,
    container: usize,
    mount: usize,
    failures: u8,
    count: nat,
)
    requires
        failures <= RETRY_THRESHOLD,
    ensures
        carried_out(pod, Stage::VolumeMount { container, mount, failures }, retried(count)) == (Tally {
            stage: mount_from(pod, container as int, mount + 1),
            attempts: count + 1,
            cooldowns: ((failures + count) / (RETRY_THRESHOLD + 1)) as nat,
        }),
    decreases count,
{
    let stage = Stage::VolumeMount { container, mount, failures };
    let replies = retried(count);
    let next = step(pod, stage, Event::Attempted(replies[0]));
    if count == 0 {
        assert(replies.drop_first() =~= Seq::empty());
        lemma_mount_from_is_mount(pod, container as int, mount + 1);
        assert(next == mount_from(pod, container as int, mount + 1));
        assert(carried_out(pod, next, Seq::empty()) == (Tally { stage: next, attempts: 0, cooldowns: 0 }));
    } else {
        let rest = retried((count - 1) as nat);
        assert(replies.drop_first() =~= rest);
        assert(replies[0] == Ok::<Outcome, FatalError>(Outcome::Retryable));
        if failures < RETRY_THRESHOLD {
            lemma_mounts_and_cooldowns(pod, container, mount, (failures + 1) as u8, (count - 1) as nat);
            assert(next == (Stage::VolumeMount { container, mount, failures: (failures + 1) as u8 }));
        } else {
            lemma_mounts_and_cooldowns(pod, container, mount, 0, (count - 1) as nat);
            let again = Stage::VolumeMount { container, mount, failures: 0 };
            assert(next == (Stage::VolumeMountBackoff { container, mount }));
            assert(step(pod, next, Event::CooledDown(Ok(()))) == again);
            assert(carried_out(pod, next, rest) == (Tally {
                stage: carried_out(pod, again, rest).stage,
                attempts: carried_out(pod, again, rest).attempts,
                cooldowns: carried_out(pod, again, rest).cooldowns + 1,
            }));
        }
    }
}

/// Nothing is asked of the backend once a run is over: whatever answers the
/// backend has in store, no attempt is made and no cooldown is taken.
pub proof fn lemma_nothing_after_the_end(
    pod: PodView,
    stage: Stage,
    event: Event,
    replies: Seq<Result<Outcome, FatalError>>,
)
    requires
        stage.is_final(),
    ensures
        step(pod, stage, event) == stage,
        carried_out(pod, stage, replies) == (Tally { stage, attempts: 0, cooldowns: 0 }),
{
}

/// A fatal error is the last answer that is asked for: the attempt that it
/// answers is made, the run fails, and nothing follows, whatever answers the
/// backend has in store.
pub proof fn lemma_nothing_after_a_fatal_error(
    pod: PodView,
    stage: Stage,
    error: FatalError,
    replies: Seq<Result<Outcome, FatalError>>,
)
    requires
        stage is ImagePull || stage is VolumeMount,
    ensures
        carried_out(pod, stage, seq![Err::<Outcome, FatalError>(error)] + replies) == (Tally {
            stage: Stage::Failed,
            attempts: 1,
            cooldowns: 0,
        }),
{
    let all = seq![Err::<Outcome, FatalError>(error)] + replies;
    assert(all[0] == Err::<Outcome, FatalError>(error));
    assert(all.drop_first() =~= replies);
    assert(step(pod, stage, Event::Attempted(all[0])) == Stage::Failed);
    assert(carried_out(pod, Stage::Failed, replies) == (Tally {
        stage: Stage::Failed,
        attempts: 0,
        cooldowns: 0,
    }));
}

} // verus!

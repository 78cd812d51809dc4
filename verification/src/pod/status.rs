//! The lifecycle graph of a pod.
//!
//! A pod is in exactly one [`Phase`] at a time. Each phase has a marker type
//! of its own, and a [`Status`] tagged with a marker offers only the edges
//! that leave that phase, so that an edge outside the graph does not compile.
//! [`StatusWrapper`] is the union of the tagged statuses, for places that must
//! hold a pod in whatever phase it is in; its `transition` is the one point at
//! which a requested edge is checked at run time.
//!
//! | from             | on success | otherwise        |
//! |------------------|------------|------------------|
//! | Registered       | Pending    | Error            |
//! | Pending          | Running    | Error            |
//! | Running          | Completed  | Error            |
//! | Error            | Pending    | CrashLoopBackoff |
//! | CrashLoopBackoff |            | Error            |
//!
//! No edge leaves `Completed`. The image, volume and start phases are followed
//! container by container; for the pod as a whole they are tags without edges.

use vstd::prelude::*;
use crate::api::Report;
use crate::api::ReportView;

verus! {

/// The phases of a pod.
#[derive(Clone, Copy, Debug, PartialEq, Eq, Structural)]
pub enum Phase {
    Registered,
    Pending,
    ImagePullError,
    ImagePullBackoff,
    VolumeMount,
    VolumeError,
    Starting,
    Running,
    Error,
    CrashLoopBackoff,
    Completed,
}

impl Phase {
    /// Where a pod goes from this phase when its work succeeds.
    pub open spec fn success_edge(self) -> Option<Phase> {
        match self {
            Phase::Registered => Some(Phase::Pending),
            Phase::Pending => Some(Phase::Running),
            Phase::Running => Some(Phase::Completed),
            Phase::Error => Some(Phase::Pending),
            _ => None,
        }
    }

    /// Where a pod goes from this phase otherwise.
    pub open spec fn failure_edge(self) -> Option<Phase> {
        match self {
            Phase::Registered => Some(Phase::Error),
            Phase::Pending => Some(Phase::Error),
            Phase::Running => Some(Phase::Error),
            Phase::Error => Some(Phase::CrashLoopBackoff),
            Phase::CrashLoopBackoff => Some(Phase::Error),
            _ => None,
        }
    }

    /// Whether the graph has an edge from this phase to `to`.
    pub open spec fn edge(self, to: Phase) -> bool {
        self.success_edge() == Some(to) || self.failure_edge() == Some(to)
    }

    /// The phases that one edge leads to from this phase.
    pub open spec fn successors(self) -> Set<Phase> {
        Set::new(|to: Phase| self.edge(to))
    }

    /// The target of the success edge, if this phase has one.
    pub fn on_success(self) -> (next: Option<Phase>)
        ensures
            next == self.success_edge(),
    {
        match self {
            Phase::Registered => Some(Phase::Pending),
            Phase::Pending => Some(Phase::Running),
            Phase::Running => Some(Phase::Completed),
            Phase::Error => Some(Phase::Pending),
            _ => None,
        }
    }

    /// The target of the other edge, if this phase has one.
    pub fn on_failure(self) -> (next: Option<Phase>)
        ensures
            next == self.failure_edge(),
    {
        match self {
            Phase::Registered | Phase::Pending | Phase::Running | Phase::CrashLoopBackoff => Some(
                Phase::Error,
            ),
            Phase::Error => Some(Phase::CrashLoopBackoff),
            _ => None,
        }
    }

    /// Whether one edge leads from this phase to `to`.
    pub fn leads_to(self, to: Phase) -> (legal: bool)
        ensures
            legal == self.edge(to),
    {
        let by_success = match self.on_success() {
            Some(next) => next == to,
            None => false,
        };
        let by_failure = match self.on_failure() {
            Some(next) => next == to,
            None => false,
        };
        by_success || by_failure
    }

    /// The phases that one edge leads to from this phase, each once.
    pub fn list_successors(self) -> (targets: Vec<Phase>)
        ensures
            targets@.no_duplicates(),
            targets@.to_set() == self.successors(),
    {
        let mut targets: Vec<Phase> = Vec::new();
        match self.on_success() {
            Some(next) => {
                targets.push(next);
            },
            None => {},
        }
        match self.on_failure() {
            Some(next) => {
                targets.push(next);
            },
            None => {},
        }
        proof {
            assert forall|to: Phase| #[trigger] targets@.contains(to) == self.edge(to) by {
                if self.success_edge() == Some(to) {
                    assert(targets@[0] == to);
                }
                if self.failure_edge() == Some(to) {
                    assert(targets@[targets@.len() - 1] == to);
                }
            }
            assert(targets@.to_set() =~= self.successors());
        }
        targets
    }
}

/// Whether `to` is reached from `from` by at most `steps` edges of the graph.
pub open spec fn reaches(from: Phase, to: Phase, steps: nat) -> bool
    decreases steps,
{
    from == to || (steps > 0 && ((from.success_edge() matches Some(via) && reaches(
        via,
        to,
        (steps - 1) as nat,
    )) || (from.failure_edge() matches Some(via) && reaches(via, to, (steps - 1) as nat))))
}

/// What is reached from the far end of an edge is reached from its near
/// end with one edge more.
pub proof fn lemma_reaches_by_edge(from: Phase, via: Phase, to: Phase, steps: nat)
    requires
        from.edge(via),
        reaches(via, to, steps),
    ensures
        reaches(from, to, steps + 1),
{
    assert(reaches(via, to, ((steps + 1) - 1) as nat));
}

/// The edges of the graph, phase by phase: from each phase exactly the
/// listed phases can be reached by one edge, and no other.
pub proof fn lemma_edge_table()
    ensures
        Phase::Registered.successors() == set![Phase::Pending, Phase::Error],
        Phase::Pending.successors() == set![Phase::Running, Phase::Error],
        Phase::Running.successors() == set![Phase::Completed, Phase::Error],
        Phase::Error.successors() == set![Phase::Pending, Phase::CrashLoopBackoff],
        Phase::CrashLoopBackoff.successors() == set![Phase::Error],
        Phase::Completed.successors() == Set::<Phase>::empty(),
        Phase::ImagePullError.successors() == Set::<Phase>::empty(),
        Phase::ImagePullBackoff.successors() == Set::<Phase>::empty(),
        Phase::VolumeMount.successors() == Set::<Phase>::empty(),
        Phase::VolumeError.successors() == Set::<Phase>::empty(),
        Phase::Starting.successors() == Set::<Phase>::empty(),
{
    assert(Phase::Registered.successors() =~= set![Phase::Pending, Phase::Error]);
    assert(Phase::Pending.successors() =~= set![Phase::Running, Phase::Error]);
    assert(Phase::Running.successors() =~= set![Phase::Completed, Phase::Error]);
    assert(Phase::Error.successors() =~= set![Phase::Pending, Phase::CrashLoopBackoff]);
    assert(Phase::CrashLoopBackoff.successors() =~= set![Phase::Error]);
    assert(Phase::Completed.successors() =~= Set::<Phase>::empty());
    assert(Phase::ImagePullError.successors() =~= Set::<Phase>::empty());
    assert(Phase::ImagePullBackoff.successors() =~= Set::<Phase>::empty());
    assert(Phase::VolumeMount.successors() =~= Set::<Phase>::empty());
    assert(Phase::VolumeError.successors() =~= Set::<Phase>::empty());
    assert(Phase::Starting.successors() =~= Set::<Phase>::empty());
}

/// The agent knows of the pod.
#[derive(Debug, Default)]
pub struct Registered;

/// The pod is being provisioned: images are acquired and volumes mounted.
#[derive(Debug, Default)]
pub struct Pending;

/// An image could not be acquired.
#[derive(Debug, Default)]
pub struct ImagePullError;

/// Image acquisition failed repeatedly and is cooling down.
#[derive(Debug, Default)]
pub struct ImagePullBackoff;

/// Volumes are being mounted.
#[derive(Debug, Default)]
pub struct VolumeMount;

/// A volume could not be mounted.
#[derive(Debug, Default)]
pub struct VolumeError;

/// The pod is starting.
#[derive(Debug, Default)]
pub struct Starting;

/// The pod is running.
#[derive(Debug, Default)]
pub struct Running;

/// The pod failed.
#[derive(Debug, Default)]
pub struct Error;

/// The pod failed repeatedly and is cooling down.
#[derive(Debug, Default)]
pub struct CrashLoopBackoff;

/// The pod ran to its end.
#[derive(Debug, Default)]
pub struct Completed;

/// The status of a pod in the phase that `S` marks: the phase tag and the
/// reported metadata. A transition consumes the status and gives the next
/// one, which carries the metadata forward.
#[derive(Debug)]
pub struct Status<S> {
    state: S,
    inner: Report,
}

impl<S> Status<S> {
    /// The metadata that this status carries.
    pub closed spec fn report(&self) -> Report {
        self.inner
    }

    /// The metadata that this status carries.
    pub fn inner(&self) -> (report: &Report)
        ensures
            *report == self.report(),
    {
        &self.inner
    }

    /// Gives up the status for its metadata.
    pub fn into_inner(self) -> (report: Report)
        ensures
            report == self.report(),
    {
        self.inner
    }
}

impl Status<Registered> {
    /// The status of a pod that has just been registered.
    pub fn new(inner: Report) -> (status: Status<Registered>)
        ensures
            status.report() == inner,
    {
        Status { state: Registered, inner }
    }

    pub fn to_pending(self) -> (next: Status<Pending>)
        ensures
            next.report() == self.report(),
    {
        Status { state: Pending, inner: self.inner }
    }

    pub fn to_error(self, message: &str) -> (next: Status<Error>)
        ensures
            next.report()@ == self.report()@.with_message(message@),
    {
        Status { state: Error, inner: self.inner.with_message(message) }
    }
}

impl Status<Pending> {
    pub fn to_running(self) -> (next: Status<Running>)
        ensures
            next.report() == self.report(),
    {
        Status { state: Running, inner: self.inner }
    }

    pub fn to_error(self, message: &str) -> (next: Status<Error>)
        ensures
            next.report()@ == self.report()@.with_message(message@),
    {
        Status { state: Error, inner: self.inner.with_message(message) }
    }
}

impl Status<Running> {
    pub fn to_completed(self) -> (next: Status<Completed>)
        ensures
            next.report() == self.report(),
    {
        Status { state: Completed, inner: self.inner }
    }

    pub fn to_error(self, message: &str) -> (next: Status<Error>)
        ensures
            next.report()@ == self.report()@.with_message(message@),
    {
        Status { state: Error, inner: self.inner.with_message(message) }
    }
}

impl Status<Error> {
    pub fn to_pending(self) -> (next: Status<Pending>)
        ensures
            next.report() == self.report(),
    {
        Status { state: Pending, inner: self.inner }
    }

    pub fn to_crash_loop_backoff(self) -> (next: Status<CrashLoopBackoff>)
        ensures
            next.report() == self.report(),
    {
        Status { state: CrashLoopBackoff, inner: self.inner }
    }
}

impl Status<CrashLoopBackoff> {
    pub fn to_error(self, message: &str) -> (next: Status<Error>)
        ensures
            next.report()@ == self.report()@.with_message(message@),
    {
        Status { state: Error, inner: self.inner.with_message(message) }
    }
}

/// What a [`StatusWrapper`] says: the phase and the reported metadata.
pub struct StatusView {
    pub phase: Phase,
    pub report: ReportView,
}

impl StatusView {
    /// This status after an edge to `phase`: the metadata is carried forward.
    pub open spec fn moved_to(self, phase: Phase) -> StatusView {
        StatusView { phase, report: self.report }
    }

    /// This status after an edge to `Error` that records `message`.
    pub open spec fn failed(self, message: Seq<char>) -> StatusView {
        StatusView { phase: Phase::Error, report: self.report.with_message(message) }
    }
}

/// The status of a pod in whatever phase it is in.
#[derive(Debug)]
pub enum StatusWrapper {
    Registered(Status<Registered>),
    Pending(Status<Pending>),
    ImagePullError(Status<ImagePullError>),
    ImagePullBackoff(Status<ImagePullBackoff>),
    VolumeMount(Status<VolumeMount>),
    VolumeError(Status<VolumeError>),
    Starting(Status<Starting>),
    Running(Status<Running>),
    Error(Status<Error>),
    CrashLoopBackoff(Status<CrashLoopBackoff>),
    Completed(Status<Completed>),
}

/// A requested transition that the graph does not have. The status comes
/// back as it was.
#[derive(Debug)]
pub struct InvalidTransition {
    pub status: StatusWrapper,
    pub requested: Phase,
}

/// An edge that was asked for and that the graph does not have.
#[derive(Clone, Copy, Debug, PartialEq, Eq, Structural)]
pub struct Refused {
    pub from: Phase,
    pub to: Phase,
}

/// The status that is kept after an update answered with `answer`: the new
/// status, or the one that a rejection hands back.
pub open spec fn kept(answer: Result<StatusWrapper, InvalidTransition>) -> StatusWrapper {
    match answer {
        Ok(next) => next,
        Err(rejected) => rejected.status,
    }
}

/// What an update that was answered with `answer` reports to its caller.
pub open spec fn verdict(answer: Result<StatusWrapper, InvalidTransition>) -> Result<(), Refused> {
    match answer {
        Ok(_) => Ok(()),
        Err(rejected) => Err(Refused { from: rejected.status@.phase, to: rejected.requested }),
    }
}

impl View for StatusWrapper {
    type V = StatusView;

    open spec fn view(&self) -> StatusView {
        match self {
            StatusWrapper::Registered(s) => StatusView { phase: Phase::Registered, report: s.report()@ },
            StatusWrapper::Pending(s) => StatusView { phase: Phase::Pending, report: s.report()@ },
            StatusWrapper::ImagePullError(s) => StatusView {
                phase: Phase::ImagePullError,
                report: s.report()@,
            },
            StatusWrapper::ImagePullBackoff(s) => StatusView {
                phase: Phase::ImagePullBackoff,
                report: s.report()@,
            },
            StatusWrapper::VolumeMount(s) => StatusView { phase: Phase::VolumeMount, report: s.report()@ },
            StatusWrapper::VolumeError(s) => StatusView { phase: Phase::VolumeError, report: s.report()@ },
            StatusWrapper::Starting(s) => StatusView { phase: Phase::Starting, report: s.report()@ },
            StatusWrapper::Running(s) => StatusView { phase: Phase::Running, report: s.report()@ },
            StatusWrapper::Error(s) => StatusView { phase: Phase::Error, report: s.report()@ },
            StatusWrapper::CrashLoopBackoff(s) => StatusView {
                phase: Phase::CrashLoopBackoff,
                report: s.report()@,
            },
            StatusWrapper::Completed(s) => StatusView { phase: Phase::Completed, report: s.report()@ },
        }
    }
}

impl StatusWrapper {
    /// The status of a pod that has just been registered: the initial phase
    /// of the graph, with `inner` as its metadata.
    pub fn new(inner: Report) -> (status: StatusWrapper)
        ensures
            status@ == (StatusView { phase: Phase::Registered, report: inner@ }),
    {
        StatusWrapper::Registered(Status::<Registered>::new(inner))
    }

    /// The phase that the pod is in.
    pub fn phase(&self) -> (phase: Phase)
        ensures
            phase == self@.phase,
    {
        match self {
            StatusWrapper::Registered(_) => Phase::Registered,
            StatusWrapper::Pending(_) => Phase::Pending,
            StatusWrapper::ImagePullError(_) => Phase::ImagePullError,
            StatusWrapper::ImagePullBackoff(_) => Phase::ImagePullBackoff,
            StatusWrapper::VolumeMount(_) => Phase::VolumeMount,
            StatusWrapper::VolumeError(_) => Phase::VolumeError,
            StatusWrapper::Starting(_) => Phase::Starting,
            StatusWrapper::Running(_) => Phase::Running,
            StatusWrapper::Error(_) => Phase::Error,
            StatusWrapper::CrashLoopBackoff(_) => Phase::CrashLoopBackoff,
            StatusWrapper::Completed(_) => Phase::Completed,
        }
    }

    /// The metadata that the status carries.
    pub fn inner(&self) -> (report: &Report)
        ensures
            report@ == self@.report,
    {
        match self {
            StatusWrapper::Registered(s) => s.inner(),
            StatusWrapper::Pending(s) => s.inner(),
            StatusWrapper::ImagePullError(s) => s.inner(),
            StatusWrapper::ImagePullBackoff(s) => s.inner(),
            StatusWrapper::VolumeMount(s) => s.inner(),
            StatusWrapper::VolumeError(s) => s.inner(),
            StatusWrapper::Starting(s) => s.inner(),
            StatusWrapper::Running(s) => s.inner(),
            StatusWrapper::Error(s) => s.inner(),
            StatusWrapper::CrashLoopBackoff(s) => s.inner(),
            StatusWrapper::Completed(s) => s.inner(),
        }
    }

    /// Takes the edge to `target`, if the graph has it. The new status
    /// carries the metadata forward. If the graph has no such edge the
    /// request is rejected and the status is handed back unchanged.
    pub fn transition(self, target: Phase) -> (result: Result<StatusWrapper, InvalidTransition>)
        ensures
            self@.phase.edge(target) ==> (result matches Ok(next) && next@ == self@.moved_to(target)),
            !self@.phase.edge(target) ==> (result matches Err(rejected) && rejected.status == self
                && rejected.requested == target),
    {
        match self {
            StatusWrapper::Registered(s) => match target {
                Phase::Pending => Ok(StatusWrapper::Pending(s.to_pending())),
                Phase::Error => {
                    let message = s.inner().message.clone();
                    Ok(StatusWrapper::Error(s.to_error(message.as_str())))
                },
                _ => Err(InvalidTransition { status: StatusWrapper::Registered(s), requested: target }),
            },
            StatusWrapper::Pending(s) => match target {
                Phase::Running => Ok(StatusWrapper::Running(s.to_running())),
                Phase::Error => {
                    let message = s.inner().message.clone();
                    Ok(StatusWrapper::Error(s.to_error(message.as_str())))
                },
                _ => Err(InvalidTransition { status: StatusWrapper::Pending(s), requested: target }),
            },
            StatusWrapper::Running(s) => match target {
                Phase::Completed => Ok(StatusWrapper::Completed(s.to_completed())),
                Phase::Error => {
                    let message = s.inner().message.clone();
                    Ok(StatusWrapper::Error(s.to_error(message.as_str())))
                },
                _ => Err(InvalidTransition { status: StatusWrapper::Running(s), requested: target }),
            },
            StatusWrapper::Error(s) => match target {
                Phase::Pending => Ok(StatusWrapper::Pending(s.to_pending())),
                Phase::CrashLoopBackoff => Ok(
                    StatusWrapper::CrashLoopBackoff(s.to_crash_loop_backoff()),
                ),
                _ => Err(InvalidTransition { status: StatusWrapper::Error(s), requested: target }),
            },
            StatusWrapper::CrashLoopBackoff(s) => match target {
                Phase::Error => {
                    let message = s.inner().message.clone();
                    Ok(StatusWrapper::Error(s.to_error(message.as_str())))
                },
                _ => Err(
                    InvalidTransition { status: StatusWrapper::CrashLoopBackoff(s), requested: target },
                ),
            },
            other => Err(InvalidTransition { status: other, requested: target }),
        }
    }

    /// Takes the edge to `Error` and records `message`, if the graph has
    /// that edge from the current phase. Otherwise the request is rejected
    /// and the status is handed back unchanged.
    pub fn fail(self, message: &str) -> (result: Result<StatusWrapper, InvalidTransition>)
        ensures
            self@.phase.edge(Phase::Error) ==> (result matches Ok(next) && next@ == self@.failed(
                message@,
            )),
            !self@.phase.edge(Phase::Error) ==> (result matches Err(rejected) && rejected.status == self
                && rejected.requested == Phase::Error),
    {
        match self {
            StatusWrapper::Registered(s) => Ok(StatusWrapper::Error(s.to_error(message))),
            StatusWrapper::Pending(s) => Ok(StatusWrapper::Error(s.to_error(message))),
            StatusWrapper::Running(s) => Ok(StatusWrapper::Error(s.to_error(message))),
            StatusWrapper::CrashLoopBackoff(s) => Ok(StatusWrapper::Error(s.to_error(message))),
            other => Err(InvalidTransition { status: other, requested: Phase::Error }),
        }
    }
}

impl Clone for StatusWrapper {
    fn clone(&self) -> (copy: StatusWrapper)
        ensures
            copy@ == self@,
    {
        let inner = self.inner().clone();
        match self {
            StatusWrapper::Registered(_) => StatusWrapper::Registered(Status { state: Registered, inner }),
            StatusWrapper::Pending(_) => StatusWrapper::Pending(Status { state: Pending, inner }),
            StatusWrapper::ImagePullError(_) => StatusWrapper::ImagePullError(
                Status { state: ImagePullError, inner },
            ),
            StatusWrapper::ImagePullBackoff(_) => StatusWrapper::ImagePullBackoff(
                Status { state: ImagePullBackoff, inner },
            ),
            StatusWrapper::VolumeMount(_) => StatusWrapper::VolumeMount(
                Status { state: VolumeMount, inner },
            ),
            StatusWrapper::VolumeError(_) => StatusWrapper::VolumeError(
                Status { state: VolumeError, inner },
            ),
            StatusWrapper::Starting(_) => StatusWrapper::Starting(Status { state: Starting, inner }),
            StatusWrapper::Running(_) => StatusWrapper::Running(Status { state: Running, inner }),
            StatusWrapper::Error(_) => StatusWrapper::Error(Status { state: Error, inner }),
            StatusWrapper::CrashLoopBackoff(_) => StatusWrapper::CrashLoopBackoff(
                Status { state: CrashLoopBackoff, inner },
            ),
            StatusWrapper::Completed(_) => StatusWrapper::Completed(Status { state: Completed, inner }),
        }
    }
}

/// No transition leaves `Completed`: whatever phase is requested of a
/// completed pod, the graph has no such edge.
pub proof fn lemma_completed_is_terminal(target: Phase)
    ensures
        !Phase::Completed.edge(target),
{
}

} // verus!

//! The reduced lifecycle of a container: waiting, running, terminated.
//!
//! This is the three-phase form for backends that do not follow image and
//! volume work container by container. Its two edges are conversions between
//! the tagged statuses: a waiting container starts running, and a running one
//! terminates.

use vstd::prelude::*;
use vstd::std_specs::convert::FromSpec;
use vstd::std_specs::convert::FromSpecImpl;
use crate::api::Container;
use crate::api::Report;
use crate::api::ReportView;

verus! {

/// The phases of the reduced container lifecycle.
#[derive(Clone, Copy, Debug, PartialEq, Eq, Structural)]
pub enum Phase {
    Waiting,
    Running,
    Terminated,
}

/// The agent knows of the container.
#[derive(Debug, Default)]
pub struct Waiting;

/// The container is running.
#[derive(Debug, Default)]
pub struct Running;

/// The container has exited.
#[derive(Debug, Default)]
pub struct Terminated;

/// The status of a container in the phase that `S` marks.
#[derive(Debug)]
pub struct Status<S> {
    state: S,
    inner: Report,
}

impl<S> Status<S> {
    /// The metadata that this status carries.
    pub closed spec fn report(&self) -> Report {
        self.inner
    }

    /// The metadata that this status carries.
    pub fn inner(&self) -> (report: &Report)
        ensures
            *report == self.report(),
    {
        &self.inner
    }
}

impl From<Status<Waiting>> for Status<Running> {
    fn from(start: Status<Waiting>) -> (next: Status<Running>)
    {
        Status { state: Running, inner: start.inner }
    }
}

impl FromSpecImpl<Status<Waiting>> for Status<Running> {
    open spec fn obeys_from_spec() -> bool {
        true
    }

    closed spec fn from_spec(start: Status<Waiting>) -> Status<Running> {
        Status { state: Running, inner: start.inner }
    }
}

impl From<Status<Running>> for Status<Terminated> {
    fn from(start: Status<Running>) -> (next: Status<Terminated>)
    {
        Status { state: Terminated, inner: start.inner }
    }
}

impl FromSpecImpl<Status<Running>> for Status<Terminated> {
    open spec fn obeys_from_spec() -> bool {
        true
    }

    closed spec fn from_spec(start: Status<Running>) -> Status<Terminated> {
        Status { state: Terminated, inner: start.inner }
    }
}

/// A container that starts running keeps its metadata.
pub proof fn lemma_running_keeps_report(start: Status<Waiting>)
    ensures
        <Status<Running> as FromSpec<Status<Waiting>>>::from_spec(start).report() == start.report(),
{
}

/// A container that terminates keeps its metadata.
pub proof fn lemma_terminated_keeps_report(start: Status<Running>)
    ensures
        <Status<Terminated> as FromSpec<Status<Running>>>::from_spec(start).report() == start.report(),
{
}

/// What a [`StatusWrapper`] says: the phase and the reported metadata.
pub struct StatusView {
    pub phase: Phase,
    pub report: ReportView,
}

/// The status of a container in whatever phase it is in.
#[derive(Debug)]
pub enum StatusWrapper {
    Waiting(Status<Waiting>),
    Running(Status<Running>),
    Terminated(Status<Terminated>),
}

impl View for StatusWrapper {
    type V = StatusView;

    open spec fn view(&self) -> StatusView {
        match self {
            StatusWrapper::Waiting(s) => StatusView { phase: Phase::Waiting, report: s.report()@ },
            StatusWrapper::Running(s) => StatusView { phase: Phase::Running, report: s.report()@ },
            StatusWrapper::Terminated(s) => StatusView { phase: Phase::Terminated, report: s.report()@ },
        }
    }
}

impl StatusWrapper {
    /// The status of a container that has just been registered: it waits,
    /// and nothing has been reported about it.
    pub fn new(container: &Container) -> (status: StatusWrapper)
        ensures
            status@ == (StatusView { phase: Phase::Waiting, report: ReportView::blank() }),
    {
        let inner = Report::new();
        StatusWrapper::Waiting(Status { state: Waiting, inner })
    }

    /// The phase that the container is in.
    pub fn phase(&self) -> (phase: Phase)
        ensures
            phase == self@.phase,
    {
        match self {
            StatusWrapper::Waiting(_) => Phase::Waiting,
            StatusWrapper::Running(_) => Phase::Running,
            StatusWrapper::Terminated(_) => Phase::Terminated,
        }
    }

    /// The metadata that the status carries.
    pub fn inner(&self) -> (report: &Report)
        ensures
            report@ == self@.report,
    {
        match self {
            StatusWrapper::Waiting(s) => s.inner(),
            StatusWrapper::Running(s) => s.inner(),
            StatusWrapper::Terminated(s) => s.inner(),
        }
    }
}

impl Clone for StatusWrapper {
    fn clone(&self) -> (copy: StatusWrapper)
        ensures
            copy@ == self@,
    {
        let inner = self.inner().clone();
        match self {
            StatusWrapper::Waiting(_) => StatusWrapper::Waiting(Status { state: Waiting, inner }),
            StatusWrapper::Running(_) => StatusWrapper::Running(Status { state: Running, inner }),
            StatusWrapper::Terminated(_) => StatusWrapper::Terminated(
                Status { state: Terminated, inner },
            ),
        }
    }
}

} // verus!

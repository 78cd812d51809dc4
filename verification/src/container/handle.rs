//! The record that the agent keeps of one container.

use vstd::prelude::*;
use crate::api::Container;
use crate::api::ContainerView;
use crate::api::ReportView;
use crate::container::status::Phase;
use crate::container::status::StatusView;
use crate::container::status::StatusWrapper;

verus! {

/// One container of a registered pod: the container as it was declared and
/// its current status. A handle belongs to the handle of its pod.
#[derive(Debug)]
pub struct Handle {
    container: Container,
    status: StatusWrapper,
}

/// What a container [`Handle`] holds.
pub struct HandleView {
    pub container: ContainerView,
    pub status: StatusView,
}

impl HandleView {
    /// What the handle of a container holds at registration: the container
    /// as declared, in the initial phase, with nothing reported.
    pub open spec fn fresh(container: ContainerView) -> HandleView {
        HandleView {
            container,
            status: StatusView { phase: Phase::Waiting, report: ReportView::blank() },
        }
    }
}

impl View for Handle {
    type V = HandleView;

    closed spec fn view(&self) -> HandleView {
        HandleView { container: self.container@, status: self.status@ }
    }
}

impl Handle {
    /// The handle of a container that has just been registered.
    pub fn new(container: Container) -> (handle: Handle)
        ensures
            handle@ == HandleView::fresh(container@),
    {
        let status = StatusWrapper::new(&container);
        Handle { container, status }
    }

    /// The container as it was declared.
    pub fn container(&self) -> (container: &Container)
        ensures
            container@ == self@.container,
    {
        &self.container
    }

    /// The current status of the container.
    pub fn status(&self) -> (status: &StatusWrapper)
        ensures
            status@ == self@.status,
    {
        &self.status
    }
}

impl Clone for Handle {
    fn clone(&self) -> (copy: Handle)
        ensures
            copy@ == self@,
    {
        Handle { container: self.container.clone(), status: self.status.clone() }
    }
}

} // verus!

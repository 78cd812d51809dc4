//! The lifecycle graph of a container.
//!
//! A container goes through the phases of a pod, with image and volume work
//! told apart. Each phase has a marker type, and a [`Status`] tagged with a
//! marker offers exactly the edges that leave that phase; every edge carries
//! the reported metadata forward unchanged.
//!
//! | from             | to                               |
//! |------------------|----------------------------------|
//! | Registered       | ImagePull                        |
//! | ImagePull        | Volume, ImagePullError           |
//! | ImagePullError   | ImagePull, ImagePullBackoff      |
//! | ImagePullBackoff | ImagePull                        |
//! | Volume           | Starting, VolumeError            |
//! | Starting         | Running                          |
//! | Running          | Completed, Error                 |
//! | Error            | Starting, CrashLoopBackoff       |
//! | CrashLoopBackoff | Starting                         |
//!
//! No edge leaves `VolumeError` or `Completed`.

pub mod handle;
pub mod status;

use vstd::prelude::*;
use crate::api::Report;

verus! {

/// The agent knows of the container.
#[derive(Debug, Default)]
pub struct Registered;

/// The image of the container is being acquired.
#[derive(Debug, Default)]
pub struct ImagePull;

/// Acquiring the image failed.
#[derive(Debug, Default)]
pub struct ImagePullError;

/// Acquiring the image failed several times.
#[derive(Debug, Default)]
pub struct ImagePullBackoff;

/// The volumes are being made and mounted.
#[derive(Debug, Default)]
pub struct Volume;

/// Making or mounting a volume failed.
#[derive(Debug, Default)]
pub struct VolumeError;

/// The container is starting.
#[derive(Debug, Default)]
pub struct Starting;

/// The container is running.
#[derive(Debug, Default)]
pub struct Running;

/// The container failed while it ran.
#[derive(Debug, Default)]
pub struct Error;

/// The container failed several times.
#[derive(Debug, Default)]
pub struct CrashLoopBackoff;

/// The container ran to its end.
#[derive(Debug, Default)]
pub struct Completed;

/// The status of a container in the phase that `S` marks: the phase tag and
/// the reported metadata.
#[derive(Debug)]
pub struct Status<S> {
    state: S,
    inner: Report,
}

impl<S> Status<S> {
    /// The metadata that this status carries.
    pub closed spec fn report(&self) -> Report {
        self.inner
    }

    /// The metadata that this status carries.
    pub fn inner(&self) -> (report: &Report)
        ensures
            *report == self.report(),
    {
        &self.inner
    }

    /// Gives up the status for its metadata.
    pub fn into_inner(self) -> (report: Report)
        ensures
            report == self.report(),
    {
        self.inner
    }
}

impl Status<Registered> {
    /// The status of a container that has just been registered.
    pub fn new(inner: Report) -> (status: Status<Registered>)
        ensures
            status.report() == inner,
    {
        Status { state: Registered, inner }
    }

    /// The image of the container is to be acquired.
    pub fn to_image_pull(self) -> (next: Status<ImagePull>)
        ensures
            next.report() == self.report(),
    {
        Status { state: ImagePull, inner: self.inner }
    }
}

impl Status<ImagePull> {
    /// The image could not be acquired.
    pub fn to_image_pull_error(self) -> (next: Status<ImagePullError>)
        ensures
            next.report() == self.report(),
    {
        Status { state: ImagePullError, inner: self.inner }
    }

    /// The image is there; the volumes are next.
    pub fn to_volume(self) -> (next: Status<Volume>)
        ensures
            next.report() == self.report(),
    {
        Status { state: Volume, inner: self.inner }
    }
}

impl Status<ImagePullError> {
    /// The image is asked for again.
    pub fn to_image_pull(self) -> (next: Status<ImagePull>)
        ensures
            next.report() == self.report(),
    {
        Status { state: ImagePull, inner: self.inner }
    }

    /// The failures add up; image acquisition cools down.
    pub fn to_image_pull_backoff(self) -> (next: Status<ImagePullBackoff>)
        ensures
            next.report() == self.report(),
    {
        Status { state: ImagePullBackoff, inner: self.inner }
    }
}

impl Status<ImagePullBackoff> {
    /// The cooldown is over; the image is asked for again.
    pub fn to_image_pull(self) -> (next: Status<ImagePull>)
        ensures
            next.report() == self.report(),
    {
        Status { state: ImagePull, inner: self.inner }
    }
}

impl Status<Volume> {
    /// A volume could not be mounted.
    pub fn to_volume_error(self) -> (next: Status<VolumeError>)
        ensures
            next.report() == self.report(),
    {
        Status { state: VolumeError, inner: self.inner }
    }

    /// The volumes are mounted; the container starts.
    pub fn to_starting(self) -> (next: Status<Starting>)
        ensures
            next.report() == self.report(),
    {
        Status { state: Starting, inner: self.inner }
    }
}

impl Status<Starting> {
    /// The container has started.
    pub fn to_running(self) -> (next: Status<Running>)
        ensures
            next.report() == self.report(),
    {
        Status { state: Running, inner: self.inner }
    }
}

impl Status<Running> {
    /// The container failed while it ran.
    pub fn to_error(self) -> (next: Status<Error>)
        ensures
            next.report() == self.report(),
    {
        Status { state: Error, inner: self.inner }
    }

    /// The container ran to its end.
    pub fn to_completed(self) -> (next: Status<Completed>)
        ensures
            next.report() == self.report(),
    {
        Status { state: Completed, inner: self.inner }
    }
}

impl Status<Error> {
    /// The container is started again.
    pub fn to_starting(self) -> (next: Status<Starting>)
        ensures
            next.report() == self.report(),
    {
        Status { state: Starting, inner: self.inner }
    }

    /// The failures add up; the container cools down.
    pub fn to_crash_loop_backoff(self) -> (next: Status<CrashLoopBackoff>)
        ensures
            next.report() == self.report(),
    {
        Status { state: CrashLoopBackoff, inner: self.inner }
    }
}

impl Status<CrashLoopBackoff> {
    /// The cooldown is over; the container is started again.
    pub fn to_starting(self) -> (next: Status<Starting>)
        ensures
            next.report() == self.report(),
    {
        Status { state: Starting, inner: self.inner }
    }
}

} // verus!

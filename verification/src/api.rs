//! The declarative description of a pod, held as plain values: what the
//! lifecycle engine reads of a pod, its containers and their volume mounts,
//! together with the metadata that a backend reports about them.

use vstd::prelude::*;

verus! {

/// The mathematical content of an optional string.
pub open spec fn text_of(value: Option<String>) -> Option<Seq<char>> {
    match value {
        Some(text) => Some(text@),
        None => None,
    }
}

/// Metadata that a backend reports about a pod or a container. A status
/// carries it along unchanged from phase to phase, unless a transition says
/// otherwise.
#[derive(Debug)]
pub struct Report {
    pub message: String,
    pub reason: String,
    pub started_at: Option<u64>,
    pub finished_at: Option<u64>,
}

pub struct ReportView {
    pub message: Seq<char>,
    pub reason: Seq<char>,
    pub started_at: Option<u64>,
    pub finished_at: Option<u64>,
}

impl ReportView {
    /// The report that says nothing.
    pub open spec fn blank() -> ReportView {
        ReportView { message: Seq::empty(), reason: Seq::empty(), started_at: None, finished_at: None }
    }

    /// This report with its message replaced.
    pub open spec fn with_message(self, message: Seq<char>) -> ReportView {
        ReportView { message, ..self }
    }
}

impl View for Report {
    type V = ReportView;

    open spec fn view(&self) -> ReportView {
        ReportView {
            message: self.message@,
            reason: self.reason@,
            started_at: self.started_at,
            finished_at: self.finished_at,
        }
    }
}

impl Report {
    /// A report with empty texts and no timestamps.
    pub fn new() -> (report: Report)
        ensures
            report@ == ReportView::blank(),
    {
        Report { message: String::new(), reason: String::new(), started_at: None, finished_at: None }
    }

    /// The same report with `message` as its message.
    pub fn with_message(self, message: &str) -> (report: Report)
        ensures
            report@ == self@.with_message(message@),
    {
        Report {
            message: message.to_owned(),
            reason: self.reason,
            started_at: self.started_at,
            finished_at: self.finished_at,
        }
    }
}

impl Clone for Report {
    fn clone(&self) -> (copy: Report)
        ensures
            copy@ == self@,
    {
        Report {
            message: self.message.clone(),
            reason: self.reason.clone(),
            started_at: self.started_at,
            finished_at: self.finished_at,
        }
    }
}

/// One volume that a container wants mounted.
#[derive(Debug)]
pub struct VolumeMount {
    pub name: String,
    pub mount_path: String,
    pub read_only: bool,
}

pub struct VolumeMountView {
    pub name: Seq<char>,
    pub mount_path: Seq<char>,
    pub read_only: bool,
}

impl View for VolumeMount {
    type V = VolumeMountView;

    open spec fn view(&self) -> VolumeMountView {
        VolumeMountView { name: self.name@, mount_path: self.mount_path@, read_only: self.read_only }
    }
}

impl Clone for VolumeMount {
    fn clone(&self) -> (copy: VolumeMount)
        ensures
            copy@ == self@,
    {
        VolumeMount {
            name: self.name.clone(),
            mount_path: self.mount_path.clone(),
            read_only: self.read_only,
        }
    }
}

/// The views of a sequence of volume mounts, in order.
pub open spec fn mounts_view(mounts: Seq<VolumeMount>) -> Seq<VolumeMountView> {
    Seq::new(mounts.len(), |i: int| mounts[i]@)
}

/// One container of a pod: its name, the image to acquire and the volumes
/// to mount before it can start.
#[derive(Debug)]
pub struct Container {
    pub name: String,
    pub image: String,
    pub volume_mounts: Vec<VolumeMount>,
}

pub struct ContainerView {
    pub name: Seq<char>,
    pub image: Seq<char>,
    pub volume_mounts: Seq<VolumeMountView>,
}

impl View for Container {
    type V = ContainerView;

    open spec fn view(&self) -> ContainerView {
        ContainerView {
            name: self.name@,
            image: self.image@,
            volume_mounts: mounts_view(self.volume_mounts@),
        }
    }
}

impl Clone for Container {
    fn clone(&self) -> (copy: Container)
        ensures
            copy@ == self@,
    {
        let mut volume_mounts: Vec<VolumeMount> = Vec::new();
        let mut i: usize = 0;
        while i < self.volume_mounts.len()
            invariant
                i <= self.volume_mounts.len(),
                volume_mounts.len() == i,
                forall|j: int| 0 <= j < i ==> volume_mounts@[j]@ == self.volume_mounts@[j]@,
            decreases self.volume_mounts.len() - i,
        {
            volume_mounts.push(self.volume_mounts[i].clone());
            i += 1;
        }
        assert(mounts_view(volume_mounts@) =~= mounts_view(self.volume_mounts@));
        Container { name: self.name.clone(), image: self.image.clone(), volume_mounts }
    }
}

/// The views of a sequence of containers, in order.
pub open spec fn containers_view(containers: Seq<Container>) -> Seq<ContainerView> {
    Seq::new(containers.len(), |i: int| containers[i]@)
}

/// A pod as the agent observes it. Namespace and name identify the pod;
/// either may be missing from what was observed, and such a pod cannot be
/// registered.
#[derive(Debug)]
pub struct Pod {
    pub namespace: Option<String>,
    pub name: Option<String>,
    pub containers: Vec<Container>,
    pub status: Report,
}

pub struct PodView {
    pub namespace: Option<Seq<char>>,
    pub name: Option<Seq<char>>,
    pub containers: Seq<ContainerView>,
    pub status: ReportView,
}

impl View for Pod {
    type V = PodView;

    open spec fn view(&self) -> PodView {
        PodView {
            namespace: text_of(self.namespace),
            name: text_of(self.name),
            containers: containers_view(self.containers@),
            status: self.status@,
        }
    }
}

/// A copy of an optional string.
fn clone_text(value: &Option<String>) -> (copy: Option<String>)
    ensures
        text_of(copy) == text_of(*value),
{
    match value {
        Some(text) => Some(text.clone()),
        None => None,
    }
}

impl Clone for Pod {
    fn clone(&self) -> (copy: Pod)
        ensures
            copy@ == self@,
    {
        let mut containers: Vec<Container> = Vec::new();
        let mut i: usize = 0;
        while i < self.containers.len()
            invariant
                i <= self.containers.len(),
                containers.len() == i,
                forall|j: int| 0 <= j < i ==> containers@[j]@ == self.containers@[j]@,
            decreases self.containers.len() - i,
        {
            containers.push(self.containers[i].clone());
            i += 1;
        }
        assert(containers_view(containers@) =~= containers_view(self.containers@));
        Pod {
            namespace: clone_text(&self.namespace),
            name: clone_text(&self.name),
            containers,
            status: self.status.clone(),
        }
    }
}

} // verus!

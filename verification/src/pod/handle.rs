//! The record that the agent keeps of one pod.

use vstd::prelude::*;
use crate::api::containers_view;
use crate::api::ContainerView;
use crate::api::Pod;
use crate::api::PodView;
use crate::api::Report;
use crate::container::handle::Handle as ContainerHandle;
use crate::container::handle::HandleView as ContainerHandleView;
use crate::pod::status::kept;
use crate::pod::status::verdict;
use crate::pod::status::InvalidTransition;
use crate::pod::status::Phase;
use crate::pod::status::Refused;
use crate::pod::status::StatusView;
use crate::pod::status::StatusWrapper;

verus! {

/// The container handles that registration makes for the declared
/// containers: one for each name, holding the container declared last under
/// that name, in the initial phase.
pub open spec fn declared(containers: Seq<ContainerView>) -> Map<Seq<char>, ContainerHandleView>
    decreases containers.len(),
{
    if containers.len() == 0 {
        Map::empty()
    } else {
        declared(containers.drop_last()).insert(
            containers.last().name,
            ContainerHandleView::fresh(containers.last()),
        )
    }
}

/// The handles of `handles` by the name of their container.
spec fn by_name(handles: Seq<ContainerHandle>) -> Map<Seq<char>, ContainerHandleView>
    decreases handles.len(),
{
    if handles.len() == 0 {
        Map::empty()
    } else {
        by_name(handles.drop_last()).insert(handles.last()@.container.name, handles.last()@)
    }
}

/// Whether no two handles of `handles` are for containers of one name.
spec fn distinct_names(handles: Seq<ContainerHandle>) -> bool {
    forall|i: int, j: int|
        0 <= i < j < handles.len() ==> handles[i]@.container.name != handles[j]@.container.name
}

/// What a pod [`Handle`] holds.
pub struct HandleView {
    /// The pod as it was observed at registration.
    pub pod: PodView,
    /// The handle of each container, by the container's name.
    pub containers: Map<Seq<char>, ContainerHandleView>,
    /// The current status of the pod.
    pub status: StatusView,
}

impl HandleView {
    /// What the handle of a pod holds at registration: the pod as observed,
    /// a handle for each declared container, and the initial phase with the
    /// metadata that the pod came with.
    pub open spec fn fresh(pod: PodView) -> HandleView {
        HandleView {
            pod,
            containers: declared(pod.containers),
            status: StatusView { phase: Phase::Registered, report: pod.status },
        }
    }

    /// This handle with `status` as the status of the pod.
    pub open spec fn with_status(self, status: StatusView) -> HandleView {
        HandleView { status, ..self }
    }
}

/// One registered pod: the pod as it was observed, a handle for each of its
/// containers, and the current status of the pod. The container handles are
/// made at registration; none is added or removed afterwards.
#[derive(Debug)]
pub struct Handle {
    pod: Pod,
    containers: Vec<ContainerHandle>,
    status: StatusWrapper,
}

impl View for Handle {
    type V = HandleView;

    closed spec fn view(&self) -> HandleView {
        HandleView { pod: self.pod@, containers: by_name(self.containers@), status: self.status@ }
    }
}

/// A name is a key of `by_name` exactly if some handle is for a container of
/// that name.
proof fn lemma_by_name_keys(handles: Seq<ContainerHandle>, name: Seq<char>)
    ensures
        by_name(handles).contains_key(name) <==> exists|i: int|
            0 <= i < handles.len() && #[trigger] handles[i]@.container.name == name,
    decreases handles.len(),
{
    if handles.len() > 0 {
        let front = handles.drop_last();
        lemma_by_name_keys(front, name);
        if by_name(handles).contains_key(name) {
            if handles.last()@.container.name == name {
                assert(handles[handles.len() - 1]@.container.name == name);
            } else {
                let i = choose|i: int| 0 <= i < front.len() && #[trigger] front[i]@.container.name == name;
                assert(handles[i]@.container.name == name);
            }
        }
        if exists|i: int| 0 <= i < handles.len() && #[trigger] handles[i]@.container.name == name {
            let i = choose|i: int| 0 <= i < handles.len() && #[trigger] handles[i]@.container.name == name;
            if i < handles.len() - 1 {
                assert(front[i]@.container.name == name);
            }
        }
    }
}

/// Where names are distinct, each handle is what `by_name` holds under the
/// name of its container.
proof fn lemma_by_name_value(handles: Seq<ContainerHandle>, i: int)
    requires
        distinct_names(handles),
        0 <= i < handles.len(),
    ensures
        by_name(handles).contains_key(handles[i]@.container.name),
        by_name(handles)[handles[i]@.container.name] == handles[i]@,
    decreases handles.len(),
{
    let front = handles.drop_last();
    if i < handles.len() - 1 {
        assert(distinct_names(front)) by {
            assert forall|a: int, b: int| 0 <= a < b < front.len() implies front[a]@.container.name
                != front[b]@.container.name by {
                assert(front[a] == handles[a] && front[b] == handles[b]);
            }
        }
        lemma_by_name_value(front, i);
        assert(front[i] == handles[i]);
    }
}

/// Replacing a handle by another for a container of the same name replaces
/// what `by_name` holds under that name, where names are distinct.
proof fn lemma_by_name_update(handles: Seq<ContainerHandle>, i: int, handle: ContainerHandle)
    requires
        distinct_names(handles),
        0 <= i < handles.len(),
        handle@.container.name == handles[i]@.container.name,
    ensures
        by_name(handles.update(i, handle)) == by_name(handles).insert(handle@.container.name, handle@),
        distinct_names(handles.update(i, handle)),
    decreases handles.len(),
{
    let updated = handles.update(i, handle);
    let front = handles.drop_last();
    if i == handles.len() - 1 {
        assert(updated.drop_last() =~= front);
        assert(by_name(updated) =~= by_name(handles).insert(handle@.container.name, handle@));
    } else {
        assert(distinct_names(front)) by {
            assert forall|a: int, b: int| 0 <= a < b < front.len() implies front[a]@.container.name
                != front[b]@.container.name by {
                assert(front[a] == handles[a] && front[b] == handles[b]);
            }
        }
        lemma_by_name_update(front, i, handle);
        assert(updated.drop_last() =~= front.update(i, handle));
        assert(front[i] == handles[i]);
        assert(handles.last()@.container.name != handles[i]@.container.name);
        assert(by_name(updated) =~= by_name(handles).insert(handle@.container.name, handle@));
    }
}

/// Handles with the same views, in the same order, are the same by name.
proof fn lemma_by_name_same(left: Seq<ContainerHandle>, right: Seq<ContainerHandle>)
    requires
        left.len() == right.len(),
        forall|i: int| 0 <= i < left.len() ==> left[i]@ == right[i]@,
    ensures
        by_name(left) == by_name(right),
        distinct_names(right) ==> distinct_names(left),
    decreases left.len(),
{
    if left.len() > 0 {
        lemma_by_name_same(left.drop_last(), right.drop_last());
    }
}

/// Registration makes a container handle for exactly the declared names:
/// a name has a handle if and only if some declared container bears it, and
/// that handle is for a container of that name, in the initial phase, with
/// nothing reported.
pub proof fn lemma_declared_keys(containers: Seq<ContainerView>, name: Seq<char>)
    ensures
        declared(containers).contains_key(name) <==> exists|i: int|
            0 <= i < containers.len() && #[trigger] containers[i].name == name,
        declared(containers).contains_key(name) ==> declared(containers)[name].container.name
            == name && declared(containers)[name] == ContainerHandleView::fresh(
            declared(containers)[name].container,
        ),
    decreases containers.len(),
{
    if containers.len() > 0 {
        let front = containers.drop_last();
        lemma_declared_keys(front, name);
        if declared(containers).contains_key(name) {
            if containers.last().name == name {
                assert(containers[containers.len() - 1].name == name);
            } else {
                let i = choose|i: int| 0 <= i < front.len() && #[trigger] front[i].name == name;
                assert(containers[i].name == name);
            }
        }
        if exists|i: int| 0 <= i < containers.len() && #[trigger] containers[i].name == name {
            let i = choose|i: int| 0 <= i < containers.len() && #[trigger] containers[i].name == name;
            if i < containers.len() - 1 {
                assert(front[i].name == name);
            }
        }
    }
}

impl Handle {
    /// Whether no two container handles are for containers of one name.
    #[verifier::type_invariant]
    spec fn distinct(&self) -> bool {
        distinct_names(self.containers@)
    }

    /// The index of the handle for the container named `name`, if there is one.
    fn position(containers: &Vec<ContainerHandle>, name: &String) -> (found: Option<usize>)
        ensures
            match found {
                Some(i) => i < containers.len() && containers@[i as int]@.container.name == name@,
                None => !by_name(containers@).contains_key(name@),
            },
    {
        let mut i: usize = 0;
        while i < containers.len()
            invariant
                i <= containers.len(),
                forall|j: int| 0 <= j < i ==> containers@[j]@.container.name != name@,
            decreases containers.len() - i,
        {
            if containers[i].container().name == *name {
                return Some(i);
            }
            i += 1;
        }
        proof {
            lemma_by_name_keys(containers@, name@);
        }
        None
    }

    /// The handle of a pod that has just been registered. It holds the pod
    /// as given, a handle in the initial phase for each declared container,
    /// and the initial phase of the pod with the metadata that the pod came
    /// with.
    pub fn new(pod: Pod) -> (handle: Handle)
        ensures
            handle@ == HandleView::fresh(pod@),
    {
        let mut containers: Vec<ContainerHandle> = Vec::new();
        let mut i: usize = 0;
        while i < pod.containers.len()
            invariant
                i <= pod.containers.len(),
                distinct_names(containers@),
                by_name(containers@) == declared(containers_view(pod.containers@).take(i as int)),
            decreases pod.containers.len() - i,
        {
            let ghost before = containers@;
            let ghost seen = containers_view(pod.containers@).take(i as int);
            let ghost seen_next = containers_view(pod.containers@).take(i + 1);
            let handle = ContainerHandle::new(pod.containers[i].clone());
            proof {
                assert(seen_next.drop_last() =~= seen);
                assert(seen_next.last() == pod.containers@[i as int]@);
            }
            match Self::position(&containers, &pod.containers[i].name) {
                Some(j) => {
                    proof {
                        lemma_by_name_update(before, j as int, handle);
                    }
                    containers.set(j, handle);
                },
                None => {
                    proof {
                        lemma_by_name_keys(before, handle@.container.name);
                    }
                    containers.push(handle);
                    proof {
                        assert(containers@.drop_last() =~= before);
                    }
                },
            }
            i += 1;
        }
        proof {
            assert(containers_view(pod.containers@).take(i as int) =~= containers_view(pod.containers@));
        }
        let status = StatusWrapper::new(pod.status.clone());
        Handle { pod, containers, status }
    }

    /// The pod as it was observed at registration.
    pub fn pod(&self) -> (pod: &Pod)
        ensures
            pod@ == self@.pod,
    {
        &self.pod
    }

    /// The current status of the pod.
    pub closed spec fn current(&self) -> StatusWrapper {
        self.status
    }

    /// The current status of the pod.
    pub fn status(&self) -> (status: &StatusWrapper)
        ensures
            *status == self.current(),
            status@ == self@.status,
    {
        &self.status
    }

    /// The phase that the pod is in.
    pub fn phase(&self) -> (phase: Phase)
        ensures
            phase == self@.status.phase,
    {
        self.status.phase()
    }

    /// The handle of the container named `name`, if the pod has one.
    pub fn container(&self, name: &str) -> (found: Option<&ContainerHandle>)
        ensures
            match found {
                Some(handle) => self@.containers.contains_key(name@) && handle@
                    == self@.containers[name@],
                None => !self@.containers.contains_key(name@),
            },
    {
        proof {
            use_type_invariant(self);
        }
        let name = name.to_owned();
        match Self::position(&self.containers, &name) {
            Some(i) => {
                proof {
                    lemma_by_name_value(self.containers@, i as int);
                }
                Some(&self.containers[i])
            },
            None => None,
        }
    }

    /// The names of the containers that have a handle, each once.
    pub fn container_names(&self) -> (names: Vec<String>)
        ensures
            forall|i: int, j: int| 0 <= i < j < names.len() ==> names@[i]@ != names@[j]@,
            forall|name: Seq<char>|
                self@.containers.contains_key(name) <==> exists|i: int|
                    0 <= i < names.len() && #[trigger] names@[i]@ == name,
    {
        proof {
            use_type_invariant(self);
        }
        let mut names: Vec<String> = Vec::new();
        let mut i: usize = 0;
        while i < self.containers.len()
            invariant
                i <= self.containers.len(),
                names.len() == i,
                forall|j: int| 0 <= j < i ==> names@[j]@ == self.containers@[j]@.container.name,
            decreases self.containers.len() - i,
        {
            names.push(self.containers[i].container().name.clone());
            i += 1;
        }
        proof {
            assert forall|name: Seq<char>|
                self@.containers.contains_key(name) <==> exists|i: int|
                    0 <= i < names.len() && #[trigger] names@[i]@ == name by {
                lemma_by_name_keys(self.containers@, name);
                if self@.containers.contains_key(name) {
                    let i = choose|i: int|
                        0 <= i < self.containers@.len()
                            && #[trigger] self.containers@[i]@.container.name == name;
                    assert(names@[i]@ == name);
                }
                if exists|i: int| 0 <= i < names.len() && #[trigger] names@[i]@ == name {
                    let i = choose|i: int| 0 <= i < names.len() && #[trigger] names@[i]@ == name;
                    assert(self.containers@[i]@.container.name == name);
                }
            }
        }
        names
    }

    /// Replaces the status of the pod by what `f` makes of it.
    ///
    /// `f` is given the current status and answers with the next one, or
    /// with a rejection that hands a status back. Either way the status that
    /// `f` gave is kept; a rejection is reported to the caller by the edge
    /// that was refused. Nothing else of the handle changes. This function
    /// does not look at the lifecycle graph: it is for `f` to go by it, as
    /// [`StatusWrapper::transition`] does.
    pub fn update_status<F>(&mut self, f: F) -> (result: Result<(), Refused>) where
        F: FnOnce(StatusWrapper) -> Result<StatusWrapper, InvalidTransition>,

        requires
            call_requires(f, (old(self).current(),)),
        ensures
            final(self)@.pod == old(self)@.pod,
            final(self)@.containers == old(self)@.containers,
            exists|answer: Result<StatusWrapper, InvalidTransition>|
                #![trigger call_ensures(f, (old(self).current(),), answer)]
                call_ensures(f, (old(self).current(),), answer) && final(self).current() == kept(
                    answer,
                ) && result == verdict(answer),
    {
        proof {
            use_type_invariant(&*self);
        }
        let mut current = StatusWrapper::new(Report::new());
        std::mem::swap(&mut self.status, &mut current);
        let answer = f(current);
        let ghost given = answer;
        match answer {
            Ok(next) => {
                self.status = next;
                proof {
                    assert(call_ensures(f, (old(self).current(),), given) && self.current() == kept(given)
                        && Ok::<(), Refused>(()) == verdict(given));
                }
                Ok(())
            },
            Err(rejected) => {
                let refused = Refused { from: rejected.status.phase(), to: rejected.requested };
                self.status = rejected.status;
                proof {
                    assert(call_ensures(f, (old(self).current(),), given) && self.current() == kept(given)
                        && Err::<(), Refused>(refused) == verdict(given));
                }
                Err(refused)
            },
        }
    }

    /// Takes the edge to `target`, if the lifecycle graph has it from the
    /// current phase; the metadata is carried forward. Otherwise the handle
    /// stays as it is and the refused edge is reported.
    pub fn transition(&mut self, target: Phase) -> (result: Result<(), Refused>)
        ensures
            old(self)@.status.phase.edge(target) ==> result == Ok::<(), Refused>(()) && final(self)@
                == old(self)@.with_status(old(self)@.status.moved_to(target)),
            !old(self)@.status.phase.edge(target) ==> result == Err::<(), Refused>(
                Refused { from: old(self)@.status.phase, to: target },
            ) && final(self)@ == old(self)@,
    {
        let take_edge = |status: StatusWrapper| -> (answer: Result<StatusWrapper, InvalidTransition>)
            ensures
                status@.phase.edge(target) ==> (answer matches Ok(next) && next@ == status@.moved_to(
                    target,
                )),
                !status@.phase.edge(target) ==> (answer matches Err(rejected) && rejected.status
                    == status && rejected.requested == target),
            {
                status.transition(target)
            };
        self.update_status(take_edge)
    }

    /// Takes the edge to `Error` and records `message`, if the lifecycle
    /// graph has that edge from the current phase. Otherwise the handle
    /// stays as it is and the refused edge is reported.
    pub fn fail(&mut self, message: &str) -> (result: Result<(), Refused>)
        ensures
            old(self)@.status.phase.edge(Phase::Error) ==> result == Ok::<(), Refused>(())
                && final(self)@ == old(self)@.with_status(old(self)@.status.failed(message@)),
            !old(self)@.status.phase.edge(Phase::Error) ==> result == Err::<(), Refused>(
                Refused { from: old(self)@.status.phase, to: Phase::Error },
            ) && final(self)@ == old(self)@,
    {
        let take_edge = |status: StatusWrapper| -> (answer: Result<StatusWrapper, InvalidTransition>)
            ensures
                status@.phase.edge(Phase::Error) ==> (answer matches Ok(next) && next@
                    == status@.failed(message@)),
                !status@.phase.edge(Phase::Error) ==> (answer matches Err(rejected) && rejected.status
                    == status && rejected.requested == Phase::Error),
            {
                status.fail(message)
            };
        self.update_status(take_edge)
    }
}

/// The status that a handle holds is the status that its view shows.
pub proof fn lemma_current_status(handle: Handle)
    ensures
        handle.current()@ == handle@.status,
{
}

impl Clone for Handle {
    fn clone(&self) -> (copy: Handle)
        ensures
            copy@ == self@,
    {
        proof {
            use_type_invariant(self);
        }
        let mut containers: Vec<ContainerHandle> = Vec::new();
        let mut i: usize = 0;
        while i < self.containers.len()
            invariant
                i <= self.containers.len(),
                containers.len() == i,
                forall|j: int| 0 <= j < i ==> containers@[j]@ == self.containers@[j]@,
            decreases self.containers.len() - i,
        {
            containers.push(self.containers[i].clone());
            i += 1;
        }
        proof {
            lemma_by_name_same(containers@, self.containers@);
        }
        Handle { pod: self.pod.clone(), containers, status: self.status.clone() }
    }
}

} // verus!

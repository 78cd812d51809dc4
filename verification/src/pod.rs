//! The registry of pod handles.
//!
//! A [`Manager`] maps the identity of a pod, its namespace and name, to the
//! handle of the pod. Pods are registered once and stay; the status of a
//! registered pod is replaced by updates, one at a time. The handles are kept
//! in a `dashmap::DashMap`. What is said of that map rests on the contracts of
//! the few functions below that call into it, which are stated and not
//! proved.

pub mod handle;
pub mod status;

use vstd::prelude::*;
use dashmap::DashMap;
use crate::api::Pod;
use crate::api::PodView;
use crate::pod::handle::lemma_current_status;
use crate::pod::handle::Handle;
use crate::pod::handle::HandleView;
use crate::pod::status::kept;
use crate::pod::status::verdict;
use crate::pod::status::InvalidTransition;
use crate::pod::status::Phase;
use crate::pod::status::Refused;
use crate::pod::status::StatusView;
use crate::pod::status::StatusWrapper;

verus! {

/// `dashmap::DashMap`, as a type whose values are carried about and never
/// looked into.
#[verifier::external_type_specification]
#[verifier::external_body]
#[verifier::reject_recursive_types(K)]
#[verifier::reject_recursive_types(V)]
#[verifier::reject_recursive_types(S)]
pub struct ExDashMap<K, V, S>(DashMap<K, V, S>);

/// The map that holds the handles, keyed by namespace and name.
pub type Handles = DashMap<(String, String), Handle>;

/// The identity of a pod: its namespace and its name.
pub type Key = (Seq<char>, Seq<char>);

/// What a registry holds: for each registered pod, what its handle holds.
pub type Registry = Map<(Seq<char>, Seq<char>), HandleView>;

/// What a map of handles holds: under the namespace and name of each key,
/// what the handle stored under that key holds.
pub uninterp spec fn entries(handles: DashMap<(String, String), Handle>) -> Map<(Seq<char>, Seq<char>), HandleView>;

/// The registry without a pod.
pub open spec fn no_entries() -> Registry {
    Map::empty()
}

/// The identity that `key` stands for.
pub open spec fn key_view(key: (String, String)) -> Key {
    (key.0@, key.1@)
}

/// `DashMap::new`: a map that holds nothing.
#[verifier::external_body]
fn handles_new() -> (handles: Handles)
    ensures
        entries(handles) == no_entries(),
{
    DashMap::new()
}

/// `DashMap::contains_key`: whether the map holds a handle under `key`.
#[verifier::external_body]
fn handles_contains(handles: &Handles, key: &(String, String)) -> (held: bool)
    ensures
        held == entries(*handles).contains_key(key_view(*key)),
{
    handles.contains_key(key)
}

/// `DashMap::insert`: afterwards the map holds `handle` under `key` and is
/// otherwise as before. The handle that was held under `key` before, if
/// there was one, is returned.
#[verifier::external_body]
fn handles_insert(handles: &mut Handles, key: (String, String), handle: Handle) -> (previous: Option<
    Handle,
>)
    ensures
        entries(*final(handles)) == entries(*old(handles)).insert(key_view(key), handle@),
        match previous {
            Some(before) => entries(*old(handles)).contains_key(key_view(key)) && before@ == entries(
                *old(handles),
            )[key_view(key)],
            None => !entries(*old(handles)).contains_key(key_view(key)),
        },
{
    handles.insert(key, handle)
}

/// `DashMap::view`: a copy of the handle that the map holds under `key`, if
/// it holds one. The map stays as it is.
#[verifier::external_body]
fn handles_peek(handles: &Handles, key: &(String, String)) -> (copy: Option<Handle>)
    ensures
        match copy {
            Some(handle) => entries(*handles).contains_key(key_view(*key)) && handle@ == entries(
                *handles,
            )[key_view(*key)],
            None => !entries(*handles).contains_key(key_view(*key)),
        },
{
    handles.view(key, |_, handle| handle.clone())
}

/// Why the registry refused a request.
#[derive(Clone, Copy, Debug, PartialEq, Eq, Structural)]
pub enum RegistryError {
    /// The pod has no namespace or no name, and so no identity.
    Configuration,
    /// A pod of this identity is registered already.
    AlreadyRegistered,
    /// No pod of this identity is registered.
    NotFound,
    /// The update asked for an edge that the lifecycle graph does not have.
    InvalidTransition(Refused),
}

/// The identity of `pod`, if it has both a namespace and a name.
pub open spec fn identity(pod: PodView) -> Option<Key> {
    match (pod.namespace, pod.name) {
        (Some(namespace), Some(name)) => Some((namespace, name)),
        _ => None,
    }
}

/// What registering `pod` makes of `registry`, and what it answers.
///
/// A pod without identity is refused, and so is one whose identity is taken.
/// Otherwise the registry gains a fresh handle for the pod.
pub open spec fn registered(registry: Registry, pod: PodView) -> (Registry, Result<(), RegistryError>) {
    match identity(pod) {
        None => (registry, Err(RegistryError::Configuration)),
        Some(key) => if registry.contains_key(key) {
            (registry, Err(RegistryError::AlreadyRegistered))
        } else {
            (registry.insert(key, HandleView::fresh(pod)), Ok(()))
        },
    }
}

/// `registry` with `status` stored as the status of the pod `key`. Nothing
/// else of that pod changes, and no other pod is touched.
pub open spec fn stored(registry: Registry, key: Key, status: StatusView) -> Registry {
    registry.insert(key, registry[key].with_status(status))
}

/// What asking for the edge to `target` for the pod `key` makes of
/// `registry`, and what it answers.
pub open spec fn moved(registry: Registry, key: Key, target: Phase) -> (Registry, Result<(), RegistryError>) {
    if !registry.contains_key(key) {
        (registry, Err(RegistryError::NotFound))
    } else if registry[key].status.phase.edge(target) {
        (stored(registry, key, registry[key].status.moved_to(target)), Ok(()))
    } else {
        (
            registry,
            Err(RegistryError::InvalidTransition(Refused { from: registry[key].status.phase, to: target })),
        )
    }
}

/// What reporting the failure `message` for the pod `key` makes of
/// `registry`, and what it answers.
pub open spec fn failed(registry: Registry, key: Key, message: Seq<char>) -> (Registry, Result<(), RegistryError>) {
    if !registry.contains_key(key) {
        (registry, Err(RegistryError::NotFound))
    } else if registry[key].status.phase.edge(Phase::Error) {
        (stored(registry, key, registry[key].status.failed(message)), Ok(()))
    } else {
        (
            registry,
            Err(
                RegistryError::InvalidTransition(
                    Refused { from: registry[key].status.phase, to: Phase::Error },
                ),
            ),
        )
    }
}

/// What a refused edge is to the caller of the registry.
pub open spec fn reported(outcome: Result<(), Refused>) -> Result<(), RegistryError> {
    match outcome {
        Ok(_) => Ok(()),
        Err(refused) => Err(RegistryError::InvalidTransition(refused)),
    }
}

/// Manages the handles of all pods.
pub struct Manager {
    handles: DashMap<(String, String), Handle>,
}

impl View for Manager {
    type V = Registry;

    closed spec fn view(&self) -> Registry {
        entries(self.handles)
    }
}

impl Manager {
    /// A registry without a pod.
    pub fn new() -> (manager: Manager)
        ensures
            manager@ == no_entries(),
    {
        Manager { handles: handles_new() }
    }

    /// Registers `pod` under its namespace and name, with a fresh handle.
    ///
    /// A pod that lacks a namespace or a name is refused as misconfigured,
    /// and a pod whose identity is registered already is refused too. A
    /// refusal leaves the registry as it was.
    pub fn register_pod(&mut self, pod: Pod) -> (result: Result<(), RegistryError>)
        ensures
            (final(self)@, result) == registered(old(self)@, pod@),
    {
        let namespace = match &pod.namespace {
            Some(namespace) => namespace.clone(),
            None => {
                return Err(RegistryError::Configuration);
            },
        };
        let name = match &pod.name {
            Some(name) => name.clone(),
            None => {
                return Err(RegistryError::Configuration);
            },
        };
        let key = (namespace, name);
        if handles_contains(&self.handles, &key) {
            return Err(RegistryError::AlreadyRegistered);
        }
        handles_insert(&mut self.handles, key, Handle::new(pod));
        Ok(())
    }

    /// Whether a pod is registered under `namespace` and `name`.
    pub fn contains(&self, namespace: &str, name: &str) -> (held: bool)
        ensures
            held == self@.contains_key((namespace@, name@)),
    {
        let key = (namespace.to_owned(), name.to_owned());
        handles_contains(&self.handles, &key)
    }

    /// A copy of the handle registered under `namespace` and `name`, as it
    /// is now.
    pub fn get(&self, namespace: &str, name: &str) -> (copy: Option<Handle>)
        ensures
            match copy {
                Some(handle) => self@.contains_key((namespace@, name@)) && handle@ == self@[(
                    namespace@,
                    name@,
                )],
                None => !self@.contains_key((namespace@, name@)),
            },
    {
        let key = (namespace.to_owned(), name.to_owned());
        handles_peek(&self.handles, &key)
    }

    /// Replaces the status of the pod registered under `namespace` and
    /// `name` by what `f` makes of it.
    ///
    /// If no such pod is registered, nothing happens and `NotFound` is
    /// answered. Otherwise `f` is given the current status once and answers
    /// with the next one, or with a rejection that hands a status back. The
    /// status that `f` gave is stored; a rejection is answered as
    /// `InvalidTransition`. No other pod is touched. The registry does not
    /// look at the lifecycle graph: it is for `f` to go by it.
    pub fn update_status<F>(&mut self, namespace: &str, name: &str, f: F) -> (result: Result<
        (),
        RegistryError,
    >) where F: FnOnce(StatusWrapper) -> Result<StatusWrapper, InvalidTransition>
        requires
            old(self)@.contains_key((namespace@, name@)) ==> forall|status: StatusWrapper|
                status@ == old(self)@[(namespace@, name@)].status ==> call_requires(f, (status,)),
        ensures
            !old(self)@.contains_key((namespace@, name@)) ==> result == Err::<(), RegistryError>(
                RegistryError::NotFound,
            ) && final(self)@ == old(self)@,
            old(self)@.contains_key((namespace@, name@)) ==> exists|
                status: StatusWrapper,
                answer: Result<StatusWrapper, InvalidTransition>,
            |
                #![trigger call_ensures(f, (status,), answer)]
                status@ == old(self)@[(namespace@, name@)].status && call_ensures(f, (status,), answer)
                    && final(self)@ == stored(old(self)@, (namespace@, name@), kept(answer)@) && result
                    == reported(verdict(answer)),
    {
        let key = (namespace.to_owned(), name.to_owned());
        match handles_peek(&self.handles, &key) {
            None => Err(RegistryError::NotFound),
            Some(copy) => {
                let mut handle = copy;
                let ghost before = handle;
                proof {
                    lemma_current_status(before);
                }
                let outcome = handle.update_status(f);
                proof {
                    lemma_current_status(handle);
                    let answer = choose|answer: Result<StatusWrapper, InvalidTransition>|
                        #![trigger call_ensures(f, (before.current(),), answer)]
                        call_ensures(f, (before.current(),), answer) && handle.current() == kept(
                            answer,
                        ) && outcome == verdict(answer);
                    assert(call_ensures(f, (before.current(),), answer));
                    assert(old(self)@.insert((namespace@, name@), handle@) =~= stored(
                        old(self)@,
                        (namespace@, name@),
                        kept(answer)@,
                    ));
                }
                handles_insert(&mut self.handles, key, handle);
                match outcome {
                    Ok(_) => Ok(()),
                    Err(refused) => Err(RegistryError::InvalidTransition(refused)),
                }
            },
        }
    }

    /// Asks for the edge to `target` for the pod registered under
    /// `namespace` and `name`.
    ///
    /// If no such pod is registered, `NotFound` is answered. If the
    /// lifecycle graph has no edge from the current phase of the pod to
    /// `target`, `InvalidTransition` is answered. Either refusal leaves the
    /// registry as it was. Otherwise the pod is in phase `target`
    /// afterwards, with its metadata carried forward, and no other pod is
    /// touched.
    pub fn transition(&mut self, namespace: &str, name: &str, target: Phase) -> (result: Result<
        (),
        RegistryError,
    >)
        ensures
            (final(self)@, result) == moved(old(self)@, (namespace@, name@), target),
    {
        let key = (namespace.to_owned(), name.to_owned());
        match handles_peek(&self.handles, &key) {
            None => Err(RegistryError::NotFound),
            Some(copy) => {
                let mut handle = copy;
                match handle.transition(target) {
                    Ok(_) => {
                        handles_insert(&mut self.handles, key, handle);
                        Ok(())
                    },
                    Err(refused) => Err(RegistryError::InvalidTransition(refused)),
                }
            },
        }
    }

    /// Reports the failure `message` for the pod registered under
    /// `namespace` and `name`: asks for the edge to `Error` and has the
    /// message recorded.
    ///
    /// If no such pod is registered, `NotFound` is answered. If the
    /// lifecycle graph has no edge from the current phase of the pod to
    /// `Error`, `InvalidTransition` is answered. Either refusal leaves the
    /// registry as it was. Otherwise the pod is in phase `Error` afterwards
    /// and its message is `message`; no other pod is touched.
    pub fn fail(&mut self, namespace: &str, name: &str, message: &str) -> (result: Result<
        (),
        RegistryError,
    >)
        ensures
            (final(self)@, result) == failed(old(self)@, (namespace@, name@), message@),
    {
        let key = (namespace.to_owned(), name.to_owned());
        match handles_peek(&self.handles, &key) {
            None => Err(RegistryError::NotFound),
            Some(copy) => {
                let mut handle = copy;
                match handle.fail(message) {
                    Ok(_) => {
                        handles_insert(&mut self.handles, key, handle);
                        Ok(())
                    },
                    Err(refused) => Err(RegistryError::InvalidTransition(refused)),
                }
            },
        }
    }
}

/// Two updates of one pod, one after the other: the second finds what the
/// first stored, and what the second stores is what stays. The pod is never
/// left with a mixture of the two.
pub proof fn lemma_updates_in_turn(registry: Registry, key: Key, first: StatusView, second: StatusView)
    requires
        registry.contains_key(key),
    ensures
        stored(registry, key, first)[key].status == first,
        stored(stored(registry, key, first), key, second) == stored(registry, key, second),
{
    assert(stored(stored(registry, key, first), key, second) =~= stored(registry, key, second));
}

/// Updates of two different pods do not meet: neither changes what is held
/// of the other pod, and in whichever order they come the registry ends the
/// same.
pub proof fn lemma_updates_apart(
    registry: Registry,
    one: Key,
    other: Key,
    status: StatusView,
    other_status: StatusView,
)
    requires
        one != other,
        registry.contains_key(one),
        registry.contains_key(other),
    ensures
        stored(registry, one, status)[other] == registry[other],
        stored(registry, other, other_status)[one] == registry[one],
        stored(stored(registry, one, status), other, other_status) == stored(
            stored(registry, other, other_status),
            one,
            status,
        ),
{
    assert(stored(stored(registry, one, status), other, other_status) =~= stored(
        stored(registry, other, other_status),
        one,
        status,
    ));
}

/// Once a pod is completed it stays so: whatever edge is asked for, and
/// whatever failure is reported, the request is refused as an invalid
/// transition and the registry stays as it is.
pub proof fn lemma_completed_stays(registry: Registry, key: Key, target: Phase, message: Seq<char>)
    requires
        registry.contains_key(key),
        registry[key].status.phase == Phase::Completed,
    ensures
        moved(registry, key, target) == (
            registry,
            Err::<(), RegistryError>(
                RegistryError::InvalidTransition(Refused { from: Phase::Completed, to: target }),
            ),
        ),
        failed(registry, key, message) == (
            registry,
            Err::<(), RegistryError>(
                RegistryError::InvalidTransition(Refused { from: Phase::Completed, to: Phase::Error }),
            ),
        ),
{
}

/// A registered pod stays registered, and its pod and container handles
/// stay as they were at registration: registering another pod, asking for an
/// edge and reporting a failure, for this pod or another, remove nothing and
/// change at most the status.
pub proof fn lemma_pods_stay(
    registry: Registry,
    key: Key,
    pod: PodView,
    other: Key,
    target: Phase,
    message: Seq<char>,
)
    requires
        registry.contains_key(key),
    ensures
        registered(registry, pod).0.contains_key(key),
        registered(registry, pod).0[key] == registry[key],
        moved(registry, other, target).0.contains_key(key),
        moved(registry, other, target).0[key].pod == registry[key].pod,
        moved(registry, other, target).0[key].containers == registry[key].containers,
        failed(registry, other, message).0.contains_key(key),
        failed(registry, other, message).0[key].pod == registry[key].pod,
        failed(registry, other, message).0[key].containers == registry[key].containers,
{
}

} // verus!

//! The lifecycle engine of a node agent.
//!
//! Given the description of a pod, the engine takes the pod through its
//! lifecycle: it is registered, the images of its containers are acquired,
//! their volumes are mounted, and the pod runs to its end or fails. The work
//! itself is done by a backend; the engine decides what is asked of the
//! backend next, shields the pod from a backend that is flaky, and keeps the
//! phase of every pod in a registry.
//!
//! - [`api`]: the description of a pod, as plain values.
//! - [`pod::status`] and [`container`]: the lifecycle graphs of pods and of
//!   containers. [`container::status`] is the reduced graph of a container.
//! - [`pod::handle`] and [`container::handle`]: what the agent keeps of a pod
//!   and of a container.
//! - [`pod`]: the registry of the pod handles.
//! - [`provider`]: the answers of a backend and the retry policy.
//! - [`state_machine`]: the run of a pod, operation by operation.
//! - [`concrete_state_machine`]: the run together with its bookkeeping in the
//!   registry.
//! - [`kubelet`]: what the agent does with the pods that it is given.
//! - [`state`]: the walk along the lifecycle graph on which nothing fails.
//! - [`concrete_provider`]: a scripted backend for trying things out.
//!
//! The engine never waits and never calls a backend. Its caller does, and
//! tells the engine what came of it.

pub mod api;
pub mod concrete_provider;
pub mod concrete_state_machine;
pub mod container;
pub mod kubelet;
pub mod pod;
pub mod provider;
pub mod state;
pub mod state_machine;

//! The core of the ClipShot desktop host: the plugin lifecycle manager and
//! the bridge to plugins that live in another runtime.
//!
//! * [`plugins`] holds the registry of loaded plugins and the manager that
//!   loads, unloads, lists and describes them. Its state is modelled by
//!   [`plugins::ManagerView`]; [`plugins::laws`] states what holds over whole
//!   histories of calls.
//! * [`bridge`] holds the state of the foreign-runtime session and decides
//!   what is sent across it and what is made of the answers.
//! * [`contract`] is the capability contract that every plugin meets, and
//!   [`demo`] the reference plugin.
//! * [`commands`] computes what the host's commands answer.
//! * [`state`] is the lifecycle flag of the process, [`error`] the failure
//!   values, [`text`] a few helpers on strings.
//!
//! The crate does no input or output. Work that has to happen outside it,
//! such as a call into the foreign runtime or a transfer over the network,
//! is done by the caller and handed in as a closure or as a plain value.
//! The manager and the bridge take `&mut self` where they change: a host
//! that shares them between threads puts each behind one lock.

pub mod bridge;
pub mod commands;
pub mod contract;
pub mod demo;
pub mod error;
pub mod plugins;
pub mod state;
pub mod text;

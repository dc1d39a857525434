//! The lifecycle of collaborative objects.
//!
//! A collaborative object (a document, a folder, a user-awareness record, a
//! workspace-database index) is a typed view over a raw core: a mergeable
//! state with an ordered list of plugins. Making one takes work that this
//! library does not do itself: building the core, reading and writing
//! storage, asking a provider for synchronization plugins. What the library
//! does is decide: whether a request is for the workspace that is open,
//! which step of a construction comes next, how a storage task ends, which
//! search results have a view. Each decision is a function from plain values
//! to plain values, and each is proved to do what its contract says.
//!
//! - [`ids`] and [`identity`]: identifiers, identities and their validation;
//! - [`config`], [`provider`], [`connect_state`]: what governs synchronization;
//! - [`core_state`]: the record of what has been done to a core;
//! - [`lifecycle`]: the construction of an object, step by step;
//! - [`persistence`]: the tasks that load and save a core;
//! - [`collab_builder`]: the entry points;
//! - [`laws`]: what holds of every construction;
//! - [`search`]: the join of remote search results with the views of a
//!   folder.

pub mod collab_builder;
pub mod config;
pub mod connect_state;
pub mod core_state;
pub mod identity;
pub mod ids;
pub mod laws;
pub mod lifecycle;
pub mod persistence;
pub mod provider;
pub mod search;

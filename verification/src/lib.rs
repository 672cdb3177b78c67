//! A stand-in for a network that stores data for the accounts of its clients.
//!
//! A client's session takes requests and answers each with one event, as the
//! network would: from a store of accounts, immutable blobs and mutable
//! records that is handed to it. Before a request gets to the store the
//! session can let a hook answer in its place, behave like a network that
//! never answers, or count the request against a limit of operations.
//!
//! Every type has a view, a value of plain mathematics that it stands for,
//! and every function says over those views what it does.

pub mod account;
pub mod authority;
pub mod collections;
pub mod data;
pub mod entry_actions;
pub mod error;
pub mod execution;
pub mod ffi_error;
pub mod laws;
pub mod messages;
pub mod mutable_data;
pub mod name;
pub mod order;
pub mod routing;
pub mod session;
pub mod vault;

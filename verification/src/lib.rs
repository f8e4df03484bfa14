//! An in-memory user registry: a store that hands out consecutive numeric
//! identifiers, and the request-level operations built on it.

pub mod greeting;
pub mod history;
pub mod service;
pub mod shared;
pub mod store;
pub mod user;

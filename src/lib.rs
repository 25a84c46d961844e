//! An in-process, per-resource cache that fetches a resource on demand,
//! serves concurrent callers one in-flight fetch, and expires the cached
//! result after a time-to-live; with it, the pieces of the services that
//! read their data through such resources.
//!
//! - [`cache`] is the cache entry's state machine, [`guarantees`] the laws
//!   it keeps; [`config`], [`locator`], [`fetch`], [`content`] and
//!   [`error`] are what a fetch is configured with, dispatched by,
//!   produces and fails with.
//! - [`jwt`] and [`jwks`] decide which key decodes a token, and when the
//!   key sets are fetched again.
//! - [`onepassword`] is the data model of a secrets service, with its
//!   `op://` references.
//!
//! The runtime that drives these decisions (channels, timers, file reads,
//! processes) stays with the caller.
pub mod cache;
pub mod config;
pub mod content;
pub mod error;
pub mod fetch;
pub mod guarantees;
pub mod jwks;
pub mod jwt;
pub mod locator;
pub mod onepassword;
mod text;

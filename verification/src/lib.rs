//! Mirrors every repository of a set of users and organisations of a remote
//! code-hosting service into local bare clones.
//!
//! The library holds the decisions of a run and none of its effects: which
//! listing request to send, when a listing is complete, which directory
//! belongs to a repository, and which command brings its mirror up to date.
//! Whoever drives it performs each action that the library names and reports
//! back what happened.
//!
//! - [`source`]: the first request of the listing of a user or organisation.
//! - [`pages`]: the aggregation of a listing, page by page, in order.
//! - [`mirror`]: the synchroniser that clones or updates one mirror after
//!   the other and stops at the first failure.
//! - [`run`]: the whole run, the users first and the organisations after.
//! - [`convergence`]: what is proved of whole runs of the synchroniser: a
//!   second run only updates, and an entry without a field ends the run.
//! - [`command`], [`error`], [`repo`]: the values that the others work on.
//! - [`paths`]: joining paths and taking parents, which are left to the
//!   standard library and are the only part that is trusted, not proved.

pub mod command;
pub mod convergence;
pub mod error;
pub mod mirror;
pub mod pages;
pub mod paths;
pub mod repo;
pub mod run;
pub mod source;

//! Core logic of a benchmark-survey web service.
//!
//! Administrators create campaigns (named, sorted lists of integer
//! difficulty levels), anonymous participants submit benchmark responses
//! against them, and a background archiver periodically snapshots every
//! campaign to a JSON metadata file and a CSV result file.
//!
//! This crate holds the verified core: the collision-retry identifier
//! allocation discipline, the campaign and response data model, and the
//! archiver's path, JSON, CSV and pagination computations.  The web
//! framework, database driver and filesystem sit outside and talk to this
//! crate in plain values.

pub mod archive;
pub mod auth;
pub mod bench;
pub mod campaigns;
pub mod challenges;
pub mod errors;
pub mod ident;
pub mod middleware;
pub mod pages;
pub mod settings;
pub mod text;

use vstd::prelude::*;

verus! {

/// A query string whose only parameter says where the caller is sent
/// after the request succeeds.
pub struct RedirectQuery {
    pub redirect_to: Option<String>,
}

} // verus!

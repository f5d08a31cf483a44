//! The verified core of an RPM repository manager: the package record and its
//! object-store keys, the catalog of packages, tags, composes and signing keys
//! (with at most one available package per tag, name and architecture), the
//! planning and sequencing of a tag's assembly, the cache's path layout, and the
//! operations behind the HTTP endpoints.
use vstd::prelude::*;

pub mod api;
pub mod assembly;
pub mod cache;
pub mod config;
pub mod db;
pub mod deps;
pub mod errors;
pub mod ids;
pub mod keyring;
pub mod keys;
pub mod outside;
pub mod package;
pub mod rpmfile;
pub mod store;
pub mod table;
pub mod tag;

verus! {

/// The view of an optional string.
pub open spec fn opt_view(o: Option<String>) -> Option<Seq<char>> {
    match o {
        Some(s) => Some(s@),
        None => None,
    }
}

} // verus!

//! Error kinds surfaced by the library, and the HTTP status each maps to.
use vstd::prelude::*;

verus! {

/// Errors specific to tag management.
#[derive(Clone, Copy, Debug, PartialEq, Eq, Structural)]
pub enum TagError {
    /// The tag does not exist.
    NotFound,
    /// A tag of that name already exists.
    AlreadyExists,
}

/// Errors of the library's operations.
#[derive(Clone, Copy, Debug, PartialEq, Eq, Structural)]
pub enum RepoError {
    /// A database operation failed or returned a malformed response.
    Db,
    /// A filesystem or process-spawn operation failed.
    Io,
    /// The object-store backend failed.
    Backend,
    /// An RPM or OpenPGP document could not be parsed or processed.
    Parse,
    /// The referenced entity (tag, package, key) does not exist.
    NotFound,
    /// A create-if-absent rule was violated (for instance the staging directory exists).
    Conflict,
    /// The external repository-metadata generator exited unsuccessfully.
    GeneratorFailed,
    /// The request is missing fields or is malformed.
    BadRequest,
    /// An object written to the backend has no entry in the cache.
    MissingCacheEntry,
    /// A tag-specific error.
    Tag(TagError),
}

/// The HTTP status code that reports `e`.
pub open spec fn status_of(e: RepoError) -> u16 {
    match e {
        RepoError::NotFound | RepoError::Tag(TagError::NotFound) => 404,
        RepoError::Conflict | RepoError::Tag(TagError::AlreadyExists) => 409,
        RepoError::Parse | RepoError::BadRequest => 400,
        _ => 500,
    }
}

impl RepoError {
    /// The HTTP status code that reports this error.
    pub fn status_code(&self) -> (r: u16)
        ensures
            r == status_of(*self),
    {
        match self {
            RepoError::NotFound | RepoError::Tag(TagError::NotFound) => 404,
            RepoError::Conflict | RepoError::Tag(TagError::AlreadyExists) => 409,
            RepoError::Parse | RepoError::BadRequest => 400,
            _ => 500,
        }
    }

    /// A short human-readable description of the error.
    pub fn message(&self) -> (r: &'static str) {
        match self {
            RepoError::Db => "database error",
            RepoError::Io => "Server I/O error",
            RepoError::Backend => "object store error",
            RepoError::Parse => "parse error",
            RepoError::NotFound => "Not Found",
            RepoError::Conflict => "conflict",
            RepoError::GeneratorFailed => "createrepo_c failed",
            RepoError::BadRequest => "bad request",
            RepoError::MissingCacheEntry => "object not found in cache",
            RepoError::Tag(TagError::NotFound) => "Tag not found",
            RepoError::Tag(TagError::AlreadyExists) => "Tag already exists",
        }
    }
}

} // verus!

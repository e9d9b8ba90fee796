//! A URL-shortening core: validated short codes, short-URL entities, and a
//! repository abstraction with an in-memory backend and the decision logic
//! of a relational backend.

use vstd::prelude::*;

pub mod models;
pub mod repository;
pub mod service;

verus! {

/// The errors the core can return to its callers.
#[derive(Debug, PartialEq, Eq)]
pub enum UrlclawError {
    /// The requested short code is not a valid code.
    ShortUrlInvalid(crate::models::InvalidShortError),
    /// An entity with the same short code is already stored.
    ShortAlreadyExists,
    /// No entity with the requested short code is stored.
    UrlNotFound,
    /// More than one stored entity shares a short code: an internal
    /// invariant violation of a repository, distinct from `UrlNotFound`.
    NotUnique,
    /// The target does not parse as an absolute URL; carries the parser's
    /// diagnostic.
    InvalidTarget(String),
    /// An opaque backend failure of a repository.
    Database(String),
}

impl Clone for UrlclawError {
    fn clone(&self) -> (r: Self)
        ensures
            r == *self,
    {
        match self {
            UrlclawError::ShortUrlInvalid(e) => UrlclawError::ShortUrlInvalid(*e),
            UrlclawError::ShortAlreadyExists => UrlclawError::ShortAlreadyExists,
            UrlclawError::UrlNotFound => UrlclawError::UrlNotFound,
            UrlclawError::NotUnique => UrlclawError::NotUnique,
            UrlclawError::InvalidTarget(m) => UrlclawError::InvalidTarget(m.clone()),
            UrlclawError::Database(m) => UrlclawError::Database(m.clone()),
        }
    }
}

} // verus!

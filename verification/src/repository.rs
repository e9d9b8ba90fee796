//! The storage capability: a polymorphic interface of find and insert
//! operations over short-URL entities, implemented by multiple backends.

use vstd::prelude::*;

use crate::models::{ShortUrl, StoredUrl};
use crate::UrlclawError;

pub mod memory;
pub mod relational;

verus! {

/// What a lookup owes over the abstract contents of a repository: the
/// stored entity under the code, or `UrlNotFound`.
pub open spec fn spec_find(m: Map<Seq<char>, StoredUrl>, code: Seq<char>) -> Result<
    StoredUrl,
    UrlclawError,
> {
    if m.contains_key(code) {
        Ok(m[code])
    } else {
        Err(UrlclawError::UrlNotFound)
    }
}

/// The mathematical content of a lookup's result: the view of the entity
/// on success, the error itself on failure.
pub open spec fn found_view(r: Result<ShortUrl, UrlclawError>) -> Result<
    StoredUrl,
    UrlclawError,
> {
    match r {
        Ok(u) => Ok(u@),
        Err(e) => Err(e),
    }
}

/// The storage capability. The abstract contents of a backend is a map
/// holding each stored entity under its short code, so at most one entity
/// exists per code; `inv` is the backend's internal well-formedness.
///
/// A backend may be unable to answer (a lost connection, a corrupt row):
/// the contracts here state what every outcome means, and owe nothing more.
/// An implementation may owe more, as the in-memory backend does.
pub trait ShortUrlRepository: Sized {
    /// The abstract contents: each stored entity under its short code.
    spec fn urls(&self) -> Map<Seq<char>, StoredUrl>;

    /// The backend's internal well-formedness.
    spec fn inv(&self) -> bool;

    /// Whether the backend can fail for reasons other than the contents:
    /// a storage failure, or a corrupt row. A backend for which this is
    /// false owes the exact result of every operation.
    spec fn may_storage_fail(&self) -> bool;

    /// Looks up the unique entity whose code equals `short` exactly
    /// (case-sensitive, no normalization). The contents are not changed.
    fn get_from_short(&mut self, short: &str) -> (r: Result<ShortUrl, UrlclawError>)
        requires
            old(self).inv(),
        ensures
            final(self).inv(),
            final(self).urls() == old(self).urls(),
            final(self).may_storage_fail() == old(self).may_storage_fail(),
            r matches Ok(u) ==> old(self).urls().contains_key(short@) && u@ == old(
                self,
            ).urls()[short@],
            r matches Err(UrlclawError::UrlNotFound) ==> !old(self).urls().contains_key(short@),
            !(r matches Err(UrlclawError::ShortAlreadyExists)),
            !old(self).may_storage_fail() ==> found_view(r) == spec_find(
                old(self).urls(),
                short@,
            ),
    ;

    /// Persists the entity iff no stored entity shares its code; a
    /// duplicate code is reported as `ShortAlreadyExists` and changes
    /// nothing.
    fn create_shorturl(&mut self, short_url: &ShortUrl) -> (r: Result<(), UrlclawError>)
        requires
            old(self).inv(),
            short_url.wf(),
        ensures
            final(self).inv(),
            final(self).may_storage_fail() == old(self).may_storage_fail(),
            r is Ok ==> !old(self).urls().contains_key(short_url@.short) && final(self).urls()
                == old(self).urls().insert(short_url@.short, short_url@),
            r is Err ==> final(self).urls() == old(self).urls(),
            r matches Err(e) ==> e is ShortAlreadyExists || e is Database,
            r matches Err(UrlclawError::ShortAlreadyExists) ==> old(self).urls().contains_key(
                short_url@.short,
            ),
            !old(self).may_storage_fail() ==> (r is Ok <==> !old(self).urls().contains_key(
                short_url@.short,
            )),
            !old(self).may_storage_fail() && r is Err ==> r matches Err(
                UrlclawError::ShortAlreadyExists,
            ),
    ;
}

/// Law: inserting an entity whose code is free and then looking that code
/// up on the same repository returns exactly that entity.
pub proof fn lemma_insert_then_find(m: Map<Seq<char>, StoredUrl>, u: StoredUrl)
    requires
        !m.contains_key(u.short),
    ensures
        spec_find(m.insert(u.short, u), u.short) == Ok::<StoredUrl, UrlclawError>(u),
{
}

/// Law: an insert that fails because the code is taken leaves the contents
/// unchanged, so a lookup of that code still returns the entity stored
/// before the attempt. The contents are any backend's: the in-memory
/// collection's as well as the relational table's.
pub proof fn lemma_duplicate_insert_preserves(m: Map<Seq<char>, StoredUrl>, code: Seq<char>)
    requires
        m.contains_key(code),
    ensures
        spec_find(m, code) == Ok::<StoredUrl, UrlclawError>(m[code]),
{
}

/// Law: a lookup of a code that no stored entity carries fails with
/// `UrlNotFound`.
pub proof fn lemma_find_missing(m: Map<Seq<char>, StoredUrl>, code: Seq<char>)
    requires
        !m.contains_key(code),
    ensures
        spec_find(m, code) == Err::<StoredUrl, UrlclawError>(UrlclawError::UrlNotFound),
{
}

} // verus!

//! The decision logic of a durable backend over a relational store with a
//! single table of columns `id`, `short` (unique) and `target`.
//!
//! The store itself is driven outside the core: uniqueness of the `short`
//! column is a constraint of the store, so concurrent inserts of one code
//! cannot both succeed, which an application-level read-then-write check
//! could not guarantee. The core receives what the store reported and maps
//! it to the repository's results.

use vstd::prelude::*;

use crate::models::{short_parse_error, url_canonical, valid_short_seq, ShortUrl};
use crate::UrlclawError;

verus! {

/// What a point lookup by the `short` column reported.
#[derive(Debug)]
pub enum FetchOutcome {
    /// Exactly one row matched, with its raw column values.
    Row { id: u128, short: String, target: String },
    /// Zero rows matched.
    NoRow,
    /// The store failed, with its diagnostic.
    Failure(String),
}

/// What an insert into the table reported.
#[derive(Debug)]
pub enum InsertOutcome {
    /// The row was inserted.
    Inserted,
    /// The uniqueness constraint on the `short` column rejected the row.
    UniqueViolation,
    /// The store failed, with its diagnostic.
    Failure(String),
}

/// Maps a lookup's outcome to the repository's result: zero rows is
/// `UrlNotFound`, a store failure is `Database`, and a row is rebuilt into
/// an entity, reporting corrupt column values rather than passing them on.
pub fn interpret_fetch(outcome: FetchOutcome) -> (r: Result<ShortUrl, UrlclawError>)
    ensures
        outcome matches FetchOutcome::NoRow ==> r == Err::<ShortUrl, UrlclawError>(
            UrlclawError::UrlNotFound,
        ),
        outcome matches FetchOutcome::Failure(m) ==> r == Err::<ShortUrl, UrlclawError>(
            UrlclawError::Database(m),
        ),
        outcome matches FetchOutcome::Row { id, short, target } ==> {
            &&& r is Ok <==> valid_short_seq(short@) && url_canonical(target@) is Some
            &&& (r matches Ok(u) ==> u@.id == id && u@.short == short@ && Some(u@.target)
                == url_canonical(target@) && u.wf())
            &&& (r matches Err(e) ==> match e {
                UrlclawError::ShortUrlInvalid(se) => !valid_short_seq(short@) && se
                    == short_parse_error(short@),
                UrlclawError::InvalidTarget(_) => valid_short_seq(short@) && url_canonical(
                    target@,
                ) is None,
                _ => false,
            })
        },
{
    match outcome {
        FetchOutcome::Row { id, short, target } => ShortUrl::from_db(id, short, target),
        FetchOutcome::NoRow => Err(UrlclawError::UrlNotFound),
        FetchOutcome::Failure(m) => Err(UrlclawError::Database(m)),
    }
}

/// Maps an insert's outcome to the repository's result: a violation of the
/// uniqueness constraint on the `short` column means the code is taken,
/// and becomes `ShortAlreadyExists`; any other store failure is `Database`.
pub fn interpret_insert(outcome: InsertOutcome) -> (r: Result<(), UrlclawError>)
    ensures
        r == match outcome {
            InsertOutcome::Inserted => Ok::<(), UrlclawError>(()),
            InsertOutcome::UniqueViolation => Err::<(), UrlclawError>(
                UrlclawError::ShortAlreadyExists,
            ),
            InsertOutcome::Failure(m) => Err::<(), UrlclawError>(UrlclawError::Database(m)),
        },
{
    match outcome {
        InsertOutcome::Inserted => Ok(()),
        InsertOutcome::UniqueViolation => Err(UrlclawError::ShortAlreadyExists),
        InsertOutcome::Failure(m) => Err(UrlclawError::Database(m)),
    }
}

} // verus!

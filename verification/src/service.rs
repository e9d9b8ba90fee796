//! The use cases: thin orchestration of entity construction and the
//! repository capability, with no rules of its own.

use vstd::prelude::*;

use crate::models::{short_parse_error, url_canonical, valid_short_seq, ShortUrl};
use crate::repository::{found_view, spec_find, ShortUrlRepository};
use crate::UrlclawError;

verus! {

/// Builds an entity from the raw code and target and persists it; any
/// validation or storage error is passed through unchanged, and a failure
/// stores nothing.
pub fn create_shorturl<R: ShortUrlRepository>(
    repository: &mut R,
    short: String,
    target: String,
) -> (r: Result<ShortUrl, UrlclawError>)
    requires
        old(repository).inv(),
    ensures
        final(repository).inv(),
        r matches Ok(u) ==> u@.short == short@ && Some(u@.target) == url_canonical(target@)
            && !old(repository).urls().contains_key(short@) && final(repository).urls() == old(
            repository,
        ).urls().insert(short@, u@),
        r matches Err(UrlclawError::ShortUrlInvalid(e)) ==> !valid_short_seq(short@) && e
            == short_parse_error(short@) && *final(repository) == *old(repository),
        r matches Err(UrlclawError::InvalidTarget(_)) ==> valid_short_seq(short@)
            && url_canonical(target@) is None && *final(repository) == *old(repository),
        r matches Err(UrlclawError::ShortAlreadyExists) ==> old(repository).urls().contains_key(
            short@,
        ) && final(repository).urls() == old(repository).urls(),
        r is Err ==> final(repository).urls() == old(repository).urls(),
        r matches Err(e) ==> !(e is UrlNotFound) && !(e is NotUnique),
        !valid_short_seq(short@) ==> (r matches Err(UrlclawError::ShortUrlInvalid(e)) && e
            == short_parse_error(short@)),
        valid_short_seq(short@) && url_canonical(target@) is None ==> r matches Err(
            UrlclawError::InvalidTarget(_),
        ),
        !old(repository).may_storage_fail() && valid_short_seq(short@) && url_canonical(
            target@,
        ) is Some ==> (r is Ok <==> !old(repository).urls().contains_key(short@)),
        !old(repository).may_storage_fail() ==> (r matches Err(e) ==> !(e is Database)),
        final(repository).may_storage_fail() == old(repository).may_storage_fail(),
{
    let short_url = match ShortUrl::new(short, target) {
        Ok(short_url) => short_url,
        Err(e) => {
            return Err(e);
        },
    };
    match repository.create_shorturl(&short_url) {
        Ok(()) => Ok(short_url),
        Err(e) => Err(e),
    }
}

/// Looks the raw code up in the repository and passes the result through
/// unchanged. The repository's contents are not changed.
pub fn get_shorturl_target<R: ShortUrlRepository>(repository: &mut R, short: &str) -> (r: Result<
    ShortUrl,
    UrlclawError,
>)
    requires
        old(repository).inv(),
    ensures
        final(repository).inv(),
        final(repository).urls() == old(repository).urls(),
        r matches Ok(u) ==> old(repository).urls().contains_key(short@) && u@ == old(
            repository,
        ).urls()[short@],
        r matches Err(UrlclawError::UrlNotFound) ==> !old(repository).urls().contains_key(short@),
        !(r matches Err(UrlclawError::ShortAlreadyExists)),
        !old(repository).may_storage_fail() ==> found_view(r) == spec_find(
            old(repository).urls(),
            short@,
        ),
        final(repository).may_storage_fail() == old(repository).may_storage_fail(),
{
    repository.get_from_short(short)
}

} // verus!

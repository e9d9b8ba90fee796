//! The reference backend: entities held in an ordered collection in
//! process memory.

use vstd::prelude::*;

use crate::models::{ShortUrl, StoredUrl};
use crate::repository::{found_view, spec_find, ShortUrlRepository};
use crate::UrlclawError;

verus! {

/// Some entity in the sequence carries the code.
pub open spec fn has_code(s: Seq<ShortUrl>, code: Seq<char>) -> bool {
    exists|i: int| 0 <= i < s.len() && s[i]@.short == code
}

/// The index of an entity carrying the code; meaningful when one exists.
pub open spec fn index_of_code(s: Seq<ShortUrl>, code: Seq<char>) -> int {
    choose|i: int| 0 <= i < s.len() && s[i]@.short == code
}

/// No two entities in the sequence share a short code.
pub open spec fn unique_codes(s: Seq<ShortUrl>) -> bool {
    forall|i: int, j: int| 0 <= i < j < s.len() ==> s[i]@.short != s[j]@.short
}

/// Every entity in the sequence is well-formed.
pub open spec fn all_wf(s: Seq<ShortUrl>) -> bool {
    forall|i: int| 0 <= i < s.len() ==> s[i].wf()
}

/// The abstract contents of the sequence: each entity under its code.
pub open spec fn contents_of(s: Seq<ShortUrl>) -> Map<Seq<char>, StoredUrl> {
    Map::new(|code: Seq<char>| has_code(s, code), |code: Seq<char>| s[index_of_code(s, code)]@)
}

/// With unique codes, the entity at any index is what the contents hold
/// under its code.
proof fn lemma_contents_at(s: Seq<ShortUrl>, i: int)
    requires
        unique_codes(s),
        0 <= i < s.len(),
    ensures
        contents_of(s).contains_key(s[i]@.short),
        contents_of(s)[s[i]@.short] == s[i]@,
{
    let code = s[i]@.short;
    assert(has_code(s, code));
    let j = index_of_code(s, code);
    assert(0 <= j < s.len() && s[j]@.short == code);
    if i != j {
        assert(s[i]@.short != s[j]@.short);
    }
}

/// Appending an entity with a fresh code updates the contents by exactly
/// that entry, and keeps the codes unique.
proof fn lemma_contents_push(s: Seq<ShortUrl>, u: ShortUrl)
    requires
        unique_codes(s),
        !has_code(s, u@.short),
    ensures
        unique_codes(s.push(u)),
        contents_of(s.push(u)) =~= contents_of(s).insert(u@.short, u@),
{
    let t = s.push(u);
    let n = s.len() as int;
    assert forall|i: int, j: int| 0 <= i < j < t.len() implies t[i]@.short != t[j]@.short by {
        if j < n {
            assert(s[i]@.short != s[j]@.short);
        } else {
            assert(t[j] == u);
            if t[i]@.short == u@.short {
                assert(has_code(s, u@.short));
            }
        }
    }
    assert(t[n]@.short == u@.short);
    assert forall|code: Seq<char>| true implies #[trigger] has_code(t, code) == (has_code(s, code)
        || code == u@.short) by {
        if has_code(t, code) {
            let i = choose|i: int| 0 <= i < t.len() && t[i]@.short == code;
            if i < n {
                assert(s[i]@.short == code);
                assert(has_code(s, code));
            }
        }
        if has_code(s, code) {
            let i = choose|i: int| 0 <= i < s.len() && s[i]@.short == code;
            assert(t[i]@.short == code);
            assert(has_code(t, code));
        }
    }
    assert forall|code: Seq<char>| has_code(t, code) implies contents_of(t)[code] == contents_of(
        s,
    ).insert(u@.short, u@)[code] by {
        let i = index_of_code(t, code);
        assert(0 <= i < t.len() && t[i]@.short == code);
        if code == u@.short {
            if i < n {
                assert(s[i]@.short == code);
                assert(has_code(s, code));
            }
            assert(i == n);
            assert(contents_of(t)[code] == u@);
        } else {
            assert(i < n);
            assert(s[i]@.short == code);
            lemma_contents_at(s, i);
            let j = index_of_code(s, code);
            assert(0 <= j < s.len() && s[j]@.short == code);
            if i != j {
                assert(s[i]@.short != s[j]@.short);
            }
            assert(contents_of(t)[code] == s[j]@);
        }
    }
}

/// The reference backend, backed by an ordered collection of entities in
/// process memory. Not safe for concurrent mutation: a caller sharing one
/// instance across threads must serialize each call.
#[derive(Debug)]
pub struct InMemoryRepository {
    urls: Vec<ShortUrl>,
}

impl Default for InMemoryRepository {
    /// An empty repository.
    fn default() -> (r: Self)
        ensures
            r.inv(),
            r.urls() == Map::<Seq<char>, StoredUrl>::empty(),
    {
        let r = InMemoryRepository { urls: Vec::new() };
        proof {
            assert(r.urls() =~= Map::<Seq<char>, StoredUrl>::empty());
        }
        r
    }
}

impl ShortUrlRepository for InMemoryRepository {
    /// Each stored entity under its code.
    closed spec fn urls(&self) -> Map<Seq<char>, StoredUrl> {
        contents_of(self.urls@)
    }

    /// All stored entities are well-formed and no two share a code.
    closed spec fn inv(&self) -> bool {
        all_wf(self.urls@) && unique_codes(self.urls@)
    }

    /// Process memory cannot lose a connection or corrupt a row: this
    /// backend owes the exact result of every operation.
    open spec fn may_storage_fail(&self) -> bool {
        false
    }

    /// Linear scan for the unique entity carrying the code. Were two
    /// entries ever to share a code, the scan would report `NotUnique`
    /// rather than silently return an arbitrary match; a well-formed
    /// repository cannot reach that branch.
    fn get_from_short(&mut self, short: &str) -> (r: Result<ShortUrl, UrlclawError>)
        ensures
            found_view(r) == spec_find(old(self).urls(), short@),
    {
        let n = self.urls.len();
        let mut i: usize = 0;
        let mut found: Option<usize> = None;
        while i < n
            invariant
                old(self).inv(),
                self.urls == old(self).urls,
                n == self.urls@.len(),
                i <= n,
                found matches None ==> forall|j: int|
                    0 <= j < i ==> self.urls@[j]@.short != short@,
                found matches Some(f) ==> 0 <= f < i && self.urls@[f as int]@.short == short@,
            decreases n - i,
        {
            if self.urls[i].code_matches(short) {
                match found {
                    None => {
                        found = Some(i);
                    },
                    Some(_) => {
                        // a second entry with this code contradicts the
                        // uniqueness of codes in a well-formed repository
                        proof {
                            assert(false);
                        }
                        return Err(UrlclawError::NotUnique);
                    },
                }
            }
            i = i + 1;
        }
        match found {
            Some(f) => {
                proof {
                    lemma_contents_at(self.urls@, f as int);
                }
                Ok(self.urls[f].clone())
            },
            None => {
                proof {
                    assert(!has_code(self.urls@, short@));
                }
                Err(UrlclawError::UrlNotFound)
            },
        }
    }

    /// Linear scan to confirm the code is absent, then append.
    fn create_shorturl(&mut self, short_url: &ShortUrl) -> (r: Result<(), UrlclawError>)
        ensures
            r is Ok <==> !old(self).urls().contains_key(short_url@.short),
            r matches Err(e) ==> e == UrlclawError::ShortAlreadyExists,
    {
        let code_str = short_url.short_url().as_str();
        let n = self.urls.len();
        let mut i: usize = 0;
        let mut taken = false;
        while i < n
            invariant
                old(self).inv(),
                self.urls == old(self).urls,
                n == self.urls@.len(),
                i <= n,
                code_str@ == short_url@.short,
                taken <==> exists|j: int|
                    0 <= j < i && self.urls@[j]@.short == short_url@.short,
            decreases n - i,
        {
            if self.urls[i].code_matches(code_str) {
                taken = true;
            }
            i = i + 1;
        }
        if taken {
            proof {
                let j = choose|j: int|
                    0 <= j < n && self.urls@[j]@.short == short_url@.short;
                lemma_contents_at(self.urls@, j);
            }
            Err(UrlclawError::ShortAlreadyExists)
        } else {
            proof {
                lemma_contents_push(self.urls@, *short_url);
            }
            self.urls.push(short_url.clone());
            Ok(())
        }
    }
}

} // verus!

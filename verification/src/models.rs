//! The domain model: validated short codes and short-URL entities.

use vstd::prelude::*;

use crate::UrlclawError;

verus! {

/// The characters a short code may contain: the unreserved characters of
/// RFC 3986 section 2.3 (letters, digits, `-`, `.`, `_`, `~`).
pub open spec fn allowed_char(c: char) -> bool {
    ||| ('a' as u32) <= (c as u32) <= ('z' as u32)
    ||| ('A' as u32) <= (c as u32) <= ('Z' as u32)
    ||| ('0' as u32) <= (c as u32) <= ('9' as u32)
    ||| c == '-'
    ||| c == '.'
    ||| c == '_'
    ||| c == '~'
}

/// Every character of the string is allowed in a short code.
pub open spec fn all_chars_allowed(s: Seq<char>) -> bool {
    forall|i: int| 0 <= i < s.len() ==> allowed_char(s[i])
}

/// A sequence of characters is a valid short code: length within bounds and
/// only allowed characters.
pub open spec fn valid_short_seq(s: Seq<char>) -> bool {
    &&& Short::MIN_LENGTH <= s.len()
    &&& s.len() <= Short::MAX_LENGTH
    &&& all_chars_allowed(s)
}

/// The error reported for a string that is not a valid short code: length
/// errors take priority over the character scan, so an over-long string
/// with bad characters still reports `TooLong`.
pub open spec fn short_parse_error(s: Seq<char>) -> InvalidShortError
    recommends
        !valid_short_seq(s),
{
    if s.len() > Short::MAX_LENGTH {
        InvalidShortError::TooLong
    } else if s.len() < Short::MIN_LENGTH {
        InvalidShortError::TooShort
    } else {
        InvalidShortError::InvalidCharacters
    }
}

fn is_allowed_char(c: char) -> (b: bool)
    ensures
        b == allowed_char(c),
{
    let u = c as u32;
    (97 <= u && u <= 122) || (65 <= u && u <= 90) || (48 <= u && u <= 57) || c == '-' || c == '.'
        || c == '_' || c == '~'
}

/// Whether every character of the string is allowed in a short code.
pub fn check_short_is_safe(short: &str) -> (b: bool)
    ensures
        b == all_chars_allowed(short@),
{
    let n = short.unicode_len();
    let mut i: usize = 0;
    while i < n
        invariant
            n == short@.len(),
            i <= n,
            forall|j: int| 0 <= j < i ==> allowed_char(short@[j]),
        decreases n - i,
    {
        if !is_allowed_char(short.get_char(i)) {
            return false;
        }
        i = i + 1;
    }
    true
}

/// Why a string was rejected as a short code.
#[derive(Clone, Copy, Debug, PartialEq, Eq)]
pub enum InvalidShortError {
    /// A character outside the allowed set occurs.
    InvalidCharacters,
    /// The string is shorter than `Short::MIN_LENGTH`.
    TooShort,
    /// The string is longer than `Short::MAX_LENGTH`.
    TooLong,
}

/// A validated short code. Construction through `parse` is the only way to
/// obtain one, so every `Short` satisfies the length and character
/// constraints.
#[derive(Debug, PartialEq, Eq)]
pub struct Short(String);

impl View for Short {
    type V = Seq<char>;

    closed spec fn view(&self) -> Seq<char> {
        self.0@
    }
}

impl Clone for Short {
    fn clone(&self) -> (r: Self)
        ensures
            r == *self,
    {
        Short(self.0.clone())
    }
}

impl Short {
    /// Minimum length of a short code, in code points.
    pub const MIN_LENGTH: usize = 1;

    /// Maximum length of a short code, in code points.
    pub const MAX_LENGTH: usize = 64;

    /// Validates a string as a short code. Length errors are reported
    /// before character errors; a successful parse keeps the string
    /// exactly as given.
    pub fn parse(s: &str) -> (r: Result<Short, InvalidShortError>)
        ensures
            r is Ok <==> valid_short_seq(s@),
            r matches Ok(short) ==> short@ == s@,
            r matches Err(e) ==> e == short_parse_error(s@),
    {
        let n = s.unicode_len();
        if n > Short::MAX_LENGTH {
            Err(InvalidShortError::TooLong)
        } else if n < Short::MIN_LENGTH {
            Err(InvalidShortError::TooShort)
        } else if !check_short_is_safe(s) {
            Err(InvalidShortError::InvalidCharacters)
        } else {
            Ok(Short(s.to_owned()))
        }
    }

    /// The code as a string slice.
    pub fn as_str(&self) -> (r: &str)
        ensures
            r@ == self@,
    {
        self.0.as_str()
    }
}

impl core::str::FromStr for Short {
    type Err = InvalidShortError;

    fn from_str(s: &str) -> Result<Self, Self::Err> {
        Short::parse(s)
    }
}

impl TryFrom<&str> for Short {
    type Error = InvalidShortError;

    fn try_from(s: &str) -> (r: Result<Self, Self::Error>)
        ensures
            r is Ok <==> valid_short_seq(s@),
            r matches Ok(short) ==> short@ == s@,
            r matches Err(e) ==> e == short_parse_error(s@),
    {
        Short::parse(s)
    }
}

/// `Short` keeps its `String` private, so a spec-level conversion function
/// cannot be given; the conversion is specified by the `ensures` on
/// `try_from` itself.
impl vstd::std_specs::convert::TryFromSpecImpl<&str> for Short {
    open spec fn obeys_try_from_spec() -> bool {
        false
    }

    open spec fn try_from_spec(v: &str) -> Result<Self, Self::Error> {
        arbitrary()
    }
}

impl From<Short> for String {
    fn from(s: Short) -> (r: String)
        ensures
            r@ == s@,
    {
        s.0
    }
}

/// A `String` cannot be built in a spec, so the conversion is specified by
/// the `ensures` on `from` itself.
impl vstd::std_specs::convert::FromSpecImpl<Short> for String {
    open spec fn obeys_from_spec() -> bool {
        false
    }

    open spec fn from_spec(v: Short) -> Self {
        arbitrary()
    }
}

/// What parsing a string as an absolute URL yields: `Some` of the canonical
/// serialization when the string is a well-formed absolute URL, `None`
/// otherwise. The result depends on the string alone.
pub uninterp spec fn url_canonical(s: Seq<char>) -> Option<Seq<char>>;

/// Relies on `url::Url::parse`, which parses an absolute URL from a string,
/// and on `url::Url::as_str`, which returns its canonical serialization.
/// Both depend on the input string alone. Parsing a serialization returns
/// it unchanged, as the crate's own documentation of `as_str` shows, so a
/// canonical string maps to itself. On failure the parser's diagnostic is
/// returned as a message.
#[verifier::external_body]
fn parse_target_url(s: &str) -> (r: Result<String, String>)
    ensures
        (r is Ok) == (url_canonical(s@) is Some),
        r matches Ok(c) ==> url_canonical(s@) == Some(c@),
        r matches Ok(c) ==> url_canonical(c@) == Some(c@),
{
    match url::Url::parse(s) {
        Ok(u) => Ok(u.as_str().to_owned()),
        Err(e) => Err(format!("{}", e)),
    }
}

/// Relies on `uuid::Uuid::new_v4` for a freshly generated random
/// 128-bit identifier. The value is random, so nothing is promised of it.
#[verifier::external_body]
fn fresh_id() -> u128 {
    uuid::Uuid::new_v4().as_u128()
}

/// The mathematical content of a short-URL entity: its identifier, its
/// short code, and its canonical target URL.
pub ghost struct StoredUrl {
    pub id: u128,
    pub short: Seq<char>,
    pub target: Seq<char>,
}

/// The aggregate entity linking a short code to a target URL: a 128-bit
/// identifier, the validated code, and the canonical serialization of the
/// target. Immutable once constructed.
#[derive(Debug, PartialEq, Eq)]
pub struct ShortUrl {
    id: u128,
    short: Short,
    target: String,
}

impl View for ShortUrl {
    type V = StoredUrl;

    closed spec fn view(&self) -> StoredUrl {
        StoredUrl { id: self.id, short: self.short@, target: self.target@ }
    }
}

impl Clone for ShortUrl {
    fn clone(&self) -> (r: Self)
        ensures
            r == *self,
    {
        ShortUrl { id: self.id, short: self.short.clone(), target: self.target.clone() }
    }
}

impl ShortUrl {
    /// Builds an entity from raw caller input: validates the code, parses
    /// the target as an absolute URL, and allocates a fresh identifier.
    /// The code error is reported before the target error.
    pub fn new(short: String, target: String) -> (r: Result<ShortUrl, UrlclawError>)
        ensures
            r is Ok <==> valid_short_seq(short@) && url_canonical(target@) is Some,
            r matches Ok(u) ==> u@.short == short@ && Some(u@.target) == url_canonical(target@)
                && u.wf(),
            r matches Err(e) ==> match e {
                UrlclawError::ShortUrlInvalid(se) => !valid_short_seq(short@) && se
                    == short_parse_error(short@),
                UrlclawError::InvalidTarget(_) => valid_short_seq(short@) && url_canonical(
                    target@,
                ) is None,
                _ => false,
            },
    {
        let code = match Short::parse(short.as_str()) {
            Ok(code) => code,
            Err(e) => {
                return Err(UrlclawError::ShortUrlInvalid(e));
            },
        };
        let canonical = match parse_target_url(target.as_str()) {
            Ok(canonical) => canonical,
            Err(m) => {
                return Err(UrlclawError::InvalidTarget(m));
            },
        };
        Ok(ShortUrl { id: fresh_id(), short: code, target: canonical })
    }

    /// Rebuilds an entity from stored raw fields, as a repository reading
    /// back a persisted row does. The code and the target are validated
    /// again, so storage corruption is reported rather than passed on.
    pub fn from_db(id: u128, short: String, target: String) -> (r: Result<ShortUrl, UrlclawError>)
        ensures
            r is Ok <==> valid_short_seq(short@) && url_canonical(target@) is Some,
            r matches Ok(u) ==> u@.id == id && u@.short == short@ && Some(u@.target)
                == url_canonical(target@) && u.wf(),
            r matches Err(e) ==> match e {
                UrlclawError::ShortUrlInvalid(se) => !valid_short_seq(short@) && se
                    == short_parse_error(short@),
                UrlclawError::InvalidTarget(_) => valid_short_seq(short@) && url_canonical(
                    target@,
                ) is None,
                _ => false,
            },
    {
        let code = match Short::parse(short.as_str()) {
            Ok(code) => code,
            Err(e) => {
                return Err(UrlclawError::ShortUrlInvalid(e));
            },
        };
        let canonical = match parse_target_url(target.as_str()) {
            Ok(canonical) => canonical,
            Err(m) => {
                return Err(UrlclawError::InvalidTarget(m));
            },
        };
        Ok(ShortUrl { id, short: code, target: canonical })
    }

    /// A well-formed entity carries a valid short code and a canonical
    /// target: the target re-parses to itself, so rebuilding the entity
    /// from its stored fields never re-canonicalizes it differently than
    /// the original write.
    pub open spec fn wf(&self) -> bool {
        &&& valid_short_seq(self@.short)
        &&& url_canonical(self@.target) == Some(self@.target)
    }

    /// The entity's identifier.
    pub fn uuid(&self) -> (r: u128)
        ensures
            r == self@.id,
    {
        self.id
    }

    /// The entity's short code.
    pub fn short_url(&self) -> (r: &Short)
        ensures
            r@ == self@.short,
    {
        &self.short
    }

    /// The canonical serialization of the entity's target URL.
    pub fn target_url(&self) -> (r: &String)
        ensures
            r@ == self@.target,
    {
        &self.target
    }

    /// Whether the entity's short code equals the given string exactly.
    pub fn code_matches(&self, code: &str) -> (b: bool)
        ensures
            b == (self@.short == code@),
    {
        self.short.0 == code.to_owned()
    }
}

} // verus!

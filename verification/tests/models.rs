use urlclaw::models::{check_short_is_safe, InvalidShortError, Short, ShortUrl};
use urlclaw::UrlclawError;

#[test]
fn test_url_safety_check() {
    assert!(check_short_is_safe("rusty"));
    assert!(check_short_is_safe("Rusty42"));
    assert!(check_short_is_safe("Rusty"));
    assert!(check_short_is_safe("1234"));
    assert!(!check_short_is_safe("rusty!"));
    assert!(check_short_is_safe("~ferris~"));
    assert!(!check_short_is_safe("ferris is cool"));
    assert!(!check_short_is_safe("cool/stuff"));
    assert!(!check_short_is_safe("a?b"));
    assert!(!check_short_is_safe("a&b"));
    assert!(!check_short_is_safe("a#b"));
    assert!(!check_short_is_safe("a%20"));
}

#[test]
fn test_short_fromstr() {
    assert_eq!("".parse::<Short>(), Err(InvalidShortError::TooShort));

    assert!("a".repeat(Short::MAX_LENGTH).parse::<Short>().is_ok());
    assert_eq!(
        "a".repeat(Short::MAX_LENGTH + 1).parse::<Short>(),
        Err(InvalidShortError::TooLong)
    );

    assert_eq!(
        "a?b".parse::<Short>(),
        Err(InvalidShortError::InvalidCharacters)
    );
}

#[test]
fn test_short_parse_roundtrip() {
    let short = Short::parse("Ab-._~09").unwrap();
    assert_eq!(short.as_str(), "Ab-._~09");
}

#[test]
fn test_short_conversions() {
    assert_eq!(
        Short::try_from("a?b"),
        Err(InvalidShortError::InvalidCharacters)
    );
    let short = Short::try_from("ferris").unwrap();
    assert_eq!(String::from(short), "ferris".to_owned());
}

#[test]
fn test_short_length_error_precedes_character_error() {
    let long_and_bad = format!("{}?", "a".repeat(Short::MAX_LENGTH));
    assert_eq!(
        long_and_bad.parse::<Short>(),
        Err(InvalidShortError::TooLong)
    );
}

#[test]
fn test_shorturl_new_canonicalizes_target() {
    let short_url = ShortUrl::new("rust".to_owned(), "https://rust-lang.org".to_owned()).unwrap();
    assert_eq!(short_url.short_url().as_str(), "rust");
    assert_eq!(short_url.target_url().as_str(), "https://rust-lang.org/");
}

#[test]
fn test_shorturl_new_rejects_invalid_code() {
    let r = ShortUrl::new("a?b".to_owned(), "https://rust-lang.org".to_owned());
    assert_eq!(
        r,
        Err(UrlclawError::ShortUrlInvalid(
            InvalidShortError::InvalidCharacters
        ))
    );
}

#[test]
fn test_shorturl_new_rejects_relative_target() {
    let r = ShortUrl::new("rust".to_owned(), "not-a-url".to_owned());
    assert!(matches!(r, Err(UrlclawError::InvalidTarget(_))));
}

#[test]
fn test_shorturl_new_reports_code_error_first() {
    let r = ShortUrl::new("".to_owned(), "not-a-url".to_owned());
    assert_eq!(
        r,
        Err(UrlclawError::ShortUrlInvalid(InvalidShortError::TooShort))
    );
}

#[test]
fn test_shorturl_storage_roundtrip() {
    let u = ShortUrl::new("rust".to_owned(), "https://rust-lang.org".to_owned()).unwrap();
    let v = ShortUrl::from_db(
        u.uuid(),
        String::from(u.short_url().clone()),
        u.target_url().to_string(),
    )
    .unwrap();
    assert_eq!(v, u);
}

#[test]
fn test_shorturl_from_db_rebuilds_entity() {
    let short_url = ShortUrl::from_db(7, "rust".to_owned(), "https://rust-lang.org/".to_owned())
        .unwrap();
    assert_eq!(short_url.uuid(), 7);
    assert_eq!(short_url.short_url().as_str(), "rust");
    assert_eq!(short_url.target_url().as_str(), "https://rust-lang.org/");
}

#[test]
fn test_shorturl_from_db_rejects_corrupt_target() {
    let r = ShortUrl::from_db(7, "rust".to_owned(), "no longer a url".to_owned());
    assert!(matches!(r, Err(UrlclawError::InvalidTarget(_))));
}

#[test]
fn test_shorturl_from_db_rejects_corrupt_code() {
    let r = ShortUrl::from_db(7, "".to_owned(), "https://rust-lang.org/".to_owned());
    assert_eq!(
        r,
        Err(UrlclawError::ShortUrlInvalid(InvalidShortError::TooShort))
    );
}

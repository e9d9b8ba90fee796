use urlclaw::models::ShortUrl;
use urlclaw::repository::memory::InMemoryRepository;
use urlclaw::repository::relational::{
    interpret_fetch, interpret_insert, FetchOutcome, InsertOutcome,
};
use urlclaw::repository::ShortUrlRepository;
use urlclaw::UrlclawError;

#[test]
fn test_inmemory_repo() {
    let mut repo = InMemoryRepository::default();

    let short_url = ShortUrl::new("rust".to_owned(), "https://rust-lang.org".to_owned()).unwrap();

    repo.create_shorturl(&short_url).unwrap();

    let other_short_url = repo.get_from_short("rust").unwrap();
    assert_eq!(short_url, other_short_url);
}

#[test]
fn test_inmemory_duplicate_insert_keeps_original() {
    let mut repo = InMemoryRepository::default();

    let original = ShortUrl::new("rust".to_owned(), "https://rust-lang.org".to_owned()).unwrap();
    repo.create_shorturl(&original).unwrap();

    let second = ShortUrl::new("rust".to_owned(), "https://example.org".to_owned()).unwrap();
    assert!(matches!(
        repo.create_shorturl(&second),
        Err(UrlclawError::ShortAlreadyExists)
    ));

    let stored = repo.get_from_short("rust").unwrap();
    assert_eq!(stored, original);
    assert_eq!(stored.target_url().as_str(), "https://rust-lang.org/");
}

#[test]
fn test_inmemory_find_missing() {
    let mut repo = InMemoryRepository::default();
    assert!(matches!(
        repo.get_from_short("rust"),
        Err(UrlclawError::UrlNotFound)
    ));
}

#[test]
fn test_inmemory_codes_are_case_sensitive() {
    let mut repo = InMemoryRepository::default();
    let short_url = ShortUrl::new("Rust".to_owned(), "https://rust-lang.org".to_owned()).unwrap();
    repo.create_shorturl(&short_url).unwrap();

    assert!(matches!(
        repo.get_from_short("rust"),
        Err(UrlclawError::UrlNotFound)
    ));
    assert!(repo.get_from_short("Rust").is_ok());
}

#[test]
fn test_interpret_fetch_row() {
    let outcome = FetchOutcome::Row {
        id: 42,
        short: "rust".to_owned(),
        target: "https://rust-lang.org/".to_owned(),
    };
    let short_url = interpret_fetch(outcome).unwrap();
    assert_eq!(short_url.uuid(), 42);
    assert_eq!(short_url.short_url().as_str(), "rust");
    assert_eq!(short_url.target_url().as_str(), "https://rust-lang.org/");
}

#[test]
fn test_interpret_fetch_no_row() {
    assert_eq!(
        interpret_fetch(FetchOutcome::NoRow),
        Err(UrlclawError::UrlNotFound)
    );
}

#[test]
fn test_interpret_fetch_failure() {
    assert_eq!(
        interpret_fetch(FetchOutcome::Failure("connection reset".to_owned())),
        Err(UrlclawError::Database("connection reset".to_owned()))
    );
}

#[test]
fn test_interpret_fetch_corrupt_row() {
    let outcome = FetchOutcome::Row {
        id: 42,
        short: "rust".to_owned(),
        target: "no longer a url".to_owned(),
    };
    assert!(matches!(
        interpret_fetch(outcome),
        Err(UrlclawError::InvalidTarget(_))
    ));
}

#[test]
fn test_interpret_insert_outcomes() {
    assert_eq!(interpret_insert(InsertOutcome::Inserted), Ok(()));
    assert_eq!(
        interpret_insert(InsertOutcome::UniqueViolation),
        Err(UrlclawError::ShortAlreadyExists)
    );
    assert_eq!(
        interpret_insert(InsertOutcome::Failure("timeout".to_owned())),
        Err(UrlclawError::Database("timeout".to_owned()))
    );
}

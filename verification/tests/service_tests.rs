use url_shortener::response::{health_response, Response};
use url_shortener::service::{
    after_attempt, resolve, resolve_response, short_url, shorten, shorten_response,
    shorten_with_candidates, validate_url, Attempt, ShortenError, MAX_ATTEMPTS,
};
use url_shortener::store::{MemoryStore, StoreError};

fn candidates(codes: &[&str]) -> Vec<String> {
    codes.iter().map(|c| c.to_string()).collect()
}

#[test]
fn shorten_then_resolve_redirects_to_the_url() {
    let mut store = MemoryStore::new();
    let row = shorten(&mut store, "https://example.com/path", 10).unwrap();
    assert_eq!(row.short_code.chars().count(), 8);
    assert_eq!(row.original_url, "https://example.com/path");
    let response = resolve(&store, &row.short_code);
    assert_eq!(response.status, 307);
    assert_eq!(response.location.as_deref(), Some("https://example.com/path"));
    assert_eq!(response.body, "");
    assert!(response.is_redirect());
}

#[test]
fn shorten_response_contains_the_short_url() {
    let mut store = MemoryStore::new();
    let outcome = shorten(&mut store, "https://example.com/path", 10);
    let code = outcome.as_ref().unwrap().short_code.clone();
    let response = shorten_response("localhost:8080", &outcome);
    assert_eq!(response.status, 200);
    assert_eq!(response.location, None);
    assert_eq!(
        response.body,
        format!("Your shortened URL is: http://localhost:8080/{}", code)
    );
}

#[test]
fn resolve_of_unknown_code_is_not_found() {
    let store = MemoryStore::new();
    let response = resolve(&store, "doesnotexist");
    assert_eq!(response.status, 404);
    assert_eq!(response.body, "URL not found");
    assert_eq!(response.location, None);
    assert!(!response.is_redirect());
}

#[test]
fn resolve_of_unissued_code_in_a_filled_store_is_not_found() {
    let mut store = MemoryStore::new();
    let row = shorten(&mut store, "https://example.com", 1).unwrap();
    let other = format!("{}x", row.short_code);
    let response = resolve(&store, &other);
    assert_eq!(response.status, 404);
    assert_eq!(response.location, None);
}

#[test]
fn round_trip_for_many_urls() {
    let mut store = MemoryStore::new();
    let mut issued: Vec<(String, String)> = Vec::new();
    for i in 0..50 {
        let url = format!("https://example.com/page/{}?q=a b&r=ü", i);
        let row = shorten(&mut store, &url, i).unwrap();
        issued.push((row.short_code, url));
    }
    for (code, url) in issued.iter() {
        let response = resolve(&store, code);
        assert_eq!(response.status, 307);
        assert_eq!(response.location.as_deref(), Some(url.as_str()));
    }
}

#[test]
fn stored_codes_are_unique() {
    let mut store = MemoryStore::new();
    let mut codes: Vec<String> = Vec::new();
    for i in 0..100 {
        let row = shorten(&mut store, "https://example.com", i).unwrap();
        assert!(!codes.contains(&row.short_code));
        codes.push(row.short_code);
    }
    assert_eq!(store.len(), 100);
}

#[test]
fn same_url_twice_gives_two_codes_that_both_resolve() {
    let mut store = MemoryStore::new();
    let first = shorten(&mut store, "https://example.com/same", 1).unwrap();
    let second = shorten(&mut store, "https://example.com/same", 2).unwrap();
    assert_ne!(first.short_code, second.short_code);
    assert_ne!(first.id, second.id);
    for code in [&first.short_code, &second.short_code] {
        let response = resolve(&store, code);
        assert_eq!(response.status, 307);
        assert_eq!(response.location.as_deref(), Some("https://example.com/same"));
    }
}

#[test]
fn empty_url_is_a_validation_error() {
    assert_eq!(validate_url(""), Err(ShortenError::Validation));
    assert_eq!(validate_url("x"), Ok(()));
    assert_eq!(validate_url(" "), Ok(()));
    assert_eq!(validate_url("not a url at all"), Ok(()));
    let mut store = MemoryStore::new();
    let outcome = shorten(&mut store, "", 1);
    assert_eq!(outcome.as_ref().unwrap_err(), &ShortenError::Validation);
    assert_eq!(store.len(), 0);
    let response = shorten_response("localhost", &outcome);
    assert_eq!(response.status, 400);
    assert_eq!(response.body, "original_url is required");
    assert_eq!(response.location, None);
}

#[test]
fn forced_collisions_take_the_retry_path() {
    let mut store = MemoryStore::new();
    let forced = candidates(&["aaaaaaaa", "aaaaaaaa", "bbbbbbbb"]);
    let first = shorten_with_candidates(&mut store, &forced, "https://one.example", 1).unwrap();
    let second = shorten_with_candidates(&mut store, &forced, "https://two.example", 2).unwrap();
    assert_eq!(first.short_code, "aaaaaaaa");
    assert_eq!(second.short_code, "bbbbbbbb");
    assert_eq!((first.id, second.id), (1, 2));
    assert_eq!(store.len(), 2);
    assert_eq!(
        resolve(&store, "aaaaaaaa").location.as_deref(),
        Some("https://one.example")
    );
    assert_eq!(
        resolve(&store, "bbbbbbbb").location.as_deref(),
        Some("https://two.example")
    );
}

#[test]
fn exhausted_candidates_fail_without_overwriting() {
    let mut store = MemoryStore::new();
    let forced = candidates(&["aaaaaaaa", "bbbbbbbb"]);
    shorten_with_candidates(&mut store, &forced, "https://one.example", 1).unwrap();
    shorten_with_candidates(&mut store, &forced, "https://two.example", 2).unwrap();
    let third = shorten_with_candidates(&mut store, &forced, "https://three.example", 3);
    assert_eq!(third.as_ref().unwrap_err(), &ShortenError::GenerationExhausted);
    assert_eq!(store.len(), 2);
    assert_eq!(
        resolve(&store, "aaaaaaaa").location.as_deref(),
        Some("https://one.example")
    );
    let response = shorten_response("localhost", &third);
    assert_eq!(response.status, 500);
    assert_eq!(response.body, "No free short code");
}

#[test]
fn no_candidates_means_exhausted() {
    let mut store = MemoryStore::new();
    let outcome = shorten_with_candidates(&mut store, &Vec::new(), "https://example.com", 1);
    assert_eq!(outcome.unwrap_err(), ShortenError::GenerationExhausted);
    assert_eq!(store.len(), 0);
}

#[test]
fn empty_url_wins_over_candidates() {
    let mut store = MemoryStore::new();
    let outcome = shorten_with_candidates(&mut store, &candidates(&["aaaaaaaa"]), "", 1);
    assert_eq!(outcome.unwrap_err(), ShortenError::Validation);
    assert_eq!(store.len(), 0);
}

#[test]
fn full_store_is_unavailable() {
    let mut store = MemoryStore::starting_at(u64::MAX);
    let outcome = shorten(&mut store, "https://example.com", 1);
    assert_eq!(outcome.as_ref().unwrap_err(), &ShortenError::StoreUnavailable);
    assert_eq!(store.len(), 0);
    let response = shorten_response("localhost", &outcome);
    assert_eq!(response.status, 503);
    assert_eq!(response.body, "Store unavailable");
    let forced = shorten_with_candidates(&mut store, &candidates(&["aaaaaaaa"]), "https://x", 1);
    assert_eq!(forced.unwrap_err(), ShortenError::StoreUnavailable);
}

#[test]
fn after_attempt_decides() {
    let mut store = MemoryStore::new();
    let stored = after_attempt(store.insert("aaaaaaaa", "https://a.example", 1), 3);
    match stored {
        Attempt::Stored(row) => assert_eq!(row.short_code, "aaaaaaaa"),
        other => panic!("unexpected {:?}", other),
    }
    match after_attempt(Err(StoreError::DuplicateCode), 3) {
        Attempt::Retry { attempts_left } => assert_eq!(attempts_left, 2),
        other => panic!("unexpected {:?}", other),
    }
    match after_attempt(Err(StoreError::DuplicateCode), 2) {
        Attempt::Retry { attempts_left } => assert_eq!(attempts_left, 1),
        other => panic!("unexpected {:?}", other),
    }
    match after_attempt(Err(StoreError::DuplicateCode), 1) {
        Attempt::Failed(e) => assert_eq!(e, ShortenError::GenerationExhausted),
        other => panic!("unexpected {:?}", other),
    }
    match after_attempt(Err(StoreError::DuplicateCode), 0) {
        Attempt::Failed(e) => assert_eq!(e, ShortenError::GenerationExhausted),
        other => panic!("unexpected {:?}", other),
    }
    match after_attempt(Err(StoreError::Unavailable), MAX_ATTEMPTS) {
        Attempt::Failed(e) => assert_eq!(e, ShortenError::StoreUnavailable),
        other => panic!("unexpected {:?}", other),
    }
}

#[test]
fn attempts_are_bounded() {
    assert_eq!(MAX_ATTEMPTS, 5);
    let mut left = MAX_ATTEMPTS;
    let mut tries = 0;
    loop {
        tries += 1;
        match after_attempt(Err(StoreError::DuplicateCode), left) {
            Attempt::Retry { attempts_left } => left = attempts_left,
            Attempt::Failed(e) => {
                assert_eq!(e, ShortenError::GenerationExhausted);
                break;
            }
            Attempt::Stored(_) => unreachable!(),
        }
    }
    assert_eq!(tries, 5);
}

#[test]
fn short_url_is_fully_qualified() {
    assert_eq!(
        short_url("localhost:8080", "abcd1234"),
        "http://localhost:8080/abcd1234"
    );
    assert_eq!(short_url("", ""), "http:///");
}

#[test]
fn resolve_response_for_each_case() {
    let mut store = MemoryStore::new();
    store.insert("abcd1234", "https://example.com/path", 1).unwrap();
    let hit = resolve_response(&store.lookup("abcd1234"));
    assert_eq!(hit.status, 307);
    assert_eq!(hit.location.as_deref(), Some("https://example.com/path"));
    let miss = resolve_response(&None);
    assert_eq!(miss.status, 404);
    assert_eq!(miss.location, None);
    assert_eq!(miss.body, "URL not found");
}

#[test]
fn health_answer_is_static() {
    let response = health_response();
    assert_eq!(response.status, 200);
    assert_eq!(response.body, "Hello world!");
    assert_eq!(response.location, None);
}

#[test]
fn response_builders() {
    let plain = Response::plain(418, String::from("tea"));
    assert_eq!(plain.status, 418);
    assert_eq!(plain.body, "tea");
    assert_eq!(plain.location, None);
    let redirect = Response::redirect("https://example.com");
    assert_eq!(redirect.status, 307);
    assert_eq!(redirect.location.as_deref(), Some("https://example.com"));
    let missing = Response::not_found();
    assert_eq!(missing.status, 404);
}

use linkifier::code::generate_code;
use linkifier::model::{Link, Timestamp};
use linkifier::service::{
    create, finish_create, prepare_link, resolve, resolve_lookup, CreateError, ResolveOutcome,
};
use linkifier::store::{LinkStore, StoreError};

fn is_code_shape(code: &str) -> bool {
    code.chars().count() == 6 && code.chars().all(|c| c.is_ascii_alphanumeric())
}

#[test]
fn create_generated_then_resolve() {
    let mut store = LinkStore::new();
    let code = create(&mut store, None, "https://example.com".to_string()).unwrap();
    assert!(is_code_shape(&code));
    let outcome = resolve(&store, &code);
    assert_eq!(outcome.status_code(), 200);
    assert_eq!(outcome.message(), "https://example.com");
    assert!(matches!(outcome, ResolveOutcome::Found(ref t) if t == "https://example.com"));
}

#[test]
fn resolve_unknown_is_not_found() {
    let store = LinkStore::new();
    let outcome = resolve(&store, &"doesnotexist".to_string());
    assert!(matches!(outcome, ResolveOutcome::NotFound));
    assert_eq!(outcome.status_code(), 404);
    assert_eq!(outcome.message(), "Link not found");
}

#[test]
fn create_with_empty_target_is_rejected() {
    let mut store = LinkStore::new();
    let err = create(&mut store, Some("a".to_string()), String::new()).unwrap_err();
    assert!(matches!(err, CreateError::MissingTarget));
    assert_eq!(err.status_code(), 400);
    assert_eq!(err.message(), "Redirect URL is required");
    assert_eq!(store.len(), 0);
    let err = create(&mut store, None, String::new()).unwrap_err();
    assert!(matches!(err, CreateError::MissingTarget));
}

#[test]
fn create_with_requested_code_round_trips() {
    let mut store = LinkStore::new();
    let code = create(&mut store, Some("docs".to_string()), "https://docs.rs".to_string()).unwrap();
    assert_eq!(code, "docs");
    let outcome = resolve(&store, &"docs".to_string());
    assert_eq!(outcome.message(), "https://docs.rs");
}

#[test]
fn second_create_with_same_code_conflicts() {
    let mut store = LinkStore::new();
    assert!(create(&mut store, Some("same".to_string()), "https://one.example".to_string()).is_ok());
    let err = create(&mut store, Some("same".to_string()), "https://two.example".to_string())
        .unwrap_err();
    assert!(matches!(err, CreateError::Conflict(ref t) if t == "same"));
    assert_eq!(err.status_code(), 500);
    assert_eq!(err.message(), "Database error: same");
    assert_eq!(store.len(), 1);
    assert_eq!(resolve(&store, &"same".to_string()).message(), "https://one.example");
}

#[test]
fn other_codes_stay_unknown_after_create() {
    let mut store = LinkStore::new();
    create(&mut store, Some("known".to_string()), "https://known.example".to_string()).unwrap();
    assert!(matches!(resolve(&store, &"never-created".to_string()), ResolveOutcome::NotFound));
    assert!(matches!(resolve(&store, &"know".to_string()), ResolveOutcome::NotFound));
}

#[test]
fn generated_codes_have_six_alphanumerics() {
    for _ in 0..50 {
        let code = generate_code();
        assert!(is_code_shape(&code), "bad code {code:?}");
    }
}

#[test]
fn prepare_link_keeps_requested_code_and_target() {
    let link = prepare_link(Some("abc".to_string()), "https://a.example".to_string()).unwrap();
    assert_eq!(link.link, "abc");
    assert_eq!(link.redirect, "https://a.example");
    let link = prepare_link(None, "https://b.example".to_string()).unwrap();
    assert!(is_code_shape(&link.link));
    assert!(matches!(prepare_link(None, String::new()), Err(CreateError::MissingTarget)));
}

#[test]
fn finish_create_maps_each_store_answer() {
    assert_eq!(finish_create("c".to_string(), Ok(())).unwrap(), "c");
    let e = finish_create("c".to_string(), Err(StoreError::DuplicateCode("dup".to_string())));
    assert!(matches!(e, Err(CreateError::Conflict(ref t)) if t == "dup"));
    let e = finish_create("c".to_string(), Err(StoreError::Unavailable("down".to_string())));
    let e = e.unwrap_err();
    assert!(matches!(e, CreateError::Unavailable(ref t) if t == "down"));
    assert_eq!(e.status_code(), 500);
    assert_eq!(e.message(), "Database error: down");
}

#[test]
fn resolve_lookup_maps_each_store_answer() {
    let link = Link {
        link: "x".to_string(),
        created_at: Timestamp { secs: 0, nanos: 0 },
        redirect: "https://x.example".to_string(),
    };
    let found = resolve_lookup(Ok(Some(link)));
    assert!(matches!(found, ResolveOutcome::Found(ref t) if t == "https://x.example"));
    assert!(matches!(resolve_lookup(Ok(None)), ResolveOutcome::NotFound));
    let down = resolve_lookup(Err(StoreError::Unavailable("timeout".to_string())));
    assert!(matches!(down, ResolveOutcome::Unavailable(ref t) if t == "timeout"));
    assert_eq!(down.status_code(), 500);
    assert_eq!(down.message(), "Database error: timeout");
}

#[test]
fn store_insert_and_find() {
    let mut store = LinkStore::new();
    let link = Link {
        link: "k".to_string(),
        created_at: Timestamp { secs: 1_700_000_000, nanos: 5 },
        redirect: "https://k.example".to_string(),
    };
    assert!(store.insert(link.cloned()).is_ok());
    let err = store.insert(link.cloned()).unwrap_err();
    assert!(matches!(err, StoreError::DuplicateCode(ref c) if c == "k"));
    let found = store.find_by_code(&"k".to_string()).unwrap();
    assert_eq!(found.redirect, "https://k.example");
    assert_eq!(found.created_at, Timestamp { secs: 1_700_000_000, nanos: 5 });
    assert!(store.find_by_code(&"K".to_string()).is_none());
}

#[test]
fn created_link_gets_a_recent_timestamp() {
    let link = prepare_link(None, "https://t.example".to_string()).unwrap();
    assert!(link.created_at.secs > 1_600_000_000);
    assert!(link.created_at.nanos < 2_000_000_000);
}

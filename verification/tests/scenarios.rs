//! End-to-end scenarios against a stub transport: a canonical request is
//! produced by normalization, the stubbed transport outcome is fed through
//! settlement, and the caller-visible result is checked.

use sonic_client::error::ErrorKind;
use sonic_client::lang::LanguageTag;
use sonic_client::mode::CountRequest;
use sonic_client::mode::select_count;
use sonic_client::normalize::normalize_push;
use sonic_client::normalize::normalize_query;
use sonic_client::outcome::settle_count;
use sonic_client::outcome::settle_items;

#[test]
fn it_works() {
    assert_eq!(4 + 1, 5)
}

#[test]
fn query_without_bucket_returns_stub_order() {
    let req = normalize_query(
        "messages",
        Vec::new(),
        None,
        Some("hello world".to_string()),
        None,
        None,
        None,
    )
    .unwrap();
    // The transport receives a collection-only destination and the literal
    // terms string.
    assert_eq!(req.dest.collection, "messages");
    assert_eq!(req.dest.bucket, None);
    assert_eq!(req.terms, "hello world");
    // The stub answers with two identifiers; the caller receives exactly
    // that ordered sequence.
    let stub = Ok(vec!["id:1".to_string(), "id:2".to_string()]);
    let out = settle_items(stub).unwrap();
    assert_eq!(out, vec!["id:1".to_string(), "id:2".to_string()]);
}

#[test]
fn query_with_bucket_same_canonical_request() {
    let req = normalize_query(
        "messages",
        vec!["hello world".to_string()],
        Some("default".to_string()),
        None,
        None,
        None,
        None,
    )
    .unwrap();
    // Same canonical request as the bucketless call, except for the bucket.
    assert_eq!(req.dest.collection, "messages");
    assert_eq!(req.dest.bucket.as_deref(), Some("default"));
    assert_eq!(req.terms, "hello world");
    assert_eq!(req.lang, LanguageTag::Unspecified);
}

#[test]
fn push_reaches_transport_with_object_destination() {
    let req = normalize_push(
        "messages",
        Vec::new(),
        Some("default".to_string()),
        Some("obj:1".to_string()),
        Some("some text".to_string()),
        Some("eng"),
    )
    .unwrap();
    assert_eq!(req.target.dest.collection, "messages");
    assert_eq!(req.target.dest.bucket.as_deref(), Some("default"));
    assert_eq!(req.target.object, "obj:1");
    assert_eq!(req.text, "some text");
    assert_eq!(req.lang, LanguageTag::Eng);
}

#[test]
fn count_whole_collection_returns_stub_value() {
    let req = select_count("messages", None, None);
    assert!(matches!(req, CountRequest::Buckets { .. }));
    // The stub answers 3; the caller receives 3.
    assert_eq!(settle_count(Ok(3)).unwrap(), 3);
}

#[test]
fn count_object_granularity_is_forwarded() {
    match select_count("messages", Some("default"), Some("obj:1")) {
        CountRequest::Words { collection, bucket, object } => {
            assert_eq!(collection, "messages");
            assert_eq!(bucket, "default");
            assert_eq!(object, "obj:1");
        }
        other => panic!("expected word-count granularity, got {:?}", other),
    }
}

#[test]
fn three_positional_arguments_make_no_request() {
    // Normalization rejects the call before any request exists, so no
    // transport interaction can take place.
    let e = normalize_query(
        "messages",
        vec!["a".to_string(), "b".to_string(), "c".to_string()],
        None,
        None,
        None,
        None,
        None,
    )
    .unwrap_err();
    assert_eq!(e.kind, ErrorKind::InvalidArguments);
    assert_eq!(e.message, "Invalid arguments");
}

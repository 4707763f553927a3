use sonic_client::lang::LanguageTag;
use sonic_client::requests::PopRequest;
use sonic_client::requests::PushRequest;
use sonic_client::requests::QueryRequest;
use sonic_client::requests::SuggestRequest;
use sonic_client::requests::build_pop_request;
use sonic_client::requests::build_push_request;
use sonic_client::requests::build_query_request;
use sonic_client::requests::build_suggest_request;

#[test]
fn query_request_fields_round_trip() {
    let q = build_query_request(
        "messages",
        Some("default"),
        "hello world".to_string(),
        Some("eng"),
        Some(10),
        Some(2),
    );
    let (dest, terms, lang, limit, offset) = q.into_parts();
    let rebuilt = QueryRequest::from_parts(dest, terms, lang, limit, offset);
    assert_eq!(rebuilt.dest.collection, "messages");
    assert_eq!(rebuilt.dest.bucket.as_deref(), Some("default"));
    assert_eq!(rebuilt.terms, "hello world");
    assert_eq!(rebuilt.lang, LanguageTag::Eng);
    assert_eq!(rebuilt.limit, Some(10));
    assert_eq!(rebuilt.offset, Some(2));
}

#[test]
fn suggest_request_fields_round_trip() {
    let q = build_suggest_request("messages", None, "hel".to_string(), None);
    let (dest, word, limit) = q.into_parts();
    let rebuilt = SuggestRequest::from_parts(dest, word, limit);
    assert_eq!(rebuilt.dest.collection, "messages");
    assert_eq!(rebuilt.dest.bucket, None);
    assert_eq!(rebuilt.word, "hel");
    assert_eq!(rebuilt.limit, None);
}

#[test]
fn push_request_fields_round_trip() {
    let q = build_push_request(
        "messages",
        Some("default"),
        "obj:1",
        "some text".to_string(),
        Some("fra"),
    );
    let (target, text, lang) = q.into_parts();
    let rebuilt = PushRequest::from_parts(target, text, lang);
    assert_eq!(rebuilt.target.dest.collection, "messages");
    assert_eq!(rebuilt.target.dest.bucket.as_deref(), Some("default"));
    assert_eq!(rebuilt.target.object, "obj:1");
    assert_eq!(rebuilt.text, "some text");
    assert_eq!(rebuilt.lang, LanguageTag::Fra);
}

#[test]
fn pop_request_fields_round_trip() {
    let q = build_pop_request("messages", None, "obj:1", "some text".to_string());
    let (target, text) = q.into_parts();
    let rebuilt = PopRequest::from_parts(target, text);
    assert_eq!(rebuilt.target.dest.collection, "messages");
    assert_eq!(rebuilt.target.dest.bucket, None);
    assert_eq!(rebuilt.target.object, "obj:1");
    assert_eq!(rebuilt.text, "some text");
}

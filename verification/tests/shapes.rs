use sonic_client::error::ErrorKind;
use sonic_client::lang::LanguageTag;
use sonic_client::normalize::normalize_pop;
use sonic_client::normalize::normalize_push;
use sonic_client::normalize::normalize_query;
use sonic_client::normalize::normalize_suggest;

fn strings(items: &[&str]) -> Vec<String> {
    items.iter().map(|s| s.to_string()).collect()
}

#[test]
fn query_named_terms_without_bucket() {
    let r = normalize_query(
        "messages",
        Vec::new(),
        None,
        Some("hello world".to_string()),
        None,
        None,
        None,
    )
    .unwrap();
    assert_eq!(r.dest.collection, "messages");
    assert_eq!(r.dest.bucket, None);
    assert_eq!(r.terms, "hello world");
    assert_eq!(r.lang, LanguageTag::Unspecified);
    assert_eq!(r.limit, None);
    assert_eq!(r.offset, None);
}

#[test]
fn query_named_bucket_and_terms() {
    let r = normalize_query(
        "messages",
        Vec::new(),
        Some("default".to_string()),
        Some("hello".to_string()),
        Some("eng"),
        Some(10),
        Some(2),
    )
    .unwrap();
    assert_eq!(r.dest.bucket.as_deref(), Some("default"));
    assert_eq!(r.terms, "hello");
    assert_eq!(r.lang, LanguageTag::Eng);
    assert_eq!(r.limit, Some(10));
    assert_eq!(r.offset, Some(2));
}

#[test]
fn query_positional_terms() {
    let r = normalize_query("messages", strings(&["hello"]), None, None, None, None, None)
        .unwrap();
    assert_eq!(r.dest.bucket, None);
    assert_eq!(r.terms, "hello");
}

#[test]
fn query_named_bucket_positional_terms() {
    let r = normalize_query(
        "messages",
        strings(&["hello"]),
        Some("default".to_string()),
        None,
        None,
        None,
        None,
    )
    .unwrap();
    assert_eq!(r.dest.bucket.as_deref(), Some("default"));
    assert_eq!(r.terms, "hello");
}

#[test]
fn query_terms_supplied_twice_is_rejected() {
    let e = normalize_query(
        "messages",
        strings(&["hello"]),
        None,
        Some("hello".to_string()),
        None,
        None,
        None,
    )
    .unwrap_err();
    assert_eq!(e.kind, ErrorKind::InvalidArguments);
    assert_eq!(e.message, "Invalid arguments");
}

#[test]
fn query_wrong_positional_count_is_rejected() {
    assert!(normalize_query("messages", Vec::new(), None, None, None, None, None).is_err());
    let two = normalize_query("messages", strings(&["default", "hello"]), None, None, None, None, None);
    assert_eq!(two.unwrap_err().kind, ErrorKind::InvalidArguments);
}

#[test]
fn suggest_named_word() {
    let r = normalize_suggest(
        "messages",
        Vec::new(),
        Some("default".to_string()),
        Some("hel".to_string()),
        Some(5),
    )
    .unwrap();
    assert_eq!(r.dest.collection, "messages");
    assert_eq!(r.dest.bucket.as_deref(), Some("default"));
    assert_eq!(r.word, "hel");
    assert_eq!(r.limit, Some(5));
}

#[test]
fn suggest_positional_word() {
    let r = normalize_suggest("messages", strings(&["hel"]), None, None, None).unwrap();
    assert_eq!(r.dest.bucket, None);
    assert_eq!(r.word, "hel");
}

#[test]
fn suggest_missing_word_is_rejected() {
    let e = normalize_suggest("messages", Vec::new(), Some("default".to_string()), None, None)
        .unwrap_err();
    assert_eq!(e.kind, ErrorKind::InvalidArguments);
    assert_eq!(e.message, "Invalid arguments");
}

#[test]
fn push_all_named() {
    let r = normalize_push(
        "messages",
        Vec::new(),
        Some("default".to_string()),
        Some("obj:1".to_string()),
        Some("some text".to_string()),
        Some("eng"),
    )
    .unwrap();
    assert_eq!(r.target.dest.collection, "messages");
    assert_eq!(r.target.dest.bucket.as_deref(), Some("default"));
    assert_eq!(r.target.object, "obj:1");
    assert_eq!(r.text, "some text");
    assert_eq!(r.lang, LanguageTag::Eng);
}

#[test]
fn push_positional_object_named_text() {
    let r = normalize_push(
        "messages",
        strings(&["obj:1"]),
        None,
        None,
        Some("some text".to_string()),
        None,
    )
    .unwrap();
    assert_eq!(r.target.dest.bucket, None);
    assert_eq!(r.target.object, "obj:1");
    assert_eq!(r.text, "some text");
    assert_eq!(r.lang, LanguageTag::Unspecified);
}

#[test]
fn push_without_named_text_is_rejected() {
    let e = normalize_push(
        "messages",
        strings(&["obj:1", "some text"]),
        None,
        None,
        None,
        None,
    )
    .unwrap_err();
    assert_eq!(e.kind, ErrorKind::InvalidArguments);
}

#[test]
fn push_object_supplied_twice_is_rejected() {
    let e = normalize_push(
        "messages",
        strings(&["obj:1"]),
        None,
        Some("obj:1".to_string()),
        Some("some text".to_string()),
        None,
    )
    .unwrap_err();
    assert_eq!(e.kind, ErrorKind::InvalidArguments);
}

#[test]
fn pop_all_named() {
    let r = normalize_pop(
        "messages",
        Vec::new(),
        Some("default".to_string()),
        Some("obj:1".to_string()),
        Some("some text".to_string()),
    )
    .unwrap();
    assert_eq!(r.target.dest.bucket.as_deref(), Some("default"));
    assert_eq!(r.target.object, "obj:1");
    assert_eq!(r.text, "some text");
}

#[test]
fn pop_positional_object_and_text() {
    let r = normalize_pop("messages", strings(&["obj:1", "some text"]), None, None, None)
        .unwrap();
    assert_eq!(r.target.dest.bucket, None);
    assert_eq!(r.target.object, "obj:1");
    assert_eq!(r.text, "some text");
}

#[test]
fn pop_named_bucket_positional_rest() {
    let r = normalize_pop(
        "messages",
        strings(&["obj:1", "some text"]),
        Some("default".to_string()),
        None,
        None,
    )
    .unwrap();
    assert_eq!(r.target.dest.bucket.as_deref(), Some("default"));
    assert_eq!(r.target.object, "obj:1");
}

#[test]
fn pop_wrong_positional_count_is_rejected() {
    let one = normalize_pop("messages", strings(&["obj:1"]), None, None, None);
    assert_eq!(one.unwrap_err().kind, ErrorKind::InvalidArguments);
    let three = normalize_pop("messages", strings(&["a", "b", "c"]), None, None, None);
    assert_eq!(three.unwrap_err().kind, ErrorKind::InvalidArguments);
}

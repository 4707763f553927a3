use sonic_client::dest::resolve_destination;
use sonic_client::dest::resolve_object_destination;

#[test]
fn bucket_and_whole_collection_differ() {
    let with_bucket = resolve_destination("messages", Some("default"));
    let whole = resolve_destination("messages", None);
    assert_eq!(with_bucket.collection, "messages");
    assert_eq!(with_bucket.bucket.as_deref(), Some("default"));
    assert_eq!(whole.collection, "messages");
    assert_eq!(whole.bucket, None);
    assert_ne!(with_bucket, whole);
}

#[test]
fn equal_destinations_compare_equal() {
    let a = resolve_destination("wiki", Some("user:1"));
    let b = resolve_destination("wiki", Some("user:1"));
    assert_eq!(a, b);
    let c = resolve_destination("wiki", None);
    let d = resolve_destination("wiki", None);
    assert_eq!(c, d);
    assert_ne!(a, c);
}

#[test]
fn empty_bucket_resolves_to_whole_collection() {
    let empty = resolve_destination("wiki", Some(""));
    assert_eq!(empty.bucket, None);
    assert_eq!(empty, resolve_destination("wiki", None));
}

#[test]
fn different_buckets_compare_unequal() {
    let a = resolve_destination("wiki", Some("user:1"));
    let b = resolve_destination("wiki", Some("user:2"));
    assert_ne!(a, b);
}

#[test]
fn object_destination_carries_all_parts() {
    let d = resolve_object_destination("wiki", Some("user:1"), "article:1");
    assert_eq!(d.dest.collection, "wiki");
    assert_eq!(d.dest.bucket.as_deref(), Some("user:1"));
    assert_eq!(d.object, "article:1");
}

#[test]
fn object_destination_without_bucket() {
    let d = resolve_object_destination("wiki", None, "article:9");
    assert_eq!(d.dest.collection, "wiki");
    assert_eq!(d.dest.bucket, None);
    assert_eq!(d.object, "article:9");
}

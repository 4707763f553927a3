use sonic_client::mode::CountRequest;
use sonic_client::mode::FlushRequest;
use sonic_client::mode::select_count;
use sonic_client::mode::select_flush;

#[test]
fn count_without_bucket_scopes_whole_collection() {
    match select_count("messages", None, None) {
        CountRequest::Buckets { collection } => assert_eq!(collection, "messages"),
        other => panic!("expected whole-collection scope, got {:?}", other),
    }
}

#[test]
fn count_with_bucket_scopes_bucket() {
    match select_count("messages", Some("default"), None) {
        CountRequest::Objects { collection, bucket } => {
            assert_eq!(collection, "messages");
            assert_eq!(bucket, "default");
        }
        other => panic!("expected bucket scope, got {:?}", other),
    }
}

#[test]
fn count_with_bucket_and_object_scopes_object() {
    match select_count("messages", Some("default"), Some("obj:1")) {
        CountRequest::Words { collection, bucket, object } => {
            assert_eq!(collection, "messages");
            assert_eq!(bucket, "default");
            assert_eq!(object, "obj:1");
        }
        other => panic!("expected object scope, got {:?}", other),
    }
}

#[test]
fn count_object_without_bucket_falls_back_to_collection() {
    match select_count("messages", None, Some("obj:1")) {
        CountRequest::Buckets { collection } => assert_eq!(collection, "messages"),
        other => panic!("expected permissive whole-collection fallback, got {:?}", other),
    }
}

#[test]
fn flush_without_bucket_scopes_whole_collection() {
    match select_flush("messages", None, None) {
        FlushRequest::Collection { collection } => assert_eq!(collection, "messages"),
        other => panic!("expected whole-collection scope, got {:?}", other),
    }
}

#[test]
fn flush_with_bucket_scopes_bucket() {
    match select_flush("messages", Some("default"), None) {
        FlushRequest::Bucket { collection, bucket } => {
            assert_eq!(collection, "messages");
            assert_eq!(bucket, "default");
        }
        other => panic!("expected bucket scope, got {:?}", other),
    }
}

#[test]
fn flush_with_bucket_and_object_scopes_object() {
    match select_flush("messages", Some("default"), Some("obj:1")) {
        FlushRequest::Object { collection, bucket, object } => {
            assert_eq!(collection, "messages");
            assert_eq!(bucket, "default");
            assert_eq!(object, "obj:1");
        }
        other => panic!("expected object scope, got {:?}", other),
    }
}

#[test]
fn flush_object_without_bucket_falls_back_to_collection() {
    match select_flush("messages", None, Some("obj:1")) {
        FlushRequest::Collection { collection } => assert_eq!(collection, "messages"),
        other => panic!("expected permissive whole-collection fallback, got {:?}", other),
    }
}

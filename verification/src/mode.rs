//! Mode selection for the `count` and `flush` operations.
//!
//! Both operations act at one of three granularities, chosen by which
//! optional identifiers the caller supplied: the whole collection, one
//! bucket, or one object. An object given without a bucket is not
//! independently representable; the selector deliberately falls back to
//! whole-collection scope in that case rather than erroring, mirroring the
//! permissive fallback used elsewhere.

use vstd::prelude::*;

verus! {

/// Mathematical model of a [`CountRequest`].
#[verifier::ext_equal]
pub enum CountRequestView {
    Buckets { collection: Seq<char> },
    Objects { collection: Seq<char>, bucket: Seq<char> },
    Words { collection: Seq<char>, bucket: Seq<char>, object: Seq<char> },
}

/// A counting request at one of three granularities: buckets in a
/// collection, objects in a bucket, or words in an object. Exactly one
/// variant is active per request.
#[derive(Debug, Clone)]
pub enum CountRequest {
    /// Count the buckets of a whole collection.
    Buckets { collection: String },
    /// Count the objects of one bucket.
    Objects { collection: String, bucket: String },
    /// Count the words of one object.
    Words { collection: String, bucket: String, object: String },
}

impl View for CountRequest {
    type V = CountRequestView;

    open spec fn view(&self) -> CountRequestView {
        match self {
            CountRequest::Buckets { collection } => CountRequestView::Buckets {
                collection: collection@,
            },
            CountRequest::Objects { collection, bucket } => CountRequestView::Objects {
                collection: collection@,
                bucket: bucket@,
            },
            CountRequest::Words { collection, bucket, object } => CountRequestView::Words {
                collection: collection@,
                bucket: bucket@,
                object: object@,
            },
        }
    }
}

/// Which count variant the supplied identifiers select: bucket and object
/// give word scope, bucket alone gives object scope, anything else —
/// including an object without a bucket — gives whole-collection scope.
pub open spec fn spec_select_count(
    collection: Seq<char>,
    bucket: Option<Seq<char>>,
    object: Option<Seq<char>>,
) -> CountRequestView {
    match (bucket, object) {
        (Some(b), Some(o)) => CountRequestView::Words { collection, bucket: b, object: o },
        (Some(b), None) => CountRequestView::Objects { collection, bucket: b },
        (None, _) => CountRequestView::Buckets { collection },
    }
}

/// Select the count granularity from the identifiers the caller supplied.
pub fn select_count(collection: &str, bucket: Option<&str>, object: Option<&str>) -> (r:
    CountRequest)
    ensures
        r@ == spec_select_count(collection@, bucket.deep_view(), object.deep_view()),
{
    let r = match (bucket, object) {
        (Some(b), Some(o)) => CountRequest::Words {
            collection: collection.to_owned(),
            bucket: b.to_owned(),
            object: o.to_owned(),
        },
        (Some(b), None) => CountRequest::Objects {
            collection: collection.to_owned(),
            bucket: b.to_owned(),
        },
        (None, _) => CountRequest::Buckets { collection: collection.to_owned() },
    };
    proof {
        assert(r@ =~= spec_select_count(collection@, bucket.deep_view(), object.deep_view()));
    }
    r
}

/// Mathematical model of a [`FlushRequest`].
#[verifier::ext_equal]
pub enum FlushRequestView {
    Collection { collection: Seq<char> },
    Bucket { collection: Seq<char>, bucket: Seq<char> },
    Object { collection: Seq<char>, bucket: Seq<char>, object: Seq<char> },
}

/// A flush request at one of three granularities: a whole collection, one
/// bucket, or one object. Exactly one variant is active per request.
#[derive(Debug, Clone)]
pub enum FlushRequest {
    /// Flush all indexed data of a whole collection.
    Collection { collection: String },
    /// Flush one bucket.
    Bucket { collection: String, bucket: String },
    /// Flush one object.
    Object { collection: String, bucket: String, object: String },
}

impl View for FlushRequest {
    type V = FlushRequestView;

    open spec fn view(&self) -> FlushRequestView {
        match self {
            FlushRequest::Collection { collection } => FlushRequestView::Collection {
                collection: collection@,
            },
            FlushRequest::Bucket { collection, bucket } => FlushRequestView::Bucket {
                collection: collection@,
                bucket: bucket@,
            },
            FlushRequest::Object { collection, bucket, object } => FlushRequestView::Object {
                collection: collection@,
                bucket: bucket@,
                object: object@,
            },
        }
    }
}

/// Which flush variant the supplied identifiers select, with the same
/// permissive fallback as [`spec_select_count`].
pub open spec fn spec_select_flush(
    collection: Seq<char>,
    bucket: Option<Seq<char>>,
    object: Option<Seq<char>>,
) -> FlushRequestView {
    match (bucket, object) {
        (Some(b), Some(o)) => FlushRequestView::Object { collection, bucket: b, object: o },
        (Some(b), None) => FlushRequestView::Bucket { collection, bucket: b },
        (None, _) => FlushRequestView::Collection { collection },
    }
}

/// Select the flush granularity from the identifiers the caller supplied.
pub fn select_flush(collection: &str, bucket: Option<&str>, object: Option<&str>) -> (r:
    FlushRequest)
    ensures
        r@ == spec_select_flush(collection@, bucket.deep_view(), object.deep_view()),
{
    let r = match (bucket, object) {
        (Some(b), Some(o)) => FlushRequest::Object {
            collection: collection.to_owned(),
            bucket: b.to_owned(),
            object: o.to_owned(),
        },
        (Some(b), None) => FlushRequest::Bucket {
            collection: collection.to_owned(),
            bucket: b.to_owned(),
        },
        (None, _) => FlushRequest::Collection { collection: collection.to_owned() },
    };
    proof {
        assert(r@ =~= spec_select_flush(collection@, bucket.deep_view(), object.deep_view()));
    }
    r
}

/// The selector covers every combination of optional identifiers: no bucket
/// selects whole-collection scope (also when an object was given without a
/// bucket — the permissive fallback), a bucket alone selects bucket scope,
/// and a bucket with an object selects object scope.
pub proof fn lemma_mode_selection(collection: Seq<char>, bucket: Seq<char>, object: Seq<char>)
    ensures
        spec_select_count(collection, None, None) == (CountRequestView::Buckets { collection }),
        spec_select_count(collection, Some(bucket), None) == (CountRequestView::Objects {
            collection,
            bucket,
        }),
        spec_select_count(collection, Some(bucket), Some(object)) == (CountRequestView::Words {
            collection,
            bucket,
            object,
        }),
        spec_select_count(collection, None, Some(object)) == (CountRequestView::Buckets {
            collection,
        }),
        spec_select_flush(collection, None, None) == (FlushRequestView::Collection { collection }),
        spec_select_flush(collection, Some(bucket), None) == (FlushRequestView::Bucket {
            collection,
            bucket,
        }),
        spec_select_flush(collection, Some(bucket), Some(object)) == (FlushRequestView::Object {
            collection,
            bucket,
            object,
        }),
        spec_select_flush(collection, None, Some(object)) == (FlushRequestView::Collection {
            collection,
        }),
{
}

} // verus!

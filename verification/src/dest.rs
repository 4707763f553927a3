//! Destinations: where an operation applies.
//!
//! A [`Dest`] names either a whole collection or one bucket within it; an
//! [`ObjDest`] adds the identifier of a single record. The destination
//! resolver turns caller-supplied strings into these canonical forms. It
//! performs no I/O and never fails; collection emptiness is left to the
//! transport to police.

use vstd::prelude::*;

verus! {

/// Mathematical model of a [`Dest`]: a collection name and, for a
/// bucket-level destination, the bucket name. No other nesting is
/// representable.
#[verifier::ext_equal]
pub struct DestView {
    pub collection: Seq<char>,
    pub bucket: Option<Seq<char>>,
}

/// A resolved destination: a whole collection when `bucket` is `None`, one
/// bucket within the collection otherwise. Constructed fresh per call and
/// immutable after construction.
#[derive(Debug, Clone)]
pub struct Dest {
    pub collection: String,
    pub bucket: Option<String>,
}

impl View for Dest {
    type V = DestView;

    open spec fn view(&self) -> DestView {
        DestView { collection: self.collection@, bucket: self.bucket.deep_view() }
    }
}

/// What destination a collection name and an optional bucket resolve to:
/// a bucket-level destination when a non-empty bucket is supplied, the
/// whole-collection destination otherwise.
pub open spec fn spec_resolve_destination(
    collection: Seq<char>,
    bucket: Option<Seq<char>>,
) -> DestView {
    match bucket {
        Some(b) => if b.len() > 0 {
            DestView { collection, bucket: Some(b) }
        } else {
            DestView { collection, bucket: None }
        },
        None => DestView { collection, bucket: None },
    }
}

/// Resolve a collection and an optional bucket into a canonical destination.
/// Never fails; an absent or empty bucket yields the whole-collection form.
pub fn resolve_destination(collection: &str, bucket: Option<&str>) -> (d: Dest)
    ensures
        d@ == spec_resolve_destination(collection@, bucket.deep_view()),
{
    let d = match bucket {
        Some(b) => if b.is_empty() {
            Dest { collection: collection.to_owned(), bucket: None }
        } else {
            Dest { collection: collection.to_owned(), bucket: Some(b.to_owned()) }
        },
        None => Dest { collection: collection.to_owned(), bucket: None },
    };
    proof {
        assert(d@ =~= spec_resolve_destination(collection@, bucket.deep_view()));
    }
    d
}

/// A destination that names a bucket is distinguishable from the
/// whole-collection destination of the same collection: the two never
/// compare equal, for any non-empty bucket name.
pub proof fn lemma_bucket_destination_distinct(collection: Seq<char>, bucket: Seq<char>)
    requires
        bucket.len() > 0,
    ensures
        spec_resolve_destination(collection, Some(bucket)) != spec_resolve_destination(
            collection,
            None,
        ),
{
    assert(spec_resolve_destination(collection, Some(bucket)).bucket == Some(bucket));
    assert(spec_resolve_destination(collection, None).bucket is None);
}

impl PartialEq for Dest {
    /// Two destinations are equal exactly when their collection names and
    /// their bucket levels agree.
    fn eq(&self, other: &Dest) -> (r: bool) {
        let same_bucket = match (&self.bucket, &other.bucket) {
            (Some(a), Some(b)) => *a == *b,
            (None, None) => true,
            _ => false,
        };
        let r = same_bucket && self.collection == other.collection;
        proof {
            if r {
                assert(self@ =~= other@);
            } else {
                assert(self@ != other@);
            }
        }
        r
    }
}

impl vstd::std_specs::cmp::PartialEqSpecImpl for Dest {
    open spec fn obeys_eq_spec() -> bool {
        true
    }

    open spec fn eq_spec(&self, other: &Dest) -> bool {
        self@ == other@
    }
}

/// Mathematical model of an [`ObjDest`]: a destination plus the identifier
/// of one record within it.
#[verifier::ext_equal]
pub struct ObjDestView {
    pub dest: DestView,
    pub object: Seq<char>,
}

/// A destination narrowed to a single indexed record. The object identifier
/// is not validated for content; it is passed through verbatim.
#[derive(Debug, Clone)]
pub struct ObjDest {
    pub dest: Dest,
    pub object: String,
}

impl View for ObjDest {
    type V = ObjDestView;

    open spec fn view(&self) -> ObjDestView {
        ObjDestView { dest: self.dest@, object: self.object@ }
    }
}

/// Resolve a collection, an optional bucket and a record identifier into an
/// object destination. The destination part resolves exactly as
/// [`resolve_destination`] does; the object identifier is kept verbatim.
pub fn resolve_object_destination(collection: &str, bucket: Option<&str>, object: &str) -> (d:
    ObjDest)
    ensures
        d@ == (ObjDestView {
            dest: spec_resolve_destination(collection@, bucket.deep_view()),
            object: object@,
        }),
{
    let d = ObjDest { dest: resolve_destination(collection, bucket), object: object.to_owned() };
    proof {
        assert(d@ =~= ObjDestView {
            dest: spec_resolve_destination(collection@, bucket.deep_view()),
            object: object@,
        });
    }
    d
}

} // verus!

//! Canonical requests for the four flexible-shape operations.
//!
//! Each request is a plain value type: constructed immediately before use,
//! never mutated after construction, and carrying no connection state. The
//! builders here are the back end of call-shape normalization: they resolve
//! the destination and the language hint and fill in the remaining fields
//! verbatim. Every request can be taken apart into its fields and rebuilt
//! from them without loss.

use vstd::prelude::*;

use crate::dest::Dest;
use crate::dest::DestView;
use crate::dest::ObjDest;
use crate::dest::ObjDestView;
use crate::dest::resolve_destination;
use crate::dest::resolve_object_destination;
use crate::dest::spec_resolve_destination;
use crate::lang::LanguageTag;
use crate::lang::resolve_language;
use crate::lang::spec_resolve_language;

verus! {

/// Mathematical model of a [`QueryRequest`].
#[verifier::ext_equal]
pub struct QueryRequestView {
    pub dest: DestView,
    pub terms: Seq<char>,
    pub lang: LanguageTag,
    pub limit: Option<usize>,
    pub offset: Option<usize>,
}

/// A canonical search request: where to search, the literal terms string,
/// the resolved language tag, and optional paging.
#[derive(Debug, Clone)]
pub struct QueryRequest {
    pub dest: Dest,
    pub terms: String,
    pub lang: LanguageTag,
    pub limit: Option<usize>,
    pub offset: Option<usize>,
}

impl View for QueryRequest {
    type V = QueryRequestView;

    open spec fn view(&self) -> QueryRequestView {
        QueryRequestView {
            dest: self.dest@,
            terms: self.terms@,
            lang: self.lang,
            limit: self.limit,
            offset: self.offset,
        }
    }
}

/// The query request that the resolvers produce from raw caller input.
pub open spec fn spec_build_query(
    collection: Seq<char>,
    bucket: Option<Seq<char>>,
    terms: Seq<char>,
    lang: Option<Seq<char>>,
    limit: Option<usize>,
    offset: Option<usize>,
) -> QueryRequestView {
    QueryRequestView {
        dest: spec_resolve_destination(collection, bucket),
        terms,
        lang: spec_resolve_language(lang),
        limit,
        offset,
    }
}

/// Build a canonical query request: resolve the destination and the
/// language hint, and carry the terms string and the paging values verbatim.
pub fn build_query_request(
    collection: &str,
    bucket: Option<&str>,
    terms: String,
    lang: Option<&str>,
    limit: Option<usize>,
    offset: Option<usize>,
) -> (r: QueryRequest)
    ensures
        r@ == spec_build_query(
            collection@,
            bucket.deep_view(),
            terms@,
            lang.deep_view(),
            limit,
            offset,
        ),
{
    let r = QueryRequest {
        dest: resolve_destination(collection, bucket),
        terms,
        lang: resolve_language(lang),
        limit,
        offset,
    };
    proof {
        assert(r@ =~= spec_build_query(
            collection@,
            bucket.deep_view(),
            terms@,
            lang.deep_view(),
            limit,
            offset,
        ));
    }
    r
}

/// The observable fields of a query request, in serialization order.
pub open spec fn spec_query_parts(q: QueryRequestView) -> (
    DestView,
    Seq<char>,
    LanguageTag,
    Option<usize>,
    Option<usize>,
) {
    (q.dest, q.terms, q.lang, q.limit, q.offset)
}

/// The query request reconstructed from serialized fields.
pub open spec fn spec_query_from_parts(
    p: (DestView, Seq<char>, LanguageTag, Option<usize>, Option<usize>),
) -> QueryRequestView {
    QueryRequestView { dest: p.0, terms: p.1, lang: p.2, limit: p.3, offset: p.4 }
}

impl QueryRequest {
    /// Serialize this request into its observable fields.
    pub fn into_parts(self) -> (p: (Dest, String, LanguageTag, Option<usize>, Option<usize>))
        ensures
            p.0@ == self@.dest,
            p.1@ == self@.terms,
            p.2 == self@.lang,
            p.3 == self@.limit,
            p.4 == self@.offset,
    {
        (self.dest, self.terms, self.lang, self.limit, self.offset)
    }

    /// Reconstruct a request from its observable fields.
    pub fn from_parts(
        dest: Dest,
        terms: String,
        lang: LanguageTag,
        limit: Option<usize>,
        offset: Option<usize>,
    ) -> (r: QueryRequest)
        ensures
            r@ == spec_query_from_parts((dest@, terms@, lang, limit, offset)),
    {
        let r = QueryRequest { dest, terms, lang, limit, offset };
        proof {
            assert(r@ =~= spec_query_from_parts((dest@, terms@, lang, limit, offset)));
        }
        r
    }
}

/// Taking a query request apart into its fields and rebuilding it from them
/// yields a request equal in all observable fields.
pub proof fn lemma_query_round_trip(q: QueryRequestView)
    ensures
        spec_query_from_parts(spec_query_parts(q)) == q,
{
    assert(spec_query_from_parts(spec_query_parts(q)) =~= q);
}

/// Mathematical model of a [`SuggestRequest`].
#[verifier::ext_equal]
pub struct SuggestRequestView {
    pub dest: DestView,
    pub word: Seq<char>,
    pub limit: Option<usize>,
}

/// A canonical auto-completion request: where to look, the word to
/// complete, and an optional result limit.
#[derive(Debug, Clone)]
pub struct SuggestRequest {
    pub dest: Dest,
    pub word: String,
    pub limit: Option<usize>,
}

impl View for SuggestRequest {
    type V = SuggestRequestView;

    open spec fn view(&self) -> SuggestRequestView {
        SuggestRequestView { dest: self.dest@, word: self.word@, limit: self.limit }
    }
}

/// The suggest request that the resolvers produce from raw caller input.
pub open spec fn spec_build_suggest(
    collection: Seq<char>,
    bucket: Option<Seq<char>>,
    word: Seq<char>,
    limit: Option<usize>,
) -> SuggestRequestView {
    SuggestRequestView { dest: spec_resolve_destination(collection, bucket), word, limit }
}

/// Build a canonical suggest request: resolve the destination and carry the
/// word and the limit verbatim.
pub fn build_suggest_request(
    collection: &str,
    bucket: Option<&str>,
    word: String,
    limit: Option<usize>,
) -> (r: SuggestRequest)
    ensures
        r@ == spec_build_suggest(collection@, bucket.deep_view(), word@, limit),
{
    let r = SuggestRequest { dest: resolve_destination(collection, bucket), word, limit };
    proof {
        assert(r@ =~= spec_build_suggest(collection@, bucket.deep_view(), word@, limit));
    }
    r
}

/// The observable fields of a suggest request, in serialization order.
pub open spec fn spec_suggest_parts(q: SuggestRequestView) -> (DestView, Seq<char>, Option<usize>) {
    (q.dest, q.word, q.limit)
}

/// The suggest request reconstructed from serialized fields.
pub open spec fn spec_suggest_from_parts(
    p: (DestView, Seq<char>, Option<usize>),
) -> SuggestRequestView {
    SuggestRequestView { dest: p.0, word: p.1, limit: p.2 }
}

impl SuggestRequest {
    /// Serialize this request into its observable fields.
    pub fn into_parts(self) -> (p: (Dest, String, Option<usize>))
        ensures
            p.0@ == self@.dest,
            p.1@ == self@.word,
            p.2 == self@.limit,
    {
        (self.dest, self.word, self.limit)
    }

    /// Reconstruct a request from its observable fields.
    pub fn from_parts(dest: Dest, word: String, limit: Option<usize>) -> (r: SuggestRequest)
        ensures
            r@ == spec_suggest_from_parts((dest@, word@, limit)),
    {
        let r = SuggestRequest { dest, word, limit };
        proof {
            assert(r@ =~= spec_suggest_from_parts((dest@, word@, limit)));
        }
        r
    }
}

/// Taking a suggest request apart into its fields and rebuilding it from
/// them yields a request equal in all observable fields.
pub proof fn lemma_suggest_round_trip(q: SuggestRequestView)
    ensures
        spec_suggest_from_parts(spec_suggest_parts(q)) == q,
{
    assert(spec_suggest_from_parts(spec_suggest_parts(q)) =~= q);
}

/// Mathematical model of a [`PushRequest`].
#[verifier::ext_equal]
pub struct PushRequestView {
    pub target: ObjDestView,
    pub text: Seq<char>,
    pub lang: LanguageTag,
}

/// A canonical ingestion request: which record to write, the text to index,
/// and the resolved language tag.
#[derive(Debug, Clone)]
pub struct PushRequest {
    pub target: ObjDest,
    pub text: String,
    pub lang: LanguageTag,
}

impl View for PushRequest {
    type V = PushRequestView;

    open spec fn view(&self) -> PushRequestView {
        PushRequestView { target: self.target@, text: self.text@, lang: self.lang }
    }
}

/// The push request that the resolvers produce from raw caller input.
pub open spec fn spec_build_push(
    collection: Seq<char>,
    bucket: Option<Seq<char>>,
    object: Seq<char>,
    text: Seq<char>,
    lang: Option<Seq<char>>,
) -> PushRequestView {
    PushRequestView {
        target: ObjDestView { dest: spec_resolve_destination(collection, bucket), object },
        text,
        lang: spec_resolve_language(lang),
    }
}

/// Build a canonical push request: resolve the object destination and the
/// language hint, and carry the text verbatim.
pub fn build_push_request(
    collection: &str,
    bucket: Option<&str>,
    object: &str,
    text: String,
    lang: Option<&str>,
) -> (r: PushRequest)
    ensures
        r@ == spec_build_push(collection@, bucket.deep_view(), object@, text@, lang.deep_view()),
{
    let r = PushRequest {
        target: resolve_object_destination(collection, bucket, object),
        text,
        lang: resolve_language(lang),
    };
    proof {
        assert(r@ =~= spec_build_push(
            collection@,
            bucket.deep_view(),
            object@,
            text@,
            lang.deep_view(),
        ));
    }
    r
}

/// The observable fields of a push request, in serialization order.
pub open spec fn spec_push_parts(q: PushRequestView) -> (ObjDestView, Seq<char>, LanguageTag) {
    (q.target, q.text, q.lang)
}

/// The push request reconstructed from serialized fields.
pub open spec fn spec_push_from_parts(p: (ObjDestView, Seq<char>, LanguageTag)) -> PushRequestView {
    PushRequestView { target: p.0, text: p.1, lang: p.2 }
}

impl PushRequest {
    /// Serialize this request into its observable fields.
    pub fn into_parts(self) -> (p: (ObjDest, String, LanguageTag))
        ensures
            p.0@ == self@.target,
            p.1@ == self@.text,
            p.2 == self@.lang,
    {
        (self.target, self.text, self.lang)
    }

    /// Reconstruct a request from its observable fields.
    pub fn from_parts(target: ObjDest, text: String, lang: LanguageTag) -> (r: PushRequest)
        ensures
            r@ == spec_push_from_parts((target@, text@, lang)),
    {
        let r = PushRequest { target, text, lang };
        proof {
            assert(r@ =~= spec_push_from_parts((target@, text@, lang)));
        }
        r
    }
}

/// Taking a push request apart into its fields and rebuilding it from them
/// yields a request equal in all observable fields.
pub proof fn lemma_push_round_trip(q: PushRequestView)
    ensures
        spec_push_from_parts(spec_push_parts(q)) == q,
{
    assert(spec_push_from_parts(spec_push_parts(q)) =~= q);
}

/// Mathematical model of a [`PopRequest`].
#[verifier::ext_equal]
pub struct PopRequestView {
    pub target: ObjDestView,
    pub text: Seq<char>,
}

/// A canonical removal request: which record to touch and the text whose
/// words are to be removed from it.
#[derive(Debug, Clone)]
pub struct PopRequest {
    pub target: ObjDest,
    pub text: String,
}

impl View for PopRequest {
    type V = PopRequestView;

    open spec fn view(&self) -> PopRequestView {
        PopRequestView { target: self.target@, text: self.text@ }
    }
}

/// The pop request that the resolvers produce from raw caller input.
pub open spec fn spec_build_pop(
    collection: Seq<char>,
    bucket: Option<Seq<char>>,
    object: Seq<char>,
    text: Seq<char>,
) -> PopRequestView {
    PopRequestView {
        target: ObjDestView { dest: spec_resolve_destination(collection, bucket), object },
        text,
    }
}

/// Build a canonical pop request: resolve the object destination and carry
/// the text verbatim.
pub fn build_pop_request(collection: &str, bucket: Option<&str>, object: &str, text: String) -> (r:
    PopRequest)
    ensures
        r@ == spec_build_pop(collection@, bucket.deep_view(), object@, text@),
{
    let r = PopRequest { target: resolve_object_destination(collection, bucket, object), text };
    proof {
        assert(r@ =~= spec_build_pop(collection@, bucket.deep_view(), object@, text@));
    }
    r
}

/// The observable fields of a pop request, in serialization order.
pub open spec fn spec_pop_parts(q: PopRequestView) -> (ObjDestView, Seq<char>) {
    (q.target, q.text)
}

/// The pop request reconstructed from serialized fields.
pub open spec fn spec_pop_from_parts(p: (ObjDestView, Seq<char>)) -> PopRequestView {
    PopRequestView { target: p.0, text: p.1 }
}

impl PopRequest {
    /// Serialize this request into its observable fields.
    pub fn into_parts(self) -> (p: (ObjDest, String))
        ensures
            p.0@ == self@.target,
            p.1@ == self@.text,
    {
        (self.target, self.text)
    }

    /// Reconstruct a request from its observable fields.
    pub fn from_parts(target: ObjDest, text: String) -> (r: PopRequest)
        ensures
            r@ == spec_pop_from_parts((target@, text@)),
    {
        let r = PopRequest { target, text };
        proof {
            assert(r@ =~= spec_pop_from_parts((target@, text@)));
        }
        r
    }
}

/// Taking a pop request apart into its fields and rebuilding it from them
/// yields a request equal in all observable fields.
pub proof fn lemma_pop_round_trip(q: PopRequestView)
    ensures
        spec_pop_from_parts(spec_pop_parts(q)) == q,
{
    assert(spec_pop_from_parts(spec_pop_parts(q)) =~= q);
}

} // verus!

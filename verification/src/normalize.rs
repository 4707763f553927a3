//! Call-shape normalization for `query`, `suggest`, `push` and `pop`.
//!
//! Each of these operations accepts two calling conventions: every remaining
//! required field supplied by name with no extra positional arguments, or
//! the required fields (other than an optionally named bucket) supplied
//! positionally in left-to-right order. Named arguments take precedence for
//! identifying the optional bucket; positional arguments fill exactly the
//! required fields that were not satisfied by name. Every other combination
//! — wrong positional count, a field supplied both ways, or a field missing
//! entirely — is rejected with `InvalidArguments` before any request is
//! constructed, so no network interaction can occur for it.
//!
//! Normalization is total and deterministic: each accepted shape maps to
//! exactly one canonical request.

use vstd::prelude::*;

use crate::error::ClientError;
use crate::error::spec_invalid_arguments;
use crate::requests::PopRequest;
use crate::requests::PopRequestView;
use crate::requests::PushRequest;
use crate::requests::PushRequestView;
use crate::requests::QueryRequest;
use crate::requests::QueryRequestView;
use crate::requests::SuggestRequest;
use crate::requests::SuggestRequestView;
use crate::requests::build_pop_request;
use crate::requests::build_push_request;
use crate::requests::build_query_request;
use crate::requests::build_suggest_request;
use crate::requests::spec_build_pop;
use crate::requests::spec_build_push;
use crate::requests::spec_build_query;
use crate::requests::spec_build_suggest;

verus! {

/// The canonical query request a call reduces to, or `None` when the call
/// shape is outside the documented set. The two accepted shapes: `terms`
/// named with no positional arguments, or `terms` as the single positional
/// argument; the bucket counts only when supplied by name.
pub open spec fn spec_normalize_query(
    collection: Seq<char>,
    args: Seq<Seq<char>>,
    bucket: Option<Seq<char>>,
    terms: Option<Seq<char>>,
    lang: Option<Seq<char>>,
    limit: Option<usize>,
    offset: Option<usize>,
) -> Option<QueryRequestView> {
    match (bucket, terms) {
        (Some(b), Some(t)) => if args.len() == 0 {
            Some(spec_build_query(collection, Some(b), t, lang, limit, offset))
        } else {
            None
        },
        (None, Some(t)) => if args.len() == 0 {
            Some(spec_build_query(collection, None, t, lang, limit, offset))
        } else {
            None
        },
        (None, None) => if args.len() == 1 {
            Some(spec_build_query(collection, None, args[0], lang, limit, offset))
        } else {
            None
        },
        (Some(b), None) => if args.len() == 1 {
            Some(spec_build_query(collection, Some(b), args[0], lang, limit, offset))
        } else {
            None
        },
    }
}

/// Reduce a `query` call to its canonical request, or reject it with
/// `InvalidArguments` when its shape is outside the documented set.
pub fn normalize_query(
    collection: &str,
    args: Vec<String>,
    bucket: Option<String>,
    terms: Option<String>,
    lang: Option<&str>,
    limit: Option<usize>,
    offset: Option<usize>,
) -> (r: Result<QueryRequest, ClientError>)
    ensures
        ({
            let canonical = spec_normalize_query(
                collection@,
                args.deep_view(),
                bucket.deep_view(),
                terms.deep_view(),
                lang.deep_view(),
                limit,
                offset,
            );
            match r {
                Ok(q) => canonical == Some(q@),
                Err(e) => canonical is None && e@ == spec_invalid_arguments(),
            }
        }),
{
    match (bucket, terms) {
        (Some(b), Some(t)) => if args.len() == 0 {
            Ok(build_query_request(collection, Some(b.as_str()), t, lang, limit, offset))
        } else {
            Err(ClientError::invalid_arguments())
        },
        (None, Some(t)) => if args.len() == 0 {
            Ok(build_query_request(collection, None, t, lang, limit, offset))
        } else {
            Err(ClientError::invalid_arguments())
        },
        (None, None) => if args.len() == 1 {
            let t = args[0].clone();
            proof {
                assert(args.deep_view()[0] == args@[0]@);
            }
            Ok(build_query_request(collection, None, t, lang, limit, offset))
        } else {
            Err(ClientError::invalid_arguments())
        },
        (Some(b), None) => if args.len() == 1 {
            let t = args[0].clone();
            proof {
                assert(args.deep_view()[0] == args@[0]@);
            }
            Ok(build_query_request(collection, Some(b.as_str()), t, lang, limit, offset))
        } else {
            Err(ClientError::invalid_arguments())
        },
    }
}

/// Query normalization is total and deterministic: a named-terms call with
/// no positional arguments and a one-positional-argument call each map to
/// exactly one canonical request, and every other shape is rejected.
pub proof fn lemma_query_shapes(
    collection: Seq<char>,
    args: Seq<Seq<char>>,
    bucket: Option<Seq<char>>,
    terms: Option<Seq<char>>,
    lang: Option<Seq<char>>,
    limit: Option<usize>,
    offset: Option<usize>,
)
    ensures
        terms is Some && args.len() == 0 ==> spec_normalize_query(
            collection,
            args,
            bucket,
            terms,
            lang,
            limit,
            offset,
        ) == Some(spec_build_query(collection, bucket, terms.unwrap(), lang, limit, offset)),
        terms is None && args.len() == 1 ==> spec_normalize_query(
            collection,
            args,
            bucket,
            terms,
            lang,
            limit,
            offset,
        ) == Some(spec_build_query(collection, bucket, args[0], lang, limit, offset)),
        !(terms is Some && args.len() == 0) && !(terms is None && args.len() == 1)
            ==> spec_normalize_query(collection, args, bucket, terms, lang, limit, offset) is None,
{
}

/// The canonical suggest request a call reduces to, or `None` when the call
/// shape is outside the documented set. The accepted shapes mirror those of
/// [`spec_normalize_query`], with `word` in place of `terms`.
pub open spec fn spec_normalize_suggest(
    collection: Seq<char>,
    args: Seq<Seq<char>>,
    bucket: Option<Seq<char>>,
    word: Option<Seq<char>>,
    limit: Option<usize>,
) -> Option<SuggestRequestView> {
    match (bucket, word) {
        (Some(b), Some(w)) => if args.len() == 0 {
            Some(spec_build_suggest(collection, Some(b), w, limit))
        } else {
            None
        },
        (None, Some(w)) => if args.len() == 0 {
            Some(spec_build_suggest(collection, None, w, limit))
        } else {
            None
        },
        (None, None) => if args.len() == 1 {
            Some(spec_build_suggest(collection, None, args[0], limit))
        } else {
            None
        },
        (Some(b), None) => if args.len() == 1 {
            Some(spec_build_suggest(collection, Some(b), args[0], limit))
        } else {
            None
        },
    }
}

/// Reduce a `suggest` call to its canonical request, or reject it with
/// `InvalidArguments` when its shape is outside the documented set.
pub fn normalize_suggest(
    collection: &str,
    args: Vec<String>,
    bucket: Option<String>,
    word: Option<String>,
    limit: Option<usize>,
) -> (r: Result<SuggestRequest, ClientError>)
    ensures
        ({
            let canonical = spec_normalize_suggest(
                collection@,
                args.deep_view(),
                bucket.deep_view(),
                word.deep_view(),
                limit,
            );
            match r {
                Ok(q) => canonical == Some(q@),
                Err(e) => canonical is None && e@ == spec_invalid_arguments(),
            }
        }),
{
    match (bucket, word) {
        (Some(b), Some(w)) => if args.len() == 0 {
            Ok(build_suggest_request(collection, Some(b.as_str()), w, limit))
        } else {
            Err(ClientError::invalid_arguments())
        },
        (None, Some(w)) => if args.len() == 0 {
            Ok(build_suggest_request(collection, None, w, limit))
        } else {
            Err(ClientError::invalid_arguments())
        },
        (None, None) => if args.len() == 1 {
            let w = args[0].clone();
            proof {
                assert(args.deep_view()[0] == args@[0]@);
            }
            Ok(build_suggest_request(collection, None, w, limit))
        } else {
            Err(ClientError::invalid_arguments())
        },
        (Some(b), None) => if args.len() == 1 {
            let w = args[0].clone();
            proof {
                assert(args.deep_view()[0] == args@[0]@);
            }
            Ok(build_suggest_request(collection, Some(b.as_str()), w, limit))
        } else {
            Err(ClientError::invalid_arguments())
        },
    }
}

/// Suggest normalization is total and deterministic, in the same shape as
/// [`lemma_query_shapes`].
pub proof fn lemma_suggest_shapes(
    collection: Seq<char>,
    args: Seq<Seq<char>>,
    bucket: Option<Seq<char>>,
    word: Option<Seq<char>>,
    limit: Option<usize>,
)
    ensures
        word is Some && args.len() == 0 ==> spec_normalize_suggest(
            collection,
            args,
            bucket,
            word,
            limit,
        ) == Some(spec_build_suggest(collection, bucket, word.unwrap(), limit)),
        word is None && args.len() == 1 ==> spec_normalize_suggest(
            collection,
            args,
            bucket,
            word,
            limit,
        ) == Some(spec_build_suggest(collection, bucket, args[0], limit)),
        !(word is Some && args.len() == 0) && !(word is None && args.len() == 1)
            ==> spec_normalize_suggest(collection, args, bucket, word, limit) is None,
{
}

/// The canonical push request a call reduces to, or `None` when the call
/// shape is outside the documented set. The text must always be supplied by
/// name; the object may be named (no positional arguments) or the single
/// positional argument; the bucket counts only when supplied by name.
pub open spec fn spec_normalize_push(
    collection: Seq<char>,
    args: Seq<Seq<char>>,
    bucket: Option<Seq<char>>,
    object: Option<Seq<char>>,
    text: Option<Seq<char>>,
    lang: Option<Seq<char>>,
) -> Option<PushRequestView> {
    match (bucket, object, text) {
        (Some(b), Some(o), Some(t)) => if args.len() == 0 {
            Some(spec_build_push(collection, Some(b), o, t, lang))
        } else {
            None
        },
        (None, Some(o), Some(t)) => if args.len() == 0 {
            Some(spec_build_push(collection, None, o, t, lang))
        } else {
            None
        },
        (None, None, Some(t)) => if args.len() == 1 {
            Some(spec_build_push(collection, None, args[0], t, lang))
        } else {
            None
        },
        (Some(b), None, Some(t)) => if args.len() == 1 {
            Some(spec_build_push(collection, Some(b), args[0], t, lang))
        } else {
            None
        },
        _ => None,
    }
}

/// Reduce a `push` call to its canonical request, or reject it with
/// `InvalidArguments` when its shape is outside the documented set.
pub fn normalize_push(
    collection: &str,
    args: Vec<String>,
    bucket: Option<String>,
    object: Option<String>,
    text: Option<String>,
    lang: Option<&str>,
) -> (r: Result<PushRequest, ClientError>)
    ensures
        ({
            let canonical = spec_normalize_push(
                collection@,
                args.deep_view(),
                bucket.deep_view(),
                object.deep_view(),
                text.deep_view(),
                lang.deep_view(),
            );
            match r {
                Ok(q) => canonical == Some(q@),
                Err(e) => canonical is None && e@ == spec_invalid_arguments(),
            }
        }),
{
    match (bucket, object, text) {
        (Some(b), Some(o), Some(t)) => if args.len() == 0 {
            Ok(build_push_request(collection, Some(b.as_str()), o.as_str(), t, lang))
        } else {
            Err(ClientError::invalid_arguments())
        },
        (None, Some(o), Some(t)) => if args.len() == 0 {
            Ok(build_push_request(collection, None, o.as_str(), t, lang))
        } else {
            Err(ClientError::invalid_arguments())
        },
        (None, None, Some(t)) => if args.len() == 1 {
            proof {
                assert(args.deep_view()[0] == args@[0]@);
            }
            Ok(build_push_request(collection, None, args[0].as_str(), t, lang))
        } else {
            Err(ClientError::invalid_arguments())
        },
        (Some(b), None, Some(t)) => if args.len() == 1 {
            proof {
                assert(args.deep_view()[0] == args@[0]@);
            }
            Ok(build_push_request(collection, Some(b.as_str()), args[0].as_str(), t, lang))
        } else {
            Err(ClientError::invalid_arguments())
        },
        _ => Err(ClientError::invalid_arguments()),
    }
}

/// Push normalization is total and deterministic: with the text named, the
/// object may be named (no positional arguments) or the single positional
/// argument; every other shape — in particular any call without a named
/// text — is rejected.
pub proof fn lemma_push_shapes(
    collection: Seq<char>,
    args: Seq<Seq<char>>,
    bucket: Option<Seq<char>>,
    object: Option<Seq<char>>,
    text: Option<Seq<char>>,
    lang: Option<Seq<char>>,
)
    ensures
        text is Some && object is Some && args.len() == 0 ==> spec_normalize_push(
            collection,
            args,
            bucket,
            object,
            text,
            lang,
        ) == Some(spec_build_push(collection, bucket, object.unwrap(), text.unwrap(), lang)),
        text is Some && object is None && args.len() == 1 ==> spec_normalize_push(
            collection,
            args,
            bucket,
            object,
            text,
            lang,
        ) == Some(spec_build_push(collection, bucket, args[0], text.unwrap(), lang)),
        text is None ==> spec_normalize_push(collection, args, bucket, object, text, lang) is None,
        !(object is Some && args.len() == 0) && !(object is None && args.len() == 1)
            ==> spec_normalize_push(collection, args, bucket, object, text, lang) is None,
{
}

/// The canonical pop request a call reduces to, or `None` when the call
/// shape is outside the documented set. Either both the object and the text
/// are named with no positional arguments, or neither is named and exactly
/// two positional arguments fill them in order; the bucket counts only when
/// supplied by name.
pub open spec fn spec_normalize_pop(
    collection: Seq<char>,
    args: Seq<Seq<char>>,
    bucket: Option<Seq<char>>,
    object: Option<Seq<char>>,
    text: Option<Seq<char>>,
) -> Option<PopRequestView> {
    match (bucket, object, text) {
        (Some(b), Some(o), Some(t)) => if args.len() == 0 {
            Some(spec_build_pop(collection, Some(b), o, t))
        } else {
            None
        },
        (None, Some(o), Some(t)) => if args.len() == 0 {
            Some(spec_build_pop(collection, None, o, t))
        } else {
            None
        },
        (None, None, None) => if args.len() == 2 {
            Some(spec_build_pop(collection, None, args[0], args[1]))
        } else {
            None
        },
        (Some(b), None, None) => if args.len() == 2 {
            Some(spec_build_pop(collection, Some(b), args[0], args[1]))
        } else {
            None
        },
        _ => None,
    }
}

/// Reduce a `pop` call to its canonical request, or reject it with
/// `InvalidArguments` when its shape is outside the documented set.
pub fn normalize_pop(
    collection: &str,
    args: Vec<String>,
    bucket: Option<String>,
    object: Option<String>,
    text: Option<String>,
) -> (r: Result<PopRequest, ClientError>)
    ensures
        ({
            let canonical = spec_normalize_pop(
                collection@,
                args.deep_view(),
                bucket.deep_view(),
                object.deep_view(),
                text.deep_view(),
            );
            match r {
                Ok(q) => canonical == Some(q@),
                Err(e) => canonical is None && e@ == spec_invalid_arguments(),
            }
        }),
{
    match (bucket, object, text) {
        (Some(b), Some(o), Some(t)) => if args.len() == 0 {
            Ok(build_pop_request(collection, Some(b.as_str()), o.as_str(), t))
        } else {
            Err(ClientError::invalid_arguments())
        },
        (None, Some(o), Some(t)) => if args.len() == 0 {
            Ok(build_pop_request(collection, None, o.as_str(), t))
        } else {
            Err(ClientError::invalid_arguments())
        },
        (None, None, None) => if args.len() == 2 {
            let t = args[1].clone();
            proof {
                assert(args.deep_view()[0] == args@[0]@);
                assert(args.deep_view()[1] == args@[1]@);
            }
            Ok(build_pop_request(collection, None, args[0].as_str(), t))
        } else {
            Err(ClientError::invalid_arguments())
        },
        (Some(b), None, None) => if args.len() == 2 {
            let t = args[1].clone();
            proof {
                assert(args.deep_view()[0] == args@[0]@);
                assert(args.deep_view()[1] == args@[1]@);
            }
            Ok(build_pop_request(collection, Some(b.as_str()), args[0].as_str(), t))
        } else {
            Err(ClientError::invalid_arguments())
        },
        _ => Err(ClientError::invalid_arguments()),
    }
}

/// Pop normalization is total and deterministic: the object and the text
/// are either both named with no positional arguments or both positional in
/// order; every other shape is rejected.
pub proof fn lemma_pop_shapes(
    collection: Seq<char>,
    args: Seq<Seq<char>>,
    bucket: Option<Seq<char>>,
    object: Option<Seq<char>>,
    text: Option<Seq<char>>,
)
    ensures
        object is Some && text is Some && args.len() == 0 ==> spec_normalize_pop(
            collection,
            args,
            bucket,
            object,
            text,
        ) == Some(spec_build_pop(collection, bucket, object.unwrap(), text.unwrap())),
        object is None && text is None && args.len() == 2 ==> spec_normalize_pop(
            collection,
            args,
            bucket,
            object,
            text,
        ) == Some(spec_build_pop(collection, bucket, args[0], args[1])),
        !(object is Some && text is Some && args.len() == 0) && !(object is None && text is None
            && args.len() == 2) ==> spec_normalize_pop(
            collection,
            args,
            bucket,
            object,
            text,
        ) is None,
{
}

} // verus!

//! Language resolution.
//!
//! A caller may pass an optional language hint with `query` and `push`.
//! [`resolve_language`] turns it into a canonical [`LanguageTag`]: one of a
//! fixed set of supported three-letter codes, matched ignoring ASCII case,
//! or the `Unspecified` sentinel. An unrecognized code falls back to
//! `Unspecified` rather than failing: a typo degrades language-specific
//! stemming instead of failing the call.

use vstd::prelude::*;
use vstd::string::StrSliceExecFns;

verus! {

/// Canonical representation of a natural-language hint: one of the fixed
/// set of supported codes, or the `Unspecified` sentinel meaning that no
/// usable hint was given.
#[derive(Clone, Copy, Debug, PartialEq, Eq, Structural)]
pub enum LanguageTag {
    Unspecified,
    Epo,
    Eng,
    Rus,
    Cmn,
    Spa,
    Por,
    Ita,
    Ben,
    Fra,
    Deu,
    Ukr,
    Kat,
    Ara,
    Hin,
    Jpn,
    Heb,
    Yid,
    Pol,
    Amh,
    Jav,
    Kor,
    Nob,
    Dan,
    Swe,
    Fin,
    Tur,
    Nld,
    Hun,
    Ces,
    Ell,
    Bul,
    Bel,
    Mar,
    Kan,
    Ron,
    Slv,
    Hrv,
    Srp,
    Mkd,
    Lit,
    Lav,
    Est,
    Tam,
    Vie,
    Urd,
    Tha,
    Guj,
    Uzb,
    Pan,
    Aze,
    Ind,
    Tel,
    Pes,
    Mal,
    Ori,
    Mya,
    Nep,
    Sin,
    Khm,
    Tuk,
    Aka,
    Zul,
    Sna,
    Afr,
    Lat,
    Slk,
    Cat,
    Tgl,
    Hye,
}

/// Case-insensitive match of one character against a letter given in both
/// of its ASCII cases.
pub open spec fn ci_eq(c: char, lower: char, upper: char) -> bool {
    c == lower || c == upper
}

/// Whether a code string spells the three given letters, ignoring ASCII case.
pub open spec fn spells(
    s: Seq<char>,
    l0: char,
    u0: char,
    l1: char,
    u1: char,
    l2: char,
    u2: char,
) -> bool {
    s.len() == 3 && ci_eq(s[0], l0, u0) && ci_eq(s[1], l1, u1) && ci_eq(s[2], l2, u2)
}

/// Which tag a code string resolves to: the supported code it spells
/// (ignoring ASCII case), or `Unspecified` for every other string.
pub open spec fn spec_lang_of(s: Seq<char>) -> LanguageTag {
    if spells(s, 'e', 'E', 'p', 'P', 'o', 'O') {
        LanguageTag::Epo
    } else if spells(s, 'e', 'E', 'n', 'N', 'g', 'G') {
        LanguageTag::Eng
    } else if spells(s, 'r', 'R', 'u', 'U', 's', 'S') {
        LanguageTag::Rus
    } else if spells(s, 'c', 'C', 'm', 'M', 'n', 'N') {
        LanguageTag::Cmn
    } else if spells(s, 's', 'S', 'p', 'P', 'a', 'A') {
        LanguageTag::Spa
    } else if spells(s, 'p', 'P', 'o', 'O', 'r', 'R') {
        LanguageTag::Por
    } else if spells(s, 'i', 'I', 't', 'T', 'a', 'A') {
        LanguageTag::Ita
    } else if spells(s, 'b', 'B', 'e', 'E', 'n', 'N') {
        LanguageTag::Ben
    } else if spells(s, 'f', 'F', 'r', 'R', 'a', 'A') {
        LanguageTag::Fra
    } else if spells(s, 'd', 'D', 'e', 'E', 'u', 'U') {
        LanguageTag::Deu
    } else if spells(s, 'u', 'U', 'k', 'K', 'r', 'R') {
        LanguageTag::Ukr
    } else if spells(s, 'k', 'K', 'a', 'A', 't', 'T') {
        LanguageTag::Kat
    } else if spells(s, 'a', 'A', 'r', 'R', 'a', 'A') {
        LanguageTag::Ara
    } else if spells(s, 'h', 'H', 'i', 'I', 'n', 'N') {
        LanguageTag::Hin
    } else if spells(s, 'j', 'J', 'p', 'P', 'n', 'N') {
        LanguageTag::Jpn
    } else if spells(s, 'h', 'H', 'e', 'E', 'b', 'B') {
        LanguageTag::Heb
    } else if spells(s, 'y', 'Y', 'i', 'I', 'd', 'D') {
        LanguageTag::Yid
    } else if spells(s, 'p', 'P', 'o', 'O', 'l', 'L') {
        LanguageTag::Pol
    } else if spells(s, 'a', 'A', 'm', 'M', 'h', 'H') {
        LanguageTag::Amh
    } else if spells(s, 'j', 'J', 'a', 'A', 'v', 'V') {
        LanguageTag::Jav
    } else if spells(s, 'k', 'K', 'o', 'O', 'r', 'R') {
        LanguageTag::Kor
    } else if spells(s, 'n', 'N', 'o', 'O', 'b', 'B') {
        LanguageTag::Nob
    } else if spells(s, 'd', 'D', 'a', 'A', 'n', 'N') {
        LanguageTag::Dan
    } else if spells(s, 's', 'S', 'w', 'W', 'e', 'E') {
        LanguageTag::Swe
    } else if spells(s, 'f', 'F', 'i', 'I', 'n', 'N') {
        LanguageTag::Fin
    } else if spells(s, 't', 'T', 'u', 'U', 'r', 'R') {
        LanguageTag::Tur
    } else if spells(s, 'n', 'N', 'l', 'L', 'd', 'D') {
        LanguageTag::Nld
    } else if spells(s, 'h', 'H', 'u', 'U', 'n', 'N') {
        LanguageTag::Hun
    } else if spells(s, 'c', 'C', 'e', 'E', 's', 'S') {
        LanguageTag::Ces
    } else if spells(s, 'e', 'E', 'l', 'L', 'l', 'L') {
        LanguageTag::Ell
    } else if spells(s, 'b', 'B', 'u', 'U', 'l', 'L') {
        LanguageTag::Bul
    } else if spells(s, 'b', 'B', 'e', 'E', 'l', 'L') {
        LanguageTag::Bel
    } else if spells(s, 'm', 'M', 'a', 'A', 'r', 'R') {
        LanguageTag::Mar
    } else if spells(s, 'k', 'K', 'a', 'A', 'n', 'N') {
        LanguageTag::Kan
    } else if spells(s, 'r', 'R', 'o', 'O', 'n', 'N') {
        LanguageTag::Ron
    } else if spells(s, 's', 'S', 'l', 'L', 'v', 'V') {
        LanguageTag::Slv
    } else if spells(s, 'h', 'H', 'r', 'R', 'v', 'V') {
        LanguageTag::Hrv
    } else if spells(s, 's', 'S', 'r', 'R', 'p', 'P') {
        LanguageTag::Srp
    } else if spells(s, 'm', 'M', 'k', 'K', 'd', 'D') {
        LanguageTag::Mkd
    } else if spells(s, 'l', 'L', 'i', 'I', 't', 'T') {
        LanguageTag::Lit
    } else if spells(s, 'l', 'L', 'a', 'A', 'v', 'V') {
        LanguageTag::Lav
    } else if spells(s, 'e', 'E', 's', 'S', 't', 'T') {
        LanguageTag::Est
    } else if spells(s, 't', 'T', 'a', 'A', 'm', 'M') {
        LanguageTag::Tam
    } else if spells(s, 'v', 'V', 'i', 'I', 'e', 'E') {
        LanguageTag::Vie
    } else if spells(s, 'u', 'U', 'r', 'R', 'd', 'D') {
        LanguageTag::Urd
    } else if spells(s, 't', 'T', 'h', 'H', 'a', 'A') {
        LanguageTag::Tha
    } else if spells(s, 'g', 'G', 'u', 'U', 'j', 'J') {
        LanguageTag::Guj
    } else if spells(s, 'u', 'U', 'z', 'Z', 'b', 'B') {
        LanguageTag::Uzb
    } else if spells(s, 'p', 'P', 'a', 'A', 'n', 'N') {
        LanguageTag::Pan
    } else if spells(s, 'a', 'A', 'z', 'Z', 'e', 'E') {
        LanguageTag::Aze
    } else if spells(s, 'i', 'I', 'n', 'N', 'd', 'D') {
        LanguageTag::Ind
    } else if spells(s, 't', 'T', 'e', 'E', 'l', 'L') {
        LanguageTag::Tel
    } else if spells(s, 'p', 'P', 'e', 'E', 's', 'S') {
        LanguageTag::Pes
    } else if spells(s, 'm', 'M', 'a', 'A', 'l', 'L') {
        LanguageTag::Mal
    } else if spells(s, 'o', 'O', 'r', 'R', 'i', 'I') {
        LanguageTag::Ori
    } else if spells(s, 'm', 'M', 'y', 'Y', 'a', 'A') {
        LanguageTag::Mya
    } else if spells(s, 'n', 'N', 'e', 'E', 'p', 'P') {
        LanguageTag::Nep
    } else if spells(s, 's', 'S', 'i', 'I', 'n', 'N') {
        LanguageTag::Sin
    } else if spells(s, 'k', 'K', 'h', 'H', 'm', 'M') {
        LanguageTag::Khm
    } else if spells(s, 't', 'T', 'u', 'U', 'k', 'K') {
        LanguageTag::Tuk
    } else if spells(s, 'a', 'A', 'k', 'K', 'a', 'A') {
        LanguageTag::Aka
    } else if spells(s, 'z', 'Z', 'u', 'U', 'l', 'L') {
        LanguageTag::Zul
    } else if spells(s, 's', 'S', 'n', 'N', 'a', 'A') {
        LanguageTag::Sna
    } else if spells(s, 'a', 'A', 'f', 'F', 'r', 'R') {
        LanguageTag::Afr
    } else if spells(s, 'l', 'L', 'a', 'A', 't', 'T') {
        LanguageTag::Lat
    } else if spells(s, 's', 'S', 'l', 'L', 'k', 'K') {
        LanguageTag::Slk
    } else if spells(s, 'c', 'C', 'a', 'A', 't', 'T') {
        LanguageTag::Cat
    } else if spells(s, 't', 'T', 'g', 'G', 'l', 'L') {
        LanguageTag::Tgl
    } else if spells(s, 'h', 'H', 'y', 'Y', 'e', 'E') {
        LanguageTag::Hye
    } else {
        LanguageTag::Unspecified
    }
}

/// Which tag an optional code string resolves to: an absent hint is
/// `Unspecified`; a present one resolves as [`spec_lang_of`].
pub open spec fn spec_resolve_language(code: Option<Seq<char>>) -> LanguageTag {
    match code {
        Some(s) => spec_lang_of(s),
        None => LanguageTag::Unspecified,
    }
}

/// Whether a code string is one of the supported language codes.
pub open spec fn spec_recognized(s: Seq<char>) -> bool {
    spec_lang_of(s) != LanguageTag::Unspecified
}

fn ci(c: char, lower: char, upper: char) -> (r: bool)
    ensures
        r == ci_eq(c, lower, upper),
{
    c == lower || c == upper
}

fn spells3(
    c0: char,
    c1: char,
    c2: char,
    l0: char,
    u0: char,
    l1: char,
    u1: char,
    l2: char,
    u2: char,
) -> (r: bool)
    ensures
        r == (ci_eq(c0, l0, u0) && ci_eq(c1, l1, u1) && ci_eq(c2, l2, u2)),
{
    ci(c0, l0, u0) && ci(c1, l1, u1) && ci(c2, l2, u2)
}

/// Resolve a code string to its canonical tag, ignoring ASCII case;
/// anything that is not a supported code resolves to `Unspecified`.
pub fn lang_from_code(code: &str) -> (t: LanguageTag)
    ensures
        t == spec_lang_of(code@),
{
    let n = code.unicode_len();
    if n != 3 {
        return LanguageTag::Unspecified;
    }
    let c0 = code.get_char(0);
    let c1 = code.get_char(1);
    let c2 = code.get_char(2);
    if spells3(c0, c1, c2, 'e', 'E', 'p', 'P', 'o', 'O') {
        LanguageTag::Epo
    } else if spells3(c0, c1, c2, 'e', 'E', 'n', 'N', 'g', 'G') {
        LanguageTag::Eng
    } else if spells3(c0, c1, c2, 'r', 'R', 'u', 'U', 's', 'S') {
        LanguageTag::Rus
    } else if spells3(c0, c1, c2, 'c', 'C', 'm', 'M', 'n', 'N') {
        LanguageTag::Cmn
    } else if spells3(c0, c1, c2, 's', 'S', 'p', 'P', 'a', 'A') {
        LanguageTag::Spa
    } else if spells3(c0, c1, c2, 'p', 'P', 'o', 'O', 'r', 'R') {
        LanguageTag::Por
    } else if spells3(c0, c1, c2, 'i', 'I', 't', 'T', 'a', 'A') {
        LanguageTag::Ita
    } else if spells3(c0, c1, c2, 'b', 'B', 'e', 'E', 'n', 'N') {
        LanguageTag::Ben
    } else if spells3(c0, c1, c2, 'f', 'F', 'r', 'R', 'a', 'A') {
        LanguageTag::Fra
    } else if spells3(c0, c1, c2, 'd', 'D', 'e', 'E', 'u', 'U') {
        LanguageTag::Deu
    } else if spells3(c0, c1, c2, 'u', 'U', 'k', 'K', 'r', 'R') {
        LanguageTag::Ukr
    } else if spells3(c0, c1, c2, 'k', 'K', 'a', 'A', 't', 'T') {
        LanguageTag::Kat
    } else if spells3(c0, c1, c2, 'a', 'A', 'r', 'R', 'a', 'A') {
        LanguageTag::Ara
    } else if spells3(c0, c1, c2, 'h', 'H', 'i', 'I', 'n', 'N') {
        LanguageTag::Hin
    } else if spells3(c0, c1, c2, 'j', 'J', 'p', 'P', 'n', 'N') {
        LanguageTag::Jpn
    } else if spells3(c0, c1, c2, 'h', 'H', 'e', 'E', 'b', 'B') {
        LanguageTag::Heb
    } else if spells3(c0, c1, c2, 'y', 'Y', 'i', 'I', 'd', 'D') {
        LanguageTag::Yid
    } else if spells3(c0, c1, c2, 'p', 'P', 'o', 'O', 'l', 'L') {
        LanguageTag::Pol
    } else if spells3(c0, c1, c2, 'a', 'A', 'm', 'M', 'h', 'H') {
        LanguageTag::Amh
    } else if spells3(c0, c1, c2, 'j', 'J', 'a', 'A', 'v', 'V') {
        LanguageTag::Jav
    } else if spells3(c0, c1, c2, 'k', 'K', 'o', 'O', 'r', 'R') {
        LanguageTag::Kor
    } else if spells3(c0, c1, c2, 'n', 'N', 'o', 'O', 'b', 'B') {
        LanguageTag::Nob
    } else if spells3(c0, c1, c2, 'd', 'D', 'a', 'A', 'n', 'N') {
        LanguageTag::Dan
    } else if spells3(c0, c1, c2, 's', 'S', 'w', 'W', 'e', 'E') {
        LanguageTag::Swe
    } else if spells3(c0, c1, c2, 'f', 'F', 'i', 'I', 'n', 'N') {
        LanguageTag::Fin
    } else if spells3(c0, c1, c2, 't', 'T', 'u', 'U', 'r', 'R') {
        LanguageTag::Tur
    } else if spells3(c0, c1, c2, 'n', 'N', 'l', 'L', 'd', 'D') {
        LanguageTag::Nld
    } else if spells3(c0, c1, c2, 'h', 'H', 'u', 'U', 'n', 'N') {
        LanguageTag::Hun
    } else if spells3(c0, c1, c2, 'c', 'C', 'e', 'E', 's', 'S') {
        LanguageTag::Ces
    } else if spells3(c0, c1, c2, 'e', 'E', 'l', 'L', 'l', 'L') {
        LanguageTag::Ell
    } else if spells3(c0, c1, c2, 'b', 'B', 'u', 'U', 'l', 'L') {
        LanguageTag::Bul
    } else if spells3(c0, c1, c2, 'b', 'B', 'e', 'E', 'l', 'L') {
        LanguageTag::Bel
    } else if spells3(c0, c1, c2, 'm', 'M', 'a', 'A', 'r', 'R') {
        LanguageTag::Mar
    } else if spells3(c0, c1, c2, 'k', 'K', 'a', 'A', 'n', 'N') {
        LanguageTag::Kan
    } else if spells3(c0, c1, c2, 'r', 'R', 'o', 'O', 'n', 'N') {
        LanguageTag::Ron
    } else if spells3(c0, c1, c2, 's', 'S', 'l', 'L', 'v', 'V') {
        LanguageTag::Slv
    } else if spells3(c0, c1, c2, 'h', 'H', 'r', 'R', 'v', 'V') {
        LanguageTag::Hrv
    } else if spells3(c0, c1, c2, 's', 'S', 'r', 'R', 'p', 'P') {
        LanguageTag::Srp
    } else if spells3(c0, c1, c2, 'm', 'M', 'k', 'K', 'd', 'D') {
        LanguageTag::Mkd
    } else if spells3(c0, c1, c2, 'l', 'L', 'i', 'I', 't', 'T') {
        LanguageTag::Lit
    } else if spells3(c0, c1, c2, 'l', 'L', 'a', 'A', 'v', 'V') {
        LanguageTag::Lav
    } else if spells3(c0, c1, c2, 'e', 'E', 's', 'S', 't', 'T') {
        LanguageTag::Est
    } else if spells3(c0, c1, c2, 't', 'T', 'a', 'A', 'm', 'M') {
        LanguageTag::Tam
    } else if spells3(c0, c1, c2, 'v', 'V', 'i', 'I', 'e', 'E') {
        LanguageTag::Vie
    } else if spells3(c0, c1, c2, 'u', 'U', 'r', 'R', 'd', 'D') {
        LanguageTag::Urd
    } else if spells3(c0, c1, c2, 't', 'T', 'h', 'H', 'a', 'A') {
        LanguageTag::Tha
    } else if spells3(c0, c1, c2, 'g', 'G', 'u', 'U', 'j', 'J') {
        LanguageTag::Guj
    } else if spells3(c0, c1, c2, 'u', 'U', 'z', 'Z', 'b', 'B') {
        LanguageTag::Uzb
    } else if spells3(c0, c1, c2, 'p', 'P', 'a', 'A', 'n', 'N') {
        LanguageTag::Pan
    } else if spells3(c0, c1, c2, 'a', 'A', 'z', 'Z', 'e', 'E') {
        LanguageTag::Aze
    } else if spells3(c0, c1, c2, 'i', 'I', 'n', 'N', 'd', 'D') {
        LanguageTag::Ind
    } else if spells3(c0, c1, c2, 't', 'T', 'e', 'E', 'l', 'L') {
        LanguageTag::Tel
    } else if spells3(c0, c1, c2, 'p', 'P', 'e', 'E', 's', 'S') {
        LanguageTag::Pes
    } else if spells3(c0, c1, c2, 'm', 'M', 'a', 'A', 'l', 'L') {
        LanguageTag::Mal
    } else if spells3(c0, c1, c2, 'o', 'O', 'r', 'R', 'i', 'I') {
        LanguageTag::Ori
    } else if spells3(c0, c1, c2, 'm', 'M', 'y', 'Y', 'a', 'A') {
        LanguageTag::Mya
    } else if spells3(c0, c1, c2, 'n', 'N', 'e', 'E', 'p', 'P') {
        LanguageTag::Nep
    } else if spells3(c0, c1, c2, 's', 'S', 'i', 'I', 'n', 'N') {
        LanguageTag::Sin
    } else if spells3(c0, c1, c2, 'k', 'K', 'h', 'H', 'm', 'M') {
        LanguageTag::Khm
    } else if spells3(c0, c1, c2, 't', 'T', 'u', 'U', 'k', 'K') {
        LanguageTag::Tuk
    } else if spells3(c0, c1, c2, 'a', 'A', 'k', 'K', 'a', 'A') {
        LanguageTag::Aka
    } else if spells3(c0, c1, c2, 'z', 'Z', 'u', 'U', 'l', 'L') {
        LanguageTag::Zul
    } else if spells3(c0, c1, c2, 's', 'S', 'n', 'N', 'a', 'A') {
        LanguageTag::Sna
    } else if spells3(c0, c1, c2, 'a', 'A', 'f', 'F', 'r', 'R') {
        LanguageTag::Afr
    } else if spells3(c0, c1, c2, 'l', 'L', 'a', 'A', 't', 'T') {
        LanguageTag::Lat
    } else if spells3(c0, c1, c2, 's', 'S', 'l', 'L', 'k', 'K') {
        LanguageTag::Slk
    } else if spells3(c0, c1, c2, 'c', 'C', 'a', 'A', 't', 'T') {
        LanguageTag::Cat
    } else if spells3(c0, c1, c2, 't', 'T', 'g', 'G', 'l', 'L') {
        LanguageTag::Tgl
    } else if spells3(c0, c1, c2, 'h', 'H', 'y', 'Y', 'e', 'E') {
        LanguageTag::Hye
    } else {
        LanguageTag::Unspecified
    }
}

/// Resolve an optional language hint: absent means `Unspecified`, present
/// resolves as [`lang_from_code`]. Never fails.
pub fn resolve_language(code: Option<&str>) -> (t: LanguageTag)
    ensures
        t == spec_resolve_language(code.deep_view()),
{
    match code {
        Some(s) => lang_from_code(s),
        None => LanguageTag::Unspecified,
    }
}

/// The canonical code of a tag; empty for `Unspecified`.
pub open spec fn spec_code_of(t: LanguageTag) -> Seq<char> {
    match t {
        LanguageTag::Unspecified => ""@,
        LanguageTag::Epo => "epo"@,
        LanguageTag::Eng => "eng"@,
        LanguageTag::Rus => "rus"@,
        LanguageTag::Cmn => "cmn"@,
        LanguageTag::Spa => "spa"@,
        LanguageTag::Por => "por"@,
        LanguageTag::Ita => "ita"@,
        LanguageTag::Ben => "ben"@,
        LanguageTag::Fra => "fra"@,
        LanguageTag::Deu => "deu"@,
        LanguageTag::Ukr => "ukr"@,
        LanguageTag::Kat => "kat"@,
        LanguageTag::Ara => "ara"@,
        LanguageTag::Hin => "hin"@,
        LanguageTag::Jpn => "jpn"@,
        LanguageTag::Heb => "heb"@,
        LanguageTag::Yid => "yid"@,
        LanguageTag::Pol => "pol"@,
        LanguageTag::Amh => "amh"@,
        LanguageTag::Jav => "jav"@,
        LanguageTag::Kor => "kor"@,
        LanguageTag::Nob => "nob"@,
        LanguageTag::Dan => "dan"@,
        LanguageTag::Swe => "swe"@,
        LanguageTag::Fin => "fin"@,
        LanguageTag::Tur => "tur"@,
        LanguageTag::Nld => "nld"@,
        LanguageTag::Hun => "hun"@,
        LanguageTag::Ces => "ces"@,
        LanguageTag::Ell => "ell"@,
        LanguageTag::Bul => "bul"@,
        LanguageTag::Bel => "bel"@,
        LanguageTag::Mar => "mar"@,
        LanguageTag::Kan => "kan"@,
        LanguageTag::Ron => "ron"@,
        LanguageTag::Slv => "slv"@,
        LanguageTag::Hrv => "hrv"@,
        LanguageTag::Srp => "srp"@,
        LanguageTag::Mkd => "mkd"@,
        LanguageTag::Lit => "lit"@,
        LanguageTag::Lav => "lav"@,
        LanguageTag::Est => "est"@,
        LanguageTag::Tam => "tam"@,
        LanguageTag::Vie => "vie"@,
        LanguageTag::Urd => "urd"@,
        LanguageTag::Tha => "tha"@,
        LanguageTag::Guj => "guj"@,
        LanguageTag::Uzb => "uzb"@,
        LanguageTag::Pan => "pan"@,
        LanguageTag::Aze => "aze"@,
        LanguageTag::Ind => "ind"@,
        LanguageTag::Tel => "tel"@,
        LanguageTag::Pes => "pes"@,
        LanguageTag::Mal => "mal"@,
        LanguageTag::Ori => "ori"@,
        LanguageTag::Mya => "mya"@,
        LanguageTag::Nep => "nep"@,
        LanguageTag::Sin => "sin"@,
        LanguageTag::Khm => "khm"@,
        LanguageTag::Tuk => "tuk"@,
        LanguageTag::Aka => "aka"@,
        LanguageTag::Zul => "zul"@,
        LanguageTag::Sna => "sna"@,
        LanguageTag::Afr => "afr"@,
        LanguageTag::Lat => "lat"@,
        LanguageTag::Slk => "slk"@,
        LanguageTag::Cat => "cat"@,
        LanguageTag::Tgl => "tgl"@,
        LanguageTag::Hye => "hye"@,
    }
}

impl LanguageTag {
    /// The canonical code of this tag, as the resolver recognizes it;
    /// empty for `Unspecified`.
    pub fn code(&self) -> (s: &'static str)
        ensures
            s@ == spec_code_of(*self),
    {
        match self {
            LanguageTag::Unspecified => "",
            LanguageTag::Epo => "epo",
            LanguageTag::Eng => "eng",
            LanguageTag::Rus => "rus",
            LanguageTag::Cmn => "cmn",
            LanguageTag::Spa => "spa",
            LanguageTag::Por => "por",
            LanguageTag::Ita => "ita",
            LanguageTag::Ben => "ben",
            LanguageTag::Fra => "fra",
            LanguageTag::Deu => "deu",
            LanguageTag::Ukr => "ukr",
            LanguageTag::Kat => "kat",
            LanguageTag::Ara => "ara",
            LanguageTag::Hin => "hin",
            LanguageTag::Jpn => "jpn",
            LanguageTag::Heb => "heb",
            LanguageTag::Yid => "yid",
            LanguageTag::Pol => "pol",
            LanguageTag::Amh => "amh",
            LanguageTag::Jav => "jav",
            LanguageTag::Kor => "kor",
            LanguageTag::Nob => "nob",
            LanguageTag::Dan => "dan",
            LanguageTag::Swe => "swe",
            LanguageTag::Fin => "fin",
            LanguageTag::Tur => "tur",
            LanguageTag::Nld => "nld",
            LanguageTag::Hun => "hun",
            LanguageTag::Ces => "ces",
            LanguageTag::Ell => "ell",
            LanguageTag::Bul => "bul",
            LanguageTag::Bel => "bel",
            LanguageTag::Mar => "mar",
            LanguageTag::Kan => "kan",
            LanguageTag::Ron => "ron",
            LanguageTag::Slv => "slv",
            LanguageTag::Hrv => "hrv",
            LanguageTag::Srp => "srp",
            LanguageTag::Mkd => "mkd",
            LanguageTag::Lit => "lit",
            LanguageTag::Lav => "lav",
            LanguageTag::Est => "est",
            LanguageTag::Tam => "tam",
            LanguageTag::Vie => "vie",
            LanguageTag::Urd => "urd",
            LanguageTag::Tha => "tha",
            LanguageTag::Guj => "guj",
            LanguageTag::Uzb => "uzb",
            LanguageTag::Pan => "pan",
            LanguageTag::Aze => "aze",
            LanguageTag::Ind => "ind",
            LanguageTag::Tel => "tel",
            LanguageTag::Pes => "pes",
            LanguageTag::Mal => "mal",
            LanguageTag::Ori => "ori",
            LanguageTag::Mya => "mya",
            LanguageTag::Nep => "nep",
            LanguageTag::Sin => "sin",
            LanguageTag::Khm => "khm",
            LanguageTag::Tuk => "tuk",
            LanguageTag::Aka => "aka",
            LanguageTag::Zul => "zul",
            LanguageTag::Sna => "sna",
            LanguageTag::Afr => "afr",
            LanguageTag::Lat => "lat",
            LanguageTag::Slk => "slk",
            LanguageTag::Cat => "cat",
            LanguageTag::Tgl => "tgl",
            LanguageTag::Hye => "hye",
        }
    }
}

/// Language resolution is idempotent: resolving the canonical code of any
/// tag yields that tag again.
pub proof fn lemma_resolution_idempotent(t: LanguageTag)
    ensures
        spec_lang_of(spec_code_of(t)) == t,
{
    match t {
        LanguageTag::Unspecified => {
            reveal_strlit("");
        },
        LanguageTag::Epo => {
            reveal_strlit("epo");
        },
        LanguageTag::Eng => {
            reveal_strlit("eng");
        },
        LanguageTag::Rus => {
            reveal_strlit("rus");
        },
        LanguageTag::Cmn => {
            reveal_strlit("cmn");
        },
        LanguageTag::Spa => {
            reveal_strlit("spa");
        },
        LanguageTag::Por => {
            reveal_strlit("por");
        },
        LanguageTag::Ita => {
            reveal_strlit("ita");
        },
        LanguageTag::Ben => {
            reveal_strlit("ben");
        },
        LanguageTag::Fra => {
            reveal_strlit("fra");
        },
        LanguageTag::Deu => {
            reveal_strlit("deu");
        },
        LanguageTag::Ukr => {
            reveal_strlit("ukr");
        },
        LanguageTag::Kat => {
            reveal_strlit("kat");
        },
        LanguageTag::Ara => {
            reveal_strlit("ara");
        },
        LanguageTag::Hin => {
            reveal_strlit("hin");
        },
        LanguageTag::Jpn => {
            reveal_strlit("jpn");
        },
        LanguageTag::Heb => {
            reveal_strlit("heb");
        },
        LanguageTag::Yid => {
            reveal_strlit("yid");
        },
        LanguageTag::Pol => {
            reveal_strlit("pol");
        },
        LanguageTag::Amh => {
            reveal_strlit("amh");
        },
        LanguageTag::Jav => {
            reveal_strlit("jav");
        },
        LanguageTag::Kor => {
            reveal_strlit("kor");
        },
        LanguageTag::Nob => {
            reveal_strlit("nob");
        },
        LanguageTag::Dan => {
            reveal_strlit("dan");
        },
        LanguageTag::Swe => {
            reveal_strlit("swe");
        },
        LanguageTag::Fin => {
            reveal_strlit("fin");
        },
        LanguageTag::Tur => {
            reveal_strlit("tur");
        },
        LanguageTag::Nld => {
            reveal_strlit("nld");
        },
        LanguageTag::Hun => {
            reveal_strlit("hun");
        },
        LanguageTag::Ces => {
            reveal_strlit("ces");
        },
        LanguageTag::Ell => {
            reveal_strlit("ell");
        },
        LanguageTag::Bul => {
            reveal_strlit("bul");
        },
        LanguageTag::Bel => {
            reveal_strlit("bel");
        },
        LanguageTag::Mar => {
            reveal_strlit("mar");
        },
        LanguageTag::Kan => {
            reveal_strlit("kan");
        },
        LanguageTag::Ron => {
            reveal_strlit("ron");
        },
        LanguageTag::Slv => {
            reveal_strlit("slv");
        },
        LanguageTag::Hrv => {
            reveal_strlit("hrv");
        },
        LanguageTag::Srp => {
            reveal_strlit("srp");
        },
        LanguageTag::Mkd => {
            reveal_strlit("mkd");
        },
        LanguageTag::Lit => {
            reveal_strlit("lit");
        },
        LanguageTag::Lav => {
            reveal_strlit("lav");
        },
        LanguageTag::Est => {
            reveal_strlit("est");
        },
        LanguageTag::Tam => {
            reveal_strlit("tam");
        },
        LanguageTag::Vie => {
            reveal_strlit("vie");
        },
        LanguageTag::Urd => {
            reveal_strlit("urd");
        },
        LanguageTag::Tha => {
            reveal_strlit("tha");
        },
        LanguageTag::Guj => {
            reveal_strlit("guj");
        },
        LanguageTag::Uzb => {
            reveal_strlit("uzb");
        },
        LanguageTag::Pan => {
            reveal_strlit("pan");
        },
        LanguageTag::Aze => {
            reveal_strlit("aze");
        },
        LanguageTag::Ind => {
            reveal_strlit("ind");
        },
        LanguageTag::Tel => {
            reveal_strlit("tel");
        },
        LanguageTag::Pes => {
            reveal_strlit("pes");
        },
        LanguageTag::Mal => {
            reveal_strlit("mal");
        },
        LanguageTag::Ori => {
            reveal_strlit("ori");
        },
        LanguageTag::Mya => {
            reveal_strlit("mya");
        },
        LanguageTag::Nep => {
            reveal_strlit("nep");
        },
        LanguageTag::Sin => {
            reveal_strlit("sin");
        },
        LanguageTag::Khm => {
            reveal_strlit("khm");
        },
        LanguageTag::Tuk => {
            reveal_strlit("tuk");
        },
        LanguageTag::Aka => {
            reveal_strlit("aka");
        },
        LanguageTag::Zul => {
            reveal_strlit("zul");
        },
        LanguageTag::Sna => {
            reveal_strlit("sna");
        },
        LanguageTag::Afr => {
            reveal_strlit("afr");
        },
        LanguageTag::Lat => {
            reveal_strlit("lat");
        },
        LanguageTag::Slk => {
            reveal_strlit("slk");
        },
        LanguageTag::Cat => {
            reveal_strlit("cat");
        },
        LanguageTag::Tgl => {
            reveal_strlit("tgl");
        },
        LanguageTag::Hye => {
            reveal_strlit("hye");
        },
    }
}

/// An unrecognized code resolves exactly as an absent one: both fall back
/// to `Unspecified` rather than failing.
pub proof fn lemma_unrecognized_falls_back(s: Seq<char>)
    requires
        !spec_recognized(s),
    ensures
        spec_resolve_language(Some(s)) == spec_resolve_language(None),
{
}

} // verus!

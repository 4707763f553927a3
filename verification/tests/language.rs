use sonic_client::lang::LanguageTag;
use sonic_client::lang::lang_from_code;
use sonic_client::lang::resolve_language;

#[test]
fn recognized_codes_resolve_to_their_tag() {
    assert_eq!(resolve_language(Some("eng")), LanguageTag::Eng);
    assert_eq!(resolve_language(Some("rus")), LanguageTag::Rus);
    assert_eq!(resolve_language(Some("fra")), LanguageTag::Fra);
    assert_eq!(resolve_language(Some("cmn")), LanguageTag::Cmn);
    assert_eq!(resolve_language(Some("hye")), LanguageTag::Hye);
    assert_eq!(resolve_language(Some("epo")), LanguageTag::Epo);
}

#[test]
fn resolution_ignores_ascii_case() {
    assert_eq!(resolve_language(Some("ENG")), LanguageTag::Eng);
    assert_eq!(resolve_language(Some("Ukr")), LanguageTag::Ukr);
    assert_eq!(resolve_language(Some("dEu")), LanguageTag::Deu);
}

#[test]
fn absent_hint_is_unspecified() {
    assert_eq!(resolve_language(None), LanguageTag::Unspecified);
}

#[test]
fn unrecognized_code_falls_back_to_unspecified() {
    assert_eq!(resolve_language(Some("oops")), LanguageTag::Unspecified);
    assert_eq!(resolve_language(Some("")), LanguageTag::Unspecified);
    assert_eq!(resolve_language(Some("en")), LanguageTag::Unspecified);
    assert_eq!(resolve_language(Some("engx")), LanguageTag::Unspecified);
    assert_eq!(resolve_language(Some("oops")), resolve_language(None));
}

#[test]
fn resolution_is_idempotent_on_canonical_codes() {
    let tags = [
        LanguageTag::Eng,
        LanguageTag::Rus,
        LanguageTag::Jpn,
        LanguageTag::Tgl,
        LanguageTag::Unspecified,
    ];
    for t in tags {
        assert_eq!(resolve_language(Some(t.code())), t);
    }
}

#[test]
fn canonical_codes_round_through_from_code() {
    assert_eq!(LanguageTag::Eng.code(), "eng");
    assert_eq!(LanguageTag::Unspecified.code(), "");
    assert_eq!(lang_from_code(LanguageTag::Swe.code()), LanguageTag::Swe);
}

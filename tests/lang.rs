use deeprl::{Language, LanguageType};

#[test]
fn every_language_round_trips() {
    for l in Language::all() {
        assert_eq!(Language::parse(l.as_str()).unwrap(), l);
        assert_eq!(Language::from_code(l.as_str()), Some(l));
    }
}

#[test]
fn parse_then_format_normalizes() {
    for l in Language::all() {
        let lower = l.as_str().to_lowercase();
        let parsed = Language::parse(&lower).unwrap();
        assert_eq!(parsed.as_str(), lower.to_uppercase());
    }
}

#[test]
fn parse_ignores_case() {
    assert_eq!(Language::parse("en-us").unwrap(), Language::EnUs);
    assert_eq!(Language::parse("En-Gb").unwrap(), Language::EnGb);
    assert_eq!(Language::parse("zh-hant").unwrap(), Language::ZhHant);
    assert_eq!(Language::parse("es-419").unwrap(), Language::Es419);
    assert_eq!("de".parse::<Language>().unwrap(), Language::De);
}

#[test]
fn from_code_does_not_fold_case() {
    assert_eq!(Language::from_code("pt-br"), None);
    assert_eq!(Language::from_code("PT-BR"), Some(Language::PtBr));
}

#[test]
fn parse_rejects_unknown_codes() {
    let err = Language::parse("xx").unwrap_err();
    assert_eq!(err.0, "xx");
    assert_eq!(err.message(), "invalid language: xx");
    assert!(Language::parse("").is_err());
    assert!(Language::parse("EN_US").is_err());
    assert!(Language::parse(" EN").is_err());
}

#[test]
fn codes_are_distinct() {
    let all = Language::all();
    assert_eq!(all.len(), 37);
    for (i, a) in all.iter().enumerate() {
        for b in all.iter().skip(i + 1) {
            assert_ne!(a.as_str(), b.as_str());
        }
    }
}

#[test]
fn language_type_query_values() {
    assert_eq!(LanguageType::Source.as_str(), "source");
    assert_eq!(LanguageType::Target.as_str(), "target");
}

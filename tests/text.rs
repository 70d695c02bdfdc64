use deeprl::{Error, Formality, Language, SplitSentences, TagHandling, TextOptions};

fn pairs(v: &[(&str, &str)]) -> Vec<(String, String)> {
    v.iter().map(|(k, v)| (k.to_string(), v.to_string())).collect()
}

#[test]
fn translate_error_empty_text() {
    let cases: Vec<Option<Vec<String>>> = vec![None, Some(vec![]), Some(vec!["".to_string()])];
    for text in cases {
        let mut opt = TextOptions::new(Language::De);
        if let Some(text) = text {
            opt = opt.text(text);
        }
        let res = opt.translate_form();
        assert!(matches!(
            res,
            Err(Error::Client(s))
            if s.contains("empty")
        ));
    }
}

#[test]
fn only_target_when_nothing_set() {
    let opt = TextOptions::new(Language::De);
    assert_eq!(opt.to_wire(), pairs(&[("target_lang", "DE")]));
}

#[test]
fn every_option_once_in_order() {
    let opt = TextOptions::new(Language::Fr)
        .source_lang(Language::En)
        .split_sentences(SplitSentences::Off)
        .preserve_formatting(true)
        .formality(Formality::PreferLess)
        .glossary_id("g-1".to_string())
        .tag_handling(TagHandling::Xml)
        .non_splitting_tags(vec!["b".to_string()])
        .outline_detection(false)
        .splitting_tags(vec!["p".to_string(), "div".to_string()])
        .ignore_tags(vec!["title".to_string()]);
    assert_eq!(
        opt.to_wire(),
        pairs(&[
            ("target_lang", "FR"),
            ("source_lang", "EN"),
            ("split_sentences", "0"),
            ("preserve_formatting", "1"),
            ("formality", "prefer_less"),
            ("glossary_id", "g-1"),
            ("tag_handling", "xml"),
            ("non_splitting_tags", "b"),
            ("outline_detection", "0"),
            ("splitting_tags", "p,div"),
            ("ignore_tags", "title"),
        ])
    );
}

#[test]
fn flags_sent_only_against_the_default() {
    let opt = TextOptions::new(Language::Es)
        .preserve_formatting(false)
        .outline_detection(true);
    assert_eq!(opt.to_wire(), pairs(&[("target_lang", "ES")]));
    let opt = TextOptions::new(Language::Es)
        .preserve_formatting(true)
        .outline_detection(false);
    assert_eq!(
        opt.to_wire(),
        pairs(&[
            ("target_lang", "ES"),
            ("preserve_formatting", "1"),
            ("outline_detection", "0"),
        ])
    );
}

#[test]
fn empty_tag_lists_are_not_sent() {
    let opt = TextOptions::new(Language::It)
        .splitting_tags(vec![])
        .ignore_tags(vec![])
        .non_splitting_tags(vec![]);
    assert_eq!(opt.to_wire(), pairs(&[("target_lang", "IT")]));
}

#[test]
fn last_setter_call_wins() {
    let opt = TextOptions::new(Language::De)
        .source_lang(Language::Fr)
        .source_lang(Language::En)
        .formality(Formality::More)
        .formality(Formality::Less);
    assert_eq!(
        opt.to_wire(),
        pairs(&[("target_lang", "DE"), ("source_lang", "EN"), ("formality", "less")])
    );
}

#[test]
fn wire_keys_are_distinct() {
    let opt = TextOptions::new(Language::De)
        .source_lang(Language::En)
        .split_sentences(SplitSentences::Default)
        .glossary_id("x".to_string())
        .tag_handling(TagHandling::Html);
    let wire = opt.to_wire();
    for (i, a) in wire.iter().enumerate() {
        for b in wire.iter().skip(i + 1) {
            assert_ne!(a.0, b.0);
        }
    }
}

#[test]
fn translate_form_appends_each_text() {
    let opt = TextOptions::new(Language::De)
        .source_lang(Language::En)
        .text(vec!["good morning".to_string(), "".to_string(), "good night".to_string()]);
    assert_eq!(
        opt.translate_form().unwrap(),
        pairs(&[
            ("target_lang", "DE"),
            ("source_lang", "EN"),
            ("text", "good morning"),
            ("text", ""),
            ("text", "good night"),
        ])
    );
}

#[test]
fn option_tokens() {
    assert_eq!(SplitSentences::Off.as_str(), "0");
    assert_eq!(SplitSentences::Default.as_str(), "1");
    assert_eq!(SplitSentences::NoNewlines.as_str(), "nonewlines");
    assert_eq!(Formality::Default.as_str(), "default");
    assert_eq!(Formality::More.as_str(), "more");
    assert_eq!(Formality::Less.as_str(), "less");
    assert_eq!(Formality::PreferMore.as_str(), "prefer_more");
    assert_eq!(Formality::PreferLess.as_str(), "prefer_less");
    assert_eq!(TagHandling::Xml.as_str(), "xml");
    assert_eq!(TagHandling::Html.as_str(), "html");
}

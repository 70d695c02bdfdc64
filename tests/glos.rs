use deeprl::{decode_entries, encode_entries, glossary_new_form, GlossaryEntriesFormat, Language};

fn pairs(v: &[(&str, &str)]) -> Vec<(String, String)> {
    v.iter().map(|(k, v)| (k.to_string(), v.to_string())).collect()
}

#[test]
fn glossary_csv_scenario() {
    let entries = decode_entries("hello,ciao", GlossaryEntriesFormat::Csv);
    assert_eq!(entries, pairs(&[("hello", "ciao")]));
    let fetched = decode_entries("hello\tciao", GlossaryEntriesFormat::Tsv);
    assert_eq!(fetched, pairs(&[("hello", "ciao")]));
}

#[test]
fn decode_two_entries() {
    let entries = decode_entries("hello,ciao\ngoodbye,ciao", GlossaryEntriesFormat::Csv);
    assert_eq!(entries, pairs(&[("hello", "ciao"), ("goodbye", "ciao")]));
}

#[test]
fn decode_skips_malformed_lines() {
    let text = "a\tb\n\nc\nd\te\tf\ng\th\n";
    let entries = decode_entries(text, GlossaryEntriesFormat::Tsv);
    assert_eq!(entries, pairs(&[("a", "b"), ("g", "h")]));
}

#[test]
fn decode_trailing_blank_line() {
    let with = decode_entries("a,b\nc,d\n", GlossaryEntriesFormat::Csv);
    let without = decode_entries("a,b\nc,d", GlossaryEntriesFormat::Csv);
    assert_eq!(with, without);
    assert_eq!(with, pairs(&[("a", "b"), ("c", "d")]));
}

#[test]
fn decode_later_duplicate_wins() {
    let entries = decode_entries("a\t1\nb\t2\na\t3", GlossaryEntriesFormat::Tsv);
    assert_eq!(entries, pairs(&[("a", "3"), ("b", "2")]));
}

#[test]
fn decode_uses_the_format_separator() {
    assert_eq!(decode_entries("a,b", GlossaryEntriesFormat::Tsv), pairs(&[]));
    assert_eq!(decode_entries("a\tb", GlossaryEntriesFormat::Csv), pairs(&[]));
    assert_eq!(decode_entries("", GlossaryEntriesFormat::Csv), pairs(&[]));
    assert_eq!(decode_entries(",", GlossaryEntriesFormat::Csv), pairs(&[("", "")]));
}

#[test]
fn decode_unicode_terms() {
    let entries = decode_entries("día\tTag\nß\tss", GlossaryEntriesFormat::Tsv);
    assert_eq!(entries, pairs(&[("día", "Tag"), ("ß", "ss")]));
}

#[test]
fn encode_exact() {
    let entries = pairs(&[("hello", "ciao"), ("goodbye", "arrivederci")]);
    assert_eq!(encode_entries(&entries, GlossaryEntriesFormat::Tsv), "hello\tciao\ngoodbye\tarrivederci");
    assert_eq!(encode_entries(&entries, GlossaryEntriesFormat::Csv), "hello,ciao\ngoodbye,arrivederci");
    assert_eq!(encode_entries(&pairs(&[]), GlossaryEntriesFormat::Csv), "");
}

#[test]
fn entries_round_trip() {
    let entries = pairs(&[("hello", "ciao"), ("goodbye", "ciao"), ("thanks", "grazie")]);
    for fmt in [GlossaryEntriesFormat::Tsv, GlossaryEntriesFormat::Csv] {
        let text = encode_entries(&entries, fmt);
        assert_eq!(decode_entries(&text, fmt), entries);
    }
    let empty = pairs(&[]);
    assert_eq!(decode_entries(&encode_entries(&empty, GlossaryEntriesFormat::Tsv), GlossaryEntriesFormat::Tsv), empty);
}

#[test]
fn format_names() {
    assert_eq!(GlossaryEntriesFormat::Tsv.as_str(), "tsv");
    assert_eq!(GlossaryEntriesFormat::Csv.as_str(), "csv");
    assert_eq!(GlossaryEntriesFormat::Tsv.separator(), '\t');
    assert_eq!(GlossaryEntriesFormat::Csv.separator(), ',');
}

#[test]
fn glossary_creation_form() {
    let form = glossary_new_form(
        "my_glossary".to_string(),
        Language::En,
        Language::It,
        "hello,ciao\ngoodbye,ciao".to_string(),
        GlossaryEntriesFormat::Csv,
    );
    assert_eq!(
        form,
        pairs(&[
            ("name", "my_glossary"),
            ("source_lang", "EN"),
            ("target_lang", "IT"),
            ("entries", "hello,ciao\ngoodbye,ciao"),
            ("entries_format", "csv"),
        ])
    );
}

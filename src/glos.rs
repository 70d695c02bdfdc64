use vstd::prelude::*;
use vstd::string::*;

use crate::chars::{lemma_split_concat, lemma_split_without_sep, push_char, split, split_on};
use crate::lang::Language;
use crate::wire::{form_view, join, keys_distinct, push_field, strings_view, Field};

verus! {

/// A glossary language pair
#[derive(Clone, Debug)]
pub struct GlossaryLanguagePair {
    /// Source language
    pub source_lang: String,
    /// Target language
    pub target_lang: String,
}

/// Defines the set of supported language pairs for a glossary
#[derive(Clone, Debug)]
pub struct GlossaryLanguagePairsResult {
    /// List of supported glossary language pairs
    pub supported_languages: Vec<GlossaryLanguagePair>,
}

/// Format in which glossary entries are provided
#[derive(Clone, Copy, Debug, PartialEq, Eq, Structural)]
pub enum GlossaryEntriesFormat {
    /// Tab-separated values
    Tsv,
    /// Comma-separated values
    Csv,
}

impl GlossaryEntriesFormat {
    /// The name of the format on the wire.
    pub open spec fn wire_value(self) -> Seq<char> {
        match self {
            GlossaryEntriesFormat::Tsv => "tsv"@,
            GlossaryEntriesFormat::Csv => "csv"@,
        }
    }

    /// The character between a source term and its target term.
    pub open spec fn sep(self) -> char {
        match self {
            GlossaryEntriesFormat::Tsv => '\t',
            GlossaryEntriesFormat::Csv => ',',
        }
    }

    /// The name of the format on the wire: "tsv" or "csv".
    pub fn as_str(&self) -> (r: &'static str)
        ensures
            r@ == self.wire_value(),
    {
        match self {
            GlossaryEntriesFormat::Tsv => "tsv",
            GlossaryEntriesFormat::Csv => "csv",
        }
    }

    /// The character between a source term and its target term.
    pub fn separator(&self) -> (r: char)
        ensures
            r == self.sep(),
    {
        match self {
            GlossaryEntriesFormat::Tsv => '\t',
            GlossaryEntriesFormat::Csv => ',',
        }
    }
}

/// Information that uniquely identifies a glossary
#[derive(Clone, Debug)]
pub struct Glossary {
    /// A unique ID assigned to a glossary
    pub glossary_id: String,
    /// Indicates if the newly created glossary can already be used in translate requests.
    /// If the created glossary is not yet ready, you have to wait and check the ready status
    /// of the glossary before using it in a translate request.
    pub ready: bool,
    /// Name associated with the glossary
    pub name: String,
    /// The language in which the source texts in the glossary are specified
    pub source_lang: String,
    /// The language in which the target texts in the glossary are specified
    pub target_lang: String,
    /// The creation time of the glossary in ISO 8601-1:2019 format (e.g. 2021-08-03T14:16:18.329Z)
    pub creation_time: String,
    /// The number of entries in the glossary
    pub entry_count: u64,
}

/// The result of getting available glossaries
#[derive(Clone, Debug)]
pub struct GlossariesResult {
    /// List of glossaries
    pub glossaries: Vec<Glossary>,
}

/// The form that creates a glossary.
pub fn glossary_new_form(
    name: String,
    source_lang: Language,
    target_lang: Language,
    entries: String,
    fmt: GlossaryEntriesFormat,
) -> (r: Vec<(String, String)>)
    ensures
        form_view(r@) == seq![
            ("name"@, name@),
            ("source_lang"@, source_lang.code()),
            ("target_lang"@, target_lang.code()),
            ("entries"@, entries@),
            ("entries_format"@, fmt.wire_value()),
        ],
{
    let ghost name_v = name@;
    let ghost entries_v = entries@;
    let mut form: Vec<(String, String)> = Vec::new();
    assert(form_view(form@) =~= Seq::<Field>::empty());
    push_field(&mut form, "name", name);
    push_field(&mut form, "source_lang", String::from_str(source_lang.as_str()));
    push_field(&mut form, "target_lang", String::from_str(target_lang.as_str()));
    push_field(&mut form, "entries", entries);
    push_field(&mut form, "entries_format", String::from_str(fmt.as_str()));
    assert(form_view(form@) =~= seq![
        ("name"@, name_v),
        ("source_lang"@, source_lang.code()),
        ("target_lang"@, target_lang.code()),
        ("entries"@, entries_v),
        ("entries_format"@, fmt.wire_value()),
    ]);
    form
}

/// One line of the entry format: the source term, the separator, the target term.
pub open spec fn entry_line(e: Field, sep: char) -> Seq<char> {
    e.0 + seq![sep] + e.1
}

/// The entries in the line-oriented format: one line per entry, lines separated by newlines.
pub open spec fn encode_spec(entries: Seq<Field>, sep: char) -> Seq<char> {
    join(entries.map_values(|e: Field| entry_line(e, sep)), seq!['\n'])
}

/// The entries with `key` mapped to `value`: an entry with that key takes the new value in
/// its place; otherwise the entry is added at the end.
pub open spec fn insert_entry(entries: Seq<Field>, key: Seq<char>, value: Seq<char>) -> Seq<Field> {
    if exists|i: int| 0 <= i < entries.len() && entries[i].0 == key {
        let i = choose|i: int| 0 <= i < entries.len() && entries[i].0 == key;
        entries.update(i, (key, value))
    } else {
        entries.push((key, value))
    }
}

/// The entries read from `lines` in order: a line of exactly two fields maps its first to
/// its second, a later line overriding an earlier one with the same key; any other line is
/// skipped.
pub open spec fn decode_lines(lines: Seq<Seq<char>>, sep: char) -> Seq<Field>
    decreases lines.len(),
{
    if lines.len() == 0 {
        Seq::empty()
    } else {
        let prev = decode_lines(lines.drop_last(), sep);
        let fields = split(lines.last(), sep);
        if fields.len() == 2 {
            insert_entry(prev, fields[0], fields[1])
        } else {
            prev
        }
    }
}

/// The entries read from a blob in the line-oriented format.
pub open spec fn decode_spec(text: Seq<char>, sep: char) -> Seq<Field> {
    decode_lines(split(text, '\n'), sep)
}

/// Inserting keeps keys distinct.
proof fn lemma_insert_entry(entries: Seq<Field>, key: Seq<char>, value: Seq<char>)
    requires
        keys_distinct(entries),
    ensures
        keys_distinct(insert_entry(entries, key, value)),
{
    let r = insert_entry(entries, key, value);
    if exists|i: int| 0 <= i < entries.len() && entries[i].0 == key {
        let i = choose|i: int| 0 <= i < entries.len() && entries[i].0 == key;
        assert forall|a: int, b: int| 0 <= a < b < r.len() implies r[a].0 != r[b].0 by {
            if a != i && b != i {
                assert(r[a] == entries[a] && r[b] == entries[b]);
            }
        }
    } else {
        assert forall|a: int, b: int| 0 <= a < b < r.len() implies r[a].0 != r[b].0 by {
            if b < entries.len() {
                assert(r[a] == entries[a] && r[b] == entries[b]);
            }
        }
    }
}

/// Decoding yields distinct keys.
pub proof fn lemma_decode_keys_distinct(lines: Seq<Seq<char>>, sep: char)
    ensures
        keys_distinct(decode_lines(lines, sep)),
    decreases lines.len(),
{
    if lines.len() > 0 {
        lemma_decode_keys_distinct(lines.drop_last(), sep);
        let prev = decode_lines(lines.drop_last(), sep);
        let fields = split(lines.last(), sep);
        if fields.len() == 2 {
            lemma_insert_entry(prev, fields[0], fields[1]);
        }
    }
}

/// Maps `key` to `value` among entries with distinct keys.
fn insert_entry_exec(entries: &mut Vec<(String, String)>, key: String, value: String)
    requires
        keys_distinct(form_view(old(entries)@)),
    ensures
        form_view(final(entries)@) == insert_entry(form_view(old(entries)@), key@, value@),
{
    let ghost before = form_view(entries@);
    let mut i: usize = 0;
    while i < entries.len()
        invariant
            i <= entries@.len(),
            entries@ == old(entries)@,
            before == form_view(entries@),
            keys_distinct(before),
            forall|j: int| 0 <= j < i ==> (#[trigger] before[j]).0 != key@,
        decreases entries@.len() - i,
    {
        if entries[i].0 == key {
            proof {
                let c = choose|c: int| 0 <= c < before.len() && before[c].0 == key@;
                assert(before[i as int].0 == key@);
                assert(c == i);
            }
            entries[i] = (key, value);
            assert(form_view(entries@) =~= before.update(i as int, (key@, value@)));
            return;
        }
        i = i + 1;
    }
    entries.push((key, value));
    assert(form_view(entries@) =~= before.push((key@, value@)));
}

/// Reads glossary entries from the line-oriented format: lines are separated by newlines,
/// and a line holds a source term and a target term separated by the format's separator.
/// A line that does not split into exactly two fields (a trailing blank line, say) is
/// skipped. When a key occurs twice, the later value replaces the earlier one.
pub fn decode_entries(text: &str, fmt: GlossaryEntriesFormat) -> (r: Vec<(String, String)>)
    ensures
        form_view(r@) == decode_spec(text@, fmt.sep()),
        keys_distinct(form_view(r@)),
{
    let sep = fmt.separator();
    let lines = split_on(text, '\n');
    let ghost all = strings_view(lines@);
    let mut entries: Vec<(String, String)> = Vec::new();
    let mut i: usize = 0;
    assert(form_view(entries@) =~= decode_lines(all.take(0), sep));
    while i < lines.len()
        invariant
            i <= lines@.len(),
            all == strings_view(lines@),
            form_view(entries@) == decode_lines(all.take(i as int), sep),
        decreases lines@.len() - i,
    {
        proof {
            lemma_decode_keys_distinct(all.take(i as int), sep);
        }
        let fields = split_on(lines[i].as_str(), sep);
        assert(all.take(i + 1).drop_last() =~= all.take(i as int));
        if fields.len() == 2 {
            insert_entry_exec(&mut entries, fields[0].clone(), fields[1].clone());
        }
        i = i + 1;
    }
    assert(all.take(i as int) =~= all);
    proof {
        lemma_decode_keys_distinct(all, sep);
    }
    entries
}

/// Writes glossary entries in the line-oriented format: one line per entry, the source term
/// and the target term separated by the format's separator, lines separated by newlines.
pub fn encode_entries(entries: &Vec<(String, String)>, fmt: GlossaryEntriesFormat) -> (r: String)
    ensures
        r@ == encode_spec(form_view(entries@), fmt.sep()),
{
    let sep = fmt.separator();
    let ghost lines = form_view(entries@).map_values(|e: Field| entry_line(e, sep));
    let mut out = String::new();
    let mut i: usize = 0;
    assert(out@ =~= join(lines.take(0), seq!['\n']));
    while i < entries.len()
        invariant
            i <= entries@.len(),
            lines == form_view(entries@).map_values(|e: Field| entry_line(e, sep)),
            out@ == join(lines.take(i as int), seq!['\n']),
        decreases entries@.len() - i,
    {
        let ghost prev = out@;
        if i > 0 {
            push_char(&mut out, '\n');
        }
        out.append(entries[i].0.as_str());
        push_char(&mut out, sep);
        out.append(entries[i].1.as_str());
        assert(lines.take(i + 1).drop_last() =~= lines.take(i as int));
        assert(lines[i as int] == entry_line((entries@[i as int].0@, entries@[i as int].1@), sep));
        if i > 0 {
            assert(out@ =~= prev + seq!['\n'] + lines[i as int]);
        } else {
            assert(out@ =~= lines[i as int]);
        }
        i = i + 1;
    }
    assert(lines.take(i as int) =~= lines);
    out
}

/// Lines free of `c`, joined with `c`, split back into the same lines.
proof fn lemma_split_join(lines: Seq<Seq<char>>, c: char)
    requires
        lines.len() >= 1,
        forall|i: int| 0 <= i < lines.len() ==> !(#[trigger] lines[i]).contains(c),
    ensures
        split(join(lines, seq![c]), c) == lines,
    decreases lines.len(),
{
    if lines.len() == 1 {
        lemma_split_without_sep(lines[0], c);
        assert(seq![lines[0]] =~= lines);
    } else {
        let init = lines.drop_last();
        assert forall|i: int| 0 <= i < init.len() implies !(#[trigger] init[i]).contains(c) by {
            assert(init[i] == lines[i]);
        }
        lemma_split_join(init, c);
        lemma_split_concat(join(init, seq![c]), lines.last(), c);
        assert(lines.last() == lines[lines.len() - 1]);
        lemma_split_without_sep(lines.last(), c);
        assert(init + seq![lines.last()] =~= lines);
    }
}

/// A line of an entry whose terms hold neither a newline nor the separator holds no newline,
/// and splits into its two terms.
proof fn lemma_entry_line(e: Field, sep: char)
    requires
        sep != '\n',
        !e.0.contains('\n') && !e.0.contains(sep),
        !e.1.contains('\n') && !e.1.contains(sep),
    ensures
        !entry_line(e, sep).contains('\n'),
        split(entry_line(e, sep), sep) == seq![e.0, e.1],
{
    let l = entry_line(e, sep);
    assert(!l.contains('\n')) by {
        if l.contains('\n') {
            let i = choose|i: int| 0 <= i < l.len() && l[i] == '\n';
            if i < e.0.len() {
                assert(e.0[i] == '\n');
            } else if i > e.0.len() {
                assert(e.1[i - e.0.len() - 1] == '\n');
            }
        }
    }
    lemma_split_concat(e.0, e.1, sep);
    lemma_split_without_sep(e.0, sep);
    lemma_split_without_sep(e.1, sep);
    assert(seq![e.0] + seq![e.1] =~= seq![e.0, e.1]);
}

/// The terms of every entry hold neither a newline nor the separator.
pub open spec fn plain_terms(entries: Seq<Field>, sep: char) -> bool {
    forall|i: int|
        0 <= i < entries.len() ==> {
            let e = #[trigger] entries[i];
            &&& !e.0.contains('\n') && !e.0.contains(sep)
            &&& !e.1.contains('\n') && !e.1.contains(sep)
        }
}

/// Reading back the lines of the first `n` entries gives those entries.
proof fn lemma_decode_entry_lines(entries: Seq<Field>, sep: char, n: int)
    requires
        sep != '\n',
        keys_distinct(entries),
        plain_terms(entries, sep),
        0 <= n <= entries.len(),
    ensures
        decode_lines(entries.take(n).map_values(|e: Field| entry_line(e, sep)), sep)
            == entries.take(n),
    decreases n,
{
    let lines = entries.take(n).map_values(|e: Field| entry_line(e, sep));
    if n == 0 {
        assert(entries.take(0) =~= Seq::<Field>::empty());
    } else {
        lemma_decode_entry_lines(entries, sep, n - 1);
        let prev_lines = entries.take(n - 1).map_values(|e: Field| entry_line(e, sep));
        assert(lines.drop_last() =~= prev_lines);
        let e = entries[n - 1];
        lemma_entry_line(e, sep);
        assert(lines.last() == entry_line(e, sep));
        let prev = entries.take(n - 1);
        assert(!(exists|i: int| 0 <= i < prev.len() && prev[i].0 == e.0)) by {
            assert forall|i: int| 0 <= i < prev.len() implies prev[i].0 != e.0 by {
                assert(prev[i] == entries[i]);
            }
        }
        assert(prev.push(e) =~= entries.take(n));
    }
}

/// Entries with distinct keys, whose terms hold neither a newline nor the separator, are
/// read back unchanged from their encoding.
pub proof fn lemma_entries_round_trip(entries: Seq<Field>, fmt: GlossaryEntriesFormat)
    requires
        keys_distinct(entries),
        plain_terms(entries, fmt.sep()),
    ensures
        decode_spec(encode_spec(entries, fmt.sep()), fmt.sep()) == entries,
{
    let sep = fmt.sep();
    let lines = entries.map_values(|e: Field| entry_line(e, sep));
    if entries.len() == 0 {
        assert(lines =~= Seq::<Seq<char>>::empty());
        let blank = Seq::<char>::empty();
        assert(split(blank, '\n') =~= seq![blank]);
        assert(split(blank, sep) =~= seq![blank]);
        assert(seq![blank].drop_last() =~= Seq::<Seq<char>>::empty());
        assert(join(lines, seq!['\n']) == blank);
        assert(decode_lines(Seq::<Seq<char>>::empty(), sep) == Seq::<Field>::empty());
        assert(decode_lines(seq![blank], sep) == Seq::<Field>::empty());
        assert(entries =~= Seq::<Field>::empty());
    } else {
        assert forall|i: int| 0 <= i < lines.len() implies !(#[trigger] lines[i]).contains('\n') by {
            lemma_entry_line(entries[i], sep);
        }
        lemma_split_join(lines, '\n');
        lemma_decode_entry_lines(entries, sep, entries.len() as int);
        assert(entries.take(entries.len() as int) =~= entries);
        assert(decode_lines(lines, sep) == entries);
    }
}

/// Reading lines with a skipped line among them gives what reading them without it does.
proof fn lemma_decode_skips(xs: Seq<Seq<char>>, line: Seq<char>, ys: Seq<Seq<char>>, sep: char)
    requires
        split(line, sep).len() != 2,
    ensures
        decode_lines(xs + seq![line] + ys, sep) == decode_lines(xs + ys, sep),
    decreases ys.len(),
{
    if ys.len() == 0 {
        assert((xs + seq![line] + ys).drop_last() =~= xs);
        assert(xs + ys =~= xs);
    } else {
        lemma_decode_skips(xs, line, ys.drop_last(), sep);
        assert((xs + seq![line] + ys).drop_last() =~= xs + seq![line] + ys.drop_last());
        assert((xs + ys).drop_last() =~= xs + ys.drop_last());
    }
}

/// A malformed line (one that does not split into exactly two fields, a blank line for
/// instance) is dropped, and every other line is read as if it were not there: between two
/// parts of a blob, and at its end.
pub proof fn lemma_malformed_line_dropped(
    before: Seq<char>,
    line: Seq<char>,
    after: Seq<char>,
    fmt: GlossaryEntriesFormat,
)
    requires
        !line.contains('\n'),
        split(line, fmt.sep()).len() != 2,
    ensures
        decode_spec(before + seq!['\n'] + line + seq!['\n'] + after, fmt.sep()) == decode_spec(
            before + seq!['\n'] + after,
            fmt.sep(),
        ),
        decode_spec(before + seq!['\n'] + line, fmt.sep()) == decode_spec(before, fmt.sep()),
{
    let sep = fmt.sep();
    let nl = '\n';
    lemma_split_without_sep(line, nl);
    lemma_split_concat(line, after, nl);
    assert(before + seq![nl] + line + seq![nl] + after =~= before + seq![nl] + (line + seq![nl]
        + after));
    lemma_split_concat(before, line + seq![nl] + after, nl);
    lemma_split_concat(before, after, nl);
    lemma_decode_skips(split(before, nl), line, split(after, nl), sep);
    assert(split(before, nl) + (seq![line] + split(after, nl)) =~= split(before, nl) + seq![line]
        + split(after, nl));
    lemma_split_concat(before, line, nl);
    lemma_decode_skips(split(before, nl), line, Seq::empty(), sep);
    assert(split(before, nl) + seq![line] + Seq::<Seq<char>>::empty() =~= split(before, nl)
        + seq![line]);
    assert(split(before, nl) + Seq::<Seq<char>>::empty() =~= split(before, nl));
}

} // verus!

use vstd::prelude::*;
use vstd::string::*;

use crate::lang::Language;
use crate::wire::{
    fields_upto, form_view, join, join_with, keys_distinct, lemma_fields_upto, opt_chars,
    push_field, push_opt_field, strings_view, Field,
};
use crate::Error;

verus! {

/// Sets whether the translation engine should first split the input into sentences
#[derive(Copy, Clone, Debug, PartialEq, Eq, Structural)]
pub enum SplitSentences {
    /// No splitting
    Off,
    /// By default, split on punctuation and newlines
    Default,
    /// Split on punctuation only
    NoNewlines,
}

impl SplitSentences {
    /// The token sent for this mode.
    pub open spec fn wire_value(self) -> Seq<char> {
        match self {
            SplitSentences::Off => "0"@,
            SplitSentences::Default => "1"@,
            SplitSentences::NoNewlines => "nonewlines"@,
        }
    }

    /// The token sent for this mode.
    pub fn as_str(&self) -> (r: &'static str)
        ensures
            r@ == self.wire_value(),
    {
        match self {
            SplitSentences::Off => "0",
            SplitSentences::Default => "1",
            SplitSentences::NoNewlines => "nonewlines",
        }
    }
}

/// Sets whether the translation engine should lean towards formal or informal language
#[derive(Copy, Clone, Debug, PartialEq, Eq, Structural)]
pub enum Formality {
    /// Default formality
    Default,
    /// More formal
    More,
    /// Less formal
    Less,
    /// More formal if supported by target language, else default
    PreferMore,
    /// Less formal if supported by target language, else default
    PreferLess,
}

impl Formality {
    /// The token sent for this formality.
    pub open spec fn wire_value(self) -> Seq<char> {
        match self {
            Formality::Default => "default"@,
            Formality::More => "more"@,
            Formality::Less => "less"@,
            Formality::PreferMore => "prefer_more"@,
            Formality::PreferLess => "prefer_less"@,
        }
    }

    /// The token sent for this formality, e.g. "prefer_less".
    pub fn as_str(&self) -> (r: &'static str)
        ensures
            r@ == self.wire_value(),
    {
        match self {
            Formality::Default => "default",
            Formality::More => "more",
            Formality::Less => "less",
            Formality::PreferMore => "prefer_more",
            Formality::PreferLess => "prefer_less",
        }
    }
}

/// Sets which kind of tags should be handled
#[derive(Copy, Clone, Debug, PartialEq, Eq, Structural)]
pub enum TagHandling {
    /// Enable XML tag handling
    Xml,
    /// Enable HTML tag handling
    Html,
}

impl TagHandling {
    /// The token sent for this kind of tags.
    pub open spec fn wire_value(self) -> Seq<char> {
        match self {
            TagHandling::Xml => "xml"@,
            TagHandling::Html => "html"@,
        }
    }

    /// The token sent for this kind of tags.
    pub fn as_str(&self) -> (r: &'static str)
        ensures
            r@ == self.wire_value(),
    {
        match self {
            TagHandling::Xml => "xml",
            TagHandling::Html => "html",
        }
    }
}

/// An individual translation
#[derive(Clone, Debug)]
pub struct Translation {
    /// Detected source language
    pub detected_source_language: String,
    /// Translated text
    pub text: String,
}

/// Translation result
#[derive(Clone, Debug)]
pub struct TranslateTextResult {
    /// List of translations
    pub translations: Vec<Translation>,
}

/// The code of an optional language.
pub open spec fn lang_value(l: Option<Language>) -> Option<Seq<char>> {
    match l {
        Some(l) => Some(l.code()),
        None => None,
    }
}

/// `token` when the flag was set to `when`; nothing otherwise.
pub open spec fn flag_value(flag: Option<bool>, when: bool, token: Seq<char>) -> Option<Seq<char>> {
    if flag == Some(when) {
        Some(token)
    } else {
        None
    }
}

/// The wire keys of text options, in the order in which they are sent.
pub open spec fn text_keys() -> Seq<Seq<char>> {
    seq![
        "target_lang"@,
        "source_lang"@,
        "split_sentences"@,
        "preserve_formatting"@,
        "formality"@,
        "glossary_id"@,
        "tag_handling"@,
        "non_splitting_tags"@,
        "outline_detection"@,
        "splitting_tags"@,
        "ignore_tags"@,
    ]
}

/// The message of the error for a missing or empty text.
pub open spec fn empty_text_message() -> Seq<char> {
    "text field must not be empty"@
}

/// Options for `Text` translation
#[derive(Clone, Debug)]
pub struct TextOptions {
    target_lang: Language,
    source_lang: Option<Language>,
    split_sentences: Option<SplitSentences>,
    preserve_formatting: Option<bool>,
    formality: Option<Formality>,
    glossary_id: Option<String>,
    tag_handling: Option<TagHandling>,
    non_splitting_tags: Option<Vec<String>>,
    outline_detection: Option<bool>,
    splitting_tags: Option<Vec<String>>,
    ignore_tags: Option<Vec<String>>,
    text: Option<Vec<String>>,
}

/// The tag list joined with commas, when it is sent.
fn tags_wire(tags: &Option<Vec<String>>) -> (r: Option<String>)
    ensures
        opt_chars(r) == tags_value(opt_strings(*tags)),
{
    match tags {
        Some(v) => if v.len() > 0 {
            Some(join_with(v, ","))
        } else {
            None
        },
        None => None,
    }
}

/// `token` when the flag was set to `when`.
fn flag_wire(flag: Option<bool>, when: bool, token: &str) -> (r: Option<String>)
    ensures
        opt_chars(r) == flag_value(flag, when, token@),
{
    match flag {
        Some(b) => if b == when {
            Some(String::from_str(token))
        } else {
            None
        },
        None => None,
    }
}

/// What a [`TextOptions`] holds: its target language and each optional field, if set.
pub struct TextOptionsView {
    pub target_lang: Language,
    pub source_lang: Option<Language>,
    pub split_sentences: Option<SplitSentences>,
    pub preserve_formatting: Option<bool>,
    pub formality: Option<Formality>,
    pub glossary_id: Option<Seq<char>>,
    pub tag_handling: Option<TagHandling>,
    pub non_splitting_tags: Option<Seq<Seq<char>>>,
    pub outline_detection: Option<bool>,
    pub splitting_tags: Option<Seq<Seq<char>>>,
    pub ignore_tags: Option<Seq<Seq<char>>>,
    pub text: Option<Seq<Seq<char>>>,
}

/// The characters of each string of an optional list.
pub open spec fn opt_strings(v: Option<Vec<String>>) -> Option<Seq<Seq<char>>> {
    match v {
        Some(v) => Some(strings_view(v@)),
        None => None,
    }
}

impl View for TextOptions {
    type V = TextOptionsView;

    closed spec fn view(&self) -> TextOptionsView {
        TextOptionsView {
            target_lang: self.target_lang,
            source_lang: self.source_lang,
            split_sentences: self.split_sentences,
            preserve_formatting: self.preserve_formatting,
            formality: self.formality,
            glossary_id: opt_chars(self.glossary_id),
            tag_handling: self.tag_handling,
            non_splitting_tags: opt_strings(self.non_splitting_tags),
            outline_detection: self.outline_detection,
            splitting_tags: opt_strings(self.splitting_tags),
            ignore_tags: opt_strings(self.ignore_tags),
            text: opt_strings(self.text),
        }
    }
}

/// A tag list joined with commas; an absent or empty list is not sent.
pub open spec fn tags_value(tags: Option<Seq<Seq<char>>>) -> Option<Seq<char>> {
    match tags {
        Some(v) => if v.len() > 0 {
            Some(join(v, ","@))
        } else {
            None
        },
        None => None,
    }
}

impl TextOptionsView {
    /// The value sent under each key of [`text_keys`], where that field is sent.
    pub open spec fn text_values(self) -> Seq<Option<Seq<char>>> {
        seq![
            Some(self.target_lang.code()),
            lang_value(self.source_lang),
            match self.split_sentences {
                Some(s) => Some(s.wire_value()),
                None => None,
            },
            flag_value(self.preserve_formatting, true, "1"@),
            match self.formality {
                Some(f) => Some(f.wire_value()),
                None => None,
            },
            self.glossary_id,
            match self.tag_handling {
                Some(t) => Some(t.wire_value()),
                None => None,
            },
            tags_value(self.non_splitting_tags),
            flag_value(self.outline_detection, false, "0"@),
            tags_value(self.splitting_tags),
            tags_value(self.ignore_tags),
        ]
    }

    /// The option fields as sent: one per option that carries a value, in key order.
    pub open spec fn wire_spec(self) -> Seq<Field> {
        fields_upto(text_keys(), self.text_values(), text_keys().len() as int)
    }

    /// Whether the field sent under `key` has been set (the target language always is).
    pub open spec fn is_set(self, key: Seq<char>) -> bool {
        ||| key == "target_lang"@
        ||| key == "source_lang"@ && self.source_lang is Some
        ||| key == "split_sentences"@ && self.split_sentences is Some
        ||| key == "preserve_formatting"@ && self.preserve_formatting is Some
        ||| key == "formality"@ && self.formality is Some
        ||| key == "glossary_id"@ && self.glossary_id is Some
        ||| key == "tag_handling"@ && self.tag_handling is Some
        ||| key == "non_splitting_tags"@ && self.non_splitting_tags is Some
        ||| key == "outline_detection"@ && self.outline_detection is Some
        ||| key == "splitting_tags"@ && self.splitting_tags is Some
        ||| key == "ignore_tags"@ && self.ignore_tags is Some
    }

    /// Whether there is text to translate: a non-empty list whose first text is not empty.
    pub open spec fn has_text(self) -> bool {
        self.text matches Some(t) && t.len() > 0 && t[0].len() > 0
    }

    /// The form of a translation request: the option fields, then one `text` field per text.
    pub open spec fn translate_spec(self) -> Seq<Field> {
        self.wire_spec() + self.text->0.map_values(|t: Seq<char>| ("text"@, t))
    }
}

impl TextOptions {
    /// Construct a new `TextOptions` for the target language, with no optional field set.
    pub fn new(target_lang: Language) -> (r: Self)
        ensures
            r@ == (TextOptionsView {
                target_lang,
                source_lang: None,
                split_sentences: None,
                preserve_formatting: None,
                formality: None,
                glossary_id: None,
                tag_handling: None,
                non_splitting_tags: None,
                outline_detection: None,
                splitting_tags: None,
                ignore_tags: None,
                text: None,
            }),
    {
        TextOptions {
            target_lang,
            source_lang: None,
            split_sentences: None,
            preserve_formatting: None,
            formality: None,
            glossary_id: None,
            tag_handling: None,
            non_splitting_tags: None,
            outline_detection: None,
            splitting_tags: None,
            ignore_tags: None,
            text: None,
        }
    }

    /// Sets the source language; without it the service detects it. A later call replaces the value.
    pub fn source_lang(self, source_lang: Language) -> (r: Self)
        ensures
            r@ == (TextOptionsView { source_lang: Some(source_lang), ..self@ }),
    {
        TextOptions { source_lang: Some(source_lang), ..self }
    }

    /// Sets how the input is split into sentences. A later call replaces the value.
    pub fn split_sentences(self, split_sentences: SplitSentences) -> (r: Self)
        ensures
            r@ == (TextOptionsView { split_sentences: Some(split_sentences), ..self@ }),
    {
        TextOptions { split_sentences: Some(split_sentences), ..self }
    }

    /// Sets whether formatting is preserved; sent only when true. A later call replaces the value.
    pub fn preserve_formatting(self, preserve_formatting: bool) -> (r: Self)
        ensures
            r@ == (TextOptionsView { preserve_formatting: Some(preserve_formatting), ..self@ }),
    {
        TextOptions { preserve_formatting: Some(preserve_formatting), ..self }
    }

    /// Sets the formality of the translation. A later call replaces the value.
    pub fn formality(self, formality: Formality) -> (r: Self)
        ensures
            r@ == (TextOptionsView { formality: Some(formality), ..self@ }),
    {
        TextOptions { formality: Some(formality), ..self }
    }

    /// Sets the glossary to apply. A later call replaces the value.
    pub fn glossary_id(self, glossary_id: String) -> (r: Self)
        ensures
            r@ == (TextOptionsView { glossary_id: Some(glossary_id@), ..self@ }),
    {
        TextOptions { glossary_id: Some(glossary_id), ..self }
    }

    /// Sets which kind of tags is handled. A later call replaces the value.
    pub fn tag_handling(self, tag_handling: TagHandling) -> (r: Self)
        ensures
            r@ == (TextOptionsView { tag_handling: Some(tag_handling), ..self@ }),
    {
        TextOptions { tag_handling: Some(tag_handling), ..self }
    }

    /// Sets the tags that never split sentences; an empty list is not sent. A later call replaces the value.
    pub fn non_splitting_tags(self, non_splitting_tags: Vec<String>) -> (r: Self)
        ensures
            r@ == (TextOptionsView { non_splitting_tags: Some(strings_view(non_splitting_tags@)), ..self@ }),
    {
        TextOptions { non_splitting_tags: Some(non_splitting_tags), ..self }
    }

    /// Sets whether the outline is detected automatically; sent only when false. A later call replaces the value.
    pub fn outline_detection(self, outline_detection: bool) -> (r: Self)
        ensures
            r@ == (TextOptionsView { outline_detection: Some(outline_detection), ..self@ }),
    {
        TextOptions { outline_detection: Some(outline_detection), ..self }
    }

    /// Sets the tags that always split sentences; an empty list is not sent. A later call replaces the value.
    pub fn splitting_tags(self, splitting_tags: Vec<String>) -> (r: Self)
        ensures
            r@ == (TextOptionsView { splitting_tags: Some(strings_view(splitting_tags@)), ..self@ }),
    {
        TextOptions { splitting_tags: Some(splitting_tags), ..self }
    }

    /// Sets the tags whose content is not translated; an empty list is not sent. A later call replaces the value.
    pub fn ignore_tags(self, ignore_tags: Vec<String>) -> (r: Self)
        ensures
            r@ == (TextOptionsView { ignore_tags: Some(strings_view(ignore_tags@)), ..self@ }),
    {
        TextOptions { ignore_tags: Some(ignore_tags), ..self }
    }

    /// Sets the texts to translate. A later call replaces the value.
    pub fn text(self, text: Vec<String>) -> (r: Self)
        ensures
            r@ == (TextOptionsView { text: Some(strings_view(text@)), ..self@ }),
    {
        TextOptions { text: Some(text), ..self }
    }

    /// The option fields in their wire form: the target language, then each optional field
    /// that was set, once. The formatting flag is sent only when true, outline detection
    /// only when false, tag lists joined with commas and only when not empty.
    pub fn to_wire(&self) -> (r: Vec<(String, String)>)
        ensures
            form_view(r@) == self@.wire_spec(),
    {
        let ghost keys = text_keys();
        let ghost values = self@.text_values();
        let mut form: Vec<(String, String)> = Vec::new();
        assert(form_view(form@) =~= fields_upto(keys, values, 0));
        push_field(&mut form, "target_lang", String::from_str(self.target_lang.as_str()));
        assert(form_view(form@) =~= fields_upto(keys, values, 1));
        let source = match self.source_lang {
            Some(l) => Some(String::from_str(l.as_str())),
            None => None,
        };
        push_opt_field(&mut form, "source_lang", source);
        assert(form_view(form@) == fields_upto(keys, values, 2));
        let split = match self.split_sentences {
            Some(s) => Some(String::from_str(s.as_str())),
            None => None,
        };
        push_opt_field(&mut form, "split_sentences", split);
        assert(form_view(form@) == fields_upto(keys, values, 3));
        push_opt_field(&mut form, "preserve_formatting", flag_wire(self.preserve_formatting, true, "1"));
        assert(form_view(form@) == fields_upto(keys, values, 4));
        let formality = match self.formality {
            Some(f) => Some(String::from_str(f.as_str())),
            None => None,
        };
        push_opt_field(&mut form, "formality", formality);
        assert(form_view(form@) == fields_upto(keys, values, 5));
        push_opt_field(&mut form, "glossary_id", self.glossary_id.clone());
        assert(form_view(form@) == fields_upto(keys, values, 6));
        let tags = match self.tag_handling {
            Some(t) => Some(String::from_str(t.as_str())),
            None => None,
        };
        push_opt_field(&mut form, "tag_handling", tags);
        assert(form_view(form@) == fields_upto(keys, values, 7));
        push_opt_field(&mut form, "non_splitting_tags", tags_wire(&self.non_splitting_tags));
        assert(form_view(form@) == fields_upto(keys, values, 8));
        push_opt_field(&mut form, "outline_detection", flag_wire(self.outline_detection, false, "0"));
        assert(form_view(form@) == fields_upto(keys, values, 9));
        push_opt_field(&mut form, "splitting_tags", tags_wire(&self.splitting_tags));
        assert(form_view(form@) == fields_upto(keys, values, 10));
        push_opt_field(&mut form, "ignore_tags", tags_wire(&self.ignore_tags));
        assert(form_view(form@) == fields_upto(keys, values, 11));
        form
    }

    /// The form of a translation request, checked before anything is sent: fails with a
    /// client error when there is no text, the list is empty or its first text is empty.
    pub fn translate_form(&self) -> (r: Result<Vec<(String, String)>, Error>)
        ensures
            self@.has_text() ==> (r matches Ok(f) && form_view(f@) == self@.translate_spec()),
            !self@.has_text() ==> (r matches Err(Error::Client(m)) && m@ == empty_text_message()),
    {
        let texts = match &self.text {
            Some(t) => t,
            None => {
                return Err(Error::Client(String::from_str("text field must not be empty")));
            },
        };
        if texts.len() == 0 || texts[0].unicode_len() == 0 {
            return Err(Error::Client(String::from_str("text field must not be empty")));
        }
        let ghost all = strings_view(texts@).map_values(|t: Seq<char>| ("text"@, t));
        let mut form = self.to_wire();
        let ghost base = form_view(form@);
        let mut i: usize = 0;
        while i < texts.len()
            invariant
                i <= texts@.len(),
                all == strings_view(texts@).map_values(|t: Seq<char>| ("text"@, t)),
                form_view(form@) == base + all.take(i as int),
            decreases texts@.len() - i,
        {
            push_field(&mut form, "text", texts[i].clone());
            assert(all.take(i + 1) =~= all.take(i as int).push(all[i as int]));
            i = i + 1;
        }
        assert(all.take(i as int) =~= all);
        Ok(form)
    }
}

/// Text options are sent with at most one field per key, and never with a field that was
/// not set.
pub proof fn lemma_text_wire_only_set_fields(o: TextOptionsView)
    ensures
        keys_distinct(o.wire_spec()),
        forall|j: int| 0 <= j < o.wire_spec().len() ==> o.is_set(#[trigger] o.wire_spec()[j].0),
{
    let keys = text_keys();
    let values = o.text_values();
    reveal_strlit("target_lang");
    reveal_strlit("source_lang");
    reveal_strlit("split_sentences");
    reveal_strlit("preserve_formatting");
    reveal_strlit("formality");
    reveal_strlit("glossary_id");
    reveal_strlit("tag_handling");
    reveal_strlit("non_splitting_tags");
    reveal_strlit("outline_detection");
    reveal_strlit("splitting_tags");
    reveal_strlit("ignore_tags");
    assert forall|i: int, j: int| 0 <= i < j < keys.len() implies keys[i].len() != keys[j].len()
        || keys[i][0] != keys[j][0] by {}
    assert(keys.no_duplicates());
    lemma_fields_upto(keys, values, keys.len() as int);
    let w = o.wire_spec();
    assert forall|j: int| 0 <= j < w.len() implies o.is_set(#[trigger] w[j].0) by {
        let i = choose|i: int|
            0 <= i < keys.len() && #[trigger] w[j] == (keys[i], values[i]->0) && values[i] is Some;
        assert(0 <= i < 11);
    }
}

} // verus!

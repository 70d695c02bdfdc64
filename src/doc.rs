use std::path::PathBuf;

use vstd::prelude::*;
use vstd::string::*;

use crate::lang::Language;
use crate::text::{lang_value, Formality};
use crate::wire::{
    fields_upto, form_view, keys_distinct, lemma_fields_upto, opt_chars, push_field,
    push_opt_field, Field,
};

verus! {

/// A path in the local file system, carried through unchanged.
#[verifier::external_type_specification]
#[verifier::external_body]
pub struct ExPathBuf(PathBuf);

/// Document handle
#[derive(Clone, Debug)]
pub struct Document {
    /// A unique ID assigned to the uploaded document
    pub document_id: String,
    /// Document encryption key
    pub document_key: String,
}

impl Document {
    /// The form that authenticates a status or download request for this document.
    pub fn key_form(&self) -> (r: Vec<(String, String)>)
        ensures
            form_view(r@) == seq![("document_key"@, self.document_key@)],
    {
        let mut form: Vec<(String, String)> = Vec::new();
        assert(form_view(form@) =~= Seq::<Field>::empty());
        push_field(&mut form, "document_key", self.document_key.clone());
        assert(form_view(form@) =~= seq![("document_key"@, self.document_key@)]);
        form
    }
}

/// Document state
#[derive(Clone, Copy, Debug, PartialEq, Eq, Structural)]
pub enum DocState {
    /// The translation job is waiting in line to be processed
    Queued,
    /// The translation is currently ongoing
    Translating,
    /// The translation is done and the document is ready for download
    Done,
    /// An irrecoverable error occurred while translating the document
    Error,
}

impl DocState {
    /// A state after which a job changes no more.
    pub open spec fn terminal(self) -> bool {
        self == DocState::Done || self == DocState::Error
    }

    /// Whether no further transition follows this state.
    pub fn is_terminal(&self) -> (r: bool)
        ensures
            r == self.terminal(),
    {
        match self {
            DocState::Done | DocState::Error => true,
            _ => false,
        }
    }
}

/// Document translation status
#[derive(Clone, Debug)]
pub struct DocumentStatus {
    /// A unique ID assigned to the uploaded document
    pub document_id: String,
    /// A short description of the current state of the document translation process
    pub status: DocState,
    /// Estimated number of seconds until the translation is done.
    /// This parameter is only included while status is "translating".
    pub seconds_remaining: Option<u64>,
    /// The number of characters billed to your account
    pub billed_characters: Option<u64>,
    /// Description of the error, if available.
    /// This parameter may be included if an error occurred during translation.
    pub error_message: Option<String>,
}

impl DocumentStatus {
    /// Whether the document is done translating and ready to be downloaded
    pub fn is_done(&self) -> (r: bool)
        ensures
            r == (self.status == DocState::Done),
    {
        match self.status {
            DocState::Done => true,
            _ => false,
        }
    }
}

/// The wire keys of document options, in the order in which they are sent.
pub open spec fn document_keys() -> Seq<Seq<char>> {
    seq!["target_lang"@, "source_lang"@, "filename"@, "formality"@, "glossary_id"@]
}

/// What a [`DocumentOptions`] holds: its target language and file, and each optional field,
/// if set.
pub struct DocumentOptionsView {
    pub target_lang: Language,
    pub file_path: PathBuf,
    pub source_lang: Option<Language>,
    pub filename: Option<Seq<char>>,
    pub formality: Option<Formality>,
    pub glossary_id: Option<Seq<char>>,
}

impl DocumentOptionsView {
    /// The value sent under each key of [`document_keys`], where that field is sent.
    pub open spec fn document_values(self) -> Seq<Option<Seq<char>>> {
        seq![
            Some(self.target_lang.code()),
            lang_value(self.source_lang),
            self.filename,
            match self.formality {
                Some(f) => Some(f.wire_value()),
                None => None,
            },
            self.glossary_id,
        ]
    }

    /// The text fields sent beside the file: one per option that was set, in key order.
    pub open spec fn wire_spec(self) -> Seq<Field> {
        fields_upto(document_keys(), self.document_values(), document_keys().len() as int)
    }

    /// Whether the field sent under `key` has been set (the target language always is).
    pub open spec fn is_set(self, key: Seq<char>) -> bool {
        ||| key == "target_lang"@
        ||| key == "source_lang"@ && self.source_lang is Some
        ||| key == "filename"@ && self.filename is Some
        ||| key == "formality"@ && self.formality is Some
        ||| key == "glossary_id"@ && self.glossary_id is Some
    }
}

/// Options for `Document` translation
#[derive(Debug)]
pub struct DocumentOptions {
    target_lang: Language,
    file_path: PathBuf,
    source_lang: Option<Language>,
    filename: Option<String>,
    formality: Option<Formality>,
    glossary_id: Option<String>,
}

impl View for DocumentOptions {
    type V = DocumentOptionsView;

    closed spec fn view(&self) -> DocumentOptionsView {
        DocumentOptionsView {
            target_lang: self.target_lang,
            file_path: self.file_path,
            source_lang: self.source_lang,
            filename: opt_chars(self.filename),
            formality: self.formality,
            glossary_id: opt_chars(self.glossary_id),
        }
    }
}

impl DocumentOptions {
    /// Construct a new `DocumentOptions` for the target language and the file to translate,
    /// with no optional field set.
    pub fn new(target_lang: Language, file_path: PathBuf) -> (r: Self)
        ensures
            r@ == (DocumentOptionsView {
                target_lang,
                file_path,
                source_lang: None,
                filename: None,
                formality: None,
                glossary_id: None,
            }),
    {
        DocumentOptions {
            target_lang,
            file_path,
            source_lang: None,
            filename: None,
            formality: None,
            glossary_id: None,
        }
    }

    /// Sets the source language; without it the service detects it. A later call replaces
    /// the value.
    pub fn source_lang(self, source_lang: Language) -> (r: Self)
        ensures
            r@ == (DocumentOptionsView { source_lang: Some(source_lang), ..self@ }),
    {
        DocumentOptions { source_lang: Some(source_lang), ..self }
    }

    /// Sets the file name the service reports for the document. A later call replaces the
    /// value.
    pub fn filename(self, filename: String) -> (r: Self)
        ensures
            r@ == (DocumentOptionsView { filename: Some(filename@), ..self@ }),
    {
        DocumentOptions { filename: Some(filename), ..self }
    }

    /// Sets the formality of the translation. A later call replaces the value.
    pub fn formality(self, formality: Formality) -> (r: Self)
        ensures
            r@ == (DocumentOptionsView { formality: Some(formality), ..self@ }),
    {
        DocumentOptions { formality: Some(formality), ..self }
    }

    /// Sets the glossary to apply. A later call replaces the value.
    pub fn glossary_id(self, glossary_id: String) -> (r: Self)
        ensures
            r@ == (DocumentOptionsView { glossary_id: Some(glossary_id@), ..self@ }),
    {
        DocumentOptions { glossary_id: Some(glossary_id), ..self }
    }

    /// The file to upload.
    pub fn file_path(&self) -> (r: &PathBuf)
        ensures
            *r == self@.file_path,
    {
        &self.file_path
    }

    /// The text fields of an upload, sent beside the file: the target language, then each
    /// optional field that was set, once.
    pub fn to_wire(&self) -> (r: Vec<(String, String)>)
        ensures
            form_view(r@) == self@.wire_spec(),
    {
        let ghost keys = document_keys();
        let ghost values = self@.document_values();
        let mut form: Vec<(String, String)> = Vec::new();
        assert(form_view(form@) =~= fields_upto(keys, values, 0));
        push_field(&mut form, "target_lang", String::from_str(self.target_lang.as_str()));
        assert(form_view(form@) =~= fields_upto(keys, values, 1));
        let source = match self.source_lang {
            Some(l) => Some(String::from_str(l.as_str())),
            None => None,
        };
        push_opt_field(&mut form, "source_lang", source);
        assert(form_view(form@) == fields_upto(keys, values, 2));
        push_opt_field(&mut form, "filename", self.filename.clone());
        assert(form_view(form@) == fields_upto(keys, values, 3));
        let formality = match self.formality {
            Some(f) => Some(String::from_str(f.as_str())),
            None => None,
        };
        push_opt_field(&mut form, "formality", formality);
        assert(form_view(form@) == fields_upto(keys, values, 4));
        push_opt_field(&mut form, "glossary_id", self.glossary_id.clone());
        assert(form_view(form@) == fields_upto(keys, values, 5));
        form
    }
}

/// Document options are sent with at most one field per key, and never with a field that
/// was not set.
pub proof fn lemma_document_wire_only_set_fields(o: DocumentOptionsView)
    ensures
        keys_distinct(o.wire_spec()),
        forall|j: int| 0 <= j < o.wire_spec().len() ==> o.is_set(#[trigger] o.wire_spec()[j].0),
{
    let keys = document_keys();
    let values = o.document_values();
    reveal_strlit("target_lang");
    reveal_strlit("source_lang");
    reveal_strlit("filename");
    reveal_strlit("formality");
    reveal_strlit("glossary_id");
    assert forall|i: int, j: int| 0 <= i < j < keys.len() implies keys[i].len() != keys[j].len()
        || keys[i][0] != keys[j][0] by {}
    assert(keys.no_duplicates());
    lemma_fields_upto(keys, values, keys.len() as int);
    let w = o.wire_spec();
    assert forall|j: int| 0 <= j < w.len() implies o.is_set(#[trigger] w[j].0) by {
        let i = choose|i: int|
            0 <= i < keys.len() && #[trigger] w[j] == (keys[i], values[i]->0) && values[i] is Some;
        assert(0 <= i < 5);
    }
}

/// What the caller does after a status poll.
#[derive(Clone, Copy, Debug, PartialEq, Eq, Structural)]
pub enum PollAction {
    /// Poll again after this many milliseconds
    Wait(u64),
    /// The translation is done: download the document
    Download,
    /// The translation failed for good
    Failed,
}

/// The action that a terminal state calls for.
pub open spec fn terminal_action(s: DocState) -> PollAction {
    if s == DocState::Done {
        PollAction::Download
    } else {
        PollAction::Failed
    }
}

/// What a [`DocumentPoll`] holds: the delay before the next poll, its cap, and the last
/// state observed.
pub struct DocumentPollView {
    pub delay_ms: u64,
    pub max_delay_ms: u64,
    pub last: Option<DocState>,
}

impl DocumentPollView {
    /// The delay is positive, so polling never spins, and within its cap.
    pub open spec fn wf(self) -> bool {
        0 < self.delay_ms <= self.max_delay_ms
    }

    /// A terminal state has been observed.
    pub open spec fn finished(self) -> bool {
        self.last matches Some(s) && s.terminal()
    }

    /// The delay after this one: doubled, up to the cap.
    pub open spec fn next_delay(self) -> u64 {
        if self.delay_ms as int * 2 > self.max_delay_ms {
            self.max_delay_ms
        } else {
            (self.delay_ms * 2) as u64
        }
    }

    /// The poller after observing `state`, and what the caller does next. Once a terminal
    /// state has been observed, later observations change nothing.
    pub open spec fn next(self, state: DocState) -> (DocumentPollView, PollAction) {
        if self.finished() {
            (self, terminal_action(self.last->0))
        } else if state.terminal() {
            (DocumentPollView { last: Some(state), ..self }, terminal_action(state))
        } else {
            (
                DocumentPollView { last: Some(state), delay_ms: self.next_delay(), ..self },
                PollAction::Wait(self.delay_ms),
            )
        }
    }

    /// The poller after observing each of `states` in turn.
    pub open spec fn run(self, states: Seq<DocState>) -> DocumentPollView
        decreases states.len(),
    {
        if states.len() == 0 {
            self
        } else {
            self.next(states[0]).0.run(states.drop_first())
        }
    }
}

/// The caller's side of a document job: the service is polled until it reports a terminal
/// state, with a delay between polls that doubles up to a cap.
#[derive(Clone, Copy, Debug)]
pub struct DocumentPoll {
    delay_ms: u64,
    max_delay_ms: u64,
    last: Option<DocState>,
}

impl View for DocumentPoll {
    type V = DocumentPollView;

    closed spec fn view(&self) -> DocumentPollView {
        DocumentPollView { delay_ms: self.delay_ms, max_delay_ms: self.max_delay_ms, last: self.last }
    }
}

impl DocumentPoll {
    #[verifier::type_invariant]
    spec fn inv(self) -> bool {
        self@.wf()
    }

    /// A poller that waits `initial_delay_ms` after the first non-terminal status, doubling
    /// the delay after each further one up to `max_delay_ms`.
    pub fn new(initial_delay_ms: u64, max_delay_ms: u64) -> (r: Self)
        requires
            0 < initial_delay_ms <= max_delay_ms,
        ensures
            r@ == (DocumentPollView {
                delay_ms: initial_delay_ms,
                max_delay_ms,
                last: None,
            }),
    {
        DocumentPoll { delay_ms: initial_delay_ms, max_delay_ms, last: None }
    }

    /// The last state observed, if any.
    pub fn last_state(&self) -> (r: Option<DocState>)
        ensures
            r == self@.last,
    {
        self.last
    }

    /// Records the state that a status poll reported and says what to do next: wait and
    /// poll again, download, or give up. A terminal state, once observed, is kept.
    pub fn observe(&mut self, state: DocState) -> (r: PollAction)
        ensures
            (final(self)@, r) == old(self)@.next(state),
            final(self)@.wf(),
            r matches PollAction::Wait(d) ==> d > 0,
    {
        proof {
            use_type_invariant(&*self);
        }
        if let Some(last) = self.last {
            if last.is_terminal() {
                return if last == DocState::Done {
                    PollAction::Download
                } else {
                    PollAction::Failed
                };
            }
        }
        match state {
            DocState::Done => {
                self.last = Some(state);
                PollAction::Download
            },
            DocState::Error => {
                self.last = Some(state);
                PollAction::Failed
            },
            _ => {
                let wait = self.delay_ms;
                self.last = Some(state);
                self.delay_ms = if self.delay_ms > self.max_delay_ms / 2 {
                    self.max_delay_ms
                } else {
                    self.delay_ms * 2
                };
                PollAction::Wait(wait)
            },
        }
    }
}

/// Once a terminal state has been observed, no later observation changes the poller: the
/// job stays done, or failed.
pub proof fn lemma_terminal_state_is_kept(p: DocumentPollView, states: Seq<DocState>)
    requires
        p.finished(),
    ensures
        p.run(states) == p,
        forall|s: DocState| #[trigger] p.next(s) == (p, terminal_action(p.last->0)),
    decreases states.len(),
{
    if states.len() > 0 {
        lemma_terminal_state_is_kept(p, states.drop_first());
    }
}

/// The poller calls for a download only once the service has reported the job done, and
/// for giving up only once it has reported an error.
pub proof fn lemma_download_only_when_done(p: DocumentPollView, state: DocState)
    ensures
        p.next(state).1 == PollAction::Download ==> p.next(state).0.last == Some(DocState::Done),
        p.next(state).1 == PollAction::Failed ==> p.next(state).0.last == Some(DocState::Error),
{
}

} // verus!

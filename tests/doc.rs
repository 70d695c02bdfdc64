use std::path::PathBuf;

use deeprl::{DocState, Document, DocumentOptions, DocumentPoll, DocumentStatus, Formality, Language, PollAction};

fn pairs(v: &[(&str, &str)]) -> Vec<(String, String)> {
    v.iter().map(|(k, v)| (k.to_string(), v.to_string())).collect()
}

fn status(state: DocState) -> DocumentStatus {
    DocumentStatus {
        document_id: "04DE5AD98A02647D83285A36021911C6".to_string(),
        status: state,
        seconds_remaining: None,
        billed_characters: None,
        error_message: None,
    }
}

#[test]
fn is_done_only_when_done() {
    assert!(status(DocState::Done).is_done());
    assert!(!status(DocState::Queued).is_done());
    assert!(!status(DocState::Translating).is_done());
    assert!(!status(DocState::Error).is_done());
}

#[test]
fn terminal_states() {
    assert!(DocState::Done.is_terminal());
    assert!(DocState::Error.is_terminal());
    assert!(!DocState::Queued.is_terminal());
    assert!(!DocState::Translating.is_terminal());
}

#[test]
fn document_options_wire() {
    let opt = DocumentOptions::new(Language::De, PathBuf::from("gm.txt"));
    assert_eq!(opt.to_wire(), pairs(&[("target_lang", "DE")]));
    assert_eq!(opt.file_path(), &PathBuf::from("gm.txt"));
    let opt = opt
        .source_lang(Language::En)
        .filename("greeting.txt".to_string())
        .formality(Formality::More)
        .glossary_id("g".to_string())
        .glossary_id("h".to_string());
    assert_eq!(
        opt.to_wire(),
        pairs(&[
            ("target_lang", "DE"),
            ("source_lang", "EN"),
            ("filename", "greeting.txt"),
            ("formality", "more"),
            ("glossary_id", "h"),
        ])
    );
}

#[test]
fn key_form_carries_the_key() {
    let doc = Document { document_id: "id".to_string(), document_key: "secret".to_string() };
    assert_eq!(doc.key_form(), pairs(&[("document_key", "secret")]));
}

#[test]
fn poll_backs_off_up_to_the_cap() {
    let mut poll = DocumentPoll::new(64, 300);
    assert_eq!(poll.observe(DocState::Queued), PollAction::Wait(64));
    assert_eq!(poll.observe(DocState::Queued), PollAction::Wait(128));
    assert_eq!(poll.observe(DocState::Translating), PollAction::Wait(256));
    assert_eq!(poll.observe(DocState::Translating), PollAction::Wait(300));
    assert_eq!(poll.observe(DocState::Translating), PollAction::Wait(300));
    assert_eq!(poll.last_state(), Some(DocState::Translating));
}

#[test]
fn poll_at_the_largest_delay() {
    let mut poll = DocumentPoll::new(u64::MAX - 1, u64::MAX);
    assert_eq!(poll.observe(DocState::Queued), PollAction::Wait(u64::MAX - 1));
    assert_eq!(poll.observe(DocState::Queued), PollAction::Wait(u64::MAX));
    assert_eq!(poll.observe(DocState::Queued), PollAction::Wait(u64::MAX));
}

#[test]
fn terminal_state_is_kept() {
    let mut poll = DocumentPoll::new(10, 100);
    assert_eq!(poll.observe(DocState::Done), PollAction::Download);
    assert_eq!(poll.observe(DocState::Queued), PollAction::Download);
    assert_eq!(poll.observe(DocState::Error), PollAction::Download);
    assert_eq!(poll.last_state(), Some(DocState::Done));

    let mut poll = DocumentPoll::new(10, 100);
    assert_eq!(poll.observe(DocState::Translating), PollAction::Wait(10));
    assert_eq!(poll.observe(DocState::Error), PollAction::Failed);
    assert_eq!(poll.observe(DocState::Done), PollAction::Failed);
    assert_eq!(poll.last_state(), Some(DocState::Error));
}

#[test]
fn document_job_scenario() {
    let opt = DocumentOptions::new(Language::De, PathBuf::from("gm.txt"));
    assert_eq!(opt.to_wire(), pairs(&[("target_lang", "DE")]));
    let mut poll = DocumentPoll::new(64, 1000);
    assert_eq!(poll.last_state(), None);
    assert_eq!(poll.observe(status(DocState::Queued).status), PollAction::Wait(64));
    assert_eq!(poll.observe(status(DocState::Translating).status), PollAction::Wait(128));
    let done = status(DocState::Done);
    assert!(done.is_done());
    assert_eq!(poll.observe(done.status), PollAction::Download);
}

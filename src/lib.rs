//! Client library for the DeepL machine-translation service: typed request options and
//! their wire form, classification of responses, the document-translation job lifecycle
//! and the glossary entry format. The HTTP transport itself lives outside the library.
use std::io::Error as IoError;

use reqwest::Error as ReqwestError;
use vstd::prelude::*;

pub mod chars;
pub mod config;
pub mod doc;
pub mod glos;
pub mod lang;
pub mod response;
pub mod text;
pub mod wire;

pub use config::{ClientConfig, DEFAULT_USER_AGENT};
pub use doc::{DocState, Document, DocumentOptions, DocumentPoll, DocumentStatus, PollAction};
pub use glos::{
    decode_entries, encode_entries, glossary_new_form, GlossariesResult, Glossary,
    GlossaryEntriesFormat, GlossaryLanguagePair, GlossaryLanguagePairsResult,
};
pub use lang::{Language, LanguageInfo, LanguageType, ParseLanguageError};
pub use response::{classify, classify_message};
pub use text::{Formality, SplitSentences, TagHandling, TextOptions, TranslateTextResult, Translation};

verus! {

/// The transport's error type, carried through unchanged.
#[verifier::external_type_specification]
#[verifier::external_body]
pub struct ExReqwestError(ReqwestError);

/// An I/O error, carried through unchanged.
#[verifier::external_type_specification]
#[verifier::external_body]
pub struct ExIoError(IoError);

/// Crate error variants
#[derive(Debug)]
pub enum Error {
    /// Local validation failure, detected before any network call
    Client(String),
    /// Error reported by the server: status code and message
    Server(u16, String),
    /// A success response whose body does not have the expected shape
    Deserialize,
    /// Transport failure
    Reqwest(ReqwestError),
    /// Local I/O failure
    Io(IoError),
    /// Invalid language
    InvalidLanguage,
    /// A failure response whose body is not a structured error
    InvalidResponse,
}

/// API usage & account limits. Currently assumes an individual developer account.
#[derive(Clone, Copy, Debug, PartialEq, Eq, Structural)]
pub struct Usage {
    /// Characters translated so far in the current billing period
    pub character_count: u64,
    /// Current maximum number of characters that can be translated per billing period
    pub character_limit: u64,
}

} // verus!

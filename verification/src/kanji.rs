//! The kanji record variant.

use vstd::prelude::*;
use crate::query::ApiSubjectMessage;

verus! {

/// A kanji record of the remote content API.
#[derive(Clone, Debug)]
pub struct ApiKanjiMessage {
    pub subject: ApiSubjectMessage,
    /// The list of vocabulary subjects that use this kanji.
    pub amalgamation_subject_ids: Vec<i32>,
    /// The list of radicals that this kanji is composed of.
    pub component_subject_ids: Vec<i32>,
    pub meaning_hint: Option<String>,
    pub reading_hint: Option<String>,
    pub reading_mnemonic: String,
    pub readings: Vec<ApiKanjiReadingMessage>,
    pub visually_similar_subject_ids: Vec<i32>,
}

/// One reading entry of a kanji record.
#[derive(Clone, Debug)]
pub struct ApiKanjiReadingMessage {
    pub reading: String,
    pub primary: bool,
    pub accepted_answer: bool,
    pub kind: String,
}

} // verus!

//! The vocabulary record variant.

use vstd::prelude::*;
use crate::query::ApiSubjectMessage;

verus! {

/// A vocabulary record of the remote content API.
#[derive(Clone, Debug)]
pub struct ApiVocabularyMessage {
    pub subject: ApiSubjectMessage,
    pub component_subject_ids: Vec<i32>,
    pub context_sentences: Vec<ApiVocabularyContextSentenceMessage>,
    pub parts_of_speech: Vec<String>,
    pub pronunciation_audios: Vec<ApiVocabularyPronunciationAudioMessage>,
    pub readings: Vec<ApiVocabularyReadingMessage>,
    pub reading_mnemonic: String,
}

/// One bilingual context sentence of a vocabulary record.
#[derive(Clone, Debug)]
pub struct ApiVocabularyContextSentenceMessage {
    pub en: String,
    pub ja: String,
}

/// One pronunciation audio entry of a vocabulary record.
#[derive(Clone, Debug)]
pub struct ApiVocabularyPronunciationAudioMessage {
    pub url: String,
    pub content_type: String,
    pub metadata: ApiVocabularyPronunciationMetadataMessage,
}

/// Metadata of one pronunciation audio entry.
#[derive(Clone, Debug)]
pub struct ApiVocabularyPronunciationMetadataMessage {
    pub gender: String,
    pub source_id: i32,
    pub pronunciation: String,
    pub voice_actor_id: i32,
    pub voice_actor_name: String,
    pub voice_description: String,
}

/// One reading entry of a vocabulary record.
#[derive(Clone, Debug)]
pub struct ApiVocabularyReadingMessage {
    pub accepted_answer: bool,
    pub primary: bool,
    pub reading: String,
}

} // verus!

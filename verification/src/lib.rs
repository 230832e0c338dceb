//! Synchronizes structured learning-material records from a paginated remote
//! content API into a local flashcard application.
//!
//! The crate holds the decision logic of the pipeline: the paging state
//! machine of the query phase, the snapshot cache contract, the record-to-note
//! transformation rules, and the idempotent install retry machine. All I/O is
//! left to the surrounding binary, which feeds plain values in and carries
//! plain values out.

use vstd::prelude::*;

pub mod anki;
pub mod anki_connect;
pub mod install;
pub mod io;
pub mod kanji;
pub mod query;
pub mod text;
pub mod vocabulary;

verus! {

/// Command-line surface of the tool, mirrored by the binary's argument parser.
pub struct Options {
    pub command: Command,
    pub cache_dir: String,
    pub api_token: Option<String>,
    pub anki_endpoint: String,
}

/// The operations the tool can be asked to perform.
pub enum Command {
    QueryKanji,
    QueryVocabulary,
    CreateKanjiDeck,
    CreateVocabularyDeck,
    UpdateModelStyling,
    UpdateModelTemplates,
    InstallKanji,
    InstallVocabulary,
}

/// Deck and model identifiers for both record variants.
pub struct Configuration {
    pub kanji: ConfigurationDeckOptions,
    pub vocabulary: ConfigurationDeckOptions,
}

/// Deck and model identifiers for one record variant, with the sources of
/// its card template.
pub struct ConfigurationDeckOptions {
    pub deck_name: String,
    pub model_name: String,
    pub model_template_name: String,
    pub model_template_front: String,
    pub model_template_back: String,
}

} // verus!

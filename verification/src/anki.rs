//! The record-to-note transformation: one remote domain record becomes one
//! note payload, by a total and deterministic field mapping. A record that
//! breaks the variant's invariant (a present `characters` field, exactly one
//! entry flagged primary) is rejected loudly instead of producing a
//! malformed payload.

use vstd::prelude::*;
use crate::anki_connect::{AddNoteInput, AddNoteNoteMessage, CreateModelCardTemplateMessage, CreateModelInput, NoteField};
use crate::kanji::{ApiKanjiMessage, ApiKanjiReadingMessage};
use crate::query::ApiMeaningMessage;
use crate::text::{join_comma, join_sep};
use crate::vocabulary::{ApiVocabularyContextSentenceMessage, ApiVocabularyMessage, ApiVocabularyReadingMessage};

verus! {

/// A record broke the invariant its variant promises; transforming it would
/// corrupt the resulting note, so it is refused instead.
#[derive(Clone, Copy, Debug, PartialEq, Eq, Structural)]
pub enum TransformError {
    /// The record has no `characters` field.
    MissingCharacters,
    /// The record does not have exactly one meaning flagged primary.
    MeaningsWithoutUniquePrimary,
    /// The record does not have exactly one reading flagged primary.
    ReadingsWithoutUniquePrimary,
}

/// Position `i` holds the single meaning flagged primary.
pub open spec fn primary_meaning_at(s: Seq<ApiMeaningMessage>, i: int) -> bool {
    &&& 0 <= i < s.len()
    &&& s[i].primary
    &&& forall|j: int| 0 <= j < s.len() && j != i ==> !(#[trigger] s[j]).primary
}

/// Exactly one meaning is flagged primary.
pub open spec fn has_unique_primary_meaning(s: Seq<ApiMeaningMessage>) -> bool {
    exists|i: int| primary_meaning_at(s, i)
}

/// The text of the single meaning flagged primary.
pub open spec fn primary_meaning(s: Seq<ApiMeaningMessage>) -> Seq<char> {
    s[choose|i: int| primary_meaning_at(s, i)].meaning@
}

/// Position `i` holds the single reading flagged primary.
pub open spec fn primary_reading_at(s: Seq<ApiVocabularyReadingMessage>, i: int) -> bool {
    &&& 0 <= i < s.len()
    &&& s[i].primary
    &&& forall|j: int| 0 <= j < s.len() && j != i ==> !(#[trigger] s[j]).primary
}

/// Exactly one reading is flagged primary.
pub open spec fn has_unique_primary_reading(s: Seq<ApiVocabularyReadingMessage>) -> bool {
    exists|i: int| primary_reading_at(s, i)
}

/// The text of the single reading flagged primary.
pub open spec fn primary_reading(s: Seq<ApiVocabularyReadingMessage>) -> Seq<char> {
    s[choose|i: int| primary_reading_at(s, i)].reading@
}

/// The texts of all meanings not flagged primary, in original order.
pub open spec fn secondary_meaning_texts(s: Seq<ApiMeaningMessage>) -> Seq<Seq<char>>
    decreases s.len(),
{
    if s.len() == 0 {
        Seq::empty()
    } else {
        let rest = secondary_meaning_texts(s.drop_last());
        if s.last().primary {
            rest
        } else {
            rest.push(s.last().meaning@)
        }
    }
}

/// The texts of all readings of a kanji record, in original order.
pub open spec fn kanji_reading_texts(s: Seq<ApiKanjiReadingMessage>) -> Seq<Seq<char>>
    decreases s.len(),
{
    if s.len() == 0 {
        Seq::empty()
    } else {
        kanji_reading_texts(s.drop_last()).push(s.last().reading@)
    }
}

/// The texts of all readings of a vocabulary record not flagged primary, in
/// original order.
pub open spec fn secondary_reading_texts(s: Seq<ApiVocabularyReadingMessage>) -> Seq<Seq<char>>
    decreases s.len(),
{
    if s.len() == 0 {
        Seq::empty()
    } else {
        let rest = secondary_reading_texts(s.drop_last());
        if s.last().primary {
            rest
        } else {
            rest.push(s.last().reading@)
        }
    }
}

/// A kanji record the transformation accepts.
pub open spec fn kanji_well_formed(k: ApiKanjiMessage) -> bool {
    &&& k.subject.characters is Some
    &&& has_unique_primary_meaning(k.subject.meanings@)
}

/// A vocabulary record the transformation accepts.
pub open spec fn vocabulary_well_formed(v: ApiVocabularyMessage) -> bool {
    &&& v.subject.characters is Some
    &&& has_unique_primary_meaning(v.subject.meanings@)
    &&& has_unique_primary_reading(v.readings@)
}

/// The name/value pairs of a note's fields, in order.
pub open spec fn note_fields_view(fields: Seq<NoteField>) -> Seq<(Seq<char>, Seq<char>)> {
    fields.map_values(|f: NoteField| (f.name@, f.value@))
}

/// The field mapping of a kanji note, in emission order.
pub open spec fn kanji_note_fields(k: ApiKanjiMessage) -> Seq<(Seq<char>, Seq<char>)> {
    seq![
        ("kanji"@, (k.subject.characters->0)@),
        ("primary-meaning"@, primary_meaning(k.subject.meanings@)),
        ("primary-meaning-mnemonic"@, k.subject.meaning_mnemonic@),
        ("primary-reading-mnemonic"@, k.reading_mnemonic@),
        ("reference-url"@, k.subject.document_url@),
        ("secondary-meanings"@, join_sep(secondary_meaning_texts(k.subject.meanings@), ", "@)),
        ("readings"@, join_sep(kanji_reading_texts(k.readings@), ", "@)),
    ]
}

/// The context-sentence fields of a vocabulary note: at most the first three
/// sentences, zero-indexed, Japanese before English for each index.
pub open spec fn context_sentence_fields(cs: Seq<ApiVocabularyContextSentenceMessage>) -> Seq<
    (Seq<char>, Seq<char>),
> {
    let first = if cs.len() >= 1 {
        seq![("context-sentence-0-ja"@, cs[0].ja@), ("context-sentence-0-en"@, cs[0].en@)]
    } else {
        Seq::empty()
    };
    let second = if cs.len() >= 2 {
        seq![("context-sentence-1-ja"@, cs[1].ja@), ("context-sentence-1-en"@, cs[1].en@)]
    } else {
        Seq::empty()
    };
    let third = if cs.len() >= 3 {
        seq![("context-sentence-2-ja"@, cs[2].ja@), ("context-sentence-2-en"@, cs[2].en@)]
    } else {
        Seq::empty()
    };
    first + second + third
}

/// The field mapping of a vocabulary note, in emission order.
pub open spec fn vocabulary_note_fields(v: ApiVocabularyMessage) -> Seq<(Seq<char>, Seq<char>)> {
    seq![
        ("vocabulary"@, (v.subject.characters->0)@),
        ("primary-meaning"@, primary_meaning(v.subject.meanings@)),
        ("primary-meaning-mnemonic"@, v.subject.meaning_mnemonic@),
        ("primary-reading-mnemonic"@, v.reading_mnemonic@),
        ("reference-url"@, v.subject.document_url@),
        ("secondary-meanings"@, join_sep(secondary_meaning_texts(v.subject.meanings@), ", "@)),
        ("primary-reading"@, primary_reading(v.readings@)),
        ("readings"@, join_sep(secondary_reading_texts(v.readings@), ", "@)),
    ] + context_sentence_fields(v.context_sentences@)
}

/// The note-type field list of the kanji model, in declaration order.
pub open spec fn kanji_model_field_names() -> Seq<Seq<char>> {
    seq![
        "kanji"@,
        "primary-meaning"@,
        "primary-meaning-mnemonic"@,
        "secondary-meanings"@,
        "primary-reading-mnemonic"@,
        "readings"@,
        "reference-url"@,
    ]
}

/// The note-type field list of the vocabulary model, in declaration order.
pub open spec fn vocabulary_model_field_names() -> Seq<Seq<char>> {
    seq![
        "vocabulary"@,
        "primary-meaning"@,
        "primary-meaning-mnemonic"@,
        "secondary-meanings"@,
        "primary-reading"@,
        "primary-reading-mnemonic"@,
        "secondary-readings"@,
        "context-sentence-1-en"@,
        "context-sentence-1-ja"@,
        "context-sentence-2-en"@,
        "context-sentence-2-ja"@,
        "context-sentence-3-en"@,
        "context-sentence-3-ja"@,
        "reference-url"@,
    ]
}

/// Builds the model-creation request of the kanji note type: the fixed field
/// list, no cloze, and one card template from the given sources.
pub fn kanji_model_input(
    model_name: &str,
    model_template_name: &str,
    css: String,
    front: String,
    back: String,
) -> (r: CreateModelInput)
    ensures
        r.model_name@ == model_name@,
        r.css == css,
        !r.is_cloze,
        r.in_order_fields@.map_values(|s: String| s@) == kanji_model_field_names(),
        r.card_templates@.len() == 1,
        r.card_templates@[0].name@ == model_template_name@,
        r.card_templates@[0].front == front,
        r.card_templates@[0].back == back,
{
    let mut in_order_fields: Vec<String> = Vec::new();
    in_order_fields.push("kanji".to_owned());
    in_order_fields.push("primary-meaning".to_owned());
    in_order_fields.push("primary-meaning-mnemonic".to_owned());
    in_order_fields.push("secondary-meanings".to_owned());
    in_order_fields.push("primary-reading-mnemonic".to_owned());
    in_order_fields.push("readings".to_owned());
    in_order_fields.push("reference-url".to_owned());
    let mut card_templates: Vec<CreateModelCardTemplateMessage> = Vec::new();
    card_templates.push(
        CreateModelCardTemplateMessage { name: model_template_name.to_owned(), front, back },
    );
    proof {
        assert(in_order_fields@.map_values(|s: String| s@) =~= kanji_model_field_names());
    }
    CreateModelInput {
        model_name: model_name.to_owned(),
        in_order_fields,
        css,
        is_cloze: false,
        card_templates,
    }
}

/// Builds the model-creation request of the vocabulary note type: the fixed
/// field list, no cloze, and one card template from the given sources.
pub fn vocabulary_model_input(
    model_name: &str,
    model_template_name: &str,
    css: String,
    front: String,
    back: String,
) -> (r: CreateModelInput)
    ensures
        r.model_name@ == model_name@,
        r.css == css,
        !r.is_cloze,
        r.in_order_fields@.map_values(|s: String| s@) == vocabulary_model_field_names(),
        r.card_templates@.len() == 1,
        r.card_templates@[0].name@ == model_template_name@,
        r.card_templates@[0].front == front,
        r.card_templates@[0].back == back,
{
    let mut in_order_fields: Vec<String> = Vec::new();
    in_order_fields.push("vocabulary".to_owned());
    in_order_fields.push("primary-meaning".to_owned());
    in_order_fields.push("primary-meaning-mnemonic".to_owned());
    in_order_fields.push("secondary-meanings".to_owned());
    in_order_fields.push("primary-reading".to_owned());
    in_order_fields.push("primary-reading-mnemonic".to_owned());
    in_order_fields.push("secondary-readings".to_owned());
    in_order_fields.push("context-sentence-1-en".to_owned());
    in_order_fields.push("context-sentence-1-ja".to_owned());
    in_order_fields.push("context-sentence-2-en".to_owned());
    in_order_fields.push("context-sentence-2-ja".to_owned());
    in_order_fields.push("context-sentence-3-en".to_owned());
    in_order_fields.push("context-sentence-3-ja".to_owned());
    in_order_fields.push("reference-url".to_owned());
    let mut card_templates: Vec<CreateModelCardTemplateMessage> = Vec::new();
    card_templates.push(
        CreateModelCardTemplateMessage { name: model_template_name.to_owned(), front, back },
    );
    proof {
        assert(in_order_fields@.map_values(|s: String| s@) =~= vocabulary_model_field_names());
    }
    CreateModelInput {
        model_name: model_name.to_owned(),
        in_order_fields,
        css,
        is_cloze: false,
        card_templates,
    }
}

/// Two positions that each hold the single primary meaning are the same
/// position, so the chosen one is any witnessed one.
proof fn lemma_primary_meaning_is(s: Seq<ApiMeaningMessage>, i: int)
    requires
        primary_meaning_at(s, i),
    ensures
        primary_meaning(s) == s[i].meaning@,
{
    let c = choose|c: int| primary_meaning_at(s, c);
    assert(primary_meaning_at(s, c));
    if c != i {
        assert(!s[i].primary);
    }
}

/// Two positions that each hold the single primary reading are the same
/// position, so the chosen one is any witnessed one.
proof fn lemma_primary_reading_is(s: Seq<ApiVocabularyReadingMessage>, i: int)
    requires
        primary_reading_at(s, i),
    ensures
        primary_reading(s) == s[i].reading@,
{
    let c = choose|c: int| primary_reading_at(s, c);
    assert(primary_reading_at(s, c));
    if c != i {
        assert(!s[i].primary);
    }
}

/// Finds the position of the single meaning flagged primary, or reports that
/// no such single position exists.
fn find_unique_primary_meaning(meanings: &Vec<ApiMeaningMessage>) -> (r: Option<usize>)
    ensures
        r matches Some(i) ==> primary_meaning_at(meanings@, i as int),
        r is None ==> !has_unique_primary_meaning(meanings@),
{
    let mut i: usize = 0;
    let mut found: Option<usize> = None;
    while i < meanings.len()
        invariant
            i <= meanings.len(),
            found matches Some(f) ==> f < i && meanings@[f as int].primary && (forall|j: int|
                0 <= j < i && j != f ==> !(#[trigger] meanings@[j]).primary),
            found is None ==> forall|j: int| 0 <= j < i ==> !(#[trigger] meanings@[j]).primary,
        decreases meanings.len() - i,
    {
        if meanings[i].primary {
            match found {
                None => {
                    found = Some(i);
                },
                Some(f) => {
                    proof {
                        assert forall|c: int| !primary_meaning_at(meanings@, c) by {
                            if primary_meaning_at(meanings@, c) {
                                if c != f {
                                    assert(!meanings@[f as int].primary);
                                } else {
                                    assert(!meanings@[i as int].primary);
                                }
                            }
                        }
                    }
                    return None;
                },
            }
        }
        i = i + 1;
    }
    match found {
        Some(f) => Some(f),
        None => {
            proof {
                assert forall|c: int| !primary_meaning_at(meanings@, c) by {
                    if primary_meaning_at(meanings@, c) {
                        assert(!meanings@[c].primary);
                    }
                }
            }
            None
        },
    }
}

/// Finds the position of the single reading flagged primary, or reports that
/// no such single position exists.
fn find_unique_primary_reading(readings: &Vec<ApiVocabularyReadingMessage>) -> (r: Option<usize>)
    ensures
        r matches Some(i) ==> primary_reading_at(readings@, i as int),
        r is None ==> !has_unique_primary_reading(readings@),
{
    let mut i: usize = 0;
    let mut found: Option<usize> = None;
    while i < readings.len()
        invariant
            i <= readings.len(),
            found matches Some(f) ==> f < i && readings@[f as int].primary && (forall|j: int|
                0 <= j < i && j != f ==> !(#[trigger] readings@[j]).primary),
            found is None ==> forall|j: int| 0 <= j < i ==> !(#[trigger] readings@[j]).primary,
        decreases readings.len() - i,
    {
        if readings[i].primary {
            match found {
                None => {
                    found = Some(i);
                },
                Some(f) => {
                    proof {
                        assert forall|c: int| !primary_reading_at(readings@, c) by {
                            if primary_reading_at(readings@, c) {
                                if c != f {
                                    assert(!readings@[f as int].primary);
                                } else {
                                    assert(!readings@[i as int].primary);
                                }
                            }
                        }
                    }
                    return None;
                },
            }
        }
        i = i + 1;
    }
    match found {
        Some(f) => Some(f),
        None => {
            proof {
                assert forall|c: int| !primary_reading_at(readings@, c) by {
                    if primary_reading_at(readings@, c) {
                        assert(!readings@[c].primary);
                    }
                }
            }
            None
        },
    }
}

/// Collects the texts of the meanings not flagged primary, in order.
fn collect_secondary_meanings(meanings: &Vec<ApiMeaningMessage>) -> (r: Vec<String>)
    ensures
        r@.map_values(|s: String| s@) == secondary_meaning_texts(meanings@),
{
    let mut out: Vec<String> = Vec::new();
    let mut i: usize = 0;
    while i < meanings.len()
        invariant
            i <= meanings.len(),
            out@.map_values(|s: String| s@) == secondary_meaning_texts(
                meanings@.subrange(0, i as int),
            ),
        decreases meanings.len() - i,
    {
        proof {
            let p = meanings@.subrange(0, i + 1 as int);
            assert(p.drop_last() =~= meanings@.subrange(0, i as int));
            assert(p.last() == meanings@[i as int]);
        }
        if !meanings[i].primary {
            out.push(meanings[i].meaning.clone());
        }
        proof {
            assert(out@.map_values(|s: String| s@) =~= secondary_meaning_texts(
                meanings@.subrange(0, i + 1 as int),
            ));
        }
        i = i + 1;
    }
    proof {
        assert(meanings@.subrange(0, meanings@.len() as int) =~= meanings@);
    }
    out
}

/// Collects the texts of all readings of a kanji record, in order.
fn collect_kanji_readings(readings: &Vec<ApiKanjiReadingMessage>) -> (r: Vec<String>)
    ensures
        r@.map_values(|s: String| s@) == kanji_reading_texts(readings@),
{
    let mut out: Vec<String> = Vec::new();
    let mut i: usize = 0;
    while i < readings.len()
        invariant
            i <= readings.len(),
            out@.map_values(|s: String| s@) == kanji_reading_texts(
                readings@.subrange(0, i as int),
            ),
        decreases readings.len() - i,
    {
        proof {
            let p = readings@.subrange(0, i + 1 as int);
            assert(p.drop_last() =~= readings@.subrange(0, i as int));
            assert(p.last() == readings@[i as int]);
        }
        out.push(readings[i].reading.clone());
        proof {
            assert(out@.map_values(|s: String| s@) =~= kanji_reading_texts(
                readings@.subrange(0, i + 1 as int),
            ));
        }
        i = i + 1;
    }
    proof {
        assert(readings@.subrange(0, readings@.len() as int) =~= readings@);
    }
    out
}

/// Collects the texts of the readings of a vocabulary record not flagged
/// primary, in order.
fn collect_secondary_readings(readings: &Vec<ApiVocabularyReadingMessage>) -> (r: Vec<String>)
    ensures
        r@.map_values(|s: String| s@) == secondary_reading_texts(readings@),
{
    let mut out: Vec<String> = Vec::new();
    let mut i: usize = 0;
    while i < readings.len()
        invariant
            i <= readings.len(),
            out@.map_values(|s: String| s@) == secondary_reading_texts(
                readings@.subrange(0, i as int),
            ),
        decreases readings.len() - i,
    {
        proof {
            let p = readings@.subrange(0, i + 1 as int);
            assert(p.drop_last() =~= readings@.subrange(0, i as int));
            assert(p.last() == readings@[i as int]);
        }
        if !readings[i].primary {
            out.push(readings[i].reading.clone());
        }
        proof {
            assert(out@.map_values(|s: String| s@) =~= secondary_reading_texts(
                readings@.subrange(0, i + 1 as int),
            ));
        }
        i = i + 1;
    }
    proof {
        assert(readings@.subrange(0, readings@.len() as int) =~= readings@);
    }
    out
}

impl ApiKanjiMessage {
    /// Maps this kanji record to its note payload. A record that breaks the
    /// kanji invariant is refused with the reason; a well-formed record maps
    /// to exactly the documented fields, in order, with the single fixed
    /// category tag.
    pub fn into_anki_input(self, model_name: &str, deck_name: &str) -> (r: Result<
        AddNoteInput,
        TransformError,
    >)
        ensures
            self.subject.characters is None ==> r == Err::<AddNoteInput, TransformError>(
                TransformError::MissingCharacters,
            ),
            self.subject.characters is Some && !has_unique_primary_meaning(self.subject.meanings@)
                ==> r == Err::<AddNoteInput, TransformError>(
                TransformError::MeaningsWithoutUniquePrimary,
            ),
            kanji_well_formed(self) ==> (r matches Ok(input) && input.note.deck_name@ == deck_name@
                && input.note.model_name@ == model_name@ && input.note.tags@.len() == 1
                && input.note.tags@[0]@ == "WaniKani Kanji"@ && note_fields_view(
                input.note.fields@,
            ) == kanji_note_fields(self)),
    {
        let characters = match &self.subject.characters {
            Some(c) => c.clone(),
            None => {
                return Err(TransformError::MissingCharacters);
            },
        };
        let primary_idx = match find_unique_primary_meaning(&self.subject.meanings) {
            Some(i) => i,
            None => {
                return Err(TransformError::MeaningsWithoutUniquePrimary);
            },
        };
        proof {
            lemma_primary_meaning_is(self.subject.meanings@, primary_idx as int);
        }
        let secondary = join_comma(&collect_secondary_meanings(&self.subject.meanings));
        let readings = join_comma(&collect_kanji_readings(&self.readings));
        let mut fields: Vec<NoteField> = Vec::new();
        fields.push(NoteField { name: "kanji".to_owned(), value: characters });
        fields.push(
            NoteField {
                name: "primary-meaning".to_owned(),
                value: self.subject.meanings[primary_idx].meaning.clone(),
            },
        );
        fields.push(
            NoteField {
                name: "primary-meaning-mnemonic".to_owned(),
                value: self.subject.meaning_mnemonic.clone(),
            },
        );
        fields.push(
            NoteField {
                name: "primary-reading-mnemonic".to_owned(),
                value: self.reading_mnemonic.clone(),
            },
        );
        fields.push(
            NoteField { name: "reference-url".to_owned(), value: self.subject.document_url.clone() },
        );
        fields.push(NoteField { name: "secondary-meanings".to_owned(), value: secondary });
        fields.push(NoteField { name: "readings".to_owned(), value: readings });
        let mut tags: Vec<String> = Vec::new();
        tags.push("WaniKani Kanji".to_owned());
        proof {
            assert(note_fields_view(fields@) =~= kanji_note_fields(self));
        }
        Ok(
            AddNoteInput {
                note: AddNoteNoteMessage {
                    deck_name: deck_name.to_owned(),
                    model_name: model_name.to_owned(),
                    fields,
                    tags,
                },
            },
        )
    }
}

impl ApiVocabularyMessage {
    /// Maps this vocabulary record to its note payload. A record that breaks
    /// the vocabulary invariant is refused with the reason; a well-formed
    /// record maps to exactly the documented fields, in order, including at
    /// most the first three context sentences, with the single fixed
    /// category tag.
    pub fn into_anki_input(self, model_name: &str, deck_name: &str) -> (r: Result<
        AddNoteInput,
        TransformError,
    >)
        ensures
            self.subject.characters is None ==> r == Err::<AddNoteInput, TransformError>(
                TransformError::MissingCharacters,
            ),
            self.subject.characters is Some && !has_unique_primary_meaning(self.subject.meanings@)
                ==> r == Err::<AddNoteInput, TransformError>(
                TransformError::MeaningsWithoutUniquePrimary,
            ),
            self.subject.characters is Some && has_unique_primary_meaning(self.subject.meanings@)
                && !has_unique_primary_reading(self.readings@) ==> r == Err::<
                AddNoteInput,
                TransformError,
            >(TransformError::ReadingsWithoutUniquePrimary),
            vocabulary_well_formed(self) ==> (r matches Ok(input) && input.note.deck_name@
                == deck_name@ && input.note.model_name@ == model_name@ && input.note.tags@.len()
                == 1 && input.note.tags@[0]@ == "WaniKani Vocabulary"@ && note_fields_view(
                input.note.fields@,
            ) == vocabulary_note_fields(self)),
    {
        let characters = match &self.subject.characters {
            Some(c) => c.clone(),
            None => {
                return Err(TransformError::MissingCharacters);
            },
        };
        let primary_idx = match find_unique_primary_meaning(&self.subject.meanings) {
            Some(i) => i,
            None => {
                return Err(TransformError::MeaningsWithoutUniquePrimary);
            },
        };
        let primary_reading_idx = match find_unique_primary_reading(&self.readings) {
            Some(i) => i,
            None => {
                return Err(TransformError::ReadingsWithoutUniquePrimary);
            },
        };
        proof {
            lemma_primary_meaning_is(self.subject.meanings@, primary_idx as int);
            lemma_primary_reading_is(self.readings@, primary_reading_idx as int);
        }
        let secondary = join_comma(&collect_secondary_meanings(&self.subject.meanings));
        let secondary_readings = join_comma(&collect_secondary_readings(&self.readings));
        let mut fields: Vec<NoteField> = Vec::new();
        fields.push(NoteField { name: "vocabulary".to_owned(), value: characters });
        fields.push(
            NoteField {
                name: "primary-meaning".to_owned(),
                value: self.subject.meanings[primary_idx].meaning.clone(),
            },
        );
        fields.push(
            NoteField {
                name: "primary-meaning-mnemonic".to_owned(),
                value: self.subject.meaning_mnemonic.clone(),
            },
        );
        fields.push(
            NoteField {
                name: "primary-reading-mnemonic".to_owned(),
                value: self.reading_mnemonic.clone(),
            },
        );
        fields.push(
            NoteField { name: "reference-url".to_owned(), value: self.subject.document_url.clone() },
        );
        fields.push(NoteField { name: "secondary-meanings".to_owned(), value: secondary });
        fields.push(
            NoteField {
                name: "primary-reading".to_owned(),
                value: self.readings[primary_reading_idx].reading.clone(),
            },
        );
        fields.push(NoteField { name: "readings".to_owned(), value: secondary_readings });
        if self.context_sentences.len() >= 1 {
            fields.push(
                NoteField {
                    name: "context-sentence-0-ja".to_owned(),
                    value: self.context_sentences[0].ja.clone(),
                },
            );
            fields.push(
                NoteField {
                    name: "context-sentence-0-en".to_owned(),
                    value: self.context_sentences[0].en.clone(),
                },
            );
        }
        if self.context_sentences.len() >= 2 {
            fields.push(
                NoteField {
                    name: "context-sentence-1-ja".to_owned(),
                    value: self.context_sentences[1].ja.clone(),
                },
            );
            fields.push(
                NoteField {
                    name: "context-sentence-1-en".to_owned(),
                    value: self.context_sentences[1].en.clone(),
                },
            );
        }
        if self.context_sentences.len() >= 3 {
            fields.push(
                NoteField {
                    name: "context-sentence-2-ja".to_owned(),
                    value: self.context_sentences[2].ja.clone(),
                },
            );
            fields.push(
                NoteField {
                    name: "context-sentence-2-en".to_owned(),
                    value: self.context_sentences[2].en.clone(),
                },
            );
        }
        let mut tags: Vec<String> = Vec::new();
        tags.push("WaniKani Vocabulary".to_owned());
        proof {
            assert(note_fields_view(fields@) =~= vocabulary_note_fields(self));
        }
        Ok(
            AddNoteInput {
                note: AddNoteNoteMessage {
                    deck_name: deck_name.to_owned(),
                    model_name: model_name.to_owned(),
                    fields,
                    tags,
                },
            },
        )
    }
}

} // verus!

//! The JSON-RPC surface of the local flashcard endpoint: request envelopes,
//! the inputs of the actions the pipeline uses, and the interpretation of the
//! endpoint's `{result, error}` replies.

use vstd::prelude::*;

verus! {

/// Failure of one command against the local flashcard endpoint.
#[derive(Clone, Debug, PartialEq, Eq)]
pub enum AnkiError {
    /// A transport-level failure. `connection_refused` is set exactly when
    /// the connection could not be established at all, the one retryable
    /// condition of the install path.
    HttpError { connection_refused: bool, message: String },
    /// The reply could not be decoded.
    SerdeError(String),
    /// The endpoint answered with neither a result nor an error.
    EmptyResponse,
    /// The endpoint answered with a named error.
    ApiError(String),
}

/// Type for any RPC-able request.
pub trait AnkiRequest {
    type Response;

    /// The action name of the request, as the envelope carries it.
    spec fn spec_action(&self) -> Seq<char>;

    /// The protocol version of the request.
    spec fn spec_version(&self) -> u16;

    fn action(&self) -> (r: &'static str)
        ensures
            r@ == self.spec_action(),
    ;

    fn version(&self) -> (r: u16)
        ensures
            r == self.spec_version(),
    ;
}

/// The envelope sent to the endpoint.
pub struct CommandRequest<T> {
    pub action: String,
    pub version: u16,
    pub params: T,
}

/// Wraps a request into the envelope the endpoint expects.
pub fn make_command<T: AnkiRequest>(request: T) -> (r: CommandRequest<T>)
    ensures
        r.action@ == request.spec_action(),
        r.version == request.spec_version(),
        r.params == request,
{
    let action = request.action().to_owned();
    let version = request.version();
    CommandRequest { action, version, params: request }
}

/// The envelope the endpoint replies with.
pub struct CommandResponse<T> {
    pub result: Option<T>,
    pub error: Option<String>,
}

impl<T> CommandResponse<T> {
    /// A present `result` is success; an absent `result` with a present
    /// `error` is a named failure; both absent is an empty-response failure.
    pub fn interpret(self) -> (r: Result<T, AnkiError>)
        ensures
            self.result matches Some(v) ==> r == Ok::<T, AnkiError>(v),
            self.result is None ==> (self.error matches Some(e) ==> r == Err::<T, AnkiError>(
                AnkiError::ApiError(e),
            )),
            self.result is None && self.error is None ==> r == Err::<T, AnkiError>(
                AnkiError::EmptyResponse,
            ),
    {
        match (self.result, self.error) {
            (Some(result), _) => Ok(result),
            (None, Some(error)) => Err(AnkiError::ApiError(error)),
            (None, None) => Err(AnkiError::EmptyResponse),
        }
    }
}

/// The one-shot administrative actions answer with an empty result on
/// success in some versions of the endpoint; treat that shape as success and
/// pass every other error through.
pub fn tolerate_empty_response<T>(r: Result<T, AnkiError>) -> (out: Result<(), AnkiError>)
    ensures
        r matches Ok(_) ==> out == Ok::<(), AnkiError>(()),
        r matches Err(e) ==> (e == AnkiError::EmptyResponse ==> out == Ok::<(), AnkiError>(())),
        r matches Err(e) ==> (e != AnkiError::EmptyResponse ==> out == Err::<(), AnkiError>(e)),
{
    match r {
        Ok(_) => Ok(()),
        Err(AnkiError::EmptyResponse) => Ok(()),
        Err(e) => Err(e),
    }
}

/// Input of the action that creates a note type.
pub struct CreateModelInput {
    pub model_name: String,
    pub in_order_fields: Vec<String>,
    pub css: String,
    pub is_cloze: bool,
    pub card_templates: Vec<CreateModelCardTemplateMessage>,
}

/// One card template of a note type.
pub struct CreateModelCardTemplateMessage {
    pub name: String,
    pub front: String,
    pub back: String,
}

/// The part of the endpoint's reply to a model creation that the pipeline
/// reads: the opaque model id.
pub struct CreateModelOutput {
    pub id: i64,
}

impl AnkiRequest for CreateModelInput {
    type Response = CreateModelOutput;

    open spec fn spec_action(&self) -> Seq<char> {
        "createModel"@
    }

    open spec fn spec_version(&self) -> u16 {
        6
    }

    fn action(&self) -> (r: &'static str) {
        "createModel"
    }

    fn version(&self) -> (r: u16) {
        6
    }
}

/// Input of the action that creates a deck.
pub struct CreateDeckInput {
    pub deck: String,
}

impl AnkiRequest for CreateDeckInput {
    type Response = i64;

    open spec fn spec_action(&self) -> Seq<char> {
        "createDeck"@
    }

    open spec fn spec_version(&self) -> u16 {
        6
    }

    fn action(&self) -> (r: &'static str) {
        "createDeck"
    }

    fn version(&self) -> (r: u16) {
        6
    }
}

/// One field of a note payload, in the order the note type declares them.
#[derive(Clone, Debug)]
pub struct NoteField {
    pub name: String,
    pub value: String,
}

/// Input of the action that adds one note.
#[derive(Clone, Debug)]
pub struct AddNoteInput {
    pub note: AddNoteNoteMessage,
}

/// The note payload of an `addNote` action. The media lists of the wire
/// format are always empty for this pipeline and are supplied by the
/// transport layer.
#[derive(Clone, Debug)]
pub struct AddNoteNoteMessage {
    pub deck_name: String,
    pub model_name: String,
    pub fields: Vec<NoteField>,
    pub tags: Vec<String>,
}

/// Duplicate-handling options of an `addNote` action.
pub struct AddNoteOptionsMessage {
    pub allow_duplicate: bool,
    pub duplicate_scope: String,
    pub duplicate_scope_options: AddNoteDuplicateScopeOptionsMessage,
}

/// Scope of the duplicate check of an `addNote` action.
pub struct AddNoteDuplicateScopeOptionsMessage {
    pub deck_name: String,
    pub check_children: bool,
    pub check_all_models: bool,
}

impl AnkiRequest for AddNoteInput {
    type Response = i64;

    open spec fn spec_action(&self) -> Seq<char> {
        "addNote"@
    }

    open spec fn spec_version(&self) -> u16 {
        6
    }

    fn action(&self) -> (r: &'static str) {
        "addNote"
    }

    fn version(&self) -> (r: u16) {
        6
    }
}

} // verus!

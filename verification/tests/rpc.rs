use wanikanji::anki::{kanji_model_input, vocabulary_model_input};
use wanikanji::anki_connect::{
    make_command, tolerate_empty_response, AnkiError, CommandResponse, CreateDeckInput,
    CreateModelInput,
};

#[test]
fn create_deck_command_envelope() {
    let request = CreateDeckInput { deck: "Kanji".to_owned() };
    let command = make_command(request);
    assert_eq!(command.action, "createDeck");
    assert_eq!(command.version, 6);
    assert_eq!(command.params.deck, "Kanji");
}

#[test]
fn create_model_command_envelope() {
    let request = kanji_model_input(
        "kanji-model",
        "recognition",
        "css".to_owned(),
        "front".to_owned(),
        "back".to_owned(),
    );
    let command = make_command(request);
    assert_eq!(command.action, "createModel");
    assert_eq!(command.version, 6);
}

#[test]
fn result_present_is_success() {
    let response = CommandResponse { result: Some(7i64), error: None };
    assert_eq!(response.interpret(), Ok(7));
}

#[test]
fn result_present_wins_over_error() {
    let response = CommandResponse { result: Some(7i64), error: Some("ignored".to_owned()) };
    assert_eq!(response.interpret(), Ok(7));
}

#[test]
fn error_alone_is_a_named_failure() {
    let response: CommandResponse<i64> =
        CommandResponse { result: None, error: Some("model was not found".to_owned()) };
    assert_eq!(
        response.interpret(),
        Err(AnkiError::ApiError("model was not found".to_owned()))
    );
}

#[test]
fn empty_response_is_tolerated_for_administrative_actions() {
    assert_eq!(tolerate_empty_response(Ok(7i64)), Ok(()));
    assert_eq!(
        tolerate_empty_response::<i64>(Err(AnkiError::EmptyResponse)),
        Ok(())
    );
    assert_eq!(
        tolerate_empty_response::<i64>(Err(AnkiError::ApiError("deck was not found".to_owned()))),
        Err(AnkiError::ApiError("deck was not found".to_owned()))
    );
}

#[test]
fn neither_field_is_an_empty_response() {
    let response: CommandResponse<i64> = CommandResponse { result: None, error: None };
    assert_eq!(response.interpret(), Err(AnkiError::EmptyResponse));
}

fn names(input: &CreateModelInput) -> Vec<&str> {
    input.in_order_fields.iter().map(|s| s.as_str()).collect()
}

#[test]
fn kanji_model_declares_its_field_list() {
    let input = kanji_model_input(
        "kanji-model",
        "recognition",
        "css".to_owned(),
        "front".to_owned(),
        "back".to_owned(),
    );
    assert_eq!(input.model_name, "kanji-model");
    assert!(!input.is_cloze);
    assert_eq!(input.css, "css");
    assert_eq!(
        names(&input),
        vec![
            "kanji",
            "primary-meaning",
            "primary-meaning-mnemonic",
            "secondary-meanings",
            "primary-reading-mnemonic",
            "readings",
            "reference-url",
        ]
    );
    assert_eq!(input.card_templates.len(), 1);
    assert_eq!(input.card_templates[0].name, "recognition");
    assert_eq!(input.card_templates[0].front, "front");
    assert_eq!(input.card_templates[0].back, "back");
}

#[test]
fn vocabulary_model_declares_its_field_list() {
    let input = vocabulary_model_input(
        "vocab-model",
        "recognition",
        "css".to_owned(),
        "front".to_owned(),
        "back".to_owned(),
    );
    assert_eq!(input.model_name, "vocab-model");
    assert_eq!(
        names(&input),
        vec![
            "vocabulary",
            "primary-meaning",
            "primary-meaning-mnemonic",
            "secondary-meanings",
            "primary-reading",
            "primary-reading-mnemonic",
            "secondary-readings",
            "context-sentence-1-en",
            "context-sentence-1-ja",
            "context-sentence-2-en",
            "context-sentence-2-ja",
            "context-sentence-3-en",
            "context-sentence-3-ja",
            "reference-url",
        ]
    );
}

use playai::errors::OrchestratorError;
use playai::ident::{fresh_generation_id, is_valid_generation_id};
use playai::model_type::{parse_model_type, validate_model_type, ModelType};
use playai::protocol::Subcommand;
use playai::request::{encode_payload, GenerationRequest};

#[test]
fn payload_frames_every_field_in_order() {
    let request = GenerationRequest {
        model_type: String::from("text-generation"),
        prompt: String::from("write a haiku"),
        parameters: String::from("{\"max_tokens\":64}"),
        model_name: Some(String::from("small-llm")),
        lora_name: Some(String::from("poetry")),
    };
    let payload = encode_payload(&request, "00000000-0000-4000-8000-000000000000");
    let expected = "{\"model_type\":\"text-generation\",\"prompt\":\"write a haiku\",\
                    \"parameters\":{\"max_tokens\":64},\"model_name\":\"small-llm\",\
                    \"lora_name\":\"poetry\",\
                    \"generation_id\":\"00000000-0000-4000-8000-000000000000\"}";
    assert_eq!(payload, expected.as_bytes().to_vec());
}

#[test]
fn payload_escapes_quotes_backslashes_and_control_bytes() {
    let request = GenerationRequest {
        model_type: String::from("text-to-image"),
        prompt: String::from("a \"fox\"\\\nden"),
        parameters: String::from("{}"),
        model_name: None,
        lora_name: None,
    };
    let payload = encode_payload(&request, "00000000-0000-4000-8000-000000000000");
    let text = String::from_utf8(payload).expect("the payload is UTF-8");
    assert!(text.contains("\"prompt\":\"a \\\"fox\\\"\\\\\\u000aden\""));
    // The framed document is itself well-formed JSON and round-trips.
    let doc: serde_json::Value = serde_json::from_str(&text).expect("framed payload parses");
    assert_eq!(doc["prompt"].as_str(), Some("a \"fox\"\\\nden"));
    assert_eq!(doc["model_name"], serde_json::Value::Null);
}

#[test]
fn payload_keeps_multibyte_text_intact() {
    let request = GenerationRequest {
        model_type: String::from("text-to-audio"),
        prompt: String::from("ein Füchslein im Schnee ❄"),
        parameters: String::from("{}"),
        model_name: None,
        lora_name: None,
    };
    let payload = encode_payload(&request, "00000000-0000-4000-8000-000000000000");
    let text = String::from_utf8(payload).expect("the payload is UTF-8");
    let doc: serde_json::Value = serde_json::from_str(&text).expect("framed payload parses");
    assert_eq!(doc["prompt"].as_str(), Some("ein Füchslein im Schnee ❄"));
}

#[test]
fn the_model_type_set_is_closed() {
    assert_eq!(parse_model_type("text-to-image"), Some(ModelType::TextToImage));
    assert_eq!(parse_model_type("text-to-audio"), Some(ModelType::TextToAudio));
    assert_eq!(parse_model_type("text-to-video"), Some(ModelType::TextToVideo));
    assert_eq!(parse_model_type("text-generation"), Some(ModelType::TextGeneration));
    assert_eq!(parse_model_type("image-to-image"), None);
    assert_eq!(parse_model_type("TEXT-TO-IMAGE"), None);
    assert_eq!(parse_model_type(""), None);
}

#[test]
fn validation_names_the_rejected_model_type() {
    match validate_model_type("bogus") {
        Err(OrchestratorError::InvalidModelType { given }) => assert_eq!(given, "bogus"),
        _ => panic!("an unknown model_type must fail with InvalidModelType"),
    }
    assert_eq!(validate_model_type("text-to-video").unwrap(), ModelType::TextToVideo);
}

#[test]
fn model_type_names_round_trip() {
    for t in [
        ModelType::TextToImage,
        ModelType::TextToAudio,
        ModelType::TextToVideo,
        ModelType::TextGeneration,
    ] {
        assert_eq!(parse_model_type(t.name()), Some(t));
    }
}

#[test]
fn fresh_identifiers_have_the_version_4_shape() {
    let id = fresh_generation_id();
    assert!(is_valid_generation_id(&id));
    assert_eq!(id.len(), 36);
    assert_eq!(id.as_bytes()[14], b'4');
}

#[test]
fn the_identifier_checker_rejects_near_misses() {
    assert!(is_valid_generation_id("123e4567-e89b-42d3-a456-426614174000"));
    // Too short.
    assert!(!is_valid_generation_id("123e4567-e89b-42d3-a456"));
    // Uppercase hex.
    assert!(!is_valid_generation_id("123E4567-E89B-42D3-A456-426614174000"));
    // Wrong version nibble.
    assert!(!is_valid_generation_id("123e4567-e89b-12d3-a456-426614174000"));
    // Wrong variant nibble.
    assert!(!is_valid_generation_id("123e4567-e89b-42d3-c456-426614174000"));
    // A hyphen out of place.
    assert!(!is_valid_generation_id("123e4567ae89b-42d3--456-426614174000"));
    assert!(!is_valid_generation_id(""));
}

#[test]
fn subcommands_carry_their_wire_names() {
    assert_eq!(Subcommand::Init.arg(), "init");
    assert_eq!(Subcommand::Generate.arg(), "generate");
    assert_eq!(Subcommand::ListModels.arg(), "list-models");
    assert_eq!(Subcommand::ListLoras.arg(), "list-loras");
    assert_eq!(Subcommand::Status.arg(), "status");
    assert_eq!(Subcommand::Cancel.arg(), "cancel");
}

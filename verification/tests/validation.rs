use env_mode::validation::{FAILURE_CODE, FAILURE_MESSAGE};
use env_mode::{validated, verify, EnvMode};

const REJECTED: [&str; 7] = ["Dev", " dev", "development", "", "PRD", "unknown", "dev\t"];

#[test]
fn canonical_tokens_pass_validation() {
    assert_eq!(verify("dev"), Ok(()));
    assert_eq!(verify("prd"), Ok(()));
    assert_eq!(verify("stg"), Ok(()));
}

#[test]
fn other_text_fails_with_the_fixed_code_and_message() {
    for text in REJECTED {
        let failure = verify(text).expect_err(text);
        assert_eq!(failure.code, "env_mode", "{text:?}");
        assert_eq!(
            failure.message.as_deref(),
            Some("Please provide a valid environment mode"),
            "{text:?}"
        );
    }
}

#[test]
fn a_failure_carries_no_parameters() {
    let failure = verify("production").unwrap_err();
    assert!(failure.params.is_empty());
}

#[test]
fn a_failure_is_shown_as_its_message() {
    let failure = verify("qa").unwrap_err();
    assert_eq!(format!("{failure}"), "Please provide a valid environment mode");
}

#[test]
fn the_failure_is_the_same_for_every_rejected_text() {
    let first = verify("").unwrap_err();
    for text in REJECTED {
        assert_eq!(verify(text).unwrap_err(), first, "{text:?}");
    }
}

#[test]
fn the_published_constants_are_what_a_failure_holds() {
    assert_eq!(FAILURE_CODE, "env_mode");
    assert_eq!(FAILURE_MESSAGE, "Please provide a valid environment mode");
    let failure = verify("nope").unwrap_err();
    assert_eq!(failure.code, FAILURE_CODE);
    assert_eq!(failure.message.as_deref(), Some(FAILURE_MESSAGE));
}

#[test]
fn validation_agrees_with_is_valid() {
    for text in REJECTED.iter().chain(["dev", "prd", "stg"].iter()) {
        assert_eq!(verify(text).is_ok(), EnvMode::is_valid(text), "{text:?}");
    }
}

#[test]
fn validate_then_construct() {
    for (text, mode) in [("dev", EnvMode::Dev), ("prd", EnvMode::Prd), ("stg", EnvMode::Stg)] {
        assert!(verify(text).is_ok());
        assert_eq!(EnvMode::from_token(text), mode);
        assert_eq!(validated(text), Ok(mode));
    }
}

#[test]
fn invalid_text_is_stopped_by_validation_before_construction() {
    for text in REJECTED {
        let failure = validated(text).expect_err(text);
        assert_eq!(failure, verify(text).unwrap_err(), "{text:?}");
    }
}

#[test]
fn a_document_field_decodes_to_its_mode() {
    let document: serde_json::Value = serde_json::from_str("{\"mode\": \"stg\"}").unwrap();
    let field = document.get("mode").and_then(|v| v.as_str()).unwrap();
    assert_eq!(validated(field), Ok(EnvMode::Stg));
}

#[test]
fn a_document_field_with_an_unknown_token_does_not_decode() {
    let document: serde_json::Value = serde_json::from_str("{\"mode\": \"unknown\"}").unwrap();
    let field = document.get("mode").and_then(|v| v.as_str()).unwrap();
    assert!(validated(field).is_err());
}

//! The validator: raw text in, nothing or a field-level failure out.

use crate::mode::EnvMode;
use std::borrow::Cow;
use validator::ValidationError;
use vstd::prelude::*;

verus! {

/// The identifier under which an invalid mode is reported.
pub const FAILURE_CODE: &'static str = "env_mode";

/// The message shown to the user for an invalid mode.
pub const FAILURE_MESSAGE: &'static str = "Please provide a valid environment mode";

/// `e` is the failure that an invalid mode is reported with: the fixed
/// identifier, the fixed message, and no parameters.
pub open spec fn is_mode_failure(e: ValidationError) -> bool {
    &&& e.code@ == FAILURE_CODE@
    &&& e.message matches Some(message) && message@ == FAILURE_MESSAGE@
    &&& e.params@.is_empty()
}

/// Checks that `mode` names an environment mode.
pub fn verify(mode: &str) -> (outcome: Result<(), ValidationError>)
    ensures
        outcome is Ok <==> EnvMode::spec_is_valid(mode@),
        outcome matches Err(e) ==> is_mode_failure(e),
{
    if !EnvMode::is_valid(mode) {
        return Err(
            ValidationError::new(FAILURE_CODE).with_message(Cow::Owned(FAILURE_MESSAGE.to_string())),
        );
    }
    Ok(())
}

/// Validates `mode`, then converts it: the mode it names, or the failure
/// that [`verify`] reports.
pub fn validated(mode: &str) -> (outcome: Result<EnvMode, ValidationError>)
    ensures
        outcome is Ok <==> EnvMode::spec_is_valid(mode@),
        outcome matches Ok(m) ==> EnvMode::named_by(mode@) == Some(m),
        outcome matches Err(e) ==> is_mode_failure(e),
{
    match verify(mode) {
        Ok(()) => Ok(EnvMode::from_token(mode)),
        Err(e) => Err(e),
    }
}

/// The JSON values that a failure's parameters hold. Nothing in this crate
/// looks inside one.
#[verifier::external_type_specification]
#[verifier::external_body]
pub struct ExValue(serde_json::Value);

/// `validator::ValidationError`, with its three public fields as that crate
/// declares them: `code`, `message` and `params`. Verus reads the fields
/// from the crate itself, so the contracts below can speak of them.
#[verifier::external_type_specification]
pub struct ExValidationError(validator::ValidationError);

/// `ValidationError::new` builds a failure that carries `code` as its
/// identifier, no message and an empty parameter map.
pub assume_specification[ ValidationError::new ](code: &'static str) -> (e: ValidationError)
    ensures
        e.code@ == code@,
        e.message is None,
        e.params@.is_empty(),
;

/// `ValidationError::with_message` sets the message and leaves the
/// identifier and the parameters as they were.
pub assume_specification[ ValidationError::with_message ](
    e: ValidationError,
    message: Cow<'static, str>,
) -> (r: ValidationError)
    ensures
        r.code == e.code,
        r.message == Some(message),
        r.params == e.params,
;

} // verus!

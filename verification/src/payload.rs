//! Construction of the two request payloads.
//!
//! Each payload is built fresh for exactly one network call, from the
//! caller's keys, a fresh random request id and a clock reading that the
//! embedding application supplies; a clock failure fails the call at
//! once with [`BananaError::TimeError`].

use vstd::prelude::*;

use crate::types::BananaError;
use crate::types::CheckPayload;
use crate::types::Payload;

verus! {

/// Relies on `uuid::Uuid::new_v4` and its hyphenated `Display` form: a
/// fresh random request identifier. The value is random, so nothing is
/// assumed of it.
#[verifier::external_body]
fn fresh_id() -> String {
    uuid::Uuid::new_v4().to_string()
}

/// Builds the submission payload from the caller's keys and inputs and
/// a clock reading, with the start-only flag fixed at `false`; a failed
/// clock reading becomes `TimeError` carrying its reason.
pub fn build_submit_payload(
    api_key: &str,
    model_key: &str,
    model_inputs: serde_json::Value,
    clock: Result<usize, String>,
) -> (r: Result<Payload, BananaError>)
    ensures
        clock matches Ok(t) ==> r matches Ok(p) && p.created == t && p.api_key@ == api_key@
            && p.model_key@ == model_key@ && p.model_inputs == model_inputs && p.start_only
            == false,
        clock matches Err(reason) ==> r == Err::<Payload, BananaError>(
            BananaError::TimeError(reason),
        ),
{
    match clock {
        Ok(created) => Ok(
            Payload {
                id: fresh_id(),
                created,
                api_key: api_key.to_owned(),
                model_key: model_key.to_owned(),
                model_inputs,
                start_only: false,
            },
        ),
        Err(reason) => Err(BananaError::TimeError(reason)),
    }
}

/// Builds the status-check payload for the given job handle from the
/// caller's key and a clock reading, with the long-poll flag fixed at
/// `true`; a failed clock reading becomes `TimeError` carrying its
/// reason.
pub fn build_check_payload(api_key: &str, call_id: &str, clock: Result<usize, String>) -> (r:
    Result<CheckPayload, BananaError>)
    ensures
        clock matches Ok(t) ==> r matches Ok(p) && p.created == t && p.long_poll == true
            && p.call_i_d@ == call_id@ && p.api_key@ == api_key@,
        clock matches Err(reason) ==> r == Err::<CheckPayload, BananaError>(
            BananaError::TimeError(reason),
        ),
{
    match clock {
        Ok(created) => Ok(
            CheckPayload {
                id: fresh_id(),
                created,
                long_poll: true,
                call_i_d: call_id.to_owned(),
                api_key: api_key.to_owned(),
            },
        ),
        Err(reason) => Err(BananaError::TimeError(reason)),
    }
}

} // verus!

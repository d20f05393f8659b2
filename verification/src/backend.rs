//! The pure side of the token-source adapter: the fixed prompt and model
//! configuration handed to the generative backend, the bound on generation
//! length, and the reply selection for a completed non-streaming call.
//!
//! The backend itself is an opaque external capability; the connection loop
//! calls it and hands the outcome back to [`completion_reply`].

use vstd::prelude::*;
use vstd::string::*;

verus! {

/// The fixed apology sent when a non-streaming backend call failed.
pub open spec fn apology_spec() -> Seq<char> {
    "Oops, something went wrong."@
}

/// The reply for one completed non-streaming backend call: the first
/// choice's text when the call succeeded (empty when the backend returned
/// no choice or no content), the fixed apology when the call failed.
pub fn completion_reply(outcome: Option<String>) -> (r: String)
    ensures
        outcome matches Some(c) ==> r == c,
        outcome is None ==> r@ == apology_spec(),
{
    match outcome {
        Some(c) => c,
        None => String::from_str("Oops, something went wrong."),
    }
}

/// The system instruction for the free-text deployment.
pub fn snarky_system_prompt() -> (r: String)
    ensures
        r@ == "Respond briefly with a snarky sentence or two."@,
{
    String::from_str("Respond briefly with a snarky sentence or two.")
}

/// The system instruction for the hosted-completion deployment.
pub fn helpful_system_prompt() -> (r: String)
    ensures
        r@ == "You are a helpful assistant."@,
{
    String::from_str("You are a helpful assistant.")
}

/// The model requested from the hosted backend.
pub fn chat_model() -> (r: String)
    ensures
        r@ == "gpt-4"@,
{
    String::from_str("gpt-4")
}

/// The cap on one turn's generation length, bounding resource use per
/// session.
pub fn max_generation_length() -> (n: u64)
    ensures
        n == 1000,
{
    1000
}

} // verus!

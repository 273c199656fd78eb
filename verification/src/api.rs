//! The HTTP surface's request and response shapes and their mapping onto
//! the uniform sampling parameters, plus the fixed CORS policy. The
//! server, routing and JSON encoding are the hosting process's concern.
use vstd::prelude::*;
use vstd::string::StringExecFns;

use crate::config::SamplingParams;

verus! {

/// One completion request, as the query string or JSON body carries it:
/// knobs in thousandths, as everywhere in this crate.
///
/// `remove_input` is accepted as a request field but is wired into
/// nothing: the prompt-echo stripping always runs. This mirrors a likely
/// incomplete feature of the surface rather than inferring a behavior
/// for it.
#[derive(Clone, Debug)]
pub struct GenerationRequest {
    pub context: String,
    pub top_p_milli: u32,
    pub temp_milli: u32,
    pub response_length: u16,
    pub remove_input: Option<bool>,
}

/// One completion response: the generated text and how long the call
/// took, in milliseconds.
#[derive(Clone, Debug)]
pub struct GenerationResponse {
    pub generated_text: String,
    pub duration: u128,
}

/// The sampling parameters a completion request stands for; the HTTP
/// surface carries no stop sequence.
pub fn request_params(req: &GenerationRequest) -> (r: SamplingParams)
    ensures
        r.max_tokens == req.response_length,
        r.temperature_milli == req.temp_milli,
        r.top_p_milli == req.top_p_milli,
        r.stop_sequence is None,
{
    SamplingParams {
        max_tokens: req.response_length,
        temperature_milli: req.temp_milli,
        top_p_milli: req.top_p_milli,
        stop_sequence: None,
    }
}

/// Assembles the response body for one completed call.
pub fn make_response(generated_text: String, duration: u128) -> (r: GenerationResponse)
    ensures
        r.generated_text@ == generated_text@,
        r.duration == duration,
{
    GenerationResponse { generated_text, duration }
}

/// The fixed CORS policy attached to every response.
pub struct CORS;

impl CORS {
    /// The four headers of the policy, in the order they are attached:
    /// any origin, the four allowed methods, any header, credentials
    /// allowed.
    pub fn headers() -> (r: Vec<(String, String)>)
        ensures
            r@.len() == 4,
            r@[0].0@ == "Access-Control-Allow-Origin"@,
            r@[0].1@ == "*"@,
            r@[1].0@ == "Access-Control-Allow-Methods"@,
            r@[1].1@ == "POST, GET, PATCH, OPTIONS"@,
            r@[2].0@ == "Access-Control-Allow-Headers"@,
            r@[2].1@ == "*"@,
            r@[3].0@ == "Access-Control-Allow-Credentials"@,
            r@[3].1@ == "true"@,
    {
        let mut v: Vec<(String, String)> = Vec::new();
        v.push((String::from_str("Access-Control-Allow-Origin"), String::from_str("*")));
        v.push(
            (
                String::from_str("Access-Control-Allow-Methods"),
                String::from_str("POST, GET, PATCH, OPTIONS"),
            ),
        );
        v.push((String::from_str("Access-Control-Allow-Headers"), String::from_str("*")));
        v.push(
            (String::from_str("Access-Control-Allow-Credentials"), String::from_str("true")),
        );
        v
    }
}

} // verus!

//! The prompt forwarder's verified half: planning the outbound generate
//! request, and the gateway's uniform reply policy.
//!
//! Transport itself — sending the request and reading the streamed reply —
//! happens outside this library; what stands here is everything decided
//! before and after it: the exact outbound URL and body, and how each
//! transport outcome is framed for the caller.

use vstd::prelude::*;
use vstd::string::StringExecFns;
use crate::url::{generate_url, generate_url_of};

verus! {

/// The status code of a reply that carries an answer.
pub const STATUS_OK: u16 = 200;

/// The status code of a reply that reports a transport failure.
pub const STATUS_FAILURE: u16 = 500;

/// One inbound generate request: the backend base URL, the model
/// identifier, and the prompt text, all forwarded as-is.
pub struct GenerateRequest {
    pub base_url: String,
    pub model: String,
    pub prompt: String,
}

/// The outbound request the gateway sends for one generate request.
pub struct OutboundRequest {
    pub url: String,
    pub body: String,
}

/// The gateway's reply to one inbound request: a status code and the text
/// returned as the reply's `response` field.
pub struct PromptReply {
    pub status: u16,
    pub text: String,
}

/// The serialized outbound body of a generate request: a JSON object
/// carrying the model identifier and the prompt text.  Serialization is
/// delegated to an outside JSON library, so the value of this function is
/// not given here; it is a function of the two fields alone.
pub uninterp spec fn prompt_body_of(model: Seq<char>, prompt: Seq<char>) -> Seq<char>;

/// Relies on `serde_json::Map::insert` and the `serde_json::Value`
/// serializer: the serialized object depends on the two field values alone.
#[verifier::external_body]
fn encode_prompt_body(model: &str, prompt: &str) -> (r: String)
    ensures
        r@ == prompt_body_of(model@, prompt@),
{
    let mut fields = serde_json::Map::new();
    fields.insert(String::from("model"), serde_json::Value::String(String::from(model)));
    fields.insert(String::from("prompt"), serde_json::Value::String(String::from(prompt)));
    serde_json::Value::Object(fields).to_string()
}

/// Plans the outbound generate request: the URL is the base with trailing
/// slashes trimmed and the fixed generate path appended, and the body
/// carries the model and prompt exactly as given.
pub fn plan_generate_request(req: &GenerateRequest) -> (r: OutboundRequest)
    ensures
        r.url@ == generate_url_of(req.base_url@),
        r.body@ == prompt_body_of(req.model@, req.prompt@),
{
    let url = generate_url(req.base_url.as_str());
    let body = encode_prompt_body(req.model.as_str(), req.prompt.as_str());
    OutboundRequest { url, body }
}

/// The reply once the backend's stream has been consumed: the aggregated
/// answer — complete or cut short by a read error — is returned as it
/// stands, framed as success.
pub fn prompt_reply_on_answer(answer: String) -> (r: PromptReply)
    ensures
        r.status == STATUS_OK,
        r.text@ == answer@,
{
    PromptReply { status: STATUS_OK, text: answer }
}

/// The reply when the outbound request fails at the transport: a failure
/// status carrying a fixed, non-empty, human-readable message.
pub fn prompt_reply_on_failure() -> (r: PromptReply)
    ensures
        r.status == STATUS_FAILURE,
        r.text@ == "error sending the prompt to the model"@,
        r.text@.len() > 0,
{
    proof {
        reveal_strlit("error sending the prompt to the model");
    }
    PromptReply { status: STATUS_FAILURE, text: String::from_str("error sending the prompt to the model") }
}

/// The reply of the model-catalog endpoint: the projected names on
/// success, and a failure status with an empty list — never an error
/// payload — when transport or decoding failed.
pub fn models_reply(names: Option<Vec<String>>) -> (r: (u16, Vec<String>))
    ensures
        names matches Some(list) ==> r.0 == STATUS_OK && r.1 == list,
        names is None ==> r.0 == STATUS_FAILURE && r.1@.len() == 0,
{
    match names {
        Option::Some(list) => (STATUS_OK, list),
        Option::None => (STATUS_FAILURE, Vec::new()),
    }
}

} // verus!

//! The prompt side and the reply side around the normalizer: the fixed
//! instruction sent with each prompt, and the body handed back to the caller.
use vstd::prelude::*;
use crate::normalize::{normalize, recovered, Outcome, INVALID_SCHEMA};

verus! {

/// The instruction that accompanies every prompt. It is the only place where
/// the node schema is imposed on the model.
pub const SYSTEM_PROMPT: &'static str = r#"You are a helpful AI assistant. Provide your response as a single JSON array of nodes. Each node must use this schema: { node_id: #, x: X-COORDINATE, y: Y-COORDINATE, text: "TEXT THAT WILL BE DISPLAYED ON THE NODE", connected: [OTHER NODES TO BE CONNECTED TO], information: "Information at this certain point" }. Do not put or return in a codeblock. Make sure that there's no ```json ``` or anything like that. Do not return anything except the JSON array. Each Node has a width of 270px and a height of 100px, the X and Y you are going to be providing is always going to be in the unit PX"#;

/// The prefix of the message that reports a failed model invocation.
pub const API_CALL_FAILED: &'static str = "API call failed: ";

/// One invocation of the model: the fixed instruction and the caller's prompt.
pub struct ModelRequest {
    pub system_prompt: String,
    pub user_prompt: String,
}

/// Builds the model invocation for a prompt. No prompt is refused.
pub fn model_request(prompt: &str) -> (r: ModelRequest)
    ensures
        r.system_prompt@ == SYSTEM_PROMPT@,
        r.user_prompt@ == prompt@,
{
    ModelRequest { system_prompt: String::from_str(SYSTEM_PROMPT), user_prompt: prompt.to_string() }
}

/// The body handed back to the caller: the document itself, or an object
/// with a single `error` field holding the message.
pub enum Reply {
    Document(serde_json::Value),
    Error(String),
}

/// Maps a normalization outcome to the reply: a document as it is, a
/// failure as its fixed message. The raw text of a failure is not passed on.
pub fn emit(outcome: Outcome) -> (r: Reply)
    ensures
        match outcome {
            Outcome::Document(v) => r == Reply::Document(v),
            Outcome::Failure { message, .. } => r is Error && r->Error_0@ == message@,
        },
{
    match outcome {
        Outcome::Document(v) => Reply::Document(v),
        Outcome::Failure { message, .. } => Reply::Error(message),
    }
}

/// The reply to a failed model invocation, which embeds the provider's
/// error text.
pub fn invocation_failed(error: &str) -> (r: Reply)
    ensures
        r is Error,
        r->Error_0@ == API_CALL_FAILED@ + error@,
{
    let mut m = String::from_str(API_CALL_FAILED);
    m.append(error);
    Reply::Error(m)
}

/// The reply to what the model returned: its text normalized, or its error
/// reported. Beside the reply stands the raw text of a normalization failure,
/// for the operator's log; it is absent otherwise.
pub fn respond(model_result: Result<String, String>) -> (r: (Reply, Option<String>))
    ensures
        match model_result {
            Ok(text) => match r.0 {
                Reply::Document(v) => recovered(text@) == Some(v) && r.1 is None,
                Reply::Error(m) => recovered(text@) is None && m@ == INVALID_SCHEMA@
                    && r.1 is Some && r.1->0@ == text@,
            },
            Err(e) => r.0 is Error && r.0->Error_0@ == API_CALL_FAILED@ + e@ && r.1 is None,
        },
{
    match model_result {
        Ok(text) => {
            let outcome = normalize(text.as_str());
            let diagnostic = match &outcome {
                Outcome::Document(_) => None,
                Outcome::Failure { raw, .. } => Some(raw.clone()),
            };
            (emit(outcome), diagnostic)
        },
        Err(e) => (invocation_failed(e.as_str()), None),
    }
}

} // verus!

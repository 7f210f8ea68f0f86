//! The language-model client's decisions: when a request can be made,
//! what an answer means, and how errors read.
use vstd::prelude::*;
use crate::text::{int_decimal_spec, push_str, push_u64, str_eq, decimal_spec};

pub mod prompt;
pub mod response;

pub use response::LlmResult;

verus! {

/// Messages endpoint.
pub const ENDPOINT: &'static str = "https://api.anthropic.com/v1/messages";

/// Room for 1-3 Chinese translations plus 6 English example sentences
/// (about 20 words each), with headroom for the JSON envelope.
pub const MAX_TOKENS: u32 = 1000;

/// API version header value.
pub const ANTHROPIC_VERSION: &'static str = "2023-06-01";

/// Why the model gave no usable answer.
#[derive(Debug)]
pub enum LlmError {
    Http(String),
    Timeout,
    BadJson(String),
    ApiError { status: u16, body: String },
    Refused,
    NoApiKey,
}

/// The text an [`LlmError`] is shown as.
pub open spec fn llm_error_text(e: LlmError) -> Seq<char> {
    match e {
        LlmError::Http(m) => "HTTP error: "@ + m@,
        LlmError::Timeout => "request timeout"@,
        LlmError::BadJson(m) => "bad JSON: "@ + m@,
        LlmError::ApiError { status, .. } => "API error "@ + decimal_spec(status as nat),
        LlmError::Refused => "refused by model"@,
        LlmError::NoApiKey => "no API key configured"@,
    }
}

impl LlmError {
    /// The message shown for this error.
    pub fn message(&self) -> (r: String)
        ensures
            r@ == llm_error_text(*self),
    {
        let mut r = String::new();
        match self {
            LlmError::Http(m) => {
                push_str(&mut r, "HTTP error: ");
                push_str(&mut r, m.as_str());
            },
            LlmError::Timeout => push_str(&mut r, "request timeout"),
            LlmError::BadJson(m) => {
                push_str(&mut r, "bad JSON: ");
                push_str(&mut r, m.as_str());
            },
            LlmError::ApiError { status, .. } => {
                push_str(&mut r, "API error ");
                push_u64(&mut r, *status as u64);
            },
            LlmError::Refused => push_str(&mut r, "refused by model"),
            LlmError::NoApiKey => push_str(&mut r, "no API key configured"),
        }
        r
    }

    /// The error for a failed request: a timeout, or any other transport
    /// failure with its message.
    pub fn from_transport(timed_out: bool, message: String) -> (r: LlmError)
        ensures
            timed_out ==> r is Timeout,
            !timed_out ==> r == LlmError::Http(message),
    {
        if timed_out {
            LlmError::Timeout
        } else {
            LlmError::Http(message)
        }
    }
}

/// Without an API key no request is made.
pub fn require_api_key(api_key: &str) -> (r: Result<(), LlmError>)
    ensures
        api_key@.len() == 0 <==> r is Err,
        r matches Err(e) ==> e is NoApiKey,
{
    if api_key.unicode_len() == 0 {
        Err(LlmError::NoApiKey)
    } else {
        Ok(())
    }
}

/// A non-2xx answer is an API error carrying the status and body.
pub fn status_error(code: u16, body: String) -> (r: Option<LlmError>)
    ensures
        (200 <= code <= 299) ==> r is None,
        !(200 <= code <= 299) ==> r == Some(LlmError::ApiError { status: code, body }),
{
    if 200 <= code && code <= 299 {
        None
    } else {
        Some(LlmError::ApiError { status: code, body })
    }
}

/// One content block of the answer envelope.
#[derive(Debug, Clone)]
pub struct ContentBlock {
    /// `type`.
    pub kind: String,
    /// `text`, empty when missing.
    pub text: String,
}

/// Index of the first `text` block.
pub open spec fn first_text_block(blocks: Seq<ContentBlock>, i: int) -> int
    decreases blocks.len() - i,
{
    if i < 0 || i >= blocks.len() {
        blocks.len() as int
    } else if blocks[i].kind@ == "text"@ {
        i
    } else {
        first_text_block(blocks, i + 1)
    }
}

/// The model's text out of the answer envelope: a refusal stop reason is
/// a refusal; otherwise the text of the first `text` block, or a bad-JSON
/// error when there is none.
pub fn reply_text(stop_reason: &Option<String>, content: &Vec<ContentBlock>) -> (r: Result<
    String,
    LlmError,
>)
    ensures
        (stop_reason matches Some(s) && s@ == "refusal"@) ==> r matches Err(LlmError::Refused),
        !(stop_reason matches Some(s) && s@ == "refusal"@) ==> {
            let i = first_text_block(content@, 0);
            if i < content@.len() {
                r matches Ok(t) && t@ == content@[i].text@
            } else {
                r matches Err(LlmError::BadJson(m)) && m@ == "no text block"@
            }
        },
{
    let refused = match stop_reason {
        Some(s) => str_eq(s.as_str(), "refusal"),
        None => false,
    };
    if refused {
        return Err(LlmError::Refused);
    }
    let mut i: usize = 0;
    while i < content.len() && !str_eq(content[i].kind.as_str(), "text")
        invariant
            i <= content@.len(),
            first_text_block(content@, 0) == first_text_block(content@, i as int),
        decreases content.len() - i,
    {
        i += 1;
    }
    if i < content.len() {
        Ok(content[i].text.clone())
    } else {
        let mut m = String::new();
        push_str(&mut m, "no text block");
        Err(LlmError::BadJson(m))
    }
}

/// A parse failure of the model's text, as a bad-JSON error.
pub fn bad_json(message: String) -> (r: LlmError)
    ensures
        r == LlmError::BadJson(message),
{
    LlmError::BadJson(message)
}

/// A failure to read the answer envelope: `envelope: <why>`.
pub fn bad_envelope(why: &str) -> (r: LlmError)
    ensures
        r matches LlmError::BadJson(m) && m@ == "envelope: "@ + why@,
{
    let mut m = String::new();
    push_str(&mut m, "envelope: ");
    push_str(&mut m, why);
    LlmError::BadJson(m)
}

} // verus!

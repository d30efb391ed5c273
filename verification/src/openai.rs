use vstd::prelude::*;

use crate::encoding::{base64_decode, base64_decoded};
use crate::text::push_str;

verus! {

/// Why a request to OpenAI gave no answer.
#[derive(Debug, Clone, PartialEq)]
pub enum OpenAiError {
    /// The request failed; the failure's text.
    Api(String),
    /// The answer was not JSON; the failure's text.
    Json(String),
    /// The service refused; its message.
    Refusal(String),
    /// The answer held neither a result nor an error message.
    Unknown,
}

/// The message of an OpenAI error.
pub open spec fn openai_error_text(e: OpenAiError) -> Seq<char> {
    match e {
        OpenAiError::Api(s) => "API communication failure: "@ + s@,
        OpenAiError::Json(s) => "Unable to parse text from JSON: "@ + s@,
        OpenAiError::Refusal(s) => "Refused to complete request: "@ + s@,
        OpenAiError::Unknown => "Unknown response from OpenAI API"@,
    }
}

impl OpenAiError {
    /// The message of this error.
    pub fn message(&self) -> (s: String)
        ensures
            s@ == openai_error_text(*self),
    {
        match self {
            OpenAiError::Api(x) => {
                let mut s = "API communication failure: ".to_string();
                push_str(&mut s, x.as_str());
                s
            },
            OpenAiError::Json(x) => {
                let mut s = "Unable to parse text from JSON: ".to_string();
                push_str(&mut s, x.as_str());
                s
            },
            OpenAiError::Refusal(x) => {
                let mut s = "Refused to complete request: ".to_string();
                push_str(&mut s, x.as_str());
                s
            },
            OpenAiError::Unknown => "Unknown response from OpenAI API".to_string(),
        }
    }
}

/// The authorization header value for an API key.
pub fn build_api_auth_header(api_key: &str) -> (s: String)
    ensures
        s@ == "Bearer "@ + api_key@,
{
    let mut s = "Bearer ".to_string();
    push_str(&mut s, api_key);
    s
}

/// What a parsed answer of OpenAI gives: the string at the request's result path, else
/// the string at its error path as a refusal, else `Unknown`. `valid` and `error` are
/// the strings found at those paths, where the value there is a string.
pub fn send_request(valid: Option<String>, error: Option<String>) -> (r: Result<String, OpenAiError>)
    ensures
        match valid {
            Some(v) => r == Ok::<String, OpenAiError>(v),
            None => match error {
                Some(e) => r == Err::<String, OpenAiError>(OpenAiError::Refusal(e)),
                None => r == Err::<String, OpenAiError>(OpenAiError::Unknown),
            },
        },
{
    match valid {
        Some(v) => Ok(v),
        None => match error {
            Some(e) => Err(OpenAiError::Refusal(e)),
            None => Err(OpenAiError::Unknown),
        },
    }
}

/// The answer to a question: the completion text, else the error message of the
/// answer, else nothing.
pub fn question_answer(text: Option<String>, error_message: Option<String>) -> (r: Option<String>)
    ensures
        r == match text {
            Some(t) => Some(t),
            None => error_message,
        },
{
    match text {
        Some(t) => Some(t),
        None => error_message,
    }
}

/// The start of every code request.
pub const CODE_PROMPT: &'static str = "\n        <|endoftext|>/* I start with a blank HTML page, and incrementally modify it via <script> injection. Written for Chrome. */\n        /* Command: Add \"Hello World\", by adding an HTML DOM node */\n        var helloWorld = document.createElement('div');\n        helloWorld.innerHTML = 'Hello World';\n        document.body.appendChild(helloWorld);\n        /* Command: Clear the page. */\n        while (document.body.firstChild) {\n        document.body.removeChild(document.body.firstChild);\n        }\n    ";

/// The prompt of a code request: the fixed start, then the user's command (or a
/// request to make something up).
pub fn code_request(command: Option<&str>) -> (s: String)
    ensures
        s@ == CODE_PROMPT@ + "\n\n/* Command: "@ + match command {
            Some(c) => c@,
            None => "Make something up"@,
        } + " */\n\n"@,
{
    let mut s = CODE_PROMPT.to_string();
    push_str(&mut s, "\n\n/* Command: ");
    match command {
        Some(c) => push_str(&mut s, c),
        None => push_str(&mut s, "Make something up"),
    }
    push_str(&mut s, " */\n\n");
    s
}

/// The reply with generated code, as a code block.
pub fn code_reply(code: &str) -> (s: String)
    ensures
        s@ == "```"@ + code@ + "```"@,
{
    let mut s = "```".to_string();
    push_str(&mut s, code);
    push_str(&mut s, "```");
    s
}

/// What an image request ends in.
pub enum ImgenOutcome {
    /// The image's bytes, to send as `image.png`.
    Image(Vec<u8>),
    /// The answer was no valid base64: nothing is sent.
    Undecodable,
    /// The request failed with this error.
    Failed(OpenAiError),
}

/// What an image request ends in, from the answer: base64 text of the image, or the
/// request's error.
pub fn imgen_outcome(response: Result<String, OpenAiError>) -> (r: ImgenOutcome)
    ensures
        match response {
            Ok(b64) => match base64_decoded(b64@) {
                Some(decoded) => r matches ImgenOutcome::Image(bytes) && bytes@ == decoded,
                None => r is Undecodable,
            },
            Err(e) => r == ImgenOutcome::Failed(e),
        },
{
    match response {
        Ok(b64) => match base64_decode(b64.as_str()) {
            Some(bytes) => ImgenOutcome::Image(bytes),
            None => ImgenOutcome::Undecodable,
        },
        Err(e) => ImgenOutcome::Failed(e),
    }
}

} // verus!

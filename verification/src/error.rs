//! The library's error values, which of them are worth a retry, and their messages.
use vstd::prelude::*;
use vstd::string::*;
use crate::text::{decimal, decimal_text};

verus! {

broadcast use vstd::string::group_string_axioms;

/// Every failure a call can report.
#[derive(Debug, Clone)]
pub enum OpenAiError {
    /// A non-2xx answer; the fields come from the JSON error envelope, or the message is the raw
    /// body when that is not JSON.
    Api {
        status: u16,
        message: String,
        code: Option<String>,
        type_: Option<String>,
        param: Option<String>,
    },
    /// A transport failure, with what the HTTP layer said of it.
    Reqwest { message: String, connect: bool, timeout: bool, request: bool },
    /// A body that could not be decoded.
    Decode(String),
    /// A stream that ended early or sent a malformed event.
    Stream(String),
    /// Misuse caught before any traffic (missing key, Azure deployment not set, ...).
    Config(String),
    /// A local I/O failure.
    Io(String),
}

/// The fields of an OpenAI JSON error envelope (`{"error": {...}}`).
#[derive(Debug, Clone)]
pub struct ApiErrorBody {
    pub message: String,
    pub type_: Option<String>,
    pub code: Option<String>,
    pub param: Option<String>,
}

/// A failure that a JSON request retries: 429 or a 5xx answer, or a connect, timeout or
/// request-building failure.
pub open spec fn retryable(e: OpenAiError) -> bool {
    match e {
        OpenAiError::Api { status, .. } => status == 429 || (500 <= status && status <= 599),
        OpenAiError::Reqwest { connect, timeout, request, .. } => connect || timeout || request,
        _ => false,
    }
}

/// `" [<label>=<value>]"` for a present value, nothing otherwise.
pub open spec fn tag_text(label: Seq<char>, v: Option<String>) -> Seq<char> {
    match v {
        Some(x) => " ["@ + label + "="@ + x@ + "]"@,
        None => Seq::empty(),
    }
}

/// The message of an error, as its `Display` writes it.
pub open spec fn error_text(e: OpenAiError) -> Seq<char> {
    match e {
        OpenAiError::Api { status, message, code, type_, .. } => "OpenAI API error ("@ + decimal(
            status as int,
        ) + "): "@ + message@ + tag_text("code"@, code) + tag_text("type"@, type_),
        OpenAiError::Reqwest { message, .. } => "HTTP error: "@ + message@,
        OpenAiError::Decode(m) => "JSON decode error: "@ + m@,
        OpenAiError::Stream(m) => "Stream error: "@ + m@,
        OpenAiError::Config(m) => "Config error: "@ + m@,
        OpenAiError::Io(m) => "IO error: "@ + m@,
    }
}

/// `e` is the API error for `status` built from an envelope, or from the raw body.
pub open spec fn is_api_error(e: OpenAiError, status: u16, parsed: Option<ApiErrorBody>, body: Seq<char>) -> bool {
    match e {
        OpenAiError::Api { status: s, message, code, type_, param } => {
            &&& s == status
            &&& match parsed {
                Some(b) => {
                    &&& message@ == b.message@
                    &&& crate::text::opt_view(code) == crate::text::opt_view(b.code)
                    &&& crate::text::opt_view(type_) == crate::text::opt_view(b.type_)
                    &&& crate::text::opt_view(param) == crate::text::opt_view(b.param)
                },
                None => message@ == body && code is None && type_ is None && param is None,
            }
        },
        _ => false,
    }
}

fn append_tag(out: &mut String, label: &str, v: &Option<String>)
    ensures
        final(out)@ == old(out)@ + tag_text(label@, *v),
{
    match v {
        Some(x) => {
            out.append(" [");
            out.append(label);
            out.append("=");
            out.append(x.as_str());
            out.append("]");
            proof {
                assert(final(out)@ =~= old(out)@ + tag_text(label@, *v));
            }
        },
        None => {
            assert(old(out)@ + tag_text(label@, *v) =~= old(out)@);
        },
    }
}

impl OpenAiError {
    /// A configuration error with the given message.
    pub fn config(msg: &str) -> (e: OpenAiError)
        ensures
            e matches OpenAiError::Config(m) && m@ == msg@,
    {
        OpenAiError::Config(msg.to_string())
    }

    /// A stream error with the given message.
    pub fn stream(msg: &str) -> (e: OpenAiError)
        ensures
            e matches OpenAiError::Stream(m) && m@ == msg@,
    {
        OpenAiError::Stream(msg.to_string())
    }

    /// The API error for a non-2xx answer: the envelope's fields when the body parsed as one
    /// (`parsed`), else the raw body as message.
    pub fn from_response_body(status: u16, parsed: Option<ApiErrorBody>, body: &str) -> (e:
        OpenAiError)
        ensures
            is_api_error(e, status, parsed, body@),
    {
        match parsed {
            Some(b) => OpenAiError::Api {
                status,
                message: b.message,
                code: b.code,
                type_: b.type_,
                param: b.param,
            },
            None => OpenAiError::Api {
                status,
                message: body.to_string(),
                code: None,
                type_: None,
                param: None,
            },
        }
    }

    /// Whether a JSON request retries after this error.
    pub fn is_retryable(&self) -> (b: bool)
        ensures
            b == retryable(*self),
    {
        match self {
            OpenAiError::Api { status, .. } => *status == 429 || (500 <= *status && *status <= 599),
            OpenAiError::Reqwest { connect, timeout, request, .. } => *connect || *timeout
                || *request,
            _ => false,
        }
    }

    /// The error's message (what `Display` shows).
    pub fn to_display_string(&self) -> (s: String)
        ensures
            s@ == error_text(*self),
    {
        match self {
            OpenAiError::Api { status, message, code, type_, .. } => {
                let mut s = "OpenAI API error (".to_string();
                let n = decimal_text(*status as i64);
                s.append(n.as_str());
                s.append("): ");
                s.append(message.as_str());
                append_tag(&mut s, "code", code);
                append_tag(&mut s, "type", type_);
                s
            },
            OpenAiError::Reqwest { message, .. } => "HTTP error: ".to_string().concat(
                message.as_str(),
            ),
            OpenAiError::Decode(m) => "JSON decode error: ".to_string().concat(m.as_str()),
            OpenAiError::Stream(m) => "Stream error: ".to_string().concat(m.as_str()),
            OpenAiError::Config(m) => "Config error: ".to_string().concat(m.as_str()),
            OpenAiError::Io(m) => "IO error: ".to_string().concat(m.as_str()),
        }
    }
}

} // verus!

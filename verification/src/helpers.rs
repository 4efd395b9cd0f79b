//! Endpoint and key lookup from configured values, with the default endpoints.
use vstd::prelude::*;
use vstd::string::*;

verus! {

broadcast use vstd::string::group_string_axioms;

/// The kind of request an endpoint is looked up for.
#[derive(Debug, Clone, Copy, PartialEq, Eq)]
pub enum RequestType {
    ChatCompletion,
    Embedding,
}

/// The endpoint used when none is configured.
pub open spec fn default_endpoint(t: RequestType) -> Seq<char> {
    match t {
        RequestType::ChatCompletion => "https://api.openai.com/v1/chat/completions"@,
        RequestType::Embedding => "https://api.openai.com/v1/embeddings"@,
    }
}

/// How a failure to read the configured endpoint is reported.
pub open spec fn lock_error_prefix(t: RequestType) -> Seq<char> {
    match t {
        RequestType::ChatCompletion => "Error locking chat endpoint: "@,
        RequestType::Embedding => "Error locking embeddings endpoint: "@,
    }
}

/// The endpoint for a request type, from the configured value as read (`Err` holding why it
/// could not be read): a non-empty configured endpoint is used, an empty one falls back to the
/// default, and a read failure is reported with its reason.
pub fn get_url(request_type: RequestType, configured: Result<String, String>) -> (r: Result<
    String,
    String,
>)
    ensures
        match configured {
            Ok(u) => r matches Ok(s) && s@ == (if u@.len() > 0 {
                u@
            } else {
                default_endpoint(request_type)
            }),
            Err(e) => r matches Err(m) && m@ == lock_error_prefix(request_type) + e@,
        },
{
    match configured {
        Ok(url) => {
            if !url.as_str().is_empty() {
                Ok(url)
            } else {
                match request_type {
                    RequestType::ChatCompletion => Ok(
                        "https://api.openai.com/v1/chat/completions".to_string(),
                    ),
                    RequestType::Embedding => Ok("https://api.openai.com/v1/embeddings".to_string()),
                }
            }
        },
        Err(e) => {
            let prefix = match request_type {
                RequestType::ChatCompletion => "Error locking chat endpoint: ".to_string(),
                RequestType::Embedding => "Error locking embeddings endpoint: ".to_string(),
            };
            Err(prefix.concat(e.as_str()))
        },
    }
}

/// The API key, from the configured value as read (`Err` holding why it could not be read).
pub fn get_key(configured: Result<String, String>) -> (r: Result<String, String>)
    ensures
        match configured {
            Ok(k) => r matches Ok(s) && s@ == k@,
            Err(e) => r matches Err(m) && m@ == "Error getting API key from Mutex lock: "@ + e@,
        },
{
    match configured {
        Ok(key) => Ok(key),
        Err(e) => Err("Error getting API key from Mutex lock: ".to_string().concat(e.as_str())),
    }
}

} // verus!

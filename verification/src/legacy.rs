//! The decisions of the older single-call helpers (one chat request, one embedding): the
//! default embedding model and the messages of their failures.
use vstd::prelude::*;
use vstd::string::*;
use crate::json::{entry_models, lemma_entry_models, Json, JsonObject, JsonValue};

verus! {

broadcast use vstd::string::group_string_axioms;

/// The embedding model used when none is given.
pub open spec fn default_embedding_model() -> Seq<char> {
    "text-embedding-ada-002"@
}

/// The model to embed with: the given one, else `text-embedding-ada-002`.
pub fn embedding_model(model: Option<String>) -> (m: String)
    ensures
        m@ == match model {
            Some(x) => x@,
            None => default_embedding_model(),
        },
{
    match model {
        Some(x) => x,
        None => "text-embedding-ada-002".to_string(),
    }
}

/// The body of an embedding request: the text as `input`, the model, and `encoding_format`
/// `float`, in that order.
pub open spec fn embed_body(text: Seq<char>, model: Seq<char>) -> Json {
    Json::Object(
        seq![
            ("input"@, Json::Str(text)),
            ("model"@, Json::Str(model)),
            ("encoding_format"@, Json::Str("float"@)),
        ],
    )
}

/// Builds the body of an embedding request (see `embed_body`).
pub fn embed_request_body(text: &str, model: &str) -> (v: JsonValue)
    ensures
        v.model() == embed_body(text@, model@),
{
    let mut entries: Vec<(String, JsonValue)> = Vec::new();
    entries.push(("input".to_string(), JsonValue::String(text.to_string())));
    entries.push(("model".to_string(), JsonValue::String(model.to_string())));
    entries.push(("encoding_format".to_string(), JsonValue::String("float".to_string())));
    proof {
        reveal_strlit("input");
        reveal_strlit("model");
        reveal_strlit("encoding_format");
        reveal_strlit("float");
        let es = entries@;
        lemma_entry_models(es);
        assert(entry_models(es) =~= seq![
            ("input"@, Json::Str(text@)),
            ("model"@, Json::Str(model@)),
            ("encoding_format"@, Json::Str("float"@)),
        ]);
    }
    JsonValue::Object(JsonObject { entries })
}

/// The message for a request that could not be sent.
pub fn send_error(reason: &str) -> (m: String)
    ensures
        m@ == "Error sending request to Open Ai: "@ + reason@,
{
    "Error sending request to Open Ai: ".to_string().concat(reason)
}

/// The message for a reply body that could not be read as JSON.
pub fn read_error(reason: &str) -> (m: String)
    ensures
        m@ == "Error reading response JSON: "@ + reason@,
{
    "Error reading response JSON: ".to_string().concat(reason)
}

/// The message for a reply that did not have the expected shape.
pub fn parse_error(reason: &str) -> (m: String)
    ensures
        m@ == "Error parsing OpenAI response: "@ + reason@,
{
    "Error parsing OpenAI response: ".to_string().concat(reason)
}

/// The message for a non-2xx reply: the status as displayed, then the body as read (`Err`
/// holding why it could not be read).
pub fn status_error(status: &str, body: Result<String, String>) -> (m: String)
    ensures
        m@ == "Open Ai Error! Status: "@ + status@ + "       Err Msgs: "@ + match body {
            Ok(t) => t@,
            Err(e) => "Error parsing Open Ai response: "@ + e@,
        },
{
    let detail = match body {
        Ok(t) => t,
        Err(e) => "Error parsing Open Ai response: ".to_string().concat(e.as_str()),
    };
    let mut m = "Open Ai Error! Status: ".to_string();
    m.append(status);
    m.append("       Err Msgs: ");
    m.append(detail.as_str());
    m
}

/// The first embedding of a reply, or the message saying there is none.
pub fn first_vector<T>(data: Vec<T>) -> (r: Result<T, String>)
    ensures
        data@.len() > 0 ==> r == Ok::<T, String>(data@[0]),
        data@.len() == 0 ==> (r matches Err(m) && m@ == "No embeddings found in response"@),
{
    let mut data = data;
    if data.len() > 0 {
        Ok(data.remove(0))
    } else {
        Err("No embeddings found in response".to_string())
    }
}

} // verus!

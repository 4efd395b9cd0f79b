//! The Responses API: request input, tools, the request and its builder, and the response
//! object with what a caller reads from it.
//!
//! Free-form JSON fields of responses are kept as JSON text; `f32` numbers as their bits.
use vstd::prelude::*;
use vstd::string::*;
use crate::json::{lemma_entry_models, Json, JsonObject, JsonValue};
use crate::models::OpenAiModel;
use crate::output::Usage;
use crate::payload::ReasoningEffort;
use crate::text::{clone_opt, opt_view};

verus! {

broadcast use vstd::string::group_string_axioms;

// --- input -------------------------------------------------------------------

/// Base64 audio input.
#[derive(Debug, Clone)]
pub struct InputAudio {
    pub data: String,
    pub format: String,
}

/// One typed part of an input message.
#[derive(Debug, Clone)]
pub enum ResponseInputContentPart {
    InputText { text: String },
    InputImage { image_url: Option<String>, file_id: Option<String>, detail: Option<String> },
    InputFile { file_id: Option<String>, file_data: Option<String>, file_name: Option<String> },
    InputAudio { input_audio: InputAudio },
}

/// Message content: a string or typed parts.
#[derive(Debug, Clone)]
pub enum ResponseInputContent {
    Text(String),
    Parts(Vec<ResponseInputContentPart>),
}

/// One item of a list input.
#[derive(Debug, Clone)]
pub enum ResponseInputItem {
    /// A message from a role.
    Message { role: String, content: ResponseInputContent, name: Option<String> },
    /// The output of an earlier function call.
    FunctionCallOutput { call_id: String, output: String },
    /// A reference to an earlier item.
    ItemReference { id: String },
}

/// The request input: a string or a list of items.
#[derive(Debug, Clone)]
pub enum ResponseInput {
    Text(String),
    Items(Vec<ResponseInputItem>),
}

impl From<String> for ResponseInput {
    fn from(s: String) -> (r: ResponseInput) {
        ResponseInput::Text(s)
    }
}

impl vstd::std_specs::convert::FromSpecImpl<String> for ResponseInput {
    open spec fn obeys_from_spec() -> bool {
        true
    }

    open spec fn from_spec(s: String) -> ResponseInput {
        ResponseInput::Text(s)
    }
}

impl From<Vec<ResponseInputItem>> for ResponseInput {
    fn from(v: Vec<ResponseInputItem>) -> (r: ResponseInput) {
        ResponseInput::Items(v)
    }
}

impl vstd::std_specs::convert::FromSpecImpl<Vec<ResponseInputItem>> for ResponseInput {
    open spec fn obeys_from_spec() -> bool {
        true
    }

    open spec fn from_spec(v: Vec<ResponseInputItem>) -> ResponseInput {
        ResponseInput::Items(v)
    }
}

/// `item` is a text message from `role` with text `text` and no name.
pub open spec fn is_text_message(item: ResponseInputItem, role: Seq<char>, text: Seq<char>) -> bool {
    &&& item matches ResponseInputItem::Message { role: r, content, name }
    &&& r@ == role
    &&& name is None
    &&& content matches ResponseInputContent::Text(t)
    &&& t@ == text
}

fn text_message(role: &str, text: &str) -> (item: ResponseInputItem)
    ensures
        is_text_message(item, role@, text@),
{
    ResponseInputItem::Message {
        role: role.to_string(),
        content: ResponseInputContent::Text(text.to_string()),
        name: None,
    }
}

impl ResponseInputItem {
    /// A user text message.
    pub fn user(text: &str) -> (item: ResponseInputItem)
        ensures
            is_text_message(item, "user"@, text@),
    {
        text_message("user", text)
    }

    /// A system text message.
    pub fn system(text: &str) -> (item: ResponseInputItem)
        ensures
            is_text_message(item, "system"@, text@),
    {
        text_message("system", text)
    }

    /// A developer text message.
    pub fn developer(text: &str) -> (item: ResponseInputItem)
        ensures
            is_text_message(item, "developer"@, text@),
    {
        text_message("developer", text)
    }

    /// An assistant text message.
    pub fn assistant(text: &str) -> (item: ResponseInputItem)
        ensures
            is_text_message(item, "assistant"@, text@),
    {
        text_message("assistant", text)
    }

    /// The output of the function call `call_id`.
    pub fn function_call_output(call_id: &str, output: &str) -> (item: ResponseInputItem)
        ensures
            item matches ResponseInputItem::FunctionCallOutput { call_id: c, output: o } && c@
                == call_id@ && o@ == output@,
    {
        ResponseInputItem::FunctionCallOutput {
            call_id: call_id.to_string(),
            output: output.to_string(),
        }
    }
}

// --- tools ---------------------------------------------------------------------

/// A tool the model may use.
#[derive(Debug, Clone)]
pub enum ResponseTool {
    /// A function; `parameters` is its JSON schema, as JSON text.
    Function { name: String, description: Option<String>, parameters: String, strict: Option<bool> },
    WebSearchPreview { search_context_size: Option<String>, user_location: Option<String> },
    FileSearch {
        vector_store_ids: Vec<String>,
        max_num_results: Option<u32>,
        ranking_options: Option<String>,
        filters: Option<String>,
    },
    ComputerUsePreview { display_width: u32, display_height: u32, environment: String },
    /// A tool of a kind not modelled here.
    Other,
}

/// How the model picks tools.
#[derive(Debug, Clone)]
pub enum ResponseToolChoice {
    /// `"none"`, `"auto"` or `"required"`.
    Mode(String),
    /// Force a hosted tool by type.
    Hosted { type_: String },
    /// Force a function by name.
    Function { type_: String, name: String },
}

/// `c` is the mode `m`.
pub open spec fn is_mode(c: ResponseToolChoice, m: Seq<char>) -> bool {
    c matches ResponseToolChoice::Mode(s) && s@ == m
}

impl ResponseToolChoice {
    /// The model decides.
    pub fn auto() -> (c: ResponseToolChoice)
        ensures
            is_mode(c, "auto"@),
    {
        ResponseToolChoice::Mode("auto".to_string())
    }

    /// No tool.
    pub fn none() -> (c: ResponseToolChoice)
        ensures
            is_mode(c, "none"@),
    {
        ResponseToolChoice::Mode("none".to_string())
    }

    /// Some tool must be used.
    pub fn required() -> (c: ResponseToolChoice)
        ensures
            is_mode(c, "required"@),
    {
        ResponseToolChoice::Mode("required".to_string())
    }

    /// The function `name` must be called.
    pub fn function(name: &str) -> (c: ResponseToolChoice)
        ensures
            c matches ResponseToolChoice::Function { type_, name: n } && type_@ == "function"@
                && n@ == name@,
    {
        ResponseToolChoice::Function { type_: "function".to_string(), name: name.to_string() }
    }
}

impl From<String> for ResponseToolChoice {
    fn from(s: String) -> (r: ResponseToolChoice) {
        ResponseToolChoice::Mode(s)
    }
}

impl vstd::std_specs::convert::FromSpecImpl<String> for ResponseToolChoice {
    open spec fn obeys_from_spec() -> bool {
        true
    }

    open spec fn from_spec(s: String) -> ResponseToolChoice {
        ResponseToolChoice::Mode(s)
    }
}

// --- request -------------------------------------------------------------------

/// Output text format.
#[derive(Debug)]
pub struct TextConfig {
    pub format: Option<JsonValue>,
}

impl TextConfig {
    /// Strict output following `schema`, named `name`: the format object
    /// `{"type": "json_schema", "name": name, "schema": schema, "strict": true}`.
    pub fn json_schema(name: &str, schema: JsonValue) -> (t: TextConfig)
        ensures
            t.format matches Some(JsonValue::Object(o)) && o.model() == seq![
                ("type"@, Json::Str("json_schema"@)),
                ("name"@, Json::Str(name@)),
                ("schema"@, schema.model()),
                ("strict"@, Json::Bool(true)),
            ],
    {
        let ghost sm = schema.model();
        let mut es: Vec<(String, JsonValue)> = Vec::new();
        es.push(("type".to_string(), JsonValue::String("json_schema".to_string())));
        es.push(("name".to_string(), JsonValue::String(name.to_string())));
        es.push(("schema".to_string(), schema));
        es.push(("strict".to_string(), JsonValue::Bool(true)));
        let o = JsonObject { entries: es };
        proof {
            lemma_entry_models(o.entries@);
            assert(o.model() =~= seq![
                ("type"@, Json::Str("json_schema"@)),
                ("name"@, Json::Str(name@)),
                ("schema"@, sm),
                ("strict"@, Json::Bool(true)),
            ]);
        }
        TextConfig { format: Some(JsonValue::Object(o)) }
    }
}

/// Reasoning options.
#[derive(Debug, Clone)]
pub struct ReasoningConfig {
    pub effort: Option<ReasoningEffort>,
    /// `"auto"`, `"concise"`, `"detailed"`, ...
    pub summary: Option<String>,
}

impl Default for ReasoningConfig {
    fn default() -> (c: ReasoningConfig)
        ensures
            c.effort is None && c.summary is None,
    {
        ReasoningConfig { effort: None, summary: None }
    }
}

/// Request body of `/responses`.
#[derive(Debug)]
pub struct ResponseRequest {
    pub model: OpenAiModel,
    pub input: ResponseInput,
    pub instructions: Option<String>,
    pub previous_response_id: Option<String>,
    pub tools: Option<Vec<ResponseTool>>,
    pub tool_choice: Option<ResponseToolChoice>,
    pub parallel_tool_calls: Option<bool>,
    pub max_output_tokens: Option<i32>,
    /// Bits of the `f32` temperature.
    pub temperature: Option<u32>,
    /// Bits of the `f32` nucleus cutoff.
    pub top_p: Option<u32>,
    pub user: Option<String>,
    /// Metadata entries, each key once.
    pub metadata: Option<Vec<(String, String)>>,
    pub store: Option<bool>,
    pub stream: Option<bool>,
    pub truncation: Option<String>,
    pub service_tier: Option<String>,
    /// Extra output the response carries (the request's list of extras).
    pub included_output: Option<Vec<String>>,
    pub text: Option<TextConfig>,
    pub reasoning: Option<ReasoningConfig>,
}

/// A request with only the model and input set.
pub open spec fn is_plain_request(r: ResponseRequest) -> bool {
    &&& r.instructions is None && r.previous_response_id is None && r.tools is None
    &&& r.tool_choice is None && r.parallel_tool_calls is None && r.max_output_tokens is None
    &&& r.temperature is None && r.top_p is None && r.user is None && r.metadata is None
    &&& r.store is None && r.stream is None && r.truncation is None && r.service_tier is None
    &&& r.included_output is None && r.text is None && r.reasoning is None
}

impl ResponseRequest {
    /// The request with streaming turned on (as a streamed request sends it).
    pub fn streaming(self) -> (r: ResponseRequest)
        ensures
            r == (ResponseRequest { stream: Some(true), ..self }),
    {
        ResponseRequest { stream: Some(true), ..self }
    }
}

/// Step-by-step construction of a `ResponseRequest`.
pub struct ResponseRequestBuilder {
    inner: ResponseRequest,
}

impl ResponseRequestBuilder {
    /// The request so far.
    pub closed spec fn current(&self) -> ResponseRequest {
        self.inner
    }

    /// A builder for `model` and `input`, nothing else set.
    pub fn new(model: OpenAiModel, input: ResponseInput) -> (b: ResponseRequestBuilder)
        ensures
            b.current().model == model,
            b.current().input == input,
            is_plain_request(b.current()),
    {
        ResponseRequestBuilder {
            inner: ResponseRequest {
                model,
                input,
                instructions: None,
                previous_response_id: None,
                tools: None,
                tool_choice: None,
                parallel_tool_calls: None,
                max_output_tokens: None,
                temperature: None,
                top_p: None,
                user: None,
                metadata: None,
                store: None,
                stream: None,
                truncation: None,
                service_tier: None,
                included_output: None,
                text: None,
                reasoning: None,
            },
        }
    }

    /// Sets the system instructions.
    pub fn instructions(self, v: &str) -> (b: ResponseRequestBuilder)
        ensures
            opt_view(b.current().instructions) == Some(v@),
            b.current() == (ResponseRequest { instructions: b.current().instructions, ..self.current() }),
    {
        ResponseRequestBuilder {
            inner: ResponseRequest { instructions: Some(v.to_string()), ..self.inner },
        }
    }

    /// Continues from an earlier response.
    pub fn previous_response_id(self, v: &str) -> (b: ResponseRequestBuilder)
        ensures
            opt_view(b.current().previous_response_id) == Some(v@),
            b.current() == (ResponseRequest {
                previous_response_id: b.current().previous_response_id,
                ..self.current()
            }),
    {
        ResponseRequestBuilder {
            inner: ResponseRequest { previous_response_id: Some(v.to_string()), ..self.inner },
        }
    }

    /// Sets the tools.
    pub fn tools(self, tools: Vec<ResponseTool>) -> (b: ResponseRequestBuilder)
        ensures
            b.current() == (ResponseRequest { tools: Some(tools), ..self.current() }),
    {
        ResponseRequestBuilder { inner: ResponseRequest { tools: Some(tools), ..self.inner } }
    }

    /// Sets how tools are picked.
    pub fn tool_choice(self, v: ResponseToolChoice) -> (b: ResponseRequestBuilder)
        ensures
            b.current() == (ResponseRequest { tool_choice: Some(v), ..self.current() }),
    {
        ResponseRequestBuilder { inner: ResponseRequest { tool_choice: Some(v), ..self.inner } }
    }

    /// Allows or forbids parallel tool calls.
    pub fn parallel_tool_calls(self, v: bool) -> (b: ResponseRequestBuilder)
        ensures
            b.current() == (ResponseRequest { parallel_tool_calls: Some(v), ..self.current() }),
    {
        ResponseRequestBuilder {
            inner: ResponseRequest { parallel_tool_calls: Some(v), ..self.inner },
        }
    }

    /// Sets the output token limit.
    pub fn max_output_tokens(self, v: i32) -> (b: ResponseRequestBuilder)
        ensures
            b.current() == (ResponseRequest { max_output_tokens: Some(v), ..self.current() }),
    {
        ResponseRequestBuilder {
            inner: ResponseRequest { max_output_tokens: Some(v), ..self.inner },
        }
    }

    /// Sets the temperature (bits of the `f32`).
    pub fn temperature(self, bits: u32) -> (b: ResponseRequestBuilder)
        ensures
            b.current() == (ResponseRequest { temperature: Some(bits), ..self.current() }),
    {
        ResponseRequestBuilder { inner: ResponseRequest { temperature: Some(bits), ..self.inner } }
    }

    /// Sets the nucleus cutoff (bits of the `f32`).
    pub fn top_p(self, bits: u32) -> (b: ResponseRequestBuilder)
        ensures
            b.current() == (ResponseRequest { top_p: Some(bits), ..self.current() }),
    {
        ResponseRequestBuilder { inner: ResponseRequest { top_p: Some(bits), ..self.inner } }
    }

    /// Sets the end-user identifier.
    pub fn user(self, v: &str) -> (b: ResponseRequestBuilder)
        ensures
            opt_view(b.current().user) == Some(v@),
            b.current() == (ResponseRequest { user: b.current().user, ..self.current() }),
    {
        ResponseRequestBuilder { inner: ResponseRequest { user: Some(v.to_string()), ..self.inner } }
    }

    /// Replaces the metadata entries.
    pub fn metadata(self, m: Vec<(String, String)>) -> (b: ResponseRequestBuilder)
        ensures
            b.current() == (ResponseRequest { metadata: Some(m), ..self.current() }),
    {
        ResponseRequestBuilder { inner: ResponseRequest { metadata: Some(m), ..self.inner } }
    }

    /// Asks the service to store the response.
    pub fn store(self, v: bool) -> (b: ResponseRequestBuilder)
        ensures
            b.current() == (ResponseRequest { store: Some(v), ..self.current() }),
    {
        ResponseRequestBuilder { inner: ResponseRequest { store: Some(v), ..self.inner } }
    }

    /// Sets the truncation strategy.
    pub fn truncation(self, v: &str) -> (b: ResponseRequestBuilder)
        ensures
            opt_view(b.current().truncation) == Some(v@),
            b.current() == (ResponseRequest { truncation: b.current().truncation, ..self.current() }),
    {
        ResponseRequestBuilder {
            inner: ResponseRequest { truncation: Some(v.to_string()), ..self.inner },
        }
    }

    /// Sets the service tier.
    pub fn service_tier(self, v: &str) -> (b: ResponseRequestBuilder)
        ensures
            opt_view(b.current().service_tier) == Some(v@),
            b.current() == (ResponseRequest { service_tier: b.current().service_tier, ..self.current() }),
    {
        ResponseRequestBuilder {
            inner: ResponseRequest { service_tier: Some(v.to_string()), ..self.inner },
        }
    }

    /// Sets which extra output the response carries.
    pub fn included_output(self, v: Vec<String>) -> (b: ResponseRequestBuilder)
        ensures
            b.current() == (ResponseRequest { included_output: Some(v), ..self.current() }),
    {
        ResponseRequestBuilder { inner: ResponseRequest { included_output: Some(v), ..self.inner } }
    }

    /// Sets the text output options.
    pub fn text(self, v: TextConfig) -> (b: ResponseRequestBuilder)
        ensures
            b.current() == (ResponseRequest { text: Some(v), ..self.current() }),
    {
        ResponseRequestBuilder { inner: ResponseRequest { text: Some(v), ..self.inner } }
    }

    /// Replaces the reasoning options.
    pub fn reasoning(self, v: ReasoningConfig) -> (b: ResponseRequestBuilder)
        ensures
            b.current() == (ResponseRequest { reasoning: Some(v), ..self.current() }),
    {
        ResponseRequestBuilder { inner: ResponseRequest { reasoning: Some(v), ..self.inner } }
    }

    /// Sets the reasoning effort, keeping a summary setting already made.
    pub fn reasoning_effort(self, e: ReasoningEffort) -> (b: ResponseRequestBuilder)
        ensures
            b.current().reasoning matches Some(r) && r.effort == Some(e) && opt_view(r.summary)
                == match self.current().reasoning {
                Some(old) => opt_view(old.summary),
                None => None,
            },
            b.current() == (ResponseRequest { reasoning: b.current().reasoning, ..self.current() }),
    {
        let summary = match &self.inner.reasoning {
            Some(r) => clone_opt(&r.summary),
            None => None,
        };
        ResponseRequestBuilder {
            inner: ResponseRequest {
                reasoning: Some(ReasoningConfig { effort: Some(e), summary }),
                ..self.inner
            },
        }
    }

    /// The request.
    pub fn build(self) -> (r: ResponseRequest)
        ensures
            r == self.current(),
    {
        self.inner
    }
}

// --- response ------------------------------------------------------------------

/// Lifecycle state of a response.
#[derive(Debug, Clone, Copy, PartialEq, Eq)]
pub enum ResponseStatus {
    Queued,
    InProgress,
    Completed,
    Failed,
    Cancelled,
    Incomplete,
}

/// Why a response failed.
#[derive(Debug, Clone)]
pub struct ResponseError {
    pub code: String,
    pub message: String,
}

/// A function call the model made.
#[derive(Debug, Clone)]
pub struct ResponseFunctionCall {
    pub id: String,
    pub call_id: String,
    pub name: String,
    /// The arguments, as JSON text.
    pub arguments: String,
    pub status: Option<String>,
}

/// A part of an output message.
#[derive(Debug, Clone)]
pub enum ResponseOutputContentPart {
    /// Text, with its annotations as JSON texts.
    OutputText { text: String, annotations: Vec<String> },
    Refusal { refusal: String },
    /// A part of a kind not modelled here.
    Other,
}

/// An item of a response's output.
#[derive(Debug, Clone)]
pub enum ResponseOutputItem {
    Message {
        id: String,
        status: Option<String>,
        role: String,
        content: Vec<ResponseOutputContentPart>,
    },
    FunctionCall(ResponseFunctionCall),
    FunctionCallOutput { id: String, call_id: String, output: String },
    /// Reasoning; the summary parts as JSON texts.
    Reasoning {
        id: String,
        status: Option<String>,
        summary: Vec<String>,
        encrypted_content: Option<String>,
    },
    /// A file search; the results as JSON texts.
    FileSearchCall { id: String, status: Option<String>, queries: Vec<String>, results: Vec<String> },
    WebSearchCall { id: String, status: Option<String> },
    /// An item of a kind not modelled here.
    Other,
}

/// A response of the Responses API.
#[derive(Debug, Clone)]
pub struct ResponseObject {
    pub id: String,
    pub object: String,
    pub created_at: i64,
    pub model: String,
    pub status: ResponseStatus,
    pub output: Vec<ResponseOutputItem>,
    pub usage: Option<Usage>,
    pub error: Option<ResponseError>,
    /// As JSON text.
    pub incomplete_details: Option<String>,
    pub previous_response_id: Option<String>,
    pub instructions: Option<String>,
    /// Bits of the `f32` temperature.
    pub temperature: Option<u32>,
    /// Bits of the `f32` nucleus cutoff.
    pub top_p: Option<u32>,
    pub max_output_tokens: Option<i32>,
    pub parallel_tool_calls: Option<bool>,
    /// As JSON text.
    pub reasoning: Option<String>,
    /// As JSON text.
    pub text: Option<String>,
    pub tools: Vec<ResponseTool>,
    pub metadata: Option<Vec<(String, String)>>,
}

/// The output texts of a message's parts, concatenated (other parts add nothing).
pub open spec fn parts_output_text(ps: Seq<ResponseOutputContentPart>) -> Seq<char>
    decreases ps.len(),
{
    if ps.len() == 0 {
        Seq::empty()
    } else {
        parts_output_text(ps.drop_last()) + match ps.last() {
            ResponseOutputContentPart::OutputText { text, .. } => text@,
            _ => Seq::empty(),
        }
    }
}

/// The output texts of all message items, concatenated in order.
pub open spec fn items_output_text(items: Seq<ResponseOutputItem>) -> Seq<char>
    decreases items.len(),
{
    if items.len() == 0 {
        Seq::empty()
    } else {
        items_output_text(items.drop_last()) + match items.last() {
            ResponseOutputItem::Message { content, .. } => parts_output_text(content@),
            _ => Seq::empty(),
        }
    }
}

/// The function calls among the items, in order.
pub open spec fn items_function_calls(items: Seq<ResponseOutputItem>) -> Seq<ResponseFunctionCall>
    decreases items.len(),
{
    if items.len() == 0 {
        Seq::empty()
    } else {
        items_function_calls(items.drop_last()) + match items.last() {
            ResponseOutputItem::FunctionCall(fc) => seq![fc],
            _ => Seq::empty(),
        }
    }
}

fn append_parts_text(out: &mut String, ps: &Vec<ResponseOutputContentPart>)
    ensures
        final(out)@ == old(out)@ + parts_output_text(ps@),
{
    let mut j: usize = 0;
    while j < ps.len()
        invariant
            j <= ps.len(),
            out@ == old(out)@ + parts_output_text(ps@.take(j as int)),
        decreases ps.len() - j,
    {
        assert(ps@.take(j + 1).drop_last() =~= ps@.take(j as int));
        match &ps[j] {
            ResponseOutputContentPart::OutputText { text, .. } => out.append(text.as_str()),
            _ => {},
        }
        j += 1;
    }
    assert(ps@.take(ps@.len() as int) =~= ps@);
}

impl ResponseObject {
    /// The assistant text of all message items, concatenated.
    pub fn output_text(&self) -> (s: String)
        ensures
            s@ == items_output_text(self.output@),
    {
        let mut out = String::new();
        let mut i: usize = 0;
        while i < self.output.len()
            invariant
                i <= self.output.len(),
                out@ == items_output_text(self.output@.take(i as int)),
            decreases self.output.len() - i,
        {
            assert(self.output@.take(i + 1).drop_last() =~= self.output@.take(i as int));
            match &self.output[i] {
                ResponseOutputItem::Message { content, .. } => append_parts_text(&mut out, content),
                _ => {},
            }
            i += 1;
        }
        assert(self.output@.take(self.output@.len() as int) =~= self.output@);
        out
    }

    /// Every function-call item, in order.
    pub fn function_calls(&self) -> (r: Vec<&ResponseFunctionCall>)
        ensures
            r@.len() == items_function_calls(self.output@).len(),
            forall|i: int|
                0 <= i < r@.len() ==> *#[trigger] r@[i] == items_function_calls(self.output@)[i],
    {
        let mut r: Vec<&ResponseFunctionCall> = Vec::new();
        let mut i: usize = 0;
        while i < self.output.len()
            invariant
                i <= self.output.len(),
                r@.len() == items_function_calls(self.output@.take(i as int)).len(),
                forall|k: int|
                    0 <= k < r@.len() ==> *#[trigger] r@[k] == items_function_calls(
                        self.output@.take(i as int),
                    )[k],
            decreases self.output.len() - i,
        {
            assert(self.output@.take(i + 1).drop_last() =~= self.output@.take(i as int));
            match &self.output[i] {
                ResponseOutputItem::FunctionCall(fc) => r.push(fc),
                _ => {},
            }
            i += 1;
        }
        assert(self.output@.take(self.output@.len() as int) =~= self.output@);
        r
    }
}

} // verus!

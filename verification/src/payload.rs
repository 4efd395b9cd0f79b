//! The Chat Completions request body, its builder, and shorthand templates.
//!
//! Sampling numbers (`temperature`, `top_p`, the penalties) are kept as the bit patterns of
//! their `f32` values; the library only carries them.
use vstd::prelude::*;
use vstd::string::*;
use crate::json::JsonValue;
use crate::keyed::{int_entries, put_entry, put_int, put_text, text_entries};
use crate::message::ChatMessage;
use crate::models::OpenAiModel;
use crate::tool::{FunctionCall, ToolChoice, ToolType};

verus! {

broadcast use vstd::string::group_string_axioms;

/// The preset ways the model may pick tools.
#[derive(Debug, Clone, Copy, PartialEq, Eq)]
pub enum ChatToolChoiceType {
    /// No tool may be called (`"none"`).
    NoTools,
    Auto,
    Required,
}

/// A specific function the model must call.
#[derive(Debug, Clone)]
pub struct ChatToolChoiceFunction {
    pub _type: ToolType,
    pub name: String,
}

/// How the model selects tools: a preset, or one named function.
#[derive(Debug, Clone)]
pub enum ChatToolChoice {
    Mode(ChatToolChoiceType),
    Function(ChatToolChoiceFunction),
}

impl ChatToolChoice {
    /// The model decides.
    pub fn auto() -> (c: ChatToolChoice)
        ensures
            c == ChatToolChoice::Mode(ChatToolChoiceType::Auto),
    {
        ChatToolChoice::Mode(ChatToolChoiceType::Auto)
    }

    /// No tool may be called.
    pub fn none() -> (c: ChatToolChoice)
        ensures
            c == ChatToolChoice::Mode(ChatToolChoiceType::NoTools),
    {
        ChatToolChoice::Mode(ChatToolChoiceType::NoTools)
    }

    /// Some tool must be called.
    pub fn required() -> (c: ChatToolChoice)
        ensures
            c == ChatToolChoice::Mode(ChatToolChoiceType::Required),
    {
        ChatToolChoice::Mode(ChatToolChoiceType::Required)
    }

    /// The named function must be called.
    pub fn function(name: &str) -> (c: ChatToolChoice)
        ensures
            c matches ChatToolChoice::Function(f) && f._type == ToolType::Function && f.name@
                == name@,
    {
        ChatToolChoice::Function(
            ChatToolChoiceFunction { _type: ToolType::Function, name: name.to_string() },
        )
    }
}

/// Reasoning effort of reasoning models.
#[derive(Debug, Clone, Copy, PartialEq, Eq)]
pub enum ReasoningEffort {
    Minimal,
    Low,
    Medium,
    High,
}

/// The wire name of an effort level.
pub open spec fn effort_name(e: ReasoningEffort) -> Seq<char> {
    match e {
        ReasoningEffort::Minimal => "minimal"@,
        ReasoningEffort::Low => "low"@,
        ReasoningEffort::Medium => "medium"@,
        ReasoningEffort::High => "high"@,
    }
}

impl ReasoningEffort {
    /// The wire name.
    pub fn as_str(&self) -> (s: &'static str)
        ensures
            s@ == effort_name(*self),
    {
        match self {
            ReasoningEffort::Minimal => "minimal",
            ReasoningEffort::Low => "low",
            ReasoningEffort::Medium => "medium",
            ReasoningEffort::High => "high",
        }
    }
}

/// A named JSON schema the output must follow.
#[derive(Debug)]
pub struct JsonSchemaSpec {
    pub name: String,
    pub schema: JsonValue,
    pub strict: Option<bool>,
}

/// The format the model's output must take.
#[derive(Debug)]
pub enum ResponseFormat {
    Text,
    JsonObject,
    JsonSchema(JsonSchemaSpec),
}

impl ResponseFormat {
    /// Strict output following the schema `schema`, named `name`.
    pub fn json_schema(name: &str, schema: JsonValue) -> (f: ResponseFormat)
        ensures
            f matches ResponseFormat::JsonSchema(s) && s.name@ == name@ && s.schema == schema
                && s.strict == Some(true),
    {
        ResponseFormat::JsonSchema(JsonSchemaSpec { name: name.to_string(), schema, strict: Some(true) })
    }
}

/// Streaming options.
#[derive(Debug, Clone, Copy, PartialEq, Eq)]
pub struct StreamOptions {
    /// Emit a final chunk with token usage.
    pub include_usage: Option<bool>,
}

/// A Chat Completions request body.
#[derive(Debug)]
pub struct ChatPayLoad {
    pub model: OpenAiModel,
    pub messages: Vec<ChatMessage>,
    pub tools: Option<Vec<ToolChoice>>,
    pub tool_choice: Option<ChatToolChoice>,
    pub parallel_tool_calls: Option<bool>,
    /// Bits of the `f32` penalty.
    pub frequency_penalty: Option<u32>,
    /// Token id to bias, in insertion order, each token once.
    pub logit_bias: Option<Vec<(String, i32)>>,
    pub logprobs: Option<bool>,
    pub top_logprobs: Option<i32>,
    pub max_tokens: Option<i32>,
    pub max_completion_tokens: Option<i32>,
    pub reasoning_effort: Option<ReasoningEffort>,
    pub n: Option<i32>,
    /// Bits of the `f32` penalty.
    pub presence_penalty: Option<u32>,
    pub response_format: Option<ResponseFormat>,
    pub seed: Option<i32>,
    pub service_tier: Option<String>,
    pub stop: Option<Vec<String>>,
    pub stream: Option<bool>,
    pub stream_options: Option<StreamOptions>,
    /// Bits of the `f32` temperature.
    pub temperature: Option<u32>,
    /// Bits of the `f32` nucleus cutoff.
    pub top_p: Option<u32>,
    /// Metadata entries, in insertion order, each key once.
    pub metadata: Option<Vec<(String, String)>>,
    pub store: Option<bool>,
    pub user: Option<String>,
}

/// A payload with only the model and messages set.
pub open spec fn is_plain(p: ChatPayLoad) -> bool {
    &&& p.tools is None && p.tool_choice is None && p.parallel_tool_calls is None
    &&& p.frequency_penalty is None && p.logit_bias is None && p.logprobs is None
    &&& p.top_logprobs is None && p.max_tokens is None && p.max_completion_tokens is None
    &&& p.reasoning_effort is None && p.n is None && p.presence_penalty is None
    &&& p.response_format is None && p.seed is None && p.service_tier is None
    &&& p.stop is None && p.stream is None && p.stream_options is None
    &&& p.temperature is None && p.top_p is None && p.metadata is None
    &&& p.store is None && p.user is None
}

impl ChatPayLoad {
    /// A request for `model` with `messages` and nothing else set.
    pub fn new(model: OpenAiModel, messages: Vec<ChatMessage>) -> (p: ChatPayLoad)
        ensures
            p.model == model,
            p.messages == messages,
            is_plain(p),
    {
        ChatPayLoad {
            model,
            messages,
            tools: None,
            tool_choice: None,
            parallel_tool_calls: None,
            frequency_penalty: None,
            logit_bias: None,
            logprobs: None,
            top_logprobs: None,
            max_tokens: None,
            max_completion_tokens: None,
            reasoning_effort: None,
            n: None,
            presence_penalty: None,
            response_format: None,
            seed: None,
            service_tier: None,
            stop: None,
            stream: None,
            stream_options: None,
            temperature: None,
            top_p: None,
            metadata: None,
            store: None,
            user: None,
        }
    }
}

impl ChatPayLoad {
    /// The payload with streaming turned on (as a streamed request sends it).
    pub fn streaming(self) -> (p: ChatPayLoad)
        ensures
            p == (ChatPayLoad { stream: Some(true), ..self }),
    {
        ChatPayLoad { stream: Some(true), ..self }
    }
}

/// `ts` wraps the functions `fs`, in order, each as a function tool.
pub open spec fn wraps_functions(ts: Seq<ToolChoice>, fs: Seq<FunctionCall>) -> bool {
    &&& ts.len() == fs.len()
    &&& forall|i: int|
        0 <= i < ts.len() ==> #[trigger] ts[i].function == fs[i] && ts[i]._type
            == ToolType::Function
}

/// Wraps each function as a function tool, keeping the order.
pub fn function_tools(functions: Vec<FunctionCall>) -> (ts: Vec<ToolChoice>)
    ensures
        wraps_functions(ts@, functions@),
{
    let ghost fs = functions@;
    let mut rest = functions;
    let mut ts: Vec<ToolChoice> = Vec::new();
    while rest.len() > 0
        invariant
            ts.len() + rest.len() == fs.len(),
            rest@ == fs.subrange(ts.len() as int, fs.len() as int),
            forall|i: int|
                0 <= i < ts.len() ==> #[trigger] ts@[i].function == fs[i] && ts@[i]._type
                    == ToolType::Function,
        decreases rest.len(),
    {
        let f = rest.remove(0);
        ts.push(ToolChoice { function: f, _type: ToolType::Function });
    }
    ts
}

/// Step-by-step construction of a `ChatPayLoad`.
pub struct PayLoadBuilder {
    payload: ChatPayLoad,
}

impl PayLoadBuilder {
    /// The payload built so far.
    pub closed spec fn current(&self) -> ChatPayLoad {
        self.payload
    }

    /// A builder for `model` with no messages and nothing else set.
    pub fn new(model: OpenAiModel) -> (b: PayLoadBuilder)
        ensures
            b.current().model == model,
            b.current().messages@.len() == 0,
            is_plain(b.current()),
    {
        PayLoadBuilder { payload: ChatPayLoad::new(model, Vec::new()) }
    }

    /// Replaces the message list.
    pub fn messages(self, messages: Vec<ChatMessage>) -> (b: PayLoadBuilder)
        ensures
            b.current() == (ChatPayLoad { messages, ..self.current() }),
    {
        PayLoadBuilder { payload: ChatPayLoad { messages, ..self.payload } }
    }

    /// Appends one message.
    pub fn add_message(self, message: ChatMessage) -> (b: PayLoadBuilder)
        ensures
            b.current().messages@ == self.current().messages@.push(message),
            b.current() == (ChatPayLoad { messages: b.current().messages, ..self.current() }),
    {
        let mut p = self.payload;
        p.messages.push(message);
        PayLoadBuilder { payload: p }
    }

    /// Sets the function tools, each wrapped as a function tool.
    pub fn tools(self, tools: Vec<FunctionCall>) -> (b: PayLoadBuilder)
        ensures
            b.current().tools matches Some(ts) && wraps_functions(ts@, tools@),
            b.current() == (ChatPayLoad { tools: b.current().tools, ..self.current() }),
    {
        let ts = function_tools(tools);
        PayLoadBuilder { payload: ChatPayLoad { tools: Some(ts), ..self.payload } }
    }

    /// Sets how tools are chosen.
    pub fn tool_choice(self, tool_choice: ChatToolChoice) -> (b: PayLoadBuilder)
        ensures
            b.current() == (ChatPayLoad { tool_choice: Some(tool_choice), ..self.current() }),
    {
        PayLoadBuilder { payload: ChatPayLoad { tool_choice: Some(tool_choice), ..self.payload } }
    }

    /// Allows or forbids parallel tool calls.
    pub fn parallel_tool_calls(self, v: bool) -> (b: PayLoadBuilder)
        ensures
            b.current() == (ChatPayLoad { parallel_tool_calls: Some(v), ..self.current() }),
    {
        PayLoadBuilder { payload: ChatPayLoad { parallel_tool_calls: Some(v), ..self.payload } }
    }

    /// Sets the frequency penalty (bits of the `f32`).
    pub fn frequency_penalty(self, bits: u32) -> (b: PayLoadBuilder)
        ensures
            b.current() == (ChatPayLoad { frequency_penalty: Some(bits), ..self.current() }),
    {
        PayLoadBuilder { payload: ChatPayLoad { frequency_penalty: Some(bits), ..self.payload } }
    }

    /// Replaces the logit bias entries.
    pub fn logit_bias(self, map: Vec<(String, i32)>) -> (b: PayLoadBuilder)
        ensures
            b.current() == (ChatPayLoad { logit_bias: Some(map), ..self.current() }),
    {
        PayLoadBuilder { payload: ChatPayLoad { logit_bias: Some(map), ..self.payload } }
    }

    /// Sets the bias of one token, creating the entries if there are none.
    pub fn logit_bias_entry(self, token_id: &str, bias: i32) -> (b: PayLoadBuilder)
        ensures
            b.current().logit_bias matches Some(m) && int_entries(m@) == put_entry(
                match self.current().logit_bias {
                    Some(old) => int_entries(old@),
                    None => Seq::empty(),
                },
                token_id@,
                bias,
            ),
            b.current() == (ChatPayLoad { logit_bias: b.current().logit_bias, ..self.current() }),
    {
        let mut p = self.payload;
        let mut m = match p.logit_bias {
            Some(m) => m,
            None => Vec::new(),
        };
        proof {
            assert(self.current().logit_bias is None ==> int_entries(m@) =~= Seq::empty());
        }
        put_int(&mut m, token_id.to_string(), bias);
        PayLoadBuilder { payload: ChatPayLoad { logit_bias: Some(m), ..p } }
    }

    /// Asks for log probabilities.
    pub fn logprobs(self, v: bool) -> (b: PayLoadBuilder)
        ensures
            b.current() == (ChatPayLoad { logprobs: Some(v), ..self.current() }),
    {
        PayLoadBuilder { payload: ChatPayLoad { logprobs: Some(v), ..self.payload } }
    }

    /// How many alternatives per position to report.
    pub fn top_logprobs(self, v: i32) -> (b: PayLoadBuilder)
        ensures
            b.current() == (ChatPayLoad { top_logprobs: Some(v), ..self.current() }),
    {
        PayLoadBuilder { payload: ChatPayLoad { top_logprobs: Some(v), ..self.payload } }
    }

    /// Sets the (legacy) token limit.
    pub fn max_tokens(self, v: i32) -> (b: PayLoadBuilder)
        ensures
            b.current() == (ChatPayLoad { max_tokens: Some(v), ..self.current() }),
    {
        PayLoadBuilder { payload: ChatPayLoad { max_tokens: Some(v), ..self.payload } }
    }

    /// Sets the completion token limit.
    pub fn max_completion_tokens(self, v: i32) -> (b: PayLoadBuilder)
        ensures
            b.current() == (ChatPayLoad { max_completion_tokens: Some(v), ..self.current() }),
    {
        PayLoadBuilder { payload: ChatPayLoad { max_completion_tokens: Some(v), ..self.payload } }
    }

    /// Sets the reasoning effort.
    pub fn reasoning_effort(self, v: ReasoningEffort) -> (b: PayLoadBuilder)
        ensures
            b.current() == (ChatPayLoad { reasoning_effort: Some(v), ..self.current() }),
    {
        PayLoadBuilder { payload: ChatPayLoad { reasoning_effort: Some(v), ..self.payload } }
    }

    /// How many completions to generate.
    pub fn n(self, v: i32) -> (b: PayLoadBuilder)
        ensures
            b.current() == (ChatPayLoad { n: Some(v), ..self.current() }),
    {
        PayLoadBuilder { payload: ChatPayLoad { n: Some(v), ..self.payload } }
    }

    /// Sets the presence penalty (bits of the `f32`).
    pub fn presence_penalty(self, bits: u32) -> (b: PayLoadBuilder)
        ensures
            b.current() == (ChatPayLoad { presence_penalty: Some(bits), ..self.current() }),
    {
        PayLoadBuilder { payload: ChatPayLoad { presence_penalty: Some(bits), ..self.payload } }
    }

    /// Sets the output format.
    pub fn response_format(self, v: ResponseFormat) -> (b: PayLoadBuilder)
        ensures
            b.current() == (ChatPayLoad { response_format: Some(v), ..self.current() }),
    {
        PayLoadBuilder { payload: ChatPayLoad { response_format: Some(v), ..self.payload } }
    }

    /// Sets the sampling seed.
    pub fn seed(self, v: i32) -> (b: PayLoadBuilder)
        ensures
            b.current() == (ChatPayLoad { seed: Some(v), ..self.current() }),
    {
        PayLoadBuilder { payload: ChatPayLoad { seed: Some(v), ..self.payload } }
    }

    /// Sets the service tier.
    pub fn service_tier(self, v: &str) -> (b: PayLoadBuilder)
        ensures
            b.current().service_tier matches Some(s) && s@ == v@,
            b.current() == (ChatPayLoad { service_tier: b.current().service_tier, ..self.current() }),
    {
        PayLoadBuilder { payload: ChatPayLoad { service_tier: Some(v.to_string()), ..self.payload } }
    }

    /// Sets the stop strings.
    pub fn stop(self, v: Vec<String>) -> (b: PayLoadBuilder)
        ensures
            b.current() == (ChatPayLoad { stop: Some(v), ..self.current() }),
    {
        PayLoadBuilder { payload: ChatPayLoad { stop: Some(v), ..self.payload } }
    }

    /// Turns streaming on or off.
    pub fn stream(self, v: bool) -> (b: PayLoadBuilder)
        ensures
            b.current() == (ChatPayLoad { stream: Some(v), ..self.current() }),
    {
        PayLoadBuilder { payload: ChatPayLoad { stream: Some(v), ..self.payload } }
    }

    /// Replaces the stream options.
    pub fn stream_options(self, v: StreamOptions) -> (b: PayLoadBuilder)
        ensures
            b.current() == (ChatPayLoad { stream_options: Some(v), ..self.current() }),
    {
        PayLoadBuilder { payload: ChatPayLoad { stream_options: Some(v), ..self.payload } }
    }

    /// Sets the stream options to report usage, or not.
    pub fn include_usage(self, v: bool) -> (b: PayLoadBuilder)
        ensures
            b.current() == (ChatPayLoad {
                stream_options: Some(StreamOptions { include_usage: Some(v) }),
                ..self.current()
            }),
    {
        PayLoadBuilder {
            payload: ChatPayLoad {
                stream_options: Some(StreamOptions { include_usage: Some(v) }),
                ..self.payload
            },
        }
    }

    /// Sets the temperature (bits of the `f32`).
    pub fn temperature(self, bits: u32) -> (b: PayLoadBuilder)
        ensures
            b.current() == (ChatPayLoad { temperature: Some(bits), ..self.current() }),
    {
        PayLoadBuilder { payload: ChatPayLoad { temperature: Some(bits), ..self.payload } }
    }

    /// Sets the nucleus cutoff (bits of the `f32`).
    pub fn top_p(self, bits: u32) -> (b: PayLoadBuilder)
        ensures
            b.current() == (ChatPayLoad { top_p: Some(bits), ..self.current() }),
    {
        PayLoadBuilder { payload: ChatPayLoad { top_p: Some(bits), ..self.payload } }
    }

    /// Replaces the metadata entries.
    pub fn metadata(self, v: Vec<(String, String)>) -> (b: PayLoadBuilder)
        ensures
            b.current() == (ChatPayLoad { metadata: Some(v), ..self.current() }),
    {
        PayLoadBuilder { payload: ChatPayLoad { metadata: Some(v), ..self.payload } }
    }

    /// Sets one metadata entry, creating the entries if there are none.
    pub fn metadata_entry(self, k: &str, v: &str) -> (b: PayLoadBuilder)
        ensures
            b.current().metadata matches Some(m) && text_entries(m@) == put_entry(
                match self.current().metadata {
                    Some(old) => text_entries(old@),
                    None => Seq::empty(),
                },
                k@,
                v@,
            ),
            b.current() == (ChatPayLoad { metadata: b.current().metadata, ..self.current() }),
    {
        let p = self.payload;
        let mut m = match p.metadata {
            Some(m) => m,
            None => Vec::new(),
        };
        proof {
            assert(self.current().metadata is None ==> text_entries(m@) =~= Seq::empty());
        }
        put_text(&mut m, k.to_string(), v.to_string());
        PayLoadBuilder { payload: ChatPayLoad { metadata: Some(m), ..p } }
    }

    /// Asks the service to store the completion.
    pub fn store(self, v: bool) -> (b: PayLoadBuilder)
        ensures
            b.current() == (ChatPayLoad { store: Some(v), ..self.current() }),
    {
        PayLoadBuilder { payload: ChatPayLoad { store: Some(v), ..self.payload } }
    }

    /// Sets the end-user identifier.
    pub fn user(self, user: &str) -> (b: PayLoadBuilder)
        ensures
            b.current().user matches Some(s) && s@ == user@,
            b.current() == (ChatPayLoad { user: b.current().user, ..self.current() }),
    {
        PayLoadBuilder { payload: ChatPayLoad { user: Some(user.to_string()), ..self.payload } }
    }

    /// The finished payload.
    pub fn build(self) -> (p: ChatPayLoad)
        ensures
            p == self.current(),
    {
        self.payload
    }
}

/// A chat request for a model and messages.
pub struct QuickChatTemplate {
    pub model: OpenAiModel,
    pub messages: Vec<ChatMessage>,
}

impl QuickChatTemplate {
    /// The messages for the default model, `gpt-4o-mini`.
    pub fn default(messages: Vec<ChatMessage>) -> (t: QuickChatTemplate)
        ensures
            t.model == OpenAiModel::GPT4oMini,
            t.messages == messages,
    {
        QuickChatTemplate { model: OpenAiModel::GPT4oMini, messages }
    }

    /// The payload: model and messages, nothing else set.
    pub fn to_payload(self) -> (p: ChatPayLoad)
        ensures
            p.model == self.model,
            p.messages == self.messages,
            is_plain(p),
    {
        ChatPayLoad::new(self.model, self.messages)
    }
}

/// A function-calling request: tools, and optionally the function that must be called.
pub struct QuickFunctionCallTemplate {
    pub model: OpenAiModel,
    pub messages: Vec<ChatMessage>,
    pub tools: Option<Vec<ToolChoice>>,
    pub tool_choice: Option<FunctionCall>,
}

impl QuickFunctionCallTemplate {
    /// The functions as tools for the default model, `gpt-4o-mini`.
    pub fn default(
        messages: Vec<ChatMessage>,
        functions: Vec<FunctionCall>,
        tool_choice: Option<FunctionCall>,
    ) -> (t: QuickFunctionCallTemplate)
        ensures
            t.model == OpenAiModel::GPT4oMini,
            t.messages == messages,
            t.tools matches Some(ts) && wraps_functions(ts@, functions@),
            t.tool_choice == tool_choice,
    {
        let tools = function_tools(functions);
        QuickFunctionCallTemplate { model: OpenAiModel::GPT4oMini, messages, tools: Some(tools), tool_choice }
    }
}

/// Shorthand request shapes.
pub enum PayLoadTemplates {
    Chat(QuickChatTemplate),
    FunctionCall(QuickFunctionCallTemplate),
}

/// The tool choice of a function-calling template: the given function by name, else auto.
pub open spec fn template_choice(c: ChatToolChoice, f: Option<FunctionCall>) -> bool {
    match f {
        Some(fc) => c matches ChatToolChoice::Function(x) && x._type == ToolType::Function
            && x.name@ == fc.name@,
        None => c == ChatToolChoice::Mode(ChatToolChoiceType::Auto),
    }
}

impl PayLoadTemplates {
    /// A chat template for the default model.
    pub fn default(messages: Vec<ChatMessage>) -> (t: PayLoadTemplates)
        ensures
            t matches PayLoadTemplates::Chat(c) && c.model == OpenAiModel::GPT4oMini && c.messages
                == messages,
    {
        PayLoadTemplates::Chat(QuickChatTemplate::default(messages))
    }

    /// The payload of the template: for a function-calling one, its tools and a tool choice.
    pub fn to_payload(self) -> (p: ChatPayLoad)
        ensures
            match self {
                PayLoadTemplates::Chat(t) => p.model == t.model && p.messages == t.messages
                    && is_plain(p),
                PayLoadTemplates::FunctionCall(t) => {
                    &&& p.model == t.model
                    &&& p.messages == t.messages
                    &&& p.tools == t.tools
                    &&& p.tool_choice matches Some(c) && template_choice(c, t.tool_choice)
                    &&& is_plain(ChatPayLoad { tools: None, tool_choice: None, ..p })
                },
            },
    {
        match self {
            PayLoadTemplates::Chat(template) => template.to_payload(),
            PayLoadTemplates::FunctionCall(template) => {
                let QuickFunctionCallTemplate { model, messages, tools, tool_choice } = template;
                let mut payload = ChatPayLoad::new(model, messages);
                payload.tools = tools;
                payload.tool_choice = Some(
                    match tool_choice {
                        Some(fc) => ChatToolChoice::function(fc.name.as_str()),
                        None => ChatToolChoice::auto(),
                    },
                );
                payload
            },
        }
    }
}

} // verus!

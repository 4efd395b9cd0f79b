//! Chat completion responses: choices, usage, tool calls, and what a caller reads from them.
use vstd::prelude::*;
use vstd::string::*;
use crate::message::{
    is_text, role_of_name, ChatContent, ChatMessage, ChatMessageRole, ToolCall, ToolCallFunction,
    ToolCallType,
};
use crate::text::{clone_opt, clone_or_empty, opt_view, or_empty};

verus! {

broadcast use vstd::string::group_string_axioms;

/// Cached and audio token counts of a prompt.
#[derive(Debug, Clone, Copy, PartialEq, Eq)]
pub struct PromptTokensDetails {
    pub cached_tokens: i32,
    pub audio_tokens: i32,
}

impl Default for PromptTokensDetails {
    fn default() -> (d: PromptTokensDetails)
        ensures
            d.cached_tokens == 0 && d.audio_tokens == 0,
    {
        PromptTokensDetails { cached_tokens: 0, audio_tokens: 0 }
    }
}

/// Breakdown of the tokens of a completion.
#[derive(Debug, Clone, Copy, PartialEq, Eq)]
pub struct CompletionTokensDetails {
    pub reasoning_tokens: i32,
    pub audio_tokens: i32,
    pub accepted_prediction_tokens: i32,
    pub rejected_prediction_tokens: i32,
}

impl Default for CompletionTokensDetails {
    fn default() -> (d: CompletionTokensDetails)
        ensures
            d.reasoning_tokens == 0,
            d.audio_tokens == 0,
            d.accepted_prediction_tokens == 0,
            d.rejected_prediction_tokens == 0,
    {
        CompletionTokensDetails {
            reasoning_tokens: 0,
            audio_tokens: 0,
            accepted_prediction_tokens: 0,
            rejected_prediction_tokens: 0,
        }
    }
}

/// Token accounting of a request.
#[derive(Debug, Clone, Copy, PartialEq, Eq)]
pub struct Usage {
    pub completion_tokens: Option<i32>,
    pub prompt_tokens: i32,
    pub total_tokens: i32,
    pub prompt_tokens_details: Option<PromptTokensDetails>,
    pub completion_tokens_details: Option<CompletionTokensDetails>,
}

/// Name and arguments of a function the model called.
#[derive(Debug, Clone)]
pub struct FunctionCallRes {
    pub name: String,
    /// The arguments, as compact JSON text.
    pub arguments: String,
}

/// A tool call in a response message.
#[derive(Debug, Clone)]
pub struct ToolCallRes {
    pub id: Option<String>,
    pub type_: Option<String>,
    pub function: FunctionCallRes,
}

impl ToolCallRes {
    /// The call's arguments (JSON text).
    pub fn get_args(&self) -> (a: String)
        ensures
            a@ == self.function.arguments@,
    {
        self.function.arguments.clone()
    }
}

/// The assistant message of a choice.
#[derive(Debug, Clone)]
pub struct AiResponseMessage {
    pub content: Option<String>,
    pub role: String,
    pub refusal: Option<String>,
    pub tool_calls: Option<Vec<ToolCallRes>>,
    /// Audio output, as JSON text.
    pub audio: Option<String>,
}

/// One completion choice.
#[derive(Debug, Clone)]
pub struct Choice {
    pub finish_reason: String,
    pub index: i32,
    pub message: AiResponseMessage,
    /// Log probabilities, as JSON text.
    pub logprobs: Option<String>,
}

/// A chat completion response.
#[derive(Debug, Clone)]
pub struct AiMsgResponse {
    pub choices: Vec<Choice>,
    pub created: i64,
    pub id: String,
    pub model: String,
    pub object: String,
    pub usage: Usage,
    pub system_fingerprint: Option<String>,
    pub service_tier: Option<String>,
}

/// `t` is the message tool call made from the response tool call `r`: a missing id becomes
/// empty, the kind is a function, name and arguments are kept.
pub open spec fn is_call_of(t: ToolCall, r: ToolCallRes) -> bool {
    &&& t.id@ == or_empty(r.id)
    &&& t.type_ == ToolCallType::Function
    &&& t.function.name@ == r.function.name@
    &&& t.function.arguments@ == r.function.arguments@
}

/// The message tool calls correspond one to one, in order, to the response tool calls.
pub open spec fn calls_of(ts: Seq<ToolCall>, rs: Seq<ToolCallRes>) -> bool {
    &&& ts.len() == rs.len()
    &&& forall|i: int| 0 <= i < ts.len() ==> #[trigger] is_call_of(ts[i], rs[i])
}

/// `m` is the chat message made from the response message `c`, ready to be sent back.
pub open spec fn is_message_of(m: ChatMessage, c: AiResponseMessage) -> bool {
    &&& m.role == role_of_name(c.role@)
    &&& is_text(m.content, or_empty(c.content))
    &&& m.name is None
    &&& m.tool_call_id is None
    &&& match c.tool_calls {
        None => m.tool_calls is None,
        Some(rs) => m.tool_calls matches Some(ts) && calls_of(ts@, rs@),
    }
    &&& opt_view(m.refusal) == opt_view(c.refusal)
}

/// The tool calls of a choice (none when absent).
pub open spec fn choice_calls(c: Choice) -> Seq<ToolCallRes> {
    match c.message.tool_calls {
        Some(v) => v@,
        None => Seq::empty(),
    }
}

/// The tool calls of all choices, in order.
pub open spec fn all_calls(cs: Seq<Choice>) -> Seq<ToolCallRes>
    decreases cs.len(),
{
    if cs.len() == 0 {
        Seq::empty()
    } else {
        all_calls(cs.drop_last()) + choice_calls(cs.last())
    }
}

/// Two function calls with equal name and arguments.
pub open spec fn same_call(a: FunctionCallRes, b: FunctionCallRes) -> bool {
    a.name@ == b.name@ && a.arguments@ == b.arguments@
}

/// The first tool call of a choice, if it has one.
pub open spec fn first_call(c: Choice) -> Option<ToolCallRes> {
    match c.message.tool_calls {
        Some(v) => if v@.len() > 0 {
            Some(v@[0])
        } else {
            None
        },
        None => None,
    }
}

fn call_of(r: &ToolCallRes) -> (t: ToolCall)
    ensures
        is_call_of(t, *r),
{
    ToolCall {
        id: clone_or_empty(&r.id),
        type_: ToolCallType::Function,
        function: ToolCallFunction {
            name: r.function.name.clone(),
            arguments: r.function.arguments.clone(),
        },
    }
}

fn message_of(c: &AiResponseMessage) -> (m: ChatMessage)
    ensures
        is_message_of(m, *c),
{
    let role = ChatMessageRole::from_name(c.role.as_str());
    let mut m = ChatMessage::new(role, ChatContent::Text(clone_or_empty(&c.content)));
    match &c.tool_calls {
        Some(rs) => {
            let mut ts: Vec<ToolCall> = Vec::new();
            let mut i: usize = 0;
            while i < rs.len()
                invariant
                    i <= rs.len(),
                    ts.len() == i,
                    forall|j: int| 0 <= j < i ==> #[trigger] is_call_of(ts@[j], rs@[j]),
                decreases rs.len() - i,
            {
                ts.push(call_of(&rs[i]));
                i += 1;
            }
            m.tool_calls = Some(ts);
        },
        None => {},
    }
    m.refusal = clone_opt(&c.refusal);
    m
}

impl AiMsgResponse {
    /// The choices as chat messages, one per choice and in order, to send back in a next
    /// request.
    pub fn get_messages(&self) -> (ms: Vec<ChatMessage>)
        ensures
            ms.len() == self.choices.len(),
            forall|i: int|
                0 <= i < ms.len() ==> #[trigger] is_message_of(ms@[i], self.choices@[i].message),
    {
        let mut ms: Vec<ChatMessage> = Vec::new();
        let mut i: usize = 0;
        while i < self.choices.len()
            invariant
                i <= self.choices.len(),
                ms.len() == i,
                forall|j: int|
                    0 <= j < i ==> #[trigger] is_message_of(ms@[j], self.choices@[j].message),
            decreases self.choices.len() - i,
        {
            ms.push(message_of(&self.choices[i].message));
            i += 1;
        }
        ms
    }

    /// The text of the last choice's message, if there is a last choice with text.
    pub fn get_last_msg_text(&self) -> (r: Option<String>)
        ensures
            self.choices.len() == 0 ==> r is None,
            self.choices.len() > 0 ==> opt_view(r) == opt_view(self.choices@.last().message.content),
    {
        let n = self.choices.len();
        if n == 0 {
            None
        } else {
            clone_opt(&self.choices[n - 1].message.content)
        }
    }

    /// The function calls of all choices, in order.
    pub fn get_tool_calls(&self) -> (r: Vec<FunctionCallRes>)
        ensures
            r.len() == all_calls(self.choices@).len(),
            forall|i: int|
                0 <= i < r.len() ==> #[trigger] same_call(
                    r@[i],
                    all_calls(self.choices@)[i].function,
                ),
    {
        let mut r: Vec<FunctionCallRes> = Vec::new();
        let mut i: usize = 0;
        while i < self.choices.len()
            invariant
                i <= self.choices.len(),
                r.len() == all_calls(self.choices@.take(i as int)).len(),
                forall|k: int|
                    0 <= k < r.len() ==> #[trigger] same_call(
                        r@[k],
                        all_calls(self.choices@.take(i as int))[k].function,
                    ),
            decreases self.choices.len() - i,
        {
            let ghost before = all_calls(self.choices@.take(i as int));
            assert(self.choices@.take(i + 1).drop_last() =~= self.choices@.take(i as int));
            assert(all_calls(self.choices@.take(i + 1)) == before + choice_calls(
                self.choices@[i as int],
            ));
            match &self.choices[i].message.tool_calls {
                Some(v) => {
                    let mut j: usize = 0;
                    while j < v.len()
                        invariant
                            j <= v.len(),
                            r.len() == before.len() + j,
                            forall|k: int|
                                0 <= k < r.len() ==> #[trigger] same_call(
                                    r@[k],
                                    (before + v@)[k].function,
                                ),
                        decreases v.len() - j,
                    {
                        r.push(
                            FunctionCallRes {
                                name: v[j].function.name.clone(),
                                arguments: v[j].function.arguments.clone(),
                            },
                        );
                        j += 1;
                    }
                },
                None => {
                    assert(before + choice_calls(self.choices@[i as int]) =~= before);
                },
            }
            i += 1;
        }
        assert(self.choices@.take(self.choices@.len() as int) =~= self.choices@);
        r
    }

    /// The arguments of the first tool call of the first choice.
    pub fn get_first_tool_call_args(&self) -> (r: Result<String, String>)
        ensures
            self.choices.len() == 0 ==> (r matches Err(e) && e@ == "No choices found"@),
            self.choices.len() > 0 && first_call(self.choices@[0]) is None ==> (r matches Err(e)
                && e@ == "No tool calls found"@),
            self.choices.len() > 0 && first_call(self.choices@[0]) is Some ==> (r matches Ok(a)
                && a@ == first_call(self.choices@[0])->0.function.arguments@),
    {
        if self.choices.len() == 0 {
            return Err("No choices found".to_string());
        }
        match &self.choices[0].message.tool_calls {
            Some(v) => {
                if v.len() > 0 {
                    Ok(v[0].get_args())
                } else {
                    Err("No tool calls found".to_string())
                }
            },
            None => Err("No tool calls found".to_string()),
        }
    }
}

} // verus!

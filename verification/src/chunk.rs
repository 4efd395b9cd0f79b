//! Streamed chat completion chunks, and how a stream of them is assembled into one answer.
use vstd::prelude::*;
use vstd::string::*;
use crate::output::Usage;
use crate::text::{clone_opt, opt_view, or_empty};

verus! {

broadcast use vstd::string::group_string_axioms;

/// A piece of a function call's name and arguments.
#[derive(Debug, Clone)]
pub struct FunctionDelta {
    pub name: Option<String>,
    pub arguments: Option<String>,
}

impl Default for FunctionDelta {
    fn default() -> (d: FunctionDelta)
        ensures
            d.name is None && d.arguments is None,
    {
        FunctionDelta { name: None, arguments: None }
    }
}

/// A piece of the tool call at position `index`.
#[derive(Debug, Clone)]
pub struct ToolCallDelta {
    pub index: i32,
    pub id: Option<String>,
    pub type_: Option<String>,
    pub function: Option<FunctionDelta>,
}

impl Default for ToolCallDelta {
    fn default() -> (d: ToolCallDelta)
        ensures
            d.index == 0 && d.id is None && d.type_ is None && d.function is None,
    {
        ToolCallDelta { index: 0, id: None, type_: None, function: None }
    }
}

/// What one chunk adds to the assistant message.
#[derive(Debug, Clone)]
pub struct AssistantDelta {
    pub role: Option<String>,
    pub content: Option<String>,
    pub refusal: Option<String>,
    pub tool_calls: Option<Vec<ToolCallDelta>>,
}

impl Default for AssistantDelta {
    fn default() -> (d: AssistantDelta)
        ensures
            d.role is None && d.content is None && d.refusal is None && d.tool_calls is None,
    {
        AssistantDelta { role: None, content: None, refusal: None, tool_calls: None }
    }
}

/// One choice of a chunk.
#[derive(Debug, Clone)]
pub struct ChunkChoice {
    pub index: i32,
    pub delta: AssistantDelta,
    pub finish_reason: Option<String>,
    /// Log probabilities, as JSON text.
    pub logprobs: Option<String>,
}

/// One event of a streamed chat completion.
#[derive(Debug, Clone)]
pub struct ChatCompletionChunk {
    pub id: String,
    pub object: String,
    pub created: i64,
    pub model: String,
    pub system_fingerprint: Option<String>,
    pub service_tier: Option<String>,
    pub choices: Vec<ChunkChoice>,
    /// Present on the final chunk when usage was asked for.
    pub usage: Option<Usage>,
}

/// The content pieces of the choices, concatenated (choices without content add nothing).
pub open spec fn delta_texts(cs: Seq<ChunkChoice>) -> Seq<char>
    decreases cs.len(),
{
    if cs.len() == 0 {
        Seq::empty()
    } else {
        delta_texts(cs.drop_last()) + or_empty(cs.last().delta.content)
    }
}

impl ChatCompletionChunk {
    /// The content of all choices, concatenated.
    pub fn delta_text(&self) -> (s: String)
        ensures
            s@ == delta_texts(self.choices@),
    {
        let mut s = String::new();
        let mut i: usize = 0;
        while i < self.choices.len()
            invariant
                i <= self.choices.len(),
                s@ == delta_texts(self.choices@.take(i as int)),
            decreases self.choices.len() - i,
        {
            assert(self.choices@.take(i + 1).drop_last() =~= self.choices@.take(i as int));
            match &self.choices[i].delta.content {
                Some(t) => s.append(t.as_str()),
                None => {},
            }
            i += 1;
        }
        assert(self.choices@.take(self.choices@.len() as int) =~= self.choices@);
        s
    }
}

/// A tool call assembled from deltas so far.
#[derive(Debug, Clone)]
pub struct CollectedToolCall {
    pub id: Option<String>,
    pub name: Option<String>,
    pub arguments: String,
}

/// A tool call so far, as values.
pub struct ToolCallSoFar {
    pub id: Option<Seq<char>>,
    pub name: Option<Seq<char>>,
    pub arguments: Seq<char>,
}

impl View for CollectedToolCall {
    type V = ToolCallSoFar;

    open spec fn view(&self) -> ToolCallSoFar {
        ToolCallSoFar { id: opt_view(self.id), name: opt_view(self.name), arguments: self.arguments@ }
    }
}

impl Default for CollectedToolCall {
    fn default() -> (t: CollectedToolCall)
        ensures
            t@ == empty_call(),
    {
        CollectedToolCall { id: None, name: None, arguments: String::new() }
    }
}

/// The assembled output of a streamed chat completion.
#[derive(Debug, Clone)]
pub struct CollectedChatStream {
    pub content: String,
    pub refusal: Option<String>,
    pub tool_calls: Vec<CollectedToolCall>,
    pub finish_reason: Option<String>,
    pub model: Option<String>,
    pub id: Option<String>,
}

/// The assembled output so far, as values.
pub struct CollectedSoFar {
    pub content: Seq<char>,
    pub refusal: Option<Seq<char>>,
    pub tool_calls: Seq<ToolCallSoFar>,
    pub finish_reason: Option<Seq<char>>,
    pub model: Option<Seq<char>>,
    pub id: Option<Seq<char>>,
}

/// The values of a list of assembled tool calls.
pub open spec fn calls_view(v: Seq<CollectedToolCall>) -> Seq<ToolCallSoFar> {
    v.map_values(|t: CollectedToolCall| t@)
}

impl View for CollectedChatStream {
    type V = CollectedSoFar;

    open spec fn view(&self) -> CollectedSoFar {
        CollectedSoFar {
            content: self.content@,
            refusal: opt_view(self.refusal),
            tool_calls: calls_view(self.tool_calls@),
            finish_reason: opt_view(self.finish_reason),
            model: opt_view(self.model),
            id: opt_view(self.id),
        }
    }
}

/// A tool call with nothing received yet.
pub open spec fn empty_call() -> ToolCallSoFar {
    ToolCallSoFar { id: None, name: None, arguments: Seq::empty() }
}

/// Nothing received yet.
pub open spec fn nothing_collected() -> CollectedSoFar {
    CollectedSoFar {
        content: Seq::empty(),
        refusal: None,
        tool_calls: Seq::empty(),
        finish_reason: None,
        model: None,
        id: None,
    }
}

/// The tool calls, extended with empty ones until position `idx` exists.
pub open spec fn grown(calls: Seq<ToolCallSoFar>, idx: nat) -> Seq<ToolCallSoFar> {
    if idx < calls.len() {
        calls
    } else {
        calls + Seq::new((idx + 1 - calls.len()) as nat, |_i: int| empty_call())
    }
}

/// A tool call after a delta: a given id or name replaces the old one, argument text is
/// appended.
pub open spec fn merged(s: ToolCallSoFar, d: ToolCallDelta) -> ToolCallSoFar {
    ToolCallSoFar {
        id: match d.id {
            Some(x) => Some(x@),
            None => s.id,
        },
        name: match d.function {
            Some(f) => match f.name {
                Some(n) => Some(n@),
                None => s.name,
            },
            None => s.name,
        },
        arguments: match d.function {
            Some(f) => s.arguments + or_empty(f.arguments),
            None => s.arguments,
        },
    }
}

/// The tool calls after one delta, addressed by its index.
pub open spec fn apply_delta(calls: Seq<ToolCallSoFar>, d: ToolCallDelta) -> Seq<ToolCallSoFar> {
    let g = grown(calls, d.index as nat);
    g.update(d.index as int, merged(g[d.index as int], d))
}

/// The tool calls after a list of deltas, applied in order.
pub open spec fn apply_deltas(calls: Seq<ToolCallSoFar>, ds: Seq<ToolCallDelta>) -> Seq<
    ToolCallSoFar,
>
    decreases ds.len(),
{
    if ds.len() == 0 {
        calls
    } else {
        apply_delta(apply_deltas(calls, ds.drop_last()), ds.last())
    }
}

/// Every tool-call delta of the chunk's first choice names a position (its index is not
/// negative).
pub open spec fn chunk_indices_ok(c: ChatCompletionChunk) -> bool {
    c.choices@.len() > 0 ==> match c.choices@[0].delta.tool_calls {
        Some(ds) => forall|i: int| 0 <= i < ds@.len() ==> #[trigger] ds@[i].index >= 0,
        None => true,
    }
}

/// The output after one more chunk: the first id and model are kept; of the first choice, the
/// content and refusal are appended, the tool-call deltas applied, and a finish reason
/// replaces the old one. Other choices are ignored.
pub open spec fn absorbed(st: CollectedSoFar, c: ChatCompletionChunk) -> CollectedSoFar {
    let id = if st.id is None {
        Some(c.id@)
    } else {
        st.id
    };
    let model = if st.model is None {
        Some(c.model@)
    } else {
        st.model
    };
    if c.choices@.len() == 0 {
        CollectedSoFar {
            content: st.content,
            refusal: st.refusal,
            tool_calls: st.tool_calls,
            finish_reason: st.finish_reason,
            model,
            id,
        }
    } else {
        let ch = c.choices@[0];
        CollectedSoFar {
            content: st.content + or_empty(ch.delta.content),
            refusal: match ch.delta.refusal {
                Some(r) => Some(
                    match st.refusal {
                        Some(p) => p,
                        None => Seq::empty(),
                    } + r@,
                ),
                None => st.refusal,
            },
            tool_calls: match ch.delta.tool_calls {
                Some(ds) => apply_deltas(st.tool_calls, ds@),
                None => st.tool_calls,
            },
            finish_reason: match ch.finish_reason {
                Some(f) => Some(f@),
                None => st.finish_reason,
            },
            model,
            id,
        }
    }
}

/// The output assembled from a whole list of chunks.
pub open spec fn collected(cs: Seq<ChatCompletionChunk>) -> CollectedSoFar
    decreases cs.len(),
{
    if cs.len() == 0 {
        nothing_collected()
    } else {
        absorbed(collected(cs.drop_last()), cs.last())
    }
}

fn merge_call(slot: &CollectedToolCall, d: &ToolCallDelta) -> (r: CollectedToolCall)
    ensures
        r@ == merged(slot@, *d),
{
    let id = match &d.id {
        Some(x) => Some(x.clone()),
        None => clone_opt(&slot.id),
    };
    let mut name = clone_opt(&slot.name);
    let mut arguments = slot.arguments.clone();
    match &d.function {
        Some(f) => {
            match &f.name {
                Some(n) => {
                    name = Some(n.clone());
                },
                None => {},
            }
            match &f.arguments {
                Some(a) => arguments.append(a.as_str()),
                None => {},
            }
        },
        None => {},
    }
    CollectedToolCall { id, name, arguments }
}

impl Default for CollectedChatStream {
    fn default() -> (c: CollectedChatStream)
        ensures
            c@ == nothing_collected(),
    {
        let c = CollectedChatStream {
            content: String::new(),
            refusal: None,
            tool_calls: Vec::new(),
            finish_reason: None,
            model: None,
            id: None,
        };
        assert(calls_view(c.tool_calls@) =~= Seq::<ToolCallSoFar>::empty());
        c
    }
}

impl CollectedChatStream {
    fn apply_tool_delta(&mut self, d: &ToolCallDelta)
        requires
            d.index >= 0,
        ensures
            final(self)@ == (CollectedSoFar {
                tool_calls: apply_delta(old(self)@.tool_calls, *d),
                ..old(self)@
            }),
    {
        let idx = d.index as usize;
        let ghost before = calls_view(self.tool_calls@);
        let ghost target_len: int = if (idx as int) < before.len() {
            before.len() as int
        } else {
            idx + 1
        };
        while self.tool_calls.len() <= idx
            invariant
                before.len() <= self.tool_calls.len() <= target_len,
                target_len == (if (idx as int) < before.len() {
                    before.len() as int
                } else {
                    idx + 1
                }),
                calls_view(self.tool_calls@) =~= before + Seq::new(
                    (self.tool_calls.len() - before.len()) as nat,
                    |_i: int| empty_call(),
                ),
                self.content@ == old(self).content@,
                opt_view(self.refusal) == opt_view(old(self).refusal),
                opt_view(self.finish_reason) == opt_view(old(self).finish_reason),
                opt_view(self.model) == opt_view(old(self).model),
                opt_view(self.id) == opt_view(old(self).id),
                before == calls_view(old(self).tool_calls@),
            decreases idx + 1 - self.tool_calls.len(),
        {
            let ghost prev = self.tool_calls@;
            let fresh = CollectedToolCall::default();
            self.tool_calls.push(fresh);
            proof {
                assert(calls_view(self.tool_calls@) =~= calls_view(prev).push(empty_call()));
            }
        }
        proof {
            assert(calls_view(self.tool_calls@) =~= grown(before, idx as nat));
        }
        let slot = merge_call(&self.tool_calls[idx], d);
        self.tool_calls.set(idx, slot);
        proof {
            assert(calls_view(self.tool_calls@) =~= apply_delta(before, *d));
        }
    }

    /// Takes in one chunk of the stream (see `absorbed`).
    pub fn push_chunk(&mut self, chunk: &ChatCompletionChunk)
        requires
            chunk_indices_ok(*chunk),
        ensures
            final(self)@ == absorbed(old(self)@, *chunk),
    {
        if self.id.is_none() {
            self.id = Some(chunk.id.clone());
        }
        if self.model.is_none() {
            self.model = Some(chunk.model.clone());
        }
        if chunk.choices.len() == 0 {
            return;
        }
        let choice = &chunk.choices[0];
        match &choice.delta.content {
            Some(t) => self.content.append(t.as_str()),
            None => {},
        }
        match &choice.delta.refusal {
            Some(r) => {
                let mut acc = match &self.refusal {
                    Some(p) => p.clone(),
                    None => String::new(),
                };
                acc.append(r.as_str());
                self.refusal = Some(acc);
            },
            None => {},
        }
        match &choice.delta.tool_calls {
            Some(ds) => {
                let ghost start = self@;
                let mut k: usize = 0;
                while k < ds.len()
                    invariant
                        k <= ds.len(),
                        forall|i: int| 0 <= i < ds@.len() ==> #[trigger] ds@[i].index >= 0,
                        self@ == (CollectedSoFar {
                            tool_calls: apply_deltas(start.tool_calls, ds@.take(k as int)),
                            ..start
                        }),
                    decreases ds.len() - k,
                {
                    assert(ds@.take(k + 1).drop_last() =~= ds@.take(k as int));
                    assert(ds@[k as int].index >= 0);
                    self.apply_tool_delta(&ds[k]);
                    k += 1;
                }
                assert(ds@.take(ds@.len() as int) =~= ds@);
            },
            None => {},
        }
        match &choice.finish_reason {
            Some(f) => {
                self.finish_reason = Some(f.clone());
            },
            None => {},
        }
    }
}

/// Assembles a whole list of chunks, in order.
pub fn collect_chat_chunks(chunks: &Vec<ChatCompletionChunk>) -> (c: CollectedChatStream)
    requires
        forall|i: int| 0 <= i < chunks@.len() ==> #[trigger] chunk_indices_ok(chunks@[i]),
    ensures
        c@ == collected(chunks@),
{
    let mut c = CollectedChatStream::default();
    let mut i: usize = 0;
    while i < chunks.len()
        invariant
            i <= chunks.len(),
            forall|j: int| 0 <= j < chunks@.len() ==> #[trigger] chunk_indices_ok(chunks@[j]),
            c@ == collected(chunks@.take(i as int)),
        decreases chunks.len() - i,
    {
        assert(chunks@.take(i + 1).drop_last() =~= chunks@.take(i as int));
        assert(chunk_indices_ok(chunks@[i as int]));
        c.push_chunk(&chunks[i]);
        i += 1;
    }
    assert(chunks@.take(chunks@.len() as int) =~= chunks@);
    c
}

/// The content pieces of the first choice of each chunk, concatenated.
pub open spec fn first_contents(cs: Seq<ChatCompletionChunk>) -> Seq<char>
    decreases cs.len(),
{
    if cs.len() == 0 {
        Seq::empty()
    } else {
        first_contents(cs.drop_last()) + if cs.last().choices@.len() > 0 {
            or_empty(cs.last().choices@[0].delta.content)
        } else {
            Seq::empty()
        }
    }
}

/// The assembled content is exactly the first choices' content pieces, in stream order.
pub proof fn law_content_is_concatenation(cs: Seq<ChatCompletionChunk>)
    ensures
        collected(cs).content == first_contents(cs),
    decreases cs.len(),
{
    if cs.len() > 0 {
        law_content_is_concatenation(cs.drop_last());
    }
}

/// The assembled id and model are those of the first chunk.
pub proof fn law_first_id_and_model_kept(cs: Seq<ChatCompletionChunk>)
    requires
        cs.len() > 0,
    ensures
        collected(cs).id == Some(cs[0].id@),
        collected(cs).model == Some(cs[0].model@),
    decreases cs.len(),
{
    if cs.len() > 1 {
        law_first_id_and_model_kept(cs.drop_last());
        assert(cs.drop_last()[0] == cs[0]);
    } else {
        assert(collected(cs.drop_last()) == nothing_collected());
        assert(cs.last() == cs[0]);
    }
}

/// The argument fragments that the deltas addressed to position `i` carry, in order.
pub open spec fn args_for(ds: Seq<ToolCallDelta>, i: int) -> Seq<char>
    decreases ds.len(),
{
    if ds.len() == 0 {
        Seq::empty()
    } else {
        args_for(ds.drop_last(), i) + if ds.last().index == i {
            match ds.last().function {
                Some(f) => or_empty(f.arguments),
                None => Seq::empty(),
            }
        } else {
            Seq::empty()
        }
    }
}

/// The arguments assembled so far at position `i` (empty where there is no call yet).
pub open spec fn args_at(calls: Seq<ToolCallSoFar>, i: int) -> Seq<char> {
    if 0 <= i < calls.len() {
        calls[i].arguments
    } else {
        Seq::empty()
    }
}

/// Each tool call's arguments are the fragments addressed to its position, appended in order;
/// fragments for other positions never mix in.
pub proof fn law_arguments_by_position(
    calls: Seq<ToolCallSoFar>,
    ds: Seq<ToolCallDelta>,
    i: int,
)
    requires
        forall|k: int| 0 <= k < ds.len() ==> #[trigger] ds[k].index >= 0,
    ensures
        args_at(apply_deltas(calls, ds), i) == args_at(calls, i) + args_for(ds, i),
    decreases ds.len(),
{
    if ds.len() == 0 {
        assert(args_at(calls, i) + Seq::<char>::empty() =~= args_at(calls, i));
    } else {
        let prev = apply_deltas(calls, ds.drop_last());
        let d = ds.last();
        assert(d.index >= 0);
        law_arguments_by_position(calls, ds.drop_last(), i);
        let g = grown(prev, d.index as nat);
        assert(args_at(g, i) == args_at(prev, i));
        if i == d.index as int {
            assert(args_at(apply_delta(prev, d), i) =~= args_at(prev, i) + match d.function {
                Some(f) => or_empty(f.arguments),
                None => Seq::empty(),
            });
        } else {
            assert(args_at(apply_delta(prev, d), i) == args_at(g, i));
        }
        assert(args_at(apply_deltas(calls, ds), i) =~= args_at(calls, i) + args_for(ds, i));
    }
}

} // verus!

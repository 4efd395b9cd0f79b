use open_ai_rust::chunk::{
    collect_chat_chunks, AssistantDelta, ChatCompletionChunk, ChunkChoice, CollectedChatStream,
    FunctionDelta, ToolCallDelta,
};
use open_ai_rust::message::{ChatContent, ChatMessageRole};
use open_ai_rust::output::{
    AiMsgResponse, AiResponseMessage, Choice, FunctionCallRes, ToolCallRes, Usage,
};

fn usage() -> Usage {
    Usage {
        completion_tokens: Some(3),
        prompt_tokens: 5,
        total_tokens: 8,
        prompt_tokens_details: None,
        completion_tokens_details: None,
    }
}

fn call(id: Option<&str>, name: &str, args: &str) -> ToolCallRes {
    ToolCallRes {
        id: id.map(|s| s.to_string()),
        type_: Some("function".to_string()),
        function: FunctionCallRes { name: name.to_string(), arguments: args.to_string() },
    }
}

fn choice(role: &str, content: Option<&str>, calls: Option<Vec<ToolCallRes>>) -> Choice {
    Choice {
        finish_reason: "stop".to_string(),
        index: 0,
        message: AiResponseMessage {
            content: content.map(|s| s.to_string()),
            role: role.to_string(),
            refusal: None,
            tool_calls: calls,
            audio: None,
        },
        logprobs: None,
    }
}

fn response(choices: Vec<Choice>) -> AiMsgResponse {
    AiMsgResponse {
        choices,
        created: 1,
        id: "chatcmpl-1".to_string(),
        model: "gpt-4o-mini".to_string(),
        object: "chat.completion".to_string(),
        usage: usage(),
        system_fingerprint: None,
        service_tier: None,
    }
}

#[test]
fn messages_from_choices() {
    let r = response(vec![
        choice("assistant", Some("hello"), None),
        choice("assistant", None, Some(vec![call(None, "f", "{\"a\":1}")])),
    ]);
    let ms = r.get_messages();
    assert_eq!(ms.len(), 2);
    assert_eq!(ms[0].role, ChatMessageRole::Assistant);
    assert!(matches!(&ms[0].content, ChatContent::Text(t) if t == "hello"));
    assert!(ms[0].tool_calls.is_none());
    assert!(matches!(&ms[1].content, ChatContent::Text(t) if t.is_empty()));
    let calls = ms[1].tool_calls.as_ref().unwrap();
    assert_eq!(calls[0].id, "");
    assert_eq!(calls[0].function.name, "f");
    assert_eq!(calls[0].function.arguments, "{\"a\":1}");
}

#[test]
fn last_text_and_tool_calls() {
    let r = response(vec![
        choice("assistant", Some("first"), Some(vec![call(Some("1"), "a", "{}")])),
        choice("assistant", Some("second"), Some(vec![call(Some("2"), "b", "[]"), call(None, "c", "1")])),
    ]);
    assert_eq!(r.get_last_msg_text(), Some("second".to_string()));
    let calls = r.get_tool_calls();
    let names: Vec<&str> = calls.iter().map(|c| c.name.as_str()).collect();
    assert_eq!(names, vec!["a", "b", "c"]);
    assert_eq!(r.get_first_tool_call_args(), Ok("{}".to_string()));
    assert_eq!(response(vec![]).get_last_msg_text(), None);
}

#[test]
fn first_tool_call_args_errors() {
    assert_eq!(response(vec![]).get_first_tool_call_args(), Err("No choices found".to_string()));
    assert_eq!(
        response(vec![choice("assistant", Some("x"), None)]).get_first_tool_call_args(),
        Err("No tool calls found".to_string())
    );
    assert_eq!(
        response(vec![choice("assistant", Some("x"), Some(vec![]))]).get_first_tool_call_args(),
        Err("No tool calls found".to_string())
    );
    assert_eq!(call(None, "f", "{\"x\":2}").get_args(), "{\"x\":2}");
}

fn chunk(id: &str, content: Option<&str>, deltas: Option<Vec<ToolCallDelta>>, finish: Option<&str>) -> ChatCompletionChunk {
    ChatCompletionChunk {
        id: id.to_string(),
        object: "chat.completion.chunk".to_string(),
        created: 0,
        model: format!("model-{id}"),
        system_fingerprint: None,
        service_tier: None,
        choices: vec![ChunkChoice {
            index: 0,
            delta: AssistantDelta {
                role: None,
                content: content.map(|s| s.to_string()),
                refusal: None,
                tool_calls: deltas,
            },
            finish_reason: finish.map(|s| s.to_string()),
            logprobs: None,
        }],
        usage: None,
    }
}

fn delta(index: i32, id: Option<&str>, name: Option<&str>, args: Option<&str>) -> ToolCallDelta {
    ToolCallDelta {
        index,
        id: id.map(|s| s.to_string()),
        type_: None,
        function: Some(FunctionDelta {
            name: name.map(|s| s.to_string()),
            arguments: args.map(|s| s.to_string()),
        }),
    }
}

#[test]
fn delta_text_joins_choices() {
    let mut c = chunk("a", Some("Hel"), None, None);
    c.choices.push(ChunkChoice {
        index: 1,
        delta: AssistantDelta::default(),
        finish_reason: None,
        logprobs: None,
    });
    c.choices.push(ChunkChoice {
        index: 2,
        delta: AssistantDelta { content: Some("lo".to_string()), ..AssistantDelta::default() },
        finish_reason: None,
        logprobs: None,
    });
    assert_eq!(c.delta_text(), "Hello");
}

#[test]
fn collect_assembles_content_and_tool_calls() {
    let chunks = vec![
        chunk("id1", Some("Hel"), Some(vec![delta(1, Some("call_b"), Some("b"), Some("{\"y\""))]), None),
        chunk("id2", Some("lo"), Some(vec![delta(0, Some("call_a"), Some("a"), Some("{}"))]), None),
        chunk("id3", None, Some(vec![delta(1, None, None, Some(":2}"))]), Some("tool_calls")),
    ];
    let out = collect_chat_chunks(&chunks);
    assert_eq!(out.content, "Hello");
    assert_eq!(out.id, Some("id1".to_string()));
    assert_eq!(out.model, Some("model-id1".to_string()));
    assert_eq!(out.finish_reason, Some("tool_calls".to_string()));
    assert_eq!(out.refusal, None);
    assert_eq!(out.tool_calls.len(), 2);
    assert_eq!(out.tool_calls[0].id, Some("call_a".to_string()));
    assert_eq!(out.tool_calls[0].arguments, "{}");
    assert_eq!(out.tool_calls[1].name, Some("b".to_string()));
    assert_eq!(out.tool_calls[1].arguments, "{\"y\":2}");
}

#[test]
fn collect_grows_with_empty_calls_and_appends_refusals() {
    let mut stream = CollectedChatStream::default();
    let mut c = chunk("x", None, Some(vec![delta(2, None, None, None)]), None);
    c.choices[0].delta.refusal = Some("I can".to_string());
    stream.push_chunk(&c);
    let mut c2 = chunk("y", None, None, None);
    c2.choices[0].delta.refusal = Some("not".to_string());
    stream.push_chunk(&c2);
    stream.push_chunk(&ChatCompletionChunk { choices: vec![], ..chunk("z", None, None, None) });
    assert_eq!(stream.tool_calls.len(), 3);
    assert!(stream.tool_calls.iter().all(|t| t.id.is_none() && t.arguments.is_empty()));
    assert_eq!(stream.refusal, Some("I cannot".to_string()));
    assert_eq!(stream.id, Some("x".to_string()));
}

use open_ai_rust::json::JsonValue;
use open_ai_rust::message::ChatMessage;
use open_ai_rust::models::OpenAiModel;
use open_ai_rust::payload::{
    ChatPayLoad, ChatToolChoice, ChatToolChoiceType, PayLoadBuilder, PayLoadTemplates,
    QuickChatTemplate, QuickFunctionCallTemplate, ReasoningEffort, ResponseFormat,
};
use open_ai_rust::registry::{find_tool, unknown_tool, FunctionCallable};
use open_ai_rust::error::OpenAiError;
use open_ai_rust::tool::{FunctionCall, FunctionType, ToolType};

fn func(name: &str) -> FunctionCall {
    FunctionCall { name: name.to_string(), description: None, parameters: vec![] }
}

#[test]
fn quick_chat_template_uses_mini() {
    let t = QuickChatTemplate::default(vec![ChatMessage::user("hi")]);
    assert_eq!(t.model, OpenAiModel::GPT4oMini);
    let p = t.to_payload();
    assert_eq!(p.model, OpenAiModel::GPT4oMini);
    assert_eq!(p.messages.len(), 1);
    assert!(p.tools.is_none() && p.tool_choice.is_none() && p.temperature.is_none());
}

#[test]
fn function_call_template_payload() {
    let t = QuickFunctionCallTemplate::default(
        vec![ChatMessage::user("hi")],
        vec![func("a"), func("b")],
        Some(func("b")),
    );
    let p = PayLoadTemplates::FunctionCall(t).to_payload();
    let tools = p.tools.unwrap();
    assert_eq!(tools.len(), 2);
    assert_eq!(tools[1].function.name, "b");
    assert_eq!(tools[1]._type, ToolType::Function);
    match p.tool_choice {
        Some(ChatToolChoice::Function(f)) => assert_eq!(f.name, "b"),
        _ => panic!("expected a function choice"),
    }
    let t2 = QuickFunctionCallTemplate::default(vec![], vec![func("a")], None);
    let p2 = PayLoadTemplates::FunctionCall(t2).to_payload();
    assert!(matches!(p2.tool_choice, Some(ChatToolChoice::Mode(ChatToolChoiceType::Auto))));
    let p3 = PayLoadTemplates::default(vec![ChatMessage::user("x")]).to_payload();
    assert_eq!(p3.model, OpenAiModel::GPT4oMini);
}

#[test]
fn payload_builder_sets_fields() {
    let p: ChatPayLoad = PayLoadBuilder::new(OpenAiModel::GPT4oMini)
        .messages(vec![ChatMessage::user("hi")])
        .add_message(ChatMessage::assistant("hello"))
        .temperature(0.2f32.to_bits())
        .seed(7)
        .tools(vec![func("t")])
        .tool_choice(ChatToolChoice::required())
        .reasoning_effort(ReasoningEffort::High)
        .include_usage(true)
        .user("u-1")
        .build();
    assert_eq!(p.messages.len(), 2);
    assert_eq!(p.temperature.map(f32::from_bits), Some(0.2));
    assert_eq!(p.seed, Some(7));
    assert_eq!(p.tools.as_ref().unwrap()[0].function.name, "t");
    assert!(matches!(p.tool_choice, Some(ChatToolChoice::Mode(ChatToolChoiceType::Required))));
    assert_eq!(p.reasoning_effort, Some(ReasoningEffort::High));
    assert_eq!(p.stream_options.unwrap().include_usage, Some(true));
    assert_eq!(p.user, Some("u-1".to_string()));
    assert!(p.top_p.is_none() && p.stream.is_none());
    assert_eq!(ReasoningEffort::Minimal.as_str(), "minimal");
}

#[test]
fn logit_bias_and_metadata_entries_replace_by_key() {
    let p = PayLoadBuilder::new(OpenAiModel::GPT4o)
        .logit_bias_entry("50256", -100)
        .logit_bias_entry("42", 5)
        .logit_bias_entry("50256", 10)
        .metadata_entry("k", "v1")
        .metadata_entry("k", "v2")
        .build();
    assert_eq!(
        p.logit_bias,
        Some(vec![("50256".to_string(), 10), ("42".to_string(), 5)])
    );
    assert_eq!(p.metadata, Some(vec![("k".to_string(), "v2".to_string())]));
}

#[test]
fn json_schema_format_is_strict() {
    match ResponseFormat::json_schema("city", JsonValue::Null) {
        ResponseFormat::JsonSchema(s) => {
            assert_eq!(s.name, "city");
            assert_eq!(s.strict, Some(true));
            assert_eq!(s.schema, JsonValue::Null);
        },
        _ => panic!(),
    }
    assert!(matches!(ChatToolChoice::none(), ChatToolChoice::Mode(ChatToolChoiceType::NoTools)));
}

#[test]
fn tool_lookup() {
    let names = vec!["a".to_string(), "b".to_string(), "a".to_string()];
    assert_eq!(find_tool(&names, "a"), Some(0));
    assert_eq!(find_tool(&names, "b"), Some(1));
    assert_eq!(find_tool(&names, "c"), None);
    match unknown_tool("c") {
        OpenAiError::Config(m) => assert_eq!(m, "unknown tool: c"),
        _ => panic!(),
    }
}

#[test]
fn callable_types() {
    assert_eq!("x".to_string().to_fn_type(), FunctionType::String);
    assert_eq!(true.to_fn_type(), FunctionType::Boolean);
    assert_eq!(3i64.to_fn_type(), FunctionType::Number);
    assert_eq!(
        vec![1u32].to_fn_type(),
        FunctionType::Array(Box::new(FunctionType::Number))
    );
    assert_eq!(
        <Vec<String> as FunctionCallable>::schema_type(),
        FunctionType::Array(Box::new(FunctionType::String))
    );
    assert_eq!(
        Some(true).to_fn_type(),
        FunctionType::Option(Box::new(FunctionType::Boolean))
    );
    assert_eq!(
        None::<i32>.to_fn_type(),
        FunctionType::Option(Box::new(FunctionType::Number))
    );
    assert_eq!("x".to_string().to_fn_call().name, "");
}

#[test]
fn callable_strs_arrays_and_integers() {
    assert_eq!("x".to_fn_type(), FunctionType::String);
    assert_eq!(<&'static str as FunctionCallable>::schema_type(), FunctionType::String);
    assert_eq!([1u8, 2u8].to_fn_type(), FunctionType::Array(Box::new(FunctionType::Number)));
    let empty: [bool; 0] = [];
    assert_eq!(empty.to_fn_type(), FunctionType::Array(Box::new(FunctionType::Boolean)));
    assert_eq!(7usize.to_fn_type(), FunctionType::Number);
    assert_eq!((-1i8).to_fn_type(), FunctionType::Number);
    assert_eq!(<u128 as FunctionCallable>::schema_type(), FunctionType::Number);
}

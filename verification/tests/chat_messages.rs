use open_ai_rust::message::{
    ChatContent, ChatMessage, ChatMessageRole, ContentPart, ToolCall, ToolCallFunction,
    ToolCallType,
};
use open_ai_rust::models::OpenAiModel;

fn text_of(c: &ChatContent) -> Option<String> {
    match c {
        ChatContent::Text(s) => Some(s.clone()),
        ChatContent::Parts(_) => None,
    }
}

#[test]
fn constructors_set_role_and_text() {
    let s = ChatMessage::system("be brief");
    assert_eq!(s.role, ChatMessageRole::System);
    assert_eq!(text_of(&s.content), Some("be brief".to_string()));
    assert!(s.name.is_none() && s.tool_call_id.is_none() && s.tool_calls.is_none());

    assert_eq!(ChatMessage::developer("d").role, ChatMessageRole::Developer);
    assert_eq!(ChatMessage::user("u").role, ChatMessageRole::User);
    assert_eq!(ChatMessage::assistant("a").role, ChatMessageRole::Assistant);

    let t = ChatMessage::tool("call_1", "42");
    assert_eq!(t.role, ChatMessageRole::Tool);
    assert_eq!(t.tool_call_id, Some("call_1".to_string()));
    assert_eq!(text_of(&t.content), Some("42".to_string()));
}

#[test]
fn constructors_take_any_content() {
    let parts = vec![ContentPart::Text { text: "look".to_string() }];
    let u = ChatMessage::user(parts.clone());
    assert_eq!(u.role, ChatMessageRole::User);
    assert!(matches!(u.content, ChatContent::Parts(ref ps) if ps.len() == 1));
    let s = ChatMessage::system("owned".to_string());
    assert_eq!(text_of(&s.content), Some("owned".to_string()));
    let d = ChatMessage::developer(ChatContent::Text("c".to_string()));
    assert_eq!(text_of(&d.content), Some("c".to_string()));
    let a = ChatMessage::assistant(parts.clone());
    assert!(matches!(a.content, ChatContent::Parts(_)));
    let t = ChatMessage::tool("id", parts);
    assert_eq!(t.tool_call_id, Some("id".to_string()));
    assert!(matches!(t.content, ChatContent::Parts(_)));
    assert_eq!(text_of(&ChatContent::from("x")), Some("x".to_string()));
}

#[test]
fn with_name_and_tool_calls_keep_the_rest() {
    let call = ToolCall {
        id: "c1".to_string(),
        type_: ToolCallType::Function,
        function: ToolCallFunction { name: "f".to_string(), arguments: "{}".to_string() },
    };
    let m = ChatMessage::assistant("hi").with_name("bot").with_tool_calls(vec![call]);
    assert_eq!(m.name, Some("bot".to_string()));
    assert_eq!(m.role, ChatMessageRole::Assistant);
    assert_eq!(text_of(&m.content), Some("hi".to_string()));
    let calls = m.tool_calls.unwrap();
    assert_eq!(calls.len(), 1);
    assert_eq!(calls[0].function.name, "f");
}

#[test]
fn with_image_turns_text_into_parts_and_keeps_text() {
    let m = ChatMessage::user("what is this?").with_image("https://x/y.png");
    match &m.content {
        ChatContent::Parts(ps) => {
            assert_eq!(ps.len(), 2);
            assert!(matches!(&ps[0], ContentPart::Text { text } if text == "what is this?"));
            assert!(
                matches!(&ps[1], ContentPart::ImageUrl { image_url } if image_url.url == "https://x/y.png" && image_url.detail.is_none())
            );
        },
        _ => panic!("expected parts"),
    }
    assert_eq!(m.text(), "what is this?");
}

#[test]
fn with_image_on_empty_text_has_only_the_image() {
    let m = ChatMessage::user("").with_image("u");
    match &m.content {
        ChatContent::Parts(ps) => assert_eq!(ps.len(), 1),
        _ => panic!("expected parts"),
    }
    assert_eq!(m.text(), "");
    let m2 = m.with_image("v");
    match &m2.content {
        ChatContent::Parts(ps) => assert_eq!(ps.len(), 2),
        _ => panic!("expected parts"),
    }
}

#[test]
fn text_joins_text_and_refusal_parts() {
    let m = ChatMessage::new(
        ChatMessageRole::Assistant,
        ChatContent::Parts(vec![
            ContentPart::Text { text: "a".to_string() },
            ContentPart::Refusal { refusal: "b".to_string() },
            ContentPart::Text { text: "c".to_string() },
        ]),
    );
    assert_eq!(m.text(), "abc");
}

#[test]
fn role_names_round_trip() {
    for r in [
        ChatMessageRole::System,
        ChatMessageRole::User,
        ChatMessageRole::Assistant,
        ChatMessageRole::Tool,
        ChatMessageRole::Developer,
    ] {
        assert_eq!(ChatMessageRole::from_name(r.as_str()), r);
    }
    assert_eq!(ChatMessageRole::from_name("something-else"), ChatMessageRole::User);
    assert_eq!(ChatMessageRole::Developer.as_str(), "developer");
}

#[test]
fn model_ids() {
    assert_eq!(OpenAiModel::GPT4oMini.as_str(), "gpt-4o-mini");
    assert_eq!(OpenAiModel::custom("my-finetune").as_str(), "my-finetune");
}

#[test]
fn default_content_is_empty_text() {
    let c = ChatContent::default();
    assert_eq!(text_of(&c), Some(String::new()));
}

#[test]
fn conversions_into_content_role_and_model() {
    let m = ChatMessage::new(ChatMessageRole::User, ChatContent::from("hi".to_string()));
    assert_eq!(m.text(), "hi");
    let parts = ChatContent::from(vec![ContentPart::Text { text: "a".to_string() }]);
    assert!(matches!(parts, ChatContent::Parts(ref ps) if ps.len() == 1));
    assert_eq!(ChatMessageRole::from("assistant".to_string()), ChatMessageRole::Assistant);
    assert_eq!(ChatMessageRole::from("nobody".to_string()), ChatMessageRole::User);
    assert_eq!(OpenAiModel::from("ft:my-model".to_string()).as_str(), "ft:my-model");
    assert_eq!(OpenAiModel::from("ft:other").as_str(), "ft:other");
    let m: OpenAiModel = "gpt-4o".into();
    assert_eq!(m, OpenAiModel::Custom("gpt-4o".to_string()));
}

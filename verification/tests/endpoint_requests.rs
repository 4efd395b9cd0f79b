use open_ai_rust::legacy::embed_request_body;
use open_ai_rust::resources::attach_file_request_body;
use open_ai_rust::json::{JsonObject, JsonValue};
use open_ai_rust::models::OpenAiModel;
use open_ai_rust::payload::ReasoningEffort;
use open_ai_rust::resources::{
    build_audio_form, build_edit_form, build_file_form, build_variation_form, first_embedding,
    resource_path, EmbeddingInput, EmbeddingRequestBuilder, FilePurpose, FormField,
    ImageEditRequest, ImageGenerationBuilder, ImageVariationRequest, SpeechRequestBuilder,
    TranscriptionFormat, TranscriptionRequestBuilder,
};
use open_ai_rust::responses::{
    ReasoningConfig, ResponseFunctionCall, ResponseInput, ResponseInputContent,
    ResponseInputItem, ResponseObject, ResponseOutputContentPart, ResponseOutputItem,
    ResponseRequestBuilder, ResponseStatus, ResponseToolChoice, TextConfig,
};
use open_ai_rust::error::OpenAiError;
use open_ai_rust::resources::ModerationInput;

fn text_fields(fs: &[FormField]) -> Vec<(String, String)> {
    fs.iter()
        .map(|f| match f {
            FormField::Text { name, value } => (name.clone(), value.clone()),
            FormField::Float { name, bits } => (name.clone(), f32::from_bits(*bits).to_string()),
            FormField::File { name, file_name, mime, .. } => {
                (name.clone(), format!("file:{file_name}:{mime}"))
            },
        })
        .collect()
}

fn pairs(v: &[(&str, &str)]) -> Vec<(String, String)> {
    v.iter().map(|(a, b)| (a.to_string(), b.to_string())).collect()
}

#[test]
fn embedding_builder() {
    let r = EmbeddingRequestBuilder::new("text-embedding-3-small")
        .input(EmbeddingInput::String("hello".to_string()))
        .encoding_format("float")
        .dimensions(256)
        .user("u")
        .build();
    assert_eq!(r.model, "text-embedding-3-small");
    assert!(matches!(&r.input, EmbeddingInput::String(s) if s == "hello"));
    assert_eq!(r.encoding_format, Some("float".to_string()));
    assert_eq!(r.dimensions, Some(256));
    assert_eq!(r.user, Some("u".to_string()));
    let empty = EmbeddingRequestBuilder::new("m").build();
    assert!(matches!(&empty.input, EmbeddingInput::String(s) if s.is_empty()));
    assert!(empty.encoding_format.is_none() && empty.dimensions.is_none());
}

#[test]
fn first_embedding_or_error() {
    assert_eq!(first_embedding(vec![vec![0.5f32], vec![1.0]]).ok(), Some(vec![0.5f32]));
    match first_embedding::<Vec<f32>>(vec![]) {
        Err(OpenAiError::Stream(m)) => assert_eq!(m, "empty embeddings response"),
        _ => panic!(),
    }
}

#[test]
fn image_generation_builder() {
    let r = ImageGenerationBuilder::new("a cat")
        .model("gpt-image-1")
        .n(2)
        .size("1024x1024")
        .quality("high")
        .style("vivid")
        .response_format("b64_json")
        .background("transparent")
        .output_format("png")
        .output_compression(80)
        .moderation("low")
        .user("u")
        .build();
    assert_eq!(r.prompt, "a cat");
    assert_eq!(r.model.as_deref(), Some("gpt-image-1"));
    assert_eq!(r.n, Some(2));
    assert_eq!(r.size.as_deref(), Some("1024x1024"));
    assert_eq!(r.output_compression, Some(80));
    assert_eq!(r.moderation.as_deref(), Some("low"));
    let bare = ImageGenerationBuilder::new("p").build();
    assert!(bare.model.is_none() && bare.n.is_none() && bare.user.is_none());
}

#[test]
fn edit_form_fields_in_order() {
    let req = ImageEditRequest {
        image: vec![1, 2, 3],
        image_name: "in.png".to_string(),
        mask: Some(vec![9]),
        mask_name: Some("mask.png".to_string()),
        prompt: "add a hat".to_string(),
        model: Some("dall-e-2".to_string()),
        n: Some(3),
        size: None,
        response_format: Some("url".to_string()),
        user: None,
    };
    let fs = build_edit_form(req);
    assert_eq!(
        text_fields(&fs),
        pairs(&[
            ("prompt", "add a hat"),
            ("image", "file:in.png:image/png"),
            ("mask", "file:mask.png:image/png"),
            ("model", "dall-e-2"),
            ("n", "3"),
            ("response_format", "url"),
        ])
    );
    match &fs[1] {
        FormField::File { bytes, .. } => assert_eq!(bytes, &vec![1, 2, 3]),
        _ => panic!(),
    }
}

#[test]
fn edit_form_needs_mask_and_name() {
    let req = ImageEditRequest {
        image: vec![],
        image_name: "i.png".to_string(),
        mask: Some(vec![1]),
        mask_name: None,
        prompt: "p".to_string(),
        model: None,
        n: None,
        size: None,
        response_format: None,
        user: Some("u".to_string()),
    };
    assert_eq!(
        text_fields(&build_edit_form(req)),
        pairs(&[("prompt", "p"), ("image", "file:i.png:image/png"), ("user", "u")])
    );
}

#[test]
fn variation_form_fields() {
    let req = ImageVariationRequest {
        image: vec![7],
        image_name: "v.png".to_string(),
        model: None,
        n: Some(10),
        size: Some("256x256".to_string()),
        response_format: None,
        user: None,
    };
    assert_eq!(
        text_fields(&build_variation_form(req)),
        pairs(&[("image", "file:v.png:image/png"), ("n", "10"), ("size", "256x256")])
    );
}

#[test]
fn audio_form_fields() {
    let req = TranscriptionRequestBuilder::new("whisper-1")
        .file_bytes(vec![0, 1], "a.mp3")
        .language("en")
        .response_format(TranscriptionFormat::VerboseJson)
        .temperature(0.5f32.to_bits())
        .timestamp_granularities(vec!["word".to_string(), "segment".to_string()])
        .build();
    assert_eq!(
        text_fields(&build_audio_form(&req)),
        pairs(&[
            ("model", "whisper-1"),
            ("file", "file:a.mp3:audio/mpeg"),
            ("language", "en"),
            ("response_format", "verbose_json"),
            ("temperature", "0.5"),
            ("timestamp_granularities[]", "word"),
            ("timestamp_granularities[]", "segment"),
        ])
    );
    let req2 = TranscriptionRequestBuilder::new("m").mime_type("audio/wav").prompt("ACME").build();
    assert_eq!(
        text_fields(&build_audio_form(&req2)),
        pairs(&[("model", "m"), ("file", "file::audio/wav"), ("prompt", "ACME")])
    );
}

#[test]
fn format_and_purpose_names() {
    assert_eq!(TranscriptionFormat::Json.as_str(), "json");
    assert_eq!(TranscriptionFormat::Srt.as_str(), "srt");
    assert_eq!(TranscriptionFormat::Vtt.as_str(), "vtt");
    assert_eq!(TranscriptionFormat::Text.as_str(), "text");
    assert_eq!(FilePurpose::FineTune.as_str(), "fine-tune");
    assert_eq!(FilePurpose::UserData.as_str(), "user_data");
    assert_eq!(FilePurpose::Assistants.as_str(), "assistants");
    let fs = build_file_form(vec![1], "data.jsonl", FilePurpose::Batch);
    assert_eq!(text_fields(&fs), pairs(&[("purpose", "batch"), ("file", "file:data.jsonl:")]));
}

#[test]
fn speech_builder() {
    let r = SpeechRequestBuilder::new("tts-1", "alloy", "hello")
        .response_format("opus")
        .speed(1.5f32.to_bits())
        .instructions("calm")
        .build();
    assert_eq!((r.model.as_str(), r.voice.as_str(), r.input.as_str()), ("tts-1", "alloy", "hello"));
    assert_eq!(r.response_format.as_deref(), Some("opus"));
    assert_eq!(r.speed.map(f32::from_bits), Some(1.5));
    assert_eq!(r.instructions.as_deref(), Some("calm"));
}

#[test]
fn paths() {
    assert_eq!(resource_path("/files", "file-1", ""), "/files/file-1");
    assert_eq!(resource_path("/files", "file-1", "/content"), "/files/file-1/content");
    let store = resource_path("/vector_stores", "vs_1", "/files");
    assert_eq!(resource_path(&store, "f_2", ""), "/vector_stores/vs_1/files/f_2");
}

#[test]
fn response_input_items() {
    match ResponseInputItem::user("hi") {
        ResponseInputItem::Message { role, content, name } => {
            assert_eq!(role, "user");
            assert!(matches!(content, ResponseInputContent::Text(t) if t == "hi"));
            assert!(name.is_none());
        },
        _ => panic!(),
    }
    for (item, want) in [
        (ResponseInputItem::system("s"), "system"),
        (ResponseInputItem::developer("d"), "developer"),
        (ResponseInputItem::assistant("a"), "assistant"),
    ] {
        assert!(matches!(item, ResponseInputItem::Message { role, .. } if role == want));
    }
    assert!(matches!(
        ResponseInputItem::function_call_output("c1", "out"),
        ResponseInputItem::FunctionCallOutput { call_id, output } if call_id == "c1" && output == "out"
    ));
}

#[test]
fn response_tool_choices() {
    assert!(matches!(ResponseToolChoice::auto(), ResponseToolChoice::Mode(m) if m == "auto"));
    assert!(matches!(ResponseToolChoice::none(), ResponseToolChoice::Mode(m) if m == "none"));
    assert!(matches!(ResponseToolChoice::required(), ResponseToolChoice::Mode(m) if m == "required"));
    assert!(matches!(
        ResponseToolChoice::function("lookup"),
        ResponseToolChoice::Function { type_, name } if type_ == "function" && name == "lookup"
    ));
}

#[test]
fn reasoning_effort_keeps_summary() {
    let r = ResponseRequestBuilder::new(OpenAiModel::O3, ResponseInput::Text("q".to_string()))
        .reasoning(ReasoningConfig { effort: None, summary: Some("auto".to_string()) })
        .reasoning_effort(ReasoningEffort::Low)
        .instructions("be terse")
        .build();
    let rc = r.reasoning.unwrap();
    assert_eq!(rc.effort, Some(ReasoningEffort::Low));
    assert_eq!(rc.summary.as_deref(), Some("auto"));
    assert_eq!(r.instructions.as_deref(), Some("be terse"));
    let r2 = ResponseRequestBuilder::new(OpenAiModel::O3, ResponseInput::Text("q".to_string()))
        .reasoning_effort(ReasoningEffort::Medium)
        .build();
    assert!(r2.reasoning.unwrap().summary.is_none());
}

#[test]
fn text_config_json_schema() {
    let t = TextConfig::json_schema("city", JsonValue::Bool(false));
    let want = JsonValue::Object(JsonObject {
        entries: vec![
            ("type".to_string(), JsonValue::String("json_schema".to_string())),
            ("name".to_string(), JsonValue::String("city".to_string())),
            ("schema".to_string(), JsonValue::Bool(false)),
            ("strict".to_string(), JsonValue::Bool(true)),
        ],
    });
    assert_eq!(t.format, Some(want));
}

fn fc(name: &str) -> ResponseFunctionCall {
    ResponseFunctionCall {
        id: format!("fc_{name}"),
        call_id: format!("call_{name}"),
        name: name.to_string(),
        arguments: "{}".to_string(),
        status: None,
    }
}

#[test]
fn response_object_text_and_calls() {
    let o = ResponseObject {
        id: "resp_1".to_string(),
        object: "response".to_string(),
        created_at: 0,
        model: "o3".to_string(),
        status: ResponseStatus::Completed,
        output: vec![
            ResponseOutputItem::Message {
                id: "m1".to_string(),
                status: None,
                role: "assistant".to_string(),
                content: vec![
                    ResponseOutputContentPart::OutputText { text: "Hello".to_string(), annotations: vec![] },
                    ResponseOutputContentPart::Refusal { refusal: "no".to_string() },
                    ResponseOutputContentPart::OutputText { text: ", ".to_string(), annotations: vec![] },
                ],
            },
            ResponseOutputItem::FunctionCall(fc("a")),
            ResponseOutputItem::Other,
            ResponseOutputItem::Message {
                id: "m2".to_string(),
                status: None,
                role: "assistant".to_string(),
                content: vec![ResponseOutputContentPart::OutputText {
                    text: "world".to_string(),
                    annotations: vec![],
                }],
            },
            ResponseOutputItem::FunctionCall(fc("b")),
        ],
        usage: None,
        error: None,
        incomplete_details: None,
        previous_response_id: None,
        instructions: None,
        temperature: None,
        top_p: None,
        max_output_tokens: None,
        parallel_tool_calls: None,
        reasoning: None,
        text: None,
        tools: vec![],
        metadata: None,
    };
    assert_eq!(o.output_text(), "Hello, world");
    let calls: Vec<&str> = o.function_calls().iter().map(|c| c.name.as_str()).collect();
    assert_eq!(calls, vec!["a", "b"]);
}

#[test]
fn input_conversions() {
    assert!(matches!(EmbeddingInput::from("t".to_string()), EmbeddingInput::String(s) if s == "t"));
    assert!(matches!(EmbeddingInput::from(vec!["a".to_string()]), EmbeddingInput::Strings(v) if v.len() == 1));
    assert!(matches!(ModerationInput::from("t".to_string()), ModerationInput::Text(s) if s == "t"));
    assert!(matches!(ModerationInput::from(vec!["a".to_string(), "b".to_string()]), ModerationInput::Texts(v) if v.len() == 2));
    assert!(matches!(ResponseInput::from("q".to_string()), ResponseInput::Text(s) if s == "q"));
    assert!(matches!(ResponseInput::from(vec![ResponseInputItem::user("x")]), ResponseInput::Items(v) if v.len() == 1));
    assert!(matches!(ResponseToolChoice::from("auto".to_string()), ResponseToolChoice::Mode(m) if m == "auto"));
}

#[test]
fn upload_part_form_and_streaming_requests() {
    let fs = open_ai_rust::resources::build_upload_part_form(vec![5, 6]);
    assert_eq!(text_fields(&fs), pairs(&[("data", "file:part:")]));
    let r = ResponseRequestBuilder::new(OpenAiModel::GPT4o, ResponseInput::Text("q".to_string()))
        .build()
        .streaming();
    assert_eq!(r.stream, Some(true));
    let p = open_ai_rust::payload::ChatPayLoad::new(OpenAiModel::GPT4o, vec![]).streaming();
    assert_eq!(p.stream, Some(true));
}

#[test]
fn embed_and_attach_bodies() {
    let s = |x: &str| JsonValue::String(x.to_string());
    assert_eq!(
        embed_request_body("hello", "text-embedding-3-small"),
        JsonValue::Object(JsonObject {
            entries: vec![
                ("input".to_string(), s("hello")),
                ("model".to_string(), s("text-embedding-3-small")),
                ("encoding_format".to_string(), s("float")),
            ],
        })
    );
    assert_eq!(
        attach_file_request_body("file-9"),
        JsonValue::Object(JsonObject { entries: vec![("file_id".to_string(), s("file-9"))] })
    );
}

use open_ai_rust::json::{JsonObject, JsonValue};
use open_ai_rust::raw_schema::{FunctionCallRaw, FunctionParamRaw};
use open_ai_rust::struct_schema::struct_to_fn_call;
use open_ai_rust::tool::{EnumValues, FunctionCall, FunctionParameter, FunctionType};

fn s(x: &str) -> JsonValue {
    JsonValue::String(x.to_string())
}

fn obj(entries: Vec<(&str, JsonValue)>) -> JsonValue {
    JsonValue::Object(JsonObject {
        entries: entries.into_iter().map(|(k, v)| (k.to_string(), v)).collect(),
    })
}

fn get<'a>(o: &'a JsonObject, k: &str) -> Option<&'a JsonValue> {
    o.entries.iter().find(|(key, _)| key == k).map(|(_, v)| v)
}

#[test]
fn function_schema_lists_required_non_optional_params() {
    let f = FunctionCall {
        name: "get_weather".to_string(),
        description: Some("Get current weather".to_string()),
        parameters: vec![
            FunctionParameter::new("city", FunctionType::String).description("City name"),
            FunctionParameter::new("days", FunctionType::Option(Box::new(FunctionType::Number))),
            FunctionParameter::new("verbose", FunctionType::Boolean).required(false),
        ],
    };
    let j = f.to_json();
    assert_eq!(get(&j, "name"), Some(&s("get_weather")));
    assert_eq!(get(&j, "description"), Some(&s("Get current weather")));
    let params = match get(&j, "parameters") {
        Some(JsonValue::Object(o)) => o,
        other => panic!("parameters missing: {:?}", other),
    };
    assert_eq!(get(params, "type"), Some(&s("object")));
    let props = match get(params, "properties") {
        Some(JsonValue::Object(o)) => o,
        other => panic!("properties missing: {:?}", other),
    };
    assert_eq!(
        get(props, "city"),
        Some(&obj(vec![("type", s("string")), ("description", s("City name"))]))
    );
    assert_eq!(get(props, "days"), Some(&obj(vec![("type", s("number"))])));
    assert_eq!(get(props, "verbose"), Some(&obj(vec![("type", s("boolean"))])));
    assert_eq!(get(params, "required"), Some(&JsonValue::Array(vec![s("city")])));
}

#[test]
fn function_schema_without_description_has_no_description_key() {
    let f = FunctionCall { name: "f".to_string(), description: None, parameters: vec![] };
    let j = f.to_json();
    assert!(get(&j, "description").is_none());
    assert_eq!(j.entries[0].0, "name");
}

#[test]
fn array_enum_and_map_types() {
    let f = FunctionCall {
        name: "f".to_string(),
        description: None,
        parameters: vec![
            FunctionParameter::new("tags", FunctionType::Array(Box::new(FunctionType::String))),
            FunctionParameter::new(
                "unit",
                FunctionType::Enum(EnumValues::String(vec!["c".to_string(), "f".to_string()])),
            ),
            FunctionParameter::new("counts", FunctionType::MapOf(Box::new(FunctionType::Number))),
        ],
    };
    let j = f.to_json();
    let params = match get(&j, "parameters") {
        Some(JsonValue::Object(o)) => o,
        _ => panic!(),
    };
    let props = match get(params, "properties") {
        Some(JsonValue::Object(o)) => o,
        _ => panic!(),
    };
    assert_eq!(
        get(props, "tags"),
        Some(&obj(vec![("type", s("array")), ("items", obj(vec![("type", s("string"))]))]))
    );
    assert_eq!(
        get(props, "unit"),
        Some(&obj(vec![("type", s("string")), ("enum", JsonValue::Array(vec![s("c"), s("f")]))]))
    );
    assert_eq!(
        get(props, "counts"),
        Some(&obj(vec![
            ("type", s("object")),
            ("additionalProperties", obj(vec![("type", s("number"))])),
        ]))
    );
}

#[test]
fn display_strings_of_types() {
    assert_eq!(FunctionType::String.to_display_string(), "string");
    assert_eq!(FunctionType::Number.to_display_string(), "number");
    assert_eq!(FunctionType::Boolean.to_display_string(), "boolean");
}

#[test]
fn raw_call_maps_types_and_optionality() {
    let params = [
        FunctionParamRaw { name: "city", ty: "String", description: "City" },
        FunctionParamRaw { name: "days", ty: "Option<u32>", description: "" },
        FunctionParamRaw { name: "tags", ty: "Vec<String>", description: "" },
    ];
    let raw = FunctionCallRaw { name: "weather", description: "", parameters: &params };
    let f = raw.to_fn_call().unwrap();
    assert_eq!(f.name, "weather");
    assert_eq!(f.description, None);
    assert_eq!(f.parameters.len(), 3);
    assert_eq!(f.parameters[0]._type, FunctionType::String);
    assert_eq!(f.parameters[0].description, Some("City".to_string()));
    assert!(f.parameters[0].required);
    assert_eq!(f.parameters[1]._type, FunctionType::Option(Box::new(FunctionType::Number)));
    assert!(!f.parameters[1].required);
    assert_eq!(f.parameters[2]._type, FunctionType::Array(Box::new(FunctionType::String)));
}

#[test]
fn raw_call_map_type() {
    let params = [FunctionParamRaw { name: "m", ty: "HashMap<String, Vec<i64>>", description: "" }];
    let raw = FunctionCallRaw { name: "f", description: "d", parameters: &params };
    let f = raw.to_fn_call().unwrap();
    assert_eq!(f.description, Some("d".to_string()));
    assert_eq!(
        f.parameters[0]._type,
        FunctionType::MapOf(Box::new(FunctionType::Array(Box::new(FunctionType::Number))))
    );
}

#[test]
fn raw_call_unsupported_type_is_the_error() {
    let params = [FunctionParamRaw { name: "x", ty: "MyStruct", description: "" }];
    let raw = FunctionCallRaw { name: "f", description: "", parameters: &params };
    assert_eq!(raw.to_fn_call(), Err("MyStruct".to_string()));
    let params = [
        FunctionParamRaw { name: "a", ty: "u8", description: "" },
        FunctionParamRaw { name: "b", ty: " Vec<Thing> ", description: "" },
        FunctionParamRaw { name: "c", ty: "Other", description: "" },
    ];
    let raw = FunctionCallRaw { name: "f", description: "", parameters: &params };
    assert_eq!(raw.to_fn_call(), Err("Thing".to_string()));
}

#[test]
fn struct_declaration_to_call() {
    let f = struct_to_fn_call("WeatherQuery { city : String, days : u32, tags : Vec < String >")
        .unwrap();
    assert_eq!(f.name, "weather_query");
    assert_eq!(f.parameters.len(), 3);
    assert_eq!(f.parameters[0].name, "city");
    assert_eq!(f.parameters[0]._type, FunctionType::String);
    assert_eq!(f.parameters[1]._type, FunctionType::Number);
    assert_eq!(f.parameters[2]._type, FunctionType::Array(Box::new(FunctionType::String)));
    assert!(f.parameters.iter().all(|p| p.required && p.description.is_none()));
}

#[test]
fn struct_declaration_errors() {
    assert_eq!(
        struct_to_fn_call("NoBrace"),
        Err("Invalid struct serialization: missing opening brace".to_string())
    );
    assert_eq!(
        struct_to_fn_call("Empty {   "),
        Err("Invalid struct serialization: no parameters found".to_string())
    );
    assert_eq!(
        struct_to_fn_call("S { a : Thing"),
        Err("Unsupported parameter type: Thing".to_string())
    );
    assert_eq!(
        struct_to_fn_call("S { a String"),
        Err("Invalid parameter format in struct serialization: a String".to_string())
    );
}

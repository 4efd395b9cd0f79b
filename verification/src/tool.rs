//! Function-tool descriptions and the JSON schema sent for them.
//!
//! A [`FunctionCall`] is serialised as
//! `{"name": .., "description": .., "parameters": {"type": "object", "properties": {..}, "required": [..]}}`;
//! every parameter type maps to its JSON-Schema fragment (see `type_entries`).
use vstd::prelude::*;
use vstd::string::*;
use crate::text::{append_joined, decimal, decimal_text, join};
use crate::json::{
    is_key_index, json_str, key_index, lemma_insert_all_one, lemma_insert_all_three,
    lemma_insert_all_two, models, obj_insert, obj_insert_all, push_value, Json, JsonObject,
    JsonValue,
};

verus! {

broadcast use vstd::string::group_string_axioms;

/// A float enum value: the bits of the `f64` and its decimal text as `f64`'s `Display` writes it.
#[derive(Debug, PartialEq)]
pub struct FloatLiteral {
    pub bits: u64,
    pub text: String,
}

/// Values of an enum-typed parameter.
#[derive(Debug, PartialEq)]
pub enum EnumValues {
    String(Vec<String>),
    Int(Vec<i64>),
    Float(Vec<FloatLiteral>),
}

/// Type of a function parameter.
#[derive(Debug, PartialEq)]
pub enum FunctionType {
    String,
    Number,
    Boolean,
    Array(Box<FunctionType>),
    Object(Vec<FunctionParameter>),
    Null,
    Enum(EnumValues),
    Option(Box<FunctionType>),
    /// `HashMap<String, V>` / `BTreeMap<String, V>`: `{ "type": "object", "additionalProperties": <V> }`.
    MapOf(Box<FunctionType>),
    /// Tagged union (JSON-Schema `oneOf`).
    OneOf(Vec<FunctionVariant>),
}

/// One parameter of a function tool.
#[derive(Debug, PartialEq)]
pub struct FunctionParameter {
    pub name: String,
    pub _type: FunctionType,
    pub description: Option<String>,
    /// Whether this parameter is required. A parameter is listed in the schema's `required`
    /// array when it is required and its type is not `Option`.
    pub required: bool,
}

/// One variant of a `OneOf`.
#[derive(Debug, PartialEq)]
pub struct FunctionVariant {
    pub name: String,
    pub description: Option<String>,
    pub parameters: Vec<FunctionParameter>,
}

/// A function tool: name, description and parameters.
#[derive(Debug, PartialEq)]
pub struct FunctionCall {
    pub name: String,
    pub description: Option<String>,
    pub parameters: Vec<FunctionParameter>,
}

/// The kind of tool (always a function).
#[derive(Debug, PartialEq, Eq, Clone, Copy)]
pub enum ToolType {
    Function,
}

/// A tool offered to the model: `{"type": "function", "function": ..}`.
#[derive(Debug, PartialEq)]
pub struct ToolChoice {
    pub function: FunctionCall,
    pub _type: ToolType,
}

/// An `f64` given by `bits` is finite (JSON has no NaN or infinities).
pub open spec fn finite_bits(bits: u64) -> bool {
    (bits >> 52u64) & 0x7ffu64 != 0x7ffu64
}

/// The JSON-Schema type word that describes a JSON value.
pub open spec fn json_kind(j: Json) -> Seq<char> {
    match j {
        Json::Null => "null"@,
        Json::Bool(_) => "boolean"@,
        Json::Int(_) => "number"@,
        Json::Float(_) => "number"@,
        Json::Str(_) => "string"@,
        Json::Array(_) => "array"@,
        Json::Object(_) => "object"@,
    }
}

/// The JSON-Schema type word of an enum's values.
pub open spec fn enum_kind(vs: EnumValues) -> Seq<char> {
    match vs {
        EnumValues::String(_) => "string"@,
        _ => "number"@,
    }
}

/// Finite floats as JSON numbers; non-finite ones are left out.
pub open spec fn float_jsons(fs: Seq<FloatLiteral>) -> Seq<Json>
    decreases fs.len(),
{
    if fs.len() == 0 {
        Seq::empty()
    } else if finite_bits(fs.last().bits) {
        float_jsons(fs.drop_last()).push(Json::Float(fs.last().bits))
    } else {
        float_jsons(fs.drop_last())
    }
}

/// The JSON values of an enum.
pub open spec fn enum_jsons(vs: EnumValues) -> Seq<Json> {
    match vs {
        EnumValues::String(v) => v@.map_values(|s: String| Json::Str(s@)),
        EnumValues::Int(v) => v@.map_values(|n: i64| Json::Int(n as int)),
        EnumValues::Float(v) => float_jsons(v@),
    }
}

/// The type word of a primitive type.
pub open spec fn primitive_name(t: FunctionType) -> Seq<char> {
    match t {
        FunctionType::String => "string"@,
        FunctionType::Number => "number"@,
        FunctionType::Boolean => "boolean"@,
        _ => "null"@,
    }
}

/// The parameter appears in the `required` list.
pub open spec fn listed_required(p: FunctionParameter) -> bool {
    p.required && !(p._type is Option)
}

/// The entries that a type's schema consists of.
pub open spec fn type_entries(t: FunctionType) -> Seq<(Seq<char>, Json)>
    decreases t, 0int,
{
    match t {
        FunctionType::Option(inner) => type_entries(*inner),
        FunctionType::Enum(vs) => seq![
            ("type"@, Json::Str(enum_kind(vs))),
            ("enum"@, Json::Array(enum_jsons(vs))),
        ],
        FunctionType::Object(ps) => object_schema(ps@),
        FunctionType::Array(inner) => seq![
            ("type"@, Json::Str("array"@)),
            ("items"@, Json::Object(obj_insert_all(Seq::empty(), type_entries(*inner)))),
        ],
        FunctionType::MapOf(inner) => seq![
            ("type"@, Json::Str("object"@)),
            ("additionalProperties"@, Json::Object(obj_insert_all(Seq::empty(), type_entries(*inner)))),
        ],
        FunctionType::OneOf(vs) => seq![("oneOf"@, Json::Array(variant_schemas(vs@)))],
        _ => seq![("type"@, Json::Str(primitive_name(t)))],
    }
}

/// The schema object of a list of parameters:
/// `{"type": "object", "properties": {..}, "required": [..]}`.
pub open spec fn object_schema(ps: Seq<FunctionParameter>) -> Seq<(Seq<char>, Json)>
    decreases ps, 1int,
{
    obj_insert_all(
        Seq::empty(),
        seq![
            ("type"@, Json::Str("object"@)),
            ("properties"@, Json::Object(properties(ps))),
            ("required"@, Json::Array(required_names(ps).map_values(|n: Seq<char>| Json::Str(n)))),
        ],
    )
}

/// The `properties` object: each parameter's schema under its name (a later parameter with
/// the same name replaces an earlier one).
pub open spec fn properties(ps: Seq<FunctionParameter>) -> Seq<(Seq<char>, Json)>
    decreases ps, 0int,
{
    if ps.len() == 0 {
        Seq::empty()
    } else {
        obj_insert(
            properties(ps.drop_last()),
            ps.last().name@,
            Json::Object(param_schema(ps.last())),
        )
    }
}

/// The `required` list: names of the required parameters, in order.
pub open spec fn required_names(ps: Seq<FunctionParameter>) -> Seq<Seq<char>>
    decreases ps.len(),
{
    if ps.len() == 0 {
        Seq::empty()
    } else if listed_required(ps.last()) {
        required_names(ps.drop_last()).push(ps.last().name@)
    } else {
        required_names(ps.drop_last())
    }
}

/// Adds a description entry when there is one.
pub open spec fn with_description(m: Seq<(Seq<char>, Json)>, d: Option<String>) -> Seq<
    (Seq<char>, Json),
> {
    match d {
        Some(d) => obj_insert(m, "description"@, Json::Str(d@)),
        None => m,
    }
}

/// The schema of one parameter: its type's schema plus its description.
pub open spec fn param_schema(p: FunctionParameter) -> Seq<(Seq<char>, Json)>
    decreases p, 0int,
{
    with_description(obj_insert_all(Seq::empty(), type_entries(p._type)), p.description)
}

/// The `oneOf` list.
pub open spec fn variant_schemas(vs: Seq<FunctionVariant>) -> Seq<Json>
    decreases vs, 0int,
{
    if vs.len() == 0 {
        Seq::empty()
    } else {
        variant_schemas(vs.drop_last()).push(Json::Object(variant_schema(vs.last())))
    }
}

/// The schema of one variant: a string constant for a unit variant, an object schema
/// otherwise, titled with the variant's name.
pub open spec fn variant_schema(v: FunctionVariant) -> Seq<(Seq<char>, Json)>
    decreases v, 0int,
{
    let base = if v.parameters@.len() == 0 {
        obj_insert(
            obj_insert(Seq::empty(), "type"@, Json::Str("string"@)),
            "enum"@,
            Json::Array(seq![Json::Str(v.name@)]),
        )
    } else {
        object_schema(v.parameters@)
    };
    with_description(obj_insert(base, "title"@, Json::Str(v.name@)), v.description)
}

/// The JSON description of a function tool.
pub open spec fn function_schema(f: FunctionCall) -> Seq<(Seq<char>, Json)> {
    let head = obj_insert(Seq::empty(), "name"@, Json::Str(f.name@));
    let head = match f.description {
        Some(d) => obj_insert(head, "description"@, Json::Str(d@)),
        None => head,
    };
    obj_insert(head, "parameters"@, Json::Object(object_schema(f.parameters@)))
}

/// Texts of the values of an enum.
pub open spec fn enum_value_texts(vs: EnumValues) -> Seq<Seq<char>> {
    match vs {
        EnumValues::String(v) => v@.map_values(|s: String| s@),
        EnumValues::Int(v) => v@.map_values(|n: i64| decimal(n as int)),
        EnumValues::Float(v) => v@.map_values(|f: FloatLiteral| f.text@),
    }
}

/// The names of variants.
pub open spec fn variant_names(vs: Seq<FunctionVariant>) -> Seq<Seq<char>> {
    vs.map_values(|v: FunctionVariant| v.name@)
}

/// The human-readable type text, e.g. `array<string>`, `enum<a, b>`, `oneOf<A|B>`.
pub open spec fn display_text(t: FunctionType) -> Seq<char>
    decreases t,
{
    match t {
        FunctionType::String => "string"@,
        FunctionType::Number => "number"@,
        FunctionType::Boolean => "boolean"@,
        FunctionType::Array(inner) => "array<"@ + display_text(*inner) + ">"@,
        FunctionType::Object(_) => "object"@,
        FunctionType::Null => "null"@,
        FunctionType::Enum(vs) => "enum<"@ + join(enum_value_texts(vs), ", "@) + ">"@,
        FunctionType::Option(inner) => "Option<"@ + display_text(*inner) + ">"@,
        FunctionType::MapOf(inner) => "map<"@ + display_text(*inner) + ">"@,
        FunctionType::OneOf(vs) => "oneOf<"@ + join(variant_names(vs@), "|"@) + ">"@,
    }
}

/// `open + inner + close`.
fn wrap_text(open: &str, inner: String, close: &str) -> (s: String)
    ensures
        s@ == open@ + inner@ + close@,
{
    let mut s = open.to_string();
    s.append(inner.as_str());
    s.append(close);
    s
}

/// The texts of an enum's values joined with `", "`.
fn enum_values_text(vs: &EnumValues) -> (s: String)
    ensures
        s@ == join(enum_value_texts(*vs), ", "@),
{
    let mut out = String::new();
    match vs {
        EnumValues::String(v) => {
            let ghost texts = v@.map_values(|s: String| s@);
            let mut i: usize = 0;
            while i < v.len()
                invariant
                    i <= v.len(),
                    texts == v@.map_values(|s: String| s@),
                    out@ == join(texts.take(i as int), ", "@),
                decreases v.len() - i,
            {
                append_joined(&mut out, Ghost(texts.take(i as int)), i == 0, ", ", v[i].as_str());
                assert(texts.take(i as int).push(v@[i as int]@) =~= texts.take(i + 1));
                i += 1;
            }
            assert(texts.take(v.len() as int) =~= texts);
        },
        EnumValues::Int(v) => {
            let ghost texts = v@.map_values(|n: i64| decimal(n as int));
            let mut i: usize = 0;
            while i < v.len()
                invariant
                    i <= v.len(),
                    texts == v@.map_values(|n: i64| decimal(n as int)),
                    out@ == join(texts.take(i as int), ", "@),
                decreases v.len() - i,
            {
                let d = decimal_text(v[i]);
                append_joined(&mut out, Ghost(texts.take(i as int)), i == 0, ", ", d.as_str());
                assert(texts.take(i as int).push(d@) =~= texts.take(i + 1));
                i += 1;
            }
            assert(texts.take(v.len() as int) =~= texts);
        },
        EnumValues::Float(v) => {
            let ghost texts = v@.map_values(|f: FloatLiteral| f.text@);
            let mut i: usize = 0;
            while i < v.len()
                invariant
                    i <= v.len(),
                    texts == v@.map_values(|f: FloatLiteral| f.text@),
                    out@ == join(texts.take(i as int), ", "@),
                decreases v.len() - i,
            {
                append_joined(&mut out, Ghost(texts.take(i as int)), i == 0, ", ", v[i].text.as_str());
                assert(texts.take(i as int).push(v@[i as int].text@) =~= texts.take(i + 1));
                i += 1;
            }
            assert(texts.take(v.len() as int) =~= texts);
        },
    }
    out
}

/// The variant names joined with `"|"`.
fn variant_names_text(vs: &Vec<FunctionVariant>) -> (s: String)
    ensures
        s@ == join(variant_names(vs@), "|"@),
{
    let mut out = String::new();
    let ghost names = variant_names(vs@);
    let mut i: usize = 0;
    while i < vs.len()
        invariant
            i <= vs.len(),
            names == variant_names(vs@),
            out@ == join(names.take(i as int), "|"@),
        decreases vs.len() - i,
    {
        append_joined(&mut out, Ghost(names.take(i as int)), i == 0, "|", vs[i].name.as_str());
        assert(names.take(i as int).push(vs@[i as int].name@) =~= names.take(i + 1));
        i += 1;
    }
    assert(names.take(vs.len() as int) =~= names);
    out
}

impl FunctionType {
    /// The human-readable type text (what `Display` shows).
    pub fn to_display_string(&self) -> (s: String)
        ensures
            s@ == display_text(*self),
        decreases self,
    {
        match self {
            FunctionType::String => "string".to_string(),
            FunctionType::Number => "number".to_string(),
            FunctionType::Boolean => "boolean".to_string(),
            FunctionType::Array(inner) => wrap_text("array<", inner.to_display_string(), ">"),
            FunctionType::Object(_) => "object".to_string(),
            FunctionType::Null => "null".to_string(),
            FunctionType::Enum(vs) => wrap_text("enum<", enum_values_text(vs), ">"),
            FunctionType::Option(inner) => wrap_text("Option<", inner.to_display_string(), ">"),
            FunctionType::MapOf(inner) => wrap_text("map<", inner.to_display_string(), ">"),
            FunctionType::OneOf(vs) => wrap_text("oneOf<", variant_names_text(vs), ">"),
        }
    }
}

/// The JSON values of an enum's values (non-finite floats are left out).
fn enum_json_values(values: &EnumValues) -> (out: Vec<JsonValue>)
    ensures
        models(out@) == enum_jsons(*values),
{
    let mut out: Vec<JsonValue> = Vec::new();
    match values {
        EnumValues::String(v) => {
            let mut i: usize = 0;
            while i < v.len()
                invariant
                    i <= v.len(),
                    models(out@) == v@.take(i as int).map_values(|s: String| Json::Str(s@)),
                decreases v.len() - i,
            {
                push_value(&mut out, json_str(v[i].as_str()));
                assert(v@.take(i + 1).map_values(|s: String| Json::Str(s@)) =~= v@.take(
                    i as int,
                ).map_values(|s: String| Json::Str(s@)).push(Json::Str(v@[i as int]@)));
                i += 1;
            }
            assert(v@.take(v.len() as int) =~= v@);
        },
        EnumValues::Int(v) => {
            let mut i: usize = 0;
            while i < v.len()
                invariant
                    i <= v.len(),
                    models(out@) == v@.take(i as int).map_values(|n: i64| Json::Int(n as int)),
                decreases v.len() - i,
            {
                push_value(&mut out, JsonValue::Int(v[i]));
                assert(v@.take(i + 1).map_values(|n: i64| Json::Int(n as int)) =~= v@.take(
                    i as int,
                ).map_values(|n: i64| Json::Int(n as int)).push(Json::Int(v@[i as int] as int)));
                i += 1;
            }
            assert(v@.take(v.len() as int) =~= v@);
        },
        EnumValues::Float(v) => {
            let mut i: usize = 0;
            while i < v.len()
                invariant
                    i <= v.len(),
                    models(out@) == float_jsons(v@.take(i as int)),
                decreases v.len() - i,
            {
                assert(v@.take(i + 1).drop_last() =~= v@.take(i as int));
                let bits = v[i].bits;
                if (bits >> 52u64) & 0x7ffu64 != 0x7ffu64 {
                    push_value(&mut out, JsonValue::Float(bits));
                }
                i += 1;
            }
            assert(v@.take(v.len() as int) =~= v@);
        },
    }
    out
}

/// Inserts the schema of an enum type: its JSON type word and its values.
pub fn insert_enum_type(param_map: &mut JsonObject, values: &EnumValues)
    ensures
        final(param_map).model() == obj_insert_all(
            old(param_map).model(),
            seq![("type"@, Json::Str(enum_kind(*values))), ("enum"@, Json::Array(enum_jsons(*values)))],
        ),
{
    let type_str = match values {
        EnumValues::String(_) => "string",
        _ => "number",
    };
    let enum_values = enum_json_values(values);
    param_map.insert("type".to_string(), json_str(type_str));
    param_map.insert("enum".to_string(), JsonValue::Array(enum_values));
    proof {
        lemma_insert_all_two(
            old(param_map).model(),
            ("type"@, Json::Str(enum_kind(*values))),
            ("enum"@, Json::Array(enum_jsons(*values))),
        );
    }
}

/// Inserts the schema of a type into `param_map`.
pub fn insert_type(param_map: &mut JsonObject, _type: &FunctionType)
    ensures
        final(param_map).model() == obj_insert_all(old(param_map).model(), type_entries(*_type)),
    decreases _type, 0int,
{
    match _type {
        FunctionType::Option(inner) => insert_type(param_map, inner),
        FunctionType::Enum(values) => insert_enum_type(param_map, values),
        FunctionType::Object(obj) => insert_obj_into_param_map(param_map, obj),
        FunctionType::Array(items) => parse_array(param_map, items),
        FunctionType::MapOf(value) => parse_map(param_map, value),
        FunctionType::OneOf(variants) => parse_oneof(param_map, variants),
        _ => {
            let name = _type.to_display_string();
            param_map.insert("type".to_string(), JsonValue::String(name));
            proof {
                lemma_insert_all_one(
                    old(param_map).model(),
                    ("type"@, Json::Str(primitive_name(*_type))),
                );
            }
        },
    }
}

/// Inserts an array schema: `"type": "array"` and the schema of the items.
fn parse_array(param_map: &mut JsonObject, items: &FunctionType)
    ensures
        final(param_map).model() == obj_insert_all(
            old(param_map).model(),
            seq![
                ("type"@, Json::Str("array"@)),
                ("items"@, Json::Object(obj_insert_all(Seq::empty(), type_entries(*items)))),
            ],
        ),
    decreases items, 1int,
{
    param_map.insert("type".to_string(), json_str("array"));
    let mut items_map = JsonObject::new();
    insert_type(&mut items_map, items);
    param_map.insert("items".to_string(), JsonValue::Object(items_map));
    proof {
        lemma_insert_all_two(
            old(param_map).model(),
            ("type"@, Json::Str("array"@)),
            ("items"@, Json::Object(obj_insert_all(Seq::empty(), type_entries(*items)))),
        );
    }
}

/// Inserts a map schema: `"type": "object"` and the schema of the values.
fn parse_map(param_map: &mut JsonObject, value: &FunctionType)
    ensures
        final(param_map).model() == obj_insert_all(
            old(param_map).model(),
            seq![
                ("type"@, Json::Str("object"@)),
                (
                    "additionalProperties"@,
                    Json::Object(obj_insert_all(Seq::empty(), type_entries(*value))),
                ),
            ],
        ),
    decreases value, 1int,
{
    param_map.insert("type".to_string(), json_str("object"));
    let mut additional = JsonObject::new();
    insert_type(&mut additional, value);
    param_map.insert("additionalProperties".to_string(), JsonValue::Object(additional));
    proof {
        lemma_insert_all_two(
            old(param_map).model(),
            ("type"@, Json::Str("object"@)),
            (
                "additionalProperties"@,
                Json::Object(obj_insert_all(Seq::empty(), type_entries(*value))),
            ),
        );
    }
}

/// Inserts a `oneOf` schema with one entry per variant.
fn parse_oneof(param_map: &mut JsonObject, variants: &Vec<FunctionVariant>)
    ensures
        final(param_map).model() == obj_insert_all(
            old(param_map).model(),
            seq![("oneOf"@, Json::Array(variant_schemas(variants@)))],
        ),
    decreases variants@, 0int,
{
    let mut arr: Vec<JsonValue> = Vec::new();
    let mut i: usize = 0;
    while i < variants.len()
        invariant
            i <= variants.len(),
            models(arr@) == variant_schemas(variants@.take(i as int)),
        decreases variants.len() - i,
    {
        let v = &variants[i];
        let mut variant_schema_map = if v.parameters.len() == 0 {
            let mut m = JsonObject::new();
            m.insert("type".to_string(), json_str("string"));
            let mut names: Vec<JsonValue> = Vec::new();
            push_value(&mut names, json_str(v.name.as_str()));
            assert(models(names@) =~= seq![Json::Str(v.name@)]);
            m.insert("enum".to_string(), JsonValue::Array(names));
            m
        } else {
            parse_obj(&v.parameters)
        };
        variant_schema_map.insert("title".to_string(), json_str(v.name.as_str()));
        match &v.description {
            Some(desc) => variant_schema_map.insert("description".to_string(), json_str(desc.as_str())),
            None => {},
        }
        assert(variants@.take(i + 1).drop_last() =~= variants@.take(i as int));
        assert(variants@.take(i + 1).last() == variants@[i as int]);
        assert(variant_schema_map.model() == variant_schema(variants@[i as int]));
        push_value(&mut arr, JsonValue::Object(variant_schema_map));
        i += 1;
    }
    assert(variants@.take(variants.len() as int) =~= variants@);
    param_map.insert("oneOf".to_string(), JsonValue::Array(arr));
    proof {
        lemma_insert_all_one(
            old(param_map).model(),
            ("oneOf"@, Json::Array(variant_schemas(variants@))),
        );
    }
}

/// Inserts the object schema of `obj` into `param_map`.
pub fn insert_obj_into_param_map(param_map: &mut JsonObject, obj: &Vec<FunctionParameter>)
    ensures
        final(param_map).model() == obj_insert_all(old(param_map).model(), object_schema(obj@)),
    decreases obj@, 2int,
{
    let schema = parse_obj(obj);
    param_map.insert_all(schema);
}

/// The object schema of a list of parameters.
pub fn parse_obj(obj: &Vec<FunctionParameter>) -> (out: JsonObject)
    ensures
        out.model() == object_schema(obj@),
    decreases obj@, 1int,
{
    let (fields_map, required_params) = parse_fields(obj);
    let mut out = JsonObject::new();
    out.insert("type".to_string(), json_str("object"));
    out.insert("properties".to_string(), JsonValue::Object(fields_map));
    let mut required: Vec<JsonValue> = Vec::new();
    let mut i: usize = 0;
    while i < required_params.len()
        invariant
            i <= required_params.len(),
            models(required@) == required_params@.take(i as int).map_values(
                |s: String| Json::Str(s@),
            ),
        decreases required_params.len() - i,
    {
        push_value(&mut required, json_str(required_params[i].as_str()));
        assert(required_params@.take(i + 1).map_values(|s: String| Json::Str(s@))
            =~= required_params@.take(i as int).map_values(|s: String| Json::Str(s@)).push(
            Json::Str(required_params@[i as int]@),
        ));
        i += 1;
    }
    assert(required_params@.take(required_params.len() as int) =~= required_params@);
    assert(required_params@.map_values(|s: String| Json::Str(s@)) =~= required_names(obj@).map_values(
        |n: Seq<char>| Json::Str(n),
    ));
    out.insert("required".to_string(), JsonValue::Array(required));
    proof {
        lemma_insert_all_three(
            Seq::empty(),
            ("type"@, Json::Str("object"@)),
            ("properties"@, Json::Object(properties(obj@))),
            (
                "required"@,
                Json::Array(required_names(obj@).map_values(|n: Seq<char>| Json::Str(n))),
            ),
        );
    }
    out
}

/// The `properties` object and `required` names of a list of parameters.
fn parse_fields(fields: &Vec<FunctionParameter>) -> (r: (JsonObject, Vec<String>))
    ensures
        r.0.model() == properties(fields@),
        r.1@.map_values(|s: String| s@) == required_names(fields@),
    decreases fields@, 0int,
{
    let mut fields_map = JsonObject::new();
    let mut required_params: Vec<String> = Vec::new();
    let mut i: usize = 0;
    while i < fields.len()
        invariant
            i <= fields.len(),
            fields_map.model() == properties(fields@.take(i as int)),
            required_params@.map_values(|s: String| s@) == required_names(fields@.take(i as int)),
        decreases fields.len() - i,
    {
        assert(fields@.take(i + 1).drop_last() =~= fields@.take(i as int));
        insert_param(&mut fields_map, &mut required_params, &fields[i]);
        i += 1;
    }
    assert(fields@.take(fields.len() as int) =~= fields@);
    (fields_map, required_params)
}

/// Adds one parameter: its schema under its name, and its name to `required_params` when it
/// is required and not an `Option`.
pub fn insert_param(
    params_map: &mut JsonObject,
    required_params: &mut Vec<String>,
    param: &FunctionParameter,
)
    ensures
        final(params_map).model() == obj_insert(
            old(params_map).model(),
            param.name@,
            Json::Object(param_schema(*param)),
        ),
        final(required_params)@.map_values(|s: String| s@) == if listed_required(*param) {
            old(required_params)@.map_values(|s: String| s@).push(param.name@)
        } else {
            old(required_params)@.map_values(|s: String| s@)
        },
    decreases param, 0int,
{
    let is_option = match &param._type {
        FunctionType::Option(_) => true,
        _ => false,
    };
    if param.required && !is_option {
        required_params.push(param.name.clone());
        assert(required_params@.map_values(|s: String| s@) =~= old(required_params)@.map_values(
            |s: String| s@,
        ).push(param.name@));
    }
    let mut param_map = JsonObject::new();
    insert_type(&mut param_map, &param._type);
    match &param.description {
        Some(description) => param_map.insert("description".to_string(), json_str(description.as_str())),
        None => {},
    }
    params_map.insert(param.name.clone(), JsonValue::Object(param_map));
}

impl FunctionCall {
    /// The JSON description sent for this tool (what serialising it writes).
    pub fn to_json(&self) -> (out: JsonObject)
        ensures
            out.model() == function_schema(*self),
    {
        let mut map = init_parsing_fn(self);
        map.insert("parameters".to_string(), JsonValue::Object(parse_obj(&self.parameters)));
        map
    }
}

/// The `name` and `description` entries of a tool's description.
fn init_parsing_fn(fn_def: &FunctionCall) -> (json: JsonObject)
    ensures
        json.model() == ({
            let head = obj_insert(Seq::empty(), "name"@, Json::Str(fn_def.name@));
            match fn_def.description {
                Some(d) => obj_insert(head, "description"@, Json::Str(d@)),
                None => head,
            }
        }),
{
    let mut json = JsonObject::new();
    json.insert("name".to_string(), json_str(fn_def.name.as_str()));
    match &fn_def.description {
        Some(desc) => json.insert("description".to_string(), json_str(desc.as_str())),
        None => {},
    }
    json
}

/// Parameters are required unless said otherwise.
pub fn default_required() -> (b: bool)
    ensures
        b,
{
    true
}

impl FunctionCall {
    /// A tool with an empty name, no description and no parameters.
    pub fn new() -> (f: FunctionCall)
        ensures
            f.name@ == Seq::<char>::empty(),
            f.description is None,
            f.parameters@.len() == 0,
    {
        FunctionCall { name: String::new(), description: None, parameters: Vec::new() }
    }
}

impl Default for FunctionCall {
    fn default() -> (f: FunctionCall)
        ensures
            f.name@ == Seq::<char>::empty(),
            f.description is None,
            f.parameters@.len() == 0,
    {
        FunctionCall::new()
    }
}

impl FunctionParameter {
    /// A required parameter of the given name and type, without description.
    pub fn new(name: &str, _type: FunctionType) -> (p: FunctionParameter)
        ensures
            p.name@ == name@,
            p._type == _type,
            p.description is None,
            p.required,
    {
        FunctionParameter { name: name.to_string(), _type, description: None, required: true }
    }

    /// The parameter with the given description.
    pub fn description(self, d: &str) -> (p: FunctionParameter)
        ensures
            p.name == self.name,
            p._type == self._type,
            p.description matches Some(t) && t@ == d@,
            p.required == self.required,
    {
        FunctionParameter { description: Some(d.to_string()), ..self }
    }

    /// The parameter with `required` set to `v`.
    pub fn required(self, v: bool) -> (p: FunctionParameter)
        ensures
            p.name == self.name,
            p._type == self._type,
            p.description == self.description,
            p.required == v,
    {
        FunctionParameter { required: v, ..self }
    }
}

impl Default for FunctionParameter {
    fn default() -> (p: FunctionParameter)
        ensures
            p.name@ == Seq::<char>::empty(),
            p._type == FunctionType::String,
            p.description is None,
            p.required,
    {
        FunctionParameter {
            name: String::new(),
            _type: FunctionType::String,
            description: None,
            required: default_required(),
        }
    }
}

/// Key `k` occurs among the entries `m`.
pub open spec fn has_key(m: Seq<(Seq<char>, Json)>, k: Seq<char>) -> bool {
    exists|i: int| 0 <= i < m.len() && m[i].0 == k
}

/// A key that occurs has a first position.
pub proof fn lemma_has_key_index(m: Seq<(Seq<char>, Json)>, k: Seq<char>)
    ensures
        has_key(m, k) <==> key_index(m, k) is Some,
{
    if has_key(m, k) {
        let j = choose|j: int| 0 <= j < m.len() && m[j].0 == k;
        lemma_first_key_index(m, k, j);
    }
    if key_index(m, k) is Some {
        let i = choose|i: int| is_key_index(m, k, i);
        assert(m[i].0 == k);
    }
}

proof fn lemma_first_key_index(m: Seq<(Seq<char>, Json)>, k: Seq<char>, j: int)
    requires
        0 <= j < m.len(),
        m[j].0 == k,
    ensures
        exists|i: int| is_key_index(m, k, i),
    decreases j,
{
    if exists|i: int| 0 <= i < j && m[i].0 == k {
        let i = choose|i: int| 0 <= i < j && m[i].0 == k;
        lemma_first_key_index(m, k, i);
    } else {
        assert(is_key_index(m, k, j));
    }
}

/// Setting a key leaves it present, and keeps every key that was present.
pub proof fn lemma_insert_keys(m: Seq<(Seq<char>, Json)>, k: Seq<char>, v: Json, k2: Seq<char>)
    ensures
        has_key(obj_insert(m, k, v), k),
        has_key(m, k2) ==> has_key(obj_insert(m, k, v), k2),
{
    lemma_has_key_index(m, k);
    let r = obj_insert(m, k, v);
    match key_index(m, k) {
        Some(i) => {
            let w = choose|w: int| is_key_index(m, k, w);
            assert(r[i].0 == k);
            if has_key(m, k2) {
                let j = choose|j: int| 0 <= j < m.len() && m[j].0 == k2;
                if j == i {
                    assert(r[i].0 == k2);
                } else {
                    assert(r[j].0 == k2);
                }
            }
        },
        None => {
            assert(r[m.len() as int].0 == k);
            if has_key(m, k2) {
                let j = choose|j: int| 0 <= j < m.len() && m[j].0 == k2;
                assert(r[j].0 == k2);
            }
        },
    }
}

/// Every name in a schema's `required` list is one of its properties.
pub proof fn law_required_are_properties(ps: Seq<FunctionParameter>, n: Seq<char>)
    requires
        required_names(ps).contains(n),
    ensures
        has_key(properties(ps), n),
    decreases ps.len(),
{
    let rest = ps.drop_last();
    let p = ps.last();
    lemma_insert_keys(properties(rest), p.name@, Json::Object(param_schema(p)), n);
    if n != p.name@ {
        if listed_required(p) {
            let i = choose|i: int| 0 <= i < required_names(ps).len() && required_names(ps)[i] == n;
            assert(required_names(rest).contains(n)) by {
                assert(required_names(ps) == required_names(rest).push(p.name@));
                assert(i < required_names(rest).len());
                assert(required_names(rest)[i] == n);
            }
        }
        law_required_are_properties(rest, n);
    }
}

/// A name is in the `required` list exactly when some parameter of that name is required and
/// not optional.
pub proof fn law_required_iff(ps: Seq<FunctionParameter>, n: Seq<char>)
    ensures
        required_names(ps).contains(n) <==> exists|i: int|
            0 <= i < ps.len() && #[trigger] ps[i].name@ == n && listed_required(ps[i]),
    decreases ps.len(),
{
    if ps.len() > 0 {
        let rest = ps.drop_last();
        law_required_iff(rest, n);
        if required_names(ps).contains(n) {
            let k = choose|k: int| 0 <= k < required_names(ps).len() && required_names(ps)[k] == n;
            if listed_required(ps.last()) && k == required_names(rest).len() {
                assert(ps[ps.len() - 1].name@ == n);
            } else {
                assert(required_names(rest)[k] == n);
                let i = choose|i: int|
                    0 <= i < rest.len() && #[trigger] rest[i].name@ == n && listed_required(rest[i]);
                assert(ps[i] == rest[i]);
            }
        }
        if exists|i: int| 0 <= i < ps.len() && #[trigger] ps[i].name@ == n && listed_required(ps[i]) {
            let i = choose|i: int| 0 <= i < ps.len() && #[trigger] ps[i].name@ == n && listed_required(ps[i]);
            if i == ps.len() - 1 {
                assert(required_names(ps)[required_names(ps).len() - 1] == n);
            } else {
                assert(rest[i] == ps[i]);
                assert(rest[i].name@ == n);
                let k = choose|k: int| 0 <= k < required_names(rest).len() && required_names(rest)[k] == n;
                if listed_required(ps.last()) {
                    assert(required_names(ps)[k] == n);
                }
            }
        }
    }
}

/// The finite floats kept in an enum are JSON floats.
proof fn lemma_float_jsons_are_floats(fs: Seq<FloatLiteral>)
    ensures
        forall|k: int| 0 <= k < float_jsons(fs).len() ==> #[trigger] float_jsons(fs)[k] is Float,
    decreases fs.len(),
{
    if fs.len() > 0 {
        lemma_float_jsons_are_floats(fs.drop_last());
    }
}

/// The schema of an enum parameter is `{"type": w, "enum": values}`, and its type word `w`
/// describes every listed value: `"string"` for string enums, `"number"` for integer and float
/// enums. (An enum type inside `Option` has the same schema.)
pub proof fn law_enum_type_matches_values(vs: EnumValues, k: int)
    ensures
        type_entries(FunctionType::Enum(vs)).len() == 2,
        type_entries(FunctionType::Enum(vs))[0].0 == "type"@,
        type_entries(FunctionType::Enum(vs))[1].0 == "enum"@,
        type_entries(FunctionType::Option(Box::new(FunctionType::Enum(vs)))) == type_entries(
            FunctionType::Enum(vs),
        ),
        ({
            let w = type_entries(FunctionType::Enum(vs))[0].1;
            let js = type_entries(FunctionType::Enum(vs))[1].1;
            &&& w is Str
            &&& js is Array
            &&& 0 <= k < js->Array_0.len() ==> json_kind(js->Array_0[k]) == w->Str_0
        }),
{
    match vs {
        EnumValues::Float(fs) => lemma_float_jsons_are_floats(fs@),
        _ => {},
    }
}

} // verus!

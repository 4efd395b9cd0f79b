//! Tool descriptions read from a serialised struct declaration such as
//! `GetWeather { city : String, days : Vec < u8 > }`: the tool is named after the struct in
//! snake case, and every field becomes a required parameter.
use vstd::prelude::*;
use vstd::string::*;
use crate::sse::{first_match, is_first_match, matches_at};
use crate::text::{
    is_space, trim_end_spec, trim_start_spec, chars_of, first_index, has_prefix, lemma_trim_len, push_char, starts_with, str_eq, trim,
    trim_spec,
};
use crate::tool::{FunctionCall, FunctionParameter, FunctionType};

verus! {

broadcast use vstd::string::group_string_axioms;

/// Whether `char::is_uppercase` holds of `c` (Unicode `Uppercase` property).
pub uninterp spec fn uppercase(c: char) -> bool;

/// The characters that `char::to_lowercase` yields for `c`.
pub uninterp spec fn lowercase(c: char) -> Seq<char>;

/// `char::is_uppercase`.
#[verifier::external_body]
fn is_uppercase(c: char) -> (b: bool)
    ensures
        b == uppercase(c),
{
    c.is_uppercase()
}

/// `char::to_lowercase`, collected into a string. Its documentation says it yields at least
/// one character (the character itself when it has no lowercase form).
#[verifier::external_body]
fn to_lowercase(c: char) -> (s: String)
    ensures
        s@ == lowercase(c),
        s@.len() >= 1,
{
    c.to_lowercase().to_string()
}

/// What character `i` of a name becomes in snake case.
pub open spec fn snake_part(i: int, c: char) -> Seq<char> {
    if uppercase(c) {
        (if i != 0 {
            seq!['_']
        } else {
            Seq::empty()
        }) + lowercase(c)
    } else {
        seq![lowercase(c)[0]]
    }
}

/// `s` in snake case: an uppercase letter becomes `_` (except first) and its lowercase form,
/// any other character its (first) lowercase character.
pub open spec fn snake_case(s: Seq<char>) -> Seq<char>
    decreases s.len(),
{
    if s.len() == 0 {
        Seq::empty()
    } else {
        snake_case(s.drop_last()) + snake_part(s.len() - 1, s.last())
    }
}

/// Converts a name to snake case.
fn to_snake_case(s: &str) -> (r: String)
    ensures
        r@ == snake_case(s@),
{
    let v = chars_of(s);
    let mut snake_case_text = String::new();
    let mut i: usize = 0;
    assert(s@.take(0) =~= Seq::<char>::empty());
    while i < v.len()
        invariant
            i <= v.len(),
            v@ == s@,
            snake_case_text@ == snake_case(s@.take(i as int)),
        decreases v.len() - i,
    {
        let c = v[i];
        assert(s@.take(i + 1).drop_last() =~= s@.take(i as int));
        if is_uppercase(c) {
            if i != 0 {
                push_char(&mut snake_case_text, '_');
            }
            let low = to_lowercase(c);
            snake_case_text.append(low.as_str());
        } else {
            let low = to_lowercase(c);
            push_char(&mut snake_case_text, low.as_str().get_char(0));
        }
        assert(snake_case_text@ =~= snake_case(s@.take(i + 1)));
        i += 1;
    }
    assert(s@.take(v.len() as int) =~= s@);
    snake_case_text
}

/// Pieces of `s` between the separators `c`, where `cur` is the piece being read.
pub open spec fn split_from(s: Seq<char>, cur: Seq<char>, c: char) -> Seq<Seq<char>>
    decreases s.len(),
{
    if s.len() == 0 {
        seq![cur]
    } else if s[0] == c {
        seq![cur] + split_from(s.drop_first(), Seq::empty(), c)
    } else {
        split_from(s.drop_first(), cur.push(s[0]), c)
    }
}

/// The pieces of `s` between the separators `c` (`str::split`, empty pieces included).
pub open spec fn split_on(s: Seq<char>, c: char) -> Seq<Seq<char>> {
    split_from(s, Seq::empty(), c)
}

/// Splits `s` at every `c`.
fn split_char(s: &str, c: char) -> (r: Vec<String>)
    ensures
        r@.map_values(|x: String| x@) == split_on(s@, c),
{
    let v = chars_of(s);
    let mut out: Vec<String> = Vec::new();
    let mut start: usize = 0;
    let mut i: usize = 0;
    assert(s@.skip(0) =~= s@);
    assert(s@.subrange(0, 0) =~= Seq::<char>::empty());
    while i < v.len()
        invariant
            start <= i <= v.len(),
            v@ == s@,
            split_on(s@, c) == out@.map_values(|x: String| x@) + split_from(
                s@.skip(i as int),
                s@.subrange(start as int, i as int),
                c,
            ),
        decreases v.len() - i,
    {
        let ghost rest = s@.skip(i as int);
        assert(rest[0] == v@[i as int]);
        assert(rest.drop_first() =~= s@.skip(i + 1));
        if v[i] == c {
            let piece = s.substring_char(start, i).to_string();
            let ghost prev = out@.map_values(|x: String| x@);
            out.push(piece);
            assert(out@.map_values(|x: String| x@) =~= prev + seq![s@.subrange(start as int, i as int)]);
            start = i + 1;
            assert(s@.subrange(start as int, start as int) =~= Seq::<char>::empty());
        } else {
            assert(s@.subrange(start as int, i as int).push(v@[i as int]) =~= s@.subrange(
                start as int,
                i + 1,
            ));
        }
        i += 1;
    }
    let piece = s.substring_char(start, v.len()).to_string();
    let ghost prev = out@.map_values(|x: String| x@);
    out.push(piece);
    assert(out@.map_values(|x: String| x@) =~= prev + seq![s@.subrange(start as int, v@.len() as int)]);
    assert(s@.skip(v@.len() as int) =~= Seq::<char>::empty());
    out
}

/// The error for a declaration without an opening brace.
pub open spec fn missing_brace_message() -> Seq<char> {
    "Invalid struct serialization: missing opening brace"@
}

/// The error for a declaration with nothing after its opening brace.
pub open spec fn no_parameters_message() -> Seq<char> {
    "Invalid struct serialization: no parameters found"@
}

/// The tool name read from a struct declaration: the text before the first `" {"`, trimmed and
/// in snake case.
pub open spec fn struct_name(s: Seq<char>) -> Result<Seq<char>, Seq<char>> {
    match first_match(s, " {"@) {
        Some(e) => Ok(snake_case(trim_spec(s.take(e)))),
        None => Err(missing_brace_message()),
    }
}

/// The field list of a struct declaration: the trimmed text after the first `{`.
pub open spec fn fields_text(s: Seq<char>) -> Result<Seq<char>, Seq<char>> {
    match first_index(s, '{') {
        Some(i) => {
            let p = trim_spec(s.skip(i + 1));
            if p.len() == 0 {
                Err(no_parameters_message())
            } else {
                Ok(p)
            }
        },
        None => Err(missing_brace_message()),
    }
}

/// The type a field's type text stands for.
pub open spec fn field_type(t: Seq<char>) -> Result<FunctionType, Seq<char>>
    decreases t.len(),
{
    if has_prefix(t, "Vec < "@) && t.last() == '>' {
        proof {
            reveal_strlit("Vec < ");
        }
        let inner = trim_spec(t.subrange(5, t.len() - 1));
        proof {
            lemma_trim_len(t.subrange(5, t.len() - 1));
        }
        match field_type(inner) {
            Ok(x) => Ok(FunctionType::Array(Box::new(x))),
            Err(e) => Err(e),
        }
    } else if t == "u8"@ || t == "u16"@ || t == "u32"@ || t == "u64"@ || t == "u128"@ || t
        == "i8"@ || t == "i16"@ || t == "i32"@ || t == "i64"@ || t == "i128"@ || t == "f32"@ || t
        == "f64"@ {
        Ok(FunctionType::Number)
    } else if t == "String"@ {
        Ok(FunctionType::String)
    } else if t == "bool"@ {
        Ok(FunctionType::Boolean)
    } else {
        Err("Unsupported parameter type: "@ + t)
    }
}

/// A field `name : type` read as a parameter name and type.
pub open spec fn field_param(p: Seq<char>) -> Result<(Seq<char>, FunctionType), Seq<char>> {
    let parts = split_on(p, ':');
    if parts.len() != 2 {
        Err("Invalid parameter format in struct serialization: "@ + p)
    } else {
        match field_type(trim_spec(parts[1])) {
            Ok(t) => Ok((trim_spec(parts[0]), t)),
            Err(e) => Err(e),
        }
    }
}

/// Maps a field's type text to a [`FunctionType`].
fn map_type(param_type_str: &str) -> (r: Result<FunctionType, String>)
    ensures
        match r {
            Ok(x) => field_type(param_type_str@) == Ok::<FunctionType, Seq<char>>(x),
            Err(e) => field_type(param_type_str@) == Err::<FunctionType, Seq<char>>(e@),
        },
    decreases param_type_str@.len(),
{
    let n = param_type_str.unicode_len();
    proof {
        reveal_strlit("Vec < ");
    }
    if starts_with(param_type_str, "Vec < ") && param_type_str.get_char(n - 1) == '>' {
        let inner_type_str = trim(param_type_str.substring_char(5, n - 1));
        proof {
            lemma_trim_len(param_type_str@.subrange(5, n - 1));
        }
        return match map_type(inner_type_str) {
            Ok(inner) => Ok(FunctionType::Array(Box::new(inner))),
            Err(e) => Err(e),
        };
    }
    let t = param_type_str;
    if str_eq(t, "u8") || str_eq(t, "u16") || str_eq(t, "u32") || str_eq(t, "u64") || str_eq(
        t,
        "u128",
    ) || str_eq(t, "i8") || str_eq(t, "i16") || str_eq(t, "i32") || str_eq(t, "i64") || str_eq(
        t,
        "i128",
    ) || str_eq(t, "f32") || str_eq(t, "f64") {
        Ok(FunctionType::Number)
    } else if str_eq(t, "String") {
        Ok(FunctionType::String)
    } else if str_eq(t, "bool") {
        Ok(FunctionType::Boolean)
    } else {
        let mut msg = "Unsupported parameter type: ".to_string();
        msg.append(t);
        Err(msg)
    }
}

/// Reads one field `name : type` as a required parameter.
fn parse_parameter(param: &str) -> (r: Result<FunctionParameter, String>)
    ensures
        match r {
            Ok(p) => field_param(param@) == Ok::<(Seq<char>, FunctionType), Seq<char>>(
                (p.name@, p._type),
            ) && p.description is None && p.required,
            Err(e) => field_param(param@) == Err::<(Seq<char>, FunctionType), Seq<char>>(e@),
        },
{
    let param_parts = split_char(param, ':');
    proof {
        assert(param_parts@.map_values(|x: String| x@).len() == param_parts@.len());
    }
    if param_parts.len() != 2 {
        let mut msg = "Invalid parameter format in struct serialization: ".to_string();
        msg.append(param);
        return Err(msg);
    }
    let ghost parts = param_parts@.map_values(|x: String| x@);
    assert(parts[0] == param_parts@[0]@ && parts[1] == param_parts@[1]@);
    let param_name = trim(param_parts[0].as_str()).to_string();
    let param_type = map_type(trim(param_parts[1].as_str()))?;
    Ok(FunctionParameter { name: param_name, _type: param_type, description: None, required: true })
}

/// The tool name read from a struct declaration.
fn extract_struct_name(struct_serialised: &str) -> (r: Result<String, String>)
    ensures
        match r {
            Ok(n) => struct_name(struct_serialised@) == Ok::<Seq<char>, Seq<char>>(n@),
            Err(e) => struct_name(struct_serialised@) == Err::<Seq<char>, Seq<char>>(e@),
        },
{
    let v = chars_of(struct_serialised);
    let mut i: usize = 0;
    let ghost pat = " {"@;
    proof {
        reveal_strlit(" {");
    }
    while i < v.len() && v.len() - i >= 2
        invariant
            i <= v.len(),
            v@ == struct_serialised@,
            pat == seq![' ', '{'],
            pat == " {"@,
            forall|j: int| 0 <= j < i ==> !matches_at(v@, pat, j),
        decreases v.len() - i,
    {
        if v[i] == ' ' && v[i + 1] == '{' {
            proof {
                assert(v@.subrange(i as int, i + 2) =~= pat);
                assert(is_first_match(v@, pat, i as int));
                let w = choose|w: int| is_first_match(v@, pat, w);
                if w < i {
                    assert(!matches_at(v@, pat, w));
                } else if w > i {
                    assert(!matches_at(v@, pat, i as int));
                }
            }
            let name = trim(struct_serialised.substring_char(0, i));
            assert(struct_serialised@.subrange(0, i as int) =~= struct_serialised@.take(i as int));
            return Ok(to_snake_case(name));
        }
        proof {
            if matches_at(v@, pat, i as int) {
                assert(v@.subrange(i as int, i + 2)[0] == v@[i as int]);
                assert(v@.subrange(i as int, i + 2)[1] == v@[i + 1]);
            }
        }
        i += 1;
    }
    assert(!exists|w: int| is_first_match(v@, pat, w));
    Err("Invalid struct serialization: missing opening brace".to_string())
}

/// The field list of a struct declaration.
fn extract_parameters_string(struct_serialised: &str) -> (r: Result<&str, String>)
    ensures
        match r {
            Ok(p) => fields_text(struct_serialised@) == Ok::<Seq<char>, Seq<char>>(p@),
            Err(e) => fields_text(struct_serialised@) == Err::<Seq<char>, Seq<char>>(e@),
        },
{
    let v = chars_of(struct_serialised);
    let start = match crate::text::find_char(&v, '{') {
        Some(k) => {
            assert(k < v.len());
            k + 1
        },
        None => {
            return Err("Invalid struct serialization: missing opening brace".to_string());
        },
    };
    let params_str = trim(struct_serialised.substring_char(start, v.len()));
    assert(struct_serialised@.subrange(start as int, v@.len() as int) =~= struct_serialised@.skip(
        start as int,
    ));
    if params_str.is_empty() {
        return Err("Invalid struct serialization: no parameters found".to_string());
    }
    Ok(params_str)
}

/// `i` is the first field that cannot be read.
pub open spec fn is_first_bad_field(pieces: Seq<Seq<char>>, i: int) -> bool {
    &&& 0 <= i < pieces.len()
    &&& field_param(trim_spec(pieces[i])) is Err
    &&& forall|j: int| 0 <= j < i ==> field_param(trim_spec(#[trigger] pieces[j])) is Ok
}

/// The parameters read from a struct's field list: one per comma-separated field.
fn extract_parameters(struct_serialised: &str) -> (r: Result<Vec<FunctionParameter>, String>)
    ensures
        match r {
            Ok(ps) => fields_text(struct_serialised@) is Ok && {
                let pieces = split_on(fields_text(struct_serialised@)->Ok_0, ',');
                &&& ps@.len() == pieces.len()
                &&& forall|i: int|
                    0 <= i < ps@.len() ==> field_param(trim_spec(pieces[i]))
                        == Ok::<(Seq<char>, FunctionType), Seq<char>>(
                        (#[trigger] ps@[i].name@, ps@[i]._type),
                    ) && ps@[i].description is None && ps@[i].required
            },
            Err(e) => match fields_text(struct_serialised@) {
                Err(m) => e@ == m,
                Ok(t) => exists|i: int|
                    is_first_bad_field(split_on(t, ','), i) && field_param(
                        trim_spec(split_on(t, ',')[i]),
                    ) == Err::<(Seq<char>, FunctionType), Seq<char>>(e@),
            },
        },
{
    let params_str = extract_parameters_string(struct_serialised)?;
    let pieces = split_char(params_str, ',');
    let ghost views = pieces@.map_values(|x: String| x@);
    let mut out: Vec<FunctionParameter> = Vec::new();
    let mut i: usize = 0;
    while i < pieces.len()
        invariant
            i <= pieces@.len(),
            views == pieces@.map_values(|x: String| x@),
            views == split_on(params_str@, ','),
            fields_text(struct_serialised@) == Ok::<Seq<char>, Seq<char>>(params_str@),
            out@.len() == i,
            forall|j: int|
                0 <= j < i ==> field_param(trim_spec(views[j]))
                    == Ok::<(Seq<char>, FunctionType), Seq<char>>(
                    (#[trigger] out@[j].name@, out@[j]._type),
                ) && out@[j].description is None && out@[j].required,
        decreases pieces.len() - i,
    {
        assert(views[i as int] == pieces@[i as int]@);
        match parse_parameter(trim(pieces[i].as_str())) {
            Ok(p) => {
                out.push(p);
            },
            Err(e) => {
                proof {
                    assert(is_first_bad_field(views, i as int)) by {
                        assert forall|j: int| 0 <= j < i implies field_param(
                            trim_spec(#[trigger] views[j]),
                        ) is Ok by {
                            assert(field_param(trim_spec(views[j])) == Ok::<
                                (Seq<char>, FunctionType),
                                Seq<char>,
                            >((out@[j].name@, out@[j]._type)));
                        }
                    }
                }
                return Err(e);
            },
        }
        i += 1;
    }
    Ok(out)
}

/// Reads a tool description from a serialised struct declaration
/// `Name { field : Type, ... }`. Fails when the declaration has no `" {"`, no fields, or a
/// field that is not `name : type` with a supported type.
pub fn struct_to_fn_call(struct_serialised: &str) -> (r: Result<FunctionCall, String>)
    ensures
        match r {
            Ok(f) => struct_name(struct_serialised@) == Ok::<Seq<char>, Seq<char>>(f.name@)
                && f.description is None && fields_text(struct_serialised@) is Ok && {
                let pieces = split_on(fields_text(struct_serialised@)->Ok_0, ',');
                &&& f.parameters@.len() == pieces.len()
                &&& forall|i: int|
                    0 <= i < f.parameters@.len() ==> field_param(trim_spec(pieces[i]))
                        == Ok::<(Seq<char>, FunctionType), Seq<char>>(
                        (#[trigger] f.parameters@[i].name@, f.parameters@[i]._type),
                    ) && f.parameters@[i].description is None && f.parameters@[i].required
            },
            Err(e) => match struct_name(struct_serialised@) {
                Err(m) => e@ == m,
                Ok(_) => match fields_text(struct_serialised@) {
                    Err(m) => e@ == m,
                    Ok(t) => exists|i: int|
                        is_first_bad_field(split_on(t, ','), i) && field_param(
                            trim_spec(split_on(t, ',')[i]),
                        ) == Err::<(Seq<char>, FunctionType), Seq<char>>(e@),
                },
            },
        },
{
    let name = extract_struct_name(struct_serialised)?;
    let parameters = extract_parameters(struct_serialised)?;
    Ok(FunctionCall { name, description: None, parameters })
}

/// The kind of each scalar field type a struct declaration may use: `bool`, the fixed-size
/// integer and float types, and `String`.
pub open spec fn scalar_field_kind(t: Seq<char>) -> Option<FunctionType> {
    if t == "bool"@ {
        Some(FunctionType::Boolean)
    } else if t == "String"@ {
        Some(FunctionType::String)
    } else if t == "u8"@ || t == "u16"@ || t == "u32"@ || t == "u64"@ || t == "u128"@ || t
        == "i8"@ || t == "i16"@ || t == "i32"@ || t == "i64"@ || t == "i128"@ || t == "f32"@ || t
        == "f64"@ {
        Some(FunctionType::Number)
    } else {
        None
    }
}

/// Every scalar field type is read with its kind (`bool` a boolean, the numeric types numbers,
/// `String` a string), and a `Vec` of it (as the declaration spells it, `Vec < T >`) is an array
/// of that kind.
pub proof fn law_scalar_fields_supported(t: Seq<char>)
    requires
        scalar_field_kind(t) is Some,
    ensures
        ({
            let k = scalar_field_kind(t)->0;
            &&& field_type(t) == Ok::<FunctionType, Seq<char>>(k)
            &&& field_type("Vec < "@ + t + seq![' ', '>']) == Ok::<FunctionType, Seq<char>>(
                FunctionType::Array(Box::new(k)),
            )
        }),
{
    reveal_strlit("bool");
    reveal_strlit("String");
    reveal_strlit("u8");
    reveal_strlit("u16");
    reveal_strlit("u32");
    reveal_strlit("u64");
    reveal_strlit("u128");
    reveal_strlit("i8");
    reveal_strlit("i16");
    reveal_strlit("i32");
    reveal_strlit("i64");
    reveal_strlit("i128");
    reveal_strlit("f32");
    reveal_strlit("f64");
    reveal_strlit("Vec < ");
    let k = scalar_field_kind(t)->0;
    assert(t.len() > 0 && !is_space(t[0]) && !is_space(t.last()) && t[0] != 'V');
    assert(!has_prefix(t, "Vec < "@)) by {
        if has_prefix(t, "Vec < "@) {
            assert(t.take(6)[0] == t[0]);
        }
    }
    assert(field_type(t) == Ok::<FunctionType, Seq<char>>(k));
    let u = "Vec < "@ + t + seq![' ', '>'];
    assert(u.take(6) =~= "Vec < "@);
    assert(u.last() == '>');
    let mid = u.subrange(5, u.len() - 1);
    assert(mid =~= seq![' '] + t + seq![' ']);
    assert(mid[0] == ' ');
    assert(mid.drop_first() =~= t + seq![' ']);
    assert((t + seq![' '])[0] == t[0]);
    assert(is_space(' '));
    assert(trim_start_spec(t + seq![' ']) == t + seq![' ']);
    assert(trim_start_spec(mid) == trim_start_spec(mid.drop_first()));
    assert(trim_start_spec(mid) == t + seq![' ']);
    assert((t + seq![' ']).last() == ' ');
    assert((t + seq![' ']).drop_last() =~= t);
    assert(trim_end_spec(t) == t);
    assert(trim_end_spec(t + seq![' ']) == t);
    assert(trim_spec(mid) == t);
}

} // verus!

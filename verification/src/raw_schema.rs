//! Compile-time tool-schema literals, as emitted by the `#[function_call]` / `#[tool]` macros,
//! and their conversion into [`FunctionCall`]s.
//!
//! Parameter types are rendered Rust types (`"Option<String>"`, `"Vec<u8>"`, ...): `Option<T>`,
//! `Vec<T>` and `HashMap<K, V>` / `BTreeMap<K, V>` are unwrapped recursively, primitive spellings
//! map to `String` / `Boolean` / `Number`, anything else is refused.
use vstd::prelude::*;
use vstd::string::*;
use crate::text::{
    opt_view, is_space, trim_end_spec,
    chars_of, has_prefix, lemma_trim_len, starts_with, str_eq, trim, trim_spec, trim_start,
    trim_start_spec,
};
use crate::tool::{FunctionCall, FunctionParameter, FunctionType};

verus! {

broadcast use vstd::string::group_string_axioms;

/// One parameter inside [`FunctionCallRaw::parameters`].
#[derive(Debug, PartialEq, Eq, Clone, Copy)]
pub struct FunctionParamRaw<'a> {
    /// Parameter name.
    pub name: &'a str,
    /// Rendered type, generic parameters preserved (e.g. `"Option<String>"`).
    pub ty: &'a str,
    /// Description; empty means none.
    pub description: &'a str,
}

/// Compile-time schema literal emitted by `#[function_call]` / `#[tool]`.
#[derive(Debug, PartialEq, Clone, Copy)]
pub struct FunctionCallRaw<'a> {
    pub name: &'a str,
    /// Empty means no description.
    pub description: &'a str,
    pub parameters: &'a [FunctionParamRaw<'a>],
}

/// If `t` is `name<...>` (spaces allowed before `<`), the text between the outermost `<` `>`.
pub open spec fn wrapper_inner(t: Seq<char>, name: Seq<char>) -> Option<Seq<char>> {
    if has_prefix(t, name) {
        let rest = trim_start_spec(t.skip(name.len() as int));
        if rest.len() > 0 && rest[0] == '<' {
            let r = rest.drop_first();
            if r.len() > 0 && r.last() == '>' {
                Some(r.drop_last())
            } else {
                None
            }
        } else {
            None
        }
    } else {
        None
    }
}

/// Number of `<` minus number of `>` in `s`.
pub open spec fn bracket_depth(s: Seq<char>) -> int
    decreases s.len(),
{
    if s.len() == 0 {
        0
    } else {
        bracket_depth(s.drop_last()) + if s.last() == '<' {
            1int
        } else if s.last() == '>' {
            -1int
        } else {
            0int
        }
    }
}

/// `i` is the position of the first comma outside angle brackets.
pub open spec fn is_top_comma(s: Seq<char>, i: int) -> bool {
    &&& 0 <= i < s.len()
    &&& s[i] == ','
    &&& bracket_depth(s.take(i)) == 0
    &&& forall|j: int| 0 <= j < i ==> !(s[j] == ',' && bracket_depth(s.take(j)) == 0)
}

/// The position of the first comma outside angle brackets, if any.
pub open spec fn top_comma(s: Seq<char>) -> Option<int> {
    if exists|i: int| is_top_comma(s, i) {
        Some(choose|i: int| is_top_comma(s, i))
    } else {
        None
    }
}

/// For `HashMap<K, V>` / `BTreeMap<K, V>`, the text of `V`.
pub open spec fn map_value_text(t: Seq<char>) -> Option<Seq<char>> {
    let inner = match wrapper_inner(t, "HashMap"@) {
        Some(i) => Some(i),
        None => wrapper_inner(t, "BTreeMap"@),
    };
    match inner {
        Some(i) => match top_comma(i) {
            Some(k) => Some(trim_spec(i.skip(k + 1))),
            None => None,
        },
        None => None,
    }
}

/// Spellings of the string type.
pub open spec fn is_string_spelling(t: Seq<char>) -> bool {
    t == "String"@ || t == "&str"@ || t == "&'static str"@ || t == "Cow<'static, str>"@ || t
        == "string"@
}

/// Spellings of the boolean type.
pub open spec fn is_bool_spelling(t: Seq<char>) -> bool {
    t == "bool"@ || t == "boolean"@
}

/// Spellings of numeric types.
pub open spec fn is_number_spelling(t: Seq<char>) -> bool {
    t == "i8"@ || t == "i16"@ || t == "i32"@ || t == "i64"@ || t == "i128"@ || t == "isize"@ || t
        == "u8"@ || t == "u16"@ || t == "u32"@ || t == "u64"@ || t == "u128"@ || t == "usize"@ || t
        == "f32"@ || t == "f64"@ || t == "number"@
}

/// The type a primitive spelling stands for; an unsupported spelling is itself the error.
pub open spec fn primitive_raw_type(t: Seq<char>) -> Result<FunctionType, Seq<char>> {
    if is_string_spelling(t) {
        Ok(FunctionType::String)
    } else if is_bool_spelling(t) {
        Ok(FunctionType::Boolean)
    } else if is_number_spelling(t) {
        Ok(FunctionType::Number)
    } else {
        Err(t)
    }
}

/// What `wrapper_inner` returns is shorter than its input.
pub proof fn lemma_wrapper_inner_shorter(t: Seq<char>, name: Seq<char>)
    ensures
        wrapper_inner(t, name) matches Some(i) ==> i.len() < t.len(),
{
    lemma_trim_len(t.skip(name.len() as int));
}

/// What `map_value_text` returns is shorter than its input.
pub proof fn lemma_map_value_shorter(t: Seq<char>)
    ensures
        map_value_text(t) matches Some(v) ==> v.len() < t.len(),
{
    lemma_wrapper_inner_shorter(t, "HashMap"@);
    lemma_wrapper_inner_shorter(t, "BTreeMap"@);
    let inner = match wrapper_inner(t, "HashMap"@) {
        Some(i) => Some(i),
        None => wrapper_inner(t, "BTreeMap"@),
    };
    if let Some(i) = inner {
        if let Some(k) = top_comma(i) {
            let w = choose|w: int| is_top_comma(i, w);
            assert(is_top_comma(i, w));
            lemma_trim_len(i.skip(k + 1));
        }
    }
}

/// The type a rendered Rust type stands for, or, as the error, the unsupported spelling in it.
pub open spec fn raw_type(ty: Seq<char>) -> Result<FunctionType, Seq<char>>
    decreases ty.len(),
{
    let t = trim_spec(ty);
    proof {
        lemma_trim_len(ty);
        lemma_wrapper_inner_shorter(t, "Option"@);
        lemma_wrapper_inner_shorter(t, "Vec"@);
        lemma_map_value_shorter(t);
    }
    match wrapper_inner(t, "Option"@) {
        Some(inner) => match raw_type(inner) {
            Ok(x) => Ok(FunctionType::Option(Box::new(x))),
            Err(e) => Err(e),
        },
        None => match wrapper_inner(t, "Vec"@) {
            Some(inner) => match raw_type(inner) {
                Ok(x) => Ok(FunctionType::Array(Box::new(x))),
                Err(e) => Err(e),
            },
            None => match map_value_text(t) {
                Some(v) => match raw_type(v) {
                    Ok(x) => Ok(FunctionType::MapOf(Box::new(x))),
                    Err(e) => Err(e),
                },
                None => primitive_raw_type(t),
            },
        },
    }
}

/// The rendered type is an `Option`.
pub open spec fn is_option_spelling(ty: Seq<char>) -> bool {
    let t = trim_spec(ty);
    has_prefix(t, "Option<"@) || has_prefix(t, "Option <"@) || t == "Option"@
}

/// A parameter is non-required when its rendered type is `Option<...>`.
fn is_option_type_str(ty: &str) -> (b: bool)
    ensures
        b == is_option_spelling(ty@),
{
    let t = trim(ty);
    starts_with(t, "Option<") || starts_with(t, "Option <") || str_eq(t, "Option")
}

/// If `t` is `name<...>`, the content between the outermost `<>`.
fn strip_wrapper<'a>(t: &'a str, name: &str) -> (r: Option<&'a str>)
    ensures
        match r {
            Some(x) => wrapper_inner(t@, name@) == Some(x@),
            None => wrapper_inner(t@, name@) is None,
        },
{
    if !starts_with(t, name) {
        return None;
    }
    let n = name.unicode_len();
    let len = t.unicode_len();
    let rest = trim_start(t.substring_char(n, len));
    let rn = rest.unicode_len();
    if rn == 0 || rest.get_char(0) != '<' {
        return None;
    }
    let r = rest.substring_char(1, rn);
    assert(r@ =~= rest@.drop_first());
    let m = rn - 1;
    if m == 0 || r.get_char(m - 1) != '>' {
        return None;
    }
    let inner = r.substring_char(0, m - 1);
    assert(inner@ =~= r@.drop_last());
    Some(inner)
}

/// Locates the first comma at angle-bracket depth zero, as a character position.
fn top_level_comma(s: &str) -> (r: Option<usize>)
    ensures
        match r {
            Some(i) => top_comma(s@) == Some(i as int),
            None => top_comma(s@) is None,
        },
{
    let v = chars_of(s);
    let mut depth: i128 = 0;
    let mut i: usize = 0;
    assert(v@.take(0) =~= Seq::<char>::empty());
    while i < v.len()
        invariant
            i <= v.len(),
            v@ == s@,
            depth == bracket_depth(v@.take(i as int)),
            -(i as int) <= depth <= i as int,
            forall|j: int| 0 <= j < i ==> !(v@[j] == ',' && bracket_depth(v@.take(j)) == 0),
        decreases v.len() - i,
    {
        assert(v@.take(i + 1).drop_last() =~= v@.take(i as int));
        let c = v[i];
        if c == '<' {
            depth = depth + 1;
        } else if c == '>' {
            depth = depth - 1;
        } else if c == ',' && depth == 0 {
            proof {
                assert(is_top_comma(s@, i as int));
                let w = choose|w: int| is_top_comma(s@, w);
                if w < i {
                    assert(!(v@[w] == ',' && bracket_depth(v@.take(w)) == 0));
                } else if w > i {
                    assert(v@[i as int] == ',' && bracket_depth(v@.take(i as int)) == 0);
                }
            }
            return Some(i);
        }
        i += 1;
    }
    assert(!exists|w: int| is_top_comma(s@, w));
    None
}

/// `HashMap<K, V>` / `BTreeMap<K, V>`: the text of `V`.
fn map_value_type<'a>(t: &'a str) -> (r: Option<&'a str>)
    ensures
        match r {
            Some(x) => map_value_text(t@) == Some(x@),
            None => map_value_text(t@) is None,
        },
{
    let inner = match strip_wrapper(t, "HashMap") {
        Some(i) => Some(i),
        None => strip_wrapper(t, "BTreeMap"),
    };
    match inner {
        Some(i) => match top_level_comma(i) {
            Some(idx) => {
                let n = i.unicode_len();
                proof {
                    let w = choose|w: int| is_top_comma(i@, w);
                    assert(is_top_comma(i@, w));
                }
                let tail = i.substring_char(idx + 1, n);
                assert(tail@ =~= i@.skip(idx + 1));
                Some(trim(tail))
            },
            None => None,
        },
        None => None,
    }
}

/// The type a primitive spelling stands for.
fn parse_primitive(t: &str) -> (r: Result<FunctionType, String>)
    ensures
        match r {
            Ok(x) => primitive_raw_type(t@) == Ok::<FunctionType, Seq<char>>(x),
            Err(e) => primitive_raw_type(t@) == Err::<FunctionType, Seq<char>>(e@),
        },
{
    if str_eq(t, "String") || str_eq(t, "&str") || str_eq(t, "&'static str") || str_eq(
        t,
        "Cow<'static, str>",
    ) || str_eq(t, "string") {
        Ok(FunctionType::String)
    } else if str_eq(t, "bool") || str_eq(t, "boolean") {
        Ok(FunctionType::Boolean)
    } else if str_eq(t, "i8") || str_eq(t, "i16") || str_eq(t, "i32") || str_eq(t, "i64")
        || str_eq(t, "i128") || str_eq(t, "isize") || str_eq(t, "u8") || str_eq(t, "u16")
        || str_eq(t, "u32") || str_eq(t, "u64") || str_eq(t, "u128") || str_eq(t, "usize")
        || str_eq(t, "f32") || str_eq(t, "f64") || str_eq(t, "number") {
        Ok(FunctionType::Number)
    } else {
        Err(t.to_string())
    }
}

/// Maps a rendered Rust type to a [`FunctionType`]; an unsupported spelling is returned as the
/// error, as written.
fn parse_raw_type(_type: &str) -> (r: Result<FunctionType, String>)
    ensures
        match r {
            Ok(x) => raw_type(_type@) == Ok::<FunctionType, Seq<char>>(x),
            Err(e) => raw_type(_type@) == Err::<FunctionType, Seq<char>>(e@),
        },
    decreases _type@.len(),
{
    let t = trim(_type);
    proof {
        lemma_trim_len(_type@);
        lemma_wrapper_inner_shorter(t@, "Option"@);
        lemma_wrapper_inner_shorter(t@, "Vec"@);
        lemma_map_value_shorter(t@);
    }
    if let Some(inner) = strip_wrapper(t, "Option") {
        return match parse_raw_type(inner) {
            Ok(x) => Ok(FunctionType::Option(Box::new(x))),
            Err(e) => Err(e),
        };
    }
    if let Some(inner) = strip_wrapper(t, "Vec") {
        return match parse_raw_type(inner) {
            Ok(x) => Ok(FunctionType::Array(Box::new(x))),
            Err(e) => Err(e),
        };
    }
    if let Some(v_ty) = map_value_type(t) {
        return match parse_raw_type(v_ty) {
            Ok(x) => Ok(FunctionType::MapOf(Box::new(x))),
            Err(e) => Err(e),
        };
    }
    parse_primitive(t)
}

/// Text, or `None` when it is empty.
pub open spec fn optional_text(s: Seq<char>) -> Option<Seq<char>> {
    if s.len() == 0 {
        None
    } else {
        Some(s)
    }
}

/// The parameter built from a raw parameter whose type is supported.
pub open spec fn converted_param(p: FunctionParameter, raw: FunctionParamRaw) -> bool {
    &&& p.name@ == raw.name@
    &&& raw_type(raw.ty@) == Ok::<FunctionType, Seq<char>>(p._type)
    &&& opt_view(p.description) == optional_text(raw.description@)
    &&& p.required == !is_option_spelling(raw.ty@)
}

/// `i` is the first raw parameter whose type is not supported.
pub open spec fn is_first_unsupported(ps: Seq<FunctionParamRaw>, i: int) -> bool {
    &&& 0 <= i < ps.len()
    &&& raw_type(ps[i].ty@) is Err
    &&& forall|j: int| 0 <= j < i ==> raw_type(#[trigger] ps[j].ty@) is Ok
}

/// Optional text from a possibly empty string.
fn optional_string(s: &str) -> (r: Option<String>)
    ensures
        opt_view(r) == optional_text(s@),
{
    if s.is_empty() {
        None
    } else {
        Some(s.to_string())
    }
}

impl<'a> FunctionCallRaw<'a> {
    /// Lifts the compile-time literal into a [`FunctionCall`]: every parameter with its type
    /// mapped, an empty description read as none, and `Option<..>` parameters non-required.
    /// Fails with the unsupported type spelling of the first parameter whose type is not supported.
    pub fn to_fn_call(self) -> (r: Result<FunctionCall, String>)
        ensures
            match r {
                Ok(f) => {
                    &&& f.name@ == self.name@
                    &&& opt_view(f.description) == optional_text(self.description@)
                    &&& f.parameters@.len() == self.parameters@.len()
                    &&& forall|i: int|
                        0 <= i < f.parameters@.len() ==> converted_param(
                            #[trigger] f.parameters@[i],
                            self.parameters@[i],
                        )
                },
                Err(e) => exists|i: int|
                    is_first_unsupported(self.parameters@, i) && raw_type(self.parameters@[i].ty@)
                        == Err::<FunctionType, Seq<char>>(e@),
            },
    {
        let name = self.name.to_string();
        let description = optional_string(self.description);
        let mut parameters: Vec<FunctionParameter> = Vec::new();
        let mut i: usize = 0;
        while i < self.parameters.len()
            invariant
                i <= self.parameters@.len(),
                parameters@.len() == i,
                forall|j: int| 0 <= j < i ==> converted_param(#[trigger] parameters@[j], self.parameters@[j]),
            decreases self.parameters.len() - i,
        {
            let raw = self.parameters[i];
            let _type = match parse_raw_type(raw.ty) {
                Ok(t) => t,
                Err(e) => {
                    assert(is_first_unsupported(self.parameters@, i as int)) by {
                        assert forall|j: int| 0 <= j < i implies raw_type(
                            #[trigger] self.parameters@[j].ty@,
                        ) is Ok by {
                            assert(converted_param(parameters@[j], self.parameters@[j]));
                        }
                    }
                    return Err(e);
                },
            };
            parameters.push(
                FunctionParameter {
                    name: raw.name.to_string(),
                    _type,
                    description: optional_string(raw.description),
                    required: !is_option_type_str(raw.ty),
                },
            );
            i += 1;
        }
        Ok(FunctionCall { name, description, parameters })
    }
}

/// The kind of each primitive Rust type the tool macros render: `bool`, the integer and float
/// types, and `String` / `&str` / `&'static str`.
pub open spec fn rust_primitive_kind(t: Seq<char>) -> Option<FunctionType> {
    if t == "bool"@ {
        Some(FunctionType::Boolean)
    } else if t == "String"@ || t == "&str"@ || t == "&'static str"@ {
        Some(FunctionType::String)
    } else if t == "i8"@ || t == "i16"@ || t == "i32"@ || t == "i64"@ || t == "i128"@ || t
        == "isize"@ || t == "u8"@ || t == "u16"@ || t == "u32"@ || t == "u64"@ || t == "u128"@
        || t == "usize"@ || t == "f32"@ || t == "f64"@ {
        Some(FunctionType::Number)
    } else {
        None
    }
}

/// Text that starts and ends with a character that is not white space is its own trim.
proof fn lemma_trim_unpadded(t: Seq<char>)
    requires
        t.len() > 0,
        !is_space(t[0]),
        !is_space(t.last()),
    ensures
        trim_spec(t) == t,
{
    assert(trim_start_spec(t) == t);
    assert(trim_end_spec(t) == t);
}

/// A rendered type that is not a wrapper is read as a primitive spelling.
proof fn lemma_not_wrapper(t: Seq<char>)
    requires
        t.len() > 0,
        !is_space(t[0]),
        !is_space(t.last()),
        t[0] != 'O' && t[0] != 'V' && t[0] != 'H' && t[0] != 'B',
    ensures
        raw_type(t) == primitive_raw_type(t),
{
    reveal_strlit("Option");
    reveal_strlit("Vec");
    reveal_strlit("HashMap");
    reveal_strlit("BTreeMap");
    lemma_trim_unpadded(t);
    assert(!has_prefix(t, "Option"@)) by {
        if has_prefix(t, "Option"@) {
            assert(t.take(6)[0] == t[0]);
        }
    }
    assert(!has_prefix(t, "Vec"@)) by {
        if has_prefix(t, "Vec"@) {
            assert(t.take(3)[0] == t[0]);
        }
    }
    assert(!has_prefix(t, "HashMap"@)) by {
        if has_prefix(t, "HashMap"@) {
            assert(t.take(7)[0] == t[0]);
        }
    }
    assert(!has_prefix(t, "BTreeMap"@)) by {
        if has_prefix(t, "BTreeMap"@) {
            assert(t.take(8)[0] == t[0]);
        }
    }
}

/// `name<t>` is read as the wrapper `name` around `t`.
proof fn lemma_wrapped(name: Seq<char>, t: Seq<char>)
    requires
        name.len() > 0,
        !is_space(name[0]),
        t.len() > 0,
    ensures
        ({
            let u = name + seq!['<'] + t + seq!['>'];
            &&& trim_spec(u) == u
            &&& wrapper_inner(u, name) == Some(t)
        }),
{
    let u = name + seq!['<'] + t + seq!['>'];
    assert(u[0] == name[0]);
    assert(u.last() == '>');
    lemma_trim_unpadded(u);
    assert(u.take(name.len() as int) =~= name);
    let k = u.skip(name.len() as int);
    assert(k =~= seq!['<'] + t + seq!['>']);
    assert(k[0] == '<');
    assert(trim_start_spec(k) == k);
    assert(k.drop_first() =~= t + seq!['>']);
    assert((t + seq!['>']).drop_last() =~= t);
}

/// Every primitive Rust type the tool macros render is supported, with its kind: `bool` is a
/// boolean, the integer and float types are numbers, `String` / `&str` / `&'static str` are
/// strings; and so is each of them inside `Option<..>` or `Vec<..>`.
pub proof fn law_rust_primitives_supported(t: Seq<char>)
    requires
        rust_primitive_kind(t) is Some,
    ensures
        ({
            let k = rust_primitive_kind(t)->0;
            &&& raw_type(t) == Ok::<FunctionType, Seq<char>>(k)
            &&& raw_type("Option"@ + seq!['<'] + t + seq!['>']) == Ok::<FunctionType, Seq<char>>(
                FunctionType::Option(Box::new(k)),
            )
            &&& raw_type("Vec"@ + seq!['<'] + t + seq!['>']) == Ok::<FunctionType, Seq<char>>(
                FunctionType::Array(Box::new(k)),
            )
        }),
{
    reveal_strlit("bool");
    reveal_strlit("boolean");
    reveal_strlit("String");
    reveal_strlit("&str");
    reveal_strlit("&'static str");
    reveal_strlit("Cow<'static, str>");
    reveal_strlit("string");
    reveal_strlit("i8");
    reveal_strlit("i16");
    reveal_strlit("i32");
    reveal_strlit("i64");
    reveal_strlit("i128");
    reveal_strlit("isize");
    reveal_strlit("u8");
    reveal_strlit("u16");
    reveal_strlit("u32");
    reveal_strlit("u64");
    reveal_strlit("u128");
    reveal_strlit("usize");
    reveal_strlit("f32");
    reveal_strlit("f64");
    reveal_strlit("number");
    reveal_strlit("Option");
    reveal_strlit("Vec");
    let k = rust_primitive_kind(t)->0;
    assert(t.len() > 0 && !is_space(t[0]) && !is_space(t.last()));
    assert(t[0] != 'O' && t[0] != 'V' && t[0] != 'H' && t[0] != 'B');
    lemma_not_wrapper(t);
    assert(primitive_raw_type(t) == Ok::<FunctionType, Seq<char>>(k));
    let o = "Option"@ + seq!['<'] + t + seq!['>'];
    lemma_wrapped("Option"@, t);
    let v = "Vec"@ + seq!['<'] + t + seq!['>'];
    lemma_wrapped("Vec"@, t);
    assert(wrapper_inner(v, "Option"@) is None) by {
        assert(v[0] == 'V');
        if has_prefix(v, "Option"@) {
            assert(v.take(6)[0] == v[0]);
        }
    }
}

} // verus!

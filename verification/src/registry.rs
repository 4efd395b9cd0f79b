//! Tool lookup by name, and how types describe their own schema type.
use vstd::prelude::*;
use vstd::string::*;
use crate::error::OpenAiError;
use crate::tool::{FunctionCall, FunctionType};

verus! {

broadcast use vstd::string::group_string_axioms;

/// `i` is the first position of `name` in `names`.
pub open spec fn is_first_name(names: Seq<String>, name: Seq<char>, i: int) -> bool {
    &&& 0 <= i < names.len()
    &&& names[i]@ == name
    &&& forall|j: int| 0 <= j < i ==> names[j]@ != name
}

/// The position of the first tool named `name` among the registered names.
pub fn find_tool(names: &Vec<String>, name: &str) -> (r: Option<usize>)
    ensures
        match r {
            Some(i) => is_first_name(names@, name@, i as int),
            None => forall|j: int| 0 <= j < names@.len() ==> names@[j]@ != name@,
        },
{
    let mut i: usize = 0;
    while i < names.len()
        invariant
            i <= names.len(),
            forall|j: int| 0 <= j < i ==> names@[j]@ != name@,
        decreases names.len() - i,
    {
        if crate::text::str_eq(names[i].as_str(), name) {
            return Some(i);
        }
        i += 1;
    }
    None
}

/// The error for a call of a tool that is not registered.
pub fn unknown_tool(name: &str) -> (e: OpenAiError)
    ensures
        e matches OpenAiError::Config(m) && m@ == "unknown tool: "@ + name@,
{
    OpenAiError::Config("unknown tool: ".to_string().concat(name))
}

/// A type that can describe itself as a function-tool parameter type.
pub trait FunctionCallable {
    /// The parameter type a value stands for.
    spec fn value_type(&self) -> FunctionType;

    /// The parameter type of the type itself.
    spec fn type_schema() -> FunctionType;

    /// A function schema for the value (an empty one for plain types).
    fn to_fn_call(&self) -> (f: FunctionCall);

    /// The parameter type of the value.
    fn to_fn_type(&self) -> (t: FunctionType)
        ensures
            t == self.value_type(),
    ;

    /// The parameter type of the type, without a value.
    fn schema_type() -> (t: FunctionType)
        ensures
            t == Self::type_schema(),
    ;
}

/// An empty function schema.
pub open spec fn is_empty_call(f: FunctionCall) -> bool {
    f.name@.len() == 0 && f.description is None && f.parameters@.len() == 0
}

impl FunctionCallable for String {
    open spec fn value_type(&self) -> FunctionType {
        FunctionType::String
    }

    open spec fn type_schema() -> FunctionType {
        FunctionType::String
    }

    fn to_fn_call(&self) -> (f: FunctionCall)
        ensures
            is_empty_call(f),
    {
        FunctionCall::new()
    }

    fn to_fn_type(&self) -> (t: FunctionType) {
        FunctionType::String
    }

    fn schema_type() -> (t: FunctionType) {
        FunctionType::String
    }
}

impl FunctionCallable for &'static str {
    open spec fn value_type(&self) -> FunctionType {
        FunctionType::String
    }

    open spec fn type_schema() -> FunctionType {
        FunctionType::String
    }

    fn to_fn_call(&self) -> (f: FunctionCall)
        ensures
            is_empty_call(f),
    {
        FunctionCall::new()
    }

    fn to_fn_type(&self) -> (t: FunctionType) {
        FunctionType::String
    }

    fn schema_type() -> (t: FunctionType) {
        FunctionType::String
    }
}

impl FunctionCallable for bool {
    open spec fn value_type(&self) -> FunctionType {
        FunctionType::Boolean
    }

    open spec fn type_schema() -> FunctionType {
        FunctionType::Boolean
    }

    fn to_fn_call(&self) -> (f: FunctionCall)
        ensures
            is_empty_call(f),
    {
        FunctionCall::new()
    }

    fn to_fn_type(&self) -> (t: FunctionType) {
        FunctionType::Boolean
    }

    fn schema_type() -> (t: FunctionType) {
        FunctionType::Boolean
    }
}

impl FunctionCallable for i64 {
    open spec fn value_type(&self) -> FunctionType {
        FunctionType::Number
    }

    open spec fn type_schema() -> FunctionType {
        FunctionType::Number
    }

    fn to_fn_call(&self) -> (f: FunctionCall)
        ensures
            is_empty_call(f),
    {
        FunctionCall::new()
    }

    fn to_fn_type(&self) -> (t: FunctionType) {
        FunctionType::Number
    }

    fn schema_type() -> (t: FunctionType) {
        FunctionType::Number
    }
}

impl FunctionCallable for i32 {
    open spec fn value_type(&self) -> FunctionType {
        FunctionType::Number
    }

    open spec fn type_schema() -> FunctionType {
        FunctionType::Number
    }

    fn to_fn_call(&self) -> (f: FunctionCall)
        ensures
            is_empty_call(f),
    {
        FunctionCall::new()
    }

    fn to_fn_type(&self) -> (t: FunctionType) {
        FunctionType::Number
    }

    fn schema_type() -> (t: FunctionType) {
        FunctionType::Number
    }
}

impl FunctionCallable for u64 {
    open spec fn value_type(&self) -> FunctionType {
        FunctionType::Number
    }

    open spec fn type_schema() -> FunctionType {
        FunctionType::Number
    }

    fn to_fn_call(&self) -> (f: FunctionCall)
        ensures
            is_empty_call(f),
    {
        FunctionCall::new()
    }

    fn to_fn_type(&self) -> (t: FunctionType) {
        FunctionType::Number
    }

    fn schema_type() -> (t: FunctionType) {
        FunctionType::Number
    }
}

impl FunctionCallable for u32 {
    open spec fn value_type(&self) -> FunctionType {
        FunctionType::Number
    }

    open spec fn type_schema() -> FunctionType {
        FunctionType::Number
    }

    fn to_fn_call(&self) -> (f: FunctionCall)
        ensures
            is_empty_call(f),
    {
        FunctionCall::new()
    }

    fn to_fn_type(&self) -> (t: FunctionType) {
        FunctionType::Number
    }

    fn schema_type() -> (t: FunctionType) {
        FunctionType::Number
    }
}

impl FunctionCallable for u8 {
    open spec fn value_type(&self) -> FunctionType {
        FunctionType::Number
    }

    open spec fn type_schema() -> FunctionType {
        FunctionType::Number
    }

    fn to_fn_call(&self) -> (f: FunctionCall)
        ensures
            is_empty_call(f),
    {
        FunctionCall::new()
    }

    fn to_fn_type(&self) -> (t: FunctionType) {
        FunctionType::Number
    }

    fn schema_type() -> (t: FunctionType) {
        FunctionType::Number
    }
}

impl FunctionCallable for u16 {
    open spec fn value_type(&self) -> FunctionType {
        FunctionType::Number
    }

    open spec fn type_schema() -> FunctionType {
        FunctionType::Number
    }

    fn to_fn_call(&self) -> (f: FunctionCall)
        ensures
            is_empty_call(f),
    {
        FunctionCall::new()
    }

    fn to_fn_type(&self) -> (t: FunctionType) {
        FunctionType::Number
    }

    fn schema_type() -> (t: FunctionType) {
        FunctionType::Number
    }
}

impl FunctionCallable for u128 {
    open spec fn value_type(&self) -> FunctionType {
        FunctionType::Number
    }

    open spec fn type_schema() -> FunctionType {
        FunctionType::Number
    }

    fn to_fn_call(&self) -> (f: FunctionCall)
        ensures
            is_empty_call(f),
    {
        FunctionCall::new()
    }

    fn to_fn_type(&self) -> (t: FunctionType) {
        FunctionType::Number
    }

    fn schema_type() -> (t: FunctionType) {
        FunctionType::Number
    }
}

impl FunctionCallable for usize {
    open spec fn value_type(&self) -> FunctionType {
        FunctionType::Number
    }

    open spec fn type_schema() -> FunctionType {
        FunctionType::Number
    }

    fn to_fn_call(&self) -> (f: FunctionCall)
        ensures
            is_empty_call(f),
    {
        FunctionCall::new()
    }

    fn to_fn_type(&self) -> (t: FunctionType) {
        FunctionType::Number
    }

    fn schema_type() -> (t: FunctionType) {
        FunctionType::Number
    }
}

impl FunctionCallable for i8 {
    open spec fn value_type(&self) -> FunctionType {
        FunctionType::Number
    }

    open spec fn type_schema() -> FunctionType {
        FunctionType::Number
    }

    fn to_fn_call(&self) -> (f: FunctionCall)
        ensures
            is_empty_call(f),
    {
        FunctionCall::new()
    }

    fn to_fn_type(&self) -> (t: FunctionType) {
        FunctionType::Number
    }

    fn schema_type() -> (t: FunctionType) {
        FunctionType::Number
    }
}

impl FunctionCallable for i16 {
    open spec fn value_type(&self) -> FunctionType {
        FunctionType::Number
    }

    open spec fn type_schema() -> FunctionType {
        FunctionType::Number
    }

    fn to_fn_call(&self) -> (f: FunctionCall)
        ensures
            is_empty_call(f),
    {
        FunctionCall::new()
    }

    fn to_fn_type(&self) -> (t: FunctionType) {
        FunctionType::Number
    }

    fn schema_type() -> (t: FunctionType) {
        FunctionType::Number
    }
}

impl FunctionCallable for i128 {
    open spec fn value_type(&self) -> FunctionType {
        FunctionType::Number
    }

    open spec fn type_schema() -> FunctionType {
        FunctionType::Number
    }

    fn to_fn_call(&self) -> (f: FunctionCall)
        ensures
            is_empty_call(f),
    {
        FunctionCall::new()
    }

    fn to_fn_type(&self) -> (t: FunctionType) {
        FunctionType::Number
    }

    fn schema_type() -> (t: FunctionType) {
        FunctionType::Number
    }
}

impl FunctionCallable for isize {
    open spec fn value_type(&self) -> FunctionType {
        FunctionType::Number
    }

    open spec fn type_schema() -> FunctionType {
        FunctionType::Number
    }

    fn to_fn_call(&self) -> (f: FunctionCall)
        ensures
            is_empty_call(f),
    {
        FunctionCall::new()
    }

    fn to_fn_type(&self) -> (t: FunctionType) {
        FunctionType::Number
    }

    fn schema_type() -> (t: FunctionType) {
        FunctionType::Number
    }
}

impl<T: FunctionCallable> FunctionCallable for Vec<T> {
    /// An array of the first element's type, or of the element type when empty.
    open spec fn value_type(&self) -> FunctionType {
        if self@.len() > 0 {
            FunctionType::Array(Box::new(self@[0].value_type()))
        } else {
            FunctionType::Array(Box::new(T::type_schema()))
        }
    }

    open spec fn type_schema() -> FunctionType {
        FunctionType::Array(Box::new(T::type_schema()))
    }

    fn to_fn_call(&self) -> (f: FunctionCall)
        ensures
            is_empty_call(f),
    {
        FunctionCall::new()
    }

    fn to_fn_type(&self) -> (t: FunctionType) {
        if self.len() > 0 {
            FunctionType::Array(Box::new(self[0].to_fn_type()))
        } else {
            FunctionType::Array(Box::new(T::schema_type()))
        }
    }

    fn schema_type() -> (t: FunctionType) {
        FunctionType::Array(Box::new(T::schema_type()))
    }
}

impl<T: FunctionCallable, const N: usize> FunctionCallable for [T; N] {
    /// An array of the first element's type, or of the element type when empty.
    open spec fn value_type(&self) -> FunctionType {
        if N > 0 {
            FunctionType::Array(Box::new(self@[0].value_type()))
        } else {
            FunctionType::Array(Box::new(T::type_schema()))
        }
    }

    open spec fn type_schema() -> FunctionType {
        FunctionType::Array(Box::new(T::type_schema()))
    }

    fn to_fn_call(&self) -> (f: FunctionCall)
        ensures
            is_empty_call(f),
    {
        FunctionCall::new()
    }

    fn to_fn_type(&self) -> (t: FunctionType) {
        if N > 0 {
            FunctionType::Array(Box::new(self[0].to_fn_type()))
        } else {
            FunctionType::Array(Box::new(T::schema_type()))
        }
    }

    fn schema_type() -> (t: FunctionType) {
        FunctionType::Array(Box::new(T::schema_type()))
    }
}

impl<T: FunctionCallable> FunctionCallable for Option<T> {
    /// An optional of the held value's type, or of the inner type when absent.
    open spec fn value_type(&self) -> FunctionType {
        match self {
            Some(v) => FunctionType::Option(Box::new(v.value_type())),
            None => FunctionType::Option(Box::new(T::type_schema())),
        }
    }

    open spec fn type_schema() -> FunctionType {
        FunctionType::Option(Box::new(T::type_schema()))
    }

    fn to_fn_call(&self) -> (f: FunctionCall)
        ensures
            is_empty_call(f),
    {
        FunctionCall::new()
    }

    fn to_fn_type(&self) -> (t: FunctionType) {
        match self {
            Some(v) => FunctionType::Option(Box::new(v.to_fn_type())),
            None => FunctionType::Option(Box::new(T::schema_type())),
        }
    }

    fn schema_type() -> (t: FunctionType) {
        FunctionType::Option(Box::new(T::schema_type()))
    }
}

} // verus!

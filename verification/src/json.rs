//! A JSON value tree, built by the schema code and handed to a serializer.
use vstd::prelude::*;
use vstd::string::*;

verus! {

broadcast use vstd::string::group_string_axioms;

/// Mathematical JSON value: objects are lists of entries with distinct keys, in insertion order.
pub enum Json {
    Null,
    Bool(bool),
    Int(int),
    /// A number given by the bits of an IEEE-754 double.
    Float(u64),
    Str(Seq<char>),
    Array(Seq<Json>),
    Object(Seq<(Seq<char>, Json)>),
}

/// An executable JSON value.
#[derive(Debug, PartialEq)]
pub enum JsonValue {
    Null,
    Bool(bool),
    Int(i64),
    /// A finite number given by the bits of an IEEE-754 double.
    Float(u64),
    String(String),
    Array(Vec<JsonValue>),
    Object(JsonObject),
}

/// An executable JSON object: entries with distinct keys, in insertion order.
#[derive(Debug, PartialEq)]
pub struct JsonObject {
    pub entries: Vec<(String, JsonValue)>,
}

impl JsonValue {
    /// The mathematical value.
    pub open spec fn model(&self) -> Json
        decreases self,
    {
        match self {
            JsonValue::Null => Json::Null,
            JsonValue::Bool(b) => Json::Bool(*b),
            JsonValue::Int(n) => Json::Int(*n as int),
            JsonValue::Float(b) => Json::Float(*b),
            JsonValue::String(s) => Json::Str(s@),
            JsonValue::Array(xs) => Json::Array(models(xs@)),
            JsonValue::Object(o) => Json::Object(entry_models(o.entries@)),
        }
    }
}

/// The mathematical values of a list of values.
pub open spec fn models(xs: Seq<JsonValue>) -> Seq<Json>
    decreases xs,
{
    if xs.len() == 0 {
        Seq::empty()
    } else {
        models(xs.drop_last()).push(xs.last().model())
    }
}

/// The mathematical entries of a list of object entries.
pub open spec fn entry_models(es: Seq<(String, JsonValue)>) -> Seq<(Seq<char>, Json)>
    decreases es,
{
    if es.len() == 0 {
        Seq::empty()
    } else {
        entry_models(es.drop_last()).push((es.last().0@, es.last().1.model()))
    }
}

/// Length and elements of `models`.
pub proof fn lemma_models(xs: Seq<JsonValue>)
    ensures
        models(xs).len() == xs.len(),
        forall|i: int| 0 <= i < xs.len() ==> #[trigger] models(xs)[i] == xs[i].model(),
    decreases xs.len(),
{
    if xs.len() > 0 {
        lemma_models(xs.drop_last());
    }
}

/// Length and elements of `entry_models`.
pub proof fn lemma_entry_models(es: Seq<(String, JsonValue)>)
    ensures
        entry_models(es).len() == es.len(),
        forall|i: int|
            0 <= i < es.len() ==> #[trigger] entry_models(es)[i] == (es[i].0@, es[i].1.model()),
    decreases es.len(),
{
    if es.len() > 0 {
        lemma_entry_models(es.drop_last());
    }
}

/// `i` is the first position of key `k` among the entries `m`.
pub open spec fn is_key_index(m: Seq<(Seq<char>, Json)>, k: Seq<char>, i: int) -> bool {
    &&& 0 <= i < m.len()
    &&& m[i].0 == k
    &&& forall|j: int| 0 <= j < i ==> m[j].0 != k
}

/// The position of key `k` among the entries `m`, if present.
pub open spec fn key_index(m: Seq<(Seq<char>, Json)>, k: Seq<char>) -> Option<int> {
    if exists|i: int| is_key_index(m, k, i) {
        Some(choose|i: int| is_key_index(m, k, i))
    } else {
        None
    }
}

/// The keys of `m` are distinct.
pub open spec fn distinct_keys(m: Seq<(Seq<char>, Json)>) -> bool {
    forall|i: int, j: int| 0 <= i < m.len() && 0 <= j < m.len() && i != j ==> m[i].0 != m[j].0
}

/// `m` with key `k` set to `v`: an existing entry keeps its place, a new one goes last.
pub open spec fn obj_insert(m: Seq<(Seq<char>, Json)>, k: Seq<char>, v: Json) -> Seq<
    (Seq<char>, Json),
> {
    match key_index(m, k) {
        Some(i) => m.update(i, (k, v)),
        None => m.push((k, v)),
    }
}

/// `m` with every entry of `es` set, in order.
pub open spec fn obj_insert_all(m: Seq<(Seq<char>, Json)>, es: Seq<(Seq<char>, Json)>) -> Seq<
    (Seq<char>, Json),
>
    decreases es.len(),
{
    if es.len() == 0 {
        m
    } else {
        obj_insert_all(obj_insert(m, es[0].0, es[0].1), es.drop_first())
    }
}

impl JsonObject {
    /// The entries, as mathematical values.
    pub open spec fn model(&self) -> Seq<(Seq<char>, Json)> {
        entry_models(self.entries@)
    }

    /// An object with no entries.
    pub fn new() -> (o: JsonObject)
        ensures
            o.model() == Seq::<(Seq<char>, Json)>::empty(),
    {
        JsonObject { entries: Vec::new() }
    }

    /// Sets `key` to `value`, replacing the value of an existing entry with that key.
    pub fn insert(&mut self, key: String, value: JsonValue)
        ensures
            final(self).model() == obj_insert(old(self).model(), key@, value.model()),
    {
        let ghost m = self.model();
        proof {
            lemma_entry_models(self.entries@);
        }
        let mut i: usize = 0;
        while i < self.entries.len()
            invariant
                i <= self.entries.len(),
                m == old(self).model(),
                m == entry_models(self.entries@),
                m.len() == self.entries@.len(),
                forall|j: int| 0 <= j < i ==> m[j].0 != key@,
                forall|j: int|
                    0 <= j < self.entries@.len() ==> #[trigger] m[j] == (
                        self.entries@[j].0@,
                        self.entries@[j].1.model(),
                    ),
            decreases self.entries.len() - i,
        {
            if self.entries[i].0 == key {
                proof {
                    assert(m[i as int].0 == key@);
                    assert(is_key_index(m, key@, i as int));
                    let w = choose|w: int| is_key_index(m, key@, w);
                    if w < i {
                        assert(m[w].0 != key@);
                    } else if w > i {
                        assert(m[i as int].0 != key@);
                    }
                }
                self.entries.set(i, (key, value));
                proof {
                    lemma_entry_models(self.entries@);
                    assert(entry_models(self.entries@) =~= m.update(i as int, (key@, value.model())));
                }
                return;
            }
            i += 1;
        }
        proof {
            assert(!exists|w: int| is_key_index(m, key@, w));
        }
        let ghost old_entries = self.entries@;
        self.entries.push((key, value));
        proof {
            assert(self.entries@.drop_last() =~= old_entries);
        }
    }
}

/// Appends a value to a list of values.
pub fn push_value(xs: &mut Vec<JsonValue>, x: JsonValue)
    ensures
        models(final(xs)@) == models(old(xs)@).push(x.model()),
{
    let ghost before = xs@;
    xs.push(x);
    assert(xs@.drop_last() =~= before);
}

/// A string value.
pub fn json_str(s: &str) -> (v: JsonValue)
    ensures
        v.model() == Json::Str(s@),
{
    JsonValue::String(s.to_string())
}

/// Setting two entries.
pub proof fn lemma_insert_all_two(
    m: Seq<(Seq<char>, Json)>,
    a: (Seq<char>, Json),
    b: (Seq<char>, Json),
)
    ensures
        obj_insert_all(m, seq![a, b]) == obj_insert(obj_insert(m, a.0, a.1), b.0, b.1),
{
    assert(seq![a, b].drop_first() =~= seq![b]);
    lemma_insert_all_one(obj_insert(m, a.0, a.1), b);
}

/// Setting one entry.
pub proof fn lemma_insert_all_one(m: Seq<(Seq<char>, Json)>, a: (Seq<char>, Json))
    ensures
        obj_insert_all(m, seq![a]) == obj_insert(m, a.0, a.1),
{
    assert(seq![a].drop_first() =~= Seq::<(Seq<char>, Json)>::empty());
    assert(obj_insert_all(obj_insert(m, a.0, a.1), Seq::empty()) == obj_insert(m, a.0, a.1));
}

/// Setting three entries.
pub proof fn lemma_insert_all_three(
    m: Seq<(Seq<char>, Json)>,
    a: (Seq<char>, Json),
    b: (Seq<char>, Json),
    c: (Seq<char>, Json),
)
    ensures
        obj_insert_all(m, seq![a, b, c]) == obj_insert(
            obj_insert(obj_insert(m, a.0, a.1), b.0, b.1),
            c.0,
            c.1,
        ),
{
    assert(seq![a, b, c].drop_first() =~= seq![b, c]);
    lemma_insert_all_two(obj_insert(m, a.0, a.1), b, c);
}

impl JsonObject {
    /// Sets every entry of `other` in `self`, in order.
    pub fn insert_all(&mut self, other: JsonObject)
        ensures
            final(self).model() == obj_insert_all(old(self).model(), other.model()),
    {
        let mut rest = other.entries;
        proof {
            lemma_entry_models(rest@);
        }
        while rest.len() > 0
            invariant
                obj_insert_all(old(self).model(), other.model()) == obj_insert_all(
                    self.model(),
                    entry_models(rest@),
                ),
            decreases rest.len(),
        {
            let ghost before = rest@;
            proof {
                lemma_entry_models(before);
            }
            let (k, v) = rest.remove(0);
            proof {
                lemma_entry_models(rest@);
                assert(entry_models(rest@) =~= entry_models(before).drop_first());
            }
            self.insert(k, v);
        }
    }
}

} // verus!

//! String-keyed entry lists (metadata, logit bias) where setting a key replaces its value.
use vstd::prelude::*;
use vstd::string::*;

verus! {

broadcast use vstd::string::group_string_axioms;

/// `i` is the first position of key `k` in `m`.
pub open spec fn is_first_key<V>(m: Seq<(Seq<char>, V)>, k: Seq<char>, i: int) -> bool {
    &&& 0 <= i < m.len()
    &&& m[i].0 == k
    &&& forall|j: int| 0 <= j < i ==> m[j].0 != k
}

/// The first position of key `k` in `m`, if any.
pub open spec fn first_key<V>(m: Seq<(Seq<char>, V)>, k: Seq<char>) -> Option<int> {
    if exists|i: int| is_first_key(m, k, i) {
        Some(choose|i: int| is_first_key(m, k, i))
    } else {
        None
    }
}

/// `m` with key `k` set to `v`: an existing entry keeps its place, a new one goes last.
pub open spec fn put_entry<V>(m: Seq<(Seq<char>, V)>, k: Seq<char>, v: V) -> Seq<(Seq<char>, V)> {
    match first_key(m, k) {
        Some(i) => m.update(i, (k, v)),
        None => m.push((k, v)),
    }
}

/// The value of key `k` in `m` (its first entry), if any.
pub open spec fn get_entry<V>(m: Seq<(Seq<char>, V)>, k: Seq<char>) -> Option<V> {
    match first_key(m, k) {
        Some(i) => Some(m[i].1),
        None => None,
    }
}

/// No key occurs twice in `m`.
pub open spec fn keys_distinct<V>(m: Seq<(Seq<char>, V)>) -> bool {
    forall|i: int, j: int| 0 <= i < m.len() && 0 <= j < m.len() && i != j ==> m[i].0 != m[j].0
}

/// Text entries as values.
pub open spec fn text_entries(m: Seq<(String, String)>) -> Seq<(Seq<char>, Seq<char>)> {
    m.map_values(|e: (String, String)| (e.0@, e.1@))
}

/// Integer entries as values.
pub open spec fn int_entries(m: Seq<(String, i32)>) -> Seq<(Seq<char>, i32)> {
    m.map_values(|e: (String, i32)| (e.0@, e.1))
}

/// Sets `key` to `value` in a list of text entries.
pub fn put_text(m: &mut Vec<(String, String)>, key: String, value: String)
    ensures
        text_entries(final(m)@) == put_entry(text_entries(old(m)@), key@, value@),
{
    let ghost e = text_entries(m@);
    let mut i: usize = 0;
    while i < m.len()
        invariant
            i <= m.len(),
            e == text_entries(old(m)@),
            m@ == old(m)@,
            forall|j: int| 0 <= j < i ==> e[j].0 != key@,
        decreases m.len() - i,
    {
        if m[i].0 == key {
            proof {
                assert(is_first_key(e, key@, i as int));
                let w = choose|w: int| is_first_key(e, key@, w);
                assert(w == i);
            }
            m.set(i, (key, value));
            proof {
                assert(text_entries(m@) =~= e.update(i as int, (key@, value@)));
            }
            return;
        }
        i += 1;
    }
    proof {
        assert(!exists|w: int| is_first_key(e, key@, w));
    }
    m.push((key, value));
    proof {
        assert(text_entries(m@) =~= e.push((key@, value@)));
    }
}

/// Sets `key` to `value` in a list of integer entries.
pub fn put_int(m: &mut Vec<(String, i32)>, key: String, value: i32)
    ensures
        int_entries(final(m)@) == put_entry(int_entries(old(m)@), key@, value),
{
    let ghost e = int_entries(m@);
    let mut i: usize = 0;
    while i < m.len()
        invariant
            i <= m.len(),
            e == int_entries(old(m)@),
            m@ == old(m)@,
            forall|j: int| 0 <= j < i ==> e[j].0 != key@,
        decreases m.len() - i,
    {
        if m[i].0 == key {
            proof {
                assert(is_first_key(e, key@, i as int));
                let w = choose|w: int| is_first_key(e, key@, w);
                assert(w == i);
            }
            m.set(i, (key, value));
            proof {
                assert(int_entries(m@) =~= e.update(i as int, (key@, value)));
            }
            return;
        }
        i += 1;
    }
    proof {
        assert(!exists|w: int| is_first_key(e, key@, w));
    }
    m.push((key, value));
    proof {
        assert(int_entries(m@) =~= e.push((key@, value)));
    }
}

/// After setting a key, reading it gives the value set.
pub proof fn law_put_then_get<V>(m: Seq<(Seq<char>, V)>, k: Seq<char>, v: V)
    ensures
        get_entry(put_entry(m, k, v), k) == Some(v),
{
    let p = put_entry(m, k, v);
    match first_key(m, k) {
        Some(i) => {
            assert(is_first_key(m, k, i));
            assert(is_first_key(p, k, i));
            let w = choose|w: int| is_first_key(p, k, w);
            assert(w == i);
        },
        None => {
            assert forall|j: int| 0 <= j < m.len() implies m[j].0 != k by {
                if m[j].0 == k {
                    lemma_first_exists(m, k, j);
                }
            }
            assert(is_first_key(p, k, m.len() as int));
            let w = choose|w: int| is_first_key(p, k, w);
            assert(w == m.len());
        },
    }
}

/// Setting a key never makes two entries share a key.
pub proof fn law_put_keeps_keys_distinct<V>(m: Seq<(Seq<char>, V)>, k: Seq<char>, v: V)
    requires
        keys_distinct(m),
    ensures
        keys_distinct(put_entry(m, k, v)),
{
    let p = put_entry(m, k, v);
    match first_key(m, k) {
        Some(i) => {
            assert(is_first_key(m, k, i));
        },
        None => {
            assert forall|j: int| 0 <= j < m.len() implies m[j].0 != k by {
                if m[j].0 == k {
                    lemma_first_exists(m, k, j);
                }
            }
        },
    }
}

/// A key present somewhere has a first position.
pub proof fn lemma_first_exists<V>(m: Seq<(Seq<char>, V)>, k: Seq<char>, j: int)
    requires
        0 <= j < m.len(),
        m[j].0 == k,
    ensures
        exists|i: int| is_first_key(m, k, i),
    decreases j,
{
    if exists|i: int| 0 <= i < j && m[i].0 == k {
        let i = choose|i: int| 0 <= i < j && m[i].0 == k;
        lemma_first_exists(m, k, i);
    } else {
        assert(is_first_key(m, k, j));
    }
}

} // verus!

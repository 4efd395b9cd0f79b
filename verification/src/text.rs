//! Small string helpers shared by the parsers: character vectors, pushes and searches.
use vstd::prelude::*;
use vstd::string::*;

verus! {

broadcast use vstd::string::group_string_axioms;

/// The characters of `s`, in order.
pub fn chars_of(s: &str) -> (v: Vec<char>)
    ensures
        v@ == s@,
{
    let mut v: Vec<char> = Vec::new();
    for c in it: s.chars()
        invariant
            v@ == it.seq().take(it.index() as int),
            it.seq() == s@,
    {
        v.push(c);
    }
    v
}

/// Appends one character to a string (`String::push`).
#[verifier::external_body]
pub(crate) fn push_char(s: &mut String, c: char)
    ensures
        final(s)@ == old(s)@.push(c),
{
    s.push(c);
}

/// `k` is the position of the first `c` in `s`.
pub open spec fn is_first_index(s: Seq<char>, c: char, k: int) -> bool {
    &&& 0 <= k < s.len()
    &&& s[k] == c
    &&& forall|j: int| 0 <= j < k ==> s[j] != c
}

/// The position of the first `c` in `s`, if `c` occurs in `s`.
pub open spec fn first_index(s: Seq<char>, c: char) -> Option<int> {
    if exists|k: int| is_first_index(s, c, k) {
        Some(choose|k: int| is_first_index(s, c, k))
    } else {
        None
    }
}

/// The first position is unique.
pub proof fn lemma_first_index_unique(s: Seq<char>, c: char, k: int)
    requires
        is_first_index(s, c, k),
    ensures
        first_index(s, c) == Some(k),
{
    let k2 = choose|k: int| is_first_index(s, c, k);
    assert(is_first_index(s, c, k2));
    if k2 < k {
        assert(s[k2] != c);
    } else if k < k2 {
        assert(s[k] != c);
    }
}

/// Position of the first `c` in `v`.
pub fn find_char(v: &Vec<char>, c: char) -> (r: Option<usize>)
    ensures
        match r {
            Some(k) => first_index(v@, c) == Some(k as int) && k < v@.len(),
            None => first_index(v@, c) is None,
        },
{
    let mut i: usize = 0;
    while i < v.len()
        invariant
            i <= v.len(),
            forall|j: int| 0 <= j < i ==> v@[j] != c,
        decreases v.len() - i,
    {
        if v[i] == c {
            proof {
                lemma_first_index_unique(v@, c, i as int);
            }
            return Some(i);
        }
        i += 1;
    }
    assert(!exists|k: int| is_first_index(v@, c, k));
    None
}

/// Builds a string from the characters `v[from..to]`.
pub fn string_of_range(v: &Vec<char>, from: usize, to: usize) -> (s: String)
    requires
        from <= to <= v.len(),
    ensures
        s@ == v@.subrange(from as int, to as int),
{
    let mut s = String::new();
    let mut i = from;
    while i < to
        invariant
            from <= i <= to <= v.len(),
            s@ == v@.subrange(from as int, i as int),
        decreases to - i,
    {
        push_char(&mut s, v[i]);
        i += 1;
        assert(s@ =~= v@.subrange(from as int, i as int));
    }
    s
}

/// The decimal digit character for `d` in `0..10`.
pub open spec fn digit_char(d: int) -> char {
    seq!['0', '1', '2', '3', '4', '5', '6', '7', '8', '9'][d]
}

/// Decimal digits of a natural number, most significant first, without leading zeros.
pub open spec fn digits(n: nat) -> Seq<char>
    decreases n,
{
    if n < 10 {
        seq![digit_char(n as int)]
    } else {
        digits(n / 10).push(digit_char((n % 10) as int))
    }
}

/// Decimal text of an integer, with a leading `-` when negative.
pub open spec fn decimal(n: int) -> Seq<char> {
    if n < 0 {
        seq!['-'] + digits((-n) as nat)
    } else {
        digits(n as nat)
    }
}

/// Decimal digits of `m`.
fn digits_of(m: u64) -> (s: String)
    ensures
        s@ == digits(m as nat),
    decreases m,
{
    let table: [char; 10] = ['0', '1', '2', '3', '4', '5', '6', '7', '8', '9'];
    assert(table@ =~= seq!['0', '1', '2', '3', '4', '5', '6', '7', '8', '9']);
    if m < 10 {
        let mut s = String::new();
        push_char(&mut s, table[m as usize]);
        assert(s@ =~= seq![digit_char(m as int)]);
        s
    } else {
        let mut s = digits_of(m / 10);
        push_char(&mut s, table[(m % 10) as usize]);
        s
    }
}

/// Decimal text of `n` (as `i64`'s `Display` writes it).
pub fn decimal_text(n: i64) -> (s: String)
    ensures
        s@ == decimal(n as int),
{
    if n < 0 {
        let m: u64 = (0i128 - (n as i128)) as u64;
        let d = digits_of(m);
        let mut s = String::new();
        push_char(&mut s, '-');
        s.append(d.as_str());
        assert(s@ =~= seq!['-'] + digits((-n) as nat));
        s
    } else {
        digits_of(n as u64)
    }
}

/// `parts` joined with `sep` between neighbours.
pub open spec fn join(parts: Seq<Seq<char>>, sep: Seq<char>) -> Seq<char>
    decreases parts.len(),
{
    if parts.len() == 0 {
        Seq::empty()
    } else if parts.len() == 1 {
        parts[0]
    } else {
        join(parts.drop_last(), sep) + sep + parts.last()
    }
}

/// Appends `part` to `out`, which holds `join(parts, sep)`, giving `join(parts.push(part@), sep)`.
pub(crate) fn append_joined(
    out: &mut String,
    parts: Ghost<Seq<Seq<char>>>,
    first: bool,
    sep: &str,
    part: &str,
)
    requires
        old(out)@ == join(parts@, sep@),
        first == (parts@.len() == 0),
    ensures
        final(out)@ == join(parts@.push(part@), sep@),
{
    let ghost ps = parts@.push(part@);
    assert(ps.drop_last() =~= parts@);
    if !first {
        out.append(sep);
        out.append(part);
        assert(out@ =~= join(parts@, sep@) + sep@ + part@);
    } else {
        out.append(part);
        assert(out@ =~= part@);
    }
}

/// `c` has the Unicode `White_Space` property (what `char::is_whitespace` tests).
pub open spec fn is_space(c: char) -> bool {
    ||| '\u{9}' <= c <= '\u{d}'
    ||| c == ' '
    ||| c == '\u{85}'
    ||| c == '\u{a0}'
    ||| c == '\u{1680}'
    ||| '\u{2000}' <= c <= '\u{200a}'
    ||| c == '\u{2028}'
    ||| c == '\u{2029}'
    ||| c == '\u{202f}'
    ||| c == '\u{205f}'
    ||| c == '\u{3000}'
}

/// `s` without its leading white space.
pub open spec fn trim_start_spec(s: Seq<char>) -> Seq<char>
    decreases s.len(),
{
    if s.len() > 0 && is_space(s[0]) {
        trim_start_spec(s.drop_first())
    } else {
        s
    }
}

/// `s` without its trailing white space.
pub open spec fn trim_end_spec(s: Seq<char>) -> Seq<char>
    decreases s.len(),
{
    if s.len() > 0 && is_space(s.last()) {
        trim_end_spec(s.drop_last())
    } else {
        s
    }
}

/// `s` without leading and trailing white space.
pub open spec fn trim_spec(s: Seq<char>) -> Seq<char> {
    trim_end_spec(trim_start_spec(s))
}

/// Trimming never lengthens, and what it keeps is a piece of `s`.
pub proof fn lemma_trim_len(s: Seq<char>)
    ensures
        trim_start_spec(s).len() <= s.len(),
        trim_end_spec(s).len() <= s.len(),
        trim_spec(s).len() <= s.len(),
    decreases s.len(),
{
    if s.len() > 0 {
        lemma_trim_len(s.drop_first());
        lemma_trim_len(s.drop_last());
    }
    lemma_trim_end_len(trim_start_spec(s));
}

proof fn lemma_trim_end_len(s: Seq<char>)
    ensures
        trim_end_spec(s).len() <= s.len(),
    decreases s.len(),
{
    if s.len() > 0 {
        lemma_trim_end_len(s.drop_last());
    }
}

/// `char::is_whitespace`.
pub fn is_space_char(c: char) -> (b: bool)
    ensures
        b == is_space(c),
{
    ('\u{9}' <= c && c <= '\u{d}') || c == ' ' || c == '\u{85}' || c == '\u{a0}' || c == '\u{1680}'
        || ('\u{2000}' <= c && c <= '\u{200a}') || c == '\u{2028}' || c == '\u{2029}' || c
        == '\u{202f}' || c == '\u{205f}' || c == '\u{3000}'
}

/// `s` without its leading white space (`str::trim_start`).
pub fn trim_start(s: &str) -> (r: &str)
    ensures
        r@ == trim_start_spec(s@),
{
    let v = chars_of(s);
    let mut i: usize = 0;
    assert(s@.skip(0) =~= s@);
    while i < v.len() && is_space_char(v[i])
        invariant
            i <= v.len(),
            v@ == s@,
            trim_start_spec(s@) == trim_start_spec(s@.skip(i as int)),
        decreases v.len() - i,
    {
        assert(s@.skip(i as int).drop_first() =~= s@.skip(i + 1));
        i += 1;
    }
    s.substring_char(i, v.len())
}

/// `s` without its trailing white space (`str::trim_end`).
pub fn trim_end(s: &str) -> (r: &str)
    ensures
        r@ == trim_end_spec(s@),
{
    let v = chars_of(s);
    let mut n: usize = v.len();
    assert(s@.take(n as int) =~= s@);
    while n > 0 && is_space_char(v[n - 1])
        invariant
            n <= v.len(),
            v@ == s@,
            trim_end_spec(s@) == trim_end_spec(s@.take(n as int)),
        decreases n,
    {
        assert(s@.take(n as int).drop_last() =~= s@.take(n - 1));
        n -= 1;
    }
    s.substring_char(0, n)
}

/// `s` without leading and trailing white space (`str::trim`).
pub fn trim(s: &str) -> (r: &str)
    ensures
        r@ == trim_spec(s@),
{
    trim_end(trim_start(s))
}

/// `a` and `b` hold the same characters.
pub fn str_eq(a: &str, b: &str) -> (r: bool)
    ensures
        r == (a@ == b@),
{
    let x = chars_of(a);
    let y = chars_of(b);
    if x.len() != y.len() {
        return false;
    }
    let mut i: usize = 0;
    while i < x.len()
        invariant
            i <= x.len() == y.len(),
            x@ == a@,
            y@ == b@,
            forall|j: int| 0 <= j < i ==> x@[j] == y@[j],
        decreases x.len() - i,
    {
        if x[i] != y[i] {
            return false;
        }
        i += 1;
    }
    assert(x@ =~= y@);
    true
}

/// `s` begins with `prefix`.
pub open spec fn has_prefix(s: Seq<char>, prefix: Seq<char>) -> bool {
    prefix.len() <= s.len() && s.take(prefix.len() as int) == prefix
}

/// `s` begins with `prefix` (`str::starts_with`).
pub fn starts_with(s: &str, prefix: &str) -> (r: bool)
    ensures
        r == has_prefix(s@, prefix@),
{
    let x = chars_of(s);
    let p = chars_of(prefix);
    if p.len() > x.len() {
        return false;
    }
    let mut i: usize = 0;
    while i < p.len()
        invariant
            i <= p.len() <= x.len(),
            x@ == s@,
            p@ == prefix@,
            forall|j: int| 0 <= j < i ==> x@[j] == p@[j],
        decreases p.len() - i,
    {
        if x[i] != p[i] {
            assert(s@.take(prefix@.len() as int)[i as int] == x@[i as int]);
            return false;
        }
        i += 1;
    }
    assert(s@.take(prefix@.len() as int) =~= prefix@);
    true
}

/// The view of an optional string.
pub open spec fn opt_view(s: Option<String>) -> Option<Seq<char>> {
    match s {
        Some(x) => Some(x@),
        None => None,
    }
}

/// The text of an optional string, empty when there is none.
pub open spec fn or_empty(s: Option<String>) -> Seq<char> {
    match s {
        Some(x) => x@,
        None => Seq::empty(),
    }
}

/// A copy of an optional string.
pub fn clone_opt(s: &Option<String>) -> (r: Option<String>)
    ensures
        opt_view(r) == opt_view(*s),
{
    match s {
        Some(x) => Some(x.clone()),
        None => None,
    }
}

/// The string held, or an empty one.
pub fn clone_or_empty(s: &Option<String>) -> (r: String)
    ensures
        r@ == or_empty(*s),
{
    match s {
        Some(x) => x.clone(),
        None => String::new(),
    }
}

} // verus!

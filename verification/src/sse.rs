//! Server-Sent Events parser used by the streaming code path (no I/O).
//!
//! Events end with a blank line, written `\n\n` or `\r\n\r\n`, whichever comes first in the
//! buffer. Within an event, lines are split at `\n` (a trailing `\r` is dropped), comment lines
//! (`:...`) and empty lines are skipped, and every `data` field contributes its value (one
//! leading space stripped); several `data` values are joined with `\n`. Events without data are
//! skipped, and `data: [DONE]` ends the stream.
use vstd::prelude::*;
use vstd::string::*;
use crate::text::{chars_of, first_index, push_char};
use vstd::utf8::{decode_utf8, valid_utf8};

verus! {

broadcast use vstd::string::group_string_axioms;

/// Outcome of pulling one logical event off the buffer.
#[derive(Debug, PartialEq, Eq)]
pub enum SseEvent {
    /// A `data:` event with the concatenated payload (excluding the field name).
    Data(String),
    /// `data: [DONE]` terminator: the consumer should stop.
    Done,
}

impl View for SseEvent {
    /// `Some(payload)` for a data event, `None` for the terminator.
    type V = Option<Seq<char>>;

    open spec fn view(&self) -> Option<Seq<char>> {
        match self {
            SseEvent::Data(d) => Some(d@),
            SseEvent::Done => None,
        }
    }
}

/// The view of an optional event.
pub open spec fn opt_event_view(e: Option<SseEvent>) -> Option<Option<Seq<char>>> {
    match e {
        Some(ev) => Some(ev@),
        None => None,
    }
}

/// The CRLF event terminator.
pub open spec fn crlf_crlf() -> Seq<char> {
    seq!['\r', '\n', '\r', '\n']
}

/// The LF event terminator.
pub open spec fn lf_lf() -> Seq<char> {
    seq!['\n', '\n']
}

/// The name of the field that carries payload.
pub open spec fn data_field() -> Seq<char> {
    seq!['d', 'a', 't', 'a']
}

/// The payload that ends the stream.
pub open spec fn done_marker() -> Seq<char> {
    seq!['[', 'D', 'O', 'N', 'E', ']']
}

/// `pat` occurs in `s` at position `i`.
pub open spec fn matches_at(s: Seq<char>, pat: Seq<char>, i: int) -> bool {
    0 <= i && i + pat.len() <= s.len() && s.subrange(i, i + pat.len()) == pat
}

/// `i` is the first position at which `pat` occurs in `s`.
pub open spec fn is_first_match(s: Seq<char>, pat: Seq<char>, i: int) -> bool {
    &&& matches_at(s, pat, i)
    &&& forall|j: int| 0 <= j < i ==> !matches_at(s, pat, j)
}

/// The first position at which `pat` occurs in `s`, if any.
pub open spec fn first_match(s: Seq<char>, pat: Seq<char>) -> Option<int> {
    if exists|i: int| is_first_match(s, pat, i) {
        Some(choose|i: int| is_first_match(s, pat, i))
    } else {
        None
    }
}

/// The end of the first event in `s`: its position and the length of its terminator.
/// The earlier of the first `\r\n\r\n` and the first `\n\n` wins; on a tie, `\r\n\r\n`.
pub open spec fn boundary(s: Seq<char>) -> Option<(int, int)> {
    match (first_match(s, crlf_crlf()), first_match(s, lf_lf())) {
        (Some(c), Some(l)) => if c <= l {
            Some((c, 4))
        } else {
            Some((l, 2))
        },
        (Some(c), None) => Some((c, 4)),
        (None, Some(l)) => Some((l, 2)),
        (None, None) => None,
    }
}

/// `line` without one trailing `\r`.
pub open spec fn strip_cr(line: Seq<char>) -> Seq<char> {
    if line.len() > 0 && line.last() == '\r' {
        line.drop_last()
    } else {
        line
    }
}

/// `v` without one leading space.
pub open spec fn strip_space(v: Seq<char>) -> Seq<char> {
    if v.len() > 0 && v[0] == ' ' {
        v.drop_first()
    } else {
        v
    }
}

/// The value that a (CR-stripped) line contributes as a `data` field, if it is one.
/// The field name runs up to the first `:`; a line without `:` is a field with an empty value.
pub open spec fn line_value(l: Seq<char>) -> Option<Seq<char>> {
    if l.len() == 0 || l[0] == ':' {
        None
    } else {
        match first_index(l, ':') {
            Some(k) => if l.take(k) == data_field() {
                Some(strip_space(l.skip(k + 1)))
            } else {
                None
            },
            None => if l == data_field() {
                Some(Seq::<char>::empty())
            } else {
                None
            },
        }
    }
}

/// Joins a new data value onto the data gathered so far.
pub open spec fn join_data(acc: Seq<char>, v: Seq<char>) -> Seq<char> {
    if acc.len() == 0 {
        v
    } else {
        acc + seq!['\n'] + v
    }
}

/// The data gathered after one more line.
pub open spec fn add_line(acc: Seq<char>, line: Seq<char>) -> Seq<char> {
    match line_value(strip_cr(line)) {
        Some(v) => join_data(acc, v),
        None => acc,
    }
}

/// The data of the text `cur + s`, where `cur` is the current (unfinished) line and `acc` the data
/// of the lines before it; lines end at `\n`.
pub open spec fn lines_data(s: Seq<char>, cur: Seq<char>, acc: Seq<char>) -> Seq<char>
    decreases s.len(),
{
    if s.len() == 0 {
        add_line(acc, cur)
    } else if s[0] == '\n' {
        lines_data(s.drop_first(), Seq::<char>::empty(), add_line(acc, cur))
    } else {
        lines_data(s.drop_first(), cur.push(s[0]), acc)
    }
}

/// The data payload of one raw event (the text before its terminator).
pub open spec fn event_data(raw: Seq<char>) -> Seq<char> {
    lines_data(raw, Seq::<char>::empty(), Seq::<char>::empty())
}

/// `s` with a carriage return put before each line feed (LF line endings made CRLF).
pub open spec fn crlf_endings(s: Seq<char>) -> Seq<char>
    decreases s.len(),
{
    if s.len() == 0 {
        s
    } else if s[0] == '\n' {
        seq!['\r', '\n'] + crlf_endings(s.drop_first())
    } else {
        seq![s[0]] + crlf_endings(s.drop_first())
    }
}

/// No line of `s` ends in a carriage return: no `\r` comes right before a `\n` or at the end.
pub open spec fn no_cr_line_end(s: Seq<char>) -> bool {
    forall|i: int| 0 <= i < s.len() && #[trigger] s[i] == '\r' ==> i + 1 < s.len() && s[i + 1] != '\n'
}

proof fn lemma_crlf_lines_data(s: Seq<char>, cur: Seq<char>, acc: Seq<char>)
    requires
        no_cr_line_end(cur + s),
    ensures
        lines_data(crlf_endings(s), cur, acc) == lines_data(s, cur, acc),
    decreases s.len(),
{
    let t = cur + s;
    if s.len() == 0 {
    } else {
        let rest = s.drop_first();
        let a = crlf_endings(rest);
        assert(t[cur.len() as int] == s[0]);
        if s[0] == '\n' {
            let x = seq!['\r', '\n'] + a;
            assert(x[0] == '\r');
            assert(x.drop_first() =~= seq!['\n'] + a);
            assert((seq!['\n'] + a)[0] == '\n');
            assert((seq!['\n'] + a).drop_first() =~= a);
            if cur.len() > 0 {
                assert(t[cur.len() - 1] == cur.last());
            }
            assert(strip_cr(cur.push('\r')) =~= cur);
            assert(strip_cr(cur) == cur);
            assert forall|i: int| 0 <= i < rest.len() && #[trigger] rest[i] == '\r' implies i + 1
                < rest.len() && rest[i + 1] != '\n' by {
                assert(t[cur.len() + 1 + i] == rest[i]);
                assert(t[cur.len() + 1 + i + 1] == t[cur.len() + 1 + i + 1]);
                if i + 1 < rest.len() {
                    assert(t[cur.len() + 1 + i + 1] == rest[i + 1]);
                }
            }
            assert(Seq::<char>::empty() + rest =~= rest);
            lemma_crlf_lines_data(rest, Seq::<char>::empty(), add_line(acc, cur));
            assert(crlf_endings(s) == x);
            assert(lines_data(seq!['\n'] + a, cur.push('\r'), acc) == lines_data(
                a,
                Seq::<char>::empty(),
                add_line(acc, cur.push('\r')),
            ));
            assert(lines_data(x, cur, acc) == lines_data(seq!['\n'] + a, cur.push('\r'), acc));
            assert(lines_data(s, cur, acc) == lines_data(rest, Seq::<char>::empty(), add_line(acc, cur)));
        } else {
            let x = seq![s[0]] + a;
            assert(x[0] == s[0]);
            assert(x.drop_first() =~= a);
            assert(cur.push(s[0]) + rest =~= t);
            lemma_crlf_lines_data(rest, cur.push(s[0]), acc);
            assert(crlf_endings(s) == x);
            assert(lines_data(x, cur, acc) == lines_data(a, cur.push(s[0]), acc));
        }
    }
}

/// CRLF and LF line endings give the same payload: every line is read without its trailing
/// carriage return, so turning each line feed of an event into `\r\n` changes nothing (for text
/// none of whose lines already ends in a carriage return).
pub proof fn law_crlf_same_as_lf(raw: Seq<char>)
    requires
        no_cr_line_end(raw),
    ensures
        event_data(crlf_endings(raw)) == event_data(raw),
{
    assert(Seq::<char>::empty() + raw =~= raw);
    lemma_crlf_lines_data(raw, Seq::<char>::empty(), Seq::<char>::empty());
}

/// The next event in `s` and the text left after it.
/// Outer `None`: no complete event with data; `Some(None)`: the terminator; `Some(Some(d))`: data `d`.
pub open spec fn next_event(s: Seq<char>) -> (Option<Option<Seq<char>>>, Seq<char>)
    decreases s.len(),
{
    match boundary(s) {
        None => (None, s),
        Some((i, n)) => {
            let rest = s.skip(i + n);
            let d = event_data(s.take(i));
            if d.len() == 0 {
                next_event(rest)
            } else if d == done_marker() {
                (Some(None), rest)
            } else {
                (Some(Some(d)), rest)
            }
        },
    }
}

/// Position of the first occurrence of `pat` in `v`.
fn find_pattern(v: &Vec<char>, pat: &[char]) -> (r: Option<usize>)
    requires
        pat@.len() > 0,
    ensures
        match r {
            Some(i) => first_match(v@, pat@) == Some(i as int),
            None => first_match(v@, pat@) is None,
        },
{
    let mut i: usize = 0;
    while i < v.len() && pat.len() <= v.len() - i
        invariant
            i <= v.len(),
            pat@.len() > 0,
            forall|j: int| 0 <= j < i ==> !matches_at(v@, pat@, j),
        decreases v.len() - i,
    {
        let mut k: usize = 0;
        let mut same = true;
        while k < pat.len()
            invariant
                i + pat.len() <= v.len(),
                k <= pat.len(),
                same == (forall|t: int| 0 <= t < k ==> v@[i + t] == pat@[t]),
            decreases pat.len() - k,
        {
            if v[i + k] != pat[k] {
                same = false;
            }
            k += 1;
        }
        if same {
            assert(v@.subrange(i as int, i + pat@.len()) =~= pat@);
            let ghost w = choose|w: int| is_first_match(v@, pat@, w);
            assert(is_first_match(v@, pat@, i as int));
            assert(is_first_match(v@, pat@, w));
            assert(w == i) by {
                if w < i {
                    assert(!matches_at(v@, pat@, w));
                } else if i < w {
                    assert(!matches_at(v@, pat@, i as int));
                }
            }
            return Some(i);
        }
        assert(!matches_at(v@, pat@, i as int)) by {
            if matches_at(v@, pat@, i as int) {
                let t = choose|t: int| 0 <= t < pat@.len() && v@[i + t] != pat@[t];
                assert(v@.subrange(i as int, i + pat@.len())[t] == v@[i + t]);
            }
        }
        i += 1;
    }
    assert(forall|j: int| !matches_at(v@, pat@, j));
    None
}

/// The end of the first event in `v` (see `boundary`).
fn find_boundary(v: &Vec<char>) -> (r: Option<(usize, usize)>)
    ensures
        match r {
            Some((i, n)) => boundary(v@) == Some((i as int, n as int)),
            None => boundary(v@) is None,
        },
{
    let crlf: [char; 4] = ['\r', '\n', '\r', '\n'];
    let lf: [char; 2] = ['\n', '\n'];
    assert(crlf@ =~= crlf_crlf());
    assert(lf@ =~= lf_lf());
    let c = find_pattern(&v, crlf.as_slice());
    let l = find_pattern(&v, lf.as_slice());
    match (c, l) {
        (Some(c), Some(l)) => if c <= l {
            Some((c, 4))
        } else {
            Some((l, 2))
        },
        (Some(c), None) => Some((c, 4)),
        (None, Some(l)) => Some((l, 2)),
        (None, None) => None,
    }
}

/// `s` without one trailing `\r`.
pub fn strip_trailing_cr(s: &str) -> (r: &str)
    ensures
        r@ == strip_cr(s@),
{
    let n = s.unicode_len();
    if n > 0 && s.get_char(n - 1) == '\r' {
        s.substring_char(0, n - 1)
    } else {
        s
    }
}

/// `s` without one leading space.
pub fn strip_one_leading_space(s: &str) -> (r: &str)
    ensures
        r@ == strip_space(s@),
{
    let n = s.unicode_len();
    if n > 0 && s.get_char(0) == ' ' {
        s.substring_char(1, n)
    } else {
        s
    }
}

/// `v[from..to]` spells `data`.
fn is_data_name(v: &Vec<char>, from: usize, to: usize) -> (b: bool)
    requires
        from <= to <= v.len(),
    ensures
        b == (v@.subrange(from as int, to as int) == data_field()),
{
    if to - from == 4 && v[from] == 'd' && v[from + 1] == 'a' && v[from + 2] == 't' && v[from + 3]
        == 'a' {
        assert(v@.subrange(from as int, to as int) =~= data_field());
        true
    } else {
        proof {
            let w = v@.subrange(from as int, to as int);
            if w == data_field() {
                assert(w.len() == 4);
                assert(w[0] == v@[from as int] && w[1] == v@[from + 1] && w[2] == v@[from + 2]
                    && w[3] == v@[from + 3]);
                assert(data_field()[0] == 'd' && data_field()[1] == 'a' && data_field()[2] == 't'
                    && data_field()[3] == 'a');
            }
        }
        false
    }
}

/// The value a CR-stripped line contributes as a `data` field (see `line_value`).
fn data_line_value(l: &str) -> (r: Option<&str>)
    ensures
        match r {
            Some(v) => line_value(l@) == Some(v@),
            None => line_value(l@) is None,
        },
{
    if l.is_empty() {
        return None;
    }
    if l.get_char(0) == ':' {
        return None;
    }
    let lc = chars_of(l);
    let n = lc.len();
    match crate::text::find_char(&lc, ':') {
        Some(k) => {
            if is_data_name(&lc, 0, k) {
                assert(lc@.subrange(0, k as int) =~= l@.take(k as int));
                let value = l.substring_char(k + 1, n);
                assert(value@ =~= l@.skip(k + 1));
                Some(strip_one_leading_space(value))
            } else {
                assert(lc@.subrange(0, k as int) =~= l@.take(k as int));
                None
            }
        },
        None => {
            if is_data_name(&lc, 0, n) {
                assert(lc@.subrange(0, n as int) =~= l@);
                let empty = l.substring_char(n, n);
                assert(empty@ =~= Seq::<char>::empty());
                Some(empty)
            } else {
                assert(lc@.subrange(0, n as int) =~= l@);
                None
            }
        },
    }
}

/// Adds one line of an event to the data gathered so far (see `add_line`).
fn add_event_line(data: &mut String, line: &str)
    ensures
        final(data)@ == add_line(old(data)@, line@),
{
    let l = strip_trailing_cr(line);
    match data_line_value(l) {
        Some(v) => {
            if !data.as_str().is_empty() {
                push_char(data, '\n');
            }
            data.append(v);
            assert(data@ =~= join_data(old(data)@, v@));
        },
        None => {},
    }
}

/// The data payload of the raw event `s[..end]` (see `event_data`).
fn raw_event_data(s: &str, v: &Vec<char>, end: usize) -> (d: String)
    requires
        v@ == s@,
        end <= v.len(),
    ensures
        d@ == event_data(v@.take(end as int)),
{
    let mut data = String::new();
    let mut start: usize = 0;
    let mut i: usize = 0;
    assert(v@.take(end as int) =~= v@.subrange(0, end as int));
    assert(v@.subrange(0, 0) =~= Seq::<char>::empty());
    while i < end
        invariant
            start <= i <= end <= v.len(),
            v@ == s@,
            event_data(v@.take(end as int)) == lines_data(
                v@.subrange(i as int, end as int),
                v@.subrange(start as int, i as int),
                data@,
            ),
        decreases end - i,
    {
        let ghost rest = v@.subrange(i as int, end as int);
        assert(rest[0] == v@[i as int]);
        assert(rest.drop_first() =~= v@.subrange(i + 1, end as int));
        if v[i] == '\n' {
            let line = s.substring_char(start, i);
            add_event_line(&mut data, line);
            start = i + 1;
            assert(v@.subrange(start as int, start as int) =~= Seq::<char>::empty());
        } else {
            assert(v@.subrange(start as int, i as int).push(v@[i as int]) =~= v@.subrange(
                start as int,
                i + 1,
            ));
        }
        i = i + 1;
    }
    assert(v@.subrange(end as int, end as int) =~= Seq::<char>::empty());
    let last = s.substring_char(start, end);
    add_event_line(&mut data, last);
    data
}

/// `d` is the `[DONE]` terminator.
fn is_done_marker(d: &String) -> (b: bool)
    ensures
        b == (d@ == done_marker()),
{
    let c = chars_of(d.as_str());
    if c.len() == 6 && c[0] == '[' && c[1] == 'D' && c[2] == 'O' && c[3] == 'N' && c[4] == 'E'
        && c[5] == ']' {
        assert(c@ =~= done_marker());
        true
    } else {
        assert(c@.len() == 6 && c@ == done_marker() ==> c@[0] == '[' && c@[1] == 'D' && c@[2]
            == 'O' && c@[3] == 'N' && c@[4] == 'E' && c@[5] == ']');
        false
    }
}

/// Try to pull one event off the front of `buffer`. Returns `Some(event)` and drains the
/// consumed text; returns `None` once the buffer holds no complete event with data, after
/// draining the complete events without data that it held.
pub fn parse_next_event(buffer: &mut String) -> (ev: Option<SseEvent>)
    ensures
        next_event(old(buffer)@) == (opt_event_view(ev), final(buffer)@),
{
    let ghost start = buffer@;
    loop
        invariant
            start == old(buffer)@,
            next_event(start) == next_event(buffer@),
        decreases buffer@.len(),
    {
        let v = chars_of(buffer.as_str());
        match find_boundary(&v) {
            None => {
                return None;
            },
            Some((idx, sep)) => {
                let data = raw_event_data(buffer.as_str(), &v, idx);
                let rest = buffer.as_str().substring_char(idx + sep, v.len()).to_owned();
                proof {
                    assert(rest@ =~= v@.skip(idx + sep));
                }
                *buffer = rest;
                if data.as_str().is_empty() {
                    continue;
                }
                if is_done_marker(&data) {
                    return Some(SseEvent::Done);
                }
                return Some(SseEvent::Data(data));
            },
        }
    }
}

/// A first match in `s` stays the first match when text is appended to `s`.
proof fn lemma_first_match_extend(s: Seq<char>, t: Seq<char>, pat: Seq<char>)
    ensures
        first_match(s, pat) matches Some(i) ==> first_match(s + t, pat) == Some(i),
        first_match(s, pat) is None ==> (first_match(s + t, pat) matches Some(j) ==> j + pat.len()
            > s.len()),
{
    let st = s + t;
    assert forall|j: int| j + pat.len() <= s.len() implies matches_at(st, pat, j) == matches_at(
        s,
        pat,
        j,
    ) by {
        if 0 <= j {
            assert(st.subrange(j, j + pat.len()) =~= s.subrange(j, j + pat.len()));
        }
    }
    if first_match(s, pat) is Some {
        let i = choose|i: int| is_first_match(s, pat, i);
        assert(is_first_match(st, pat, i));
        let w = choose|w: int| is_first_match(st, pat, w);
        assert(is_first_match(st, pat, w));
        if w < i {
            assert(!matches_at(st, pat, w));
        } else if i < w {
            assert(!matches_at(st, pat, i));
        }
    } else {
        if first_match(st, pat) is Some {
            let w = choose|w: int| is_first_match(st, pat, w);
            if w + pat.len() <= s.len() {
                assert(is_first_match(s, pat, w));
            }
        }
    }
}

/// The end of the first event in `s` stays where it is when text is appended to `s`.
proof fn lemma_boundary_extend(s: Seq<char>, t: Seq<char>)
    requires
        boundary(s) is Some,
    ensures
        boundary(s + t) == boundary(s),
{
    lemma_first_match_extend(s, t, crlf_crlf());
    lemma_first_match_extend(s, t, lf_lf());
    let st = s + t;
    if first_match(s, crlf_crlf()) is None {
        let l = first_match(s, lf_lf())->0;
        let l_w = choose|i: int| is_first_match(s, lf_lf(), i);
        assert(matches_at(s, lf_lf(), l));
        if let Some(c) = first_match(st, crlf_crlf()) {
            let c_w = choose|i: int| is_first_match(st, crlf_crlf(), i);
            assert(matches_at(st, crlf_crlf(), c));
            if c <= l {
                assert(s.subrange(l, l + 2)[0] == s[l]);
                assert(s.subrange(l, l + 2)[1] == s[l + 1]);
                assert(st.subrange(c, c + 4)[0] == st[c]);
                assert(st.subrange(c, c + 4)[1] == st[c + 1]);
                assert(st.subrange(c, c + 4)[2] == st[c + 2]);
                assert(st[l] == s[l]);
                assert(st[l + 1] == s[l + 1]);
                assert(false);
            }
        }
    } else if first_match(s, lf_lf()) is None {
        let c = first_match(s, crlf_crlf())->0;
        let c_w = choose|i: int| is_first_match(s, crlf_crlf(), i);
        assert(matches_at(s, crlf_crlf(), c));
    }
}

/// The event found in `s` is found in `s + t` too, with `t` left after it.
proof fn lemma_next_event_extend(s: Seq<char>, t: Seq<char>)
    ensures
        next_event(s + t) == (match next_event(s) {
            (Some(e), r) => (Some(e), r + t),
            (None, r) => next_event(r + t),
        }),
    decreases s.len(),
{
    match boundary(s) {
        None => {},
        Some((i, n)) => {
            lemma_boundary_extend(s, t);
            let st = s + t;
            let w = choose|w: int| is_first_match(s, crlf_crlf(), w);
            let w2 = choose|w: int| is_first_match(s, lf_lf(), w);
            assert(0 <= i && i + n <= s.len());
            assert(st.take(i) =~= s.take(i));
            assert(st.skip(i + n) =~= s.skip(i + n) + t);
            lemma_next_event_extend(s.skip(i + n), t);
        },
    }
}

/// Feeding the stream in pieces gives the events that feeding it at once gives: parsing
/// `s + t` yields the event found in `s` (with `t` left behind it), or, when `s` holds no
/// complete event, the event of what is left of `s` followed by `t`.
pub proof fn law_chunked_input(s: Seq<char>, t: Seq<char>)
    ensures
        next_event(s + t) == (match next_event(s) {
            (Some(e), r) => (Some(e), r + t),
            (None, r) => next_event(r + t),
        }),
{
    lemma_next_event_extend(s, t);
}

/// Parsing only ever removes text from the front of the buffer, and removes some whenever it
/// returns an event.
pub proof fn law_consumes_prefix(s: Seq<char>)
    ensures
        next_event(s).1.len() <= s.len(),
        s.skip(s.len() - next_event(s).1.len()) == next_event(s).1,
        next_event(s).0 is Some ==> next_event(s).1.len() < s.len(),
    decreases s.len(),
{
    match boundary(s) {
        None => {
            assert(s.skip(0) =~= s);
        },
        Some((i, n)) => {
            let w = choose|w: int| is_first_match(s, crlf_crlf(), w);
            let w2 = choose|w: int| is_first_match(s, lf_lf(), w);
            assert(0 <= i && i + n <= s.len() && n > 0);
            let rest = s.skip(i + n);
            law_consumes_prefix(rest);
            let r = next_event(rest).1;
            assert(s.skip(s.len() - r.len()) =~= rest.skip(rest.len() - r.len()));
        },
    }
}

/// When no event is returned, what is left holds no complete event.
pub proof fn law_none_leaves_no_complete_event(s: Seq<char>)
    ensures
        next_event(s).0 is None ==> boundary(next_event(s).1) is None,
    decreases s.len(),
{
    match boundary(s) {
        None => {},
        Some((i, n)) => {
            let w = choose|w: int| is_first_match(s, crlf_crlf(), w);
            let w2 = choose|w: int| is_first_match(s, lf_lf(), w);
            law_none_leaves_no_complete_event(s.skip(i + n));
        },
    }
}

/// A data event never carries an empty payload or the `[DONE]` terminator.
pub proof fn law_data_is_nonempty_and_not_done(s: Seq<char>)
    ensures
        next_event(s).0 matches Some(Some(d)) ==> d.len() > 0 && d != done_marker(),
    decreases s.len(),
{
    match boundary(s) {
        None => {},
        Some((i, n)) => {
            let w = choose|w: int| is_first_match(s, crlf_crlf(), w);
            let w2 = choose|w: int| is_first_match(s, lf_lf(), w);
            law_data_is_nonempty_and_not_done(s.skip(i + n));
        },
    }
}

/// The payloads of the data events that `s` holds, in order, whether the terminator followed
/// them, and the text left once parsing stops (at the terminator or at the end of the
/// complete events).
pub open spec fn drain_events(s: Seq<char>) -> (Seq<Seq<char>>, bool, Seq<char>)
    decreases s.len(),
{
    match next_event(s) {
        (None, r) => (Seq::<Seq<char>>::empty(), false, r),
        (Some(None), r) => (Seq::<Seq<char>>::empty(), true, r),
        (Some(Some(d)), r) => {
            proof {
                law_consumes_prefix(s);
            }
            let (ds, done, rest) = drain_events(r);
            (seq![d] + ds, done, rest)
        },
    }
}

/// Feeding a stream in two pieces yields the same payloads, in the same order, as feeding
/// it whole: what the first piece completes, then what its leftover text and the second piece
/// complete; once the terminator has come, nothing more is read.
pub proof fn law_drain_in_pieces(s: Seq<char>, t: Seq<char>)
    ensures
        ({
            let (ds1, done1, r1) = drain_events(s);
            if done1 {
                drain_events(s + t) == (ds1, true, r1 + t)
            } else {
                let (ds2, done2, r2) = drain_events(r1 + t);
                drain_events(s + t) == (ds1 + ds2, done2, r2)
            }
        }),
    decreases s.len(),
{
    law_chunked_input(s, t);
    law_consumes_prefix(s);
    match next_event(s) {
        (None, r) => {
            let (ds2, done2, r2) = drain_events(r + t);
            assert(Seq::<Seq<char>>::empty() + ds2 =~= ds2);
        },
        (Some(None), r) => {},
        (Some(Some(d)), r) => {
            law_drain_in_pieces(r, t);
            let (dsr, doner, rr) = drain_events(r);
            if !doner {
                let (ds2, done2, r2) = drain_events(rr + t);
                assert(seq![d] + (dsr + ds2) =~= (seq![d] + dsr) + ds2);
            }
        },
    }
}

/// Where an event ends lies inside the text: a terminator of two or four characters.
pub proof fn lemma_boundary_bounds(s: Seq<char>)
    ensures
        boundary(s) matches Some((i, n)) ==> 0 <= i && (n == 2 || n == 4) && i + n <= s.len(),
{
    if boundary(s) is Some {
        let w = choose|w: int| is_first_match(s, crlf_crlf(), w);
        let w2 = choose|w: int| is_first_match(s, lf_lf(), w);
    }
}

/// The first event of `s` is also the first event of the text that ends with it.
proof fn lemma_boundary_prefix(s: Seq<char>)
    requires
        boundary(s) is Some,
    ensures
        ({
            let (i, n) = boundary(s)->0;
            boundary(s.take(i + n)) == boundary(s)
        }),
{
    lemma_boundary_bounds(s);
    let (i, n) = boundary(s)->0;
    let p = s.take(i + n);
    let q = s.skip(i + n);
    assert(p + q =~= s);
    lemma_first_match_extend(p, q, crlf_crlf());
    lemma_first_match_extend(p, q, lf_lf());
    let w = choose|w: int| is_first_match(s, crlf_crlf(), w);
    let w2 = choose|w: int| is_first_match(s, lf_lf(), w);
    if n == 4 {
        assert(first_match(s, crlf_crlf()) == Some(i));
        assert(first_match(p, crlf_crlf()) is Some);
    } else {
        assert(first_match(s, lf_lf()) == Some(i));
        assert(first_match(p, lf_lf()) is Some);
    }
    lemma_boundary_extend(p, q);
}

/// The raw events of `p` (the text before each terminator), in order, and the text after the
/// last complete one.
pub open spec fn split_events(p: Seq<char>) -> (Seq<Seq<char>>, Seq<char>)
    decreases p.len(),
{
    match boundary(p) {
        None => (Seq::<Seq<char>>::empty(), p),
        Some((i, n)) => {
            proof {
                lemma_boundary_bounds(p);
            }
            let (evs, left) = split_events(p.skip(i + n));
            (seq![p.take(i)] + evs, left)
        },
    }
}

/// The split of a text whose first event ends at `i` with a terminator of `n` characters.
proof fn lemma_split_first(p: Seq<char>, i: int, n: int)
    requires
        boundary(p) == Some((i, n)),
    ensures
        split_events(p) == (
            seq![p.take(i)] + split_events(p.skip(i + n)).0,
            split_events(p.skip(i + n)).1,
        ),
{
}

/// The empty text holds no event.
proof fn lemma_split_empty()
    ensures
        split_events(Seq::<char>::empty()) == (Seq::<Seq<char>>::empty(), Seq::<char>::empty()),
{
    let z = Seq::<char>::empty();
    assert(first_match(z, crlf_crlf()) is None);
    assert(first_match(z, lf_lf()) is None);
}

/// What a call of the parser on `s` removes, as whole raw events, with the text left after it.
pub open spec fn removes_whole_events(s: Seq<char>) -> bool {
    let (e, r) = next_event(s);
    let p = s.take(s.len() - r.len());
    let (evs, left) = split_events(p);
    &&& s == p + r
    &&& left.len() == 0
    &&& e is None ==> forall|k: int| 0 <= k < evs.len() ==> event_data(#[trigger] evs[k]).len() == 0
    &&& e is Some ==> {
        &&& evs.len() > 0
        &&& forall|k: int| 0 <= k < evs.len() - 1 ==> event_data(#[trigger] evs[k]).len() == 0
        &&& event_data(evs.last()).len() > 0
    }
    &&& e matches Some(Some(d)) ==> d == event_data(evs.last())
    &&& e matches Some(None) ==> event_data(evs.last()) == done_marker()
}

/// The step of `law_drained_events` past a first event without data.
#[verifier::rlimit(100)]
#[verifier::spinoff_prover]
proof fn lemma_drained_skip(s: Seq<char>, i: int, n: int)
    requires
        boundary(s) == Some((i, n)),
        0 <= i,
        i + n <= s.len(),
        event_data(s.take(i)).len() == 0,
        removes_whole_events(s.skip(i + n)),
        next_event(s) == next_event(s.skip(i + n)),
        next_event(s).1.len() <= s.skip(i + n).len(),
    ensures
        removes_whole_events(s),
{
    let raw = s.take(i);
    let rest = s.skip(i + n);
    let (e, r) = next_event(s);
    let p = s.take(s.len() - r.len());
    let p2 = rest.take(rest.len() - r.len());
    lemma_boundary_prefix(s);
    let head = s.take(i + n);
    assert(p =~= head + p2);
    assert(rest =~= p2 + r);
    assert(s =~= head + rest);
    assert(s =~= (head + p2) + r);
    assert(s =~= p + r);
    lemma_boundary_extend(head, p2);
    assert(p.take(i) =~= raw);
    assert(p.skip(i + n) =~= p2);
    lemma_split_first(p, i, n);
    let (evs2, left2) = split_events(p2);
    let (evs, left) = split_events(p);
    assert(evs =~= seq![raw] + evs2);
    assert forall|k: int| 0 < k < evs.len() implies evs[k] == evs2[k - 1] by {}
    if e is Some {
        assert(evs.last() == evs2.last());
        assert forall|k: int| 0 <= k < evs.len() - 1 implies event_data(#[trigger] evs[k]).len()
            == 0 by {
            if k > 0 {
                assert(evs[k] == evs2[k - 1]);
            }
        }
    } else {
        assert forall|k: int| 0 <= k < evs.len() implies event_data(#[trigger] evs[k]).len()
            == 0 by {
            if k > 0 {
                assert(evs[k] == evs2[k - 1]);
            }
        }
    }
}

/// The case of `law_drained_events` where the first event carries data.
proof fn lemma_drained_first(s: Seq<char>, i: int, n: int)
    requires
        boundary(s) == Some((i, n)),
        0 <= i,
        i + n <= s.len(),
        event_data(s.take(i)).len() > 0,
    ensures
        removes_whole_events(s),
{
    let raw = s.take(i);
    let (e, r) = next_event(s);
    assert(r == s.skip(i + n));
    let p = s.take(s.len() - r.len());
    lemma_boundary_prefix(s);
    assert(p =~= s.take(i + n));
    assert(s =~= p + r);
    assert(p.take(i) =~= raw);
    assert(p.skip(i + n) =~= Seq::<char>::empty());
    lemma_split_first(p, i, n);
    lemma_split_empty();
    let (evs, left) = split_events(p);
    assert(evs =~= seq![raw]);
}

/// One call of the parser removes whole events from the front of the buffer. When it returns
/// nothing, none of the removed events carried data; when it returns an event, that event is
/// the last one removed and the only one of them that carried data (the payload returned, or
/// the `[DONE]` terminator).
pub proof fn law_drained_events(s: Seq<char>)
    ensures
        removes_whole_events(s),
    decreases s.len(),
{
    lemma_boundary_bounds(s);
    match boundary(s) {
        None => {
            let r = next_event(s).1;
            assert(s.take(s.len() - r.len()) =~= Seq::<char>::empty());
            assert(s =~= Seq::<char>::empty() + s);
            lemma_split_empty();
        },
        Some((i, n)) => {
            if event_data(s.take(i)).len() == 0 {
                law_drained_events(s.skip(i + n));
                law_consumes_prefix(s.skip(i + n));
                lemma_drained_skip(s, i, n);
            } else {
                lemma_drained_first(s, i, n);
            }
        },
    }
}

/// Everything that repeated parsing yields from `s` until it returns nothing: the events in
/// order (`None` for the `[DONE]` terminator, which does not stop it), and the text left.
pub open spec fn drain_all(s: Seq<char>) -> (Seq<Option<Seq<char>>>, Seq<char>)
    decreases s.len(),
{
    match next_event(s) {
        (None, r) => (Seq::<Option<Seq<char>>>::empty(), r),
        (Some(e), r) => {
            proof {
                law_consumes_prefix(s);
            }
            let (es, rest) = drain_all(r);
            (seq![e] + es, rest)
        },
    }
}

/// Parsing until nothing is returned, past any `[DONE]`, yields the same events and leaves the
/// same text whether the stream comes whole or in two pieces, the second appended to what the
/// first left.
pub proof fn law_drain_all_in_pieces(s: Seq<char>, t: Seq<char>)
    ensures
        ({
            let (es1, r1) = drain_all(s);
            let (es2, r2) = drain_all(r1 + t);
            drain_all(s + t) == (es1 + es2, r2)
        }),
    decreases s.len(),
{
    law_chunked_input(s, t);
    law_consumes_prefix(s);
    match next_event(s) {
        (None, r) => {
            let (es2, r2) = drain_all(r + t);
            assert(Seq::<Option<Seq<char>>>::empty() + es2 =~= es2);
        },
        (Some(e), r) => {
            law_drain_all_in_pieces(r, t);
            let (esr, rr) = drain_all(r);
            let (es2, r2) = drain_all(rr + t);
            assert(seq![e] + (esr + es2) =~= (seq![e] + esr) + es2);
        },
    }
}

/// The error `std::str::from_utf8` reports for bytes that are not UTF-8.
#[verifier::external_type_specification]
#[verifier::external_body]
pub struct ExUtf8Error(std::str::Utf8Error);

/// Decodes a chunk of UTF-8 bytes (`std::str::from_utf8`, copied into a `String`).
/// Per its documentation it fails exactly when the bytes are not valid UTF-8.
#[verifier::external_body]
fn decode_chunk(bytes: &[u8]) -> (r: Result<String, std::str::Utf8Error>)
    ensures
        r is Ok <==> valid_utf8(bytes@),
        r matches Ok(s) ==> s@ == decode_utf8(bytes@),
{
    std::str::from_utf8(bytes).map(|s| s.to_string())
}

/// What a chunk of the event stream yields.
pub struct SseChunk {
    /// Payloads of the data events completed by the chunk, in order.
    pub payloads: Vec<String>,
    /// The `[DONE]` terminator arrived: the stream is over.
    pub done: bool,
}

/// Feeds one chunk of a streamed response into `buffer` and pulls every complete event off
/// it. A chunk that is not valid UTF-8 on its own is refused and the buffer left unchanged.
pub fn feed_chunk(buffer: &mut String, chunk: &[u8]) -> (r: Result<SseChunk, std::str::Utf8Error>)
    ensures
        r is Ok <==> valid_utf8(chunk@),
        r is Err ==> final(buffer)@ == old(buffer)@,
        r matches Ok(c) ==> {
            let (ds, done, rest) = drain_events(old(buffer)@ + decode_utf8(chunk@));
            &&& c.payloads@.map_values(|p: String| p@) == ds
            &&& c.done == done
            &&& final(buffer)@ == rest
        },
{
    let text = match decode_chunk(chunk) {
        Ok(t) => t,
        Err(e) => {
            return Err(e);
        },
    };
    buffer.append(text.as_str());
    let ghost all = buffer@;
    let mut payloads: Vec<String> = Vec::new();
    loop
        invariant
            valid_utf8(chunk@),
            all == old(buffer)@ + decode_utf8(chunk@),
            drain_events(all) == ({
                let (ds, done, rest) = drain_events(buffer@);
                (payloads@.map_values(|p: String| p@) + ds, done, rest)
            }),
        decreases buffer@.len(),
    {
        let ghost before = buffer@;
        proof {
            law_consumes_prefix(before);
        }
        match parse_next_event(buffer) {
            None => {
                return Ok(SseChunk { payloads, done: false });
            },
            Some(SseEvent::Done) => {
                return Ok(SseChunk { payloads, done: true });
            },
            Some(SseEvent::Data(d)) => {
                let ghost prev = payloads@.map_values(|p: String| p@);
                payloads.push(d);
                proof {
                    let (ds, done, rest) = drain_events(buffer@);
                    assert(payloads@.map_values(|p: String| p@) =~= prev.push(d@));
                    assert(prev + (seq![d@] + ds) =~= prev.push(d@) + ds);
                }
            },
        }
    }
}

} // verus!

//! The marker-line recognizer.
//!
//! A marker line reads `/****** Object:`, white space, a kind name, white
//! space, then a bracketed name: `[schema].[name]` or just `[name]`. The
//! bracketed part is one run of non-space characters; inside it the schema is
//! taken as long as possible, then the name as long as possible.

use vstd::prelude::*;
use crate::kind::{ObjectType, kind_name, kind_of};
use crate::text::{is_space, is_space_char, chars_of, starts_with};

verus! {

/// The text every marker line begins with.
pub open spec fn marker_prefix() -> Seq<char> {
    "/****** Object:"@
}

/// The first index at or after `i` that does not hold white space.
pub open spec fn skip_space(l: Seq<char>, i: int) -> int
    decreases l.len() - i,
{
    if 0 <= i < l.len() && is_space(l[i]) {
        skip_space(l, i + 1)
    } else {
        i
    }
}

/// The first index at or after `i` that holds white space, or the length.
pub open spec fn token_end(l: Seq<char>, i: int) -> int
    decreases l.len() - i,
{
    if 0 <= i < l.len() && !is_space(l[i]) {
        token_end(l, i + 1)
    } else {
        i
    }
}

/// The last index below `j` and at or above `lo` that holds `]`, or `lo - 1`.
pub open spec fn close_before(l: Seq<char>, lo: int, j: int) -> int
    decreases j - lo,
{
    if j <= lo {
        lo - 1
    } else if l[j - 1] == ']' {
        j - 1
    } else {
        close_before(l, lo, j - 1)
    }
}

/// Whether `].[` starts at index `p`.
pub open spec fn sep_at(l: Seq<char>, p: int) -> bool {
    l[p] == ']' && l[p + 1] == '.' && l[p + 2] == '['
}

/// The last index at or below `p` and at or above `lo` where `].[` starts,
/// or `lo - 1`.
pub open spec fn sep_before(l: Seq<char>, lo: int, p: int) -> int
    decreases p - lo + 1,
{
    if p < lo {
        lo - 1
    } else if sep_at(l, p) {
        p
    } else {
        sep_before(l, lo, p - 1)
    }
}

/// The schema and name that the token `l[lo..hi]` holds, if it is a bracketed
/// name: the schema is empty when the token holds a single bracketed part.
pub open spec fn bracketed(l: Seq<char>, lo: int, hi: int) -> Option<(Seq<char>, Seq<char>)> {
    if lo >= hi || l[lo] != '[' {
        None
    } else {
        let j = close_before(l, lo, hi);
        if j - lo < 2 {
            None
        } else {
            let p = sep_before(l, lo + 2, j - 4);
            if p >= lo + 2 {
                Some((l.subrange(lo + 1, p), l.subrange(p + 3, j)))
            } else {
                Some((Seq::empty(), l.subrange(lo + 1, j)))
            }
        }
    }
}

/// What a line says as a marker: its kind, schema and name, or `None` when it
/// is no marker of a known kind.
pub open spec fn marker(l: Seq<char>) -> Option<(ObjectType, Seq<char>, Seq<char>)> {
    let a = marker_prefix().len() as int;
    if !marker_prefix().is_prefix_of(l) {
        None
    } else {
        let k0 = skip_space(l, a);
        let k1 = token_end(l, k0);
        let b0 = skip_space(l, k1);
        let b1 = token_end(l, b0);
        if k0 == a || b0 == k1 {
            None
        } else {
            match kind_of(l.subrange(k0, k1)) {
                None => None,
                Some(k) => match bracketed(l, b0, b1) {
                    None => None,
                    Some(sn) => Some((k, sn.0, sn.1)),
                },
            }
        }
    }
}

fn skip_space_exec(v: &Vec<char>, i: usize) -> (r: usize)
    requires
        i <= v@.len(),
    ensures
        r as int == skip_space(v@, i as int),
        i <= r <= v@.len(),
{
    let mut k = i;
    while k < v.len() && is_space_char(v[k])
        invariant
            i <= k <= v@.len(),
            skip_space(v@, k as int) == skip_space(v@, i as int),
        decreases v@.len() - k,
    {
        k = k + 1;
    }
    k
}

fn token_end_exec(v: &Vec<char>, i: usize) -> (r: usize)
    requires
        i <= v@.len(),
    ensures
        r as int == token_end(v@, i as int),
        i <= r <= v@.len(),
{
    let mut k = i;
    while k < v.len() && !is_space_char(v[k])
        invariant
            i <= k <= v@.len(),
            token_end(v@, k as int) == token_end(v@, i as int),
        decreases v@.len() - k,
    {
        k = k + 1;
    }
    k
}

/// Finds `close_before(v, lo, hi)`; `None` stands for `lo - 1`.
fn close_before_exec(v: &Vec<char>, lo: usize, hi: usize) -> (r: Option<usize>)
    requires
        lo <= hi <= v@.len(),
    ensures
        match r {
            Some(j) => j as int == close_before(v@, lo as int, hi as int) && lo <= j < hi,
            None => close_before(v@, lo as int, hi as int) == lo - 1,
        },
{
    let mut j = hi;
    while j > lo
        invariant
            lo <= j <= hi <= v@.len(),
            close_before(v@, lo as int, j as int) == close_before(v@, lo as int, hi as int),
        decreases j,
    {
        if v[j - 1] == ']' {
            return Some(j - 1);
        }
        j = j - 1;
    }
    None
}

/// Finds `sep_before(v, lo, p)`; `None` stands for `lo - 1`.
fn sep_before_exec(v: &Vec<char>, lo: usize, p: usize) -> (r: Option<usize>)
    requires
        lo <= p + 1,
        p + 3 <= v@.len(),
    ensures
        match r {
            Some(q) => q as int == sep_before(v@, lo as int, p as int) && lo <= q <= p,
            None => sep_before(v@, lo as int, p as int) == lo - 1,
        },
{
    let n = v.len();
    let mut q = p + 1;
    while q > lo
        invariant
            n == v@.len(),
            lo <= q <= p + 1,
            p + 3 <= v@.len(),
            sep_before(v@, lo as int, q - 1) == sep_before(v@, lo as int, p as int),
        decreases q,
    {
        let c = q - 1;
        if v[c] == ']' && v[c + 1] == '.' && v[c + 2] == '[' {
            return Some(c);
        }
        q = q - 1;
    }
    None
}

/// What `bracketed(v, lo, hi)` holds, as the index bounds of the schema and of
/// the name.
fn bracketed_exec(v: &Vec<char>, lo: usize, hi: usize) -> (r: Option<(usize, usize, usize, usize)>)
    requires
        lo <= hi <= v@.len(),
    ensures
        match r {
            None => bracketed(v@, lo as int, hi as int) is None,
            Some((s0, s1, n0, n1)) => s0 <= s1 <= n0 <= n1 <= v@.len() && bracketed(
                v@,
                lo as int,
                hi as int,
            ) == Some((v@.subrange(s0 as int, s1 as int), v@.subrange(n0 as int, n1 as int))),
        },
{
    if lo >= hi || v[lo] != '[' {
        return None;
    }
    let j = match close_before_exec(v, lo, hi) {
        None => {
            return None;
        },
        Some(j) => j,
    };
    if j - lo < 2 {
        return None;
    }
    if j - lo >= 6 {
        if let Some(p) = sep_before_exec(v, lo + 2, j - 4) {
            return Some((lo + 1, p, p + 3, j));
        }
    }
    assert(Seq::<char>::empty() =~= v@.subrange(lo + 1, lo + 1));
    Some((lo + 1, lo + 1, lo + 1, j))
}

/// The object that a marker line announces.
#[derive(Debug)]
pub struct DatabaseObject {
    pub object_type: ObjectType,
    pub schema: String,
    pub name: String,
}

impl DatabaseObject {
    /// The kind, schema and name, as plain values.
    pub open spec fn fields(&self) -> (ObjectType, Seq<char>, Seq<char>) {
        (self.object_type, self.schema@, self.name@)
    }

    /// Recognizes a marker line: the object it announces, or `None` when the
    /// line is no marker of a known kind.
    pub fn parse(line: &str) -> (r: Option<DatabaseObject>)
        ensures
            match r {
                None => marker(line@) is None,
                Some(o) => marker(line@) == Some(o.fields()),
            },
    {
        if !starts_with(line, "/****** Object:") {
            return None;
        }
        let v = chars_of(line);
        proof {
            reveal_strlit("/****** Object:");
        }
        let a: usize = 15;
        let k0 = skip_space_exec(&v, a);
        let k1 = token_end_exec(&v, k0);
        let b0 = skip_space_exec(&v, k1);
        let b1 = token_end_exec(&v, b0);
        if k0 == a || b0 == k1 {
            return None;
        }
        let kind = match ObjectType::from_name(line.substring_char(k0, k1)) {
            None => {
                return None;
            },
            Some(k) => k,
        };
        match bracketed_exec(&v, b0, b1) {
            None => None,
            Some((s0, s1, n0, n1)) => {
                let schema = line.substring_char(s0, s1).to_owned();
                let name = line.substring_char(n0, n1).to_owned();
                Some(DatabaseObject { object_type: kind, schema, name })
            },
        }
    }
}

/// Whether every character of `s` is white space.
pub open spec fn all_space(s: Seq<char>) -> bool {
    forall|i: int| 0 <= i < s.len() ==> is_space(#[trigger] s[i])
}

/// Whether no character of `s` is white space.
pub open spec fn no_space(s: Seq<char>) -> bool {
    forall|i: int| 0 <= i < s.len() ==> !is_space(#[trigger] s[i])
}

/// Whether `s` holds no `].[`.
pub open spec fn no_sep(s: Seq<char>) -> bool {
    forall|i: int| 0 <= i && i + 3 <= s.len() ==> !sep_at(s, i)
}

/// The marker line for kind `k`, schema `s` and name `n`, with the given white
/// space after the prefix and after the kind, and `rest` after the brackets.
pub open spec fn marker_line(
    k: ObjectType,
    ws1: Seq<char>,
    ws2: Seq<char>,
    s: Seq<char>,
    n: Seq<char>,
    rest: Seq<char>,
) -> Seq<char> {
    marker_prefix() + ws1 + kind_name(k) + ws2 + seq!['['] + s + seq![']', '.', '['] + n + seq![
        ']',
    ] + rest
}

proof fn lemma_skip_run(l: Seq<char>, i: int, j: int)
    requires
        0 <= i <= j <= l.len(),
        forall|x: int| i <= x < j ==> is_space(#[trigger] l[x]),
        j == l.len() || !is_space(l[j]),
    ensures
        skip_space(l, i) == j,
    decreases j - i,
{
    if i < j {
        lemma_skip_run(l, i + 1, j);
    }
}

proof fn lemma_token_run(l: Seq<char>, i: int, j: int)
    requires
        0 <= i <= j <= l.len(),
        forall|x: int| i <= x < j ==> !is_space(#[trigger] l[x]),
        j == l.len() || is_space(l[j]),
    ensures
        token_end(l, i) == j,
    decreases j - i,
{
    if i < j {
        lemma_token_run(l, i + 1, j);
    }
}

proof fn lemma_sep_last(l: Seq<char>, lo: int, p: int, q: int)
    requires
        lo <= q <= p,
        sep_at(l, q),
        forall|x: int| q < x <= p ==> !sep_at(l, x),
    ensures
        sep_before(l, lo, p) == q,
    decreases p - q,
{
    if p > q {
        lemma_sep_last(l, lo, p - 1, q);
    }
}

/// A well-formed marker line is recognized as exactly the kind, schema and name
/// written in it: the schema and the name are runs of non-space characters, the
/// name holds no `].[`, and the brackets are followed by white space or by the
/// end of the line.
pub proof fn lemma_marker_round_trip(
    k: ObjectType,
    ws1: Seq<char>,
    ws2: Seq<char>,
    s: Seq<char>,
    n: Seq<char>,
    rest: Seq<char>,
)
    requires
        ws1.len() > 0,
        all_space(ws1),
        ws2.len() > 0,
        all_space(ws2),
        s.len() > 0,
        no_space(s),
        n.len() > 0,
        no_space(n),
        no_sep(n),
        rest.len() == 0 || is_space(rest[0]),
    ensures
        marker(marker_line(k, ws1, ws2, s, n, rest)) == Some((k, s, n)),
{
    reveal_strlit("/****** Object:");
    crate::kind::lemma_kind_name(k);
    let l = marker_line(k, ws1, ws2, s, n, rest);
    let kn = kind_name(k);
    let a = marker_prefix().len() as int;
    let k0 = a + ws1.len();
    let k1 = k0 + kn.len();
    let b0 = k1 + ws2.len();
    let ps = b0 + 1 + s.len();
    let j = ps + 3 + n.len();
    let b1 = j + 1;
    assert(a == 15);
    assert(l.len() == b1 + rest.len());
    assert(forall|x: int| 0 <= x < a ==> l[x] == marker_prefix()[x]);
    assert(forall|x: int| a <= x < k0 ==> l[x] == ws1[x - a]);
    assert(forall|x: int| k0 <= x < k1 ==> l[x] == kn[x - k0]);
    assert(forall|x: int| k1 <= x < b0 ==> l[x] == ws2[x - k1]);
    assert(l[b0] == '[');
    assert(forall|x: int| b0 + 1 <= x < ps ==> l[x] == s[x - b0 - 1]);
    assert(l[ps] == ']' && l[ps + 1] == '.' && l[ps + 2] == '[');
    assert(forall|x: int| ps + 3 <= x < j ==> l[x] == n[x - ps - 3]);
    assert(l[j] == ']');
    assert(forall|x: int| b1 <= x < l.len() ==> l[x] == rest[x - b1]);
    assert(marker_prefix().is_prefix_of(l)) by {
        assert(marker_prefix() =~= l.subrange(0, a));
    }
    lemma_skip_run(l, a, k0);
    lemma_token_run(l, k0, k1);
    lemma_skip_run(l, k1, b0);
    lemma_token_run(l, b0, b1);
    assert(l.subrange(k0, k1) =~= kn);
    assert(close_before(l, b0, b1) == j);
    assert forall|x: int| ps < x <= j - 4 implies !sep_at(l, x) by {
        if x >= ps + 3 {
            assert(!sep_at(n, x - ps - 3));
        }
    }
    lemma_sep_last(l, b0 + 2, j - 4, ps);
    assert(l.subrange(b0 + 1, ps) =~= s);
    assert(l.subrange(ps + 3, j) =~= n);
}

/// A line with the marker prefix whose kind token names no known kind is no
/// marker, whatever follows it.
pub proof fn lemma_marker_unknown_kind(ws1: Seq<char>, t: Seq<char>, tail: Seq<char>)
    requires
        ws1.len() > 0,
        all_space(ws1),
        t.len() > 0,
        no_space(t),
        kind_of(t) is None,
        tail.len() == 0 || is_space(tail[0]),
    ensures
        marker(marker_prefix() + ws1 + t + tail) is None,
{
    reveal_strlit("/****** Object:");
    let l = marker_prefix() + ws1 + t + tail;
    let a = marker_prefix().len() as int;
    let k0 = a + ws1.len();
    let k1 = k0 + t.len();
    assert(forall|x: int| 0 <= x < a ==> l[x] == marker_prefix()[x]);
    assert(forall|x: int| a <= x < k0 ==> l[x] == ws1[x - a]);
    assert(forall|x: int| k0 <= x < k1 ==> l[x] == t[x - k0]);
    assert(forall|x: int| k1 <= x < l.len() ==> l[x] == tail[x - k1]);
    assert(marker_prefix() =~= l.subrange(0, a));
    if k1 < l.len() {
        assert(is_space(l[k1]));
    }
    assert(!is_space(l[k0]));
    lemma_skip_run(l, a, k0);
    lemma_token_run(l, k0, k1);
    assert(l.subrange(k0, k1) =~= t);
}

/// A marker line with a name alone, `[<name>]`, is recognized with an empty
/// schema and exactly that name, when the name is a run of non-space
/// characters that holds no `].[`.
pub proof fn lemma_marker_name_only(
    k: ObjectType,
    ws1: Seq<char>,
    ws2: Seq<char>,
    n: Seq<char>,
    rest: Seq<char>,
)
    requires
        ws1.len() > 0,
        all_space(ws1),
        ws2.len() > 0,
        all_space(ws2),
        n.len() > 0,
        no_space(n),
        no_sep(n),
        rest.len() == 0 || is_space(rest[0]),
    ensures
        marker(marker_prefix() + ws1 + kind_name(k) + ws2 + seq!['['] + n + seq![']'] + rest)
            == Some((k, Seq::<char>::empty(), n)),
{
    reveal_strlit("/****** Object:");
    crate::kind::lemma_kind_name(k);
    let l = marker_prefix() + ws1 + kind_name(k) + ws2 + seq!['['] + n + seq![']'] + rest;
    let kn = kind_name(k);
    let a = marker_prefix().len() as int;
    let k0 = a + ws1.len();
    let k1 = k0 + kn.len();
    let b0 = k1 + ws2.len();
    let j = b0 + 1 + n.len();
    let b1 = j + 1;
    assert(a == 15);
    assert(l.len() == b1 + rest.len());
    assert(forall|x: int| 0 <= x < a ==> l[x] == marker_prefix()[x]);
    assert(forall|x: int| a <= x < k0 ==> l[x] == ws1[x - a]);
    assert(forall|x: int| k0 <= x < k1 ==> l[x] == kn[x - k0]);
    assert(forall|x: int| k1 <= x < b0 ==> l[x] == ws2[x - k1]);
    assert(l[b0] == '[');
    assert(forall|x: int| b0 + 1 <= x < j ==> l[x] == n[x - b0 - 1]);
    assert(l[j] == ']');
    assert(forall|x: int| b1 <= x < l.len() ==> l[x] == rest[x - b1]);
    assert(marker_prefix() =~= l.subrange(0, a));
    lemma_skip_run(l, a, k0);
    lemma_token_run(l, k0, k1);
    lemma_skip_run(l, k1, b0);
    lemma_token_run(l, b0, b1);
    assert(l.subrange(k0, k1) =~= kn);
    assert(close_before(l, b0, b1) == j);
    lemma_no_sep_before(l, b0 + 2, j - 4, n, b0 + 1);
    assert(l.subrange(b0 + 1, j) =~= n);
}

proof fn lemma_no_sep_before(l: Seq<char>, lo: int, p: int, n: Seq<char>, off: int)
    requires
        0 <= off < lo,
        p + 3 <= off + n.len(),
        no_sep(n),
        forall|x: int| off <= x < off + n.len() ==> l[x] == n[x - off],
    ensures
        sep_before(l, lo, p) == lo - 1,
    decreases p - lo + 1,
{
    if p >= lo {
        assert(!sep_at(n, p - off));
        lemma_no_sep_before(l, lo, p - 1, n, off);
    }
}

} // verus!

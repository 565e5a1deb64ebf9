//! Exact and ASCII-case-insensitive string comparison.

use vstd::prelude::*;
use vstd::utf8::*;

verus! {

/// ASCII lowercase of one character; every other character is kept.
pub open spec fn ascii_lower_char(c: char) -> char {
    if 'A' <= c && c <= 'Z' {
        ((c as int) + 32) as char
    } else {
        c
    }
}

/// ASCII lowercase of a character sequence (`str::to_ascii_lowercase`).
pub open spec fn ascii_lower(s: Seq<char>) -> Seq<char> {
    s.map_values(|c: char| ascii_lower_char(c))
}

/// Whether some string of `list` equals `name`.
pub open spec fn contains_name(list: Seq<String>, name: Seq<char>) -> bool {
    exists|i: int| 0 <= i < list.len() && #[trigger] list[i]@ == name
}

fn lower_char(c: char) -> (r: char)
    ensures
        r == ascii_lower_char(c),
{
    if 'A' <= c && c <= 'Z' {
        ((c as u8) + 32) as char
    } else {
        c
    }
}

/// String equality, decided on the UTF-8 bytes.
pub fn str_eq(a: &str, b: &str) -> (res: bool)
    ensures
        res == (a@ == b@),
{
    let x = a.as_bytes();
    let y = b.as_bytes();
    proof {
        encode_utf8_decode_utf8(a@);
        encode_utf8_decode_utf8(b@);
    }
    if x.len() != y.len() {
        return false;
    }
    let n = x.len();
    for i in 0..n
        invariant
            n == x@.len(),
            n == y@.len(),
            x@ == encode_utf8(a@),
            y@ == encode_utf8(b@),
            forall|j: int| 0 <= j < i ==> x@[j] == y@[j],
    {
        if x[i] != y[i] {
            assert(x@[i as int] != y@[i as int]);
            return false;
        }
    }
    assert(x@ =~= y@);
    true
}

/// Whether the ASCII lowercase of `s` is exactly `lit`
/// (`s.to_ascii_lowercase() == lit`).
pub fn eq_ascii_lowercase(s: &str, lit: &str) -> (res: bool)
    ensures
        res == (ascii_lower(s@) == lit@),
{
    let cs = chars_of(s);
    let ls = chars_of(lit);
    let n = cs.len();
    if n != ls.len() {
        assert(ascii_lower(s@).len() != lit@.len());
        return false;
    }
    for i in 0..n
        invariant
            n == s@.len(),
            n == lit@.len(),
            cs@ == s@,
            ls@ == lit@,
            forall|j: int| 0 <= j < i ==> ascii_lower_char(s@[j]) == lit@[j],
    {
        if lower_char(cs[i]) != ls[i] {
            assert(ascii_lower(s@)[i as int] != lit@[i as int]);
            return false;
        }
    }
    assert(ascii_lower(s@) =~= lit@);
    true
}

/// Whether some string of `list` equals `name`.
pub fn list_contains(list: &Vec<String>, name: &str) -> (res: bool)
    ensures
        res == contains_name(list@, name@),
{
    let n = list.len();
    for i in 0..n
        invariant
            n == list@.len(),
            forall|j: int| 0 <= j < i ==> list@[j]@ != name@,
    {
        if str_eq(list[i].as_str(), name) {
            return true;
        }
    }
    false
}

} // verus!

verus! {

// ---------------------------------------------------------------------------
// Character sequences: splitting and trimming
// ---------------------------------------------------------------------------

/// ASCII whitespace (`u8::is_ascii_whitespace`): space, tab, line feed, form
/// feed, carriage return.
pub open spec fn is_ascii_space(c: char) -> bool {
    c == ' ' || c == '\t' || c == '\n' || c == '\x0C' || c == '\r'
}

/// `s` without leading ASCII whitespace.
pub open spec fn trim_ascii_start(s: Seq<char>) -> Seq<char>
    decreases s.len(),
{
    if s.len() > 0 && is_ascii_space(s[0]) {
        trim_ascii_start(s.drop_first())
    } else {
        s
    }
}

/// `s` without trailing ASCII whitespace.
pub open spec fn trim_ascii_end(s: Seq<char>) -> Seq<char>
    decreases s.len(),
{
    if s.len() > 0 && is_ascii_space(s.last()) {
        trim_ascii_end(s.drop_last())
    } else {
        s
    }
}

/// `s` without leading and trailing ASCII whitespace (`str::trim_ascii`).
pub open spec fn trim_ascii(s: Seq<char>) -> Seq<char> {
    trim_ascii_end(trim_ascii_start(s))
}

/// The pieces of `s` between occurrences of `sep` (`str::split`): one more
/// piece than there are separators, pieces possibly empty.
pub open spec fn split_on(s: Seq<char>, sep: char) -> Seq<Seq<char>>
    decreases s.len(),
{
    if s.len() == 0 {
        seq![Seq::empty()]
    } else {
        let init = split_on(s.drop_last(), sep);
        if s.last() == sep {
            init.push(Seq::empty())
        } else {
            init.update(init.len() - 1, init.last().push(s.last()))
        }
    }
}

/// Whether `i` is the first position of `c` in `s`.
pub open spec fn is_first_index(s: Seq<char>, c: char, i: int) -> bool {
    &&& 0 <= i < s.len()
    &&& s[i] == c
    &&& forall|j: int| 0 <= j < i ==> s[j] != c
}

/// Whether `c` occurs in `s`.
pub open spec fn has_char(s: Seq<char>, c: char) -> bool {
    exists|i: int| 0 <= i < s.len() && s[i] == c
}

/// The first position of `c` in `s` (meaningful when `c` occurs).
pub open spec fn first_index(s: Seq<char>, c: char) -> int {
    choose|i: int| is_first_index(s, c, i)
}

proof fn lemma_split_len(s: Seq<char>, sep: char)
    ensures
        split_on(s, sep).len() >= 1,
    decreases s.len(),
{
    if s.len() > 0 {
        lemma_split_len(s.drop_last(), sep);
    }
}

proof fn lemma_trim_ascii_start_skip(s: Seq<char>, a: int)
    requires
        0 <= a <= s.len(),
        forall|j: int| 0 <= j < a ==> is_ascii_space(#[trigger] s[j]),
        a == s.len() || !is_ascii_space(s[a]),
    ensures
        trim_ascii_start(s) == s.subrange(a, s.len() as int),
    decreases a,
{
    if a == 0 {
        assert(s.subrange(0, s.len() as int) =~= s);
    } else {
        let t = s.drop_first();
        assert forall|j: int| 0 <= j < a - 1 implies is_ascii_space(#[trigger] t[j]) by {
            assert(t[j] == s[j + 1]);
        }
        if a - 1 < t.len() {
            assert(t[a - 1] == s[a]);
        }
        lemma_trim_ascii_start_skip(t, a - 1);
        assert(t.subrange(a - 1, t.len() as int) =~= s.subrange(a, s.len() as int));
    }
}

proof fn lemma_trim_ascii_end_skip(s: Seq<char>, b: int)
    requires
        0 <= b <= s.len(),
        forall|j: int| b <= j < s.len() ==> is_ascii_space(#[trigger] s[j]),
        b == 0 || !is_ascii_space(s[b - 1]),
    ensures
        trim_ascii_end(s) == s.subrange(0, b),
    decreases s.len() - b,
{
    if b == s.len() {
        assert(s.subrange(0, b) =~= s);
    } else {
        let t = s.drop_last();
        assert forall|j: int| b <= j < t.len() implies is_ascii_space(#[trigger] t[j]) by {
            assert(t[j] == s[j]);
        }
        if b > 0 {
            assert(t[b - 1] == s[b - 1]);
        }
        lemma_trim_ascii_end_skip(t, b);
        assert(t.subrange(0, b) =~= s.subrange(0, b));
    }
}

/// The characters of a string.
pub fn chars_of(s: &str) -> (res: Vec<char>)
    ensures
        res@ == s@,
{
    broadcast use vstd::string::group_string_axioms;

    let mut v: Vec<char> = Vec::new();
    for c in it: s.chars()
        invariant
            v@ == it.seq().take(it.index() as int),
    {
        v.push(c);
    }
    v
}

/// The string made of `s[lo..hi]`.
pub fn string_of(s: &Vec<char>, lo: usize, hi: usize) -> (res: String)
    requires
        lo <= hi <= s@.len(),
    ensures
        res@ == s@.subrange(lo as int, hi as int),
{
    let mut out = String::new();
    for i in lo..hi
        invariant
            lo <= hi <= s@.len(),
            out@ == s@.subrange(lo as int, i as int),
    {
        crate::hex::push_char(&mut out, s[i]);
        assert(out@ =~= s@.subrange(lo as int, i + 1));
    }
    out
}

/// The bounds of `trim_ascii(s[lo..hi])` within `s`.
pub fn trim_ascii_bounds(s: &Vec<char>, lo: usize, hi: usize) -> (res: (usize, usize))
    requires
        lo <= hi <= s@.len(),
    ensures
        lo <= res.0 <= res.1 <= hi,
        trim_ascii(s@.subrange(lo as int, hi as int)) == s@.subrange(res.0 as int, res.1 as int),
{
    let ghost seg = s@.subrange(lo as int, hi as int);
    let mut a = lo;
    while a < hi && (s[a] == ' ' || s[a] == '\t' || s[a] == '\n' || s[a] == '\x0C' || s[a]
        == '\r')
        invariant
            lo <= a <= hi <= s@.len(),
            seg == s@.subrange(lo as int, hi as int),
            forall|j: int| lo <= j < a ==> is_ascii_space(#[trigger] s@[j]),
        decreases hi - a,
    {
        a = a + 1;
    }
    proof {
        assert forall|j: int| 0 <= j < a - lo implies is_ascii_space(#[trigger] seg[j]) by {
            assert(seg[j] == s@[lo + j]);
        }
        if a < hi {
            assert(seg[a - lo] == s@[a as int]);
        }
        lemma_trim_ascii_start_skip(seg, a - lo);
    }
    let ghost start = s@.subrange(a as int, hi as int);
    assert(trim_ascii_start(seg) == start);
    let mut b = hi;
    while b > a && (s[b - 1] == ' ' || s[b - 1] == '\t' || s[b - 1] == '\n' || s[b - 1]
        == '\x0C' || s[b - 1] == '\r')
        invariant
            lo <= a <= b <= hi <= s@.len(),
            start == s@.subrange(a as int, hi as int),
            forall|j: int| b <= j < hi ==> is_ascii_space(#[trigger] s@[j]),
        decreases b - a,
    {
        b = b - 1;
    }
    proof {
        assert forall|j: int| b - a <= j < start.len() implies is_ascii_space(#[trigger] start[j]) by {
            assert(start[j] == s@[a + j]);
        }
        if b > a {
            assert(start[b - a - 1] == s@[b - 1]);
        }
        lemma_trim_ascii_end_skip(start, b - a);
        assert(start.subrange(0, b - a) =~= s@.subrange(a as int, b as int));
    }
    (a, b)
}

/// The first position of `c` in `s[lo..hi]`, relative to `lo`.
pub fn find_char(s: &Vec<char>, lo: usize, hi: usize, c: char) -> (res: Option<usize>)
    requires
        lo <= hi <= s@.len(),
    ensures
        match res {
            Some(p) => is_first_index(s@.subrange(lo as int, hi as int), c, p as int),
            None => !has_char(s@.subrange(lo as int, hi as int), c),
        },
{
    let ghost seg = s@.subrange(lo as int, hi as int);
    for i in lo..hi
        invariant
            lo <= hi <= s@.len(),
            seg == s@.subrange(lo as int, hi as int),
            forall|j: int| 0 <= j < i - lo ==> seg[j] != c,
    {
        if s[i] == c {
            assert(seg[i - lo] == c);
            return Some(i - lo);
        }
        assert(seg[i - lo] != c);
    }
    None
}

/// The pieces of `s` between occurrences of `sep`.
pub fn split_chars(s: &Vec<char>, sep: char) -> (res: Vec<(usize, usize)>)
    ensures
        res@.len() == split_on(s@, sep).len(),
        forall|i: int|
            0 <= i < res@.len() ==> {
                &&& (#[trigger] res@[i]).0 <= res@[i].1 <= s@.len()
                &&& s@.subrange(res@[i].0 as int, res@[i].1 as int) == split_on(s@, sep)[i]
            },
{
    let mut pieces: Vec<(usize, usize)> = Vec::new();
    let mut start: usize = 0;
    let n = s.len();
    assert(s@.take(0) =~= Seq::<char>::empty());
    for i in 0..n
        invariant
            n == s@.len(),
            start <= i,
            pieces@.len() + 1 == split_on(s@.take(i as int), sep).len(),
            forall|k: int|
                0 <= k < pieces@.len() ==> {
                    &&& (#[trigger] pieces@[k]).0 <= pieces@[k].1 <= s@.len()
                    &&& s@.subrange(pieces@[k].0 as int, pieces@[k].1 as int) == split_on(
                        s@.take(i as int),
                        sep,
                    )[k]
                },
            s@.subrange(start as int, i as int) == split_on(s@.take(i as int), sep).last(),
    {
        let ghost pre = s@.take(i as int);
        let ghost cur = s@.take(i + 1);
        assert(cur.drop_last() =~= pre);
        assert(cur.last() == s@[i as int]);
        proof {
            lemma_split_len(pre, sep);
        }
        if s[i] == sep {
            pieces.push((start, i));
            start = i + 1;
            assert(s@.subrange(start as int, i + 1) =~= Seq::<char>::empty());
        } else {
            assert(s@.subrange(start as int, i + 1) =~= s@.subrange(start as int, i as int).push(
                s@[i as int],
            ));
        }
    }
    assert(s@.take(n as int) =~= s@);
    pieces.push((start, n));
    pieces
}

} // verus!

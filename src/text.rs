//! Classification of one protocol line: the optional `"data: "` prefix,
//! surrounding whitespace, the end-of-turn sentinel and keep-alive blanks.

use crate::error::StreamError;
use vstd::prelude::*;
use vstd::utf8::{decode_utf8, valid_utf8};

verus! {

/// The characters that `char::is_whitespace` accepts: those with the
/// Unicode `White_Space` property.
pub open spec fn is_ws(c: char) -> bool {
    let v = c as u32;
    (0x09 <= v && v <= 0x0d) || v == 0x20 || v == 0x85 || v == 0xa0 || v == 0x1680 || (0x2000
        <= v && v <= 0x200a) || v == 0x2028 || v == 0x2029 || v == 0x202f || v == 0x205f || v
        == 0x3000
}

pub open spec fn trim_start(s: Seq<char>) -> Seq<char>
    decreases s.len(),
{
    if s.len() > 0 && is_ws(s[0]) {
        trim_start(s.drop_first())
    } else {
        s
    }
}

pub open spec fn trim_end(s: Seq<char>) -> Seq<char>
    decreases s.len(),
{
    if s.len() > 0 && is_ws(s.last()) {
        trim_end(s.drop_last())
    } else {
        s
    }
}

/// `s` without leading and trailing whitespace.
pub open spec fn trim(s: Seq<char>) -> Seq<char> {
    trim_end(trim_start(s))
}

pub open spec fn data_prefix() -> Seq<char> {
    seq!['d', 'a', 't', 'a', ':', ' ']
}

pub open spec fn sentinel() -> Seq<char> {
    seq!['[', 'D', 'O', 'N', 'E', ']']
}

/// `s` without the `"data: "` prefix, where it has one.
pub open spec fn strip_data(s: Seq<char>) -> Seq<char> {
    if s.len() >= 6 && s.subrange(0, 6) == data_prefix() {
        s.subrange(6, s.len() as int)
    } else {
        s
    }
}

/// What is left of a line once the prefix and the whitespace are gone.
pub open spec fn line_body(s: Seq<char>) -> Seq<char> {
    trim(strip_data(s))
}

/// The three kinds of protocol line.
#[derive(Debug, PartialEq, Eq)]
pub enum LineKind {
    /// Nothing but whitespace (after the prefix): a keep-alive or separator.
    Blank,
    /// The end-of-turn marker `[DONE]`.
    Sentinel,
    /// Anything else: the text of one encoded completion delta.
    Payload(String),
}

/// What `classify_line` returns for the text `s`.
pub open spec fn kind_of(s: Seq<char>) -> LineKind {
    let b = line_body(s);
    if b.len() == 0 {
        LineKind::Blank
    } else if b == sentinel() {
        LineKind::Sentinel
    } else {
        LineKind::Payload(arbitrary())
    }
}

/// `k` is the kind of the text `s`, payload text included.
pub open spec fn is_kind_of(k: LineKind, s: Seq<char>) -> bool {
    match k {
        LineKind::Payload(t) => kind_of(s) is Payload && t@ == line_body(s),
        _ => k == kind_of(s),
    }
}

/// Relies on `std::str::from_utf8`: it succeeds exactly on valid UTF-8, and
/// then yields the characters those bytes encode.
#[verifier::external_body]
fn utf8_chars(b: &[u8]) -> (r: Option<Vec<char>>)
    ensures
        r is Some <==> valid_utf8(b@),
        r is Some ==> r->0@ == decode_utf8(b@),
{
    std::str::from_utf8(b).ok().map(|s| s.chars().collect())
}

/// Relies on `str::chars`: the characters of `s` in order.
#[verifier::external_body]
pub(crate) fn str_chars(s: &str) -> (r: Vec<char>)
    ensures
        r@ == s@,
{
    s.chars().collect()
}

/// Relies on `String`'s `FromIterator<&char>`: the characters in order.
#[verifier::external_body]
pub(crate) fn string_of(cs: &[char]) -> (r: String)
    ensures
        r@ == cs@,
{
    cs.iter().collect()
}

/// Same as `char::is_whitespace`.
pub fn is_whitespace(c: char) -> (r: bool)
    ensures
        r == is_ws(c),
{
    let v = c as u32;
    (0x09 <= v && v <= 0x0d) || v == 0x20 || v == 0x85 || v == 0xa0 || v == 0x1680 || (0x2000
        <= v && v <= 0x200a) || v == 0x2028 || v == 0x2029 || v == 0x202f || v == 0x205f || v
        == 0x3000
}

proof fn lemma_trim_start_step(s: Seq<char>, i: int)
    requires
        0 <= i < s.len(),
        is_ws(s[i]),
    ensures
        trim_start(s.subrange(i, s.len() as int)) == trim_start(s.subrange(i + 1, s.len() as int)),
{
    let t = s.subrange(i, s.len() as int);
    assert(t.drop_first() =~= s.subrange(i + 1, s.len() as int));
}

proof fn lemma_trim_end_step(s: Seq<char>, lo: int, hi: int)
    requires
        0 <= lo < hi <= s.len(),
        is_ws(s[hi - 1]),
    ensures
        trim_end(s.subrange(lo, hi)) == trim_end(s.subrange(lo, hi - 1)),
{
    let t = s.subrange(lo, hi);
    assert(t.drop_last() =~= s.subrange(lo, hi - 1));
}

/// The bounds `(lo, hi)` of `s` with its surrounding whitespace removed.
pub(crate) fn trim_bounds(s: &Vec<char>, from: usize) -> (r: (usize, usize))
    requires
        from <= s@.len(),
    ensures
        from <= r.0 <= r.1 <= s@.len(),
        s@.subrange(r.0 as int, r.1 as int) == trim(s@.subrange(from as int, s@.len() as int)),
{
    let n = s.len();
    let mut lo: usize = from;
    while lo < n && is_whitespace(s[lo])
        invariant
            from <= lo <= n,
            n == s@.len(),
            trim_start(s@.subrange(from as int, n as int)) == trim_start(
                s@.subrange(lo as int, n as int),
            ),
        decreases n - lo,
    {
        proof {
            lemma_trim_start_step(s@, lo as int);
        }
        lo = lo + 1;
    }
    proof {
        let t = s@.subrange(lo as int, n as int);
        if lo < n {
            assert(t[0] == s@[lo as int]);
        }
        assert(trim_start(t) == t);
    }
    let mut hi: usize = n;
    while hi > lo && is_whitespace(s[hi - 1])
        invariant
            lo <= hi <= n,
            n == s@.len(),
            trim_end(s@.subrange(lo as int, n as int)) == trim_end(
                s@.subrange(lo as int, hi as int),
            ),
        decreases hi,
    {
        proof {
            lemma_trim_end_step(s@, lo as int, hi as int);
        }
        hi = hi - 1;
    }
    proof {
        let t = s@.subrange(lo as int, hi as int);
        if hi > lo {
            assert(t.last() == s@[hi - 1]);
        }
        assert(trim_end(t) == t);
    }
    (lo, hi)
}

/// Whether `s` starts with `"data: "`.
fn has_data_prefix(s: &Vec<char>) -> (r: bool)
    ensures
        r == (s@.len() >= 6 && s@.subrange(0, 6) == data_prefix()),
{
    let r = s.len() >= 6 && s[0] == 'd' && s[1] == 'a' && s[2] == 't' && s[3] == 'a' && s[4] == ':'
        && s[5] == ' ';
    proof {
        if s@.len() >= 6 {
            if r {
                assert(s@.subrange(0, 6) =~= data_prefix());
            } else {
                assert(s@.subrange(0, 6) != data_prefix()) by {
                    if s@.subrange(0, 6) == data_prefix() {
                        assert(s@.subrange(0, 6)[0] == 'd');
                        assert(s@.subrange(0, 6)[1] == 'a');
                        assert(s@.subrange(0, 6)[2] == 't');
                        assert(s@.subrange(0, 6)[3] == 'a');
                        assert(s@.subrange(0, 6)[4] == ':');
                        assert(s@.subrange(0, 6)[5] == ' ');
                    }
                }
            }
        }
    }
    r
}

/// Whether `s[lo..hi]` is `[DONE]`.
fn is_sentinel(s: &Vec<char>, lo: usize, hi: usize) -> (r: bool)
    requires
        lo <= hi <= s@.len(),
    ensures
        r == (s@.subrange(lo as int, hi as int) == sentinel()),
{
    let t = Ghost(s@.subrange(lo as int, hi as int));
    let r = hi - lo == 6 && s[lo] == '[' && s[lo + 1] == 'D' && s[lo + 2] == 'O' && s[lo + 3] == 'N'
        && s[lo + 4] == 'E' && s[lo + 5] == ']';
    proof {
        if r {
            assert(t@ =~= sentinel());
        } else if t@ == sentinel() {
            assert(t@.len() == 6);
            assert(forall|k: int| 0 <= k < 6 ==> t@[k] == s@[lo + k]);
            assert(t@[0] == '[');
            assert(t@[1] == 'D');
            assert(t@[2] == 'O');
            assert(t@[3] == 'N');
            assert(t@[4] == 'E');
            assert(t@[5] == ']');
        }
    }
    r
}

/// Classifies one line of the stream, given as bytes without its
/// terminator. Bytes that are not UTF-8 are an encoding error.
pub fn classify_line(line: &[u8]) -> (r: Result<LineKind, StreamError>)
    ensures
        r is Err <==> !valid_utf8(line@),
        r is Err ==> r->Err_0 == StreamError::Encoding,
        r is Ok ==> is_kind_of(r->Ok_0, decode_utf8(line@)),
{
    match utf8_chars(line) {
        None => Err(StreamError::Encoding),
        Some(cs) => {
            let from: usize = if has_data_prefix(&cs) {
                6
            } else {
                0
            };
            let (lo, hi) = trim_bounds(&cs, from);
            assert(cs@.subrange(from as int, cs@.len() as int) == strip_data(cs@)) by {
                if from == 0 {
                    assert(cs@.subrange(0, cs@.len() as int) =~= cs@);
                }
            }
            if lo == hi {
                Ok(LineKind::Blank)
            } else if is_sentinel(&cs, lo, hi) {
                Ok(LineKind::Sentinel)
            } else {
                let body = string_of(&cs.as_slice()[lo..hi]);
                Ok(LineKind::Payload(body))
            }
        },
    }
}

/// All characters of `s` are whitespace.
pub open spec fn all_ws(s: Seq<char>) -> bool {
    forall|i: int| 0 <= i < s.len() ==> is_ws(#[trigger] s[i])
}

proof fn lemma_trim_start_pad(a: Seq<char>, x: Seq<char>)
    requires
        all_ws(a),
        x.len() > 0,
        !is_ws(x[0]),
    ensures
        trim_start(a + x) == x,
    decreases a.len(),
{
    if a.len() == 0 {
        assert(a + x =~= x);
    } else {
        assert((a + x)[0] == a[0]);
        assert((a + x).drop_first() =~= a.drop_first() + x);
        assert(all_ws(a.drop_first())) by {
            assert forall|i: int| 0 <= i < a.drop_first().len() implies is_ws(
                #[trigger] a.drop_first()[i],
            ) by {
                assert(a.drop_first()[i] == a[i + 1]);
            }
        }
        lemma_trim_start_pad(a.drop_first(), x);
    }
}

proof fn lemma_trim_end_pad(x: Seq<char>, b: Seq<char>)
    requires
        all_ws(b),
        x.len() > 0,
        !is_ws(x.last()),
    ensures
        trim_end(x + b) == x,
    decreases b.len(),
{
    if b.len() == 0 {
        assert(x + b =~= x);
    } else {
        assert((x + b).last() == b.last());
        assert((x + b).drop_last() =~= x + b.drop_last());
        assert(all_ws(b.drop_last())) by {
            assert forall|i: int| 0 <= i < b.drop_last().len() implies is_ws(
                #[trigger] b.drop_last()[i],
            ) by {
                assert(b.drop_last()[i] == b[i]);
            }
        }
        lemma_trim_end_pad(x, b.drop_last());
    }
}

/// Sentinel detection ignores the `"data: "` prefix and any whitespace
/// around the marker: with or without the prefix, `[DONE]` padded with
/// whitespace on either side is the sentinel.
pub proof fn lemma_sentinel_padding(a: Seq<char>, b: Seq<char>)
    requires
        all_ws(a),
        all_ws(b),
    ensures
        kind_of(a + sentinel() + b) == LineKind::Sentinel,
        kind_of(data_prefix() + a + sentinel() + b) == LineKind::Sentinel,
{
    let x = sentinel() + b;
    assert(a + sentinel() + b =~= a + x);
    assert(x[0] == '[');
    lemma_trim_start_pad(a, x);
    assert(sentinel().last() == ']');
    lemma_trim_end_pad(sentinel(), b);
    let s = a + sentinel() + b;
    assert(strip_data(s) == s) by {
        if s.len() >= 6 && s.subrange(0, 6) == data_prefix() {
            assert(s.subrange(0, 6)[0] == 'd');
            assert(s[0] == 'd');
            if a.len() > 0 {
                assert(s[0] == a[0]);
            } else {
                assert(s[0] == '[');
            }
        }
    }
    let t = data_prefix() + a + sentinel() + b;
    assert(t.subrange(0, 6) =~= data_prefix());
    assert(t.subrange(6, t.len() as int) =~= s);
}

} // verus!

//! Pattern scanning over page markup.
//!
//! The session parameters live as JSON-like key/value fragments inside the
//! inline script content of a video page.  This module defines the small
//! grammar of those fragments over `Seq<char>` and provides verified
//! scanners that return the capture of the leftmost occurrence, the way a
//! leftmost regular-expression search over the raw text would.

use vstd::prelude::*;

verus! {

/// Whitespace accepted around a marker's colon: the ASCII whitespace set.
pub open spec fn is_space(c: char) -> bool {
    c == ' ' || c == '\t' || c == '\n' || c == '\r' || c == '\u{b}' || c == '\u{c}'
}

/// The character class a captured marker value draws from.
#[derive(Clone, Copy, PartialEq, Eq, Structural, Debug)]
pub enum CaptureClass {
    /// Any character except the double quote that closes the value.
    NonQuote,
    /// ASCII digits and dots, the shape of a client version string.
    VersionChars,
}

pub open spec fn in_class(cls: CaptureClass, c: char) -> bool {
    match cls {
        CaptureClass::NonQuote => c != '"',
        CaptureClass::VersionChars => c == '.' || ('0' as u32 <= c as u32 && c as u32 <= '9' as u32),
    }
}

/// The literal `lit` occurs in `s` starting at position `i`.
pub open spec fn lit_at(s: Seq<char>, i: int, lit: Seq<char>) -> bool {
    &&& 0 <= i
    &&& i + lit.len() <= s.len()
    &&& forall|k: int| 0 <= k < lit.len() ==> s[i + k] == #[trigger] lit[k]
}

/// Positions `from..to` of `s` hold only whitespace.
pub open spec fn all_space(s: Seq<char>, from: int, to: int) -> bool {
    forall|k: int| from <= k < to ==> is_space(#[trigger] s[k])
}

/// A quoted marker occurs at position `i`: the key literal, optional
/// whitespace, a colon, optional whitespace, then a quoted non-empty value
/// whose characters all lie in `cls`.  `q` is the colon's position, `r` the
/// opening quote's, and `b` the closing quote's; the capture is `r+1..b`.
pub open spec fn quoted_match_parts(
    s: Seq<char>,
    key: Seq<char>,
    cls: CaptureClass,
    i: int,
    q: int,
    r: int,
    b: int,
) -> bool {
    &&& lit_at(s, i, key)
    &&& i + key.len() <= q < s.len()
    &&& all_space(s, i + key.len(), q)
    &&& s[q] == ':'
    &&& q + 1 <= r < s.len()
    &&& all_space(s, q + 1, r)
    &&& s[r] == '"'
    &&& r + 1 < b < s.len()
    &&& (forall|k: int| r + 1 <= k < b ==> in_class(cls, #[trigger] s[k]))
    &&& s[b] == '"'
}

pub open spec fn marker_match_at(s: Seq<char>, key: Seq<char>, cls: CaptureClass, i: int) -> bool {
    exists|q: int, r: int, b: int| #[trigger] quoted_match_parts(s, key, cls, i, q, r, b)
}

/// The capture of the quoted marker starting at `i`.  The positions are
/// unique for a given start (`lemma_marker_parts_unique`), so the choice is
/// determined whenever a match exists.
pub open spec fn marker_capture_at(s: Seq<char>, key: Seq<char>, cls: CaptureClass, i: int) -> Seq<
    char,
> {
    let (q, r, b) = choose|q: int, r: int, b: int|
        #[trigger] quoted_match_parts(s, key, cls, i, q, r, b);
    s.subrange(r + 1, b)
}

/// The capture of the leftmost quoted marker starting at or after `i`.
pub open spec fn marker_value_from(
    s: Seq<char>,
    key: Seq<char>,
    cls: CaptureClass,
    i: int,
) -> Option<Seq<char>>
    decreases s.len() - i,
{
    if i < 0 || i >= s.len() {
        None
    } else if marker_match_at(s, key, cls, i) {
        Some(marker_capture_at(s, key, cls, i))
    } else {
        marker_value_from(s, key, cls, i + 1)
    }
}

/// The capture of the leftmost quoted marker in `s`, if any.
pub open spec fn marker_value(s: Seq<char>, key: Seq<char>, cls: CaptureClass) -> Option<Seq<char>> {
    marker_value_from(s, key, cls, 0)
}

/// The closing quote never belongs to a capture class.
pub proof fn lemma_quote_not_in_class(cls: CaptureClass)
    ensures
        !in_class(cls, '"'),
{
}

/// For a fixed start position the colon, the quotes and hence the capture
/// of a quoted marker are unique.
pub proof fn lemma_marker_parts_unique(
    s: Seq<char>,
    key: Seq<char>,
    cls: CaptureClass,
    i: int,
    q1: int,
    r1: int,
    b1: int,
    q2: int,
    r2: int,
    b2: int,
)
    requires
        quoted_match_parts(s, key, cls, i, q1, r1, b1),
        quoted_match_parts(s, key, cls, i, q2, r2, b2),
    ensures
        q1 == q2,
        r1 == r2,
        b1 == b2,
{
    assert(q1 == q2) by {
        if q1 < q2 {
            assert(is_space(s[q1]));
        }
        if q2 < q1 {
            assert(is_space(s[q2]));
        }
    }
    assert(r1 == r2) by {
        if r1 < r2 {
            assert(is_space(s[r1]));
        }
        if r2 < r1 {
            assert(is_space(s[r2]));
        }
    }
    assert(b1 == b2) by {
        lemma_quote_not_in_class(cls);
        if b1 < b2 {
            assert(in_class(cls, s[b1]));
        }
        if b2 < b1 {
            assert(in_class(cls, s[b2]));
        }
    }
}

/// Witnessing parts pin down both the match and its capture.
pub proof fn lemma_marker_capture(
    s: Seq<char>,
    key: Seq<char>,
    cls: CaptureClass,
    i: int,
    q: int,
    r: int,
    b: int,
)
    requires
        quoted_match_parts(s, key, cls, i, q, r, b),
    ensures
        marker_match_at(s, key, cls, i),
        marker_capture_at(s, key, cls, i) == s.subrange(r + 1, b),
{
    assert(marker_match_at(s, key, cls, i));
    let (q2, r2, b2) = choose|q2: int, r2: int, b2: int|
        #[trigger] quoted_match_parts(s, key, cls, i, q2, r2, b2);
    lemma_marker_parts_unique(s, key, cls, i, q, r, b, q2, r2, b2);
}

fn is_space_char(c: char) -> (r: bool)
    ensures
        r == is_space(c),
{
    c == ' ' || c == '\t' || c == '\n' || c == '\r' || c == '\u{b}' || c == '\u{c}'
}

fn class_char(cls: CaptureClass, c: char) -> (r: bool)
    ensures
        r == in_class(cls, c),
{
    match cls {
        CaptureClass::NonQuote => c != '"',
        CaptureClass::VersionChars => c == '.' || ('0' as u32 <= c as u32 && c as u32 <= '9'
            as u32),
    }
}

/// Decides whether the literal `lit` occurs in `s` at position `i`.
fn lit_matches_at(s: &str, n: usize, i: usize, lit: &str, m: usize) -> (r: bool)
    requires
        n == s@.len(),
        m == lit@.len(),
        i <= n,
    ensures
        r == lit_at(s@, i as int, lit@),
{
    if m > n - i {
        return false;
    }
    let mut k: usize = 0;
    while k < m
        invariant
            n == s@.len(),
            m == lit@.len(),
            i <= n,
            m <= n - i,
            k <= m,
            forall|j: int| 0 <= j < k ==> s@[i + j] == #[trigger] lit@[j],
        decreases m - k,
    {
        if s.get_char(i + k) != lit.get_char(k) {
            assert(!lit_at(s@, i as int, lit@));
            return false;
        }
        k += 1;
    }
    true
}

/// Returns the first position at or after `from` holding a non-whitespace
/// character, or `n` when the rest of `s` is whitespace.
fn skip_spaces(s: &str, n: usize, from: usize) -> (j: usize)
    requires
        n == s@.len(),
        from <= n,
    ensures
        from <= j <= n,
        all_space(s@, from as int, j as int),
        j < n ==> !is_space(s@[j as int]),
{
    let mut j: usize = from;
    while j < n
        invariant
            n == s@.len(),
            from <= j <= n,
            all_space(s@, from as int, j as int),
        decreases n - j,
    {
        if !is_space_char(s.get_char(j)) {
            return j;
        }
        j += 1;
    }
    j
}

/// Returns the first position at or after `from` holding a character
/// outside `cls`, or `n` when the rest of `s` lies in `cls`.
fn scan_class(s: &str, n: usize, from: usize, cls: CaptureClass) -> (j: usize)
    requires
        n == s@.len(),
        from <= n,
    ensures
        from <= j <= n,
        forall|k: int| from <= k < j ==> in_class(cls, #[trigger] s@[k]),
        j < n ==> !in_class(cls, s@[j as int]),
{
    let mut j: usize = from;
    while j < n
        invariant
            n == s@.len(),
            from <= j <= n,
            forall|k: int| from <= k < j ==> in_class(cls, #[trigger] s@[k]),
        decreases n - j,
    {
        if !class_char(cls, s.get_char(j)) {
            return j;
        }
        j += 1;
    }
    j
}

/// A flag marker occurs at position `i`: the key literal, optional
/// whitespace, a colon, optional whitespace, then the bare value literal.
pub open spec fn flag_match_parts(
    s: Seq<char>,
    key: Seq<char>,
    val: Seq<char>,
    i: int,
    q: int,
    r: int,
) -> bool {
    &&& lit_at(s, i, key)
    &&& i + key.len() <= q < s.len()
    &&& all_space(s, i + key.len(), q)
    &&& s[q] == ':'
    &&& q + 1 <= r
    &&& all_space(s, q + 1, r)
    &&& lit_at(s, r, val)
}

pub open spec fn flag_match_at(s: Seq<char>, key: Seq<char>, val: Seq<char>, i: int) -> bool {
    exists|q: int, r: int| #[trigger] flag_match_parts(s, key, val, i, q, r)
}

/// The flag marker occurs somewhere in `s`.
pub open spec fn flag_found(s: Seq<char>, key: Seq<char>, val: Seq<char>) -> bool {
    exists|i: int| #[trigger] flag_match_at(s, key, val, i)
}

/// Tries to match a flag marker starting exactly at `i`.
fn try_flag_at(s: &str, n: usize, i: usize, key: &str, m: usize, val: &str, vm: usize) -> (res:
    bool)
    requires
        n == s@.len(),
        m == key@.len(),
        m > 0,
        vm == val@.len(),
        vm > 0,
        !is_space(val@[0]),
        i <= n,
    ensures
        res == flag_match_at(s@, key@, val@, i as int),
{
    if !lit_matches_at(s, n, i, key, m) {
        assert forall|q2: int, r2: int| !flag_match_parts(s@, key@, val@, i as int, q2, r2) by {
            if flag_match_parts(s@, key@, val@, i as int, q2, r2) {
                assert(lit_at(s@, i as int, key@));
            }
        }
        return false;
    }
    let p = i + m;
    let q = skip_spaces(s, n, p);
    if q == n || s.get_char(q) != ':' {
        assert forall|q2: int, r2: int| !flag_match_parts(s@, key@, val@, i as int, q2, r2) by {
            if flag_match_parts(s@, key@, val@, i as int, q2, r2) {
                if q2 < q {
                    assert(is_space(s@[q2]));
                } else if q2 > q as int {
                    assert(is_space(s@[q as int]));
                }
            }
        }
        return false;
    }
    let r = skip_spaces(s, n, q + 1);
    if lit_matches_at(s, n, r, val, vm) {
        assert(flag_match_parts(s@, key@, val@, i as int, q as int, r as int));
        return true;
    }
    assert forall|q2: int, r2: int| !flag_match_parts(s@, key@, val@, i as int, q2, r2) by {
        if flag_match_parts(s@, key@, val@, i as int, q2, r2) {
            assert(q2 == q as int) by {
                if q2 < q {
                    assert(is_space(s@[q2]));
                } else if q2 > q as int {
                    assert(is_space(s@[q as int]));
                }
            }
            // `r2` holds the value's first character, which is not
            // whitespace, so `r2` is the first non-space after the colon.
            assert(s@[r2] == val@[0]);
            assert(r2 == r as int) by {
                if r2 < r {
                    assert(is_space(s@[r2]));
                } else if r2 > r as int {
                    assert(is_space(s@[r as int]));
                    assert(r < n);
                }
            }
        }
    }
    false
}

/// Scans `s` for a flag marker: the key, a colon, then the bare value
/// literal, with optional whitespace around the colon.
pub fn find_flag(s: &str, key: &str, val: &str) -> (res: bool)
    requires
        key@.len() > 0,
        val@.len() > 0,
        !is_space(val@[0]),
    ensures
        res == flag_found(s@, key@, val@),
{
    let n = s.unicode_len();
    let m = key.unicode_len();
    let vm = val.unicode_len();
    let mut i: usize = 0;
    loop
        invariant
            n == s@.len(),
            m == key@.len(),
            m > 0,
            vm == val@.len(),
            vm > 0,
            !is_space(val@[0]),
            i <= n,
            forall|i2: int| 0 <= i2 < i ==> !flag_match_at(s@, key@, val@, i2),
        decreases n - i,
    {
        if i >= n {
            assert forall|i2: int| !flag_match_at(s@, key@, val@, i2) by {
                if flag_match_at(s@, key@, val@, i2) {
                    let (q2, r2) = choose|q2: int, r2: int|
                        #[trigger] flag_match_parts(s@, key@, val@, i2, q2, r2);
                    assert(0 <= i2 < n);
                }
            }
            return false;
        }
        if try_flag_at(s, n, i, key, m, val, vm) {
            assert(flag_found(s@, key@, val@));
            return true;
        }
        i += 1;
    }
}

/// Tries to match a quoted marker starting exactly at `i`; on success
/// returns the capture's bounds.
fn try_marker_at(s: &str, n: usize, i: usize, key: &str, m: usize, cls: CaptureClass) -> (res:
    Option<(usize, usize)>)
    requires
        n == s@.len(),
        m == key@.len(),
        m > 0,
        i <= n,
    ensures
        match res {
            Some(ab) => {
                &&& ab.0 < ab.1 < n
                &&& marker_match_at(s@, key@, cls, i as int)
                &&& marker_capture_at(s@, key@, cls, i as int) == s@.subrange(
                    ab.0 as int,
                    ab.1 as int,
                )
            },
            None => !marker_match_at(s@, key@, cls, i as int),
        },
{
    if !lit_matches_at(s, n, i, key, m) {
        assert forall|q2: int, r2: int, b2: int|
            !quoted_match_parts(s@, key@, cls, i as int, q2, r2, b2) by {
            if quoted_match_parts(s@, key@, cls, i as int, q2, r2, b2) {
                assert(lit_at(s@, i as int, key@));
            }
        }
        return None;
    }
    let p = i + m;
    let q = skip_spaces(s, n, p);
    if q == n || s.get_char(q) != ':' {
        assert forall|q2: int, r2: int, b2: int|
            !quoted_match_parts(s@, key@, cls, i as int, q2, r2, b2) by {
            if quoted_match_parts(s@, key@, cls, i as int, q2, r2, b2) {
                if q2 < q {
                    assert(is_space(s@[q2]));
                } else if q2 > q as int {
                    assert(is_space(s@[q as int]));
                }
            }
        }
        return None;
    }
    let r = skip_spaces(s, n, q + 1);
    if r == n || s.get_char(r) != '"' {
        assert forall|q2: int, r2: int, b2: int|
            !quoted_match_parts(s@, key@, cls, i as int, q2, r2, b2) by {
            if quoted_match_parts(s@, key@, cls, i as int, q2, r2, b2) {
                assert(q2 == q as int) by {
                    if q2 < q {
                        assert(is_space(s@[q2]));
                    } else if q2 > q as int {
                        assert(is_space(s@[q as int]));
                    }
                }
                if r2 < r {
                    assert(is_space(s@[r2]));
                } else if r2 > r as int {
                    assert(is_space(s@[r as int]));
                }
            }
        }
        return None;
    }
    let a = r + 1;
    let b = scan_class(s, n, a, cls);
    if b == n || b == a || s.get_char(b) != '"' {
        assert forall|q2: int, r2: int, b2: int|
            !quoted_match_parts(s@, key@, cls, i as int, q2, r2, b2) by {
            if quoted_match_parts(s@, key@, cls, i as int, q2, r2, b2) {
                assert(q2 == q as int) by {
                    if q2 < q {
                        assert(is_space(s@[q2]));
                    } else if q2 > q as int {
                        assert(is_space(s@[q as int]));
                    }
                }
                assert(r2 == r as int) by {
                    if r2 < r {
                        assert(is_space(s@[r2]));
                    } else if r2 > r as int {
                        assert(is_space(s@[r as int]));
                    }
                }
                lemma_quote_not_in_class(cls);
                assert(b2 == b as int) by {
                    if b2 < b {
                        assert(in_class(cls, s@[b2]));
                    } else if b2 > b as int {
                        assert(in_class(cls, s@[b as int]));
                    }
                }
            }
        }
        return None;
    }
    proof {
        assert(quoted_match_parts(s@, key@, cls, i as int, q as int, r as int, b as int));
        lemma_marker_capture(s@, key@, cls, i as int, q as int, r as int, b as int);
    }
    Some((a, b))
}

/// Scans `s` for the leftmost quoted marker with the given key and value
/// class, returning its captured value.
pub fn find_marker(s: &str, key: &str, cls: CaptureClass) -> (res: Option<String>)
    requires
        key@.len() > 0,
    ensures
        match res {
            Some(v) => marker_value(s@, key@, cls) == Some(v@),
            None => marker_value(s@, key@, cls) is None,
        },
{
    let n = s.unicode_len();
    let m = key.unicode_len();
    let mut i: usize = 0;
    loop
        invariant
            n == s@.len(),
            m == key@.len(),
            m > 0,
            i <= n,
            marker_value(s@, key@, cls) == marker_value_from(s@, key@, cls, i as int),
        decreases n - i,
    {
        if i >= n {
            return None;
        }
        match try_marker_at(s, n, i, key, m, cls) {
            Some((a, b)) => {
                let cap = s.substring_char(a, b);
                return Some(cap.to_owned());
            },
            None => {
                i += 1;
            },
        }
    }
}

/// A three-literal marker occurs at `i`: literal `t1`, some whitespace,
/// literal `t2`, some whitespace, literal `t3`, then a non-empty quoted-off
/// capture running to the next double quote.  This is the shape of the
/// canonical-link tag that carries the video identifier.
pub open spec fn triple_match_parts(
    s: Seq<char>,
    t1: Seq<char>,
    t2: Seq<char>,
    t3: Seq<char>,
    i: int,
    p1: int,
    p2: int,
    b: int,
) -> bool {
    &&& lit_at(s, i, t1)
    &&& i + t1.len() < p1
    &&& all_space(s, i + t1.len(), p1)
    &&& lit_at(s, p1, t2)
    &&& p1 + t2.len() < p2
    &&& all_space(s, p1 + t2.len(), p2)
    &&& lit_at(s, p2, t3)
    &&& p2 + t3.len() < b < s.len()
    &&& (forall|k: int| p2 + t3.len() <= k < b ==> #[trigger] s[k] != '"')
    &&& s[b] == '"'
}

pub open spec fn triple_match_at(
    s: Seq<char>,
    t1: Seq<char>,
    t2: Seq<char>,
    t3: Seq<char>,
    i: int,
) -> bool {
    exists|p1: int, p2: int, b: int| #[trigger] triple_match_parts(s, t1, t2, t3, i, p1, p2, b)
}

pub open spec fn triple_capture_at(
    s: Seq<char>,
    t1: Seq<char>,
    t2: Seq<char>,
    t3: Seq<char>,
    i: int,
) -> Seq<char> {
    let (p1, p2, b) = choose|p1: int, p2: int, b: int|
        #[trigger] triple_match_parts(s, t1, t2, t3, i, p1, p2, b);
    s.subrange(p2 + t3.len(), b)
}

pub open spec fn triple_value_from(
    s: Seq<char>,
    t1: Seq<char>,
    t2: Seq<char>,
    t3: Seq<char>,
    i: int,
) -> Option<Seq<char>>
    decreases s.len() - i,
{
    if i < 0 || i >= s.len() {
        None
    } else if triple_match_at(s, t1, t2, t3, i) {
        Some(triple_capture_at(s, t1, t2, t3, i))
    } else {
        triple_value_from(s, t1, t2, t3, i + 1)
    }
}

/// The capture of the leftmost three-literal marker in `s`, if any.
pub open spec fn triple_value(s: Seq<char>, t1: Seq<char>, t2: Seq<char>, t3: Seq<char>) -> Option<
    Seq<char>,
> {
    triple_value_from(s, t1, t2, t3, 0)
}

/// For a fixed start position the parts of a three-literal marker are
/// unique, provided the second and third literals open with a
/// non-whitespace character.
pub proof fn lemma_triple_parts_unique(
    s: Seq<char>,
    t1: Seq<char>,
    t2: Seq<char>,
    t3: Seq<char>,
    i: int,
    p1a: int,
    p2a: int,
    ba: int,
    p1b: int,
    p2b: int,
    bb: int,
)
    requires
        triple_match_parts(s, t1, t2, t3, i, p1a, p2a, ba),
        triple_match_parts(s, t1, t2, t3, i, p1b, p2b, bb),
        t2.len() > 0,
        !is_space(t2[0]),
        t3.len() > 0,
        !is_space(t3[0]),
    ensures
        p1a == p1b,
        p2a == p2b,
        ba == bb,
{
    assert(p1a == p1b) by {
        assert(s[p1a] == t2[0]);
        assert(s[p1b] == t2[0]);
        if p1a < p1b {
            assert(is_space(s[p1a]));
        }
        if p1b < p1a {
            assert(is_space(s[p1b]));
        }
    }
    assert(p2a == p2b) by {
        assert(s[p2a] == t3[0]);
        assert(s[p2b] == t3[0]);
        if p2a < p2b {
            assert(is_space(s[p2a]));
        }
        if p2b < p2a {
            assert(is_space(s[p2b]));
        }
    }
    assert(ba == bb) by {
        if ba < bb {
            assert(s[ba] != '"');
        }
        if bb < ba {
            assert(s[bb] != '"');
        }
    }
}

pub proof fn lemma_triple_capture(
    s: Seq<char>,
    t1: Seq<char>,
    t2: Seq<char>,
    t3: Seq<char>,
    i: int,
    p1: int,
    p2: int,
    b: int,
)
    requires
        triple_match_parts(s, t1, t2, t3, i, p1, p2, b),
        t2.len() > 0,
        !is_space(t2[0]),
        t3.len() > 0,
        !is_space(t3[0]),
    ensures
        triple_match_at(s, t1, t2, t3, i),
        triple_capture_at(s, t1, t2, t3, i) == s.subrange(p2 + t3.len(), b),
{
    assert(triple_match_at(s, t1, t2, t3, i));
    let (p1b, p2b, bb) = choose|p1b: int, p2b: int, bb: int|
        #[trigger] triple_match_parts(s, t1, t2, t3, i, p1b, p2b, bb);
    lemma_triple_parts_unique(s, t1, t2, t3, i, p1, p2, b, p1b, p2b, bb);
}

/// Tries to match a three-literal marker starting exactly at `i`.
#[verifier::rlimit(20)]
fn try_triple_at(
    s: &str,
    n: usize,
    i: usize,
    t1: &str,
    m1: usize,
    t2: &str,
    m2: usize,
    t3: &str,
    m3: usize,
) -> (res: Option<(usize, usize)>)
    requires
        n == s@.len(),
        m1 == t1@.len(),
        m2 == t2@.len(),
        m3 == t3@.len(),
        m1 > 0,
        m2 > 0,
        m3 > 0,
        !is_space(t2@[0]),
        !is_space(t3@[0]),
        i <= n,
    ensures
        match res {
            Some(ab) => {
                &&& ab.0 < ab.1 < n
                &&& triple_match_at(s@, t1@, t2@, t3@, i as int)
                &&& triple_capture_at(s@, t1@, t2@, t3@, i as int) == s@.subrange(
                    ab.0 as int,
                    ab.1 as int,
                )
            },
            None => !triple_match_at(s@, t1@, t2@, t3@, i as int),
        },
{
    if !lit_matches_at(s, n, i, t1, m1) {
        assert forall|p1: int, p2: int, b: int|
            !triple_match_parts(s@, t1@, t2@, t3@, i as int, p1, p2, b) by {
            if triple_match_parts(s@, t1@, t2@, t3@, i as int, p1, p2, b) {
                assert(lit_at(s@, i as int, t1@));
            }
        }
        return None;
    }
    let p1 = skip_spaces(s, n, i + m1);
    if p1 == i + m1 || !lit_matches_at(s, n, p1, t2, m2) {
        assert forall|p1b: int, p2b: int, bb: int|
            !triple_match_parts(s@, t1@, t2@, t3@, i as int, p1b, p2b, bb) by {
            if triple_match_parts(s@, t1@, t2@, t3@, i as int, p1b, p2b, bb) {
                assert(s@[p1b] == t2@[0]);
                if p1b < p1 {
                    assert(is_space(s@[p1b]));
                } else if p1b > p1 as int {
                    assert(is_space(s@[p1 as int]));
                    assert(p1 < n);
                }
            }
        }
        return None;
    }
    let p2 = skip_spaces(s, n, p1 + m2);
    if p2 == p1 + m2 || !lit_matches_at(s, n, p2, t3, m3) {
        assert forall|p1b: int, p2b: int, bb: int|
            !triple_match_parts(s@, t1@, t2@, t3@, i as int, p1b, p2b, bb) by {
            if triple_match_parts(s@, t1@, t2@, t3@, i as int, p1b, p2b, bb) {
                assert(s@[p1b] == t2@[0]);
                assert(p1b == p1 as int) by {
                    if p1b < p1 {
                        assert(is_space(s@[p1b]));
                    } else if p1b > p1 as int {
                        assert(is_space(s@[p1 as int]));
                    }
                }
                assert(s@[p2b] == t3@[0]);
                if p2b < p2 {
                    assert(is_space(s@[p2b]));
                } else if p2b > p2 as int {
                    assert(is_space(s@[p2 as int]));
                    assert(p2 < n);
                }
            }
        }
        return None;
    }
    let a = p2 + m3;
    let b = scan_class(s, n, a, CaptureClass::NonQuote);
    if b == n || b == a {
        assert forall|p1b: int, p2b: int, bb: int|
            !triple_match_parts(s@, t1@, t2@, t3@, i as int, p1b, p2b, bb) by {
            if triple_match_parts(s@, t1@, t2@, t3@, i as int, p1b, p2b, bb) {
                assert(s@[p1b] == t2@[0]);
                assert(p1b == p1 as int) by {
                    if p1b < p1 {
                        assert(is_space(s@[p1b]));
                    } else if p1b > p1 as int {
                        assert(is_space(s@[p1 as int]));
                    }
                }
                assert(s@[p2b] == t3@[0]);
                assert(p2b == p2 as int) by {
                    if p2b < p2 {
                        assert(is_space(s@[p2b]));
                    } else if p2b > p2 as int {
                        assert(is_space(s@[p2 as int]));
                    }
                }
                assert(bb == b as int) by {
                    if bb < b {
                        assert(in_class(CaptureClass::NonQuote, s@[bb]));
                    } else if bb > b as int {
                        assert(s@[b as int] != '"');
                        assert(in_class(CaptureClass::NonQuote, s@[b as int]));
                    }
                }
            }
        }
        return None;
    }
    // `scan_class` stopped before the end on a character outside the
    // non-quote class, which can only be the closing quote.
    assert(s@[b as int] == '"');
    proof {
        assert(triple_match_parts(
            s@,
            t1@,
            t2@,
            t3@,
            i as int,
            p1 as int,
            p2 as int,
            b as int,
        ));
        lemma_triple_capture(s@, t1@, t2@, t3@, i as int, p1 as int, p2 as int, b as int);
    }
    Some((a, b))
}

/// Scans `s` for the leftmost three-literal marker, returning its capture.
pub fn find_triple(s: &str, t1: &str, t2: &str, t3: &str) -> (res: Option<String>)
    requires
        t1@.len() > 0,
        t2@.len() > 0,
        t3@.len() > 0,
        !is_space(t2@[0]),
        !is_space(t3@[0]),
    ensures
        match res {
            Some(v) => triple_value(s@, t1@, t2@, t3@) == Some(v@),
            None => triple_value(s@, t1@, t2@, t3@) is None,
        },
{
    let n = s.unicode_len();
    let m1 = t1.unicode_len();
    let m2 = t2.unicode_len();
    let m3 = t3.unicode_len();
    let mut i: usize = 0;
    loop
        invariant
            n == s@.len(),
            m1 == t1@.len(),
            m2 == t2@.len(),
            m3 == t3@.len(),
            m1 > 0,
            m2 > 0,
            m3 > 0,
            !is_space(t2@[0]),
            !is_space(t3@[0]),
            i <= n,
            triple_value(s@, t1@, t2@, t3@) == triple_value_from(s@, t1@, t2@, t3@, i as int),
        decreases n - i,
    {
        if i >= n {
            return None;
        }
        match try_triple_at(s, n, i, t1, m1, t2, m2, t3, m3) {
            Some((a, b)) => {
                let cap = s.substring_char(a, b);
                return Some(cap.to_owned());
            },
            None => {
                i += 1;
            },
        }
    }
}

/// A quoted marker's capture holds at least one character.
pub proof fn lemma_marker_value_nonempty(s: Seq<char>, key: Seq<char>, cls: CaptureClass, i: int)
    ensures
        match marker_value_from(s, key, cls, i) {
            Some(v) => v.len() > 0,
            None => true,
        },
    decreases s.len() - i,
{
    if i < 0 || i >= s.len() {
    } else if marker_match_at(s, key, cls, i) {
        let (q, r, b) = choose|q: int, r: int, b: int|
            #[trigger] quoted_match_parts(s, key, cls, i, q, r, b);
        lemma_marker_capture(s, key, cls, i, q, r, b);
    } else {
        lemma_marker_value_nonempty(s, key, cls, i + 1);
    }
}

/// A three-literal marker's capture holds at least one character.
pub proof fn lemma_triple_value_nonempty(
    s: Seq<char>,
    t1: Seq<char>,
    t2: Seq<char>,
    t3: Seq<char>,
    i: int,
)
    requires
        t2.len() > 0,
        !is_space(t2[0]),
        t3.len() > 0,
        !is_space(t3[0]),
    ensures
        match triple_value_from(s, t1, t2, t3, i) {
            Some(v) => v.len() > 0,
            None => true,
        },
    decreases s.len() - i,
{
    if i < 0 || i >= s.len() {
    } else if triple_match_at(s, t1, t2, t3, i) {
        let (p1, p2, b) = choose|p1: int, p2: int, b: int|
            #[trigger] triple_match_parts(s, t1, t2, t3, i, p1, p2, b);
        lemma_triple_capture(s, t1, t2, t3, i, p1, p2, b);
    } else {
        lemma_triple_value_nonempty(s, t1, t2, t3, i + 1);
    }
}

} // verus!

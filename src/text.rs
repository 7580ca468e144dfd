//! Character-level text helpers with exact models.
use vstd::prelude::*;

verus! {

/// The Unicode `White_Space` characters, the set that `char::is_whitespace` tests.
pub open spec fn is_ws(c: char) -> bool {
    let u = c as u32;
    (9 <= u && u <= 13) || u == 32 || u == 0x85 || u == 0xa0 || u == 0x1680
        || (0x2000 <= u && u <= 0x200a) || u == 0x2028 || u == 0x2029 || u == 0x202f
        || u == 0x205f || u == 0x3000
}

/// What `str::to_lowercase` makes of a string.
pub uninterp spec fn lower_of(s: Seq<char>) -> Seq<char>;

/// The first character that `char::to_uppercase` yields for `c`.
pub uninterp spec fn upper_initial_of(c: char) -> char;

/// Relies on `char::is_whitespace`: true exactly on the `White_Space` characters.
#[verifier::external_body]
pub(crate) fn is_whitespace(c: char) -> (r: bool)
    ensures
        r == is_ws(c),
{
    c.is_whitespace()
}

/// Relies on `str::to_lowercase`: the result depends on the characters alone.
#[verifier::external_body]
pub(crate) fn lowercase(s: &str) -> (r: String)
    ensures
        r@ == lower_of(s@),
{
    s.to_lowercase()
}

/// Relies on `char::to_uppercase`: its first character, or `c` where it yields none.
#[verifier::external_body]
pub(crate) fn upper_initial(c: char) -> (r: char)
    ensures
        r == upper_initial_of(c),
{
    c.to_uppercase().next().unwrap_or(c)
}

/// Relies on `String::push`: appends one character.
#[verifier::external_body]
pub(crate) fn push_char(s: &mut String, c: char)
    ensures
        final(s)@ == old(s)@.push(c),
{
    s.push(c)
}

/// The words of `s`, taken between runs of whitespace, joined by single spaces.
pub open spec fn collapse(s: Seq<char>) -> Seq<char>
    decreases s.len(),
{
    if s.len() == 0 {
        Seq::empty()
    } else {
        let p = s.drop_last();
        let c = s.last();
        let o = collapse(p);
        if is_ws(c) {
            o
        } else if o.len() > 0 && is_ws(p.last()) {
            o.push(' ').push(c)
        } else {
            o.push(c)
        }
    }
}

/// `s` without its leading whitespace.
pub open spec fn trim_start(s: Seq<char>) -> Seq<char>
    decreases s.len(),
{
    if s.len() > 0 && is_ws(s[0]) {
        trim_start(s.drop_first())
    } else {
        s
    }
}

/// `s` without its trailing whitespace.
pub open spec fn trim_end(s: Seq<char>) -> Seq<char>
    decreases s.len(),
{
    if s.len() > 0 && is_ws(s.last()) {
        trim_end(s.drop_last())
    } else {
        s
    }
}

/// `s` without leading or trailing whitespace.
pub open spec fn trim(s: Seq<char>) -> Seq<char> {
    trim_end(trim_start(s))
}

/// `p` is a prefix of `s`.
pub open spec fn has_prefix(s: Seq<char>, p: Seq<char>) -> bool {
    p.len() <= s.len() && s.subrange(0, p.len() as int) == p
}

/// `t` occurs in `s` at position `i`.
pub open spec fn occurs_at(s: Seq<char>, t: Seq<char>, i: int) -> bool {
    0 <= i && i + t.len() <= s.len() && s.subrange(i, i + t.len()) == t
}

/// `t` occurs somewhere in `s`.
pub open spec fn occurs_in(s: Seq<char>, t: Seq<char>) -> bool {
    exists|i: int| occurs_at(s, t, i)
}

/// The characters of `s`, with each one that starts a word passed through
/// `upper_initial_of`.
pub open spec fn title(s: Seq<char>) -> Seq<char> {
    Seq::new(
        s.len(),
        |i: int|
            if i == 0 || is_ws(s[i - 1]) {
                upper_initial_of(s[i])
            } else {
                s[i]
            },
    )
}

/// Joins the words of `s` with single spaces.
pub fn collapse_whitespace(s: &str) -> (r: String)
    ensures
        r@ == collapse(s@),
{
    let n = s.unicode_len();
    let mut out = String::new();
    let mut i: usize = 0;
    let mut prev_ws = false;
    while i < n
        invariant
            n == s@.len(),
            i <= n,
            out@ == collapse(s@.subrange(0, i as int)),
            i > 0 ==> prev_ws == is_ws(s@[i - 1]),
            i == 0 ==> out@.len() == 0,
        decreases n - i,
    {
        let c = s.get_char(i);
        let w = is_whitespace(c);
        let ghost before = out@;
        if !w {
            if out.unicode_len() > 0 && prev_ws {
                push_char(&mut out, ' ');
            }
            push_char(&mut out, c);
        }
        proof {
            let t = s@.subrange(0, i + 1);
            assert(t.drop_last() =~= s@.subrange(0, i as int));
            assert(t.last() == c);
        }
        prev_ws = w;
        i += 1;
    }
    proof {
        assert(s@.subrange(0, n as int) =~= s@);
    }
    out
}

proof fn lemma_trim_start_step(s: Seq<char>, a: int)
    requires
        0 <= a < s.len(),
        is_ws(s[a]),
    ensures
        trim_start(s.subrange(a, s.len() as int)) == trim_start(s.subrange(a + 1, s.len() as int)),
{
    assert(s.subrange(a, s.len() as int).drop_first() =~= s.subrange(a + 1, s.len() as int));
}

proof fn lemma_trim_end_step(s: Seq<char>, b: int)
    requires
        0 < b <= s.len(),
        is_ws(s[b - 1]),
    ensures
        trim_end(s.subrange(0, b)) == trim_end(s.subrange(0, b - 1)),
{
    assert(s.subrange(0, b).drop_last() =~= s.subrange(0, b - 1));
}

/// `s` without leading or trailing whitespace.
pub fn trim_text(s: &str) -> (r: &str)
    ensures
        r@ == trim(s@),
{
    let n = s.unicode_len();
    let mut a: usize = 0;
    proof {
        assert(s@.subrange(0, n as int) =~= s@);
    }
    while a < n && is_whitespace(s.get_char(a))
        invariant
            n == s@.len(),
            a <= n,
            trim_start(s@) == trim_start(s@.subrange(a as int, n as int)),
        decreases n - a,
    {
        proof {
            lemma_trim_start_step(s@, a as int);
        }
        a += 1;
    }
    proof {
        assert(s@.subrange(0, n as int) =~= s@);
    }
    let rest = s.substring_char(a, n);
    let ghost u = rest@;
    let m = rest.unicode_len();
    let mut b: usize = m;
    proof {
        assert(u.subrange(0, m as int) =~= u);
    }
    while b > 0 && is_whitespace(rest.get_char(b - 1))
        invariant
            m == u.len(),
            rest@ == u,
            b <= m,
            trim_end(u) == trim_end(u.subrange(0, b as int)),
        decreases b,
    {
        proof {
            lemma_trim_end_step(u, b as int);
        }
        b -= 1;
    }
    proof {
        assert(u.subrange(0, m as int) =~= u);
        let w = s@.subrange(a as int, n as int);
        if a < n {
            assert(!is_ws(w[0]));
        }
        assert(trim_start(w) == w);
        let v = u.subrange(0, b as int);
        if b > 0 {
            assert(!is_ws(v.last()));
        }
        assert(trim_end(v) == v);
    }
    rest.substring_char(0, b)
}

/// Whether `t` occurs in `s` at position `i`.
pub fn occurs_at_pos(s: &str, t: &str, i: usize) -> (r: bool)
    requires
        i <= s@.len(),
    ensures
        r == occurs_at(s@, t@, i as int),
{
    let n = s.unicode_len();
    let k = t.unicode_len();
    if k > n - i {
        return false;
    }
    let mut j: usize = 0;
    while j < k
        invariant
            n == s@.len(),
            k == t@.len(),
            i + k <= n,
            j <= k,
            forall|q: int| 0 <= q < j ==> s@[i + q] == t@[q],
        decreases k - j,
    {
        if s.get_char(i + j) != t.get_char(j) {
            proof {
                assert(s@.subrange(i as int, i + k)[j as int] != t@[j as int]);
            }
            return false;
        }
        j += 1;
    }
    assert(s@.subrange(i as int, i + k) =~= t@);
    true
}

/// Whether `t` occurs anywhere in `s`.
pub fn occurs_in_text(s: &str, t: &str) -> (r: bool)
    ensures
        r == occurs_in(s@, t@),
{
    let n = s.unicode_len();
    let mut i: usize = 0;
    while i <= n
        invariant
            n == s@.len(),
            forall|q: int| 0 <= q < i ==> !occurs_at(s@, t@, q),
        decreases n + 1 - i,
    {
        if occurs_at_pos(s, t, i) {
            return true;
        }
        if i == n {
            assert forall|q: int| !occurs_at(s@, t@, q) by {
                if 0 <= q && q + t@.len() <= s@.len() {
                    assert(q < i || q <= n);
                }
            }
            return false;
        }
        i += 1;
    }
    false
}

/// Whether `s` starts with `p`.
pub fn starts_with_text(s: &str, p: &str) -> (r: bool)
    ensures
        r == has_prefix(s@, p@),
{
    occurs_at_pos(s, p, 0)
}

/// The part of `s` after the prefix `p`, where `s` starts with `p`.
pub fn strip_prefix_text<'a>(s: &'a str, p: &str) -> (r: Option<&'a str>)
    ensures
        r is Some <==> has_prefix(s@, p@),
        r matches Some(rest) ==> rest@ == s@.subrange(p@.len() as int, s@.len() as int),
{
    if starts_with_text(s, p) {
        let k = p.unicode_len();
        let n = s.unicode_len();
        Some(s.substring_char(k, n))
    } else {
        None
    }
}

/// Whether `a` and `b` hold the same characters.
pub fn same_text(a: &str, b: &str) -> (r: bool)
    ensures
        r == (a@ == b@),
{
    if a.unicode_len() != b.unicode_len() {
        return false;
    }
    let r = starts_with_text(a, b);
    proof {
        assert(a@.subrange(0, b@.len() as int) =~= a@);
    }
    r
}

/// `s` with the first character of each word passed through `char::to_uppercase`.
pub fn title_case(s: &str) -> (r: String)
    ensures
        r@ == title(s@),
{
    let n = s.unicode_len();
    let mut out = String::new();
    let mut i: usize = 0;
    while i < n
        invariant
            n == s@.len(),
            i <= n,
            out@ =~= title(s@).subrange(0, i as int),
        decreases n - i,
    {
        let c = s.get_char(i);
        if i == 0 || is_whitespace(s.get_char(i - 1)) {
            push_char(&mut out, upper_initial(c));
        } else {
            push_char(&mut out, c);
        }
        i += 1;
    }
    out
}

} // verus!

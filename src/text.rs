//! Small verified helpers over the characters of a string.

use vstd::prelude::*;
use vstd::string::StrSliceExecFns;

verus! {

broadcast use vstd::string::group_string_axioms;

/// The characters of `s`, in order.
pub fn chars_of(s: &str) -> (r: Vec<char>)
    ensures
        r@ == s@,
{
    let mut r: Vec<char> = Vec::new();
    for c in it: s.chars()
        invariant
            it.seq() == s@,
            r@ == it.seq().subrange(0, it.index() as int),
    {
        r.push(c);
    }
    r
}

/// Whether two character sequences are equal, element by element.
pub fn chars_eq(a: &Vec<char>, b: &Vec<char>) -> (r: bool)
    ensures
        r == (a@ == b@),
{
    if a.len() != b.len() {
        return false;
    }
    let mut i: usize = 0;
    while i < a.len()
        invariant
            a.len() == b.len(),
            i <= a.len(),
            forall|j: int| 0 <= j < i ==> a@[j] == b@[j],
        decreases a.len() - i,
    {
        if a[i] != b[i] {
            return false;
        }
        i = i + 1;
    }
    assert(a@ =~= b@);
    true
}

/// Whether two strings hold the same characters.
pub fn str_eq(a: &str, b: &str) -> (r: bool)
    ensures
        r == (a@ == b@),
{
    let x = chars_of(a);
    let y = chars_of(b);
    chars_eq(&x, &y)
}

/// Whether a character beyond ASCII has the Unicode property White_Space.
pub uninterp spec fn white_space_beyond_ascii(c: char) -> bool;

/// Whether `c` has the Unicode property White_Space: among ASCII characters
/// exactly the space and `\t` to `\r`.
pub open spec fn white_space(c: char) -> bool {
    if (c as u32) < 128 {
        c == ' ' || ('\t' <= c && c <= '\r')
    } else {
        white_space_beyond_ascii(c)
    }
}

/// Relies on char::is_whitespace: whether `c` has the Unicode property
/// White_Space, which among ASCII characters exactly the space, tab, line
/// feed, vertical tab, form feed and carriage return have.
#[verifier::external_body]
pub(crate) fn is_white_space(c: char) -> (r: bool)
    ensures
        r == (if (c as u32) < 128 {
            c == ' ' || ('\t' <= c && c <= '\r')
        } else {
            white_space_beyond_ascii(c)
        }),
{
    c.is_whitespace()
}

/// The first position, from `i` on, that holds no white space.
pub open spec fn skip_white_space(s: Seq<char>, i: int) -> int
    decreases s.len() - i,
{
    if 0 <= i < s.len() && white_space(s[i]) {
        skip_white_space(s, i + 1)
    } else {
        i
    }
}

/// The end of `s` up to `j` once the white space before `j`, back to `lo`,
/// is dropped.
pub open spec fn skip_white_space_back(s: Seq<char>, j: int, lo: int) -> int
    decreases j - lo,
{
    if lo < j <= s.len() && white_space(s[j - 1]) {
        skip_white_space_back(s, j - 1, lo)
    } else {
        j
    }
}

/// `s` without its leading and trailing white space.
pub open spec fn trimmed(s: Seq<char>) -> Seq<char> {
    let a = skip_white_space(s, 0);
    s.subrange(a, skip_white_space_back(s, s.len() as int, a))
}

/// `s` without its leading and trailing white space.
pub fn trim(s: &str) -> (r: String)
    ensures
        r@ == trimmed(s@),
{
    let cs = chars_of(s);
    let n = cs.len();
    let mut a: usize = 0;
    while a < n && is_white_space(cs[a])
        invariant
            n == cs@.len(),
            cs@ == s@,
            a <= n,
            skip_white_space(s@, 0) == skip_white_space(s@, a as int),
        decreases n - a,
    {
        a = a + 1;
    }
    let mut b: usize = n;
    while b > a && is_white_space(cs[b - 1])
        invariant
            n == cs@.len(),
            cs@ == s@,
            a <= b <= n,
            a == skip_white_space(s@, 0),
            skip_white_space_back(s@, n as int, a as int) == skip_white_space_back(
                s@,
                b as int,
                a as int,
            ),
        decreases b - a,
    {
        b = b - 1;
    }
    s.substring_char(a, b).to_owned()
}

/// The first position, from `i` on, that holds `c`, or the length of `s`.
pub open spec fn index_of(s: Seq<char>, c: char, i: int) -> int
    decreases s.len() - i,
{
    if i < 0 || i >= s.len() {
        s.len() as int
    } else if s[i] == c {
        i
    } else {
        index_of(s, c, i + 1)
    }
}

proof fn lemma_index_of_bounds(s: Seq<char>, c: char, i: int)
    requires
        0 <= i <= s.len(),
    ensures
        i <= index_of(s, c, i) <= s.len(),
    decreases s.len() - i,
{
    if i < s.len() && s[i] != c {
        lemma_index_of_bounds(s, c, i + 1);
    }
}

/// The first position, from `from` on, that holds `c`, or the length.
pub fn find_char(cs: &Vec<char>, c: char, from: usize) -> (r: usize)
    requires
        from <= cs@.len(),
    ensures
        r == index_of(cs@, c, from as int),
        from <= r <= cs@.len(),
{
    proof {
        lemma_index_of_bounds(cs@, c, from as int);
    }
    let mut i: usize = from;
    while i < cs.len() && cs[i] != c
        invariant
            from <= i <= cs@.len(),
            index_of(cs@, c, from as int) == index_of(cs@, c, i as int),
        decreases cs.len() - i,
    {
        i = i + 1;
    }
    i
}

/// When no position of `s` from `i` up to `k` holds `c`, and `k` holds `c`
/// or is the end, the first `c` from `i` on stands at `k`.
pub proof fn lemma_index_of_at(s: Seq<char>, c: char, i: int, k: int)
    requires
        0 <= i <= k <= s.len(),
        forall|j: int| i <= j < k ==> s[j] != c,
        k == s.len() || s[k] == c,
    ensures
        index_of(s, c, i) == k,
    decreases k - i,
{
    if i < k {
        lemma_index_of_at(s, c, i + 1, k);
    }
}

/// Text that neither starts nor ends with white space stays as it is when
/// trimmed, also after a space is added to it.
pub proof fn lemma_trimmed_fixed(t: Seq<char>)
    requires
        t.len() > 0 ==> !white_space(t[0]) && !white_space(t[t.len() - 1]),
    ensures
        trimmed(t) == t,
        trimmed(t + seq![' ']) == t,
{
    let u = t + seq![' '];
    assert(u[t.len() as int] == ' ');
    if t.len() == 0 {
        assert(skip_white_space(u, 1) == 1);
        assert(skip_white_space(u, 0) == 1);
        assert(u.subrange(1, 1) =~= t);
    } else {
        assert(u[0] == t[0]);
        assert(u[t.len() - 1] == t[t.len() - 1]);
        assert(skip_white_space(u, 0) == 0);
        assert(skip_white_space_back(u, t.len() as int, 0) == t.len());
        assert(skip_white_space_back(u, u.len() as int, 0) == t.len());
        assert(u.subrange(0, t.len() as int) =~= t);
        assert(skip_white_space(t, 0) == 0);
        assert(skip_white_space_back(t, t.len() as int, 0) == t.len());
        assert(t.subrange(0, t.len() as int) =~= t);
    }
}

} // verus!

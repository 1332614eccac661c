//! GitHub handles: up to 39 bytes of ASCII letters, digits and single
//! hyphens, neither first nor last.

use crate::text::chars_of;
use vstd::prelude::*;
use vstd::utf8::encode_utf8;

verus! {

/// The most bytes that a handle may have.
pub const MAX_HANDLE_LEN: usize = 39;

/// The error returned for a string that is no GitHub handle.
#[derive(Debug, Clone, Copy, PartialEq, Eq, Structural)]
pub enum ParseGitHubHandleError {
    /// The handle is longer than 39 bytes.
    TooLong,
    /// The handle holds a character that is neither ASCII alphanumeric nor `-`.
    ContainsInvalidChar(char),
    /// The handle starts with `-`.
    StartedWithHyphen,
    /// The handle ends with `-`.
    EndedWithHyphen,
    /// The handle holds `--`.
    ContainsConsecutiveHyphens,
}

impl ParseGitHubHandleError {
    /// A description of the error.
    pub fn message(&self) -> &'static str {
        match self {
            ParseGitHubHandleError::TooLong => "handle must not be longer than 39 characters",
            ParseGitHubHandleError::ContainsInvalidChar(_) => {
                "handle must only contain alpha numeric characters and '-'"
            },
            ParseGitHubHandleError::StartedWithHyphen => "handle must not start with a '-'",
            ParseGitHubHandleError::EndedWithHyphen => "handle must not end with a '-'",
            ParseGitHubHandleError::ContainsConsecutiveHyphens => "handle must not contain '--'",
        }
    }
}

/// An ASCII letter or digit.
pub open spec fn is_ascii_alnum(c: char) -> bool {
    ('a' <= c && c <= 'z') || ('A' <= c && c <= 'Z') || ('0' <= c && c <= '9')
}

/// The error that position `i` of a handle gives on its own: a character that
/// is neither alphanumeric nor `-`, or a `-` followed by another.
pub open spec fn handle_error_at(s: Seq<char>, i: int) -> Option<ParseGitHubHandleError> {
    if s[i] == '-' {
        if i + 1 < s.len() && s[i + 1] == '-' {
            Some(ParseGitHubHandleError::ContainsConsecutiveHyphens)
        } else {
            None
        }
    } else if is_ascii_alnum(s[i]) {
        None
    } else {
        Some(ParseGitHubHandleError::ContainsInvalidChar(s[i]))
    }
}

/// The first error of the positions of a handle from `i` on, scanning left to
/// right.
pub open spec fn handle_scan(s: Seq<char>, i: int) -> Result<(), ParseGitHubHandleError>
    decreases s.len() - i,
{
    if i < 0 || i >= s.len() {
        Ok(())
    } else {
        match handle_error_at(s, i) {
            Some(e) => Err(e),
            None => handle_scan(s, i + 1),
        }
    }
}

/// The GitHub handle grammar. The length, then a leading and a trailing
/// hyphen are checked before the characters are scanned.
pub open spec fn handle_check(s: Seq<char>) -> Result<(), ParseGitHubHandleError> {
    if encode_utf8(s).len() > MAX_HANDLE_LEN {
        Err(ParseGitHubHandleError::TooLong)
    } else if s.len() > 0 && s[0] == '-' {
        Err(ParseGitHubHandleError::StartedWithHyphen)
    } else if s.len() > 0 && s[s.len() - 1] == '-' {
        Err(ParseGitHubHandleError::EndedWithHyphen)
    } else {
        handle_scan(s, 0)
    }
}

/// What validating `s` as a handle gives: its text, unchanged, or the error.
pub open spec fn handle_parse(s: Seq<char>) -> Result<Seq<char>, ParseGitHubHandleError> {
    match handle_check(s) {
        Ok(_) => Ok(s),
        Err(e) => Err(e),
    }
}

fn is_alnum(c: char) -> (r: bool)
    ensures
        r == is_ascii_alnum(c),
{
    ('a' <= c && c <= 'z') || ('A' <= c && c <= 'Z') || ('0' <= c && c <= '9')
}

/// Checks `s` against the GitHub handle grammar.
pub fn is_valid_github_handle(s: &str) -> (r: Result<(), ParseGitHubHandleError>)
    ensures
        r == handle_check(s@),
{
    if s.as_bytes().len() > MAX_HANDLE_LEN {
        return Err(ParseGitHubHandleError::TooLong);
    }
    let cs = chars_of(s);
    let n = cs.len();
    if n > 0 && cs[0] == '-' {
        return Err(ParseGitHubHandleError::StartedWithHyphen);
    }
    if n > 0 && cs[n - 1] == '-' {
        return Err(ParseGitHubHandleError::EndedWithHyphen);
    }
    let mut i: usize = 0;
    while i < n
        invariant
            n == cs@.len(),
            cs@ == s@,
            i <= n,
            handle_check(s@) == handle_scan(s@, i as int),
        decreases n - i,
    {
        let c = cs[i];
        if c == '-' {
            if i + 1 < n && cs[i + 1] == '-' {
                return Err(ParseGitHubHandleError::ContainsConsecutiveHyphens);
            }
        } else if !is_alnum(c) {
            return Err(ParseGitHubHandleError::ContainsInvalidChar(c));
        }
        i = i + 1;
    }
    Ok(())
}

/// A GitHub handle.
#[derive(Debug, PartialEq, Eq, PartialOrd, Ord, Hash)]
pub struct GitHubHandle(String);

impl View for GitHubHandle {
    type V = Seq<char>;

    closed spec fn view(&self) -> Seq<char> {
        self.0@
    }
}

impl GitHubHandle {
    #[verifier::type_invariant]
    spec fn inv(self) -> bool {
        handle_check(self.0@) is Ok
    }

    /// Validates `s` and keeps its text.
    pub fn from_str(s: &str) -> (r: Result<GitHubHandle, ParseGitHubHandleError>)
        ensures
            r matches Ok(v) ==> handle_parse(s@) == Ok::<Seq<char>, ParseGitHubHandleError>(v@),
            r matches Err(e) ==> handle_parse(s@) == Err::<Seq<char>, ParseGitHubHandleError>(e),
    {
        is_valid_github_handle(s)?;
        Ok(GitHubHandle(s.to_owned()))
    }

    /// The text of the handle.
    pub fn as_str(&self) -> (r: &str)
        ensures
            r@ == self@,
            handle_check(r@) is Ok,
    {
        proof {
            use_type_invariant(self);
        }
        self.0.as_str()
    }

    /// The text of the handle, as an owned string.
    pub fn into_string(self) -> (r: String)
        ensures
            r@ == self@,
            handle_check(r@) is Ok,
    {
        proof {
            use_type_invariant(&self);
        }
        self.0
    }
}

impl Clone for GitHubHandle {
    fn clone(&self) -> (r: GitHubHandle)
        ensures
            r@ == self@,
    {
        proof {
            use_type_invariant(self);
        }
        GitHubHandle(self.0.clone())
    }
}

impl std::str::FromStr for GitHubHandle {
    type Err = ParseGitHubHandleError;

    fn from_str(s: &str) -> Result<GitHubHandle, ParseGitHubHandleError> {
        GitHubHandle::from_str(s)
    }
}

/// Validating the text that validation accepted accepts it again, and the
/// text stays as it was.
pub proof fn lemma_handle_parse_round_trip(s: Seq<char>)
    requires
        handle_parse(s) is Ok,
    ensures
        handle_parse(s) == Ok::<Seq<char>, ParseGitHubHandleError>(s),
        handle_parse(handle_parse(s)->Ok_0) == handle_parse(s),
{
}

/// The checks on a handle come in a fixed order, so that a string that breaks
/// several rules gets one error: more than 39 bytes is too long whatever else
/// holds; below that a leading `-` is reported, then a trailing one.
pub proof fn lemma_handle_check_order(s: Seq<char>)
    ensures
        encode_utf8(s).len() > MAX_HANDLE_LEN ==> handle_check(s) == Err::<
            (),
            ParseGitHubHandleError,
        >(ParseGitHubHandleError::TooLong),
        encode_utf8(s).len() <= MAX_HANDLE_LEN && s.len() > 0 && s[0] == '-' ==> handle_check(s)
            == Err::<(), ParseGitHubHandleError>(ParseGitHubHandleError::StartedWithHyphen),
        encode_utf8(s).len() <= MAX_HANDLE_LEN && s.len() > 0 && s[0] != '-' && s[s.len() - 1]
            == '-' ==> handle_check(s) == Err::<(), ParseGitHubHandleError>(
            ParseGitHubHandleError::EndedWithHyphen,
        ),
{
}

proof fn lemma_scan_reaches_hyphens(s: Seq<char>, k: int, i: int)
    requires
        0 <= k <= i,
        i + 1 < s.len(),
        s[i] == '-',
        s[i + 1] == '-',
        forall|j: int| 0 <= j < s.len() ==> is_ascii_alnum(s[j]) || s[j] == '-',
    ensures
        handle_scan(s, k) == Err::<(), ParseGitHubHandleError>(
            ParseGitHubHandleError::ContainsConsecutiveHyphens,
        ),
    decreases i - k,
{
    if k < i {
        lemma_scan_reaches_hyphens(s, k + 1, i);
    }
}

/// A handle of at most 39 bytes, with no hyphen first or last, that holds
/// `--` is rejected for its consecutive hyphens, unless a character that is
/// neither ASCII alphanumeric nor `-` is reported first; here every
/// character is one of those.
pub proof fn lemma_handle_consecutive_hyphens(s: Seq<char>, i: int)
    requires
        encode_utf8(s).len() <= MAX_HANDLE_LEN,
        0 <= i,
        i + 1 < s.len(),
        s[i] == '-',
        s[i + 1] == '-',
        s[0] != '-',
        s[s.len() - 1] != '-',
        forall|j: int| 0 <= j < s.len() ==> is_ascii_alnum(s[j]) || s[j] == '-',
    ensures
        handle_check(s) == Err::<(), ParseGitHubHandleError>(
            ParseGitHubHandleError::ContainsConsecutiveHyphens,
        ),
{
    lemma_scan_reaches_hyphens(s, 0, i);
}

proof fn lemma_scan_ok(s: Seq<char>, k: int)
    requires
        0 <= k <= s.len(),
        handle_scan(s, k) is Ok,
    ensures
        forall|j: int|
            k <= j < s.len() ==> (is_ascii_alnum(#[trigger] s[j]) || s[j] == '-') && !(j + 1
                < s.len() && s[j] == '-' && s[j + 1] == '-'),
    decreases s.len() - k,
{
    if k < s.len() {
        lemma_scan_ok(s, k + 1);
        assert(handle_error_at(s, k) is None);
        assert forall|j: int| k <= j < s.len() implies (is_ascii_alnum(#[trigger] s[j]) || s[j]
            == '-') && !(j + 1 < s.len() && s[j] == '-' && s[j + 1] == '-') by {
            if j == k {
                assert(handle_error_at(s, k) is None);
            }
        }
    }
}

/// An accepted handle has at most 39 bytes, only ASCII letters, digits and
/// hyphens, no hyphen first or last, and no two hyphens in a row.
pub proof fn lemma_handle_accepted(s: Seq<char>)
    requires
        handle_check(s) is Ok,
    ensures
        encode_utf8(s).len() <= MAX_HANDLE_LEN,
        s.len() > 0 ==> s[0] != '-' && s[s.len() - 1] != '-',
        forall|j: int| 0 <= j < s.len() ==> is_ascii_alnum(s[j]) || s[j] == '-',
        forall|j: int| 0 <= j < s.len() - 1 ==> !(#[trigger] s[j] == '-' && s[j + 1] == '-'),
{
    lemma_scan_ok(s, 0);
    assert forall|j: int| 0 <= j < s.len() - 1 implies !(#[trigger] s[j] == '-' && s[j + 1]
        == '-') by {
        assert(!(j + 1 < s.len() && s[j] == '-' && s[j + 1] == '-'));
    }
}

} // verus!

//! Identifiers: a start character followed by continue characters.

use crate::text::chars_of;
use vstd::prelude::*;

verus! {

/// Whether `c` has the Unicode property XID_Start.
pub uninterp spec fn xid_start(c: char) -> bool;

/// Whether `c` has the Unicode property XID_Continue.
pub uninterp spec fn xid_continue(c: char) -> bool;

/// Relies on unicode_ident::is_xid_start: the XID_Start property of `ch`,
/// which among ASCII characters exactly the letters have.
pub assume_specification[ unicode_ident::is_xid_start ](ch: char) -> (r: bool)
    ensures
        r == xid_start(ch),
        (ch as u32) < 128 ==> (r <==> (('a' <= ch && ch <= 'z') || ('A' <= ch && ch <= 'Z'))),
;

/// Relies on unicode_ident::is_xid_continue: the XID_Continue property of
/// `ch`, which among ASCII characters exactly the letters, the digits and `_`
/// have.
pub assume_specification[ unicode_ident::is_xid_continue ](ch: char) -> (r: bool)
    ensures
        r == xid_continue(ch),
        (ch as u32) < 128 ==> (r <==> (('a' <= ch && ch <= 'z') || ('A' <= ch && ch <= 'Z') || (
        '0' <= ch && ch <= '9') || ch == '_')),
;

/// A character that may start an identifier.
pub open spec fn is_id_start(c: char) -> bool {
    xid_start(c) || c == '_'
}

/// A character that may follow the first one of an identifier.
pub open spec fn is_id_continue(c: char) -> bool {
    xid_continue(c) || c == '_' || c == '-'
}

/// The identifier grammar: a start character, then continue characters.
pub open spec fn ident_valid(s: Seq<char>) -> bool {
    &&& s.len() > 0
    &&& is_id_start(s[0])
    &&& forall|i: int| 1 <= i < s.len() ==> is_id_continue(s[i])
}

/// What validating `s` gives: its text, unchanged, or the error.
pub open spec fn ident_parse(s: Seq<char>) -> Result<Seq<char>, ParseIdentError> {
    if ident_valid(s) {
        Ok(s)
    } else {
        Err(ParseIdentError::ContainsInvalidChar)
    }
}

/// The error returned for a string that is no identifier.
#[derive(Debug, Clone, Copy, PartialEq, Eq, Structural)]
pub enum ParseIdentError {
    ContainsInvalidChar,
}

impl ParseIdentError {
    /// A description of the error.
    pub fn message(&self) -> &'static str {
        "identifier contained invalid character"
    }
}

fn is_id_start_char(c: char) -> (r: bool)
    ensures
        r == is_id_start(c),
{
    unicode_ident::is_xid_start(c) || c == '_'
}

fn is_id_continue_char(c: char) -> (r: bool)
    ensures
        r == is_id_continue(c),
{
    unicode_ident::is_xid_continue(c) || c == '_' || c == '-'
}

/// Checks `s` against the identifier grammar.
pub fn is_valid_ident(s: &str) -> (r: Result<(), ParseIdentError>)
    ensures
        r is Ok <==> ident_valid(s@),
        r matches Err(e) ==> e == ParseIdentError::ContainsInvalidChar,
{
    let cs = chars_of(s);
    if cs.len() == 0 || !is_id_start_char(cs[0]) {
        return Err(ParseIdentError::ContainsInvalidChar);
    }
    let mut i: usize = 1;
    while i < cs.len()
        invariant
            1 <= i <= cs.len(),
            cs@ == s@,
            forall|j: int| 1 <= j < i ==> is_id_continue(cs@[j]),
        decreases cs.len() - i,
    {
        if !is_id_continue_char(cs[i]) {
            return Err(ParseIdentError::ContainsInvalidChar);
        }
        i = i + 1;
    }
    Ok(())
}

/// An identifier, such as the name of a package.
#[derive(Debug, PartialEq, Eq, PartialOrd, Ord, Hash)]
pub struct Ident(String);

impl View for Ident {
    type V = Seq<char>;

    closed spec fn view(&self) -> Seq<char> {
        self.0@
    }
}

impl Ident {
    #[verifier::type_invariant]
    spec fn inv(self) -> bool {
        ident_valid(self.0@)
    }

    /// Validates `s` and keeps its text.
    pub fn from_str(s: &str) -> (r: Result<Ident, ParseIdentError>)
        ensures
            r matches Ok(v) ==> ident_parse(s@) == Ok::<Seq<char>, ParseIdentError>(v@),
            r matches Err(e) ==> ident_parse(s@) == Err::<Seq<char>, ParseIdentError>(e),
    {
        is_valid_ident(s)?;
        Ok(Ident(s.to_owned()))
    }

    /// The text of the identifier.
    pub fn as_str(&self) -> (r: &str)
        ensures
            r@ == self@,
            ident_valid(r@),
    {
        proof {
            use_type_invariant(self);
        }
        self.0.as_str()
    }

    /// The text of the identifier, as an owned string.
    pub fn into_string(self) -> (r: String)
        ensures
            r@ == self@,
            ident_valid(r@),
    {
        proof {
            use_type_invariant(&self);
        }
        self.0
    }
}

impl Clone for Ident {
    fn clone(&self) -> (r: Ident)
        ensures
            r@ == self@,
    {
        proof {
            use_type_invariant(self);
        }
        Ident(self.0.clone())
    }
}

impl std::str::FromStr for Ident {
    type Err = ParseIdentError;

    fn from_str(s: &str) -> Result<Ident, ParseIdentError> {
        Ident::from_str(s)
    }
}

/// Validating the text that validation accepted accepts it again, and the
/// text stays as it was.
pub proof fn lemma_ident_parse_round_trip(s: Seq<char>)
    requires
        ident_parse(s) is Ok,
    ensures
        ident_parse(s) == Ok::<Seq<char>, ParseIdentError>(s),
        ident_parse(ident_parse(s)->Ok_0) == ident_parse(s),
{
}

/// A non-empty string that the identifier grammar rejects holds a character
/// that breaks it: a first character that may not start an identifier, or a
/// later one that may not continue it.
pub proof fn lemma_ident_rejected(s: Seq<char>)
    requires
        s.len() > 0,
        !ident_valid(s),
    ensures
        !is_id_start(s[0]) || exists|i: int| 1 <= i < s.len() && !is_id_continue(#[trigger] s[i]),
{
}

} // verus!

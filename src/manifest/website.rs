//! Websites: a gate on the bytes that a URL may hold, not a URL parser.

use vstd::prelude::*;
use vstd::utf8::{encode_scalar, encode_utf8};

verus! {

/// A byte that may stand in a website: an ASCII letter or digit, or one of
/// `-_.~:/?#[]@!$&'()*+,;=`.
pub open spec fn is_legal_in_website(b: u8) -> bool {
    ||| (48 <= b && b <= 57)
    ||| (97 <= b && b <= 122)
    ||| (65 <= b && b <= 90)
    ||| b == 45 || b == 95 || b == 46 || b == 126 || b == 58 || b == 47
    ||| b == 63 || b == 35 || b == 91 || b == 93 || b == 64 || b == 33
    ||| b == 36 || b == 38 || b == 39 || b == 40 || b == 41 || b == 42
    ||| b == 43 || b == 44 || b == 59 || b == 61
}

/// The website grammar: every byte of the UTF-8 encoding is legal.
pub open spec fn website_valid(s: Seq<char>) -> bool {
    forall|i: int| 0 <= i < encode_utf8(s).len() ==> is_legal_in_website(#[trigger] encode_utf8(s)[i])
}

/// What validating `s` gives: its text, unchanged, or the error.
pub open spec fn website_parse(s: Seq<char>) -> Result<Seq<char>, ParseWebsiteError> {
    if website_valid(s) {
        Ok(s)
    } else {
        Err(ParseWebsiteError::ContainsInvalidChar)
    }
}

/// The error returned for a string that is no website.
#[derive(Debug, Clone, Copy, PartialEq, Eq, Structural)]
pub enum ParseWebsiteError {
    ContainsInvalidChar,
}

impl ParseWebsiteError {
    /// A description of the error.
    pub fn message(&self) -> &'static str {
        "url contained invalid byte"
    }
}

fn legal_in_website(b: u8) -> (r: bool)
    ensures
        r == is_legal_in_website(b),
{
    (48 <= b && b <= 57) || (97 <= b && b <= 122) || (65 <= b && b <= 90) || b == 45
        || b == 95 || b == 46 || b == 126 || b == 58 || b == 47 || b == 63 || b == 35
        || b == 91 || b == 93 || b == 64 || b == 33 || b == 36 || b == 38 || b
        == 39 || b == 40 || b == 41 || b == 42 || b == 43 || b == 44 || b == 59
        || b == 61
}

/// Checks `s` against the website grammar.
pub fn is_valid_website(s: &str) -> (r: Result<(), ParseWebsiteError>)
    ensures
        r is Ok <==> website_valid(s@),
        r matches Err(e) ==> e == ParseWebsiteError::ContainsInvalidChar,
{
    let bytes = s.as_bytes();
    let mut i: usize = 0;
    while i < bytes.len()
        invariant
            bytes@ == encode_utf8(s@),
            i <= bytes@.len(),
            forall|j: int| 0 <= j < i ==> is_legal_in_website(#[trigger] bytes@[j]),
        decreases bytes@.len() - i,
    {
        if !legal_in_website(bytes[i]) {
            return Err(ParseWebsiteError::ContainsInvalidChar);
        }
        i = i + 1;
    }
    Ok(())
}

/// A website, such as the homepage of a package.
#[derive(Debug, PartialEq, Eq, PartialOrd, Ord, Hash)]
pub struct Website(String);

impl View for Website {
    type V = Seq<char>;

    closed spec fn view(&self) -> Seq<char> {
        self.0@
    }
}

impl Website {
    #[verifier::type_invariant]
    spec fn inv(self) -> bool {
        website_valid(self.0@)
    }

    /// Validates `s` and keeps its text.
    pub fn from_str(s: &str) -> (r: Result<Website, ParseWebsiteError>)
        ensures
            r matches Ok(v) ==> website_parse(s@) == Ok::<Seq<char>, ParseWebsiteError>(v@),
            r matches Err(e) ==> website_parse(s@) == Err::<Seq<char>, ParseWebsiteError>(e),
    {
        is_valid_website(s)?;
        Ok(Website(s.to_owned()))
    }

    /// The text of the website.
    pub fn as_str(&self) -> (r: &str)
        ensures
            r@ == self@,
            website_valid(r@),
    {
        proof {
            use_type_invariant(self);
        }
        self.0.as_str()
    }

    /// The text of the website, as an owned string.
    pub fn into_string(self) -> (r: String)
        ensures
            r@ == self@,
            website_valid(r@),
    {
        proof {
            use_type_invariant(&self);
        }
        self.0
    }
}

impl Clone for Website {
    fn clone(&self) -> (r: Website)
        ensures
            r@ == self@,
    {
        proof {
            use_type_invariant(self);
        }
        Website(self.0.clone())
    }
}

impl std::str::FromStr for Website {
    type Err = ParseWebsiteError;

    fn from_str(s: &str) -> Result<Website, ParseWebsiteError> {
        Website::from_str(s)
    }
}

/// Validating the text that validation accepted accepts it again, and the
/// text stays as it was.
pub proof fn lemma_website_parse_round_trip(s: Seq<char>)
    requires
        website_parse(s) is Ok,
    ensures
        website_parse(s) == Ok::<Seq<char>, ParseWebsiteError>(s),
        website_parse(website_parse(s)->Ok_0) == website_parse(s),
{
}

/// A valid website holds no `>`, which is no legal byte.
pub proof fn lemma_website_has_no_closing_bracket(s: Seq<char>)
    requires
        website_valid(s),
    ensures
        forall|i: int| 0 <= i < s.len() ==> s[i] != '>',
    decreases s.len(),
{
    if s.len() > 0 {
        let head = encode_scalar(s[0] as u32);
        let rest = s.drop_first();
        assert(encode_utf8(s) == head + encode_utf8(rest));
        assert forall|i: int| 0 <= i < encode_utf8(rest).len() implies is_legal_in_website(
            #[trigger] encode_utf8(rest)[i],
        ) by {
            assert(encode_utf8(s)[head.len() + i] == encode_utf8(rest)[i]);
        }
        lemma_website_has_no_closing_bracket(rest);
        if s[0] == '>' {
            assert((62u32 & 0x7Fu32) as u8 == 62u8) by (bit_vector);
            assert(encode_utf8(s)[0] == 62u8);
        }
        assert forall|i: int| 0 <= i < s.len() implies s[i] != '>' by {
            if i > 0 {
                assert(s[i] == rest[i - 1]);
            }
        }
    }
}

} // verus!

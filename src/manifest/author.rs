//! Authors of a package: a name with an optional contact, written
//! `Name <contact>`. A contact that starts with `@` is a GitHub handle, one
//! that starts with `http` a website, and any other an email address.

pub mod github_handle;

pub use self::github_handle::{GitHubHandle, ParseGitHubHandleError};
pub use super::website::{ParseWebsiteError, Website};
pub use email_address::{EmailAddress, Error as ParseEmailError};

use self::github_handle::{handle_check, handle_parse, lemma_handle_accepted};
use super::website::{lemma_website_has_no_closing_bracket, website_parse, website_valid};
use crate::text::{
    chars_of, find_char, index_of, lemma_index_of_at, lemma_trimmed_fixed, trim, trimmed, white_space,
};
use vstd::prelude::*;
use vstd::string::{StrSliceExecFns, StringExecFns};

verus! {

#[verifier::external_type_specification]
#[verifier::external_body]
pub struct ExEmailAddress(EmailAddress);

#[verifier::external_type_specification]
#[verifier::external_body]
pub struct ExParseEmailError(ParseEmailError);

/// What email_address makes of a string read as an email address.
pub uninterp spec fn email_parse(s: Seq<char>) -> Result<EmailAddress, ParseEmailError>;

/// The text of an email address.
pub uninterp spec fn email_text(e: EmailAddress) -> Seq<char>;

/// Relies on email_address's `FromStr` for `EmailAddress`: the result depends
/// on the string alone, and an address keeps the text that it was parsed from.
#[verifier::external_body]
fn parse_email(s: &str) -> (r: Result<EmailAddress, ParseEmailError>)
    ensures
        r == email_parse(s@),
        r matches Ok(e) ==> email_text(e) == s@,
{
    <EmailAddress as std::str::FromStr>::from_str(s)
}

/// Relies on EmailAddress::as_str: the text of the address.
pub assume_specification[ EmailAddress::as_str ](e: &EmailAddress) -> (r: &str)
    ensures
        r@ == email_text(*e),
;

/// A way to reach an author.
#[derive(Debug, PartialEq, Eq, Hash)]
pub enum Contact {
    GitHubHandle(GitHubHandle),
    Website(Website),
    Email(EmailAddress),
}

/// An author: a name, and maybe a contact.
#[derive(Debug, PartialEq, Eq, Hash)]
pub struct Author {
    pub name: String,
    pub contact: Option<Contact>,
}

/// The error returned for a string that is no author.
#[derive(Debug, PartialEq)]
pub enum ParseAuthorError {
    /// The contact is no valid email address.
    InvalidEmailAddress(ParseEmailError),
    /// The contact starts with `@` and is no valid GitHub handle after it.
    InvalidGithubHandle(ParseGitHubHandleError),
    /// The contact starts with `http` and is no valid website.
    InvalidWebsite(ParseWebsiteError),
    /// A `<` is not closed by a `>`.
    UnclosedContact,
    /// Nothing stands between `<` and `>`.
    EmptyContact,
}

impl ParseAuthorError {
    /// A description of the error.
    pub fn message(&self) -> &'static str {
        match self {
            ParseAuthorError::InvalidEmailAddress(_) => "invalid contact",
            ParseAuthorError::InvalidGithubHandle(_) => "invalid contact",
            ParseAuthorError::InvalidWebsite(_) => "invalid contact",
            ParseAuthorError::UnclosedContact => "missing '>'",
            ParseAuthorError::EmptyContact => "no contact between '<' and '>'",
        }
    }
}

/// Whether `s` starts with `http`.
pub open spec fn starts_with_http(s: Seq<char>) -> bool {
    s.len() >= 4 && s[0] == 'h' && s[1] == 't' && s[2] == 't' && s[3] == 'p'
}

/// Whether `r` is what the non-empty contact text `body` gives: a GitHub
/// handle after a leading `@`, a website where it starts with `http`, an
/// email address otherwise, or the error of that grammar.
pub open spec fn contact_result(body: Seq<char>, r: Result<Contact, ParseAuthorError>) -> bool {
    if body[0] == '@' {
        match handle_parse(body.drop_first()) {
            Ok(t) => r matches Ok(Contact::GitHubHandle(h)) && h@ == t,
            Err(e) => r == Err::<Contact, ParseAuthorError>(
                ParseAuthorError::InvalidGithubHandle(e),
            ),
        }
    } else if starts_with_http(body) {
        match website_parse(body) {
            Ok(t) => r matches Ok(Contact::Website(w)) && w@ == t,
            Err(e) => r == Err::<Contact, ParseAuthorError>(ParseAuthorError::InvalidWebsite(e)),
        }
    } else {
        match email_parse(body) {
            Ok(e) => r == Ok::<Contact, ParseAuthorError>(Contact::Email(e)),
            Err(e) => r == Err::<Contact, ParseAuthorError>(
                ParseAuthorError::InvalidEmailAddress(e),
            ),
        }
    }
}

/// Whether `r` is what the author grammar makes of `s`. The name is the
/// trimmed text before the first `<`; the contact is the text from there to
/// the first `>`. An empty contact is reported before a missing `>`.
pub open spec fn author_result(s: Seq<char>, r: Result<Author, ParseAuthorError>) -> bool {
    let lt = index_of(s, '<', 0);
    if lt == s.len() {
        r matches Ok(a) && a.name@ == trimmed(s) && a.contact is None
    } else {
        let gt = index_of(s, '>', lt + 1);
        let body = s.subrange(lt + 1, gt);
        if body.len() == 0 {
            r == Err::<Author, ParseAuthorError>(ParseAuthorError::EmptyContact)
        } else if gt == s.len() {
            r == Err::<Author, ParseAuthorError>(ParseAuthorError::UnclosedContact)
        } else {
            match r {
                Ok(a) => {
                    &&& a.name@ == trimmed(s.subrange(0, lt))
                    &&& a.contact matches Some(c) && contact_result(body, Ok(c))
                },
                Err(e) => contact_result(body, Err(e)),
            }
        }
    }
}

/// Reads a non-empty contact text.
fn parse_contact(body: &str) -> (r: Result<Contact, ParseAuthorError>)
    requires
        body@.len() > 0,
    ensures
        contact_result(body@, r),
{
    let cs = chars_of(body);
    let n = cs.len();
    if cs[0] == '@' {
        let rest = body.substring_char(1, n);
        assert(rest@ == body@.drop_first());
        match GitHubHandle::from_str(rest) {
            Ok(h) => Ok(Contact::GitHubHandle(h)),
            Err(e) => Err(ParseAuthorError::InvalidGithubHandle(e)),
        }
    } else if n >= 4 && cs[0] == 'h' && cs[1] == 't' && cs[2] == 't' && cs[3] == 'p' {
        match Website::from_str(body) {
            Ok(w) => Ok(Contact::Website(w)),
            Err(e) => Err(ParseAuthorError::InvalidWebsite(e)),
        }
    } else {
        match parse_email(body) {
            Ok(e) => Ok(Contact::Email(e)),
            Err(e) => Err(ParseAuthorError::InvalidEmailAddress(e)),
        }
    }
}

/// The text of a contact, as it stands between `<` and `>`.
pub open spec fn contact_text(c: Contact) -> Seq<char> {
    match c {
        Contact::GitHubHandle(h) => seq!['@'] + h@,
        Contact::Website(w) => w@,
        Contact::Email(e) => email_text(e),
    }
}

/// The text of an author: the name, then ` <contact>` if there is a contact.
pub open spec fn author_text(a: Author) -> Seq<char> {
    match a.contact {
        Some(c) => a.name@ + seq![' ', '<'] + contact_text(c) + seq!['>'],
        None => a.name@,
    }
}

impl Author {
    /// Reads an author from `Name <contact>`, where ` <contact>` may be left
    /// out.
    pub fn from_str(s: &str) -> (r: Result<Author, ParseAuthorError>)
        ensures
            author_result(s@, r),
    {
        let cs = chars_of(s);
        let n = cs.len();
        let lt = find_char(&cs, '<', 0);
        if lt == n {
            return Ok(Author { name: trim(s), contact: None });
        }
        let gt = find_char(&cs, '>', lt + 1);
        if gt == lt + 1 {
            return Err(ParseAuthorError::EmptyContact);
        }
        if gt == n {
            return Err(ParseAuthorError::UnclosedContact);
        }
        let body = s.substring_char(lt + 1, gt);
        let contact = match parse_contact(body) {
            Ok(c) => c,
            Err(e) => {
                return Err(e);
            },
        };
        let name = trim(s.substring_char(0, lt));
        Ok(Author { name, contact: Some(contact) })
    }

    /// The text of the author: the name, then ` <contact>` if there is a
    /// contact, with `@` before a GitHub handle.
    pub fn to_string(&self) -> (r: String)
        ensures
            r@ == author_text(*self),
    {
        let mut out = String::from_str(self.name.as_str());
        match &self.contact {
            Some(c) => {
                out.append(" <");
                match c {
                    Contact::GitHubHandle(h) => {
                        out.append("@");
                        out.append(h.as_str());
                    },
                    Contact::Website(w) => {
                        out.append(w.as_str());
                    },
                    Contact::Email(e) => {
                        out.append(e.as_str());
                    },
                }
                out.append(">");
            },
            None => {},
        }
        proof {
            reveal_strlit(" <");
            reveal_strlit("@");
            reveal_strlit(">");
            if self.contact is Some {
                assert(out@ =~= author_text(*self));
            }
        }
        out
    }
}

impl std::str::FromStr for Author {
    type Err = ParseAuthorError;

    fn from_str(s: &str) -> Result<Author, ParseAuthorError> {
        Author::from_str(s)
    }
}

/// Whether the text of a contact reads back as that contact: a valid handle;
/// a valid website that starts with `http` (any other is read as an email
/// address); or an email address whose text email_address reads as the same
/// address, that holds no `>`, and that starts neither with `@` nor `http`.
pub open spec fn contact_reads_back(c: Contact) -> bool {
    match c {
        Contact::GitHubHandle(h) => handle_check(h@) is Ok,
        Contact::Website(w) => website_valid(w@) && starts_with_http(w@),
        Contact::Email(e) => {
            let t = email_text(e);
            &&& email_parse(t) == Ok::<EmailAddress, ParseEmailError>(e)
            &&& t.len() > 0
            &&& t[0] != '@'
            &&& !starts_with_http(t)
            &&& forall|i: int| 0 <= i < t.len() ==> t[i] != '>'
        },
    }
}

/// Whether two contacts are the same: of one kind, with the same text or, for
/// email addresses, the same address.
pub open spec fn same_contact(x: Option<Contact>, y: Option<Contact>) -> bool {
    match (x, y) {
        (None, None) => true,
        (Some(Contact::GitHubHandle(p)), Some(Contact::GitHubHandle(q))) => p@ == q@,
        (Some(Contact::Website(p)), Some(Contact::Website(q))) => p@ == q@,
        (Some(Contact::Email(p)), Some(Contact::Email(q))) => p == q,
        _ => false,
    }
}

/// Writing an author as text and reading the text back gives the same name and
/// contact, when the name holds no `<` and neither starts nor ends with white
/// space, and the contact reads back as itself.
pub proof fn lemma_author_text_round_trip(a: Author, r: Result<Author, ParseAuthorError>)
    requires
        forall|i: int| 0 <= i < a.name@.len() ==> a.name@[i] != '<',
        a.name@.len() > 0 ==> !white_space(a.name@[0]) && !white_space(
            a.name@[a.name@.len() - 1],
        ),
        a.contact matches Some(c) ==> contact_reads_back(c),
        author_result(author_text(a), r),
    ensures
        r matches Ok(b) && b.name@ == a.name@ && same_contact(b.contact, a.contact),
{
    let name = a.name@;
    let n = name.len() as int;
    let s = author_text(a);
    lemma_trimmed_fixed(name);
    match a.contact {
        None => {
            lemma_index_of_at(s, '<', 0, n);
        },
        Some(c) => {
            let ct = contact_text(c);
            match c {
                Contact::GitHubHandle(h) => {
                    lemma_handle_accepted(h@);
                    assert(ct[0] == '@');
                    assert forall|i: int| 0 <= i < ct.len() implies ct[i] != '>' by {
                        if i > 0 {
                            assert(ct[i] == h@[i - 1]);
                        }
                    }
                    assert(ct.drop_first() =~= h@);
                },
                Contact::Website(w) => {
                    lemma_website_has_no_closing_bracket(w@);
                },
                Contact::Email(e) => {},
            }
            assert(s == name + seq![' ', '<'] + ct + seq!['>']);
            assert forall|j: int| 0 <= j < n + 1 implies s[j] != '<' by {
                if j < n {
                    assert(s[j] == name[j]);
                }
            }
            lemma_index_of_at(s, '<', 0, n + 1);
            let gt = n + 2 + ct.len();
            assert forall|j: int| n + 2 <= j < gt implies s[j] != '>' by {
                assert(s[j] == ct[j - n - 2]);
            }
            lemma_index_of_at(s, '>', n + 2, gt);
            assert(s.subrange(n + 2, gt) =~= ct);
            assert(s.subrange(0, n) =~= name);
            assert(s.subrange(0, n + 1) =~= name + seq![' ']);
        },
    }
}

} // verus!

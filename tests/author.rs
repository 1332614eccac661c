use std::str::FromStr;

use typst_project::manifest::author::{
    Author, Contact, EmailAddress, GitHubHandle, ParseAuthorError, ParseEmailError,
    ParseGitHubHandleError, ParseWebsiteError, Website,
};

#[test]
fn author_invalid() {
    assert_eq!(
        Author::from_str("Martin <>"),
        Err(ParseAuthorError::EmptyContact)
    );
    assert_eq!(
        Author::from_str("Martin <@ martin>"),
        Err(ParseAuthorError::InvalidGithubHandle(
            ParseGitHubHandleError::ContainsInvalidChar(' ')
        ))
    );
    assert_eq!(
        Author::from_str("Martin <https://mÃ¤>"),
        Err(ParseAuthorError::InvalidWebsite(
            ParseWebsiteError::ContainsInvalidChar
        ))
    );
    assert_eq!(
        Author::from_str("Martin <martin@>"),
        Err(ParseAuthorError::InvalidEmailAddress(
            ParseEmailError::DomainEmpty
        ))
    );
    assert_eq!(
        Author::from_str("Martin <martin@typst.app"),
        Err(ParseAuthorError::UnclosedContact)
    );
}

#[test]
fn author_valid() {
    assert_eq!(
        Author::from_str("Martin"),
        Ok(Author {
            name: "Martin".into(),
            contact: None
        })
    );
    assert_eq!(
        Author::from_str("Martin <@reknih>"),
        Ok(Author {
            name: "Martin".into(),
            contact: Some(Contact::GitHubHandle(
                GitHubHandle::from_str("reknih").unwrap()
            ))
        })
    );
    assert_eq!(
        Author::from_str("Martin <https://mha.ug>"),
        Ok(Author {
            name: "Martin".into(),
            contact: Some(Contact::Website(
                Website::from_str("https://mha.ug").unwrap()
            ))
        })
    );
    assert_eq!(
        Author::from_str("Martin <martin.haug@typst.app>"),
        Ok(Author {
            name: "Martin".into(),
            contact: Some(Contact::Email(
                EmailAddress::from_str("martin.haug@typst.app").unwrap()
            ))
        })
    );
}

#[test]
fn author_examples_from_the_grammar() {
    let a = Author::from_str("Martin <martin@example.com>").unwrap();
    assert_eq!(a.name, "Martin");
    match a.contact {
        Some(Contact::Email(e)) => assert_eq!(e.as_str(), "martin@example.com"),
        other => panic!("expected an email contact, got {other:?}"),
    }
    let a = Author::from_str("Martin <@reknih>").unwrap();
    match a.contact {
        Some(Contact::GitHubHandle(h)) => assert_eq!(h.as_str(), "reknih"),
        other => panic!("expected a handle, got {other:?}"),
    }
    assert_eq!(
        Author::from_str("Martin <martin@example.com"),
        Err(ParseAuthorError::UnclosedContact)
    );
}

#[test]
fn author_name_is_trimmed() {
    let a = Author::from_str("  Jane Doe  ").unwrap();
    assert_eq!(a.name, "Jane Doe");
    assert!(a.contact.is_none());
    let a = Author::from_str("\tJane\u{2003} <@jane>").unwrap();
    assert_eq!(a.name, "Jane");
    let a = Author::from_str("<@jane>").unwrap();
    assert_eq!(a.name, "");
    assert!(matches!(a.contact, Some(Contact::GitHubHandle(_))));
}

#[test]
fn author_empty_contact_comes_before_unclosed() {
    assert_eq!(Author::from_str("Martin <"), Err(ParseAuthorError::EmptyContact));
    assert_eq!(Author::from_str("Martin <>x"), Err(ParseAuthorError::EmptyContact));
}

#[test]
fn author_text_after_contact_is_ignored() {
    let a = Author::from_str("Martin <@reknih> trailing").unwrap();
    assert_eq!(a.name, "Martin");
    assert!(matches!(a.contact, Some(Contact::GitHubHandle(_))));
}

#[test]
fn author_contact_kinds() {
    assert!(matches!(
        Author::from_str("A <http>"),
        Ok(Author { contact: Some(Contact::Website(_)), .. })
    ));
    assert_eq!(
        Author::from_str("A <@>"),
        Ok(Author {
            name: "A".into(),
            contact: Some(Contact::GitHubHandle(GitHubHandle::from_str("").unwrap()))
        })
    );
    assert_eq!(
        Author::from_str("A <@r--k>"),
        Err(ParseAuthorError::InvalidGithubHandle(
            ParseGitHubHandleError::ContainsConsecutiveHyphens
        ))
    );
    assert!(matches!(
        Author::from_str("A <no-at-sign>"),
        Err(ParseAuthorError::InvalidEmailAddress(_))
    ));
}

#[test]
fn author_to_string() {
    let a = Author::from_str("Martin <@reknih>").unwrap();
    assert_eq!(a.to_string(), "Martin <@reknih>");
    let a = Author::from_str("Martin <https://mha.ug>").unwrap();
    assert_eq!(a.to_string(), "Martin <https://mha.ug>");
    let a = Author::from_str("Martin <martin@typst.app>").unwrap();
    assert_eq!(a.to_string(), "Martin <martin@typst.app>");
    let a = Author::from_str(" Martin ").unwrap();
    assert_eq!(a.to_string(), "Martin");
    let again = Author::from_str(&Author::from_str("Jo <@jo>").unwrap().to_string()).unwrap();
    assert_eq!(again, Author::from_str("Jo <@jo>").unwrap());
}

#[test]
fn author_error_messages() {
    assert_eq!(ParseAuthorError::UnclosedContact.message(), "missing '>'");
    assert_eq!(
        ParseAuthorError::EmptyContact.message(),
        "no contact between '<' and '>'"
    );
}

#[test]
fn author_ascii_white_space_is_trimmed() {
    let a = Author::from_str("\u{b}\u{c}\r\n Jane \t").unwrap();
    assert_eq!(a.name, "Jane");
    // Other ASCII control characters are no white space.
    let a = Author::from_str("\u{1f}Jane").unwrap();
    assert_eq!(a.name, "\u{1f}Jane");
}

#[test]
fn author_round_trip_needs_http_for_websites() {
    let a = Author {
        name: "M".into(),
        contact: Some(Contact::Website(Website::from_str("https://mha.ug").unwrap())),
    };
    assert_eq!(Author::from_str(&a.to_string()).unwrap(), a);
    let a = Author {
        name: "M".into(),
        contact: Some(Contact::Website(Website::from_str("mha.ug").unwrap())),
    };
    assert!(matches!(
        Author::from_str(&a.to_string()),
        Err(ParseAuthorError::InvalidEmailAddress(_))
    ));
}

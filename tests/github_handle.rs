use typst_project::manifest::author::github_handle::{
    is_valid_github_handle, GitHubHandle, ParseGitHubHandleError,
};

#[test]
fn invalid_hyphens() {
    assert_eq!(
        is_valid_github_handle("-reknih"),
        Err(ParseGitHubHandleError::StartedWithHyphen)
    );
    assert_eq!(
        is_valid_github_handle("reknih-"),
        Err(ParseGitHubHandleError::EndedWithHyphen)
    );
    assert_eq!(
        is_valid_github_handle("r--knih"),
        Err(ParseGitHubHandleError::ContainsConsecutiveHyphens)
    );
}

#[test]
fn invalid_char() {
    assert_eq!(
        is_valid_github_handle("rek nih"),
        Err(ParseGitHubHandleError::ContainsInvalidChar(' '))
    );
    assert_eq!(
        is_valid_github_handle("@reknih"),
        Err(ParseGitHubHandleError::ContainsInvalidChar('@'))
    );
    assert_eq!(
        is_valid_github_handle("räknih"),
        Err(ParseGitHubHandleError::ContainsInvalidChar('ä'))
    );
}

#[test]
fn github_handle_valid() {
    assert!(is_valid_github_handle("reknih").is_ok());
    assert!(is_valid_github_handle("tingerrr").is_ok());
}

#[test]
fn github_handle_length() {
    let longest = "a".repeat(39);
    assert_eq!(is_valid_github_handle(&longest), Ok(()));
    let too_long = "a".repeat(40);
    assert_eq!(
        is_valid_github_handle(&too_long),
        Err(ParseGitHubHandleError::TooLong)
    );
    // Length is checked before the hyphens.
    let hyphens = format!("-{}-", "a".repeat(40));
    assert_eq!(
        is_valid_github_handle(&hyphens),
        Err(ParseGitHubHandleError::TooLong)
    );
    // The length counts bytes: twenty `ä` are forty bytes.
    assert_eq!(
        is_valid_github_handle(&"ä".repeat(20)),
        Err(ParseGitHubHandleError::TooLong)
    );
    assert_eq!(is_valid_github_handle(""), Ok(()));
}

#[test]
fn github_handle_rule_order() {
    assert_eq!(
        is_valid_github_handle("-a-"),
        Err(ParseGitHubHandleError::StartedWithHyphen)
    );
    assert_eq!(
        is_valid_github_handle("a@b--c"),
        Err(ParseGitHubHandleError::ContainsInvalidChar('@'))
    );
    assert_eq!(
        is_valid_github_handle("a--b@c"),
        Err(ParseGitHubHandleError::ContainsConsecutiveHyphens)
    );
    assert_eq!(
        is_valid_github_handle("a-@"),
        Err(ParseGitHubHandleError::ContainsInvalidChar('@'))
    );
    assert_eq!(is_valid_github_handle("a-b-c"), Ok(()));
    assert_eq!(is_valid_github_handle("-"), Err(ParseGitHubHandleError::StartedWithHyphen));
}

#[test]
fn github_handle_round_trip() {
    let h = GitHubHandle::from_str("Tinger-rr9").unwrap();
    assert_eq!(h.as_str(), "Tinger-rr9");
    let again = GitHubHandle::from_str(h.as_str()).unwrap();
    assert_eq!(again, h);
    assert_eq!(h.clone().into_string(), "Tinger-rr9");
    assert_eq!(
        GitHubHandle::from_str("a b"),
        Err(ParseGitHubHandleError::ContainsInvalidChar(' '))
    );
    let parsed: GitHubHandle = "reknih".parse().unwrap();
    assert_eq!(parsed.as_str(), "reknih");
}

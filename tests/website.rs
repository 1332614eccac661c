use typst_project::manifest::website::{is_valid_website, ParseWebsiteError, Website};

#[test]
fn website_invalid() {
    assert!(is_valid_website("http://mha ug").is_err());
    assert!(is_valid_website("http://mh√§.ug").is_err());
}

#[test]
fn website_valid() {
    assert!(is_valid_website("https://mha.ug").is_ok());
    assert!(is_valid_website("https://github.com/tingerrr/hydra").is_ok());
}

#[test]
fn website_punctuation() {
    assert_eq!(
        is_valid_website("https://a.b/c?d=e&f=g#h[i]@j!k$l'm(n)o*p+q,r;s~t_u-v:w"),
        Ok(())
    );
    assert_eq!(is_valid_website(""), Ok(()));
    assert_eq!(
        is_valid_website("https://a.b/<x>"),
        Err(ParseWebsiteError::ContainsInvalidChar)
    );
    assert_eq!(
        is_valid_website("https://a.b/\"x\""),
        Err(ParseWebsiteError::ContainsInvalidChar)
    );
    assert_eq!(
        is_valid_website("https://a.b/%20"),
        Err(ParseWebsiteError::ContainsInvalidChar)
    );
}

#[test]
fn website_round_trip() {
    let w = Website::from_str("https://typst.app/docs").unwrap();
    assert_eq!(w.as_str(), "https://typst.app/docs");
    let again = Website::from_str(w.as_str()).unwrap();
    assert_eq!(again, w);
    assert_eq!(w.into_string(), "https://typst.app/docs");
    assert_eq!(
        Website::from_str("https://ä.de"),
        Err(ParseWebsiteError::ContainsInvalidChar)
    );
}

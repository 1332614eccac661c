use typst_project::manifest::ident::{is_valid_ident, Ident, ParseIdentError};

#[test]
fn ident_valid() {
    assert_eq!(is_valid_ident("cetz"), Ok(()));
    assert_eq!(is_valid_ident("_private"), Ok(()));
    assert_eq!(is_valid_ident("my-package_2"), Ok(()));
    assert_eq!(is_valid_ident("größe"), Ok(()));
    assert_eq!(is_valid_ident("a"), Ok(()));
}

#[test]
fn ident_invalid() {
    assert_eq!(is_valid_ident(""), Err(ParseIdentError::ContainsInvalidChar));
    assert_eq!(is_valid_ident("-lead"), Err(ParseIdentError::ContainsInvalidChar));
    assert_eq!(is_valid_ident("1abc"), Err(ParseIdentError::ContainsInvalidChar));
    assert_eq!(is_valid_ident("a b"), Err(ParseIdentError::ContainsInvalidChar));
    assert_eq!(is_valid_ident("a.b"), Err(ParseIdentError::ContainsInvalidChar));
}

#[test]
fn ident_round_trip() {
    let i = Ident::from_str("my-package").unwrap();
    assert_eq!(i.as_str(), "my-package");
    let again = Ident::from_str(i.as_str()).unwrap();
    assert_eq!(again, i);
    assert_eq!(i.clone().into_string(), "my-package");
    assert!(Ident::from_str("no way").is_err());
}

use typst_project::manifest::license::{
    check_requirements, is_valid_license, License, ParseLicenseError,
};

#[test]
fn license_osi_approved() {
    assert!(is_valid_license("MIT").is_ok());
    assert!(is_valid_license("MIT OR Apache-2.0").is_ok());
    assert!(is_valid_license("Apache-2.0 WITH LLVM-exception").is_ok());
    let l = License::from_str("MIT AND Apache-2.0").unwrap();
    assert_eq!(l.as_str(), "MIT AND Apache-2.0");
    assert_eq!(l.expression().as_ref(), "MIT AND Apache-2.0");
    assert!(l == License::from_str("MIT AND Apache-2.0").unwrap());
    assert!(l != License::from_str("MIT").unwrap());
}

#[test]
fn license_referencer() {
    assert!(matches!(
        is_valid_license("LicenseRef-Mine"),
        Err(ParseLicenseError::ContainsReferencer)
    ));
    assert!(matches!(
        is_valid_license("MIT OR LicenseRef-Mine"),
        Err(ParseLicenseError::ContainsReferencer)
    ));
}

#[test]
fn license_not_osi_approved() {
    assert!(matches!(
        is_valid_license("CC-BY-4.0"),
        Err(ParseLicenseError::NotOSIApproved)
    ));
    assert!(matches!(
        is_valid_license("MIT AND CC-BY-4.0"),
        Err(ParseLicenseError::NotOSIApproved)
    ));
    // The first requirement that fails decides the error.
    assert!(matches!(
        is_valid_license("CC-BY-4.0 OR LicenseRef-Mine"),
        Err(ParseLicenseError::NotOSIApproved)
    ));
}

#[test]
fn license_invalid_expression() {
    assert!(matches!(
        is_valid_license("MIT OR"),
        Err(ParseLicenseError::Expression(_))
    ));
    assert!(matches!(
        License::from_str("not a license"),
        Err(ParseLicenseError::Expression(_))
    ));
    assert!(matches!(
        is_valid_license(""),
        Err(ParseLicenseError::Expression(_))
    ));
}

#[test]
fn license_policy_on_plain_leaves() {
    assert!(check_requirements(&vec![]).is_ok());
    assert!(check_requirements(&vec![Some(true), Some(true)]).is_ok());
    assert!(matches!(
        check_requirements(&vec![Some(true), None, Some(false)]),
        Err(ParseLicenseError::ContainsReferencer)
    ));
    assert!(matches!(
        check_requirements(&vec![Some(false), None]),
        Err(ParseLicenseError::NotOSIApproved)
    ));
    assert_eq!(
        ParseLicenseError::NotOSIApproved.message(),
        "must be OSI-approved"
    );
}

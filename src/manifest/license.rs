//! Licenses: SPDX license expressions whose every license is a concrete,
//! OSI-approved SPDX license.

pub use spdx::{Expression, LicenseId, ParseError};

use spdx::LicenseItem;
use vstd::prelude::*;

verus! {

#[verifier::external_type_specification]
#[verifier::external_body]
pub struct ExExpression(Expression);

#[verifier::external_type_specification]
#[verifier::external_body]
pub struct ExParseError(ParseError);

#[verifier::external_type_specification]
#[verifier::external_body]
pub struct ExLicenseId(LicenseId);

/// What spdx makes of a string read as a license expression.
pub uninterp spec fn spdx_parse(s: Seq<char>) -> Result<Expression, ParseError>;

/// The licenses of the requirements of an expression, in spdx's order: the
/// SPDX license, or nothing for a license reference.
pub uninterp spec fn spdx_requirement_licenses(e: Expression) -> Seq<Option<LicenseId>>;

/// Whether a license is OSI-approved.
pub uninterp spec fn osi_approved(id: LicenseId) -> bool;

/// Relies on spdx::Expression::parse: the result depends on the string alone.
pub assume_specification[ spdx::Expression::parse ](text: &str) -> (r: Result<
    Expression,
    ParseError,
>)
    ensures
        r == spdx_parse(text@),
;

/// Relies on spdx::Expression::requirements: the license of each
/// requirement, in the order in which spdx hands them out.
#[verifier::external_body]
fn requirement_licenses(e: &Expression) -> (r: Vec<Option<LicenseId>>)
    ensures
        r@ == spdx_requirement_licenses(*e),
{
    e.requirements().map(
        |req|
            match &req.req.license {
                LicenseItem::Spdx { id, .. } => Some(*id),
                LicenseItem::Other { .. } => None,
            },
    ).collect()
}

/// Relies on spdx::LicenseId::is_osi_approved: the license's OSI flag.
pub assume_specification[ spdx::LicenseId::is_osi_approved ](id: LicenseId) -> (r: bool)
    ensures
        r == osi_approved(id),
;

/// The error returned for a string that is no acceptable license.
#[derive(Debug)]
pub enum ParseLicenseError {
    /// The string is no SPDX license expression.
    Expression(ParseError),
    /// A requirement names a license reference instead of an SPDX license.
    ContainsReferencer,
    /// A requirement names an SPDX license that is not OSI-approved.
    NotOSIApproved,
}

impl ParseLicenseError {
    /// A description of the error.
    pub fn message(&self) -> &'static str {
        match self {
            ParseLicenseError::Expression(_) => "invalid license expression",
            ParseLicenseError::ContainsReferencer => "must not contain referencer",
            ParseLicenseError::NotOSIApproved => "must be OSI-approved",
        }
    }
}

/// What the policy makes of the requirements from `i` on, each given as
/// nothing for a license reference, or whether its license is OSI-approved:
/// the first requirement that fails decides the error.
pub open spec fn requirements_check(leaves: Seq<Option<bool>>, i: int) -> Result<
    (),
    ParseLicenseError,
>
    decreases leaves.len() - i,
{
    if i < 0 || i >= leaves.len() {
        Ok(())
    } else {
        match leaves[i] {
            None => Err(ParseLicenseError::ContainsReferencer),
            Some(false) => Err(ParseLicenseError::NotOSIApproved),
            Some(true) => requirements_check(leaves, i + 1),
        }
    }
}

/// A requirement's license, as the policy sees it.
pub open spec fn leaf_of(license: Option<LicenseId>) -> Option<bool> {
    match license {
        Some(id) => Some(osi_approved(id)),
        None => None,
    }
}

/// The requirements of an expression, as the policy sees them.
pub open spec fn leaves_of(e: Expression) -> Seq<Option<bool>> {
    spdx_requirement_licenses(e).map_values(|l: Option<LicenseId>| leaf_of(l))
}

/// The license grammar: an SPDX expression that passes the policy.
pub open spec fn license_check(s: Seq<char>) -> Result<Expression, ParseLicenseError> {
    match spdx_parse(s) {
        Err(e) => Err(ParseLicenseError::Expression(e)),
        Ok(expr) => match requirements_check(leaves_of(expr), 0) {
            Ok(_) => Ok(expr),
            Err(e) => Err(e),
        },
    }
}

/// Applies the policy to the requirements of an expression, each given as
/// `None` for a license reference, or `Some` of whether its license is
/// OSI-approved. The first requirement that fails decides the error.
pub fn check_requirements(leaves: &Vec<Option<bool>>) -> (r: Result<(), ParseLicenseError>)
    ensures
        r == requirements_check(leaves@, 0),
{
    let mut i: usize = 0;
    while i < leaves.len()
        invariant
            i <= leaves@.len(),
            requirements_check(leaves@, 0) == requirements_check(leaves@, i as int),
        decreases leaves.len() - i,
    {
        match leaves[i] {
            None => {
                return Err(ParseLicenseError::ContainsReferencer);
            },
            Some(false) => {
                return Err(ParseLicenseError::NotOSIApproved);
            },
            Some(true) => {},
        }
        i = i + 1;
    }
    Ok(())
}

/// Parses `s` as an SPDX expression and applies the policy to it.
pub fn is_valid_license(s: &str) -> (r: Result<Expression, ParseLicenseError>)
    ensures
        r == license_check(s@),
{
    let expr = match Expression::parse(s) {
        Ok(e) => e,
        Err(e) => {
            return Err(ParseLicenseError::Expression(e));
        },
    };
    let licenses = requirement_licenses(&expr);
    let mut leaves: Vec<Option<bool>> = Vec::new();
    let mut i: usize = 0;
    while i < licenses.len()
        invariant
            i <= licenses@.len(),
            licenses@ == spdx_requirement_licenses(expr),
            leaves@.len() == i,
            forall|j: int| 0 <= j < i ==> leaves@[j] == leaf_of(licenses@[j]),
        decreases licenses.len() - i,
    {
        let leaf = match licenses[i] {
            Some(id) => Some(id.is_osi_approved()),
            None => None,
        };
        leaves.push(leaf);
        i = i + 1;
    }
    assert(leaves@ =~= leaves_of(expr));
    match check_requirements(&leaves) {
        Ok(()) => Ok(expr),
        Err(e) => Err(e),
    }
}

/// An accepted license expression, with its text.
#[derive(Debug)]
pub struct License {
    expr: Expression,
    text: String,
}

impl View for License {
    type V = Seq<char>;

    closed spec fn view(&self) -> Seq<char> {
        self.text@
    }
}

impl License {
    #[verifier::type_invariant]
    spec fn inv(self) -> bool {
        license_check(self.text@) == Ok::<Expression, ParseLicenseError>(self.expr)
    }

    /// The expression of the license.
    pub closed spec fn spec_expression(self) -> Expression {
        self.expr
    }

    /// Validates `s` and keeps its expression and its text.
    pub fn from_str(s: &str) -> (r: Result<License, ParseLicenseError>)
        ensures
            match r {
                Ok(l) => license_check(s@) == Ok::<Expression, ParseLicenseError>(
                    l.spec_expression(),
                ) && l@ == s@,
                Err(e) => license_check(s@) == Err::<Expression, ParseLicenseError>(e),
            },
    {
        let expr = is_valid_license(s)?;
        Ok(License { expr, text: s.to_owned() })
    }

    /// The text of the license expression.
    pub fn as_str(&self) -> (r: &str)
        ensures
            r@ == self@,
            license_check(r@) is Ok,
    {
        proof {
            use_type_invariant(self);
        }
        self.text.as_str()
    }

    /// The parsed license expression.
    pub fn expression(&self) -> (r: &Expression)
        ensures
            *r == self.spec_expression(),
            license_check(self@) == Ok::<Expression, ParseLicenseError>(*r),
    {
        proof {
            use_type_invariant(self);
        }
        &self.expr
    }
}

impl PartialEq for License {
    fn eq(&self, other: &License) -> (r: bool) {
        crate::text::str_eq(self.text.as_str(), other.text.as_str())
    }
}

impl vstd::std_specs::cmp::PartialEqSpecImpl for License {
    open spec fn obeys_eq_spec() -> bool {
        true
    }

    open spec fn eq_spec(&self, other: &License) -> bool {
        self@ == other@
    }
}

impl Eq for License {

}

impl std::str::FromStr for License {
    type Err = ParseLicenseError;

    fn from_str(s: &str) -> Result<License, ParseLicenseError> {
        License::from_str(s)
    }
}

proof fn lemma_requirements_all_approved(leaves: Seq<Option<bool>>, i: int)
    requires
        0 <= i <= leaves.len(),
        forall|j: int| 0 <= j < leaves.len() ==> leaves[j] == Some(true),
    ensures
        requirements_check(leaves, i) is Ok,
    decreases leaves.len() - i,
{
    if i < leaves.len() {
        lemma_requirements_all_approved(leaves, i + 1);
    }
}

proof fn lemma_requirements_first_failure(leaves: Seq<Option<bool>>, i: int, k: int)
    requires
        0 <= i <= k < leaves.len(),
        leaves[k] != Some(true),
        forall|j: int| 0 <= j < k ==> leaves[j] == Some(true),
    ensures
        requirements_check(leaves, i) == requirements_check(leaves, k),
    decreases k - i,
{
    if i < k {
        lemma_requirements_first_failure(leaves, i + 1, k);
    }
}

/// An SPDX expression whose every requirement names an OSI-approved SPDX
/// license is accepted.
pub proof fn lemma_license_all_approved(s: Seq<char>)
    requires
        spdx_parse(s) is Ok,
        forall|j: int|
            0 <= j < leaves_of(spdx_parse(s)->Ok_0).len() ==> leaves_of(spdx_parse(s)->Ok_0)[j]
                == Some(true),
    ensures
        license_check(s) == Ok::<Expression, ParseLicenseError>(spdx_parse(s)->Ok_0),
{
    lemma_requirements_all_approved(leaves_of(spdx_parse(s)->Ok_0), 0);
}

/// An SPDX expression with a license reference among its requirements is
/// rejected as containing a referencer, when no requirement before it names
/// a license that is not OSI-approved.
pub proof fn lemma_license_referencer(s: Seq<char>, k: int)
    requires
        spdx_parse(s) is Ok,
        0 <= k < leaves_of(spdx_parse(s)->Ok_0).len(),
        leaves_of(spdx_parse(s)->Ok_0)[k] is None,
        forall|j: int| 0 <= j < k ==> leaves_of(spdx_parse(s)->Ok_0)[j] == Some(true),
    ensures
        license_check(s) == Err::<Expression, ParseLicenseError>(
            ParseLicenseError::ContainsReferencer,
        ),
{
    lemma_requirements_first_failure(leaves_of(spdx_parse(s)->Ok_0), 0, k);
}

/// An SPDX expression with a license that is not OSI-approved among its
/// requirements is rejected for that, when no requirement before it is a
/// license reference.
pub proof fn lemma_license_not_approved(s: Seq<char>, k: int)
    requires
        spdx_parse(s) is Ok,
        0 <= k < leaves_of(spdx_parse(s)->Ok_0).len(),
        leaves_of(spdx_parse(s)->Ok_0)[k] == Some(false),
        forall|j: int| 0 <= j < k ==> leaves_of(spdx_parse(s)->Ok_0)[j] == Some(true),
    ensures
        license_check(s) == Err::<Expression, ParseLicenseError>(
            ParseLicenseError::NotOSIApproved,
        ),
{
    lemma_requirements_first_failure(leaves_of(spdx_parse(s)->Ok_0), 0, k);
}

} // verus!

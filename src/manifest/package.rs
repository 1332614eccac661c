//! Typst package metadata.

use super::author::Author;
use super::categories::Category;
use super::disciplines::Discipline;
use super::ident::Ident;
use super::license::License;
use super::website::Website;
use semver::Version;
use std::collections::HashSet;
use std::path::PathBuf;
use vstd::prelude::*;

verus! {

#[verifier::external_type_specification]
#[verifier::external_body]
pub struct ExVersion(Version);

/// The `package` key in the manifest, storing a package's metadata. Each
/// field holds a value that its own grammar accepted; the fields are not
/// checked against each other.
#[derive(Debug)]
pub struct Package {
    /// The name of the package.
    pub name: Ident,
    /// The current version of the package.
    pub version: Version,
    /// The primary module of the package.
    pub entrypoint: PathBuf,
    /// The authors of the package.
    pub authors: HashSet<Author>,
    /// The license expression for the package.
    pub license: License,
    /// The description of the package.
    pub description: String,
    /// The homepage URL of the package.
    pub homepage: Option<Website>,
    /// The repository URL of the package.
    pub repository: Option<Website>,
    /// The keywords for the package.
    pub keywords: HashSet<String>,
    /// The categories for the package.
    pub categories: HashSet<Category>,
    /// The disciplines for the package.
    pub disciplines: HashSet<Discipline>,
    /// The minimum compiler version for the package.
    pub compiler: Option<Version>,
    /// The excluded paths of this package. These paths are ignored by the
    /// package manager's bundler.
    pub exclude: HashSet<PathBuf>,
}

} // verus!

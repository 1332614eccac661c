//! Typst template metadata.

use std::path::PathBuf;
use vstd::prelude::*;

verus! {

#[verifier::external_type_specification]
#[verifier::external_body]
pub struct ExPathBuf(PathBuf);

/// The `template` key in the manifest, storing a template's metadata: where
/// the files to copy into a new project are, which of them is compiled, and
/// a thumbnail.
#[derive(Debug)]
pub struct Template {
    /// A path relative to the package's root which points to a directory that
    /// contains the files which should be copied into the user's new project
    /// directory.
    pub path: PathBuf,
    /// A path relative to the template's path that points to the file serving
    /// as the compilation target.
    pub entrypoint: PathBuf,
    /// A path relative to the package's root that points to a PNG or lossless
    /// WebP thumbnail for the template.
    pub thumbnail: PathBuf,
}

} // verus!

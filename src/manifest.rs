//! The typst.toml manifest: its fields and the grammars they follow.

pub mod author;
pub mod categories;
pub mod disciplines;
pub mod ident;
pub mod license;
pub mod package;
pub mod template;
pub mod website;

use self::package::Package;
use self::template::Template;
use vstd::prelude::*;

verus! {

#[verifier::external_type_specification]
#[verifier::external_body]
#[verifier::reject_recursive_types(K)]
#[verifier::reject_recursive_types(V)]
pub struct ExTomlMap<K, V>(toml::map::Map<K, V>);

#[verifier::external_type_specification]
#[verifier::external_body]
pub struct ExTomlValue(toml::Value);

/// The `tool` key of a manifest: configuration of third-party tools, one
/// table for each tool, passed through as it was read.
#[derive(Debug)]
pub struct Tool {
    pub sections: toml::Table,
}

/// A typst.toml manifest.
#[derive(Debug)]
pub struct Manifest {
    /// The `package` key, storing a package's metadata.
    pub package: Package,
    /// The `template` key, storing a package's template metadata.
    pub template: Option<Template>,
    /// The `tool` key, storing third-party configuration.
    pub tool: Option<Tool>,
}

impl Manifest {
    /// A manifest of a package that is no template.
    pub fn package(package: Package) -> (r: Manifest)
        ensures
            r.package == package,
            r.template is None,
            r.tool is None,
    {
        Manifest { package, template: None, tool: None }
    }

    /// A manifest of a template package.
    pub fn template(package: Package, template: Template) -> (r: Manifest)
        ensures
            r.package == package,
            r.template == Some(template),
            r.tool is None,
    {
        Manifest { package, template: Some(template), tool: None }
    }
}

} // verus!

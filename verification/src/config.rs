use vstd::prelude::*;
use crate::manifest::MetaValue;
use crate::metadata::{PackageMetadata, Resource, ResourceView};
use crate::paths::{lemma_resolve_yields_absolute, resolve_path, spec_is_absolute, spec_resolve};

verus! {

/// How much the packaging backend is asked to log.
#[derive(Debug, Clone, Copy, PartialEq, Eq)]
pub enum LogLevel {
    Error,
    Warn,
    Info,
    Debug,
    Trace,
}

/// A binary to package: the path of the compiled executable and whether it
/// is the primary entry point.
#[derive(Debug, Clone, PartialEq)]
pub struct Binary {
    pub path: String,
    pub main: bool,
}

/// The packaging configuration handed to the packaging backend: product
/// name, identifier, version, the binaries, the output directory, the log
/// verbosity, the command run before packaging, and the optional resolved
/// resource list, icon list and installer block.
#[derive(Debug, PartialEq)]
pub struct PackConfig {
    pub product_name: String,
    pub identifier: String,
    pub version: String,
    pub binaries: Vec<Binary>,
    pub out_dir: String,
    pub log_level: LogLevel,
    pub before_packaging_command: String,
    pub resources: Option<Vec<Resource>>,
    pub icons: Option<Vec<String>>,
    pub nsis: Option<MetaValue>,
}

/// A resource with each of its paths resolved against the package
/// directory.
pub open spec fn spec_resolve_resource(dir: Seq<char>, r: ResourceView) -> ResourceView {
    match r {
        ResourceView::Single { path } => ResourceView::Single { path: spec_resolve(dir, path) },
        ResourceView::Mapped { src, target } => ResourceView::Mapped {
            src: spec_resolve(dir, src),
            target: spec_resolve(dir, target),
        },
    }
}

/// Law: every path of a resource resolved against an absolute package
/// directory is itself absolute.
pub proof fn lemma_resolved_resource_absolute(dir: Seq<char>, r: ResourceView)
    requires
        spec_is_absolute(dir),
    ensures
        match spec_resolve_resource(dir, r) {
            ResourceView::Single { path } => spec_is_absolute(path),
            ResourceView::Mapped { src, target } => spec_is_absolute(src) && spec_is_absolute(
                target,
            ),
        },
{
    match r {
        ResourceView::Single { path } => lemma_resolve_yields_absolute(dir, path),
        ResourceView::Mapped { src, target } => {
            lemma_resolve_yields_absolute(dir, src);
            lemma_resolve_yields_absolute(dir, target);
        },
    }
}

/// Resolve every path a resource names against the package directory.
pub fn resolve_resource(dir: &str, r: &Resource) -> (out: Resource)
    ensures
        out@ == spec_resolve_resource(dir@, r@),
{
    match r {
        Resource::Single { path } => Resource::Single { path: resolve_path(dir, path.as_str()) },
        Resource::Mapped { src, target } => Resource::Mapped {
            src: resolve_path(dir, src.as_str()),
            target: resolve_path(dir, target.as_str()),
        },
    }
}

/// Resolve a whole resource list against the package directory.
pub fn resolve_resources(dir: &str, rs: &Vec<Resource>) -> (out: Vec<Resource>)
    ensures
        out@.len() == rs@.len(),
        forall|i: int|
            0 <= i < rs@.len() ==> (#[trigger] out@[i])@ == spec_resolve_resource(dir@, rs@[i]@),
{
    let mut out: Vec<Resource> = Vec::new();
    let mut idx: usize = 0;
    while idx < rs.len()
        invariant
            idx <= rs@.len(),
            out@.len() == idx,
            forall|j: int|
                0 <= j < idx ==> (#[trigger] out@[j])@ == spec_resolve_resource(dir@, rs@[j]@),
        decreases rs@.len() - idx,
    {
        let resolved = resolve_resource(dir, &rs[idx]);
        out.push(resolved);
        idx += 1;
    }
    out
}

/// Resolve a whole list of paths against the package directory.
pub fn resolve_paths(dir: &str, ps: &Vec<String>) -> (out: Vec<String>)
    ensures
        out@.len() == ps@.len(),
        forall|i: int|
            0 <= i < ps@.len() ==> (#[trigger] out@[i])@ == spec_resolve(dir@, ps@[i]@),
{
    let mut out: Vec<String> = Vec::new();
    let mut idx: usize = 0;
    while idx < ps.len()
        invariant
            idx <= ps@.len(),
            out@.len() == idx,
            forall|j: int| 0 <= j < idx ==> (#[trigger] out@[j])@ == spec_resolve(dir@, ps@[j]@),
        decreases ps@.len() - idx,
    {
        let resolved = resolve_path(dir, ps[idx].as_str());
        out.push(resolved);
        idx += 1;
    }
    out
}

/// Assemble the packaging configuration from the extracted metadata
/// record, the package version, the path of the built binary, the output
/// directory and the package directory. The one binary is marked as the
/// main entry point, the backend is asked for its most verbose logging,
/// a release build is run before packaging, and every resource and icon
/// path is resolved against the package directory.
pub fn build_pack_config(
    metadata: PackageMetadata,
    version: String,
    bin_path: String,
    out_dir: String,
    app_dir: &str,
) -> (c: PackConfig)
    ensures
        c.product_name == metadata.product_name,
        c.identifier == metadata.identifier,
        c.version == version,
        c.out_dir == out_dir,
        c.log_level is Trace,
        c.before_packaging_command@ == "cargo build --release"@,
        c.binaries@.len() == 1,
        c.binaries@[0].path == bin_path,
        c.binaries@[0].main == true,
        match metadata.resources {
            None => c.resources is None,
            Some(rs) => c.resources matches Some(out) && out@.len() == rs@.len() && (forall|i: int|
                0 <= i < rs@.len() ==> (#[trigger] out@[i])@ == spec_resolve_resource(
                    app_dir@,
                    rs@[i]@,
                )),
        },
        match metadata.icons {
            None => c.icons is None,
            Some(ps) => c.icons matches Some(out) && out@.len() == ps@.len() && (forall|i: int|
                0 <= i < ps@.len() ==> (#[trigger] out@[i])@ == spec_resolve(app_dir@, ps@[i]@)),
        },
        c.nsis == metadata.nsis,
{
    let resources = match &metadata.resources {
        Some(rs) => Some(resolve_resources(app_dir, rs)),
        None => None,
    };
    let icons = match &metadata.icons {
        Some(ps) => Some(resolve_paths(app_dir, ps)),
        None => None,
    };
    let mut binaries: Vec<Binary> = Vec::new();
    binaries.push(Binary { path: bin_path, main: true });
    PackConfig {
        product_name: metadata.product_name,
        identifier: metadata.identifier,
        version,
        binaries,
        out_dir,
        log_level: LogLevel::Trace,
        before_packaging_command: String::from_str("cargo build --release"),
        resources,
        icons,
        nsis: metadata.nsis,
    }
}

} // verus!

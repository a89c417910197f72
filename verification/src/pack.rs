use vstd::prelude::*;
use vstd::pervasive::unreached;
use crate::config::{build_pack_config, spec_resolve_resource, PackConfig};
use crate::error::PackError;
use crate::manifest::{
    spec_first_bin_name, spec_manifest_metadata, spec_manifest_ready, spec_manifest_version,
    ManifestModel,
};
use crate::metadata::{
    extract_metadata, icon_of_meta, meta_icons, meta_identifier, meta_nsis, meta_product_name,
    meta_resources, meta_wf, resource_of_meta,
};
use crate::paths::{resolve_path, spec_resolve};

verus! {

/// The arguments of the pack subcommand: an optional output directory
/// override.
#[derive(Debug, Clone, PartialEq)]
pub struct PackArgs {
    pub out_dir: Option<String>,
}

/// A workspace member: its package name and the directory holding its
/// manifest.
#[derive(Debug, Clone, PartialEq)]
pub struct Member {
    pub name: String,
    pub manifest_dir: String,
}

/// What the workspace loader reports: the workspace root, the target
/// directory, and the default members in order.
#[derive(Debug, Clone, PartialEq)]
pub struct WorkspaceInfo {
    pub workspace_root: String,
    pub target_directory: String,
    pub default_members: Vec<Member>,
}

/// The package that a workspace-wide command works on: the first default
/// member. A workspace without default members has no buildable package
/// and is an error.
pub fn select_default_member<'a>(ws: &'a WorkspaceInfo) -> (r: Result<&'a Member, PackError>)
    ensures
        r is Ok <==> ws.default_members@.len() > 0,
        r matches Ok(m) ==> *m == ws.default_members@[0],
        r matches Err(e) ==> e is NoDefaultMember,
{
    if ws.default_members.len() == 0 {
        Err(PackError::NoDefaultMember)
    } else {
        Ok(&ws.default_members[0])
    }
}

/// The pack command's wording for a planning failure: a workspace without
/// a buildable package is reported as the missing app package; every
/// other error keeps its own message.
pub fn pack_error_message(e: &PackError) -> (r: String)
    ensures
        e is NoDefaultMember ==> r@ == "app package not found"@,
        !(e is NoDefaultMember) ==> r@ == crate::error::spec_message(*e),
{
    match e {
        PackError::NoDefaultMember => String::from_str("app package not found"),
        _ => e.message(),
    }
}

/// The file name of a built binary: the target name, with the platform's
/// executable suffix where the platform uses one.
pub open spec fn spec_bin_file_name(name: Seq<char>, exe_suffix: bool) -> Seq<char> {
    if exe_suffix {
        name + ".exe"@
    } else {
        name
    }
}

/// Append the platform's executable suffix to a binary name when the
/// platform uses one.
pub fn bin_file_name(name: &str, exe_suffix: bool) -> (r: String)
    ensures
        r@ == spec_bin_file_name(name@, exe_suffix),
{
    if exe_suffix {
        String::from_str(name).concat(".exe")
    } else {
        String::from_str(name)
    }
}

/// Plan a pack invocation: from the pack arguments, the workspace's root
/// and target directory, the package directory of the selected member and
/// its parsed manifest, produce the packaging configuration, or the error
/// that stops it.
///
/// The binary to package is the manifest's first binary entry; a manifest
/// without a named binary entry is refused rather than packaged with a
/// malformed binary path. Its compiled form is looked for in the release
/// directory under the workspace's target directory. The metadata record
/// is extracted strictly from the package's metadata block. Without an
/// output directory override, the artifact is placed in `dist` under the
/// workspace root.
pub fn plan_pack(
    args: &PackArgs,
    workspace_root: &str,
    target_directory: &str,
    app_dir: &str,
    manifest: ManifestModel,
    exe_suffix: bool,
) -> (r: Result<PackConfig, PackError>)
    requires
        spec_manifest_ready(manifest),
    ensures
        r is Ok <==> (spec_first_bin_name(manifest) is Some && meta_wf(
            spec_manifest_metadata(manifest),
        )),
        spec_first_bin_name(manifest) is None ==> (r matches Err(e) && e is NoBinary),
        (spec_first_bin_name(manifest) is Some && !meta_wf(spec_manifest_metadata(manifest)))
            ==> (r matches Err(e) && e is Schema),
        r matches Ok(c) ==> ({
            let meta = spec_manifest_metadata(manifest);
            &&& c.product_name@ == meta_product_name(meta)
            &&& c.identifier@ == meta_identifier(meta)
            &&& c.version@ == spec_manifest_version(manifest)
            &&& c.binaries@.len() == 1
            &&& c.binaries@[0].main == true
            &&& (spec_first_bin_name(manifest) matches Some(bn) && c.binaries@[0].path@
                == spec_resolve(
                spec_resolve(target_directory@, "release"@),
                spec_bin_file_name(bn, exe_suffix),
            ))
            &&& (match args.out_dir {
                Some(d) => c.out_dir@ == d@,
                None => c.out_dir@ == spec_resolve(workspace_root@, "dist"@),
            })
            &&& (match meta_resources(meta) {
                None => c.resources is None,
                Some(items) => c.resources matches Some(rs) && rs@.len() == items.len() && (
                forall|i: int|
                    0 <= i < items.len() ==> (#[trigger] rs@[i])@ == spec_resolve_resource(
                        app_dir@,
                        resource_of_meta(items[i]),
                    )),
            })
            &&& (match meta_icons(meta) {
                None => c.icons is None,
                Some(items) => c.icons matches Some(ps) && ps@.len() == items.len() && (
                forall|i: int|
                    0 <= i < items.len() ==> (#[trigger] ps@[i])@ == spec_resolve(
                        app_dir@,
                        icon_of_meta(items[i]),
                    )),
            })
            &&& c.nsis == meta_nsis(meta)
            &&& c.log_level is Trace
            &&& c.before_packaging_command@ == "cargo build --release"@
        }),
{
    let dist_dir = resolve_path(target_directory, "release");
    let binary_name = if manifest.bins.len() == 0 {
        return Err(PackError::NoBinary);
    } else {
        match &manifest.bins[0].name {
            Some(n) => n.clone(),
            None => return Err(PackError::NoBinary),
        }
    };
    let bin_file = bin_file_name(binary_name.as_str(), exe_suffix);
    let bin_path = resolve_path(dist_dir.as_str(), bin_file.as_str());
    let package = match manifest.package {
        Some(p) => p,
        None => unreached(),
    };
    let version = match package.version {
        Some(v) => v,
        None => unreached(),
    };
    let meta = match package.metadata {
        Some(m) => m,
        None => unreached(),
    };
    let metadata = match extract_metadata(meta) {
        Ok(m) => m,
        Err(e) => return Err(e),
    };
    let out_dir = match &args.out_dir {
        Some(d) => d.clone(),
        None => resolve_path(workspace_root, "dist"),
    };
    Ok(build_pack_config(metadata, version, bin_path, out_dir, app_dir))
}

} // verus!

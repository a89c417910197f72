use xtask::build_task::{build_command_args, build_outcome, BuildArgs};
use xtask::config::{build_pack_config, LogLevel};
use xtask::error::PackError;
use xtask::manifest::{BinEntry, ManifestModel, MetaValue, PackageModel};
use xtask::metadata::{PackageMetadata, Resource};
use xtask::pack::{
    bin_file_name, pack_error_message, plan_pack, select_default_member, Member, PackArgs,
    WorkspaceInfo,
};
use xtask::single_instance::handle_single_instance;

fn s(x: &str) -> String {
    String::from(x)
}

fn str_value(x: &str) -> MetaValue {
    MetaValue::Str { value: s(x) }
}

fn app_metadata() -> MetaValue {
    MetaValue::Table {
        entries: vec![
            (s("identifier"), str_value("com.example.app")),
            (s("product-name"), str_value("Example App")),
        ],
    }
}

fn app_manifest(metadata: MetaValue) -> ManifestModel {
    ManifestModel {
        package: Some(PackageModel {
            name: s("app"),
            version: Some(s("0.1.0")),
            metadata: Some(metadata),
        }),
        bins: vec![BinEntry { name: Some(s("app")) }],
    }
}

fn workspace() -> WorkspaceInfo {
    WorkspaceInfo {
        workspace_root: s("/ws"),
        target_directory: s("/ws/target"),
        default_members: vec![Member { name: s("app"), manifest_dir: s("/ws/app") }],
    }
}

#[test]
fn pack_without_out_dir_flag_targets_dist_under_workspace_root() {
    let ws = workspace();
    let member = select_default_member(&ws).unwrap();
    let args = PackArgs { out_dir: None };
    let config = plan_pack(
        &args,
        &ws.workspace_root,
        &ws.target_directory,
        &member.manifest_dir,
        app_manifest(app_metadata()),
        false,
    )
    .unwrap();
    assert_eq!(config.out_dir, "/ws/dist");
    assert_eq!(config.version, "0.1.0");
    assert_eq!(config.identifier, "com.example.app");
    assert_eq!(config.product_name, "Example App");
    assert_eq!(config.binaries.len(), 1);
    assert_eq!(config.binaries[0].path, "/ws/target/release/app");
    assert!(config.binaries[0].main);
    assert_eq!(config.log_level, LogLevel::Trace);
    assert_eq!(config.before_packaging_command, "cargo build --release");
}

#[test]
fn pack_with_out_dir_flag_uses_the_override() {
    let ws = workspace();
    let args = PackArgs { out_dir: Some(s("/custom/out")) };
    let config = plan_pack(
        &args,
        &ws.workspace_root,
        &ws.target_directory,
        "/ws/app",
        app_manifest(app_metadata()),
        false,
    )
    .unwrap();
    assert_eq!(config.out_dir, "/custom/out");
}

#[test]
fn pack_with_executable_suffix_appends_it() {
    let ws = workspace();
    let args = PackArgs { out_dir: None };
    let config = plan_pack(
        &args,
        &ws.workspace_root,
        &ws.target_directory,
        "/ws/app",
        app_manifest(app_metadata()),
        true,
    )
    .unwrap();
    assert_eq!(config.binaries[0].path, "/ws/target/release/app.exe");
}

#[test]
fn pack_without_binary_entries_fails() {
    let ws = workspace();
    let args = PackArgs { out_dir: None };
    let mut manifest = app_manifest(app_metadata());
    manifest.bins = vec![];
    let r = plan_pack(&args, &ws.workspace_root, &ws.target_directory, "/ws/app", manifest, false);
    assert!(matches!(r, Err(PackError::NoBinary)));
}

#[test]
fn pack_with_unnamed_binary_entry_fails() {
    let ws = workspace();
    let args = PackArgs { out_dir: None };
    let mut manifest = app_manifest(app_metadata());
    manifest.bins = vec![BinEntry { name: None }];
    let r = plan_pack(&args, &ws.workspace_root, &ws.target_directory, "/ws/app", manifest, false);
    assert!(matches!(r, Err(PackError::NoBinary)));
}

#[test]
fn pack_with_malformed_metadata_fails_with_schema_error() {
    let ws = workspace();
    let args = PackArgs { out_dir: None };
    let meta = MetaValue::Table {
        entries: vec![(s("product-name"), str_value("Example App"))],
    };
    let r = plan_pack(
        &args,
        &ws.workspace_root,
        &ws.target_directory,
        "/ws/app",
        app_manifest(meta),
        false,
    );
    assert!(matches!(r, Err(PackError::Schema { .. })));
}

#[test]
fn pack_resolves_resources_and_icons_against_the_package_directory() {
    let ws = workspace();
    let args = PackArgs { out_dir: None };
    let meta = MetaValue::Table {
        entries: vec![
            (s("identifier"), str_value("com.example.app")),
            (s("product-name"), str_value("Example App")),
            (
                s("resources"),
                MetaValue::Array { items: vec![str_value("a.txt"), str_value("/abs/b.txt")] },
            ),
            (s("icons"), MetaValue::Array { items: vec![str_value("icon.ico")] }),
        ],
    };
    let config = plan_pack(
        &args,
        &ws.workspace_root,
        &ws.target_directory,
        "/ws/app",
        app_manifest(meta),
        false,
    )
    .unwrap();
    assert_eq!(
        config.resources.unwrap(),
        vec![
            Resource::Single { path: s("/ws/app/a.txt") },
            Resource::Single { path: s("/abs/b.txt") },
        ]
    );
    assert_eq!(config.icons.unwrap(), vec![s("/ws/app/icon.ico")]);
}

#[test]
fn config_from_one_resource_and_one_icon_has_one_of_each_both_absolute() {
    let metadata = PackageMetadata {
        identifier: s("com.example.app"),
        product_name: s("Example App"),
        resources: Some(vec![Resource::Single { path: s("a.txt") }]),
        icons: Some(vec![s("icon.ico")]),
        nsis: None,
    };
    let config = build_pack_config(
        metadata,
        s("0.1.0"),
        s("/ws/target/release/app"),
        s("/ws/dist"),
        "/pkg",
    );
    let resources = config.resources.unwrap();
    assert_eq!(resources.len(), 1);
    assert_eq!(resources[0], Resource::Single { path: s("/pkg/a.txt") });
    let icons = config.icons.unwrap();
    assert_eq!(icons.len(), 1);
    assert_eq!(icons[0], "/pkg/icon.ico");
    assert!(icons[0].starts_with('/'));
    match &resources[0] {
        Resource::Single { path } => assert!(path.starts_with('/')),
        Resource::Mapped { .. } => panic!("expected a single resource"),
    }
}

#[test]
fn mapped_resource_paths_are_both_resolved() {
    let metadata = PackageMetadata {
        identifier: s("com.example.app"),
        product_name: s("Example App"),
        resources: Some(vec![Resource::Mapped { src: s("in.bin"), target: s("out.bin") }]),
        icons: None,
        nsis: None,
    };
    let config = build_pack_config(metadata, s("0.1.0"), s("/bin/app"), s("/dist"), "/pkg");
    assert_eq!(
        config.resources.unwrap(),
        vec![Resource::Mapped { src: s("/pkg/in.bin"), target: s("/pkg/out.bin") }]
    );
}

#[test]
fn select_default_member_requires_one() {
    let mut ws = workspace();
    assert_eq!(select_default_member(&ws).unwrap().name, "app");
    ws.default_members = vec![];
    assert!(matches!(select_default_member(&ws), Err(PackError::NoDefaultMember)));
}

#[test]
fn bin_file_name_appends_suffix_only_when_asked() {
    assert_eq!(bin_file_name("app", false), "app");
    assert_eq!(bin_file_name("app", true), "app.exe");
}

#[test]
fn build_command_lists_arguments_in_order() {
    let args = BuildArgs { release: false, additional_args: vec![] };
    assert_eq!(build_command_args(&args, "app"), vec![s("build"), s("--package"), s("app")]);
    let args = BuildArgs { release: true, additional_args: vec![s("--verbose"), s("-j2")] };
    assert_eq!(
        build_command_args(&args, "app"),
        vec![s("build"), s("--package"), s("app"), s("--release"), s("--verbose"), s("-j2")]
    );
}

#[test]
fn failed_build_reports_the_exit_code_and_no_success_message() {
    let r = build_outcome(false, Some(1));
    match r {
        Err(PackError::BuildFailed { code }) => {
            assert_eq!(code, Some(1));
        }
        other => panic!("expected a build failure, got {:?}", other),
    }
    let e = PackError::BuildFailed { code: Some(1) };
    assert_eq!(e.exit_code(), Some(1));
    assert_ne!(e.message(), "Build completed successfully!");
}

#[test]
fn successful_build_reports_the_success_message() {
    assert_eq!(build_outcome(true, None).unwrap(), "Build completed successfully!");
}

#[test]
fn error_messages_name_their_kind() {
    assert_eq!(PackError::NoDefaultMember.message(), "No default members found in workspace");
    assert_eq!(PackError::NoBinary.message(), "no binary entry found in the package manifest");
    assert_eq!(
        PackError::Schema { detail: s("x") }.message(),
        "failed to deserialize package metadata"
    );
    assert_eq!(PackError::Parse { detail: s("x") }.message(), "failed to read the project manifest");
    assert_eq!(PackError::Packaging { detail: s("x") }.message(), "failed to package");
    assert_eq!(PackError::BuildFailed { code: None }.message(), "Build failed");
    assert_eq!(PackError::BuildFailed { code: None }.exit_code(), None);
    assert_eq!(PackError::NoBinary.exit_code(), None);
}

#[test]
fn pack_command_words_a_missing_member_as_a_missing_app_package() {
    assert_eq!(pack_error_message(&PackError::NoDefaultMember), "app package not found");
    assert_eq!(pack_error_message(&PackError::NoBinary), PackError::NoBinary.message());
    assert_eq!(
        pack_error_message(&PackError::Schema { detail: s("x") }),
        "failed to deserialize package metadata"
    );
}

#[test]
fn second_instance_backs_off() {
    assert!(handle_single_instance(true));
    assert!(!handle_single_instance(false));
}

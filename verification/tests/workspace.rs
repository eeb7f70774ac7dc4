use vapor_sdk_core::toolchain::{
    toolchain_status, ToolchainComponent, ToolchainInstallState, ToolchainPin,
    ToolchainProbes, ToolchainStatus, VaporHomeSource,
};
use vapor_sdk_core::workspace::{
    alias_script, cargo_args, cargo_env, cargo_invocation, check_built_executable,
    check_deploy_build, checked_toolchain_status, deploy_build_args, deploy_layout, deploy_target,
    legacy_alias_path, locate_workspace_root, relative_alias_target, require_current_repo_kind,
    status_probe_paths, sync_item_changes, temporary_destination, vapor_path_variable,
    workspace_sync_changes,
    workspace_cargo_report, workspace_deploy_report, workspace_identity, workspace_manifest_candidates,
    workspace_search_directories, workspace_search_start, workspace_status, workspace_sync,
    workspace_sync_plan, SyncItem, WorkspaceCommand, WorkspaceCommandError, WorkspaceIdentity,
    ACTIVATION_SCRIPT_TEXT, ANCHOR_CARGO_TOML, ANCHOR_LIB_RS, MANAGED_CARGO_WORKSPACE,
};
use vapor_sdk_core::{GlobalOptions, ProcessExit};

fn identity(kind: Option<&str>) -> WorkspaceIdentity {
    WorkspaceIdentity {
        invocation_directory: "/work/repo/crates".to_owned(),
        workspace_root: "/work/repo".to_owned(),
        kind: kind.map(str::to_owned),
        id: Some("repo".to_owned()),
    }
}

fn toolchain(host_supported_host: &str, cargo: bool) -> ToolchainStatus {
    toolchain_status(
        ToolchainPin {
            identifier: "1.87.0".to_owned(),
            channel: "stable".to_owned(),
            date: "2025-05-15".to_owned(),
            supported_host_triples: vec!["x86_64-unknown-linux-gnu".to_owned()],
            supported_target_triples: vec![],
            required_components: vec![ToolchainComponent::Cargo],
        },
        host_supported_host.to_owned(),
        host_supported_host == "x86_64-unknown-linux-gnu",
        VaporHomeSource::Environment,
        "/opt/vapor".to_owned(),
        ToolchainProbes {
            path_entries: vec!["/usr/bin".to_owned()],
            rustup_present: vec![false, true],
            toolchain_root_exists: true,
            cargo_exists: cargo,
            rustc_exists: true,
        },
    )
}

fn exit(success: bool) -> ProcessExit {
    ProcessExit {
        success,
        code: Some(if success { 0 } else { 101 }),
        description: if success { "exit status: 0".to_owned() } else { "exit status: 101".to_owned() },
    }
}

#[test]
fn search_start_follows_workspace_option() {
    let mut globals = GlobalOptions::default();
    assert_eq!(workspace_search_start("/work", &globals), "/work");
    globals.workspace = Some("repo".to_owned());
    assert_eq!(workspace_search_start("/work", &globals), "/work/repo");
    globals.workspace = Some("/elsewhere".to_owned());
    assert_eq!(workspace_search_start("/work", &globals), "/elsewhere");
}

#[test]
fn search_walks_up_to_root() {
    assert_eq!(workspace_search_directories("/work/repo/crates"), vec!["/work/repo/crates", "/work/repo", "/work", "/"]);
    assert_eq!(workspace_search_directories("repo/x"), vec!["repo/x", "repo", ""]);
    let dirs = workspace_search_directories("/a/b");
    assert_eq!(workspace_manifest_candidates(&dirs), vec!["/a/b/Vapor.toml", "/a/Vapor.toml", "/Vapor.toml"]);
}

#[test]
fn locate_picks_nearest_manifest() {
    let dirs = workspace_search_directories("/work/repo/crates");
    assert_eq!(locate_workspace_root("/work/repo/crates", &dirs, &vec![false, true, true, false]), Ok("/work/repo".to_owned()));
    let missing = locate_workspace_root("/work/repo/crates", &dirs, &vec![false; 4]).unwrap_err();
    assert_eq!(missing, WorkspaceCommandError::MissingWorkspaceManifest("/work/repo/crates".to_owned()));
    assert_eq!(missing.message(), "missing workspace manifest `/work/repo/crates`");
}

#[test]
fn identity_reads_manifest() {
    let text = "[workspace]\nkind = \"custom-content\"\nid = \"demo\"\n";
    let found = workspace_identity("/w".to_owned(), "/w".to_owned(), text).unwrap();
    assert_eq!(found.kind, Some("custom-content".to_owned()));
    assert_eq!(found.id, Some("demo".to_owned()));

    let empty = workspace_identity("/w".to_owned(), "/w".to_owned(), "name = 1\n").unwrap();
    assert_eq!(empty.kind, None);
    assert_eq!(empty.id, None);

    let not_text = workspace_identity("/w".to_owned(), "/w".to_owned(), "[workspace]\nkind = 3\n").unwrap();
    assert_eq!(not_text.kind, None);

    let broken = workspace_identity("/w".to_owned(), "/w".to_owned(), "[workspace\n").unwrap_err();
    match broken {
        WorkspaceCommandError::ManifestToml(message) => assert!(!message.is_empty()),
        other => panic!("unexpected {other:?}"),
    }
}

#[test]
fn kind_checks() {
    assert_eq!(require_current_repo_kind(identity(Some("sdk")), "sdk"), Ok(identity(Some("sdk"))));
    let wrong = require_current_repo_kind(identity(None), "custom-content").unwrap_err();
    assert_eq!(wrong.message(), "workspace kind must be `custom-content`, found `none`");
}

#[test]
fn status_and_sync() {
    assert_eq!(
        status_probe_paths("/work/repo"),
        ("/work/repo/Cargo.toml".to_owned(), "/work/repo/crates".to_owned())
    );
    let status = workspace_status(identity(Some("custom-content")), true, false);
    assert!(status.cargo_manifest_exists);
    assert!(!status.crates_dir_exists);

    let (_, items) = workspace_sync_plan(identity(Some("custom-content"))).unwrap();
    assert_eq!(
        items,
        vec![
            SyncItem::File { path: "/work/repo/Cargo.toml".to_owned(), content: MANAGED_CARGO_WORKSPACE },
            SyncItem::Directory { path: "/work/repo/crates".to_owned() },
            SyncItem::Directory { path: "/work/repo/crates/workspace_anchor/src".to_owned() },
            SyncItem::File {
                path: "/work/repo/crates/workspace_anchor/Cargo.toml".to_owned(),
                content: ANCHOR_CARGO_TOML,
            },
            SyncItem::File {
                path: "/work/repo/crates/workspace_anchor/src/lib.rs".to_owned(),
                content: ANCHOR_LIB_RS,
            },
        ]
    );
    let wrong = workspace_sync_plan(identity(Some("sdk"))).unwrap_err();
    assert_eq!(wrong.message(), "workspace kind must be `custom-content`, found `sdk`");

    let mut current = vec![None; 5];
    current[0] = Some(MANAGED_CARGO_WORKSPACE.to_owned());
    current[3] = Some(ANCHOR_CARGO_TOML.to_owned());
    current[4] = Some(ANCHOR_LIB_RS.to_owned());
    let report = workspace_sync(status.clone(), &items, &vec![true, false, true, true, true], &current);
    assert_eq!(report.status, status);
    assert_eq!(report.changed_paths, vec!["/work/repo/crates"]);
}

#[test]
fn sync_settles_after_one_run() {
    let (_, items) = workspace_sync_plan(identity(Some("custom-content"))).unwrap();
    for item in &items {
        assert!(sync_item_changes(item, false, &None));
        let settled = match item {
            SyncItem::File { content, .. } => Some((*content).to_owned()),
            SyncItem::Directory { .. } => None,
        };
        assert!(!sync_item_changes(item, true, &settled));
    }
    assert!(sync_item_changes(&items[0], true, &Some("[workspace]\n".to_owned())));
}

#[test]
fn toolchain_gate_for_workspace_commands() {
    let unsupported = checked_toolchain_status(toolchain("aarch64-apple-darwin", true)).unwrap_err();
    assert_eq!(
        unsupported.message(),
        "host triple `aarch64-apple-darwin` is not supported by this Vapor toolchain pin"
    );
    let broken = checked_toolchain_status(toolchain("x86_64-unknown-linux-gnu", false)).unwrap_err();
    assert_eq!(
        broken,
        WorkspaceCommandError::ToolchainNotInstalled(ToolchainInstallState::Broken {
            reason: "missing cargo".to_owned()
        })
    );
    assert_eq!(broken.message(), "Vapor toolchain is not installed: broken");
    assert!(checked_toolchain_status(toolchain("x86_64-unknown-linux-gnu", true)).is_ok());
}

#[test]
fn cargo_runs_with_vapor_state() {
    let status = toolchain("x86_64-unknown-linux-gnu", true);
    assert_eq!(cargo_args(WorkspaceCommand::Check), vec!["check", "--workspace"]);
    assert_eq!(cargo_args(WorkspaceCommand::Fmt), vec!["fmt"]);
    assert_eq!(cargo_args(WorkspaceCommand::Build), vec!["build", "--workspace"]);
    let invocation = cargo_invocation(&status, "/work/repo", cargo_args(WorkspaceCommand::Check));
    assert_eq!(invocation.cargo_path, "/opt/vapor/toolchain/active/bin/cargo");
    assert_eq!(invocation.cargo_home, "/opt/vapor/cargo-home");
    assert_eq!(invocation.cargo_home, status.cargo_home);
    assert_eq!(invocation.target_dir, "/opt/vapor/output/cargo-target");
    assert_eq!(invocation.path_prefix, "/opt/vapor/toolchain/active/bin");
    assert_eq!(invocation.rustc_path, status.rustc_path);
    let environment = vapor_sdk_core::environment_status(&status.vapor_home);
    assert_eq!(environment.cargo_home, invocation.cargo_home);
    assert!(environment.path_entries.contains(&invocation.path_prefix));
    let (set, removed) = cargo_env(&invocation);
    assert_eq!(set[0], ("CARGO_HOME".to_owned(), "/opt/vapor/cargo-home".to_owned()));
    assert_eq!(set[2].0, "RUSTC");
    assert_eq!(removed, vec!["RUSTUP_HOME", "RUSTUP_TOOLCHAIN", "RUSTC_WRAPPER"]);
    let report = workspace_cargo_report(identity(Some("sdk")), invocation, exit(true));
    assert_eq!(report.cargo_args, vec!["check", "--workspace"]);
    assert_eq!(report.working_directory, "/work/repo");
}

#[test]
fn path_variable_puts_cargo_first() {
    assert_eq!(
        vapor_path_variable("/tc/bin", &vec!["/usr/bin".to_owned(), "/bin".to_owned()]),
        Ok("/tc/bin:/usr/bin:/bin".to_owned())
    );
    assert_eq!(vapor_path_variable("/tc/bin", &vec![]), Ok("/tc/bin".to_owned()));
    let error = vapor_path_variable("/tc:bin", &vec![]).unwrap_err();
    assert_eq!(error.message(), "failed to build Vapor PATH: path segment contains separator `:`");
    assert_eq!(
        vapor_path_variable("/tc/bin", &vec![String::new()]),
        Ok("/tc/bin:".to_owned())
    );
}

#[test]
fn deploy_targets_by_kind() {
    let sdk = deploy_target(&identity(Some("sdk"))).unwrap();
    assert_eq!((sdk.package, sdk.alias), ("vapor_sdk_cli", "sdk_cli"));
    let launcher = deploy_target(&identity(Some("launcher"))).unwrap();
    assert_eq!((launcher.package, launcher.alias), ("vapor_launcher_cli", "launcher_cli"));
    let wrong = deploy_target(&identity(Some("custom-content"))).unwrap_err();
    assert_eq!(wrong.message(), "workspace kind must be `sdk or launcher`, found `custom-content`");
    assert_eq!(deploy_build_args(&sdk), vec!["build", "-p", "vapor_sdk_cli"]);
}

#[test]
fn deploy_steps() {
    let target = deploy_target(&identity(Some("sdk"))).unwrap();
    let layout = deploy_layout(&target, "/opt/vapor/output/cargo-target", "/opt/vapor");
    assert_eq!(layout.source_executable, "/opt/vapor/output/cargo-target/debug/vapor_sdk_cli");
    assert_eq!(layout.deployed_executable, "/opt/vapor/bin/vapor_sdk_cli");
    assert_eq!(layout.alias_executable, "/opt/vapor/sdk_cli");
    assert_eq!(layout.activation_script, "/opt/vapor/vapor_env.sh");

    let failed = check_deploy_build(exit(false)).unwrap_err();
    assert_eq!(failed.message(), "Vapor-managed cargo build failed before deploy with exit status: 101");
    assert_eq!(check_deploy_build(exit(true)), Ok(()));

    let missing = check_built_executable(&layout.source_executable, false).unwrap_err();
    assert_eq!(
        missing.message(),
        "missing built executable `/opt/vapor/output/cargo-target/debug/vapor_sdk_cli`"
    );

    assert_eq!(
        temporary_destination(&layout.deployed_executable, 4242),
        Ok("/opt/vapor/bin/vapor_sdk_cli.tmp-4242".to_owned())
    );
    let no_name = temporary_destination("/", 1).unwrap_err();
    assert_eq!(no_name.message(), "deployed executable path has no file name: `/`");

    assert_eq!(
        relative_alias_target(&layout.deployed_executable, &layout.alias_executable),
        Ok("bin/vapor_sdk_cli".to_owned())
    );
    assert_eq!(
        alias_script(&layout.deployed_executable, &layout.alias_executable),
        Ok("#!/usr/bin/env sh\nSCRIPT_DIR=$(CDPATH= cd -- \"$(dirname -- \"$0\")\" && pwd)\nexec \"$SCRIPT_DIR/bin/vapor_sdk_cli\" \"$@\"\n".to_owned())
    );
    let outside = relative_alias_target("/elsewhere/tool", "/opt/vapor/sdk_cli").unwrap_err();
    assert_eq!(outside, WorkspaceCommandError::ExecutableHasNoFileName("/elsewhere/tool".to_owned()));

    assert_eq!(
        legacy_alias_path(&layout.deployed_executable, &layout.alias_executable),
        Some("/opt/vapor/bin/sdk_cli".to_owned())
    );
    assert_eq!(legacy_alias_path("/opt/vapor/bin/tool", "/opt/vapor/bin/tool"), None);
    assert_eq!(legacy_alias_path("/opt/vapor/bin/tool", "/opt/vapor//bin/./tool"), None);

    let build = workspace_cargo_report(
        identity(Some("sdk")),
        cargo_invocation(&toolchain("x86_64-unknown-linux-gnu", true), "/work/repo", deploy_build_args(&target)),
        exit(true),
    );
    let report = workspace_deploy_report(build, layout.clone());
    assert_eq!(report.activation_script, layout.activation_script);
    assert!(ACTIVATION_SCRIPT_TEXT.starts_with("# Source this file from the Vapor app root: . ./vapor_env.sh\n"));
    assert!(ACTIVATION_SCRIPT_TEXT.ends_with("unset -f vapor_prepend_path\n"));
}

#[test]
fn workspace_error_messages() {
    assert_eq!(WorkspaceCommandError::Io("denied".to_owned()).message(), "workspace command failed: denied");
    assert_eq!(
        WorkspaceCommandError::ManifestToml("bad".to_owned()).message(),
        "failed to parse workspace Vapor.toml: bad"
    );
}

#[test]
fn second_sync_writes_nothing() {
    let (_, items) = workspace_sync_plan(identity(Some("custom-content"))).unwrap();
    let fresh = workspace_sync_changes(&items, &vec![false; 5], &vec![None; 5]);
    assert_eq!(fresh.len(), 5);
    assert_eq!(fresh[0], "/work/repo/Cargo.toml");
    let settled: Vec<Option<String>> = items
        .iter()
        .map(|item| match item {
            SyncItem::File { content, .. } => Some((*content).to_owned()),
            SyncItem::Directory { .. } => None,
        })
        .collect();
    assert!(workspace_sync_changes(&items, &vec![true; 5], &settled).is_empty());
    let mut stale = settled.clone();
    stale[4] = Some("old".to_owned());
    assert_eq!(workspace_sync_changes(&items, &vec![true; 5], &stale), vec!["/work/repo/crates/workspace_anchor/src/lib.rs"]);
}

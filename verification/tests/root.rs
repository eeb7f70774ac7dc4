use vapor_sdk_core::root::{
    app_build_script, package_depot_count, package_roots, published_steamcmd, resolve_symlink_target, root_package,
    root_package_request, root_publish_plan_report, root_publish_report, root_steam_request,
    validate_ids, validate_set_live, RootCommandError, RootPackageLayout, RootPackageRequest,
    RootPublishRequest,
};
use vapor_sdk_core::steam::{
    steam_run_app_build_invocation, steam_run_app_build_plan, steam_run_app_build_report,
    SteamCmdProbes, SteamCommandError,
};
use vapor_sdk_core::ProcessExit;

fn package_request(set_live: Option<&str>) -> RootPackageRequest {
    RootPackageRequest {
        plan: false,
        app_id: 2_122_620,
        depot_id: 2_122_621,
        description: "Vapor \"nightly\"".to_owned(),
        set_live: set_live.map(str::to_owned),
    }
}

fn publish_request(plan: bool) -> RootPublishRequest {
    RootPublishRequest {
        plan,
        app_id: 2_122_620,
        depot_id: 2_122_621,
        description: "Vapor".to_owned(),
        account: "builder".to_owned(),
        steamcmd: "steamcmd".to_owned(),
        set_live: Some("beta".to_owned()),
    }
}

fn layout() -> RootPackageLayout {
    RootPackageLayout::new(
        &package_request(None),
        "/opt/vapor",
        "/opt/vapor/output",
        "x86_64-unknown-linux-gnu",
        &vec![true; 5],
    )
    .unwrap()
}

#[test]
fn ids_must_be_non_zero() {
    assert_eq!(validate_ids(0, 5), Err(RootCommandError::InvalidAppId(0)));
    assert_eq!(validate_ids(5, 0), Err(RootCommandError::InvalidDepotId(0)));
    assert_eq!(validate_ids(5, 6), Ok(()));
    assert_eq!(
        RootCommandError::InvalidAppId(0).message(),
        "Steam AppID must be non-zero, found `0`"
    );
    assert_eq!(
        RootCommandError::InvalidDepotId(0).message(),
        "Steam DepotID must be non-zero, found `0`"
    );
}

#[test]
fn default_branch_is_never_set_live() {
    let error = validate_set_live(&Some("default".to_owned())).unwrap_err();
    assert_eq!(error, RootCommandError::DefaultBranchCannotBeSetLive);
    assert_eq!(
        error.message(),
        "SteamPipe cannot automatically set the default branch live; upload first, then set default live in Steamworks"
    );
    assert_eq!(validate_set_live(&Some("beta".to_owned())), Ok(()));
    assert_eq!(validate_set_live(&None), Ok(()));
}

#[test]
fn package_roots_are_the_app_root_tools() {
    let roots = package_roots("/opt/vapor");
    let depot: Vec<&str> = roots.iter().map(|root| root.depot_path.as_str()).collect();
    assert_eq!(
        depot,
        vec!["sdk_cli", "launcher_cli", "bin/vapor_sdk_cli", "bin/vapor_launcher_cli", "vapor_env.sh"]
    );
    assert_eq!(roots[2].source, "/opt/vapor/bin/vapor_sdk_cli");
    assert_eq!(package_depot_count(), roots.len());
    assert!(depot.iter().all(|path| !path.starts_with("cargo-home") && !path.starts_with("output")));
}

#[test]
fn package_layout_paths() {
    let layout = layout();
    assert_eq!(layout.package_root, "/opt/vapor/output/root");
    assert_eq!(layout.content_root, "/opt/vapor/output/root/content");
    assert_eq!(layout.scripts_root, "/opt/vapor/output/root/scripts");
    assert_eq!(layout.steam_build_root, "/opt/vapor/output/root/steam-build");
    assert_eq!(layout.app_build_script, "/opt/vapor/output/root/scripts/app_build_2122620.vdf");
}

#[test]
fn package_layout_errors() {
    let missing = RootPackageLayout::new(
        &package_request(None),
        "/opt/vapor",
        "/opt/vapor/output",
        "x86_64-unknown-linux-gnu",
        &vec![true, true, false, false, true],
    )
    .unwrap_err();
    assert_eq!(missing, RootCommandError::MissingPackageInput("/opt/vapor/bin/vapor_sdk_cli".to_owned()));
    assert_eq!(missing.message(), "root package input is missing: `/opt/vapor/bin/vapor_sdk_cli`");
    let live = RootPackageLayout::new(
        &package_request(Some("default")),
        "/opt/vapor",
        "/opt/vapor/output",
        "x86_64-unknown-linux-gnu",
        &vec![false; 5],
    )
    .unwrap_err();
    assert_eq!(live, RootCommandError::DefaultBranchCannotBeSetLive);
}

#[test]
fn app_build_script_text() {
    let script = app_build_script(&package_request(Some("beta")), "/out/content", "/out/steam-build");
    let expected = "\"AppBuild\"\n{\n    \"AppID\" \"2122620\"\n    \"Desc\" \"Vapor \\\"nightly\\\"\"\n    \"SetLive\" \"beta\"\n    \"ContentRoot\" \"/out/content\"\n    \"BuildOutput\" \"/out/steam-build\"\n    \"Depots\"\n    {\n        \"2122621\"\n        {\n            \"FileMapping\"\n            {\n                \"LocalPath\" \"*\"\n                \"DepotPath\" \".\"\n                \"recursive\" \"1\"\n            }\n        }\n    }\n}\n";
    assert_eq!(script, expected);
    let no_live = app_build_script(&package_request(None), "/c", "/b");
    assert!(!no_live.contains("SetLive"));
}

#[test]
fn package_report_lists_depot_paths() {
    let layout = layout();
    let report = root_package(&package_request(None), &layout, 42);
    assert_eq!(report.copied_files, 42);
    assert_eq!(report.included_roots.len(), 5);
    assert_eq!(report.included_roots[4], "vapor_env.sh");
    assert_eq!(report.host_triple, "x86_64-unknown-linux-gnu");
}

#[test]
fn publish_plan_report() {
    let request = publish_request(true);
    let package_request = root_package_request(&request);
    assert!(package_request.plan);
    assert_eq!(package_request.set_live, Some("beta".to_owned()));
    let package = root_package(&package_request, &layout(), 7);
    let steam_request = root_steam_request(&request, &layout());
    assert_eq!(steam_request.app_build_script, package.app_build_script);
    let (status, args) =
        steam_run_app_build_plan(&steam_request, "/opt/vapor", &SteamCmdProbes { path_entries: vec![], present: vec![] }).unwrap();
    let report = root_publish_plan_report(&request, package, &status, args);
    assert!(report.planned);
    assert_eq!(report.steamcmd, "steamcmd");
    assert_eq!(report.status, None);
}

#[test]
fn publish_report_after_upload() {
    let request = publish_request(false);
    let package = root_package(&root_package_request(&request), &layout(), 7);
    let steam_request = root_steam_request(&request, &layout());
    let invocation = steam_run_app_build_invocation(
        &steam_request,
        "/opt/vapor",
        &SteamCmdProbes { path_entries: vec!["/usr/bin".to_owned()], present: vec![true] },
    )
    .unwrap();
    let exit = ProcessExit { success: true, code: Some(0), description: "exit status: 0".to_owned() };
    let steam = steam_run_app_build_report(&steam_request, invocation, exit.clone());
    let report = root_publish_report(&request, package, steam);
    assert!(!report.planned);
    assert_eq!(report.steamcmd, "/usr/bin/steamcmd");
    assert_eq!(report.status, Some(exit));
    assert_eq!(published_steamcmd(&None, &"steamcmd".to_owned()), "steamcmd");
}

#[test]
fn symlink_targets() {
    assert_eq!(resolve_symlink_target("/opt/vapor/sdk_cli", "/abs/target"), Ok("/abs/target".to_owned()));
    assert_eq!(
        resolve_symlink_target("/opt/vapor/bin/link", "../real"),
        Ok("/opt/vapor/bin/../real".to_owned())
    );
    let error = resolve_symlink_target("/", "rel").unwrap_err();
    assert_eq!(error, RootCommandError::SymlinkHasNoParent("/".to_owned()));
    assert_eq!(error.message(), "symlink path has no parent: `/`");
}

#[test]
fn root_error_messages() {
    assert_eq!(RootCommandError::Io("boom".to_owned()).message(), "root package command failed: boom");
    assert_eq!(
        RootCommandError::Steam(SteamCommandError::MissingAccount).message(),
        "Steam account must not be empty"
    );
}

use vapor_sdk_core::steam::{
    login_args, resolve_steamcmd, run_app_build_args, steam_login_plan, steam_login_report,
    steam_run_app_build_invocation, steam_run_app_build_plan, steam_run_app_build_report,
    steam_status, steamcmd_candidates, validate_account, SteamCmdSource, SteamCommandError,
    SteamCmdProbes, SteamLoginRequest, SteamRunAppBuildRequest, SteamStatusRequest,
};
use vapor_sdk_core::toolchain::ToolchainStatusError;
use vapor_sdk_core::ProcessExit;

fn nothing_found() -> SteamCmdProbes {
    SteamCmdProbes { path_entries: vec!["/usr/bin".to_owned()], present: vec![false] }
}

fn found_on_path() -> SteamCmdProbes {
    SteamCmdProbes { path_entries: vec!["/usr/bin".to_owned()], present: vec![true] }
}

fn exit_ok() -> ProcessExit {
    ProcessExit { success: true, code: Some(0), description: "exit status: 0".to_owned() }
}

#[test]
fn steamcmd_explicit_path() {
    let candidates = steamcmd_candidates("/opt/steam/steamcmd.sh", &vec!["/usr/bin".to_owned()]);
    assert_eq!(candidates, vec!["/opt/steam/steamcmd.sh"]);
    assert_eq!(
        resolve_steamcmd("/opt/steam/steamcmd.sh", &candidates, &vec![true]),
        (Some("/opt/steam/steamcmd.sh".to_owned()), SteamCmdSource::ExplicitPath)
    );
    assert_eq!(
        resolve_steamcmd("/opt/steam/steamcmd.sh", &candidates, &vec![false]),
        (None, SteamCmdSource::Unavailable)
    );
}

#[test]
fn steamcmd_path_lookup() {
    let entries = vec!["/usr/local/bin".to_owned(), "/usr/bin".to_owned()];
    let candidates = steamcmd_candidates("steamcmd", &entries);
    assert_eq!(candidates, vec!["/usr/local/bin/steamcmd", "/usr/bin/steamcmd"]);
    assert_eq!(
        resolve_steamcmd("steamcmd", &candidates, &vec![false, true]),
        (Some("/usr/bin/steamcmd".to_owned()), SteamCmdSource::PathLookup)
    );
    assert_eq!(resolve_steamcmd("steamcmd", &candidates, &vec![false, false]), (None, SteamCmdSource::Unavailable));
    assert_eq!(SteamCmdSource::PathLookup.as_str(), "path_lookup");
}

#[test]
fn steam_status_layout() {
    let request = SteamStatusRequest { steamcmd: "steamcmd".to_owned() };
    let report = steam_status(&request, "/opt/vapor", &nothing_found());
    assert_eq!(report.app_id, 2_122_620);
    assert_eq!(report.steam_home, "/opt/vapor/steam");
    assert_eq!(report.steamcmd_state_root, "/opt/vapor/steam/steamcmd");
    assert_eq!(report.requested_steamcmd, "steamcmd");
    assert_eq!(report.auth_model, "SteamCMD owns password prompts, Steam Guard, and saved login tokens.");
}

#[test]
fn blank_account_is_rejected() {
    assert_eq!(validate_account("  \t"), Err(SteamCommandError::MissingAccount));
    assert_eq!(validate_account("builder"), Ok(()));
    assert_eq!(SteamCommandError::MissingAccount.message(), "Steam account must not be empty");
}

#[test]
fn steam_command_lines() {
    assert_eq!(login_args("builder"), vec!["+login", "builder", "+quit"]);
    assert_eq!(
        run_app_build_args("builder", "/out/app_build_1.vdf"),
        vec!["+login", "builder", "+run_app_build", "/out/app_build_1.vdf", "+quit"]
    );
}

#[test]
fn login_plan_needs_steamcmd() {
    let request = SteamLoginRequest { account: "builder".to_owned(), steamcmd: "steamcmd".to_owned() };
    let missing = steam_login_plan(&request, "/opt/vapor", &nothing_found()).unwrap_err();
    assert_eq!(missing, SteamCommandError::SteamCmdUnavailable("steamcmd".to_owned()));
    assert_eq!(missing.message(), "SteamCMD is not available at `steamcmd`");

    let invocation = steam_login_plan(
        &request,
        "/opt/vapor",
        &found_on_path(),
    )
    .unwrap();
    assert_eq!(invocation.steamcmd, "/usr/bin/steamcmd");
    assert_eq!(invocation.steam_args, vec!["+login", "builder", "+quit"]);
    let report = steam_login_report(&request, invocation, exit_ok());
    assert_eq!(report.account, "builder");
    assert_eq!(report.exit_status, exit_ok());
}

#[test]
fn app_build_plan_and_run() {
    let request = SteamRunAppBuildRequest {
        account: "builder".to_owned(),
        steamcmd: "steamcmd".to_owned(),
        app_build_script: "/out/app_build_1.vdf".to_owned(),
    };
    let (status, args) = steam_run_app_build_plan(&request, "/opt/vapor", &nothing_found()).unwrap();
    assert_eq!(status.resolved_steamcmd, None);
    assert_eq!(args.len(), 5);

    let blank = SteamRunAppBuildRequest { account: " ".to_owned(), ..request.clone() };
    assert_eq!(
        steam_run_app_build_plan(&blank, "/opt/vapor", &nothing_found()),
        Err(SteamCommandError::MissingAccount)
    );

    let invocation = steam_run_app_build_invocation(
        &request,
        "/opt/vapor",
        &found_on_path(),
    )
    .unwrap();
    let report = steam_run_app_build_report(&request, invocation, exit_ok());
    assert_eq!(report.steam_args[2], "+run_app_build");
}

#[test]
fn steam_error_messages() {
    assert_eq!(SteamCommandError::SteamCmdIo("denied".to_owned()).message(), "failed to run SteamCMD: denied");
    assert_eq!(
        SteamCommandError::ToolchainStatus(ToolchainStatusError::ExecutableHasNoParent).message(),
        "current executable has no parent directory"
    );
}

#[test]
fn status_resolves_steamcmd_from_probes() {
    let explicit = SteamStatusRequest { steamcmd: "/opt/steam/steamcmd.sh".to_owned() };
    let report = steam_status(
        &explicit,
        "/opt/vapor",
        &SteamCmdProbes { path_entries: vec!["/usr/bin".to_owned()], present: vec![true] },
    );
    assert_eq!(report.resolved_steamcmd, Some("/opt/steam/steamcmd.sh".to_owned()));
    assert_eq!(report.steamcmd_source, SteamCmdSource::ExplicitPath);
    let lookup = SteamStatusRequest { steamcmd: "steamcmd".to_owned() };
    let found = steam_status(&lookup, "/opt/vapor", &found_on_path());
    assert_eq!(found.resolved_steamcmd, Some("/usr/bin/steamcmd".to_owned()));
    assert_eq!(found.steamcmd_source, SteamCmdSource::PathLookup);
    let missing = steam_status(&lookup, "/opt/vapor", &nothing_found());
    assert_eq!(missing.resolved_steamcmd, None);
    assert_eq!(missing.steamcmd_source, SteamCmdSource::Unavailable);
}

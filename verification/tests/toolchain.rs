use vapor_sdk_core::toolchain::{
    check_not_installed, check_rustup_exit, inspect_install_state, resolve_rustup, resolve_vapor_home,
    rustup_candidates, rustup_components, rustup_install_env, rustup_toolchain_install_args,
    toolchain_install_plan, toolchain_install_report, toolchain_layout, toolchain_status,
    verify_installed_toolchain, verify_rustup_toolchain, verify_rustup_toolchain_binary, RustupSource, ToolchainComponent, ToolchainInstallError,
    ToolchainInstallState, ToolchainPin, ToolchainPlanError, ToolchainProbes, ToolchainStatus,
    ToolchainStatusError, VaporHomeSource,
};
use vapor_sdk_core::ProcessExit;

fn pin() -> ToolchainPin {
    ToolchainPin {
        identifier: "1.87.0".to_owned(),
        channel: "stable".to_owned(),
        date: "2025-05-15".to_owned(),
        supported_host_triples: vec!["x86_64-unknown-linux-gnu".to_owned()],
        supported_target_triples: vec![
            "x86_64-unknown-linux-gnu".to_owned(),
            "wasm32-unknown-unknown".to_owned(),
        ],
        required_components: vec![
            ToolchainComponent::Rustc,
            ToolchainComponent::Cargo,
            ToolchainComponent::RustStd,
            ToolchainComponent::Rustfmt,
            ToolchainComponent::Clippy,
        ],
    }
}

fn probes(rustup: Option<&str>, root: bool, cargo: bool, rustc: bool) -> ToolchainProbes {
    // Vapor's own Rustup is missing; `rustup` is found in the one PATH entry when asked for.
    ToolchainProbes {
        path_entries: vec![rustup.map(str::to_owned).unwrap_or_else(|| "/usr/bin".to_owned())],
        rustup_present: vec![false, rustup.is_some()],
        toolchain_root_exists: root,
        cargo_exists: cargo,
        rustc_exists: rustc,
    }
}

fn status(host: &str, rustup_dir: Option<&str>) -> ToolchainStatus {
    toolchain_status(
        pin(),
        host.to_owned(),
        host == "x86_64-unknown-linux-gnu",
        VaporHomeSource::Environment,
        "/opt/vapor".to_owned(),
        probes(rustup_dir, true, true, true),
    )
}

fn exit(success: bool, code: Option<i32>) -> ProcessExit {
    ProcessExit {
        success,
        code,
        description: match code {
            Some(code) => format!("exit status: {code}"),
            None => "signal: 9 (SIGKILL)".to_owned(),
        },
    }
}

#[test]
fn vapor_home_prefers_environment() {
    let home = resolve_vapor_home(Some("/srv/vapor".to_owned()), Ok("/x/bin/sdk".to_owned()));
    assert_eq!(home, Ok((VaporHomeSource::Environment, "/srv/vapor".to_owned())));
}

#[test]
fn vapor_home_from_executable_root() {
    let from_bin = resolve_vapor_home(None, Ok("/opt/vapor/bin/vapor_sdk_cli".to_owned()));
    assert_eq!(from_bin, Ok((VaporHomeSource::ExecutableRoot, "/opt/vapor".to_owned())));
    let beside = resolve_vapor_home(Some(String::new()), Ok("/opt/vapor/sdk_cli".to_owned()));
    assert_eq!(beside, Ok((VaporHomeSource::ExecutableRoot, "/opt/vapor".to_owned())));
}

#[test]
fn vapor_home_errors() {
    let missing = resolve_vapor_home(None, Err("not found".to_owned()));
    assert_eq!(missing, Err(ToolchainStatusError::CurrentExecutable("not found".to_owned())));
    assert_eq!(
        missing.unwrap_err().message(),
        "failed to locate current executable: not found"
    );
    let root = resolve_vapor_home(None, Ok("/".to_owned()));
    assert_eq!(root, Err(ToolchainStatusError::ExecutableHasNoParent));
}

#[test]
fn layout_under_vapor_home() {
    let layout = toolchain_layout("/opt/vapor", "1.87.0", "x86_64-unknown-linux-gnu");
    assert_eq!(layout.local_rustup_path, "/opt/vapor/rustup/bin/rustup");
    assert_eq!(layout.rustup_home, "/opt/vapor/rustup-home");
    assert_eq!(layout.cargo_home, "/opt/vapor/cargo-home");
    assert_eq!(
        layout.toolchain_root,
        "/opt/vapor/rustup-home/toolchains/1.87.0-x86_64-unknown-linux-gnu"
    );
    assert_eq!(layout.bootstrap_root, "/opt/vapor/toolchain-bootstrap");
    assert_eq!(layout.output_root, "/opt/vapor/output");
    assert_eq!(
        layout.cargo_path,
        "/opt/vapor/rustup-home/toolchains/1.87.0-x86_64-unknown-linux-gnu/bin/cargo"
    );
    assert_eq!(
        layout.rustc_path,
        "/opt/vapor/rustup-home/toolchains/1.87.0-x86_64-unknown-linux-gnu/bin/rustc"
    );
}

#[test]
fn rustup_resolution_prefers_local() {
    let candidates = rustup_candidates("/opt/vapor/rustup/bin/rustup", &vec!["/usr/bin".to_owned()]);
    assert_eq!(candidates, vec!["/opt/vapor/rustup/bin/rustup", "/usr/bin/rustup"]);
    assert_eq!(
        resolve_rustup(&candidates, &vec![true, true]),
        (Some("/opt/vapor/rustup/bin/rustup".to_owned()), RustupSource::VaporLocal)
    );
    assert_eq!(
        resolve_rustup(&candidates, &vec![false, true]),
        (Some("/usr/bin/rustup".to_owned()), RustupSource::PathLookup)
    );
    assert_eq!(resolve_rustup(&candidates, &vec![false, false]), (None, RustupSource::Unavailable));
    assert_eq!(RustupSource::PathLookup.as_str(), "path");
}

#[test]
fn install_states() {
    assert_eq!(inspect_install_state(false, true, true, true), ToolchainInstallState::MissingRustup);
    assert_eq!(inspect_install_state(true, false, true, true), ToolchainInstallState::Missing);
    assert_eq!(inspect_install_state(true, true, true, true), ToolchainInstallState::PresentUnverified);
    assert_eq!(
        inspect_install_state(true, true, false, false),
        ToolchainInstallState::Broken { reason: "missing cargo and rustc".to_owned() }
    );
    assert_eq!(
        inspect_install_state(true, true, true, false),
        ToolchainInstallState::Broken { reason: "missing rustc".to_owned() }
    );
    assert_eq!(inspect_install_state(true, true, false, true).as_str(), "broken");
}

#[test]
fn status_reports_host_support() {
    let supported = status("x86_64-unknown-linux-gnu", Some("/usr/bin"));
    assert!(supported.host_supported);
    assert_eq!(supported.install_state, ToolchainInstallState::PresentUnverified);
    let other = status("aarch64-apple-darwin", Some("/usr/bin"));
    assert!(!other.host_supported);
}

#[test]
fn install_args_skip_core_components() {
    let components = rustup_components(&pin().required_components);
    assert_eq!(components, vec!["rustfmt", "clippy"]);
    let args = rustup_toolchain_install_args("1.87.0", &components, &vec!["wasm32-unknown-unknown".to_owned()]);
    assert_eq!(
        args,
        vec![
            "toolchain", "install", "1.87.0", "--profile", "minimal", "--no-self-update",
            "--component", "rustfmt", "--component", "clippy", "--target", "wasm32-unknown-unknown",
        ]
    );
}

#[test]
fn install_plan_errors() {
    let unsupported = toolchain_install_plan(status("aarch64-apple-darwin", Some("/r"))).unwrap_err();
    assert_eq!(unsupported, ToolchainPlanError::UnsupportedHost("aarch64-apple-darwin".to_owned()));
    assert_eq!(
        unsupported.message(),
        "host triple `aarch64-apple-darwin` is not supported by this Vapor toolchain pin"
    );
    let no_rustup = toolchain_install_plan(status("x86_64-unknown-linux-gnu", None)).unwrap_err();
    assert_eq!(
        no_rustup,
        ToolchainPlanError::RustupUnavailable { expected: "/opt/vapor/rustup/bin/rustup".to_owned() }
    );
    assert_eq!(
        no_rustup.message(),
        "Rustup is not available; install or place it at `/opt/vapor/rustup/bin/rustup`"
    );
}

#[test]
fn install_steps() {
    let plan = toolchain_install_plan(status("x86_64-unknown-linux-gnu", Some("/usr/bin"))).unwrap();
    assert_eq!(plan.rustup_path, "/usr/bin/rustup");
    assert_eq!(plan.targets.len(), 2);

    let already = check_not_installed(&plan, true).unwrap_err();
    assert_eq!(
        already.message(),
        "toolchain is already installed at `/opt/vapor/rustup-home/toolchains/1.87.0-x86_64-unknown-linux-gnu`"
    );
    assert_eq!(check_not_installed(&plan, false), Ok(()));

    let env = rustup_install_env(&plan);
    assert_eq!(
        env,
        vec![
            ("RUSTUP_HOME".to_owned(), "/opt/vapor/rustup-home".to_owned()),
            ("CARGO_HOME".to_owned(), "/opt/vapor/cargo-home".to_owned()),
            ("RUSTUP_TOOLCHAIN".to_owned(), "1.87.0".to_owned()),
        ]
    );

    let failed = check_rustup_exit(&plan, exit(false, Some(1))).unwrap_err();
    assert_eq!(failed.message(), "Rustup `/usr/bin/rustup` failed with exit status: 1");
    assert_eq!(check_rustup_exit(&plan, exit(true, Some(0))), Ok(()));

    let no_root = verify_installed_toolchain(&plan, false, true, true).unwrap_err();
    assert!(matches!(no_root, ToolchainInstallError::MissingInstalledToolchain(_)));
    let no_rustc = verify_installed_toolchain(&plan, true, true, false).unwrap_err();
    assert_eq!(
        no_rustc.message(),
        "Rustup did not create expected toolchain binary `/opt/vapor/rustup-home/toolchains/1.87.0-x86_64-unknown-linux-gnu/bin/rustc`"
    );
    assert_eq!(verify_installed_toolchain(&plan, true, true, true), Ok(()));

    let report = toolchain_install_report(plan.clone(), exit(true, Some(0)));
    assert_eq!(report.installed_root, plan.status.toolchain_root);
}

#[test]
fn install_error_messages() {
    assert_eq!(
        ToolchainInstallError::Io("disk full".to_owned()).message(),
        "toolchain install I/O failed: disk full"
    );
    assert_eq!(
        ToolchainInstallError::Plan(ToolchainPlanError::Status(ToolchainStatusError::ExecutableHasNoParent))
            .message(),
        "current executable has no parent directory"
    );
    assert_eq!(
        ToolchainStatusError::Manifest("bad pin".to_owned()).message(),
        "bad pin"
    );
}

#[test]
fn single_install_checks() {
    assert_eq!(verify_rustup_toolchain("/r", true), Ok(()));
    assert_eq!(
        verify_rustup_toolchain("/r", false),
        Err(ToolchainInstallError::MissingInstalledToolchain("/r".to_owned()))
    );
    assert_eq!(
        verify_rustup_toolchain_binary("/r/bin/cargo", false).unwrap_err().message(),
        "Rustup did not create expected toolchain binary `/r/bin/cargo`"
    );
    let status = status("x86_64-unknown-linux-gnu", Some("/usr/bin"));
    assert_eq!(status.supported_host_triples(), &vec!["x86_64-unknown-linux-gnu".to_owned()]);
    assert_eq!(status.supported_target_triples().len(), 2);
}

#[test]
fn status_resolves_rustup_from_probes() {
    let local = toolchain_status(
        pin(),
        "x86_64-unknown-linux-gnu".to_owned(),
        true,
        VaporHomeSource::Environment,
        "/opt/vapor".to_owned(),
        ToolchainProbes {
            path_entries: vec!["/usr/bin".to_owned()],
            rustup_present: vec![true, true],
            toolchain_root_exists: false,
            cargo_exists: false,
            rustc_exists: false,
        },
    );
    assert_eq!(local.rustup_source, RustupSource::VaporLocal);
    assert_eq!(local.rustup_path, Some(local.local_rustup_path.clone()));
    assert_eq!(local.install_state, ToolchainInstallState::Missing);

    let none = toolchain_status(
        pin(),
        "x86_64-unknown-linux-gnu".to_owned(),
        true,
        VaporHomeSource::Environment,
        "/opt/vapor".to_owned(),
        ToolchainProbes {
            path_entries: vec![],
            rustup_present: vec![false],
            toolchain_root_exists: true,
            cargo_exists: true,
            rustc_exists: true,
        },
    );
    assert_eq!(none.rustup_path, None);
    assert_eq!(none.rustup_source, RustupSource::Unavailable);
    assert_eq!(none.install_state, ToolchainInstallState::MissingRustup);
}

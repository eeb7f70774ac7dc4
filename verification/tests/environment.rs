use vapor_sdk_core::environment_status;

#[test]
fn environment_report_layout() {
    let report = environment_status("/opt/vapor");
    assert_eq!(report.vapor_home, "/opt/vapor");
    assert_eq!(report.activation_script, "/opt/vapor/vapor_env.sh");
    assert_eq!(report.cargo_home, "/opt/vapor/cargo-home");
    assert_eq!(report.rustup_home, "/opt/vapor/rustup-home");
    assert_eq!(report.steam_home, "/opt/vapor/steam");
    assert_eq!(
        report.path_entries,
        vec![
            "/opt/vapor",
            "/opt/vapor/bin",
            "/opt/vapor/toolchain/active/bin",
            "/opt/vapor/rust-toolchain/active/bin",
            "/opt/vapor/rustup/bin",
            "/opt/vapor/steam/steamcmd",
        ]
    );
}

//! Vapor app-root shell environment reporting.
//!
//! The SDK executes Rust/Cargo through explicit paths and process-local
//! environment variables. This module reports the equivalent app-root shell
//! setup for humans and future GUI frontends.

use vstd::prelude::*;

use crate::path::{join_path, path_join};
use crate::toolchain::{ACTIVE_TOOLCHAIN_BIN_DIR, CARGO_HOME_DIR};

verus! {

/// Environment commands for app-root shell/tool discovery.
#[derive(Debug, Clone, Copy, PartialEq, Eq, Structural)]
pub enum EnvironmentCommand {
    /// Show the app-root shell environment Vapor expects humans to activate.
    Status,
}

/// Activation script written into the app root for Unix shells.
pub const ACTIVATION_SCRIPT: &'static str = "vapor_env.sh";

pub const RUSTUP_HOME_DIR: &'static str = "rustup-home";
pub const STEAM_HOME_DIR: &'static str = "steam";
pub const STEAMCMD_DIR: &'static str = "steamcmd";
pub const RUST_TOOLCHAIN_ACTIVE_BIN: &'static str = "rust-toolchain/active/bin";
pub const RUSTUP_BIN: &'static str = "rustup/bin";
pub const BIN_DIR: &'static str = "bin";

/// Report for Vapor's app-root shell environment.
#[derive(Debug, Clone, PartialEq, Eq)]
pub struct EnvironmentReport {
    pub vapor_home: String,
    pub activation_script: String,
    pub cargo_home: String,
    pub rustup_home: String,
    pub steam_home: String,
    pub path_entries: Vec<String>,
}

/// The directories the activation script puts at the front of `PATH`, in order.
pub open spec fn path_front(vapor_home: Seq<char>) -> Seq<Seq<char>> {
    seq![
        vapor_home,
        path_join(vapor_home, BIN_DIR@),
        path_join(vapor_home, ACTIVE_TOOLCHAIN_BIN_DIR@),
        path_join(vapor_home, RUST_TOOLCHAIN_ACTIVE_BIN@),
        path_join(vapor_home, RUSTUP_BIN@),
        path_join(path_join(vapor_home, STEAM_HOME_DIR@), STEAMCMD_DIR@),
    ]
}

/// `report` describes the app-root environment of `vapor_home`.
pub open spec fn is_environment_report(report: EnvironmentReport, vapor_home: Seq<char>) -> bool {
    &&& report.vapor_home@ == vapor_home
    &&& report.activation_script@ == path_join(vapor_home, ACTIVATION_SCRIPT@)
    &&& report.cargo_home@ == path_join(vapor_home, CARGO_HOME_DIR@)
    &&& report.rustup_home@ == path_join(vapor_home, RUSTUP_HOME_DIR@)
    &&& report.steam_home@ == path_join(vapor_home, STEAM_HOME_DIR@)
    &&& report.path_entries.deep_view() == path_front(vapor_home)
}

/// Describe the app-root shell environment of `vapor_home` without mutating
/// local state.
pub fn environment_status(vapor_home: &str) -> (report: EnvironmentReport)
    ensures
        is_environment_report(report, vapor_home@),
{
    let steam_home = join_path(vapor_home, STEAM_HOME_DIR);
    let path_entries = vec![
        String::from_str(vapor_home),
        join_path(vapor_home, BIN_DIR),
        join_path(vapor_home, ACTIVE_TOOLCHAIN_BIN_DIR),
        join_path(vapor_home, RUST_TOOLCHAIN_ACTIVE_BIN),
        join_path(vapor_home, RUSTUP_BIN),
        join_path(steam_home.as_str(), STEAMCMD_DIR),
    ];
    assert(path_entries.deep_view() =~= path_front(vapor_home@));
    EnvironmentReport {
        vapor_home: String::from_str(vapor_home),
        activation_script: join_path(vapor_home, ACTIVATION_SCRIPT),
        cargo_home: join_path(vapor_home, CARGO_HOME_DIR),
        rustup_home: join_path(vapor_home, RUSTUP_HOME_DIR),
        steam_home,
        path_entries,
    }
}

} // verus!

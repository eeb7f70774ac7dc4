//! Vapor SDK command vocabulary, command specifications, and the decision
//! logic behind the SDK's toolchain, workspace, Steam, and root-release
//! workflows.
//!
//! The library is pure: it never touches the filesystem, the process
//! environment, or child processes. Callers gather those facts (environment
//! variables, path probes, manifest text, how a child process ended) and hand
//! them in as plain values; the library computes layouts, validates requests,
//! plans command lines, decides each workflow step, and builds reports.
//!
//! The host is a Unix one: paths are joined with `/` as `std::path` does on
//! Unix, executables have no suffix, the activation script is `vapor_env.sh`,
//! aliases are shell scripts, and `PATH` entries are separated by `:`.

pub mod commands;
pub mod content;
pub mod environment;
pub mod manifest;
pub mod options;
pub mod outcome;
pub mod path;
pub mod probe;
pub mod release;
pub mod repair;
pub mod root;
pub mod safety;
pub mod spec;
pub mod steam;
pub mod template;
pub mod text;
pub mod toolchain;
pub mod workspace;

pub use commands::{
    ContentReadCommand, LeafCommand, PackCommand, PackCompositionCommand, PackagepackCommand,
    SdkCommand, SourceAuthoringCommand,
};
pub use content::{ChildContentRef, ContentSource, ContentType};
pub use environment::{environment_status, EnvironmentCommand, EnvironmentReport};
pub use options::GlobalOptions;
pub use outcome::ProcessExit;
pub use repair::{RepairCommand, RepairTarget};
pub use root::{
    root_package, RootCommand, RootCommandError, RootPackageReport, RootPackageRequest,
    RootPublishReport, RootPublishRequest, ROOT_STEAM_APP_ID, ROOT_STEAM_DEPOT_ID,
};
pub use spec::{describe_command, CommandSpec, StateSurface};
pub use steam::{
    steam_run_app_build_plan, steam_status, SteamCmdSource, SteamCommand, SteamCommandError,
    SteamLoginReport, SteamLoginRequest, SteamRunAppBuildReport, SteamRunAppBuildRequest,
    SteamStatusReport, SteamStatusRequest,
};
pub use template::TemplateCommand;
pub use toolchain::{
    toolchain_install_plan, toolchain_status, ToolchainCommand, ToolchainInstallError,
    ToolchainInstallPlan, ToolchainInstallReport, ToolchainInstallState, ToolchainPlanError,
    ToolchainStatus, ToolchainStatusError, VaporHomeSource, OUTPUT_DIR, TOOLCHAIN_BOOTSTRAP_DIR,
    VAPOR_HOME_ENV,
};
pub use workspace::{
    workspace_status, workspace_sync, WorkspaceCargoReport, WorkspaceCommand, WorkspaceCommandError,
    WorkspaceDeployReport, WorkspaceStatusReport, WorkspaceSyncReport,
};

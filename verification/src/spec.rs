//! Human-readable SDK command specifications.

use vstd::prelude::*;

use crate::commands::{
    ContentReadCommand, LeafCommand, PackCommand, PackCompositionCommand, PackagepackCommand,
    SdkCommand, SourceAuthoringCommand,
};
use crate::content::{content_type_name, ContentType};
use crate::environment::EnvironmentCommand;
use crate::repair::RepairCommand;
use crate::root::RootCommand;
use crate::steam::SteamCommand;
use crate::template::TemplateCommand;
use crate::toolchain::ToolchainCommand;
use crate::workspace::WorkspaceCommand;

verus! {

/// Broad state surface a command may read or mutate.
#[derive(Debug, Clone, Copy, PartialEq, Eq, Structural)]
pub enum StateSurface {
    ReadOnly,
    RepairPlan,
    RepairApply,
    Toolchain,
    Environment,
    Steam,
    RootRelease,
    AuthoredSource,
    AuthoredComposition,
    BuildArtifact,
    Publication,
}

/// Command contract shown to users before and while a command runs.
#[derive(Debug, Clone, PartialEq, Eq)]
pub struct CommandSpec {
    pub action: String,
    pub summary: &'static str,
    pub surface: StateSurface,
    pub preconditions: Vec<&'static str>,
    pub future_effects: Vec<&'static str>,
}

/// Mathematical model of a [`CommandSpec`].
#[verifier::ext_equal]
pub struct CommandSpecView {
    pub action: Seq<char>,
    pub summary: Seq<char>,
    pub surface: StateSurface,
    pub preconditions: Seq<Seq<char>>,
    pub future_effects: Seq<Seq<char>>,
}

/// The text of each line in a list of static lines.
pub open spec fn line_texts(lines: Seq<&'static str>) -> Seq<Seq<char>> {
    lines.map_values(|line: &'static str| line@)
}

impl View for CommandSpec {
    type V = CommandSpecView;

    open spec fn view(&self) -> CommandSpecView {
        CommandSpecView {
            action: self.action@,
            summary: self.summary@,
            surface: self.surface,
            preconditions: line_texts(self.preconditions@),
            future_effects: line_texts(self.future_effects@),
        }
    }
}

/// The model of a spec built from its five parts.
pub open spec fn spec_of(
    action: Seq<char>,
    summary: Seq<char>,
    surface: StateSurface,
    preconditions: Seq<Seq<char>>,
    future_effects: Seq<Seq<char>>,
) -> CommandSpecView {
    CommandSpecView { action, summary, surface, preconditions, future_effects }
}

fn make_spec(
    action: String,
    summary: &'static str,
    surface: StateSurface,
    preconditions: Vec<&'static str>,
    future_effects: Vec<&'static str>,
) -> (spec: CommandSpec)
    ensures
        spec@ == spec_of(action@, summary@, surface, line_texts(preconditions@), line_texts(future_effects@)),
{
    CommandSpec { action, summary, surface, preconditions, future_effects }
}

/// The specification of a repair command.
pub open spec fn repair_spec(command: RepairCommand) -> CommandSpecView {
    match command {
        RepairCommand::Status => spec_of(
            "sdk repair status"@,
            "Inspect repairable SDK targets without proposing mutation."@,
            StateSurface::ReadOnly,
            seq![],
            seq!["display repair target health"@],
        ),
        RepairCommand::Plan { .. } => spec_of(
            "sdk repair plan"@,
            "Prepare a repair plan without applying it."@,
            StateSurface::RepairPlan,
            seq!["repair target is known"@],
            seq!["compute proposed repair operations"@],
        ),
        RepairCommand::Apply { .. } => spec_of(
            "sdk repair apply"@,
            "Apply repairs for an SDK target."@,
            StateSurface::RepairApply,
            seq!["repair target is known"@, "planned mutations are acceptable"@],
            seq!["repair selected SDK-managed state"@],
        ),
    }
}

/// Describe a repair command without executing it.
pub fn describe_repair(command: &RepairCommand) -> (spec: CommandSpec)
    ensures
        spec@ == repair_spec(*command),
{
    let spec = match command {
        RepairCommand::Status => make_spec(
            String::from_str("sdk repair status"),
            "Inspect repairable SDK targets without proposing mutation.",
            StateSurface::ReadOnly,
            vec![],
            vec!["display repair target health"],
        ),
        RepairCommand::Plan { .. } => make_spec(
            String::from_str("sdk repair plan"),
            "Prepare a repair plan without applying it.",
            StateSurface::RepairPlan,
            vec!["repair target is known"],
            vec!["compute proposed repair operations"],
        ),
        RepairCommand::Apply { .. } => make_spec(
            String::from_str("sdk repair apply"),
            "Apply repairs for an SDK target.",
            StateSurface::RepairApply,
            vec!["repair target is known", "planned mutations are acceptable"],
            vec!["repair selected SDK-managed state"],
        ),
    };
    assert(spec@ =~= repair_spec(*command));
    spec
}

/// The specification of a template command.
pub open spec fn template_spec(command: TemplateCommand) -> CommandSpecView {
    match command {
        TemplateCommand::List => spec_of(
            "sdk template list"@,
            "List available authoring templates."@,
            StateSurface::ReadOnly,
            seq![],
            seq!["display requested information"@],
        ),
        TemplateCommand::Info => spec_of(
            "sdk template info"@,
            "Inspect template metadata and intended use."@,
            StateSurface::ReadOnly,
            seq![],
            seq!["display requested information"@],
        ),
    }
}

/// Describe a template command without executing it.
pub fn describe_template(command: &TemplateCommand) -> (spec: CommandSpec)
    ensures
        spec@ == template_spec(*command),
{
    let spec = match command {
        TemplateCommand::List => make_spec(
            String::from_str("sdk template list"),
            "List available authoring templates.",
            StateSurface::ReadOnly,
            vec![],
            vec!["display requested information"],
        ),
        TemplateCommand::Info => make_spec(
            String::from_str("sdk template info"),
            "Inspect template metadata and intended use.",
            StateSurface::ReadOnly,
            vec![],
            vec!["display requested information"],
        ),
    };
    assert(spec@ =~= template_spec(*command));
    spec
}

/// The specification of a toolchain command.
pub open spec fn toolchain_spec(command: ToolchainCommand) -> CommandSpecView {
    match command {
        ToolchainCommand::Status => spec_of(
            "sdk toolchain status"@,
            "Inspect pinned Rust/Cargo/toolchain state."@,
            StateSurface::ReadOnly,
            seq![],
            seq!["display pinned toolchain state"@],
        ),
        ToolchainCommand::Install => spec_of(
            "sdk toolchain install"@,
            "Install the pinned Rust/Cargo toolchain through Rustup."@,
            StateSurface::Toolchain,
            seq!["toolchain pin is known"@, "Rustup is available from VAPOR_HOME/rustup/bin or PATH"@],
            seq!["invoke Rustup with Vapor-owned RUSTUP_HOME and CARGO_HOME"@, "install required components and target standard libraries"@, "leave Rustup responsible for Rust distribution details"@],
        ),
        ToolchainCommand::Repair => spec_of(
            "sdk toolchain repair"@,
            "Repair the pinned Rust/Cargo toolchain installation."@,
            StateSurface::Toolchain,
            seq!["toolchain pin is known"@],
            seq!["repair or reinstall damaged toolchain components"@],
        ),
    }
}

/// Describe a toolchain command without executing it.
pub fn describe_toolchain(command: &ToolchainCommand) -> (spec: CommandSpec)
    ensures
        spec@ == toolchain_spec(*command),
{
    let spec = match command {
        ToolchainCommand::Status => make_spec(
            String::from_str("sdk toolchain status"),
            "Inspect pinned Rust/Cargo/toolchain state.",
            StateSurface::ReadOnly,
            vec![],
            vec!["display pinned toolchain state"],
        ),
        ToolchainCommand::Install => make_spec(
            String::from_str("sdk toolchain install"),
            "Install the pinned Rust/Cargo toolchain through Rustup.",
            StateSurface::Toolchain,
            vec!["toolchain pin is known", "Rustup is available from VAPOR_HOME/rustup/bin or PATH"],
            vec!["invoke Rustup with Vapor-owned RUSTUP_HOME and CARGO_HOME", "install required components and target standard libraries", "leave Rustup responsible for Rust distribution details"],
        ),
        ToolchainCommand::Repair => make_spec(
            String::from_str("sdk toolchain repair"),
            "Repair the pinned Rust/Cargo toolchain installation.",
            StateSurface::Toolchain,
            vec!["toolchain pin is known"],
            vec!["repair or reinstall damaged toolchain components"],
        ),
    };
    assert(spec@ =~= toolchain_spec(*command));
    spec
}

/// The specification of a environment command.
pub open spec fn environment_spec(command: EnvironmentCommand) -> CommandSpecView {
    match command {
        EnvironmentCommand::Status => spec_of(
            "sdk env"@,
            "Show the app-root shell environment Vapor expects humans to activate."@,
            StateSurface::Environment,
            seq![],
            seq!["display the app-root activation script"@, "display process environment variables and PATH entries used by Vapor tools"@],
        ),
    }
}

/// Describe a environment command without executing it.
pub fn describe_environment(command: &EnvironmentCommand) -> (spec: CommandSpec)
    ensures
        spec@ == environment_spec(*command),
{
    let spec = match command {
        EnvironmentCommand::Status => make_spec(
            String::from_str("sdk env"),
            "Show the app-root shell environment Vapor expects humans to activate.",
            StateSurface::Environment,
            vec![],
            vec!["display the app-root activation script", "display process environment variables and PATH entries used by Vapor tools"],
        ),
    };
    assert(spec@ =~= environment_spec(*command));
    spec
}

/// The specification of a steam command.
pub open spec fn steam_spec(command: SteamCommand) -> CommandSpecView {
    match command {
        SteamCommand::Status(_) => spec_of(
            "sdk steam status"@,
            "Inspect SteamCMD availability and Vapor Steam state paths."@,
            StateSurface::Steam,
            seq![],
            seq!["display the SteamCMD executable Vapor would call"@, "display the app-root Steam state directory reserved for Vapor tooling"@],
        ),
        SteamCommand::Login(_) => spec_of(
            "sdk steam login"@,
            "Run SteamCMD login without Vapor seeing the password or Steam Guard code."@,
            StateSurface::Steam,
            seq!["SteamCMD must be available through --steamcmd or PATH"@],
            seq!["invoke SteamCMD with +login and +quit"@, "let SteamCMD prompt for password and Steam Guard if needed"@, "let SteamCMD persist its own login token/config according to SteamCMD behavior"@],
        ),
    }
}

/// Describe a steam command without executing it.
pub fn describe_steam(command: &SteamCommand) -> (spec: CommandSpec)
    ensures
        spec@ == steam_spec(*command),
{
    let spec = match command {
        SteamCommand::Status(_) => make_spec(
            String::from_str("sdk steam status"),
            "Inspect SteamCMD availability and Vapor Steam state paths.",
            StateSurface::Steam,
            vec![],
            vec!["display the SteamCMD executable Vapor would call", "display the app-root Steam state directory reserved for Vapor tooling"],
        ),
        SteamCommand::Login(_) => make_spec(
            String::from_str("sdk steam login"),
            "Run SteamCMD login without Vapor seeing the password or Steam Guard code.",
            StateSurface::Steam,
            vec!["SteamCMD must be available through --steamcmd or PATH"],
            vec!["invoke SteamCMD with +login and +quit", "let SteamCMD prompt for password and Steam Guard if needed", "let SteamCMD persist its own login token/config according to SteamCMD behavior"],
        ),
    };
    assert(spec@ =~= steam_spec(*command));
    spec
}

/// The specification of a workspace command.
pub open spec fn workspace_spec(command: WorkspaceCommand) -> CommandSpecView {
    match command {
        WorkspaceCommand::Status => spec_of(
            "sdk workspace status"@,
            "Inspect the current Vapor workspace identity and managed structure."@,
            StateSurface::ReadOnly,
            seq!["Vapor.toml exists at or above the invocation directory"@],
            seq!["display workspace kind, id, root, and managed structure state"@],
        ),
        WorkspaceCommand::Sync => spec_of(
            "sdk workspace sync"@,
            "Create or update SDK-managed custom-content workspace structure."@,
            StateSurface::AuthoredSource,
            seq!["workspace kind is custom-content"@],
            seq!["create missing managed workspace files and directories"@],
        ),
        WorkspaceCommand::Check => spec_of(
            "sdk check"@,
            "Check the current workspace through the Vapor-managed Cargo binary."@,
            StateSurface::BuildArtifact,
            seq!["Vapor toolchain is installed"@],
            seq!["run cargo check without falling back to system Cargo"@],
        ),
        WorkspaceCommand::Fmt => spec_of(
            "sdk fmt"@,
            "Format the current workspace through the Vapor-managed Cargo binary."@,
            StateSurface::BuildArtifact,
            seq!["Vapor toolchain is installed"@],
            seq!["run cargo fmt without falling back to system Cargo or rustup"@],
        ),
        WorkspaceCommand::Build => spec_of(
            "sdk build"@,
            "Build the current workspace through the Vapor-managed Cargo binary."@,
            StateSurface::BuildArtifact,
            seq!["Vapor toolchain is installed"@],
            seq!["write build artifacts under the Vapor output root"@],
        ),
        WorkspaceCommand::Deploy => spec_of(
            "sdk deploy"@,
            "Build and promote the current first-party tool CLI into the executable-root bin directory."@,
            StateSurface::BuildArtifact,
            seq!["Vapor toolchain is installed"@, "current workspace kind is sdk or launcher"@],
            seq!["replace the deployed tool CLI from the Vapor output root"@],
        ),
    }
}

/// Describe a workspace command without executing it.
pub fn describe_workspace(command: &WorkspaceCommand) -> (spec: CommandSpec)
    ensures
        spec@ == workspace_spec(*command),
{
    let spec = match command {
        WorkspaceCommand::Status => make_spec(
            String::from_str("sdk workspace status"),
            "Inspect the current Vapor workspace identity and managed structure.",
            StateSurface::ReadOnly,
            vec!["Vapor.toml exists at or above the invocation directory"],
            vec!["display workspace kind, id, root, and managed structure state"],
        ),
        WorkspaceCommand::Sync => make_spec(
            String::from_str("sdk workspace sync"),
            "Create or update SDK-managed custom-content workspace structure.",
            StateSurface::AuthoredSource,
            vec!["workspace kind is custom-content"],
            vec!["create missing managed workspace files and directories"],
        ),
        WorkspaceCommand::Check => make_spec(
            String::from_str("sdk check"),
            "Check the current workspace through the Vapor-managed Cargo binary.",
            StateSurface::BuildArtifact,
            vec!["Vapor toolchain is installed"],
            vec!["run cargo check without falling back to system Cargo"],
        ),
        WorkspaceCommand::Fmt => make_spec(
            String::from_str("sdk fmt"),
            "Format the current workspace through the Vapor-managed Cargo binary.",
            StateSurface::BuildArtifact,
            vec!["Vapor toolchain is installed"],
            vec!["run cargo fmt without falling back to system Cargo or rustup"],
        ),
        WorkspaceCommand::Build => make_spec(
            String::from_str("sdk build"),
            "Build the current workspace through the Vapor-managed Cargo binary.",
            StateSurface::BuildArtifact,
            vec!["Vapor toolchain is installed"],
            vec!["write build artifacts under the Vapor output root"],
        ),
        WorkspaceCommand::Deploy => make_spec(
            String::from_str("sdk deploy"),
            "Build and promote the current first-party tool CLI into the executable-root bin directory.",
            StateSurface::BuildArtifact,
            vec!["Vapor toolchain is installed", "current workspace kind is sdk or launcher"],
            vec!["replace the deployed tool CLI from the Vapor output root"],
        ),
    };
    assert(spec@ =~= workspace_spec(*command));
    spec
}

/// The action line of a content command: `sdk <kind> <verb>`.
pub open spec fn content_action(content_type: ContentType, verb: Seq<char>) -> Seq<char> {
    "sdk "@ + content_type_name(content_type) + " "@ + verb
}

fn content_action_text(content_type: ContentType, verb: &str) -> (action: String)
    ensures
        action@ == content_action(content_type, verb@),
{
    let mut action = String::from_str("sdk ");
    action.append(content_type.as_str());
    action.append(" ");
    action.append(verb);
    action
}

/// The verb of a content read command.
pub open spec fn read_verb(command: ContentReadCommand) -> Seq<char> {
    match command {
        ContentReadCommand::List { .. } => "list"@,
        ContentReadCommand::Status { .. } => "status"@,
        ContentReadCommand::Fingerprint { .. } => "fingerprint"@,
        ContentReadCommand::Inspect { .. } => "inspect"@,
        ContentReadCommand::Validate { .. } => "validate"@,
    }
}

/// The specification of a content read command.
pub open spec fn read_spec(content_type: ContentType, command: ContentReadCommand) -> CommandSpecView {
    spec_of(
        content_action(content_type, read_verb(command)),
        "Read SDK-known authored or discoverable content state."@,
        StateSurface::ReadOnly,
        seq![],
        seq!["display requested information"@],
    )
}

fn describe_read(content_type: ContentType, command: &ContentReadCommand) -> (spec: CommandSpec)
    ensures
        spec@ == read_spec(content_type, *command),
{
    let verb = match command {
        ContentReadCommand::List { .. } => "list",
        ContentReadCommand::Status { .. } => "status",
        ContentReadCommand::Fingerprint { .. } => "fingerprint",
        ContentReadCommand::Inspect { .. } => "inspect",
        ContentReadCommand::Validate { .. } => "validate",
    };
    let spec = make_spec(
        content_action_text(content_type, verb),
        "Read SDK-known authored or discoverable content state.",
        StateSurface::ReadOnly,
        vec![],
        vec!["display requested information"],
    );
    assert(spec@ =~= read_spec(content_type, *command));
    spec
}

/// The verb, summary, and surface of a source authoring command.
pub open spec fn author_parts(command: SourceAuthoringCommand) -> (Seq<char>, Seq<char>, StateSurface) {
    match command {
        SourceAuthoringCommand::New { .. } => (
            "new"@,
            "Create a new source project."@,
            StateSurface::AuthoredSource,
        ),
        SourceAuthoringCommand::Init { .. } => (
            "init"@,
            "Initialize the current empty directory as a source project."@,
            StateSurface::AuthoredSource,
        ),
        SourceAuthoringCommand::Build { .. } => (
            "build"@,
            "Build source artifacts."@,
            StateSurface::BuildArtifact,
        ),
        SourceAuthoringCommand::Package { .. } => (
            "package"@,
            "Package content for distribution."@,
            StateSurface::BuildArtifact,
        ),
        SourceAuthoringCommand::Publish { .. } => (
            "publish"@,
            "Publish content through configured release channels."@,
            StateSurface::Publication,
        ),
    }
}

/// The specification of a source authoring command.
pub open spec fn author_spec(content_type: ContentType, command: SourceAuthoringCommand) -> CommandSpecView {
    let (verb, summary, surface) = author_parts(command);
    spec_of(
        content_action(content_type, verb),
        summary,
        surface,
        seq!["content identity is valid for this command"@],
        seq!["perform the authored-content workflow when implemented"@],
    )
}

fn describe_author(content_type: ContentType, command: &SourceAuthoringCommand) -> (spec: CommandSpec)
    ensures
        spec@ == author_spec(content_type, *command),
{
    let (verb, summary, surface) = match command {
        SourceAuthoringCommand::New { .. } => (
            "new",
            "Create a new source project.",
            StateSurface::AuthoredSource,
        ),
        SourceAuthoringCommand::Init { .. } => (
            "init",
            "Initialize the current empty directory as a source project.",
            StateSurface::AuthoredSource,
        ),
        SourceAuthoringCommand::Build { .. } => (
            "build",
            "Build source artifacts.",
            StateSurface::BuildArtifact,
        ),
        SourceAuthoringCommand::Package { .. } => (
            "package",
            "Package content for distribution.",
            StateSurface::BuildArtifact,
        ),
        SourceAuthoringCommand::Publish { .. } => (
            "publish",
            "Publish content through configured release channels.",
            StateSurface::Publication,
        ),
    };
    let spec = make_spec(
        content_action_text(content_type, verb),
        summary,
        surface,
        vec!["content identity is valid for this command"],
        vec!["perform the authored-content workflow when implemented"],
    );
    assert(spec@ =~= author_spec(content_type, *command));
    spec
}

/// The specification shared by every pack composition mutation.
pub open spec fn composition_spec(action: Seq<char>, summary: Seq<char>) -> CommandSpecView {
    spec_of(
        action,
        summary,
        StateSurface::AuthoredComposition,
        seq![
            "target pack source is available"@,
            "child type is allowed by the parent pack type"@,
        ],
        seq!["update authored pack membership or active selection when implemented"@],
    )
}

fn make_composition_spec(action: String, summary: &'static str) -> (spec: CommandSpec)
    ensures
        spec@ == composition_spec(action@, summary@),
{
    let spec = make_spec(
        action,
        summary,
        StateSurface::AuthoredComposition,
        vec!["target pack source is available", "child type is allowed by the parent pack type"],
        vec!["update authored pack membership or active selection when implemented"],
    );
    assert(spec@ =~= composition_spec(action@, summary@));
    spec
}

/// The verb of a pack composition mutation.
pub open spec fn compose_verb(command: PackCompositionCommand) -> Seq<char> {
    match command {
        PackCompositionCommand::Add { .. } => "add"@,
        PackCompositionCommand::Remove { .. } => "remove"@,
        PackCompositionCommand::Select { .. } => "select"@,
        PackCompositionCommand::Unselect { .. } => "unselect"@,
    }
}

/// The specification of a pack composition mutation.
pub open spec fn compose_spec(pack_type: ContentType, command: PackCompositionCommand) -> CommandSpecView {
    composition_spec(
        content_action(pack_type, compose_verb(command)),
        "Mutate child membership or active child selection inside an authored pack."@,
    )
}

fn describe_composition(pack_type: ContentType, command: &PackCompositionCommand) -> (spec: CommandSpec)
    ensures
        spec@ == compose_spec(pack_type, *command),
{
    let verb = match command {
        PackCompositionCommand::Add { .. } => "add",
        PackCompositionCommand::Remove { .. } => "remove",
        PackCompositionCommand::Select { .. } => "select",
        PackCompositionCommand::Unselect { .. } => "unselect",
    };
    make_composition_spec(
        content_action_text(pack_type, verb),
        "Mutate child membership or active child selection inside an authored pack.",
    )
}

/// The specification of a packagepack command.
pub open spec fn packagepack_spec(command: PackagepackCommand) -> CommandSpecView {
    match command {
        PackagepackCommand::Read(read) => read_spec(ContentType::Packagepack, read),
        PackagepackCommand::Author(author) => author_spec(ContentType::Packagepack, author),
        PackagepackCommand::Compose(compose) => compose_spec(ContentType::Packagepack, compose),
        PackagepackCommand::Lock { .. } => composition_spec(
            "sdk packagepack lock"@,
            "Write a persistent packagepack lock artifact from the resolved authored graph."@,
        ),
    }
}

/// Describe a packagepack command without executing it.
pub fn describe_packagepack(command: &PackagepackCommand) -> (spec: CommandSpec)
    ensures
        spec@ == packagepack_spec(*command),
{
    match command {
        PackagepackCommand::Read(read) => describe_read(ContentType::Packagepack, read),
        PackagepackCommand::Author(author) => describe_author(ContentType::Packagepack, author),
        PackagepackCommand::Compose(compose) => describe_composition(ContentType::Packagepack, compose),
        PackagepackCommand::Lock { .. } => make_composition_spec(
            String::from_str("sdk packagepack lock"),
            "Write a persistent packagepack lock artifact from the resolved authored graph.",
        ),
    }
}

/// The specification of a command on a non-root pack.
pub open spec fn pack_spec(pack_type: ContentType, command: PackCommand) -> CommandSpecView {
    match command {
        PackCommand::Read(read) => read_spec(pack_type, read),
        PackCommand::Author(author) => author_spec(pack_type, author),
        PackCommand::Compose(compose) => compose_spec(pack_type, compose),
    }
}

/// Describe a command on a non-root pack without executing it.
pub fn describe_pack(pack_type: ContentType, command: &PackCommand) -> (spec: CommandSpec)
    ensures
        spec@ == pack_spec(pack_type, *command),
{
    match command {
        PackCommand::Read(read) => describe_read(pack_type, read),
        PackCommand::Author(author) => describe_author(pack_type, author),
        PackCommand::Compose(compose) => describe_composition(pack_type, compose),
    }
}

/// The specification of a command on leaf content.
pub open spec fn leaf_spec(content_type: ContentType, command: LeafCommand) -> CommandSpecView {
    match command {
        LeafCommand::Read(read) => read_spec(content_type, read),
        LeafCommand::Author(author) => author_spec(content_type, author),
    }
}

/// Describe a command on leaf content without executing it.
pub fn describe_leaf(content_type: ContentType, command: &LeafCommand) -> (spec: CommandSpec)
    ensures
        spec@ == leaf_spec(content_type, *command),
{
    match command {
        LeafCommand::Read(read) => describe_read(content_type, read),
        LeafCommand::Author(author) => describe_author(content_type, author),
    }
}

/// The specification of a root release command.
pub open spec fn root_spec(command: RootCommand) -> CommandSpecView {
    match command {
        RootCommand::Package(request) => spec_of(
            if request.plan { "sdk root package --plan"@ } else { "sdk root package"@ },
            "Assemble the Steam redistributable root package and SteamPipe app build script."@,
            StateSurface::RootRelease,
            seq![
                "the SDK executable root must contain bin/ and rust-toolchain/active/"@,
                "the package output is generated under the SDK executable root output/ directory"@,
                "cargo-home/ and output/ are never included in the Steam redistributable content"@,
            ],
            seq![
                "refresh the managed root package content directory"@,
                "write a SteamPipe app build VDF for the configured AppID and DepotID"@,
            ],
        ),
        RootCommand::Publish(request) => spec_of(
            if request.plan { "sdk root publish --plan"@ } else { "sdk root publish"@ },
            "Assemble the root package and upload it through SteamCMD."@,
            StateSurface::RootRelease,
            seq![
                "the Steam account must have permission to upload the configured AppID and DepotID"@,
                "SteamCMD must be available through --steamcmd or PATH"@,
                "SteamCMD may prompt for password and Steam Guard when no login token exists"@,
            ],
            seq![
                "run SteamCMD with +login and +run_app_build"@,
                "upload the generated root package through SteamPipe"@,
                "leave Steamworks branch activation manual unless --set-live names a beta branch"@,
            ],
        ),
    }
}

/// Describe a root release command without executing it.
pub fn describe_root(command: &RootCommand) -> (spec: CommandSpec)
    ensures
        spec@ == root_spec(*command),
{
    let spec = match command {
        RootCommand::Package(request) => make_spec(
            String::from_str(if request.plan { "sdk root package --plan" } else { "sdk root package" }),
            "Assemble the Steam redistributable root package and SteamPipe app build script.",
            StateSurface::RootRelease,
            vec![
                "the SDK executable root must contain bin/ and rust-toolchain/active/",
                "the package output is generated under the SDK executable root output/ directory",
                "cargo-home/ and output/ are never included in the Steam redistributable content",
            ],
            vec![
                "refresh the managed root package content directory",
                "write a SteamPipe app build VDF for the configured AppID and DepotID",
            ],
        ),
        RootCommand::Publish(request) => make_spec(
            String::from_str(if request.plan { "sdk root publish --plan" } else { "sdk root publish" }),
            "Assemble the root package and upload it through SteamCMD.",
            StateSurface::RootRelease,
            vec![
                "the Steam account must have permission to upload the configured AppID and DepotID",
                "SteamCMD must be available through --steamcmd or PATH",
                "SteamCMD may prompt for password and Steam Guard when no login token exists",
            ],
            vec![
                "run SteamCMD with +login and +run_app_build",
                "upload the generated root package through SteamPipe",
                "leave Steamworks branch activation manual unless --set-live names a beta branch",
            ],
        ),
    };
    assert(spec@ =~= root_spec(*command));
    spec
}

/// The specification of any SDK command.
pub open spec fn command_spec(command: SdkCommand) -> CommandSpecView {
    match command {
        SdkCommand::Version => spec_of(
            "sdk version"@,
            "Print SDK version and build identity."@,
            StateSurface::ReadOnly,
            seq![],
            seq!["display version metadata"@],
        ),
        SdkCommand::Status => spec_of(
            "sdk status"@,
            "Summarize SDK health and authoring environment state."@,
            StateSurface::ReadOnly,
            seq![],
            seq!["display toolchain, template, and project state"@],
        ),
        SdkCommand::Environment(command) => environment_spec(command),
        SdkCommand::Root(command) => root_spec(command),
        SdkCommand::Steam(command) => steam_spec(command),
        SdkCommand::Workspace(command) => workspace_spec(command),
        SdkCommand::Repair(command) => repair_spec(command),
        SdkCommand::Toolchain(command) => toolchain_spec(command),
        SdkCommand::Template(command) => template_spec(command),
        SdkCommand::Packagepack(command) => packagepack_spec(command),
        SdkCommand::Pack { pack_type, command } => pack_spec(pack_type, command),
        SdkCommand::Leaf { content_type, command } => leaf_spec(content_type, command),
    }
}

/// Describe an SDK command without executing it.
pub fn describe_command(command: &SdkCommand) -> (spec: CommandSpec)
    ensures
        spec@ == command_spec(*command),
{
    match command {
        SdkCommand::Version => {
            let spec = make_spec(
                String::from_str("sdk version"),
                "Print SDK version and build identity.",
                StateSurface::ReadOnly,
                vec![],
                vec!["display version metadata"],
            );
            assert(spec@ =~= command_spec(*command));
            spec
        },
        SdkCommand::Status => {
            let spec = make_spec(
                String::from_str("sdk status"),
                "Summarize SDK health and authoring environment state.",
                StateSurface::ReadOnly,
                vec![],
                vec!["display toolchain, template, and project state"],
            );
            assert(spec@ =~= command_spec(*command));
            spec
        },
        SdkCommand::Environment(command) => describe_environment(command),
        SdkCommand::Root(command) => describe_root(command),
        SdkCommand::Steam(command) => describe_steam(command),
        SdkCommand::Workspace(command) => describe_workspace(command),
        SdkCommand::Repair(command) => describe_repair(command),
        SdkCommand::Toolchain(command) => describe_toolchain(command),
        SdkCommand::Template(command) => describe_template(command),
        SdkCommand::Packagepack(command) => describe_packagepack(command),
        SdkCommand::Pack { pack_type, command } => describe_pack(*pack_type, command),
        SdkCommand::Leaf { content_type, command } => describe_leaf(*content_type, command),
    }
}

} // verus!

//! SDK workspace workflows backed by the Vapor-managed Cargo binary.
//!
//! The caller locates `Vapor.toml`, probes and writes files, and runs Cargo;
//! the functions here decide the workspace identity, the managed structure to
//! sync, the Cargo invocation, and the deploy layout.

use vstd::prelude::*;

use crate::environment::{is_environment_report, EnvironmentReport, ACTIVATION_SCRIPT};
use crate::manifest::{manifest_string, toml_lookup};
use crate::options::GlobalOptions;
use crate::outcome::ProcessExit;
use crate::path::{
    file_name, is_absolute, is_simple_name, join_path, lemma_file_name_has_parent,
    lemma_file_name_of_join, lemma_join_ends_plainly, lemma_parent_is_shorter, lemma_parent_of_join, parent, path_file_name, path_is_absolute,
    path_join, path_parent, path_strip_prefix, paths_equal, same_path, stripped_prefix,
};
use crate::root::{
    decimal, decimal_text, BIN_DIR, LAUNCHER_CLI_ALIAS, LAUNCHER_CLI_BINARY, SDK_CLI_ALIAS,
    SDK_CLI_BINARY,
};
use crate::probe::{first_present, lemma_first_present_bounds};
use crate::text::{enclosed, prefixed, text_eq};
use crate::toolchain::{
    executable_name, install_state_name, status_error_message, unsupported_host_message,
    status_layout_view, toolchain_layout_view, ToolchainInstallState, ToolchainStatus,
    ToolchainStatusError, ACTIVE_TOOLCHAIN_BIN_DIR, CARGO_HOME_DIR,
};

verus! {

/// The manifest file that marks a Vapor workspace root.
pub const WORKSPACE_MANIFEST: &'static str = "Vapor.toml";

/// Workspace kind of custom-content workspaces, the kind `sync` manages.
pub const CUSTOM_CONTENT_KIND: &'static str = "custom-content";

/// Cargo target directory under the output root.
pub const CARGO_TARGET_DIR: &'static str = "cargo-target";

/// Cargo profile directory holding development builds.
pub const DEV_ARTIFACT_DIR: &'static str = "debug";

/// Cargo workspace manifest written into custom-content workspaces.
pub const MANAGED_CARGO_WORKSPACE: &'static str = "[workspace]\nresolver = \"3\"\nmembers = [\"crates/workspace_anchor\"]\n\n[workspace.package]\nversion = \"0.5.0\"\nedition = \"2024\"\n";

/// Manifest of the anchor crate that keeps the Cargo workspace non-empty.
pub const ANCHOR_CARGO_TOML: &'static str = "[package]\nname = \"vapor_workspace_anchor\"\nversion.workspace = true\nedition.workspace = true\n";

/// Source of the anchor crate.
pub const ANCHOR_LIB_RS: &'static str = "#![forbid(unsafe_code)]\n\npub const WORKSPACE_ANCHOR: &str = \"vapor_workspace_anchor\";\n";

/// Commands that operate on the current authoring workspace.
#[derive(Debug, Clone, Copy, PartialEq, Eq, Structural)]
pub enum WorkspaceCommand {
    /// Inspect the current Vapor workspace identity and managed structure.
    Status,
    /// Create or update SDK-managed workspace structure.
    Sync,
    /// Run `cargo check` through the Vapor-managed Cargo binary.
    Check,
    /// Run `cargo fmt` through the Vapor-managed Cargo binary.
    Fmt,
    /// Run `cargo build --workspace` through the Vapor-managed Cargo binary.
    Build,
    /// Build and promote the first-party tool CLI into the executable-root `bin` directory.
    Deploy,
}

/// Error returned while running a Vapor-managed workspace command.
#[derive(Debug, Clone, PartialEq, Eq)]
pub enum WorkspaceCommandError {
    ToolchainStatus(ToolchainStatusError),
    /// A filesystem or process operation failed; the text explains why.
    Io(String),
    /// `PATH` could not be rebuilt; the text explains why.
    JoinPaths(String),
    /// `Vapor.toml` is not valid TOML; the text is the parser's explanation.
    ManifestToml(String),
    UnsupportedHost(String),
    ToolchainNotInstalled(ToolchainInstallState),
    MissingWorkspaceManifest(String),
    WrongWorkspaceKind { expected: String, actual: Option<String> },
    /// The build before a deploy failed.
    BuildFailedBeforeDeploy(ProcessExit),
    MissingBuiltExecutable(String),
    ExecutableHasNoFileName(String),
}

/// The text of a workspace command error.
pub open spec fn workspace_error_message(error: WorkspaceCommandError) -> Seq<char> {
    match error {
        WorkspaceCommandError::ToolchainStatus(inner) => status_error_message(inner),
        WorkspaceCommandError::Io(text) => "workspace command failed: "@ + text@,
        WorkspaceCommandError::JoinPaths(text) => "failed to build Vapor PATH: "@ + text@,
        WorkspaceCommandError::ManifestToml(text) => "failed to parse workspace Vapor.toml: "@ + text@,
        WorkspaceCommandError::UnsupportedHost(host) => unsupported_host_message(host@),
        WorkspaceCommandError::ToolchainNotInstalled(state) => "Vapor toolchain is not installed: "@
            + install_state_name(state),
        WorkspaceCommandError::MissingWorkspaceManifest(path) => "missing workspace manifest `"@ + path@
            + "`"@,
        WorkspaceCommandError::WrongWorkspaceKind { expected, actual } => "workspace kind must be `"@
            + expected@ + "`, found `"@ + match actual {
            Some(kind) => kind@,
            None => "none"@,
        } + "`"@,
        WorkspaceCommandError::BuildFailedBeforeDeploy(status) => "Vapor-managed cargo build failed before deploy with "@
            + status.description@,
        WorkspaceCommandError::MissingBuiltExecutable(path) => "missing built executable `"@ + path@
            + "`"@,
        WorkspaceCommandError::ExecutableHasNoFileName(path) => "deployed executable path has no file name: `"@
            + path@ + "`"@,
    }
}

impl WorkspaceCommandError {
    /// The text shown for this error.
    pub fn message(&self) -> (text: String)
        ensures
            text@ == workspace_error_message(*self),
    {
        match self {
            WorkspaceCommandError::ToolchainStatus(inner) => inner.message(),
            WorkspaceCommandError::Io(text) => prefixed("workspace command failed: ", text.as_str()),
            WorkspaceCommandError::JoinPaths(text) => prefixed("failed to build Vapor PATH: ", text.as_str()),
            WorkspaceCommandError::ManifestToml(text) => prefixed(
                "failed to parse workspace Vapor.toml: ",
                text.as_str(),
            ),
            WorkspaceCommandError::UnsupportedHost(host) => enclosed(
                "host triple `",
                host.as_str(),
                "` is not supported by this Vapor toolchain pin",
            ),
            WorkspaceCommandError::ToolchainNotInstalled(state) => prefixed(
                "Vapor toolchain is not installed: ",
                state.as_str(),
            ),
            WorkspaceCommandError::MissingWorkspaceManifest(path) => enclosed(
                "missing workspace manifest `",
                path.as_str(),
                "`",
            ),
            WorkspaceCommandError::WrongWorkspaceKind { expected, actual } => {
                let mut text = enclosed("workspace kind must be `", expected.as_str(), "`, found `");
                match actual {
                    Some(kind) => text.append(kind.as_str()),
                    None => text.append("none"),
                }
                text.append("`");
                text
            },
            WorkspaceCommandError::BuildFailedBeforeDeploy(status) => prefixed(
                "Vapor-managed cargo build failed before deploy with ",
                status.description.as_str(),
            ),
            WorkspaceCommandError::MissingBuiltExecutable(path) => enclosed(
                "missing built executable `",
                path.as_str(),
                "`",
            ),
            WorkspaceCommandError::ExecutableHasNoFileName(path) => enclosed(
                "deployed executable path has no file name: `",
                path.as_str(),
                "`",
            ),
        }
    }
}

/// Where the workspace manifest search starts: the `--workspace` path
/// (relative to the invocation directory), or the invocation directory.
pub open spec fn search_start(invocation_directory: Seq<char>, workspace: Option<Seq<char>>) -> Seq<char> {
    match workspace {
        None => invocation_directory,
        Some(path) => if is_absolute(path) {
            path
        } else {
            path_join(invocation_directory, path)
        },
    }
}

/// The directory where the search for `Vapor.toml` starts.
pub fn workspace_search_start(invocation_directory: &str, globals: &GlobalOptions) -> (start: String)
    ensures
        start@ == search_start(invocation_directory@, globals.workspace.deep_view()),
{
    match &globals.workspace {
        None => String::from_str(invocation_directory),
        Some(workspace) => {
            if path_is_absolute(workspace.as_str()) {
                workspace.clone()
            } else {
                join_path(invocation_directory, workspace.as_str())
            }
        },
    }
}

/// The directories searched for `Vapor.toml`, from `start` up to the root.
pub open spec fn search_directories(start: Seq<char>) -> Seq<Seq<char>>
    decreases start.len(),
{
    match parent(start) {
        None => seq![start],
        Some(up) => if up.len() < start.len() {
            seq![start] + search_directories(up)
        } else {
            seq![start]
        },
    }
}

/// The directories holding `Vapor.toml` candidates, from `start` upwards:
/// each next one is the parent of the previous, as `PathBuf::pop` walks.
pub fn workspace_search_directories(start: &str) -> (dirs: Vec<String>)
    ensures
        dirs.deep_view() == search_directories(start@),
{
    let mut dirs: Vec<String> = Vec::new();
    let mut current = String::from_str(start);
    loop
        invariant
            dirs.deep_view() + search_directories(current@) == search_directories(start@),
        decreases current@.len(),
    {
        let up = path_parent(current.as_str());
        let ghost before = dirs.deep_view();
        let ghost here = current@;
        match up {
            Some(next) => {
                if next.unicode_len() < current.unicode_len() {
                    dirs.push(current);
                    proof {
                        assert(dirs.deep_view() =~= before.push(here));
                        assert(search_directories(here) == seq![here] + search_directories(next@));
                        assert(before + search_directories(here) =~= before.push(here)
                            + search_directories(next@));
                    }
                    current = next;
                } else {
                    dirs.push(current);
                    proof {
                        assert(dirs.deep_view() =~= before + search_directories(here));
                    }
                    return dirs;
                }
            },
            None => {
                dirs.push(current);
                proof {
                    assert(dirs.deep_view() =~= before + search_directories(here));
                }
                return dirs;
            },
        }
    }
}

/// Law: the manifest search walks up through parents the way `PathBuf::pop`
/// does. It starts at `start`, each later directory is the parent of the one
/// before it, and it ends at the first directory without a parent.
pub proof fn lemma_search_walks_parents(start: Seq<char>)
    ensures
        search_directories(start).len() >= 1,
        search_directories(start)[0] == start,
        forall|i: int|
            0 < i < search_directories(start).len() ==> parent(
                #[trigger] search_directories(start)[i - 1],
            ) == Some(search_directories(start)[i]),
        parent(search_directories(start).last()) is None,
    decreases start.len(),
{
    lemma_parent_is_shorter(start);
    match parent(start) {
        None => {},
        Some(up) => {
            lemma_search_walks_parents(up);
            let rest = search_directories(up);
            let dirs = search_directories(start);
            assert(dirs == seq![start] + rest);
            assert forall|i: int| 0 < i < dirs.len() implies parent(#[trigger] dirs[i - 1]) == Some(
                dirs[i],
            ) by {
                if i > 1 {
                    assert(dirs[i - 1] == rest[i - 2]);
                    assert(dirs[i] == rest[i - 1]);
                }
            }
            assert(dirs.last() == rest.last());
        },
    }
}

/// The `Vapor.toml` path probed in each search directory, in order.
pub fn workspace_manifest_candidates(dirs: &Vec<String>) -> (candidates: Vec<String>)
    ensures
        candidates.len() == dirs.len(),
        forall|i: int|
            0 <= i < dirs.len() ==> #[trigger] candidates.deep_view()[i] == path_join(
                dirs.deep_view()[i],
                WORKSPACE_MANIFEST@,
            ),
{
    let mut candidates: Vec<String> = Vec::new();
    let mut i: usize = 0;
    while i < dirs.len()
        invariant
            i <= dirs.len(),
            candidates.len() == i,
            forall|j: int|
                0 <= j < i ==> #[trigger] candidates.deep_view()[j] == path_join(
                    dirs.deep_view()[j],
                    WORKSPACE_MANIFEST@,
                ),
        decreases dirs.len() - i,
    {
        let ghost before = candidates.deep_view();
        let candidate = join_path(dirs[i].as_str(), WORKSPACE_MANIFEST);
        candidates.push(candidate);
        assert(candidates.deep_view() =~= before.push(candidate@));
        i = i + 1;
    }
    candidates
}

/// The workspace root: the first search directory whose `Vapor.toml` the
/// caller found to be a file.
pub open spec fn located_root(dirs: Seq<Seq<char>>, manifest_present: Seq<bool>) -> Option<Seq<char>> {
    match first_present(manifest_present) {
        Some(i) => Some(dirs[i]),
        None => None,
    }
}

/// Pick the workspace root from the search directories and the caller's
/// `is_file` answer for each directory's `Vapor.toml`; with no manifest the
/// search fails naming the invocation directory.
pub fn locate_workspace_root(
    invocation_directory: &str,
    dirs: &Vec<String>,
    manifest_present: &Vec<bool>,
) -> (root: Result<String, WorkspaceCommandError>)
    requires
        dirs.len() == manifest_present.len(),
    ensures
        located_root(dirs.deep_view(), manifest_present@) matches Some(found) ==> (root matches Ok(
            r,
        ) && r@ == found),
        located_root(dirs.deep_view(), manifest_present@) is None ==> (root matches Err(
            WorkspaceCommandError::MissingWorkspaceManifest(dir),
        ) && dir@ == invocation_directory@),
{
    proof {
        lemma_first_present_bounds(manifest_present@);
    }
    let mut i: usize = 0;
    while i < manifest_present.len()
        invariant
            dirs.len() == manifest_present.len(),
            i <= manifest_present.len(),
            forall|j: int| 0 <= j < i ==> !manifest_present@[j],
            first_present(manifest_present@) matches Some(k) ==> 0 <= k < manifest_present.len()
                && manifest_present@[k] && forall|j: int| 0 <= j < k ==> !manifest_present@[j],
            first_present(manifest_present@) is None ==> forall|j: int|
                0 <= j < manifest_present.len() ==> !manifest_present@[j],
        decreases manifest_present.len() - i,
    {
        if manifest_present[i] {
            assert(first_present(manifest_present@) == Some(i as int));
            let found = dirs[i].clone();
            assert(found@ == dirs.deep_view()[i as int]);
            return Ok(found);
        }
        i = i + 1;
    }
    assert(first_present(manifest_present@) is None);
    Err(WorkspaceCommandError::MissingWorkspaceManifest(String::from_str(invocation_directory)))
}

/// The Vapor workspace the caller found: the directory it was invoked from,
/// the directory holding `Vapor.toml`, and the manifest's `workspace.kind`
/// and `workspace.id`.
#[derive(Debug, Clone, PartialEq, Eq)]
pub struct WorkspaceIdentity {
    pub invocation_directory: String,
    pub workspace_root: String,
    pub kind: Option<String>,
    pub id: Option<String>,
}

/// Read the workspace identity out of the text of `Vapor.toml` found in
/// `workspace_root`.
pub fn workspace_identity(invocation_directory: String, workspace_root: String, manifest_text: &str) -> (identity:
    Result<WorkspaceIdentity, WorkspaceCommandError>)
    ensures
        toml_lookup(manifest_text@, "workspace"@, "kind"@) is None ==> identity matches Err(
            WorkspaceCommandError::ManifestToml(_),
        ),
        identity is Ok <==> toml_lookup(manifest_text@, "workspace"@, "kind"@) is Some
            && toml_lookup(manifest_text@, "workspace"@, "id"@) is Some,
        identity matches Ok(found) ==> {
            &&& found.invocation_directory == invocation_directory
            &&& found.workspace_root == workspace_root
            &&& Some(found.kind.deep_view()) == toml_lookup(manifest_text@, "workspace"@, "kind"@)
            &&& Some(found.id.deep_view()) == toml_lookup(manifest_text@, "workspace"@, "id"@)
        },
{
    let kind = match manifest_string(manifest_text, "workspace", "kind") {
        Ok(kind) => kind,
        Err(message) => return Err(WorkspaceCommandError::ManifestToml(message)),
    };
    let id = match manifest_string(manifest_text, "workspace", "id") {
        Ok(id) => id,
        Err(message) => return Err(WorkspaceCommandError::ManifestToml(message)),
    };
    Ok(WorkspaceIdentity { invocation_directory, workspace_root, kind, id })
}

/// `true` when the workspace kind is exactly `expected`.
pub open spec fn kind_is(kind: Option<Seq<char>>, expected: Seq<char>) -> bool {
    kind == Some(expected)
}

fn clone_text_option(value: &Option<String>) -> (copy: Option<String>)
    ensures
        copy == *value,
{
    match value {
        Some(text) => Some(text.clone()),
        None => None,
    }
}

/// Accept the workspace only when its kind is `expected`.
pub fn require_current_repo_kind(identity: WorkspaceIdentity, expected: &str) -> (checked: Result<
    WorkspaceIdentity,
    WorkspaceCommandError,
>)
    ensures
        kind_is(identity.kind.deep_view(), expected@) ==> checked == Ok::<
            WorkspaceIdentity,
            WorkspaceCommandError,
        >(identity),
        !kind_is(identity.kind.deep_view(), expected@) ==> (checked matches Err(
            WorkspaceCommandError::WrongWorkspaceKind { expected: e, actual },
        ) && e@ == expected@ && actual == identity.kind),
{
    let matches = match &identity.kind {
        Some(kind) => text_eq(kind.as_str(), expected),
        None => false,
    };
    if matches {
        Ok(identity)
    } else {
        Err(
            WorkspaceCommandError::WrongWorkspaceKind {
                expected: String::from_str(expected),
                actual: identity.kind,
            },
        )
    }
}

/// Current SDK-managed workspace structure state.
#[derive(Debug, Clone, PartialEq, Eq)]
pub struct WorkspaceStatusReport {
    pub invocation_directory: String,
    pub workspace_root: String,
    pub workspace_kind: Option<String>,
    pub workspace_id: Option<String>,
    pub cargo_manifest_exists: bool,
    pub crates_dir_exists: bool,
}

/// The Cargo manifest of a workspace root.
pub open spec fn cargo_manifest_path(root: Seq<char>) -> Seq<char> {
    path_join(root, "Cargo.toml"@)
}

/// The crates directory of a workspace root.
pub open spec fn crates_dir_path(root: Seq<char>) -> Seq<char> {
    path_join(root, "crates"@)
}

/// The paths whose presence the status reports, in order: the Cargo manifest
/// (probed as a file) and the crates directory (probed as a directory).
pub fn status_probe_paths(workspace_root: &str) -> (paths: (String, String))
    ensures
        paths.0@ == cargo_manifest_path(workspace_root@),
        paths.1@ == crates_dir_path(workspace_root@),
{
    (join_path(workspace_root, "Cargo.toml"), join_path(workspace_root, "crates"))
}

/// `report` shows `identity` with the probed structure.
pub open spec fn is_status_report(
    report: WorkspaceStatusReport,
    identity: WorkspaceIdentity,
    cargo_manifest_exists: bool,
    crates_dir_exists: bool,
) -> bool {
    &&& report.invocation_directory == identity.invocation_directory
    &&& report.workspace_root == identity.workspace_root
    &&& report.workspace_kind == identity.kind
    &&& report.workspace_id == identity.id
    &&& report.cargo_manifest_exists == cargo_manifest_exists
    &&& report.crates_dir_exists == crates_dir_exists
}

/// Inspect the Vapor workspace identity and managed structure: the caller
/// probed [`status_probe_paths`] of the workspace root.
pub fn workspace_status(identity: WorkspaceIdentity, cargo_manifest_exists: bool, crates_dir_exists: bool) -> (report:
    WorkspaceStatusReport)
    ensures
        is_status_report(report, identity, cargo_manifest_exists, crates_dir_exists),
{
    WorkspaceStatusReport {
        invocation_directory: identity.invocation_directory,
        workspace_root: identity.workspace_root,
        workspace_kind: identity.kind,
        workspace_id: identity.id,
        cargo_manifest_exists,
        crates_dir_exists,
    }
}

/// One piece of managed workspace structure.
#[derive(Debug, Clone, PartialEq, Eq)]
pub enum SyncItem {
    /// A file that must hold exactly `content`.
    File { path: String, content: &'static str },
    /// A directory that must exist.
    Directory { path: String },
}

/// The model of a sync item: its path, and the content for files.
pub open spec fn sync_item_view(item: SyncItem) -> (Seq<char>, Option<Seq<char>>) {
    match item {
        SyncItem::File { path, content } => (path@, Some(content@)),
        SyncItem::Directory { path } => (path@, None),
    }
}

/// The managed structure of a custom-content workspace, in the order it is
/// synced: the Cargo workspace manifest, the crates directory, the anchor
/// crate's source directory, its manifest, and its library source.
pub open spec fn managed_structure(root: Seq<char>) -> Seq<(Seq<char>, Option<Seq<char>>)> {
    let anchor_dir = path_join(crates_dir_path(root), "workspace_anchor"@);
    let anchor_src_dir = path_join(anchor_dir, "src"@);
    seq![
        (cargo_manifest_path(root), Some(MANAGED_CARGO_WORKSPACE@)),
        (crates_dir_path(root), None),
        (anchor_src_dir, None),
        (path_join(anchor_dir, "Cargo.toml"@), Some(ANCHOR_CARGO_TOML@)),
        (path_join(anchor_src_dir, "lib.rs"@), Some(ANCHOR_LIB_RS@)),
    ]
}

/// Plan the managed structure of a custom-content workspace; any other kind
/// of workspace is refused.
pub fn workspace_sync_plan(identity: WorkspaceIdentity) -> (plan: Result<(WorkspaceIdentity, Vec<SyncItem>), WorkspaceCommandError>)
    ensures
        !kind_is(identity.kind.deep_view(), CUSTOM_CONTENT_KIND@) ==> (plan matches Err(
            WorkspaceCommandError::WrongWorkspaceKind { expected, actual },
        ) && expected@ == CUSTOM_CONTENT_KIND@ && actual == identity.kind),
        plan is Ok <==> kind_is(identity.kind.deep_view(), CUSTOM_CONTENT_KIND@),
        plan matches Ok((checked, items)) ==> checked == identity && items@.map_values(
            |item: SyncItem| sync_item_view(item),
        ) == managed_structure(identity.workspace_root@),
{
    let identity = require_current_repo_kind(identity, CUSTOM_CONTENT_KIND)?;
    let root = identity.workspace_root.as_str();
    let cargo_manifest = join_path(root, "Cargo.toml");
    let crates_dir = join_path(root, "crates");
    let anchor_dir = join_path(crates_dir.as_str(), "workspace_anchor");
    let anchor_src_dir = join_path(anchor_dir.as_str(), "src");
    let anchor_manifest = join_path(anchor_dir.as_str(), "Cargo.toml");
    let anchor_lib = join_path(anchor_src_dir.as_str(), "lib.rs");
    let items = vec![
        SyncItem::File { path: cargo_manifest, content: MANAGED_CARGO_WORKSPACE },
        SyncItem::Directory { path: crates_dir },
        SyncItem::Directory { path: anchor_src_dir },
        SyncItem::File { path: anchor_manifest, content: ANCHOR_CARGO_TOML },
        SyncItem::File { path: anchor_lib, content: ANCHOR_LIB_RS },
    ];
    assert(items@.map_values(|item: SyncItem| sync_item_view(item)) =~= managed_structure(
        identity.workspace_root@,
    ));
    Ok((identity, items))
}

/// Whether syncing `item` changes anything, given whether its path exists
/// and, for a readable file, its current text.
pub open spec fn item_changes(item: SyncItem, exists: bool, current: Option<Seq<char>>) -> bool {
    match item {
        SyncItem::Directory { .. } => !exists,
        SyncItem::File { content, .. } => current != Some(content@),
    }
}

/// What an item holds once it is in place: a file its managed content, a
/// directory nothing to read.
pub open spec fn settled_text(item: SyncItem) -> Option<Seq<char>> {
    match item {
        SyncItem::File { content, .. } => Some(content@),
        SyncItem::Directory { .. } => None,
    }
}

/// Whether syncing an item changes anything: a directory changes when it is
/// missing; a file changes unless it already is a file holding exactly the
/// managed content (`current` is its text when it is a readable file).
pub fn sync_item_changes(item: &SyncItem, exists: bool, current: &Option<String>) -> (changes: bool)
    ensures
        changes == item_changes(*item, exists, current.deep_view()),
{
    match item {
        SyncItem::Directory { .. } => !exists,
        SyncItem::File { content, .. } => match current {
            Some(text) => !text_eq(text.as_str(), content),
            None => true,
        },
    }
}

/// Law: a sync settles. An item that is in place (its path exists and a
/// file holds its managed content) is not changed by syncing again, while
/// an item whose path is missing is always written.
pub proof fn lemma_sync_settles(item: SyncItem)
    ensures
        !item_changes(item, true, settled_text(item)),
        item_changes(item, false, None),
{
}

/// The paths a sync writes, in plan order: those of the items that change
/// under the caller's probes (whether each path exists, and each readable
/// file's text).
pub open spec fn sync_changed_paths(
    items: Seq<SyncItem>,
    exists: Seq<bool>,
    current: Seq<Option<Seq<char>>>,
) -> Seq<Seq<char>>
    decreases items.len(),
{
    if items.len() == 0 {
        seq![]
    } else {
        let rest = sync_changed_paths(items.drop_last(), exists.drop_last(), current.drop_last());
        if item_changes(items.last(), exists.last(), current.last()) {
            rest.push(sync_item_view(items.last()).0)
        } else {
            rest
        }
    }
}

/// The paths to write for a sync of `items`, given the probes for each item
/// taken before anything is written.
pub fn workspace_sync_changes(items: &Vec<SyncItem>, exists: &Vec<bool>, current: &Vec<Option<String>>) -> (changed:
    Vec<String>)
    requires
        exists.len() == items.len(),
        current.len() == items.len(),
    ensures
        changed.deep_view() == sync_changed_paths(items@, exists@, current.deep_view()),
{
    let mut changed: Vec<String> = Vec::new();
    let mut i: usize = 0;
    while i < items.len()
        invariant
            i <= items.len(),
            exists.len() == items.len(),
            current.len() == items.len(),
            changed.deep_view() == sync_changed_paths(
                items@.subrange(0, i as int),
                exists@.subrange(0, i as int),
                current.deep_view().subrange(0, i as int),
            ),
        decreases items.len() - i,
    {
        let ghost before = changed.deep_view();
        let item = &items[i];
        proof {
            let n = i + 1;
            assert(items@.subrange(0, n).drop_last() =~= items@.subrange(0, i as int));
            assert(exists@.subrange(0, n).drop_last() =~= exists@.subrange(0, i as int));
            assert(current.deep_view().subrange(0, n).drop_last() =~= current.deep_view().subrange(
                0,
                i as int,
            ));
            assert(current.deep_view()[i as int] == current[i as int].deep_view());
        }
        if sync_item_changes(item, exists[i], &current[i]) {
            let path = match item {
                SyncItem::File { path, .. } => path.clone(),
                SyncItem::Directory { path } => path.clone(),
            };
            changed.push(path);
            assert(changed.deep_view() =~= before.push(sync_item_view(items@[i as int]).0));
        }
        i = i + 1;
    }
    assert(items@.subrange(0, i as int) =~= items@);
    assert(exists@.subrange(0, i as int) =~= exists@);
    assert(current.deep_view().subrange(0, i as int) =~= current.deep_view());
    changed
}

/// Law: syncing twice writes nothing the second time. Once every item is in
/// place (each path exists and each file holds its managed content), a sync
/// changes no path; on a workspace where nothing exists yet, it writes every
/// item.
pub proof fn lemma_second_sync_changes_nothing(items: Seq<SyncItem>)
    ensures
        sync_changed_paths(
            items,
            Seq::new(items.len(), |i: int| true),
            items.map_values(|item: SyncItem| settled_text(item)),
        ) == Seq::<Seq<char>>::empty(),
        sync_changed_paths(
            items,
            Seq::new(items.len(), |i: int| false),
            Seq::new(items.len(), |i: int| None::<Seq<char>>),
        ) == items.map_values(|item: SyncItem| sync_item_view(item).0),
    decreases items.len(),
{
    if items.len() > 0 {
        let rest = items.drop_last();
        lemma_second_sync_changes_nothing(rest);
        assert(Seq::new(items.len(), |i: int| true).drop_last() =~= Seq::new(rest.len(), |i: int| true));
        assert(items.map_values(|item: SyncItem| settled_text(item)).drop_last() =~= rest.map_values(
            |item: SyncItem| settled_text(item),
        ));
        assert(Seq::new(items.len(), |i: int| false).drop_last() =~= Seq::new(rest.len(), |i: int| false));
        assert(Seq::new(items.len(), |i: int| None::<Seq<char>>).drop_last() =~= Seq::new(
            rest.len(),
            |i: int| None::<Seq<char>>,
        ));
        lemma_sync_settles(items.last());
        assert(items.map_values(|item: SyncItem| sync_item_view(item).0) =~= rest.map_values(
            |item: SyncItem| sync_item_view(item).0,
        ).push(sync_item_view(items.last()).0));
    }
}

/// Result of syncing managed workspace structure.
#[derive(Debug, Clone, PartialEq, Eq)]
pub struct WorkspaceSyncReport {
    pub status: WorkspaceStatusReport,
    pub changed_paths: Vec<String>,
}

/// Report a sync of `items`: the workspace status afterwards and the paths
/// the sync creates or rewrites, given the probes for each item taken
/// before anything is written.
pub fn workspace_sync(
    status: WorkspaceStatusReport,
    items: &Vec<SyncItem>,
    exists: &Vec<bool>,
    current: &Vec<Option<String>>,
) -> (report: WorkspaceSyncReport)
    requires
        exists.len() == items.len(),
        current.len() == items.len(),
    ensures
        report.status == status,
        report.changed_paths.deep_view() == sync_changed_paths(items@, exists@, current.deep_view()),
{
    let changed_paths = workspace_sync_changes(items, exists, current);
    WorkspaceSyncReport { status, changed_paths }
}

/// Accept the toolchain for workspace commands only when the host is
/// supported and the toolchain is installed.
pub fn checked_toolchain_status(toolchain: ToolchainStatus) -> (checked: Result<ToolchainStatus, WorkspaceCommandError>)
    ensures
        !toolchain.host_supported ==> (checked matches Err(WorkspaceCommandError::UnsupportedHost(host))
            && host@ == toolchain.host_triple@),
        toolchain.host_supported && toolchain.install_state != ToolchainInstallState::PresentUnverified
            ==> checked == Err::<ToolchainStatus, WorkspaceCommandError>(
            WorkspaceCommandError::ToolchainNotInstalled(toolchain.install_state),
        ),
        checked is Ok <==> toolchain.host_supported && toolchain.install_state
            == ToolchainInstallState::PresentUnverified,
        checked matches Ok(t) ==> t == toolchain,
{
    if !toolchain.host_supported {
        return Err(WorkspaceCommandError::UnsupportedHost(toolchain.host_triple.clone()));
    }
    match toolchain.install_state {
        ToolchainInstallState::PresentUnverified => Ok(toolchain),
        _ => Err(WorkspaceCommandError::ToolchainNotInstalled(toolchain.install_state)),
    }
}

/// How to run Vapor's Cargo for a workspace command.
#[derive(Debug, Clone, PartialEq, Eq)]
pub struct CargoInvocation {
    pub cargo_path: String,
    pub rustc_path: String,
    pub working_directory: String,
    pub cargo_home: String,
    pub target_dir: String,
    pub cargo_args: Vec<String>,
    /// Directory put in front of `PATH`: the one holding `cargo`.
    pub path_prefix: String,
}

/// The Cargo arguments of each Cargo-backed workspace command.
pub open spec fn cargo_args_for(command: WorkspaceCommand) -> Seq<Seq<char>> {
    match command {
        WorkspaceCommand::Check => seq!["check"@, "--workspace"@],
        WorkspaceCommand::Fmt => seq!["fmt"@],
        WorkspaceCommand::Build => seq!["build"@, "--workspace"@],
        _ => seq![],
    }
}

/// The Cargo arguments of a Cargo-backed workspace command.
pub fn cargo_args(command: WorkspaceCommand) -> (args: Vec<String>)
    ensures
        args.deep_view() == cargo_args_for(command),
{
    let args = match command {
        WorkspaceCommand::Check => vec![String::from_str("check"), String::from_str("--workspace")],
        WorkspaceCommand::Fmt => vec![String::from_str("fmt")],
        WorkspaceCommand::Build => vec![String::from_str("build"), String::from_str("--workspace")],
        _ => Vec::new(),
    };
    assert(args.deep_view() =~= cargo_args_for(command));
    args
}

/// `invocation` runs `args` in the workspace with the active toolchain's
/// `cargo` under the Vapor home, with Vapor's Cargo home and the checked
/// toolchain's `rustc`.
pub open spec fn is_cargo_invocation(
    invocation: CargoInvocation,
    toolchain: ToolchainStatus,
    workspace_root: Seq<char>,
    args: Seq<Seq<char>>,
) -> bool {
    &&& invocation.path_prefix@ == path_join(toolchain.vapor_home@, ACTIVE_TOOLCHAIN_BIN_DIR@)
    &&& invocation.cargo_path@ == path_join(invocation.path_prefix@, executable_name("cargo"@))
    &&& invocation.rustc_path == toolchain.rustc_path
    &&& invocation.working_directory@ == workspace_root
    &&& invocation.cargo_home@ == path_join(toolchain.vapor_home@, CARGO_HOME_DIR@)
    &&& invocation.target_dir@ == path_join(toolchain.output_root@, CARGO_TARGET_DIR@)
    &&& invocation.cargo_args.deep_view() == args
}

/// Plan a Cargo run with the checked toolchain in the workspace root: the
/// active toolchain's `cargo` (`$VAPOR_HOME/toolchain/active/bin/cargo`),
/// whose directory goes in front of `PATH`.
pub fn cargo_invocation(toolchain: &ToolchainStatus, workspace_root: &str, args: Vec<String>) -> (invocation:
    CargoInvocation)
    ensures
        is_cargo_invocation(invocation, *toolchain, workspace_root@, args.deep_view()),
        parent(invocation.cargo_path@) == Some(invocation.path_prefix@),
{
    let path_prefix = join_path(toolchain.vapor_home.as_str(), ACTIVE_TOOLCHAIN_BIN_DIR);
    let cargo_path = join_path(path_prefix.as_str(), "cargo");
    proof {
        reveal_strlit("toolchain/active/bin");
        reveal_strlit("cargo");
        lemma_join_ends_plainly(toolchain.vapor_home@, ACTIVE_TOOLCHAIN_BIN_DIR@);
        assert(is_simple_name("cargo"@));
        lemma_parent_of_join(path_prefix@, "cargo"@);
    }
    CargoInvocation {
        cargo_path,
        rustc_path: toolchain.rustc_path.clone(),
        working_directory: String::from_str(workspace_root),
        cargo_home: join_path(toolchain.vapor_home.as_str(), CARGO_HOME_DIR),
        target_dir: join_path(toolchain.output_root.as_str(), CARGO_TARGET_DIR),
        cargo_args: args,
        path_prefix,
    }
}

/// Variables Vapor's Cargo must not inherit: they would select another
/// Rustup home, toolchain, or compiler wrapper.
pub open spec fn cargo_env_removed() -> Seq<Seq<char>> {
    seq!["RUSTUP_HOME"@, "RUSTUP_TOOLCHAIN"@, "RUSTC_WRAPPER"@]
}

/// The variables Vapor's Cargo runs with, in order, besides `PATH`.
pub open spec fn cargo_env_view(invocation: CargoInvocation) -> Seq<(Seq<char>, Seq<char>)> {
    seq![
        ("CARGO_HOME"@, invocation.cargo_home@),
        ("CARGO_TARGET_DIR"@, invocation.target_dir@),
        ("RUSTC"@, invocation.rustc_path@),
    ]
}

/// The variables to set for a Cargo run, and those to remove.
pub fn cargo_env(invocation: &CargoInvocation) -> (env: (Vec<(String, String)>, Vec<String>))
    ensures
        env.0@.map_values(|pair: (String, String)| (pair.0@, pair.1@)) == cargo_env_view(*invocation),
        env.1.deep_view() == cargo_env_removed(),
{
    let set = vec![
        (String::from_str("CARGO_HOME"), invocation.cargo_home.clone()),
        (String::from_str("CARGO_TARGET_DIR"), invocation.target_dir.clone()),
        (String::from_str("RUSTC"), invocation.rustc_path.clone()),
    ];
    let removed = vec![
        String::from_str("RUSTUP_HOME"),
        String::from_str("RUSTUP_TOOLCHAIN"),
        String::from_str("RUSTC_WRAPPER"),
    ];
    assert(set@.map_values(|pair: (String, String)| (pair.0@, pair.1@)) =~= cargo_env_view(*invocation));
    assert(removed.deep_view() =~= cargo_env_removed());
    (set, removed)
}

/// The value a child process sees for `name` when `vars` are set in order:
/// the last setting wins.
pub open spec fn env_value(vars: Seq<(Seq<char>, Seq<char>)>, name: Seq<char>) -> Option<Seq<char>>
    decreases vars.len(),
{
    if vars.len() == 0 {
        None
    } else if vars.last().0 == name {
        Some(vars.last().1)
    } else {
        env_value(vars.drop_last(), name)
    }
}

/// Law: a Cargo run planned for a toolchain sees Vapor's own locations.
/// `CARGO_TARGET_DIR` is `cargo-target` under the output root, `CARGO_HOME`
/// is `cargo-home` under the Vapor home, and `RUSTC` is the checked
/// toolchain's `rustc`.
pub proof fn lemma_cargo_env_uses_vapor_locations(
    invocation: CargoInvocation,
    toolchain: ToolchainStatus,
    workspace_root: Seq<char>,
    args: Seq<Seq<char>>,
)
    requires
        is_cargo_invocation(invocation, toolchain, workspace_root, args),
    ensures
        env_value(cargo_env_view(invocation), "CARGO_TARGET_DIR"@) == Some(
            path_join(toolchain.output_root@, CARGO_TARGET_DIR@),
        ),
        env_value(cargo_env_view(invocation), "CARGO_HOME"@) == Some(
            path_join(toolchain.vapor_home@, CARGO_HOME_DIR@),
        ),
        env_value(cargo_env_view(invocation), "RUSTC"@) == Some(toolchain.rustc_path@),
{
    reveal_strlit("CARGO_TARGET_DIR");
    reveal_strlit("CARGO_HOME");
    reveal_strlit("RUSTC");
    let vars = cargo_env_view(invocation);
    assert(vars.drop_last().drop_last() =~= seq![("CARGO_HOME"@, invocation.cargo_home@)]);
    assert(vars.drop_last().drop_last().drop_last() =~= Seq::<(Seq<char>, Seq<char>)>::empty());
    assert("RUSTC"@.len() == 5 && "CARGO_HOME"@.len() == 10 && "CARGO_TARGET_DIR"@.len() == 16);
    let two = vars.drop_last();
    let one = two.drop_last();
    assert(two.last() == ("CARGO_TARGET_DIR"@, invocation.target_dir@));
    assert(one.last() == ("CARGO_HOME"@, invocation.cargo_home@));
    assert(env_value(vars, "CARGO_TARGET_DIR"@) == env_value(two, "CARGO_TARGET_DIR"@));
    assert(env_value(vars, "CARGO_HOME"@) == env_value(two, "CARGO_HOME"@));
    assert(env_value(two, "CARGO_HOME"@) == env_value(one, "CARGO_HOME"@));
}

/// Why a list of paths cannot become a `PATH` value: one of them holds the
/// list separator.
pub const JOIN_PATHS_MESSAGE: &'static str = "path segment contains separator `:`";

/// The `PATH` value listing `entries` in order, separated by `:`.
pub open spec fn path_list(entries: Seq<Seq<char>>) -> Seq<char>
    decreases entries.len(),
{
    if entries.len() == 0 {
        seq![]
    } else if entries.len() == 1 {
        entries[0]
    } else {
        path_list(entries.drop_last()) + seq![':'] + entries.last()
    }
}

/// `true` when no entry holds the `:` separator, so the list can be joined.
pub open spec fn joinable(entries: Seq<Seq<char>>) -> bool {
    forall|i: int| 0 <= i < entries.len() ==> !(#[trigger] entries[i]).contains(':')
}

fn has_separator(text: &str) -> (found: bool)
    ensures
        found == text@.contains(':'),
{
    let chars = crate::text::chars_of(text);
    let mut i: usize = 0;
    while i < chars.len()
        invariant
            chars@ == text@,
            i <= chars.len(),
            forall|j: int| 0 <= j < i ==> chars@[j] != ':',
        decreases chars.len() - i,
    {
        if chars[i] == ':' {
            assert(text@[i as int] == ':');
            return true;
        }
        i = i + 1;
    }
    false
}

/// The `PATH` Vapor's Cargo runs with: the directory holding `cargo`, then
/// the caller's current `PATH` entries (none when `PATH` is unset).
pub fn vapor_path_variable(path_prefix: &str, existing: &Vec<String>) -> (path: Result<String, WorkspaceCommandError>)
    ensures
        joinable(seq![path_prefix@] + existing.deep_view()) ==> (path matches Ok(value) && value@
            == path_list(seq![path_prefix@] + existing.deep_view())),
        !joinable(seq![path_prefix@] + existing.deep_view()) ==> (path matches Err(
            WorkspaceCommandError::JoinPaths(text),
        ) && text@ == JOIN_PATHS_MESSAGE@),
{
    let ghost entries = seq![path_prefix@] + existing.deep_view();
    if has_separator(path_prefix) {
        assert(entries[0] == path_prefix@);
        return Err(WorkspaceCommandError::JoinPaths(String::from_str(JOIN_PATHS_MESSAGE)));
    }
    let mut value = String::from_str(path_prefix);
    let mut i: usize = 0;
    assert(entries.subrange(0, 1) =~= seq![path_prefix@]);
    while i < existing.len()
        invariant
            entries == seq![path_prefix@] + existing.deep_view(),
            i <= existing.len(),
            joinable(entries.subrange(0, i + 1)),
            value@ == path_list(entries.subrange(0, i + 1)),
        decreases existing.len() - i,
    {
        assert(entries[i + 1] == existing.deep_view()[i as int]);
        if has_separator(existing[i].as_str()) {
            assert(!joinable(entries));
            return Err(WorkspaceCommandError::JoinPaths(String::from_str(JOIN_PATHS_MESSAGE)));
        }
        let ghost before = value@;
        value.append(":");
        value.append(existing[i].as_str());
        proof {
            reveal_strlit(":");
            let done = entries.subrange(0, i + 2);
            assert(done.drop_last() =~= entries.subrange(0, i + 1));
            assert(done.last() == existing.deep_view()[i as int]);
            assert(value@ =~= path_list(done));
            assert forall|j: int| 0 <= j < done.len() implies !(#[trigger] done[j]).contains(':') by {
                if j < i + 1 {
                    assert(done[j] == entries.subrange(0, i + 1)[j]);
                }
            }
        }
        i = i + 1;
    }
    assert(entries.subrange(0, i + 1) =~= entries);
    Ok(value)
}

/// Result of running Vapor's Cargo for a workspace command.
#[derive(Debug, Clone, PartialEq, Eq)]
pub struct WorkspaceCargoReport {
    pub invocation_directory: String,
    pub workspace_root: String,
    pub workspace_kind: Option<String>,
    pub workspace_id: Option<String>,
    pub working_directory: String,
    pub cargo_path: String,
    pub rustc_path: String,
    pub cargo_home: String,
    pub target_dir: String,
    pub cargo_args: Vec<String>,
    pub status: ProcessExit,
}

/// Report a Cargo run of `invocation` in the workspace `identity` that ended
/// with `status`.
pub fn workspace_cargo_report(identity: WorkspaceIdentity, invocation: CargoInvocation, status: ProcessExit) -> (report:
    WorkspaceCargoReport)
    ensures
        report.invocation_directory == identity.invocation_directory,
        report.workspace_root == identity.workspace_root,
        report.workspace_kind == identity.kind,
        report.workspace_id == identity.id,
        report.working_directory == invocation.working_directory,
        report.cargo_path == invocation.cargo_path,
        report.rustc_path == invocation.rustc_path,
        report.cargo_home == invocation.cargo_home,
        report.target_dir == invocation.target_dir,
        report.cargo_args == invocation.cargo_args,
        report.status == status,
{
    WorkspaceCargoReport {
        invocation_directory: identity.invocation_directory,
        workspace_root: identity.workspace_root,
        workspace_kind: identity.kind,
        workspace_id: identity.id,
        working_directory: invocation.working_directory,
        cargo_path: invocation.cargo_path,
        rustc_path: invocation.rustc_path,
        cargo_home: invocation.cargo_home,
        target_dir: invocation.target_dir,
        cargo_args: invocation.cargo_args,
        status,
    }
}

/// Text of the activation script a deploy writes into the app root: sourced
/// from a Unix shell, it sets `VAPOR_HOME` to the script's directory, points
/// Cargo, Rustup, and Steam at their homes there, and puts Vapor's tool
/// directories in front of `PATH`.
pub const ACTIVATION_SCRIPT_TEXT: &'static str = "# Source this file from the Vapor app root: . ./vapor_env.sh\nVAPOR_HOME=$(CDPATH= cd -- \"$(dirname -- \"${BASH_SOURCE:-$0}\")\" && pwd)\nexport VAPOR_HOME\nexport CARGO_HOME=\"$VAPOR_HOME/cargo-home\"\nexport RUSTUP_HOME=\"$VAPOR_HOME/rustup-home\"\nexport VAPOR_STEAM_HOME=\"$VAPOR_HOME/steam\"\n\nvapor_prepend_path() {\n    case \":$PATH:\" in\n        *\":$1:\"*) ;;\n        *) PATH=\"$1${PATH:+:$PATH}\" ;;\n    esac\n}\n\nvapor_prepend_path \"$VAPOR_HOME/steam/steamcmd\"\nvapor_prepend_path \"$VAPOR_HOME/rustup/bin\"\nvapor_prepend_path \"$VAPOR_HOME/rust-toolchain/active/bin\"\nvapor_prepend_path \"$VAPOR_HOME/toolchain/active/bin\"\nvapor_prepend_path \"$VAPOR_HOME/bin\"\nvapor_prepend_path \"$VAPOR_HOME\"\nexport PATH\nunset -f vapor_prepend_path\n";

/// Start of an alias launcher script, up to the target path.
pub const ALIAS_SCRIPT_HEAD: &'static str = "#!/usr/bin/env sh\nSCRIPT_DIR=$(CDPATH= cd -- \"$(dirname -- \"$0\")\" && pwd)\nexec \"$SCRIPT_DIR/";

/// End of an alias launcher script, after the target path.
pub const ALIAS_SCRIPT_TAIL: &'static str = "\" \"$@\"\n";

/// What a deploy expects when the workspace kind is neither `sdk` nor `launcher`.
pub const DEPLOY_KINDS: &'static str = "sdk or launcher";

/// The first-party CLI a workspace deploys: the Cargo package to build and
/// the alias that launches it from the app root.
#[derive(Debug, Clone, Copy, PartialEq, Eq)]
pub struct DeployTarget {
    pub package: &'static str,
    pub alias: &'static str,
}

/// The package and alias deployed from a workspace of the given kind: the
/// SDK CLI from an `sdk` workspace, the launcher CLI from a `launcher` one.
pub open spec fn deploy_target_for(kind: Option<Seq<char>>) -> Option<(Seq<char>, Seq<char>)> {
    if kind == Some("sdk"@) {
        Some((SDK_CLI_BINARY@, SDK_CLI_ALIAS@))
    } else if kind == Some("launcher"@) {
        Some((LAUNCHER_CLI_BINARY@, LAUNCHER_CLI_ALIAS@))
    } else {
        None
    }
}

/// Choose what to deploy from the workspace kind.
pub fn deploy_target(identity: &WorkspaceIdentity) -> (target: Result<DeployTarget, WorkspaceCommandError>)
    ensures
        deploy_target_for(identity.kind.deep_view()) matches Some((package, alias)) ==> (target matches Ok(
            t,
        ) && t.package@ == package && t.alias@ == alias),
        deploy_target_for(identity.kind.deep_view()) is None ==> (target matches Err(
            WorkspaceCommandError::WrongWorkspaceKind { expected, actual },
        ) && expected@ == DEPLOY_KINDS@ && actual == identity.kind),
{
    if let Some(kind) = &identity.kind {
        if text_eq(kind.as_str(), "sdk") {
            return Ok(DeployTarget { package: SDK_CLI_BINARY, alias: SDK_CLI_ALIAS });
        }
        if text_eq(kind.as_str(), "launcher") {
            return Ok(DeployTarget { package: LAUNCHER_CLI_BINARY, alias: LAUNCHER_CLI_ALIAS });
        }
    }
    Err(
        WorkspaceCommandError::WrongWorkspaceKind {
            expected: String::from_str(DEPLOY_KINDS),
            actual: clone_text_option(&identity.kind),
        },
    )
}

/// The Cargo arguments of a deploy build: the deployed package alone.
pub open spec fn deploy_build_args_for(package: Seq<char>) -> Seq<Seq<char>> {
    seq!["build"@, "-p"@, package]
}

/// The Cargo arguments that build the deployed package.
pub fn deploy_build_args(target: &DeployTarget) -> (args: Vec<String>)
    ensures
        args.deep_view() == deploy_build_args_for(target.package@),
{
    let args = vec![String::from_str("build"), String::from_str("-p"), String::from_str(target.package)];
    assert(args.deep_view() =~= deploy_build_args_for(target.package@));
    args
}

/// A deploy goes on only after a successful build; a failed build stops it
/// with the build's exit code.
pub fn check_deploy_build(build: ProcessExit) -> (checked: Result<(), WorkspaceCommandError>)
    ensures
        build.success ==> checked is Ok,
        !build.success ==> checked == Err::<(), WorkspaceCommandError>(
            WorkspaceCommandError::BuildFailedBeforeDeploy(build),
        ),
{
    if build.success {
        Ok(())
    } else {
        Err(WorkspaceCommandError::BuildFailedBeforeDeploy(build))
    }
}

/// Where a deploy reads and writes.
#[derive(Debug, Clone, PartialEq, Eq)]
pub struct DeployLayout {
    /// The freshly built executable in Cargo's target directory.
    pub source_executable: String,
    /// Where the executable is promoted, under the app root's `bin`.
    pub deployed_executable: String,
    /// The launcher script in the app root.
    pub alias_executable: String,
    /// The shell activation script in the app root.
    pub activation_script: String,
}

/// `layout` is the deploy layout of `package` and `alias` for the Cargo
/// target directory and the app root.
pub open spec fn is_deploy_layout(
    layout: DeployLayout,
    package: Seq<char>,
    alias: Seq<char>,
    target_dir: Seq<char>,
    vapor_home: Seq<char>,
) -> bool {
    &&& layout.source_executable@ == path_join(
        path_join(target_dir, DEV_ARTIFACT_DIR@),
        executable_name(package),
    )
    &&& layout.deployed_executable@ == path_join(path_join(vapor_home, BIN_DIR@), executable_name(package))
    &&& layout.alias_executable@ == path_join(vapor_home, alias)
    &&& layout.activation_script@ == path_join(vapor_home, ACTIVATION_SCRIPT@)
}

/// Lay out a deploy of `target` from Cargo's target directory into the app root.
pub fn deploy_layout(target: &DeployTarget, target_dir: &str, vapor_home: &str) -> (layout: DeployLayout)
    ensures
        is_deploy_layout(layout, target.package@, target.alias@, target_dir@, vapor_home@),
{
    let artifacts = join_path(target_dir, DEV_ARTIFACT_DIR);
    let bin = join_path(vapor_home, BIN_DIR);
    DeployLayout {
        source_executable: join_path(artifacts.as_str(), target.package),
        deployed_executable: join_path(bin.as_str(), target.package),
        alias_executable: join_path(vapor_home, target.alias),
        activation_script: join_path(vapor_home, ACTIVATION_SCRIPT),
    }
}

/// The built executable must be a file before it is promoted.
pub fn check_built_executable(source_executable: &str, is_file: bool) -> (checked: Result<(), WorkspaceCommandError>)
    ensures
        is_file ==> checked is Ok,
        !is_file ==> (checked matches Err(WorkspaceCommandError::MissingBuiltExecutable(path))
            && path@ == source_executable@),
{
    if is_file {
        Ok(())
    } else {
        Err(WorkspaceCommandError::MissingBuiltExecutable(String::from_str(source_executable)))
    }
}

/// The temporary file a promotion copies into before renaming it over the
/// destination: the destination's file name with `.tmp-` and the process id
/// appended, in the same directory.
pub open spec fn temporary_path(destination: Seq<char>, process_id: u32) -> Option<Seq<char>> {
    match file_name(destination) {
        Some(name) => Some(
            path_join(parent(destination)->0, name + ".tmp-"@ + decimal(process_id as nat)),
        ),
        None => None,
    }
}

/// The temporary path next to `destination` for the process `process_id`;
/// a destination without a file name is refused.
pub fn temporary_destination(destination: &str, process_id: u32) -> (temporary: Result<String, WorkspaceCommandError>)
    ensures
        temporary_path(destination@, process_id) matches Some(t) ==> (temporary matches Ok(p) && p@ == t),
        temporary_path(destination@, process_id) is None ==> (temporary matches Err(
            WorkspaceCommandError::ExecutableHasNoFileName(path),
        ) && path@ == destination@),
{
    let name = match path_file_name(destination) {
        Some(name) => name,
        None => return Err(WorkspaceCommandError::ExecutableHasNoFileName(String::from_str(destination))),
    };
    proof {
        lemma_file_name_has_parent(destination@);
    }
    let dir = match path_parent(destination) {
        Some(dir) => dir,
        None => return Err(WorkspaceCommandError::ExecutableHasNoFileName(String::from_str(destination))),
    };
    let mut temporary_name = name;
    temporary_name.append(".tmp-");
    let id = decimal_text(process_id);
    temporary_name.append(id.as_str());
    Ok(join_path(dir.as_str(), temporary_name.as_str()))
}

/// The alias's target relative to the alias's directory, or the path named
/// by the error: the alias when it has no directory, the target when it does
/// not lie under that directory.
pub open spec fn alias_target_path(target: Seq<char>, alias: Seq<char>) -> Result<Seq<char>, Seq<char>> {
    match parent(alias) {
        None => Err(alias),
        Some(dir) => match stripped_prefix(target, dir) {
            Some(rest) => Ok(rest),
            None => Err(target),
        },
    }
}

/// The path an alias script uses to reach its target, relative to the
/// alias's own directory.
pub fn relative_alias_target(target: &str, alias: &str) -> (relative: Result<String, WorkspaceCommandError>)
    ensures
        alias_target_path(target@, alias@) matches Ok(rest) ==> (relative matches Ok(r) && r@ == rest),
        relative matches Ok(r) ==> same_path(path_join(parent(alias@)->0, r@), target@),
        alias_target_path(target@, alias@) matches Err(named) ==> (relative matches Err(
            WorkspaceCommandError::ExecutableHasNoFileName(path),
        ) && path@ == named),
{
    let dir = match path_parent(alias) {
        Some(dir) => dir,
        None => return Err(WorkspaceCommandError::ExecutableHasNoFileName(String::from_str(alias))),
    };
    match path_strip_prefix(target, dir.as_str()) {
        Some(rest) => Ok(rest),
        None => Err(WorkspaceCommandError::ExecutableHasNoFileName(String::from_str(target))),
    }
}

/// The text of an alias script that runs the executable at
/// `relative_target`, found from the script's own directory, with the
/// script's arguments.
pub open spec fn alias_script_text(relative_target: Seq<char>) -> Seq<char> {
    ALIAS_SCRIPT_HEAD@ + relative_target + ALIAS_SCRIPT_TAIL@
}

/// The launcher script written at `alias` for the executable at `target`.
/// Law: the alias launches the executable it was written for; the target
/// the script names, taken from the alias's directory, is the same path as
/// `target`.
pub fn alias_script(target: &str, alias: &str) -> (script: Result<String, WorkspaceCommandError>)
    ensures
        script is Ok ==> alias_target_path(target@, alias@) is Ok && same_path(
            path_join(parent(alias@)->0, alias_target_path(target@, alias@)->Ok_0),
            target@,
        ),
        alias_target_path(target@, alias@) matches Ok(rest) ==> (script matches Ok(s) && s@
            == alias_script_text(rest)),
        alias_target_path(target@, alias@) matches Err(named) ==> (script matches Err(
            WorkspaceCommandError::ExecutableHasNoFileName(path),
        ) && path@ == named),
{
    let relative = relative_alias_target(target, alias)?;
    let mut script = String::from_str(ALIAS_SCRIPT_HEAD);
    script.append(relative.as_str());
    script.append(ALIAS_SCRIPT_TAIL);
    Ok(script)
}

/// An alias an earlier layout kept next to the deployed executable: the
/// alias's file name in the target's directory, when that is another path
/// than the alias itself.
pub open spec fn legacy_alias_for(target: Seq<char>, alias: Seq<char>) -> Option<Seq<char>> {
    match (parent(target), file_name(alias)) {
        (Some(dir), Some(name)) => {
            let legacy = path_join(dir, name);
            if same_path(legacy, alias) {
                None
            } else {
                Some(legacy)
            }
        },
        _ => None,
    }
}

/// The legacy alias to remove, if it exists, when promoting an alias.
pub fn legacy_alias_path(target: &str, alias: &str) -> (legacy: Option<String>)
    ensures
        legacy.deep_view() == legacy_alias_for(target@, alias@),
{
    let dir = match path_parent(target) {
        Some(dir) => dir,
        None => return None,
    };
    let name = match path_file_name(alias) {
        Some(name) => name,
        None => return None,
    };
    let legacy = join_path(dir.as_str(), name.as_str());
    if paths_equal(legacy.as_str(), alias) {
        None
    } else {
        Some(legacy)
    }
}

/// Law: the promotion step of a deploy never fails for want of a file name.
/// For both deployable workspace kinds, the deployed executable of the
/// deploy layout has a temporary path for every process id, and the alias
/// has a directory to resolve its target from.
pub proof fn lemma_deploy_paths_are_well_formed(
    kind: Option<Seq<char>>,
    layout: DeployLayout,
    target_dir: Seq<char>,
    vapor_home: Seq<char>,
    process_id: u32,
)
    requires
        deploy_target_for(kind) matches Some((package, alias)) && is_deploy_layout(
            layout,
            package,
            alias,
            target_dir,
            vapor_home,
        ),
    ensures
        temporary_path(layout.deployed_executable@, process_id) is Some,
        parent(layout.alias_executable@) is Some,
{
    reveal_strlit("vapor_sdk_cli");
    reveal_strlit("sdk_cli");
    reveal_strlit("vapor_launcher_cli");
    reveal_strlit("launcher_cli");
    let (package, alias) = deploy_target_for(kind)->0;
    assert(is_simple_name(package));
    assert(is_simple_name(alias));
    lemma_file_name_of_join(path_join(vapor_home, BIN_DIR@), package);
    lemma_file_name_of_join(vapor_home, alias);
    lemma_file_name_has_parent(layout.alias_executable@);
}

/// Result of promoting a built SDK executable into the deploy root.
#[derive(Debug, Clone, PartialEq, Eq)]
pub struct WorkspaceDeployReport {
    pub build: WorkspaceCargoReport,
    pub source_executable: String,
    pub deployed_executable: String,
    pub alias_executable: String,
    pub activation_script: String,
}

/// Report a finished deploy: the build and where the executable, its alias,
/// and the activation script were written.
pub fn workspace_deploy_report(build: WorkspaceCargoReport, layout: DeployLayout) -> (report: WorkspaceDeployReport)
    ensures
        report.build == build,
        report.source_executable == layout.source_executable,
        report.deployed_executable == layout.deployed_executable,
        report.alias_executable == layout.alias_executable,
        report.activation_script == layout.activation_script,
{
    WorkspaceDeployReport {
        build,
        source_executable: layout.source_executable,
        deployed_executable: layout.deployed_executable,
        alias_executable: layout.alias_executable,
        activation_script: layout.activation_script,
    }
}


/// Law: the app-root shell environment is the setup the SDK itself runs
/// Cargo with. The report's Cargo home is the Cargo home of every workspace
/// Cargo run (and the toolchain's), and the report puts the directory of
/// the `cargo` that runs on `PATH`.
pub proof fn lemma_environment_matches_cargo_runs(
    report: EnvironmentReport,
    invocation: CargoInvocation,
    toolchain: ToolchainStatus,
    workspace_root: Seq<char>,
    args: Seq<Seq<char>>,
)
    requires
        is_environment_report(report, toolchain.vapor_home@),
        is_cargo_invocation(invocation, toolchain, workspace_root, args),
        status_layout_view(toolchain) == toolchain_layout_view(
            toolchain.vapor_home@,
            toolchain.toolchain.identifier@,
            toolchain.host_triple@,
        ),
    ensures
        report.cargo_home@ == invocation.cargo_home@,
        toolchain.cargo_home@ == invocation.cargo_home@,
        report.path_entries.deep_view().contains(invocation.path_prefix@),
{
    assert(status_layout_view(toolchain)[2] == toolchain.cargo_home@);
    assert(report.path_entries.deep_view()[2] == invocation.path_prefix@);
}

} // verus!

//! Root Vapor package and SteamPipe publishing workflows.
//!
//! Root publishing is intentionally about the Steam-distributed Vapor app root,
//! not about arbitrary authored content. The installed Rust toolchain is not
//! packaged here; Vapor should wrap/install Rust tooling deliberately instead
//! of shipping the active toolchain tree as app content.

use vstd::prelude::*;

use crate::environment::ACTIVATION_SCRIPT;
use crate::outcome::ProcessExit;
use crate::path::{is_absolute, join_path, parent, path_is_absolute, path_join, path_parent};
use crate::steam::{
    steam_error_message, SteamCommandError, SteamRunAppBuildReport, SteamRunAppBuildRequest,
    SteamStatusReport,
};
use crate::text::{enclosed, prefixed, text_eq};
use crate::toolchain::{status_error_message, ToolchainStatusError};

verus! {

/// Steam AppID for the first-party Loo Cast/Vapor root application.
pub const ROOT_STEAM_APP_ID: u32 = 2_122_620;

/// Default Steam DepotID for the first-party root application files.
pub const ROOT_STEAM_DEPOT_ID: u32 = 2_122_621;

/// Root SDK workflows for the Steam-distributed app itself.
#[derive(Debug, Clone, PartialEq, Eq)]
pub enum RootCommand {
    /// Assemble the Steam redistributable root package and SteamPipe scripts.
    Package(RootPackageRequest),
    /// Assemble the root package and invoke SteamCMD with `+run_app_build`.
    Publish(RootPublishRequest),
}

/// Parameters for root packaging.
#[derive(Debug, Clone, PartialEq, Eq)]
pub struct RootPackageRequest {
    /// Report what would be packaged without mutating the package output.
    pub plan: bool,
    /// Steam AppID receiving the root package.
    pub app_id: u32,
    /// Steam DepotID receiving the root package files.
    pub depot_id: u32,
    /// Internal Steamworks build description.
    pub description: String,
    /// Optional beta branch to set live after upload. Steam does not allow
    /// automatically setting the default branch live from the build script.
    pub set_live: Option<String>,
}

/// Parameters for root publishing through SteamCMD.
#[derive(Debug, Clone, PartialEq, Eq)]
pub struct RootPublishRequest {
    /// Report what would be packaged and uploaded without mutating or invoking SteamCMD.
    pub plan: bool,
    /// Steam AppID receiving the root package.
    pub app_id: u32,
    /// Steam DepotID receiving the root package files.
    pub depot_id: u32,
    /// Internal Steamworks build description.
    pub description: String,
    /// Steam account used by SteamCMD. SteamCMD prompts for password/Steam Guard
    /// when the local login token is missing.
    pub account: String,
    /// SteamCMD executable path, or `steamcmd` to resolve through PATH.
    pub steamcmd: String,
    /// Optional beta branch to set live after upload. Steam does not allow
    /// automatically setting the default branch live from the build script.
    pub set_live: Option<String>,
}

/// Directory under the output root holding the root package.
pub const ROOT_OUTPUT_DIR: &'static str = "root";

/// Directory under the package root mirrored into the Steam depot.
pub const CONTENT_DIR: &'static str = "content";

/// Directory under the package root holding SteamPipe scripts.
pub const SCRIPTS_DIR: &'static str = "scripts";

/// Directory under the package root where SteamPipe writes build output.
pub const STEAM_BUILD_DIR: &'static str = "steam-build";

pub const BIN_DIR: &'static str = "bin";

pub const SDK_CLI_ALIAS: &'static str = "sdk_cli";

pub const SDK_CLI_BINARY: &'static str = "vapor_sdk_cli";

pub const LAUNCHER_CLI_ALIAS: &'static str = "launcher_cli";

pub const LAUNCHER_CLI_BINARY: &'static str = "vapor_launcher_cli";

/// Error returned by root package or SteamPipe publish workflows.
#[derive(Debug, Clone, PartialEq, Eq)]
pub enum RootCommandError {
    ToolchainStatus(ToolchainStatusError),
    Steam(SteamCommandError),
    /// A filesystem operation failed; the text explains why.
    Io(String),
    InvalidAppId(u32),
    InvalidDepotId(u32),
    DefaultBranchCannotBeSetLive,
    MissingPackageInput(String),
    SymlinkHasNoParent(String),
}

/// Why the default branch is never set live by a publish.
pub const DEFAULT_BRANCH_LIVE_MESSAGE: &'static str = "SteamPipe cannot automatically set the default branch live; upload first, then set default live in Steamworks";

/// The text of a root package or publish error.
pub open spec fn root_error_message(error: RootCommandError) -> Seq<char> {
    match error {
        RootCommandError::ToolchainStatus(inner) => status_error_message(inner),
        RootCommandError::Steam(inner) => steam_error_message(inner),
        RootCommandError::Io(text) => "root package command failed: "@ + text@,
        RootCommandError::InvalidAppId(app_id) => "Steam AppID must be non-zero, found `"@ + decimal(
            app_id as nat,
        ) + "`"@,
        RootCommandError::InvalidDepotId(depot_id) => "Steam DepotID must be non-zero, found `"@
            + decimal(depot_id as nat) + "`"@,
        RootCommandError::DefaultBranchCannotBeSetLive => DEFAULT_BRANCH_LIVE_MESSAGE@,
        RootCommandError::MissingPackageInput(path) => "root package input is missing: `"@ + path@
            + "`"@,
        RootCommandError::SymlinkHasNoParent(path) => "symlink path has no parent: `"@ + path@ + "`"@,
    }
}

impl RootCommandError {
    /// The text shown for this error.
    pub fn message(&self) -> (text: String)
        ensures
            text@ == root_error_message(*self),
    {
        match self {
            RootCommandError::ToolchainStatus(inner) => inner.message(),
            RootCommandError::Steam(inner) => inner.message(),
            RootCommandError::Io(text) => prefixed("root package command failed: ", text.as_str()),
            RootCommandError::InvalidAppId(app_id) => {
                let id = decimal_text(*app_id);
                enclosed("Steam AppID must be non-zero, found `", id.as_str(), "`")
            },
            RootCommandError::InvalidDepotId(depot_id) => {
                let id = decimal_text(*depot_id);
                enclosed("Steam DepotID must be non-zero, found `", id.as_str(), "`")
            },
            RootCommandError::DefaultBranchCannotBeSetLive => String::from_str(DEFAULT_BRANCH_LIVE_MESSAGE),
            RootCommandError::MissingPackageInput(path) => enclosed(
                "root package input is missing: `",
                path.as_str(),
                "`",
            ),
            RootCommandError::SymlinkHasNoParent(path) => enclosed(
                "symlink path has no parent: `",
                path.as_str(),
                "`",
            ),
        }
    }
}

/// The first problem with a request's Steam identifiers, if any.
pub open spec fn ids_error(app_id: u32, depot_id: u32) -> Option<RootCommandError> {
    if app_id == 0 {
        Some(RootCommandError::InvalidAppId(app_id))
    } else if depot_id == 0 {
        Some(RootCommandError::InvalidDepotId(depot_id))
    } else {
        None
    }
}

/// Reject zero Steam AppIDs and DepotIDs.
pub fn validate_ids(app_id: u32, depot_id: u32) -> (result: Result<(), RootCommandError>)
    ensures
        match ids_error(app_id, depot_id) {
            Some(e) => result == Err::<(), RootCommandError>(e),
            None => result is Ok,
        },
{
    if app_id == 0 {
        return Err(RootCommandError::InvalidAppId(app_id));
    }
    if depot_id == 0 {
        return Err(RootCommandError::InvalidDepotId(depot_id));
    }
    Ok(())
}

/// `true` when the requested branch is Steam's default branch, which a
/// build script may not set live.
pub open spec fn sets_default_live(set_live: Option<Seq<char>>) -> bool {
    set_live == Some("default"@)
}

/// Reject setting the default branch live from a build script.
pub fn validate_set_live(set_live: &Option<String>) -> (result: Result<(), RootCommandError>)
    ensures
        sets_default_live(set_live.deep_view()) ==> result == Err::<(), RootCommandError>(
            RootCommandError::DefaultBranchCannotBeSetLive,
        ),
        !sets_default_live(set_live.deep_view()) ==> result is Ok,
{
    match set_live {
        Some(branch) => {
            if text_eq(branch.as_str(), "default") {
                Err(RootCommandError::DefaultBranchCannotBeSetLive)
            } else {
                Ok(())
            }
        },
        None => Ok(()),
    }
}

/// One file tree copied into the root package.
#[derive(Debug, Clone, PartialEq, Eq)]
pub struct PackageRoot {
    /// Where the tree lives under the Vapor home.
    pub source: String,
    /// Where it lands inside the Steam depot.
    pub depot_path: String,
}

/// The depot paths of the trees shipped in the root package, in order: the
/// two CLI aliases, the two CLI binaries, and the activation script.
pub open spec fn package_depot_paths() -> Seq<Seq<char>> {
    seq![
        SDK_CLI_ALIAS@,
        LAUNCHER_CLI_ALIAS@,
        path_join(BIN_DIR@, SDK_CLI_BINARY@),
        path_join(BIN_DIR@, LAUNCHER_CLI_BINARY@),
        ACTIVATION_SCRIPT@,
    ]
}

/// The number of package roots: [`RootPackageLayout::new`] expects one probe
/// answer for each.
pub fn package_depot_count() -> (count: usize)
    ensures
        count == package_depot_paths().len(),
{
    5
}

/// The package roots under `vapor_home`: each depot path, taken from the same
/// relative place under the Vapor home.
pub open spec fn is_package_roots(roots: Seq<PackageRoot>, vapor_home: Seq<char>) -> bool {
    &&& roots.len() == package_depot_paths().len()
    &&& forall|i: int|
        0 <= i < roots.len() ==> {
            &&& (#[trigger] roots[i]).depot_path@ == package_depot_paths()[i]
            &&& roots[i].source@ == path_join(vapor_home, package_depot_paths()[i])
        }
}

fn package_root(vapor_home: &str, depot_path: String) -> (root: PackageRoot)
    ensures
        root.depot_path@ == depot_path@,
        root.source@ == path_join(vapor_home@, depot_path@),
{
    PackageRoot { source: join_path(vapor_home, depot_path.as_str()), depot_path }
}

/// The file trees shipped in the root package, under `vapor_home`.
pub fn package_roots(vapor_home: &str) -> (roots: Vec<PackageRoot>)
    ensures
        is_package_roots(roots@, vapor_home@),
{
    let roots = vec![
        package_root(vapor_home, String::from_str(SDK_CLI_ALIAS)),
        package_root(vapor_home, String::from_str(LAUNCHER_CLI_ALIAS)),
        package_root(vapor_home, join_path(BIN_DIR, SDK_CLI_BINARY)),
        package_root(vapor_home, join_path(BIN_DIR, LAUNCHER_CLI_BINARY)),
        package_root(vapor_home, String::from_str(ACTIVATION_SCRIPT)),
    ];
    assert(is_package_roots(roots@, vapor_home@));
    roots
}

/// `true` when `path` is the directory `dir` or lies inside it.
pub open spec fn lies_under(path: Seq<char>, dir: Seq<char>) -> bool {
    path == dir || (dir + seq!['/']).is_prefix_of(path)
}

/// Law: the root package carries the app root's tools and nothing of its
/// local state. No depot path lies in Cargo's home, the output directory,
/// Rustup's home, or the installed Rust toolchain.
pub proof fn lemma_package_excludes_local_state()
    ensures
        forall|i: int|
            0 <= i < package_depot_paths().len() ==> {
                let depot_path = #[trigger] package_depot_paths()[i];
                &&& !lies_under(depot_path, "cargo-home"@)
                &&& !lies_under(depot_path, "output"@)
                &&& !lies_under(depot_path, "rustup-home"@)
                &&& !lies_under(depot_path, "rust-toolchain"@)
            },
{
    reveal_strlit("sdk_cli");
    reveal_strlit("launcher_cli");
    reveal_strlit("bin");
    reveal_strlit("vapor_sdk_cli");
    reveal_strlit("vapor_launcher_cli");
    reveal_strlit("vapor_env.sh");
    reveal_strlit("cargo-home");
    reveal_strlit("output");
    reveal_strlit("rustup-home");
    reveal_strlit("rust-toolchain");
    let paths = package_depot_paths();
    assert forall|i: int| 0 <= i < paths.len() implies {
        let depot_path = #[trigger] paths[i];
        &&& !lies_under(depot_path, "cargo-home"@)
        &&& !lies_under(depot_path, "output"@)
        &&& !lies_under(depot_path, "rustup-home"@)
        &&& !lies_under(depot_path, "rust-toolchain"@)
    } by {
        let depot_path = paths[i];
        let first = depot_path[0];
        assert(first == 's' || first == 'l' || first == 'b' || first == 'v');
        assert(depot_path.len() > 0);
        assert(("cargo-home"@ + seq!['/'])[0] == 'c');
        assert(("output"@ + seq!['/'])[0] == 'o');
        assert(("rustup-home"@ + seq!['/'])[0] == 'r');
        assert(("rust-toolchain"@ + seq!['/'])[0] == 'r');
    }
}

/// The decimal digit character for `d < 10`.
pub open spec fn digit_char(d: nat) -> char {
    if d == 0 { '0' }
    else if d == 1 { '1' }
    else if d == 2 { '2' }
    else if d == 3 { '3' }
    else if d == 4 { '4' }
    else if d == 5 { '5' }
    else if d == 6 { '6' }
    else if d == 7 { '7' }
    else if d == 8 { '8' }
    else { '9' }
}

/// The decimal representation of `n`, without leading zeros.
pub open spec fn decimal(n: nat) -> Seq<char>
    decreases n,
{
    if n < 10 {
        seq![digit_char(n)]
    } else {
        decimal(n / 10) + seq![digit_char(n % 10)]
    }
}

fn digit(d: u32) -> (c: char)
    requires
        d < 10,
    ensures
        c == digit_char(d as nat),
{
    match d {
        0 => '0',
        1 => '1',
        2 => '2',
        3 => '3',
        4 => '4',
        5 => '5',
        6 => '6',
        7 => '7',
        8 => '8',
        _ => '9',
    }
}

/// The decimal text of `n`, as `u32::to_string` writes it.
pub fn decimal_text(n: u32) -> (text: String)
    ensures
        text@ == decimal(n as nat),
    decreases n,
{
    if n < 10 {
        let mut text = String::new();
        crate::path::push_char(&mut text, digit(n));
        assert(text@ =~= decimal(n as nat));
        text
    } else {
        let mut text = decimal_text(n / 10);
        crate::path::push_char(&mut text, digit(n % 10));
        assert(text@ =~= decimal(n as nat));
        text
    }
}

/// Paths of the root package, derived from the output root and the request.
#[derive(Debug, Clone, PartialEq, Eq)]
pub struct RootPackageLayout {
    pub vapor_home: String,
    pub host_triple: String,
    pub package_root: String,
    pub content_root: String,
    pub scripts_root: String,
    pub steam_build_root: String,
    pub app_build_script: String,
    pub included_roots: Vec<PackageRoot>,
}

/// The file name of the app build script for an AppID.
pub open spec fn app_build_script_name(app_id: u32) -> Seq<char> {
    "app_build_"@ + decimal(app_id as nat) + ".vdf"@
}

/// `layout` is the package layout for the request under the given roots,
/// shipping `roots`.
pub open spec fn is_package_layout(
    layout: RootPackageLayout,
    app_id: u32,
    vapor_home: Seq<char>,
    output_root: Seq<char>,
    host_triple: Seq<char>,
) -> bool {
    let package_root = path_join(output_root, ROOT_OUTPUT_DIR@);
    let scripts_root = path_join(package_root, SCRIPTS_DIR@);
    &&& layout.vapor_home@ == vapor_home
    &&& layout.host_triple@ == host_triple
    &&& layout.package_root@ == package_root
    &&& layout.content_root@ == path_join(package_root, CONTENT_DIR@)
    &&& layout.scripts_root@ == scripts_root
    &&& layout.steam_build_root@ == path_join(package_root, STEAM_BUILD_DIR@)
    &&& layout.app_build_script@ == path_join(scripts_root, app_build_script_name(app_id))
    &&& is_package_roots(layout.included_roots@, vapor_home)
}

/// The index of the first package root whose source is missing, if any.
pub open spec fn first_missing(present: Seq<bool>) -> Option<int> {
    crate::probe::first_present(present.map_values(|p: bool| !p))
}

impl RootPackageLayout {
    /// Validate the request and lay out the root package under `output_root`.
    /// `present` answers, for each of [`package_roots`] of `vapor_home` in
    /// order, whether its source exists.
    pub fn new(
        request: &RootPackageRequest,
        vapor_home: &str,
        output_root: &str,
        host_triple: &str,
        present: &Vec<bool>,
    ) -> (layout: Result<RootPackageLayout, RootCommandError>)
        requires
            present.len() == package_depot_paths().len(),
        ensures
            ids_error(request.app_id, request.depot_id) matches Some(e) ==> layout
                == Err::<RootPackageLayout, RootCommandError>(e),
            ids_error(request.app_id, request.depot_id) is None && sets_default_live(
                request.set_live.deep_view(),
            ) ==> layout == Err::<RootPackageLayout, RootCommandError>(
                RootCommandError::DefaultBranchCannotBeSetLive,
            ),
            ids_error(request.app_id, request.depot_id) is None && !sets_default_live(
                request.set_live.deep_view(),
            ) ==> match first_missing(present@) {
                Some(i) => layout matches Err(RootCommandError::MissingPackageInput(source))
                    && source@ == path_join(vapor_home@, package_depot_paths()[i]),
                None => layout matches Ok(l) && is_package_layout(
                    l,
                    request.app_id,
                    vapor_home@,
                    output_root@,
                    host_triple@,
                ),
            },
    {
        validate_ids(request.app_id, request.depot_id)?;
        validate_set_live(&request.set_live)?;
        let package_root = join_path(output_root, ROOT_OUTPUT_DIR);
        let content_root = join_path(package_root.as_str(), CONTENT_DIR);
        let scripts_root = join_path(package_root.as_str(), SCRIPTS_DIR);
        let steam_build_root = join_path(package_root.as_str(), STEAM_BUILD_DIR);
        let mut script_name = String::from_str("app_build_");
        let id_text = decimal_text(request.app_id);
        script_name.append(id_text.as_str());
        script_name.append(".vdf");
        let app_build_script = join_path(scripts_root.as_str(), script_name.as_str());
        let included_roots = package_roots(vapor_home);
        let ghost missing = present@.map_values(|p: bool| !p);
        proof {
            crate::probe::lemma_first_present_bounds(missing);
        }
        let mut i: usize = 0;
        while i < included_roots.len()
            invariant
                i <= included_roots.len(),
                included_roots.len() == present.len(),
                ids_error(request.app_id, request.depot_id) is None,
                !sets_default_live(request.set_live.deep_view()),
                is_package_roots(included_roots@, vapor_home@),
                missing == present@.map_values(|p: bool| !p),
                forall|j: int| 0 <= j < i ==> present@[j],
                crate::probe::first_present(missing) matches Some(k) ==> 0 <= k < missing.len()
                    && missing[k] && forall|j: int| 0 <= j < k ==> !missing[j],
                crate::probe::first_present(missing) is None ==> forall|j: int|
                    0 <= j < missing.len() ==> !missing[j],
            decreases included_roots.len() - i,
        {
            if !present[i] {
                assert(missing[i as int]);
                assert(forall|j: int| 0 <= j < i ==> !missing[j]);
                assert(first_missing(present@) == Some(i as int));
                return Err(RootCommandError::MissingPackageInput(included_roots[i].source.clone()));
            }
            i = i + 1;
        }
        assert(forall|j: int| 0 <= j < missing.len() ==> !missing[j]);
        assert(first_missing(present@) is None);
        Ok(
            RootPackageLayout {
                vapor_home: String::from_str(vapor_home),
                host_triple: String::from_str(host_triple),
                package_root,
                content_root,
                scripts_root,
                steam_build_root,
                app_build_script,
                included_roots,
            },
        )
    }
}

/// The VDF escape of one character: backslashes and double quotes get a
/// backslash in front.
pub open spec fn vdf_escape_char(c: char) -> Seq<char> {
    if c == '\\' {
        seq!['\\', '\\']
    } else if c == '"' {
        seq!['\\', '"']
    } else {
        seq![c]
    }
}

/// `value` escaped for a double-quoted VDF string.
pub open spec fn vdf_escaped(value: Seq<char>) -> Seq<char>
    decreases value.len(),
{
    if value.len() == 0 {
        seq![]
    } else {
        vdf_escaped(value.drop_last()) + vdf_escape_char(value.last())
    }
}

/// Escape `value` for a double-quoted VDF string.
pub fn vdf_escape(value: &str) -> (escaped: String)
    ensures
        escaped@ == vdf_escaped(value@),
{
    let chars = crate::text::chars_of(value);
    let mut escaped = String::new();
    let mut i: usize = 0;
    while i < chars.len()
        invariant
            chars@ == value@,
            i <= chars.len(),
            escaped@ == vdf_escaped(value@.subrange(0, i as int)),
        decreases chars.len() - i,
    {
        let c = chars[i];
        let ghost prev = escaped@;
        if c == '\\' || c == '"' {
            crate::path::push_char(&mut escaped, '\\');
        }
        crate::path::push_char(&mut escaped, c);
        proof {
            assert(escaped@ =~= prev + vdf_escape_char(c));
            assert(value@.subrange(0, i + 1).drop_last() =~= value@.subrange(0, i as int));
        }
        i = i + 1;
    }
    assert(value@.subrange(0, i as int) =~= value@);
    escaped
}

/// Reading the body of a double-quoted VDF string: a backslash makes the
/// character after it literal.
pub open spec fn vdf_unescaped(text: Seq<char>) -> Seq<char>
    decreases text.len(),
{
    if text.len() == 0 {
        seq![]
    } else if text[0] == '\\' && text.len() >= 2 {
        seq![text[1]] + vdf_unescaped(text.subrange(2, text.len() as int))
    } else {
        seq![text[0]] + vdf_unescaped(text.drop_first())
    }
}

proof fn lemma_vdf_escaped_concat(a: Seq<char>, b: Seq<char>)
    ensures
        vdf_escaped(a + b) == vdf_escaped(a) + vdf_escaped(b),
    decreases b.len(),
{
    if b.len() == 0 {
        assert(a + b =~= a);
        assert(vdf_escaped(a) + vdf_escaped(b) =~= vdf_escaped(a));
    } else {
        lemma_vdf_escaped_concat(a, b.drop_last());
        assert((a + b).drop_last() =~= a + b.drop_last());
        assert((a + b).last() == b.last());
        assert(vdf_escaped(a + b) =~= vdf_escaped(a) + vdf_escaped(b));
    }
}

/// Law: a value written into the app build script reads back unchanged:
/// whatever backslashes and double quotes it holds, the escaped text, read
/// as a double-quoted VDF string, is the value again.
pub proof fn lemma_vdf_escape_round_trip(value: Seq<char>)
    ensures
        vdf_unescaped(vdf_escaped(value)) == value,
    decreases value.len(),
{
    if value.len() > 0 {
        let c = value[0];
        let rest = value.drop_first();
        assert(value =~= seq![c] + rest);
        lemma_vdf_escaped_concat(seq![c], rest);
        assert(vdf_escaped(seq![c]) == vdf_escaped(seq![c].drop_last()) + vdf_escape_char(c));
        assert(vdf_escaped(seq![c]) =~= vdf_escape_char(c));
        lemma_vdf_escape_round_trip(rest);
        let escaped = vdf_escaped(value);
        if c == '\\' || c == '"' {
            assert(escaped =~= seq!['\\', c] + vdf_escaped(rest));
            assert(escaped.subrange(2, escaped.len() as int) =~= vdf_escaped(rest));
        } else {
            assert(escaped =~= seq![c] + vdf_escaped(rest));
            assert(escaped.drop_first() =~= vdf_escaped(rest));
        }
        assert(vdf_unescaped(escaped) =~= value);
    }
}

/// The `SetLive` line of the app build script, if a branch is requested.
pub open spec fn set_live_line(set_live: Option<Seq<char>>) -> Seq<char> {
    match set_live {
        Some(branch) => "    \"SetLive\" \""@ + vdf_escaped(branch) + "\"\n"@,
        None => seq![],
    }
}

/// The SteamPipe app build script for a request: it uploads everything under
/// the content root into the requested depot.
pub open spec fn app_build_script_text(
    app_id: u32,
    depot_id: u32,
    description: Seq<char>,
    set_live: Option<Seq<char>>,
    content_root: Seq<char>,
    steam_build_root: Seq<char>,
) -> Seq<char> {
    "\"AppBuild\"\n{\n    \"AppID\" \""@ + decimal(app_id as nat) + "\"\n    \"Desc\" \""@
        + vdf_escaped(description) + "\"\n"@ + set_live_line(set_live) + "    \"ContentRoot\" \""@
        + vdf_escaped(content_root) + "\"\n    \"BuildOutput\" \""@ + vdf_escaped(steam_build_root)
        + "\"\n    \"Depots\"\n    {\n        \""@ + decimal(depot_id as nat)
        + "\"\n        {\n            \"FileMapping\"\n            {\n                \"LocalPath\" \"*\"\n                \"DepotPath\" \".\"\n                \"recursive\" \"1\"\n            }\n        }\n    }\n}\n"@
}

/// Write the SteamPipe app build script for `request`.
pub fn app_build_script(request: &RootPackageRequest, content_root: &str, steam_build_root: &str) -> (script: String)
    ensures
        script@ == app_build_script_text(
            request.app_id,
            request.depot_id,
            request.description@,
            request.set_live.deep_view(),
            content_root@,
            steam_build_root@,
        ),
{
    let mut script = String::from_str("\"AppBuild\"\n{\n    \"AppID\" \"");
    let app_id = decimal_text(request.app_id);
    script.append(app_id.as_str());
    script.append("\"\n    \"Desc\" \"");
    let description = vdf_escape(request.description.as_str());
    script.append(description.as_str());
    script.append("\"\n");
    match &request.set_live {
        Some(branch) => {
            script.append("    \"SetLive\" \"");
            let escaped = vdf_escape(branch.as_str());
            script.append(escaped.as_str());
            script.append("\"\n");
        },
        None => {},
    }
    script.append("    \"ContentRoot\" \"");
    let content = vdf_escape(content_root);
    script.append(content.as_str());
    script.append("\"\n    \"BuildOutput\" \"");
    let build = vdf_escape(steam_build_root);
    script.append(build.as_str());
    script.append("\"\n    \"Depots\"\n    {\n        \"");
    let depot_id = decimal_text(request.depot_id);
    script.append(depot_id.as_str());
    script.append(
        "\"\n        {\n            \"FileMapping\"\n            {\n                \"LocalPath\" \"*\"\n                \"DepotPath\" \".\"\n                \"recursive\" \"1\"\n            }\n        }\n    }\n}\n",
    );
    script
}

/// Where a symlink in a package tree points: its target when absolute,
/// otherwise the target taken relative to the link's directory; `None` when
/// a relative target has no directory to start from.
pub open spec fn symlink_destination(link: Seq<char>, link_target: Seq<char>) -> Option<Seq<char>> {
    if is_absolute(link_target) {
        Some(link_target)
    } else {
        match parent(link) {
            Some(dir) => Some(path_join(dir, link_target)),
            None => None,
        }
    }
}

/// Resolve the path a package-tree symlink at `link` (pointing at
/// `link_target`) refers to, so its contents can be copied.
pub fn resolve_symlink_target(link: &str, link_target: &str) -> (resolved: Result<String, RootCommandError>)
    ensures
        symlink_destination(link@, link_target@) matches Some(dest) ==> (resolved matches Ok(path)
            && path@ == dest),
        symlink_destination(link@, link_target@) is None ==> (resolved matches Err(
            RootCommandError::SymlinkHasNoParent(path),
        ) && path@ == link@),
{
    if path_is_absolute(link_target) {
        return Ok(String::from_str(link_target));
    }
    match path_parent(link) {
        Some(dir) => Ok(join_path(dir.as_str(), link_target)),
        None => Err(RootCommandError::SymlinkHasNoParent(String::from_str(link))),
    }
}

/// Report for root package assembly.
#[derive(Debug, Clone, PartialEq, Eq)]
pub struct RootPackageReport {
    pub planned: bool,
    pub app_id: u32,
    pub depot_id: u32,
    pub host_triple: String,
    pub description: String,
    pub set_live: Option<String>,
    pub vapor_home: String,
    pub package_root: String,
    pub content_root: String,
    pub scripts_root: String,
    pub steam_build_root: String,
    pub app_build_script: String,
    pub included_roots: Vec<String>,
    pub copied_files: usize,
}

/// `report` describes the package assembled for `request` in `layout`,
/// counting `copied_files` files.
pub open spec fn is_package_report(
    report: RootPackageReport,
    request: RootPackageRequest,
    layout: RootPackageLayout,
    copied_files: usize,
) -> bool {
    &&& report.planned == request.plan
    &&& report.app_id == request.app_id
    &&& report.depot_id == request.depot_id
    &&& report.host_triple == layout.host_triple
    &&& report.description == request.description
    &&& report.set_live.deep_view() == request.set_live.deep_view()
    &&& report.vapor_home == layout.vapor_home
    &&& report.package_root == layout.package_root
    &&& report.content_root == layout.content_root
    &&& report.scripts_root == layout.scripts_root
    &&& report.steam_build_root == layout.steam_build_root
    &&& report.app_build_script == layout.app_build_script
    &&& report.included_roots.deep_view() == layout.included_roots@.map_values(
        |root: PackageRoot| root.depot_path@,
    )
    &&& report.copied_files == copied_files
}

fn clone_text_option(value: &Option<String>) -> (copy: Option<String>)
    ensures
        copy.deep_view() == value.deep_view(),
{
    match value {
        Some(text) => Some(text.clone()),
        None => None,
    }
}

/// Build the root package report once the package trees were copied (or, in
/// plan mode, counted): `copied_files` is the number of files involved.
pub fn root_package(request: &RootPackageRequest, layout: &RootPackageLayout, copied_files: usize) -> (report: RootPackageReport)
    ensures
        is_package_report(report, *request, *layout, copied_files),
{
    let mut included_roots: Vec<String> = Vec::new();
    let mut i: usize = 0;
    while i < layout.included_roots.len()
        invariant
            i <= layout.included_roots.len(),
            included_roots.deep_view() =~= layout.included_roots@.subrange(0, i as int).map_values(
                |root: PackageRoot| root.depot_path@,
            ),
        decreases layout.included_roots.len() - i,
    {
        let ghost prev = included_roots.deep_view();
        included_roots.push(layout.included_roots[i].depot_path.clone());
        proof {
            let roots = layout.included_roots@;
            assert(included_roots.deep_view() =~= prev.push(roots[i as int].depot_path@));
            assert(roots.subrange(0, i + 1) =~= roots.subrange(0, i as int).push(roots[i as int]));
        }
        i = i + 1;
    }
    assert(layout.included_roots@.subrange(0, i as int) =~= layout.included_roots@);
    RootPackageReport {
        planned: request.plan,
        app_id: request.app_id,
        depot_id: request.depot_id,
        host_triple: layout.host_triple.clone(),
        description: request.description.clone(),
        set_live: clone_text_option(&request.set_live),
        vapor_home: layout.vapor_home.clone(),
        package_root: layout.package_root.clone(),
        content_root: layout.content_root.clone(),
        scripts_root: layout.scripts_root.clone(),
        steam_build_root: layout.steam_build_root.clone(),
        app_build_script: layout.app_build_script.clone(),
        included_roots,
        copied_files,
    }
}

/// The package request a publish request implies.
pub fn root_package_request(request: &RootPublishRequest) -> (package: RootPackageRequest)
    ensures
        package.plan == request.plan,
        package.app_id == request.app_id,
        package.depot_id == request.depot_id,
        package.description == request.description,
        package.set_live.deep_view() == request.set_live.deep_view(),
{
    RootPackageRequest {
        plan: request.plan,
        app_id: request.app_id,
        depot_id: request.depot_id,
        description: request.description.clone(),
        set_live: clone_text_option(&request.set_live),
    }
}

/// The SteamCMD app build request that uploads the root package laid out in
/// `layout`.
pub fn root_steam_request(request: &RootPublishRequest, layout: &RootPackageLayout) -> (steam: SteamRunAppBuildRequest)
    ensures
        steam.account == request.account,
        steam.steamcmd == request.steamcmd,
        steam.app_build_script == layout.app_build_script,
{
    SteamRunAppBuildRequest {
        account: request.account.clone(),
        steamcmd: request.steamcmd.clone(),
        app_build_script: layout.app_build_script.clone(),
    }
}

/// The SteamCMD path a publish report shows: the resolved executable, or the
/// requested one when it was not found.
pub fn published_steamcmd(resolved: &Option<String>, requested: &String) -> (steamcmd: String)
    ensures
        steamcmd == match resolved {
            Some(path) => *path,
            None => *requested,
        },
{
    match resolved {
        Some(path) => path.clone(),
        None => requested.clone(),
    }
}

/// Report for a root publish: the package, the SteamCMD run (planned or
/// performed), and how it ended when it ran.
#[derive(Debug, Clone, PartialEq, Eq)]
pub struct RootPublishReport {
    pub planned: bool,
    pub package: RootPackageReport,
    pub steamcmd: String,
    pub account: String,
    pub steam_args: Vec<String>,
    pub status: Option<ProcessExit>,
    pub set_live: Option<String>,
}

/// Report a planned publish: the SteamCMD command line that would upload the
/// package, without running it.
pub fn root_publish_plan_report(
    request: &RootPublishRequest,
    package: RootPackageReport,
    steam_status: &SteamStatusReport,
    steam_args: Vec<String>,
) -> (report: RootPublishReport)
    ensures
        report.planned,
        report.package == package,
        report.steamcmd == match steam_status.resolved_steamcmd {
            Some(path) => path,
            None => request.steamcmd,
        },
        report.account == request.account,
        report.steam_args == steam_args,
        report.status is None,
        report.set_live.deep_view() == request.set_live.deep_view(),
{
    RootPublishReport {
        planned: true,
        package,
        steamcmd: published_steamcmd(&steam_status.resolved_steamcmd, &request.steamcmd),
        account: request.account.clone(),
        steam_args,
        status: None,
        set_live: clone_text_option(&request.set_live),
    }
}

/// Report a performed publish from the SteamCMD app build report.
pub fn root_publish_report(request: &RootPublishRequest, package: RootPackageReport, steam: SteamRunAppBuildReport) -> (report:
    RootPublishReport)
    ensures
        !report.planned,
        report.package == package,
        report.steamcmd == match steam.status.resolved_steamcmd {
            Some(path) => path,
            None => request.steamcmd,
        },
        report.account == request.account,
        report.steam_args == steam.steam_args,
        report.status == Some(steam.exit_status),
        report.set_live.deep_view() == request.set_live.deep_view(),
{
    let steamcmd = published_steamcmd(&steam.status.resolved_steamcmd, &request.steamcmd);
    RootPublishReport {
        planned: false,
        package,
        steamcmd,
        account: request.account.clone(),
        steam_args: steam.steam_args,
        status: Some(steam.exit_status),
        set_live: clone_text_option(&request.set_live),
    }
}


/// Law: a planned package describes the real one. For two requests that
/// differ at most in `plan`, the layouts agree, and reports that count the
/// same files name the same app build script, package roots, and depot
/// paths; only `planned` tells them apart.
pub proof fn lemma_plan_describes_real_package(
    planned: RootPackageRequest,
    actual: RootPackageRequest,
    planned_layout: RootPackageLayout,
    real_layout: RootPackageLayout,
    vapor_home: Seq<char>,
    output_root: Seq<char>,
    host_triple: Seq<char>,
    copied_files: usize,
    planned_report: RootPackageReport,
    real_report: RootPackageReport,
)
    requires
        planned.app_id == actual.app_id,
        planned.depot_id == actual.depot_id,
        planned.description@ == actual.description@,
        planned.set_live.deep_view() == actual.set_live.deep_view(),
        is_package_layout(planned_layout, planned.app_id, vapor_home, output_root, host_triple),
        is_package_layout(real_layout, actual.app_id, vapor_home, output_root, host_triple),
        is_package_report(planned_report, planned, planned_layout, copied_files),
        is_package_report(real_report, actual, real_layout, copied_files),
    ensures
        planned_report.app_build_script@ == real_report.app_build_script@,
        planned_report.package_root@ == real_report.package_root@,
        planned_report.content_root@ == real_report.content_root@,
        planned_report.included_roots.deep_view() == real_report.included_roots.deep_view(),
        planned_report.copied_files == real_report.copied_files,
        planned_report.planned == planned.plan,
        real_report.planned == actual.plan,
{
    let a = planned_layout.included_roots@.map_values(|root: PackageRoot| root.depot_path@);
    let b = real_layout.included_roots@.map_values(|root: PackageRoot| root.depot_path@);
    assert(a =~= b) by {
        assert forall|i: int| 0 <= i < a.len() implies a[i] == b[i] by {
            assert(planned_layout.included_roots@[i].depot_path@ == package_depot_paths()[i]);
            assert(real_layout.included_roots@[i].depot_path@ == package_depot_paths()[i]);
        }
    }
}

} // verus!

//! SDK-managed Rustup/Cargo command intent and local status reporting.
//!
//! The caller reads the process facts (the `VAPOR_HOME` variable, the current
//! executable, `PATH`) and probes the filesystem; the functions here turn
//! those facts into Vapor's toolchain layout, install state, and the Rustup
//! command line that installs the pinned toolchain.

use vstd::prelude::*;

use crate::outcome::ProcessExit;
use crate::path::{file_name, join_path, parent, path_file_name, path_join, path_parent};
use crate::probe::{first_present, lemma_first_present_bounds};
use crate::text::{enclosed, prefixed};

verus! {

/// Environment variable that overrides where Vapor stores executable-local state.
pub const VAPOR_HOME_ENV: &'static str = "VAPOR_HOME";

/// Directory under `VAPOR_HOME` that contains the Rustup binary Vapor prefers.
pub const RUSTUP_DIR: &'static str = "rustup";

/// Directory under `VAPOR_HOME/rustup` that contains the Rustup executable.
pub const RUSTUP_BIN_DIR: &'static str = "bin";

/// Directory under `VAPOR_HOME` used as Rustup's managed home.
pub const RUSTUP_HOME_DIR: &'static str = "rustup-home";

/// Directory under `VAPOR_HOME` used as Cargo's managed home.
pub const CARGO_HOME_DIR: &'static str = "cargo-home";

/// Directory under `VAPOR_HOME` holding the binaries of the active
/// toolchain: workspace commands run `cargo` from here.
pub const ACTIVE_TOOLCHAIN_BIN_DIR: &'static str = "toolchain/active/bin";

/// Directory under `VAPOR_HOME` reserved for Rustup acquisition/bootstrap state.
pub const TOOLCHAIN_BOOTSTRAP_DIR: &'static str = "toolchain-bootstrap";

/// Directory under `VAPOR_HOME` for SDK-managed build outputs.
pub const OUTPUT_DIR: &'static str = "output";

/// Toolchain commands for the pinned SDK-managed Rust/Cargo toolchain.
#[derive(Debug, Clone, Copy, PartialEq, Eq, Structural)]
pub enum ToolchainCommand {
    /// Inspect pinned toolchain state.
    Status,
    /// Install the pinned toolchain chosen by the project owner.
    Install,
    /// Repair a damaged or incomplete pinned toolchain installation.
    Repair,
}

/// A component of the Rust toolchain the pin may require.
#[derive(Debug, Clone, Copy, PartialEq, Eq, Structural)]
pub enum ToolchainComponent {
    Rustc,
    Cargo,
    RustStd,
    Rustfmt,
    Clippy,
    RustSrc,
}

/// The distribution name of a toolchain component.
pub open spec fn component_name(component: ToolchainComponent) -> Seq<char> {
    match component {
        ToolchainComponent::Rustc => "rustc"@,
        ToolchainComponent::Cargo => "cargo"@,
        ToolchainComponent::RustStd => "rust-std"@,
        ToolchainComponent::Rustfmt => "rustfmt"@,
        ToolchainComponent::Clippy => "clippy"@,
        ToolchainComponent::RustSrc => "rust-src"@,
    }
}

impl ToolchainComponent {
    /// The distribution name of this component.
    pub fn as_str(self) -> (name: &'static str)
        ensures
            name@ == component_name(self),
    {
        match self {
            ToolchainComponent::Rustc => "rustc",
            ToolchainComponent::Cargo => "cargo",
            ToolchainComponent::RustStd => "rust-std",
            ToolchainComponent::Rustfmt => "rustfmt",
            ToolchainComponent::Clippy => "clippy",
            ToolchainComponent::RustSrc => "rust-src",
        }
    }
}

/// The canonical toolchain pin Vapor installs and builds with.
#[derive(Debug, Clone, PartialEq, Eq)]
pub struct ToolchainPin {
    /// Rustup toolchain name of the pin, such as `nightly-2025-01-01`.
    pub identifier: String,
    pub channel: String,
    pub date: String,
    pub supported_host_triples: Vec<String>,
    pub supported_target_triples: Vec<String>,
    pub required_components: Vec<ToolchainComponent>,
}

/// Where `VAPOR_HOME` came from for this process.
#[derive(Debug, Clone, Copy, PartialEq, Eq, Structural)]
pub enum VaporHomeSource {
    Environment,
    ExecutableRoot,
}

/// The report text for a Vapor home source.
pub open spec fn vapor_home_source_name(source: VaporHomeSource) -> Seq<char> {
    match source {
        VaporHomeSource::Environment => VAPOR_HOME_ENV@,
        VaporHomeSource::ExecutableRoot => "executable root"@,
    }
}

impl VaporHomeSource {
    /// The report text for this source.
    pub fn as_str(self) -> (name: &'static str)
        ensures
            name@ == vapor_home_source_name(self),
    {
        match self {
            VaporHomeSource::Environment => VAPOR_HOME_ENV,
            VaporHomeSource::ExecutableRoot => "executable root",
        }
    }
}

/// Where the Rustup executable came from for this process.
#[derive(Debug, Clone, Copy, PartialEq, Eq, Structural)]
pub enum RustupSource {
    VaporLocal,
    PathLookup,
    Unavailable,
}

/// The report word for a Rustup source.
pub open spec fn rustup_source_name(source: RustupSource) -> Seq<char> {
    match source {
        RustupSource::VaporLocal => "vapor-local"@,
        RustupSource::PathLookup => "path"@,
        RustupSource::Unavailable => "unavailable"@,
    }
}

impl RustupSource {
    /// The report word for this source.
    pub fn as_str(self) -> (name: &'static str)
        ensures
            name@ == rustup_source_name(self),
    {
        match self {
            RustupSource::VaporLocal => "vapor-local",
            RustupSource::PathLookup => "path",
            RustupSource::Unavailable => "unavailable",
        }
    }
}

/// Coarse local install state before real archive verification exists.
#[derive(Debug, Clone, PartialEq, Eq)]
pub enum ToolchainInstallState {
    MissingRustup,
    Missing,
    PresentUnverified,
    Broken { reason: String },
}

/// The report word for an install state.
pub open spec fn install_state_name(state: ToolchainInstallState) -> Seq<char> {
    match state {
        ToolchainInstallState::MissingRustup => "missing_rustup"@,
        ToolchainInstallState::Missing => "missing"@,
        ToolchainInstallState::PresentUnverified => "present_unverified"@,
        ToolchainInstallState::Broken { .. } => "broken"@,
    }
}

impl ToolchainInstallState {
    /// The report word for this state.
    pub fn as_str(&self) -> (name: &'static str)
        ensures
            name@ == install_state_name(*self),
    {
        match self {
            ToolchainInstallState::MissingRustup => "missing_rustup",
            ToolchainInstallState::Missing => "missing",
            ToolchainInstallState::PresentUnverified => "present_unverified",
            ToolchainInstallState::Broken { .. } => "broken",
        }
    }
}

/// Error returned while inspecting local Vapor toolchain state.
#[derive(Debug, Clone, PartialEq, Eq)]
pub enum ToolchainStatusError {
    /// The canonical toolchain manifest could not be read; the text explains why.
    Manifest(String),
    /// The current executable could not be located; the text explains why.
    CurrentExecutable(String),
    ExecutableHasNoParent,
}

/// The text of a toolchain status error.
pub open spec fn status_error_message(error: ToolchainStatusError) -> Seq<char> {
    match error {
        ToolchainStatusError::Manifest(text) => text@,
        ToolchainStatusError::CurrentExecutable(text) => "failed to locate current executable: "@ + text@,
        ToolchainStatusError::ExecutableHasNoParent => "current executable has no parent directory"@,
    }
}

impl ToolchainStatusError {
    /// The text shown for this error.
    pub fn message(&self) -> (text: String)
        ensures
            text@ == status_error_message(*self),
    {
        match self {
            ToolchainStatusError::Manifest(text) => text.clone(),
            ToolchainStatusError::CurrentExecutable(text) => prefixed(
                "failed to locate current executable: ",
                text.as_str(),
            ),
            ToolchainStatusError::ExecutableHasNoParent => String::from_str(
                "current executable has no parent directory",
            ),
        }
    }
}

/// The Vapor home chosen from a `VAPOR_HOME` value and the current
/// executable path: a non-empty variable wins; otherwise the executable's
/// directory, or its parent when that directory is named `bin`.
pub open spec fn vapor_home_resolution(
    env_value: Option<Seq<char>>,
    current_exe: Result<Seq<char>, Seq<char>>,
) -> Result<(VaporHomeSource, Seq<char>), ()> {
    if env_value is Some && env_value->0.len() > 0 {
        Ok((VaporHomeSource::Environment, env_value->0))
    } else {
        match current_exe {
            Err(_) => Err(()),
            Ok(exe) => match parent(exe) {
                None => Err(()),
                Some(dir) => if file_name(dir) == Some("bin"@) {
                    match parent(dir) {
                        None => Err(()),
                        Some(root) => Ok((VaporHomeSource::ExecutableRoot, root)),
                    }
                } else {
                    Ok((VaporHomeSource::ExecutableRoot, dir))
                },
            },
        }
    }
}

/// The text of a path-or-reason result.
pub open spec fn text_result_view(result: Result<String, String>) -> Result<Seq<char>, Seq<char>> {
    match result {
        Ok(text) => Ok(text@),
        Err(text) => Err(text@),
    }
}

/// Decide where Vapor's home is. `env_value` is the `VAPOR_HOME` variable, if
/// set; `current_exe` is the current executable path or the reason it could
/// not be found.
pub fn resolve_vapor_home(env_value: Option<String>, current_exe: Result<String, String>) -> (home:
    Result<(VaporHomeSource, String), ToolchainStatusError>)
    ensures
        home matches Ok((source, path)) ==> vapor_home_resolution(
            env_value.deep_view(),
            text_result_view(current_exe),
        ) == Ok::<(VaporHomeSource, Seq<char>), ()>((source, path@)),
        home is Err ==> vapor_home_resolution(env_value.deep_view(), text_result_view(current_exe))
            is Err,
        current_exe matches Err(reason) ==> (!(env_value is Some && env_value->0@.len() > 0)
            ==> home == Err::<(VaporHomeSource, String), ToolchainStatusError>(
            ToolchainStatusError::CurrentExecutable(reason),
        )),
        home matches Err(e) ==> (current_exe is Ok ==> e
            == ToolchainStatusError::ExecutableHasNoParent),
{
    if let Some(value) = env_value {
        if value.as_str().unicode_len() > 0 {
            return Ok((VaporHomeSource::Environment, value));
        }
    }
    let exe = match current_exe {
        Err(reason) => return Err(ToolchainStatusError::CurrentExecutable(reason)),
        Ok(exe) => exe,
    };
    let dir = match path_parent(exe.as_str()) {
        None => return Err(ToolchainStatusError::ExecutableHasNoParent),
        Some(dir) => dir,
    };
    let name = path_file_name(dir.as_str());
    let is_bin = match &name {
        Some(name) => name.as_str().unicode_len() == 3 && name.as_str().get_char(0) == 'b'
            && name.as_str().get_char(1) == 'i' && name.as_str().get_char(2) == 'n',
        None => false,
    };
    proof {
        reveal_strlit("bin");
        if let Some(n) = name {
            if n@.len() == 3 && n@[0] == 'b' && n@[1] == 'i' && n@[2] == 'n' {
                assert(n@ =~= "bin"@);
            } else {
                assert(n@ != "bin"@);
            }
        }
    }
    if is_bin {
        match path_parent(dir.as_str()) {
            None => Err(ToolchainStatusError::ExecutableHasNoParent),
            Some(root) => Ok((VaporHomeSource::ExecutableRoot, root)),
        }
    } else {
        Ok((VaporHomeSource::ExecutableRoot, dir))
    }
}

/// The name of an executable on Unix hosts.
pub open spec fn executable_name(stem: Seq<char>) -> Seq<char> {
    stem
}

/// Paths Vapor derives from its home, the pin, and the host triple.
#[derive(Debug, Clone, PartialEq, Eq)]
pub struct ToolchainLayout {
    /// App-local Rustup executable path Vapor prefers over PATH lookup.
    pub local_rustup_path: String,
    /// Rustup home scoped to this Vapor install.
    pub rustup_home: String,
    /// Cargo home scoped to this Vapor install.
    pub cargo_home: String,
    /// Expected Rustup-managed toolchain root for the canonical pin and host.
    pub toolchain_root: String,
    /// Reserved state for acquiring/updating the app-local Rustup binary.
    pub bootstrap_root: String,
    /// Stable output root for future build/package promotion.
    pub output_root: String,
    pub cargo_path: String,
    pub rustc_path: String,
}

/// The Rustup toolchain directory name for a pin on a host.
pub open spec fn toolchain_dir_name(identifier: Seq<char>, host_triple: Seq<char>) -> Seq<char> {
    identifier + "-"@ + host_triple
}

/// The toolchain root under a Rustup home.
pub open spec fn toolchain_root_path(vapor_home: Seq<char>, identifier: Seq<char>, host_triple: Seq<char>) -> Seq<char> {
    path_join(
        path_join(path_join(vapor_home, RUSTUP_HOME_DIR@), "toolchains"@),
        toolchain_dir_name(identifier, host_triple),
    )
}

/// The layout, as plain text paths.
pub open spec fn layout_view(layout: ToolchainLayout) -> Seq<Seq<char>> {
    seq![
        layout.local_rustup_path@,
        layout.rustup_home@,
        layout.cargo_home@,
        layout.toolchain_root@,
        layout.bootstrap_root@,
        layout.output_root@,
        layout.cargo_path@,
        layout.rustc_path@,
    ]
}

/// Vapor's toolchain layout under `vapor_home`.
pub open spec fn toolchain_layout_view(vapor_home: Seq<char>, identifier: Seq<char>, host_triple: Seq<char>) -> Seq<Seq<char>> {
    let root = toolchain_root_path(vapor_home, identifier, host_triple);
    seq![
        path_join(path_join(path_join(vapor_home, RUSTUP_DIR@), RUSTUP_BIN_DIR@), executable_name("rustup"@)),
        path_join(vapor_home, RUSTUP_HOME_DIR@),
        path_join(vapor_home, CARGO_HOME_DIR@),
        root,
        path_join(vapor_home, TOOLCHAIN_BOOTSTRAP_DIR@),
        path_join(vapor_home, OUTPUT_DIR@),
        path_join(path_join(root, "bin"@), executable_name("cargo"@)),
        path_join(path_join(root, "bin"@), executable_name("rustc"@)),
    ]
}

/// Compute Vapor's toolchain layout under `vapor_home` for the pin
/// `identifier` on `host_triple`.
pub fn toolchain_layout(vapor_home: &str, identifier: &str, host_triple: &str) -> (layout: ToolchainLayout)
    ensures
        layout_view(layout) == toolchain_layout_view(vapor_home@, identifier@, host_triple@),
{
    let rustup_dir = join_path(vapor_home, RUSTUP_DIR);
    let rustup_bin = join_path(rustup_dir.as_str(), RUSTUP_BIN_DIR);
    let local_rustup_path = join_path(rustup_bin.as_str(), "rustup");
    let rustup_home = join_path(vapor_home, RUSTUP_HOME_DIR);
    let cargo_home = join_path(vapor_home, CARGO_HOME_DIR);
    let toolchains = join_path(rustup_home.as_str(), "toolchains");
    let mut dir_name = String::from_str(identifier);
    dir_name.append("-");
    dir_name.append(host_triple);
    let toolchain_root = join_path(toolchains.as_str(), dir_name.as_str());
    let bootstrap_root = join_path(vapor_home, TOOLCHAIN_BOOTSTRAP_DIR);
    let output_root = join_path(vapor_home, OUTPUT_DIR);
    let bin = join_path(toolchain_root.as_str(), "bin");
    let cargo_path = join_path(bin.as_str(), "cargo");
    let rustc_path = join_path(bin.as_str(), "rustc");
    let layout = ToolchainLayout {
        local_rustup_path,
        rustup_home,
        cargo_home,
        toolchain_root,
        bootstrap_root,
        output_root,
        cargo_path,
        rustc_path,
    };
    assert(layout_view(layout) =~= toolchain_layout_view(vapor_home@, identifier@, host_triple@));
    layout
}

/// The places Rustup is looked for, in order: Vapor's own copy, then
/// `rustup` under each `PATH` entry.
pub open spec fn rustup_candidate_paths(local_rustup_path: Seq<char>, path_entries: Seq<Seq<char>>) -> Seq<Seq<char>> {
    seq![local_rustup_path] + path_entries.map_values(
        |root: Seq<char>| path_join(root, executable_name("rustup"@)),
    )
}

/// List the places Rustup is looked for; the caller probes each one with
/// `is_file` and passes the answers to [`resolve_rustup`].
pub fn rustup_candidates(local_rustup_path: &str, path_entries: &Vec<String>) -> (candidates: Vec<String>)
    ensures
        candidates.deep_view() == rustup_candidate_paths(local_rustup_path@, path_entries.deep_view()),
{
    let mut candidates: Vec<String> = Vec::new();
    candidates.push(String::from_str(local_rustup_path));
    let mut i: usize = 0;
    while i < path_entries.len()
        invariant
            i <= path_entries.len(),
            candidates.deep_view() =~= seq![local_rustup_path@] + path_entries.deep_view().subrange(
                0,
                i as int,
            ).map_values(|root: Seq<char>| path_join(root, executable_name("rustup"@))),
        decreases path_entries.len() - i,
    {
        let ghost prev = candidates.deep_view();
        let candidate = join_path(path_entries[i].as_str(), "rustup");
        candidates.push(candidate);
        proof {
            let entries = path_entries.deep_view();
            assert(candidates.deep_view() =~= prev.push(path_join(entries[i as int], "rustup"@)));
            assert(entries.subrange(0, i + 1) =~= entries.subrange(0, i as int).push(
                entries[i as int],
            ));
        }
        i = i + 1;
    }
    assert(path_entries.deep_view().subrange(0, i as int) =~= path_entries.deep_view());
    candidates
}

/// Which Rustup to run given the probe answers for the candidate list.
pub open spec fn rustup_resolution(candidates: Seq<Seq<char>>, present: Seq<bool>) -> (Option<Seq<char>>, RustupSource) {
    match first_present(present) {
        Some(i) => (Some(candidates[i]), if i == 0 { RustupSource::VaporLocal } else { RustupSource::PathLookup }),
        None => (None, RustupSource::Unavailable),
    }
}

/// Resolve Rustup from the candidates of [`rustup_candidates`] and the
/// caller's `is_file` answer for each of them.
pub fn resolve_rustup(candidates: &Vec<String>, present: &Vec<bool>) -> (resolved: (Option<String>, RustupSource))
    requires
        candidates.len() == present.len(),
    ensures
        (resolved.0.deep_view(), resolved.1) == rustup_resolution(candidates.deep_view(), present@),
{
    proof {
        crate::probe::lemma_first_present_bounds(present@);
    }
    let mut i: usize = 0;
    while i < present.len()
        invariant
            candidates.len() == present.len(),
            i <= present.len(),
            forall|j: int| 0 <= j < i ==> !present@[j],
            first_present(present@) matches Some(k) ==> 0 <= k < present.len() && present@[k]
                && forall|j: int| 0 <= j < k ==> !present@[j],
            first_present(present@) is None ==> forall|j: int|
                0 <= j < present.len() ==> !present@[j],
        decreases present.len() - i,
    {
        if present[i] {
            let found = candidates[i].clone();
            assert(first_present(present@) == Some(i as int));
            assert(candidates.deep_view()[i as int] == found@);
            let source = if i == 0 { RustupSource::VaporLocal } else { RustupSource::PathLookup };
            return (Some(found), source);
        }
        i = i + 1;
    }
    (None, RustupSource::Unavailable)
}

/// Why an install whose toolchain root exists is broken.
pub open spec fn broken_reason(cargo_exists: bool, rustc_exists: bool) -> Seq<char> {
    if !cargo_exists && !rustc_exists {
        "missing cargo and rustc"@
    } else if !cargo_exists {
        "missing cargo"@
    } else {
        "missing rustc"@
    }
}

/// `state` is the install state for what the probes found: whether Rustup is
/// available and whether the toolchain root, `cargo`, and `rustc` exist.
pub open spec fn is_install_state(
    state: ToolchainInstallState,
    rustup_available: bool,
    root_exists: bool,
    cargo_exists: bool,
    rustc_exists: bool,
) -> bool {
    if !rustup_available {
        state == ToolchainInstallState::MissingRustup
    } else if !root_exists {
        state == ToolchainInstallState::Missing
    } else if cargo_exists && rustc_exists {
        state == ToolchainInstallState::PresentUnverified
    } else {
        state matches ToolchainInstallState::Broken { reason } && reason@ == broken_reason(
            cargo_exists,
            rustc_exists,
        )
    }
}

/// Classify the local toolchain install from the probe answers.
pub fn inspect_install_state(
    rustup_available: bool,
    root_exists: bool,
    cargo_exists: bool,
    rustc_exists: bool,
) -> (state: ToolchainInstallState)
    ensures
        is_install_state(state, rustup_available, root_exists, cargo_exists, rustc_exists),
{
    if !rustup_available {
        return ToolchainInstallState::MissingRustup;
    }
    if !root_exists {
        return ToolchainInstallState::Missing;
    }
    if cargo_exists && rustc_exists {
        return ToolchainInstallState::PresentUnverified;
    }
    let reason = if !cargo_exists && !rustc_exists {
        String::from_str("missing cargo and rustc")
    } else if !cargo_exists {
        String::from_str("missing cargo")
    } else {
        String::from_str("missing rustc")
    };
    ToolchainInstallState::Broken { reason }
}

/// Copy a list of strings.
pub fn clone_strings(items: &Vec<String>) -> (copy: Vec<String>)
    ensures
        copy.deep_view() == items.deep_view(),
{
    let mut copy: Vec<String> = Vec::new();
    let mut i: usize = 0;
    while i < items.len()
        invariant
            i <= items.len(),
            copy.deep_view() =~= items.deep_view().subrange(0, i as int),
        decreases items.len() - i,
    {
        let ghost prev = copy.deep_view();
        copy.push(items[i].clone());
        proof {
            assert(copy.deep_view() =~= prev.push(items.deep_view()[i as int]));
            assert(items.deep_view().subrange(0, i + 1) =~= items.deep_view().subrange(
                0,
                i as int,
            ).push(items.deep_view()[i as int]));
        }
        i = i + 1;
    }
    assert(items.deep_view().subrange(0, i as int) =~= items.deep_view());
    copy
}

/// Current local state for the canonical Vapor Rust/Cargo toolchain.
#[derive(Debug, Clone, PartialEq, Eq)]
pub struct ToolchainStatus {
    pub toolchain: ToolchainPin,
    pub host_triple: String,
    pub host_supported: bool,
    pub vapor_home_source: VaporHomeSource,
    pub vapor_home: String,
    /// App-local Rustup executable path Vapor prefers over PATH lookup.
    pub local_rustup_path: String,
    /// Rustup executable Vapor will invoke, if one is available.
    pub rustup_path: Option<String>,
    pub rustup_source: RustupSource,
    /// Rustup home scoped to this Vapor install.
    pub rustup_home: String,
    /// Cargo home scoped to this Vapor install.
    pub cargo_home: String,
    /// Expected Rustup-managed toolchain root for the canonical pin and host.
    pub toolchain_root: String,
    /// Reserved state for acquiring/updating the app-local Rustup binary.
    pub bootstrap_root: String,
    /// Stable output root for future build/package promotion.
    pub output_root: String,
    pub cargo_path: String,
    pub rustc_path: String,
    pub install_state: ToolchainInstallState,
}

impl ToolchainStatus {
    /// The host triples the pinned toolchain supports.
    pub fn supported_host_triples(&self) -> (triples: &Vec<String>)
        ensures
            triples == &self.toolchain.supported_host_triples,
    {
        &self.toolchain.supported_host_triples
    }

    /// The target triples whose standard libraries the pin installs.
    pub fn supported_target_triples(&self) -> (triples: &Vec<String>)
        ensures
            triples == &self.toolchain.supported_target_triples,
    {
        &self.toolchain.supported_target_triples
    }
}

/// The status paths in layout order.
pub open spec fn status_layout_view(status: ToolchainStatus) -> Seq<Seq<char>> {
    seq![
        status.local_rustup_path@,
        status.rustup_home@,
        status.cargo_home@,
        status.toolchain_root@,
        status.bootstrap_root@,
        status.output_root@,
        status.cargo_path@,
        status.rustc_path@,
    ]
}

/// What the caller found on this host for [`toolchain_status`].
#[derive(Debug, Clone, PartialEq, Eq)]
pub struct ToolchainProbes {
    /// The host's `PATH` entries, searched for `rustup` after Vapor's copy.
    pub path_entries: Vec<String>,
    /// Whether each candidate of [`rustup_candidates`] for the layout's
    /// local Rustup and these entries is a file, in order.
    pub rustup_present: Vec<bool>,
    /// Whether the toolchain root, `cargo`, and `rustc` of the layout exist.
    pub toolchain_root_exists: bool,
    pub cargo_exists: bool,
    pub rustc_exists: bool,
}

/// `status` describes the pin on `host_triple` under the given Vapor home,
/// with what the probes found.
pub open spec fn is_toolchain_status(
    status: ToolchainStatus,
    pin: ToolchainPin,
    host_triple: Seq<char>,
    host_supported: bool,
    vapor_home_source: VaporHomeSource,
    vapor_home: Seq<char>,
    probes: ToolchainProbes,
) -> bool {
    &&& status.toolchain == pin
    &&& status.host_triple@ == host_triple
    &&& status.host_supported == host_supported
    &&& status.vapor_home_source == vapor_home_source
    &&& status.vapor_home@ == vapor_home
    &&& status_layout_view(status) == toolchain_layout_view(vapor_home, pin.identifier@, host_triple)
    &&& (status.rustup_path.deep_view(), status.rustup_source) == rustup_resolution(
        rustup_candidate_paths(status.local_rustup_path@, probes.path_entries.deep_view()),
        probes.rustup_present@,
    )
    &&& is_install_state(
        status.install_state,
        status.rustup_path is Some,
        probes.toolchain_root_exists,
        probes.cargo_exists,
        probes.rustc_exists,
    )
}

/// Law: the Rustup a resolution picks agrees with where it says it came
/// from. Nothing is found exactly when the source is `unavailable`; Vapor's
/// own copy is the local Rustup path; a `PATH` hit is `rustup` in one of the
/// entries.
pub proof fn lemma_rustup_resolution_sources(local: Seq<char>, entries: Seq<Seq<char>>, present: Seq<bool>)
    requires
        present.len() == entries.len() + 1,
    ensures
        ({
            let (path, source) = rustup_resolution(rustup_candidate_paths(local, entries), present);
            &&& path is None <==> source == RustupSource::Unavailable
            &&& source == RustupSource::VaporLocal ==> path == Some(local)
            &&& source == RustupSource::PathLookup ==> exists|i: int|
                0 <= i < entries.len() && path == Some(
                    path_join(#[trigger] entries[i], executable_name("rustup"@)),
                )
        }),
{
    lemma_first_present_bounds(present);
    let candidates = rustup_candidate_paths(local, entries);
    match first_present(present) {
        Some(i) => {
            if i > 0 {
                assert(candidates[i] == path_join(entries[i - 1], executable_name("rustup"@)));
            } else {
                assert(candidates[0] == local);
            }
        },
        None => {},
    }
}

/// Assemble the toolchain status for `pin` on `host_triple` under the chosen
/// Vapor home, from what the caller probed: Rustup is resolved here from
/// the probe answers for its candidates.
pub fn toolchain_status(
    pin: ToolchainPin,
    host_triple: String,
    host_supported: bool,
    vapor_home_source: VaporHomeSource,
    vapor_home: String,
    probes: ToolchainProbes,
) -> (status: ToolchainStatus)
    requires
        probes.rustup_present.len() == probes.path_entries.len() + 1,
    ensures
        is_toolchain_status(status, pin, host_triple@, host_supported, vapor_home_source, vapor_home@, probes),
        status.rustup_path is None <==> status.rustup_source == RustupSource::Unavailable,
        status.rustup_source == RustupSource::VaporLocal ==> status.rustup_path.deep_view() == Some(
            status.local_rustup_path@,
        ),
        status.install_state == ToolchainInstallState::MissingRustup <==> status.rustup_path is None,
{
    let layout = toolchain_layout(vapor_home.as_str(), pin.identifier.as_str(), host_triple.as_str());
    let candidates = rustup_candidates(layout.local_rustup_path.as_str(), &probes.path_entries);
    assert(candidates.len() == candidates.deep_view().len());
    assert(probes.path_entries.len() == probes.path_entries.deep_view().len());
    let (rustup_path, rustup_source) = resolve_rustup(&candidates, &probes.rustup_present);
    proof {
        lemma_rustup_resolution_sources(
            layout.local_rustup_path@,
            probes.path_entries.deep_view(),
            probes.rustup_present@,
        );
    }
    let install_state = inspect_install_state(
        rustup_path.is_some(),
        probes.toolchain_root_exists,
        probes.cargo_exists,
        probes.rustc_exists,
    );
    let status = ToolchainStatus {
        toolchain: pin,
        host_triple,
        host_supported,
        vapor_home_source,
        vapor_home,
        local_rustup_path: layout.local_rustup_path,
        rustup_path,
        rustup_source,
        rustup_home: layout.rustup_home,
        cargo_home: layout.cargo_home,
        toolchain_root: layout.toolchain_root,
        bootstrap_root: layout.bootstrap_root,
        output_root: layout.output_root,
        cargo_path: layout.cargo_path,
        rustc_path: layout.rustc_path,
        install_state,
    };
    assert(status_layout_view(status) =~= layout_view(layout));
    status
}

/// Zero-mutation plan for installing the canonical Vapor Rust/Cargo toolchain.
#[derive(Debug, Clone, PartialEq, Eq)]
pub struct ToolchainInstallPlan {
    pub status: ToolchainStatus,
    pub rustup_path: String,
    pub rustup_args: Vec<String>,
    pub components: Vec<String>,
    pub targets: Vec<String>,
}

/// Error returned while planning the toolchain install.
#[derive(Debug, Clone, PartialEq, Eq)]
pub enum ToolchainPlanError {
    Status(ToolchainStatusError),
    UnsupportedHost(String),
    RustupUnavailable { expected: String },
}

/// The text of an unsupported-host error.
pub open spec fn unsupported_host_message(host: Seq<char>) -> Seq<char> {
    "host triple `"@ + host + "` is not supported by this Vapor toolchain pin"@
}

/// The text of a toolchain plan error.
pub open spec fn plan_error_message(error: ToolchainPlanError) -> Seq<char> {
    match error {
        ToolchainPlanError::Status(inner) => status_error_message(inner),
        ToolchainPlanError::UnsupportedHost(host) => unsupported_host_message(host@),
        ToolchainPlanError::RustupUnavailable { expected } => "Rustup is not available; install or place it at `"@
            + expected@ + "`"@,
    }
}

impl ToolchainPlanError {
    /// The text shown for this error.
    pub fn message(&self) -> (text: String)
        ensures
            text@ == plan_error_message(*self),
    {
        match self {
            ToolchainPlanError::Status(inner) => inner.message(),
            ToolchainPlanError::UnsupportedHost(host) => enclosed(
                "host triple `",
                host.as_str(),
                "` is not supported by this Vapor toolchain pin",
            ),
            ToolchainPlanError::RustupUnavailable { expected } => enclosed(
                "Rustup is not available; install or place it at `",
                expected.as_str(),
                "`",
            ),
        }
    }
}

/// `true` for the components Rustup always installs with a toolchain.
pub open spec fn is_core_component(component: ToolchainComponent) -> bool {
    component == ToolchainComponent::Rustc || component == ToolchainComponent::Cargo || component
        == ToolchainComponent::RustStd
}

/// The `--component` names Rustup must be asked for: the required
/// components that are not part of every toolchain, in order.
pub open spec fn rustup_component_names(required: Seq<ToolchainComponent>) -> Seq<Seq<char>>
    decreases required.len(),
{
    if required.len() == 0 {
        seq![]
    } else {
        let rest = rustup_component_names(required.drop_last());
        if is_core_component(required.last()) {
            rest
        } else {
            rest.push(component_name(required.last()))
        }
    }
}

/// The Rustup component names for the pin's required components.
pub fn rustup_components(required: &Vec<ToolchainComponent>) -> (names: Vec<String>)
    ensures
        names.deep_view() == rustup_component_names(required@),
{
    let mut names: Vec<String> = Vec::new();
    let mut i: usize = 0;
    while i < required.len()
        invariant
            i <= required.len(),
            names.deep_view() == rustup_component_names(required@.subrange(0, i as int)),
        decreases required.len() - i,
    {
        let component = required[i];
        let ghost prev = names.deep_view();
        match component {
            ToolchainComponent::Rustfmt | ToolchainComponent::Clippy | ToolchainComponent::RustSrc => {
                names.push(String::from_str(component.as_str()));
                assert(names.deep_view() =~= prev.push(component_name(component)));
            },
            ToolchainComponent::Rustc | ToolchainComponent::Cargo | ToolchainComponent::RustStd => {},
        }
        assert(required@.subrange(0, i + 1).drop_last() =~= required@.subrange(0, i as int));
        i = i + 1;
    }
    assert(required@.subrange(0, i as int) =~= required@);
    names
}

/// Law: Rustup is asked for every required component that a minimal
/// toolchain lacks, and for nothing else. Each required component other
/// than `rustc`, `cargo` and `rust-std` is named among the components, and
/// each name there is the distribution name of such a required component.
pub proof fn lemma_rustup_components_cover_required(required: Seq<ToolchainComponent>)
    ensures
        forall|c: ToolchainComponent|
            #![trigger required.contains(c)]
            required.contains(c) && c != ToolchainComponent::Rustc && c != ToolchainComponent::Cargo
                && c != ToolchainComponent::RustStd ==> rustup_component_names(required).contains(
                component_name(c),
            ),
        forall|n: Seq<char>|
            #![trigger rustup_component_names(required).contains(n)]
            rustup_component_names(required).contains(n) ==> exists|c: ToolchainComponent|
                #![trigger required.contains(c)]
                required.contains(c) && n == component_name(c) && c != ToolchainComponent::Rustc && c
                    != ToolchainComponent::Cargo && c != ToolchainComponent::RustStd,
    decreases required.len(),
{
    if required.len() > 0 {
        let rest = required.drop_last();
        lemma_rustup_components_cover_required(rest);
        let names = rustup_component_names(required);
        let rest_names = rustup_component_names(rest);
        assert(required =~= rest.push(required.last()));
        assert forall|c: ToolchainComponent|
            #![trigger required.contains(c)]
            required.contains(c) && c != ToolchainComponent::Rustc && c != ToolchainComponent::Cargo
                && c != ToolchainComponent::RustStd implies names.contains(component_name(c)) by {
            let i = choose|i: int| 0 <= i < required.len() && required[i] == c;
            if i < rest.len() {
                assert(rest[i] == c);
                assert(rest.contains(c));
                let j = choose|j: int| 0 <= j < rest_names.len() && rest_names[j] == component_name(c);
                assert(names[j] == component_name(c));
            } else {
                assert(names[names.len() - 1] == component_name(c));
            }
        }
        assert forall|n: Seq<char>|
            #![trigger names.contains(n)]
            names.contains(n) implies exists|c: ToolchainComponent|
                #![trigger required.contains(c)]
                required.contains(c) && n == component_name(c) && c != ToolchainComponent::Rustc && c
                    != ToolchainComponent::Cargo && c != ToolchainComponent::RustStd by {
            let j = choose|j: int| 0 <= j < names.len() && names[j] == n;
            if j < rest_names.len() {
                assert(rest_names[j] == n);
                assert(rest_names.contains(n));
                let c = choose|c: ToolchainComponent|
                    #![trigger rest.contains(c)]
                    rest.contains(c) && n == component_name(c) && c != ToolchainComponent::Rustc && c
                        != ToolchainComponent::Cargo && c != ToolchainComponent::RustStd;
                let i = choose|i: int| 0 <= i < rest.len() && rest[i] == c;
                assert(required[i] == c);
                assert(required.contains(c));
            } else {
                let c = required.last();
                assert(required[required.len() - 1] == c);
                assert(required.contains(c));
            }
        }
    }
}

/// Law: the Rustup command line asks for each required component that a
/// minimal toolchain lacks: `--component` followed by its distribution name
/// stands among the arguments.
pub proof fn lemma_install_args_request_components(
    identifier: Seq<char>,
    required: Seq<ToolchainComponent>,
    targets: Seq<Seq<char>>,
    c: ToolchainComponent,
)
    requires
        required.contains(c),
        c != ToolchainComponent::Rustc,
        c != ToolchainComponent::Cargo,
        c != ToolchainComponent::RustStd,
    ensures
        ({
            let args = install_args_view(identifier, rustup_component_names(required), targets);
            exists|k: int|
                0 <= k && k + 1 < args.len() && #[trigger] args[k] == "--component"@ && args[k + 1]
                    == component_name(c)
        }),
{
    lemma_rustup_components_cover_required(required);
    let names = rustup_component_names(required);
    let j = choose|j: int| 0 <= j < names.len() && names[j] == component_name(c);
    lemma_flag_pairs_at("--component"@, names, j);
    let args = install_args_view(identifier, names, targets);
    let head = seq!["toolchain"@, "install"@, identifier, "--profile"@, "minimal"@, "--no-self-update"@];
    let k = 6 + 2 * j;
    assert(args[k] == flag_pairs("--component"@, names)[2 * j]);
    assert(args[k + 1] == flag_pairs("--component"@, names)[2 * j + 1]);
}

/// Where `flag item` stands for the item at `j`.
proof fn lemma_flag_pairs_at(flag: Seq<char>, items: Seq<Seq<char>>, j: int)
    requires
        0 <= j < items.len(),
    ensures
        flag_pairs(flag, items).len() == 2 * items.len(),
        flag_pairs(flag, items)[2 * j] == flag,
        flag_pairs(flag, items)[2 * j + 1] == items[j],
    decreases items.len(),
{
    lemma_flag_pairs_len(flag, items.drop_last());
    if j < items.len() - 1 {
        lemma_flag_pairs_at(flag, items.drop_last(), j);
    }
}

proof fn lemma_flag_pairs_len(flag: Seq<char>, items: Seq<Seq<char>>)
    ensures
        flag_pairs(flag, items).len() == 2 * items.len(),
    decreases items.len(),
{
    if items.len() > 0 {
        lemma_flag_pairs_len(flag, items.drop_last());
    }
}

/// `flag item` for every item, in order.
pub open spec fn flag_pairs(flag: Seq<char>, items: Seq<Seq<char>>) -> Seq<Seq<char>>
    decreases items.len(),
{
    if items.len() == 0 {
        seq![]
    } else {
        flag_pairs(flag, items.drop_last()) + seq![flag, items.last()]
    }
}

/// The Rustup command line that installs the pin with its components and
/// target standard libraries.
pub open spec fn install_args_view(identifier: Seq<char>, components: Seq<Seq<char>>, targets: Seq<Seq<char>>) -> Seq<Seq<char>> {
    seq!["toolchain"@, "install"@, identifier, "--profile"@, "minimal"@, "--no-self-update"@]
        + flag_pairs("--component"@, components) + flag_pairs("--target"@, targets)
}

fn push_flag_pairs(args: &mut Vec<String>, flag: &str, items: &Vec<String>)
    ensures
        final(args).deep_view() == old(args).deep_view() + flag_pairs(flag@, items.deep_view()),
{
    let ghost start = args.deep_view();
    let mut i: usize = 0;
    while i < items.len()
        invariant
            i <= items.len(),
            args.deep_view() == start + flag_pairs(flag@, items.deep_view().subrange(0, i as int)),
        decreases items.len() - i,
    {
        let ghost prev = args.deep_view();
        args.push(String::from_str(flag));
        args.push(items[i].clone());
        proof {
            let done = items.deep_view().subrange(0, i + 1);
            assert(done.drop_last() =~= items.deep_view().subrange(0, i as int));
            assert(args.deep_view() =~= prev + seq![flag@, items.deep_view()[i as int]]);
        }
        i = i + 1;
    }
    assert(items.deep_view().subrange(0, i as int) =~= items.deep_view());
}

/// Build the Rustup install command line.
pub fn rustup_toolchain_install_args(identifier: &str, components: &Vec<String>, targets: &Vec<String>) -> (args: Vec<String>)
    ensures
        args.deep_view() == install_args_view(identifier@, components.deep_view(), targets.deep_view()),
{
    let mut args = vec![
        String::from_str("toolchain"),
        String::from_str("install"),
        String::from_str(identifier),
        String::from_str("--profile"),
        String::from_str("minimal"),
        String::from_str("--no-self-update"),
    ];
    assert(args.deep_view() =~= seq!["toolchain"@, "install"@, identifier@, "--profile"@, "minimal"@, "--no-self-update"@]);
    push_flag_pairs(&mut args, "--component", components);
    push_flag_pairs(&mut args, "--target", targets);
    args
}

/// Build the Rustup install plan from the toolchain status, without
/// mutating local state.
pub fn toolchain_install_plan(status: ToolchainStatus) -> (plan: Result<ToolchainInstallPlan, ToolchainPlanError>)
    ensures
        !status.host_supported ==> (plan matches Err(ToolchainPlanError::UnsupportedHost(host))
            && host@ == status.host_triple@),
        status.host_supported && status.rustup_path is None ==> (plan matches Err(
            ToolchainPlanError::RustupUnavailable { expected },
        ) && expected@ == status.local_rustup_path@),
        plan is Ok <==> status.host_supported && status.rustup_path is Some,
        plan matches Ok(p) ==> {
            &&& p.status == status
            &&& Some(p.rustup_path) == status.rustup_path
            &&& p.components.deep_view() == rustup_component_names(status.toolchain.required_components@)
            &&& p.targets.deep_view() == status.toolchain.supported_target_triples.deep_view()
            &&& p.rustup_args.deep_view() == install_args_view(
                status.toolchain.identifier@,
                p.components.deep_view(),
                p.targets.deep_view(),
            )
        },
{
    if !status.host_supported {
        return Err(ToolchainPlanError::UnsupportedHost(status.host_triple.clone()));
    }
    let rustup_path = match &status.rustup_path {
        None => return Err(ToolchainPlanError::RustupUnavailable { expected: status.local_rustup_path.clone() }),
        Some(path) => path.clone(),
    };
    let components = rustup_components(&status.toolchain.required_components);
    let targets = clone_strings(&status.toolchain.supported_target_triples);
    let rustup_args = rustup_toolchain_install_args(status.toolchain.identifier.as_str(), &components, &targets);
    Ok(ToolchainInstallPlan { status, rustup_path, rustup_args, components, targets })
}

/// Error returned while installing the canonical Vapor toolchain.
#[derive(Debug, Clone, PartialEq, Eq)]
pub enum ToolchainInstallError {
    Plan(ToolchainPlanError),
    /// A filesystem or process operation failed; the text explains why.
    Io(String),
    AlreadyInstalled(String),
    /// Rustup exited unsuccessfully.
    RustupFailed { rustup: String, status: ProcessExit },
    MissingInstalledToolchain(String),
    MissingToolchainBinary(String),
}

/// The text of a toolchain install error.
pub open spec fn install_error_message(error: ToolchainInstallError) -> Seq<char> {
    match error {
        ToolchainInstallError::Plan(inner) => plan_error_message(inner),
        ToolchainInstallError::Io(text) => "toolchain install I/O failed: "@ + text@,
        ToolchainInstallError::AlreadyInstalled(path) => "toolchain is already installed at `"@ + path@ + "`"@,
        ToolchainInstallError::RustupFailed { rustup, status } => "Rustup `"@ + rustup@ + "` failed with "@
            + status.description@,
        ToolchainInstallError::MissingInstalledToolchain(path) => "Rustup did not create expected toolchain root `"@
            + path@ + "`"@,
        ToolchainInstallError::MissingToolchainBinary(path) => "Rustup did not create expected toolchain binary `"@
            + path@ + "`"@,
    }
}

impl ToolchainInstallError {
    /// The text shown for this error.
    pub fn message(&self) -> (text: String)
        ensures
            text@ == install_error_message(*self),
    {
        match self {
            ToolchainInstallError::Plan(inner) => inner.message(),
            ToolchainInstallError::Io(text) => prefixed("toolchain install I/O failed: ", text.as_str()),
            ToolchainInstallError::AlreadyInstalled(path) => enclosed(
                "toolchain is already installed at `",
                path.as_str(),
                "`",
            ),
            ToolchainInstallError::RustupFailed { rustup, status } => {
                let mut text = enclosed("Rustup `", rustup.as_str(), "` failed with ");
                text.append(status.description.as_str());
                text
            },
            ToolchainInstallError::MissingInstalledToolchain(path) => enclosed(
                "Rustup did not create expected toolchain root `",
                path.as_str(),
                "`",
            ),
            ToolchainInstallError::MissingToolchainBinary(path) => enclosed(
                "Rustup did not create expected toolchain binary `",
                path.as_str(),
                "`",
            ),
        }
    }
}

/// An install never overwrites an existing toolchain root.
pub fn check_not_installed(plan: &ToolchainInstallPlan, root_exists: bool) -> (checked: Result<(), ToolchainInstallError>)
    ensures
        !root_exists ==> checked is Ok,
        root_exists ==> checked == Err::<(), ToolchainInstallError>(
            ToolchainInstallError::AlreadyInstalled(plan.status.toolchain_root),
        ),
{
    if root_exists {
        Err(ToolchainInstallError::AlreadyInstalled(plan.status.toolchain_root.clone()))
    } else {
        Ok(())
    }
}

/// The environment Rustup runs with during an install, in order: Vapor's
/// Rustup home, Vapor's Cargo home, and the pinned toolchain.
pub open spec fn install_env_view(plan: ToolchainInstallPlan) -> Seq<(Seq<char>, Seq<char>)> {
    seq![
        ("RUSTUP_HOME"@, plan.status.rustup_home@),
        ("CARGO_HOME"@, plan.status.cargo_home@),
        ("RUSTUP_TOOLCHAIN"@, plan.status.toolchain.identifier@),
    ]
}

/// The environment variables set for the Rustup install run.
pub fn rustup_install_env(plan: &ToolchainInstallPlan) -> (env: Vec<(String, String)>)
    ensures
        env@.map_values(|pair: (String, String)| (pair.0@, pair.1@)) == install_env_view(*plan),
{
    let env = vec![
        (String::from_str("RUSTUP_HOME"), plan.status.rustup_home.clone()),
        (String::from_str("CARGO_HOME"), plan.status.cargo_home.clone()),
        (String::from_str("RUSTUP_TOOLCHAIN"), plan.status.toolchain.identifier.clone()),
    ];
    assert(env@.map_values(|pair: (String, String)| (pair.0@, pair.1@)) =~= install_env_view(*plan));
    env
}

/// A failed Rustup run stops the install, naming Rustup and its exit code.
pub fn check_rustup_exit(plan: &ToolchainInstallPlan, exit: ProcessExit) -> (checked: Result<
    (),
    ToolchainInstallError,
>)
    ensures
        exit.success ==> checked is Ok,
        !exit.success ==> checked == Err::<(), ToolchainInstallError>(
            ToolchainInstallError::RustupFailed { rustup: plan.rustup_path, status: exit },
        ),
{
    if exit.success {
        Ok(())
    } else {
        Err(ToolchainInstallError::RustupFailed { rustup: plan.rustup_path.clone(), status: exit })
    }
}

/// The toolchain root Rustup was asked to create must be a directory.
pub fn verify_rustup_toolchain(toolchain_root: &str, is_dir: bool) -> (checked: Result<(), ToolchainInstallError>)
    ensures
        is_dir ==> checked is Ok,
        !is_dir ==> (checked matches Err(ToolchainInstallError::MissingInstalledToolchain(path))
            && path@ == toolchain_root@),
{
    if is_dir {
        Ok(())
    } else {
        Err(ToolchainInstallError::MissingInstalledToolchain(String::from_str(toolchain_root)))
    }
}

/// A toolchain binary Rustup was asked to install must be a file.
pub fn verify_rustup_toolchain_binary(path: &str, is_file: bool) -> (checked: Result<(), ToolchainInstallError>)
    ensures
        is_file ==> checked is Ok,
        !is_file ==> (checked matches Err(ToolchainInstallError::MissingToolchainBinary(p)) && p@
            == path@),
{
    if is_file {
        Ok(())
    } else {
        Err(ToolchainInstallError::MissingToolchainBinary(String::from_str(path)))
    }
}

/// After Rustup ran, the toolchain root must be a directory and `cargo` and
/// `rustc` must be files; the first that is missing is reported.
pub fn verify_installed_toolchain(
    plan: &ToolchainInstallPlan,
    root_is_dir: bool,
    cargo_is_file: bool,
    rustc_is_file: bool,
) -> (checked: Result<(), ToolchainInstallError>)
    ensures
        checked is Ok <==> root_is_dir && cargo_is_file && rustc_is_file,
        !root_is_dir ==> (checked matches Err(ToolchainInstallError::MissingInstalledToolchain(path))
            && path@ == plan.status.toolchain_root@),
        root_is_dir && !cargo_is_file ==> (checked matches Err(
            ToolchainInstallError::MissingToolchainBinary(path),
        ) && path@ == plan.status.cargo_path@),
        root_is_dir && cargo_is_file && !rustc_is_file ==> (checked matches Err(
            ToolchainInstallError::MissingToolchainBinary(path),
        ) && path@ == plan.status.rustc_path@),
{
    verify_rustup_toolchain(plan.status.toolchain_root.as_str(), root_is_dir)?;
    verify_rustup_toolchain_binary(plan.status.cargo_path.as_str(), cargo_is_file)?;
    verify_rustup_toolchain_binary(plan.status.rustc_path.as_str(), rustc_is_file)?;
    Ok(())
}

/// Result of installing the canonical Vapor toolchain.
#[derive(Debug, Clone, PartialEq, Eq)]
pub struct ToolchainInstallReport {
    pub plan: ToolchainInstallPlan,
    pub installed_root: String,
    pub exit_status: ProcessExit,
}

/// Report an install that ran `plan` and ended with `exit_status`: the
/// toolchain root of the plan is where the toolchain now lives.
pub fn toolchain_install_report(plan: ToolchainInstallPlan, exit_status: ProcessExit) -> (report: ToolchainInstallReport)
    ensures
        report.installed_root == plan.status.toolchain_root,
        report.plan == plan,
        report.exit_status == exit_status,
{
    let installed_root = plan.status.toolchain_root.clone();
    ToolchainInstallReport { plan, installed_root, exit_status }
}

} // verus!

//! SteamCMD tooling and authentication workflows.
//!
//! Vapor never accepts or stores Steam passwords. Login delegates to SteamCMD so
//! SteamCMD owns password prompts, Steam Guard, and its own persisted login
//! token/config behavior.
//!
//! The functions here decide what SteamCMD invocation to make: they validate
//! the request, resolve which executable to run from the candidates the caller
//! probed, and build the argument list. Running SteamCMD is the caller's job.

use vstd::prelude::*;

use crate::outcome::ProcessExit;
use crate::path::{join_path, names_location, path_join, path_names_location};
use crate::probe::{first_present, lemma_first_present_bounds};
use crate::root::ROOT_STEAM_APP_ID;
use crate::text::{enclosed, is_blank, prefixed, text_is_blank};
use crate::toolchain::{status_error_message, ToolchainStatusError};

verus! {

/// Directory under `VAPOR_HOME` reserved for Vapor's Steam state.
pub const STEAM_HOME_DIR: &'static str = "steam";

/// Directory under the Steam home holding SteamCMD's own state.
pub const STEAMCMD_STATE_DIR: &'static str = "steamcmd";

/// How Vapor relates to Steam credentials.
pub const AUTH_MODEL: &'static str = "SteamCMD owns password prompts, Steam Guard, and saved login tokens.";

/// SDK Steam workflows.
#[derive(Debug, Clone, PartialEq, Eq)]
pub enum SteamCommand {
    /// Inspect SteamCMD availability and Vapor Steam state paths.
    Status(SteamStatusRequest),
    /// Run SteamCMD login without Vapor seeing the password or Steam Guard code.
    Login(SteamLoginRequest),
}

/// Parameters for Steam status.
#[derive(Debug, Clone, PartialEq, Eq)]
pub struct SteamStatusRequest {
    /// SteamCMD executable path, or `steamcmd` to resolve through PATH.
    pub steamcmd: String,
}

/// Parameters for SteamCMD login.
#[derive(Debug, Clone, PartialEq, Eq)]
pub struct SteamLoginRequest {
    /// Steam account used by SteamCMD.
    pub account: String,
    /// SteamCMD executable path, or `steamcmd` to resolve through PATH.
    pub steamcmd: String,
}

/// Parameters for running one SteamPipe app build through SteamCMD.
#[derive(Debug, Clone, PartialEq, Eq)]
pub struct SteamRunAppBuildRequest {
    pub account: String,
    pub steamcmd: String,
    pub app_build_script: String,
}

/// How a SteamCMD path was resolved.
#[derive(Debug, Clone, Copy, PartialEq, Eq, Structural)]
pub enum SteamCmdSource {
    ExplicitPath,
    PathLookup,
    Unavailable,
}

/// The report word for a SteamCMD source.
pub open spec fn steamcmd_source_name(source: SteamCmdSource) -> Seq<char> {
    match source {
        SteamCmdSource::ExplicitPath => "explicit_path"@,
        SteamCmdSource::PathLookup => "path_lookup"@,
        SteamCmdSource::Unavailable => "unavailable"@,
    }
}

impl SteamCmdSource {
    /// The report word for this source.
    pub fn as_str(self) -> (name: &'static str)
        ensures
            name@ == steamcmd_source_name(self),
    {
        match self {
            SteamCmdSource::ExplicitPath => "explicit_path",
            SteamCmdSource::PathLookup => "path_lookup",
            SteamCmdSource::Unavailable => "unavailable",
        }
    }
}

/// Resolved SteamCMD and Vapor Steam state paths.
#[derive(Debug, Clone, PartialEq, Eq)]
pub struct SteamStatusReport {
    pub app_id: u32,
    pub vapor_home: String,
    pub steam_home: String,
    pub steamcmd_state_root: String,
    pub requested_steamcmd: String,
    pub resolved_steamcmd: Option<String>,
    pub steamcmd_source: SteamCmdSource,
    pub auth_model: &'static str,
}

/// A SteamCMD invocation that is ready to run.
#[derive(Debug, Clone, PartialEq, Eq)]
pub struct SteamInvocation {
    pub status: SteamStatusReport,
    /// The SteamCMD executable to run.
    pub steamcmd: String,
    pub steam_args: Vec<String>,
}

/// Report for SteamCMD login.
#[derive(Debug, Clone, PartialEq, Eq)]
pub struct SteamLoginReport {
    pub status: SteamStatusReport,
    pub account: String,
    pub steam_args: Vec<String>,
    pub exit_status: ProcessExit,
}

/// Report for SteamCMD app build upload.
#[derive(Debug, Clone, PartialEq, Eq)]
pub struct SteamRunAppBuildReport {
    pub status: SteamStatusReport,
    pub account: String,
    pub steam_args: Vec<String>,
    pub exit_status: ProcessExit,
}

/// Error returned by SteamCMD tooling workflows.
#[derive(Debug, Clone, PartialEq, Eq)]
pub enum SteamCommandError {
    ToolchainStatus(ToolchainStatusError),
    /// SteamCMD could not be run; the text explains why.
    SteamCmdIo(String),
    SteamCmdUnavailable(String),
    MissingAccount,
}

/// The text of a SteamCMD tooling error.
pub open spec fn steam_error_message(error: SteamCommandError) -> Seq<char> {
    match error {
        SteamCommandError::ToolchainStatus(inner) => status_error_message(inner),
        SteamCommandError::SteamCmdIo(text) => "failed to run SteamCMD: "@ + text@,
        SteamCommandError::SteamCmdUnavailable(path) => "SteamCMD is not available at `"@ + path@ + "`"@,
        SteamCommandError::MissingAccount => "Steam account must not be empty"@,
    }
}

impl SteamCommandError {
    /// The text shown for this error.
    pub fn message(&self) -> (text: String)
        ensures
            text@ == steam_error_message(*self),
    {
        match self {
            SteamCommandError::ToolchainStatus(inner) => inner.message(),
            SteamCommandError::SteamCmdIo(text) => prefixed("failed to run SteamCMD: ", text.as_str()),
            SteamCommandError::SteamCmdUnavailable(path) => enclosed(
                "SteamCMD is not available at `",
                path.as_str(),
                "`",
            ),
            SteamCommandError::MissingAccount => String::from_str("Steam account must not be empty"),
        }
    }
}

/// The executables that could be SteamCMD, in the order they are tried: the
/// requested path itself when it names a location, otherwise the requested
/// name under each `PATH` entry.
pub open spec fn steamcmd_candidate_paths(steamcmd: Seq<char>, path_entries: Seq<Seq<char>>) -> Seq<
    Seq<char>,
> {
    if names_location(steamcmd) {
        seq![steamcmd]
    } else {
        path_entries.map_values(|root: Seq<char>| path_join(root, steamcmd))
    }
}

/// List the executables that could be SteamCMD; the caller probes each one
/// with `is_file` and passes the answers to [`resolve_steamcmd`].
pub fn steamcmd_candidates(steamcmd: &str, path_entries: &Vec<String>) -> (candidates: Vec<String>)
    ensures
        candidates.deep_view() == steamcmd_candidate_paths(steamcmd@, path_entries.deep_view()),
{
    let mut candidates: Vec<String> = Vec::new();
    if path_names_location(steamcmd) {
        candidates.push(String::from_str(steamcmd));
        assert(candidates.deep_view() =~= seq![steamcmd@]);
        return candidates;
    }
    let mut i: usize = 0;
    while i < path_entries.len()
        invariant
            !names_location(steamcmd@),
            i <= path_entries.len(),
            candidates.deep_view() =~= path_entries.deep_view().subrange(0, i as int).map_values(
                |root: Seq<char>| path_join(root, steamcmd@),
            ),
        decreases path_entries.len() - i,
    {
        let ghost prev = candidates.deep_view();
        let candidate = join_path(path_entries[i].as_str(), steamcmd);
        candidates.push(candidate);
        proof {
            let entries = path_entries.deep_view();
            assert(candidates.deep_view() =~= prev.push(path_join(entries[i as int], steamcmd@)));
            assert(entries.subrange(0, i + 1) =~= entries.subrange(0, i as int).push(
                entries[i as int],
            ));
        }
        i = i + 1;
    }
    assert(path_entries.deep_view().subrange(0, i as int) =~= path_entries.deep_view());
    candidates
}

/// Which SteamCMD executable to run, given the probe answers for the
/// candidate list.
pub open spec fn steamcmd_resolution(
    steamcmd: Seq<char>,
    candidates: Seq<Seq<char>>,
    present: Seq<bool>,
) -> (Option<Seq<char>>, SteamCmdSource) {
    if names_location(steamcmd) {
        if present.len() > 0 && present[0] {
            (Some(steamcmd), SteamCmdSource::ExplicitPath)
        } else {
            (None, SteamCmdSource::Unavailable)
        }
    } else {
        match first_present(present) {
            Some(i) => (Some(candidates[i]), SteamCmdSource::PathLookup),
            None => (None, SteamCmdSource::Unavailable),
        }
    }
}

/// Resolve SteamCMD from the candidates of [`steamcmd_candidates`] and the
/// caller's `is_file` answer for each of them.
pub fn resolve_steamcmd(steamcmd: &str, candidates: &Vec<String>, present: &Vec<bool>) -> (resolved: (
    Option<String>,
    SteamCmdSource,
))
    requires
        candidates.len() == present.len(),
    ensures
        (resolved.0.deep_view(), resolved.1) == steamcmd_resolution(
            steamcmd@,
            candidates.deep_view(),
            present@,
        ),
{
    if path_names_location(steamcmd) {
        if present.len() > 0 && present[0] {
            return (Some(String::from_str(steamcmd)), SteamCmdSource::ExplicitPath);
        }
        return (None, SteamCmdSource::Unavailable);
    }
    proof {
        lemma_first_present_bounds(present@);
    }
    let mut i: usize = 0;
    while i < present.len()
        invariant
            !names_location(steamcmd@),
            candidates.len() == present.len(),
            i <= present.len(),
            forall|j: int| 0 <= j < i ==> !present@[j],
            first_present(present@) matches Some(k) ==> 0 <= k < present.len() && present@[k]
                && forall|j: int| 0 <= j < k ==> !present@[j],
            first_present(present@) is None ==> forall|j: int|
                0 <= j < present.len() ==> !present@[j],
        decreases present.len() - i,
    {
        if present[i] {
            let found = candidates[i].clone();
            assert(first_present(present@) == Some(i as int));
            assert(candidates.deep_view()[i as int] == found@);
            let result = (Some(found), SteamCmdSource::PathLookup);
            assert(result.0.deep_view() == Some(candidates.deep_view()[i as int]));
            assert(steamcmd_resolution(steamcmd@, candidates.deep_view(), present@) == (
                Some(candidates.deep_view()[i as int]),
                SteamCmdSource::PathLookup,
            ));
            return result;
        }
        i = i + 1;
    }
    assert(first_present(present@) is None);
    (None, SteamCmdSource::Unavailable)
}

/// What the caller found while looking for SteamCMD.
#[derive(Debug, Clone, PartialEq, Eq)]
pub struct SteamCmdProbes {
    /// The host's `PATH` entries.
    pub path_entries: Vec<String>,
    /// Whether each candidate of [`steamcmd_candidates`] for the requested
    /// SteamCMD and these entries is a file, in order.
    pub present: Vec<bool>,
}

/// The probes answer each candidate of the requested SteamCMD once.
pub open spec fn probes_fit(steamcmd: Seq<char>, probes: SteamCmdProbes) -> bool {
    probes.present.len() == steamcmd_candidate_paths(steamcmd, probes.path_entries.deep_view()).len()
}

/// The SteamCMD the probes resolve to, and where it came from.
pub open spec fn probed_steamcmd(steamcmd: Seq<char>, probes: SteamCmdProbes) -> (Option<Seq<char>>, SteamCmdSource) {
    steamcmd_resolution(
        steamcmd,
        steamcmd_candidate_paths(steamcmd, probes.path_entries.deep_view()),
        probes.present@,
    )
}

/// Law: the SteamCMD a resolution picks agrees with where it says it came
/// from. Nothing is found exactly when the source is `unavailable`; an
/// explicit path is the requested path itself; a `PATH` hit is the requested
/// name in one of the entries.
pub proof fn lemma_steamcmd_resolution_sources(steamcmd: Seq<char>, probes: SteamCmdProbes)
    requires
        probes_fit(steamcmd, probes),
    ensures
        ({
            let (path, source) = probed_steamcmd(steamcmd, probes);
            let entries = probes.path_entries.deep_view();
            &&& path is None <==> source == SteamCmdSource::Unavailable
            &&& source == SteamCmdSource::ExplicitPath ==> path == Some(steamcmd)
            &&& source == SteamCmdSource::PathLookup ==> exists|i: int|
                0 <= i < entries.len() && path == Some(path_join(#[trigger] entries[i], steamcmd))
        }),
{
    lemma_first_present_bounds(probes.present@);
    let entries = probes.path_entries.deep_view();
    if !names_location(steamcmd) {
        match first_present(probes.present@) {
            Some(i) => {
                assert(steamcmd_candidate_paths(steamcmd, entries)[i] == path_join(entries[i], steamcmd));
            },
            None => {},
        }
    }
}

/// Resolve the requested SteamCMD from the caller's probes.
pub fn locate_steamcmd(steamcmd: &str, probes: &SteamCmdProbes) -> (found: (Option<String>, SteamCmdSource))
    requires
        probes_fit(steamcmd@, *probes),
    ensures
        (found.0.deep_view(), found.1) == probed_steamcmd(steamcmd@, *probes),
        found.0 is None <==> found.1 == SteamCmdSource::Unavailable,
        found.1 == SteamCmdSource::ExplicitPath ==> found.0.deep_view() == Some(steamcmd@),
{
    let candidates = steamcmd_candidates(steamcmd, &probes.path_entries);
    assert(candidates.len() == candidates.deep_view().len());
    proof {
        lemma_steamcmd_resolution_sources(steamcmd@, *probes);
    }
    resolve_steamcmd(steamcmd, &candidates, &probes.present)
}

/// The Steam home under a Vapor home.
pub open spec fn steam_home_path(vapor_home: Seq<char>) -> Seq<char> {
    path_join(vapor_home, STEAM_HOME_DIR@)
}

/// The status report for a requested SteamCMD and its resolution.
pub open spec fn steam_status_view(
    steamcmd: Seq<char>,
    vapor_home: Seq<char>,
    resolved: Option<Seq<char>>,
    source: SteamCmdSource,
) -> (u32, Seq<char>, Seq<char>, Seq<char>, Seq<char>, Option<Seq<char>>, SteamCmdSource, Seq<char>) {
    (
        ROOT_STEAM_APP_ID,
        vapor_home,
        steam_home_path(vapor_home),
        path_join(steam_home_path(vapor_home), STEAMCMD_STATE_DIR@),
        steamcmd,
        resolved,
        source,
        AUTH_MODEL@,
    )
}

/// The observable content of a status report.
pub open spec fn status_report_view(report: SteamStatusReport) -> (
    u32,
    Seq<char>,
    Seq<char>,
    Seq<char>,
    Seq<char>,
    Option<Seq<char>>,
    SteamCmdSource,
    Seq<char>,
) {
    (
        report.app_id,
        report.vapor_home@,
        report.steam_home@,
        report.steamcmd_state_root@,
        report.requested_steamcmd@,
        report.resolved_steamcmd.deep_view(),
        report.steamcmd_source,
        report.auth_model@,
    )
}

/// Build the Steam status report under `vapor_home`, resolving the
/// requested SteamCMD from the caller's probes.
pub fn steam_status_for(steamcmd: &str, vapor_home: &str, probes: &SteamCmdProbes) -> (report:
    SteamStatusReport)
    requires
        probes_fit(steamcmd@, *probes),
    ensures
        status_report_view(report) == steam_status_view(
            steamcmd@,
            vapor_home@,
            probed_steamcmd(steamcmd@, *probes).0,
            probed_steamcmd(steamcmd@, *probes).1,
        ),
        report.resolved_steamcmd is None <==> report.steamcmd_source == SteamCmdSource::Unavailable,
        report.steamcmd_source == SteamCmdSource::ExplicitPath ==> report.resolved_steamcmd.deep_view()
            == Some(steamcmd@),
{
    let (resolved, source) = locate_steamcmd(steamcmd, probes);
    let steam_home = join_path(vapor_home, STEAM_HOME_DIR);
    let steamcmd_state_root = join_path(steam_home.as_str(), STEAMCMD_STATE_DIR);
    SteamStatusReport {
        app_id: ROOT_STEAM_APP_ID,
        vapor_home: String::from_str(vapor_home),
        steam_home,
        steamcmd_state_root,
        requested_steamcmd: String::from_str(steamcmd),
        resolved_steamcmd: resolved,
        steamcmd_source: source,
        auth_model: AUTH_MODEL,
    }
}

/// Inspect SteamCMD availability and Vapor's Steam state root, given the
/// Vapor home and the probes for the requested SteamCMD.
pub fn steam_status(request: &SteamStatusRequest, vapor_home: &str, probes: &SteamCmdProbes) -> (report:
    SteamStatusReport)
    requires
        probes_fit(request.steamcmd@, *probes),
    ensures
        status_report_view(report) == steam_status_view(
            request.steamcmd@,
            vapor_home@,
            probed_steamcmd(request.steamcmd@, *probes).0,
            probed_steamcmd(request.steamcmd@, *probes).1,
        ),
{
    steam_status_for(request.steamcmd.as_str(), vapor_home, probes)
}

/// Reject a missing Steam account: one that is empty or only whitespace.
pub fn validate_account(account: &str) -> (result: Result<(), SteamCommandError>)
    ensures
        result is Ok <==> !is_blank(account@),
        result is Err ==> result == Err::<(), SteamCommandError>(SteamCommandError::MissingAccount),
{
    if text_is_blank(account) {
        return Err(SteamCommandError::MissingAccount);
    }
    Ok(())
}

/// The SteamCMD arguments for logging in.
pub open spec fn login_args_view(account: Seq<char>) -> Seq<Seq<char>> {
    seq!["+login"@, account, "+quit"@]
}

/// The SteamCMD arguments for uploading one SteamPipe app build.
pub open spec fn run_app_build_args_view(account: Seq<char>, app_build_script: Seq<char>) -> Seq<
    Seq<char>,
> {
    seq!["+login"@, account, "+run_app_build"@, app_build_script, "+quit"@]
}

/// Build the SteamCMD login command line.
pub fn login_args(account: &str) -> (args: Vec<String>)
    ensures
        args.deep_view() == login_args_view(account@),
{
    let args = vec![String::from_str("+login"), String::from_str(account), String::from_str("+quit")];
    assert(args.deep_view() =~= login_args_view(account@));
    args
}

/// Build the SteamCMD command line for one SteamPipe app build.
pub fn run_app_build_args(account: &str, app_build_script: &str) -> (args: Vec<String>)
    ensures
        args.deep_view() == run_app_build_args_view(account@, app_build_script@),
{
    let args = vec![
        String::from_str("+login"),
        String::from_str(account),
        String::from_str("+run_app_build"),
        String::from_str(app_build_script),
        String::from_str("+quit"),
    ];
    assert(args.deep_view() =~= run_app_build_args_view(account@, app_build_script@));
    args
}

/// Build the SteamCMD command line for an app build without executing it.
pub fn steam_run_app_build_plan(
    request: &SteamRunAppBuildRequest,
    vapor_home: &str,
    probes: &SteamCmdProbes,
) -> (plan: Result<(SteamStatusReport, Vec<String>), SteamCommandError>)
    requires
        probes_fit(request.steamcmd@, *probes),
    ensures
        plan is Err <==> is_blank(request.account@),
        plan is Err ==> plan == Err::<(SteamStatusReport, Vec<String>), SteamCommandError>(
            SteamCommandError::MissingAccount,
        ),
        plan matches Ok((status, args)) ==> status_report_view(status) == steam_status_view(
            request.steamcmd@,
            vapor_home@,
            probed_steamcmd(request.steamcmd@, *probes).0,
            probed_steamcmd(request.steamcmd@, *probes).1,
        ) && args.deep_view() == run_app_build_args_view(
            request.account@,
            request.app_build_script@,
        ),
{
    match validate_account(request.account.as_str()) {
        Err(error) => Err(error),
        Ok(()) => {
            let status = steam_status_for(request.steamcmd.as_str(), vapor_home, probes);
            let args = run_app_build_args(
                request.account.as_str(),
                request.app_build_script.as_str(),
            );
            Ok((status, args))
        },
    }
}

/// The invocation that runs SteamCMD with `args`, once the account is valid
/// and SteamCMD was found.
pub open spec fn invocation_ok(
    invocation: SteamInvocation,
    steamcmd: Seq<char>,
    vapor_home: Seq<char>,
    resolved: Option<Seq<char>>,
    source: SteamCmdSource,
    args: Seq<Seq<char>>,
) -> bool {
    &&& status_report_view(invocation.status) == steam_status_view(
        steamcmd,
        vapor_home,
        resolved,
        source,
    )
    &&& resolved == Some(invocation.steamcmd@)
    &&& invocation.steam_args.deep_view() == args
}

/// Decide the SteamCMD login invocation: the account must not be blank and
/// SteamCMD must have been found.
pub fn steam_login_plan(
    request: &SteamLoginRequest,
    vapor_home: &str,
    probes: &SteamCmdProbes,
) -> (plan: Result<SteamInvocation, SteamCommandError>)
    requires
        probes_fit(request.steamcmd@, *probes),
    ensures
        is_blank(request.account@) ==> plan == Err::<SteamInvocation, SteamCommandError>(
            SteamCommandError::MissingAccount,
        ),
        !is_blank(request.account@) && probed_steamcmd(request.steamcmd@, *probes).0 is None ==> plan == Err::<
            SteamInvocation,
            SteamCommandError,
        >(SteamCommandError::SteamCmdUnavailable(request.steamcmd)),
        plan matches Ok(invocation) ==> invocation_ok(
            invocation,
            request.steamcmd@,
            vapor_home@,
            probed_steamcmd(request.steamcmd@, *probes).0,
            probed_steamcmd(request.steamcmd@, *probes).1,
            login_args_view(request.account@),
        ),
        plan is Ok <==> !is_blank(request.account@) && probed_steamcmd(request.steamcmd@, *probes).0 is Some,
{
    match validate_account(request.account.as_str()) {
        Err(error) => Err(error),
        Ok(()) => {
            let status = steam_status_for(request.steamcmd.as_str(), vapor_home, probes);
            match &status.resolved_steamcmd {
                None => Err(SteamCommandError::SteamCmdUnavailable(request.steamcmd.clone())),
                Some(path) => {
                    let steamcmd = path.clone();
                    let steam_args = login_args(request.account.as_str());
                    Ok(SteamInvocation { status, steamcmd, steam_args })
                },
            }
        },
    }
}

/// Decide the SteamCMD app build invocation: the account must not be blank
/// and SteamCMD must have been found.
pub fn steam_run_app_build_invocation(
    request: &SteamRunAppBuildRequest,
    vapor_home: &str,
    probes: &SteamCmdProbes,
) -> (plan: Result<SteamInvocation, SteamCommandError>)
    requires
        probes_fit(request.steamcmd@, *probes),
    ensures
        is_blank(request.account@) ==> plan == Err::<SteamInvocation, SteamCommandError>(
            SteamCommandError::MissingAccount,
        ),
        !is_blank(request.account@) && probed_steamcmd(request.steamcmd@, *probes).0 is None ==> plan == Err::<
            SteamInvocation,
            SteamCommandError,
        >(SteamCommandError::SteamCmdUnavailable(request.steamcmd)),
        plan matches Ok(invocation) ==> invocation_ok(
            invocation,
            request.steamcmd@,
            vapor_home@,
            probed_steamcmd(request.steamcmd@, *probes).0,
            probed_steamcmd(request.steamcmd@, *probes).1,
            run_app_build_args_view(request.account@, request.app_build_script@),
        ),
        plan is Ok <==> !is_blank(request.account@) && probed_steamcmd(request.steamcmd@, *probes).0 is Some,
{
    match validate_account(request.account.as_str()) {
        Err(error) => Err(error),
        Ok(()) => {
            let status = steam_status_for(request.steamcmd.as_str(), vapor_home, probes);
            match &status.resolved_steamcmd {
                None => Err(SteamCommandError::SteamCmdUnavailable(request.steamcmd.clone())),
                Some(path) => {
                    let steamcmd = path.clone();
                    let steam_args = run_app_build_args(
                        request.account.as_str(),
                        request.app_build_script.as_str(),
                    );
                    Ok(SteamInvocation { status, steamcmd, steam_args })
                },
            }
        },
    }
}

/// Report a SteamCMD login that ran `invocation` and ended with `exit_status`.
pub fn steam_login_report(request: &SteamLoginRequest, invocation: SteamInvocation, exit_status: ProcessExit) -> (report:
    SteamLoginReport)
    ensures
        report.status == invocation.status,
        report.account == request.account,
        report.steam_args == invocation.steam_args,
        report.exit_status == exit_status,
{
    SteamLoginReport {
        status: invocation.status,
        account: request.account.clone(),
        steam_args: invocation.steam_args,
        exit_status,
    }
}

/// Report a SteamCMD app build that ran `invocation` and ended with
/// `exit_status`.
pub fn steam_run_app_build_report(
    request: &SteamRunAppBuildRequest,
    invocation: SteamInvocation,
    exit_status: ProcessExit,
) -> (report: SteamRunAppBuildReport)
    ensures
        report.status == invocation.status,
        report.account == request.account,
        report.steam_args == invocation.steam_args,
        report.exit_status == exit_status,
{
    SteamRunAppBuildReport {
        status: invocation.status,
        account: request.account.clone(),
        steam_args: invocation.steam_args,
        exit_status,
    }
}

} // verus!

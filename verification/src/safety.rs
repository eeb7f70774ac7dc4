//! Guardrails for the global execution flags.
//!
//! Every command has a [`SafetyPolicy`] saying which risk-bearing flags it
//! understands and whether it must be confirmed before it runs. [`guard`]
//! rejects flags a command does not support and decides whether the user has
//! to be asked; the caller performs the prompt and hands the answer to
//! [`confirmation_outcome`].

use vstd::prelude::*;

use crate::commands::{
    LeafCommand, PackCommand, PackagepackCommand, SdkCommand, SourceAuthoringCommand,
};
use crate::options::GlobalOptions;
use crate::repair::RepairCommand;
use crate::root::RootCommand;
use crate::spec::{command_spec, CommandSpec, StateSurface};
use crate::toolchain::ToolchainCommand;
use crate::workspace::WorkspaceCommand;

verus! {

/// Which global flags a command honours, and whether it must be confirmed.
#[derive(Debug, Clone, Copy, PartialEq, Eq, Structural)]
pub struct SafetyPolicy {
    pub force: bool,
    pub strict: bool,
    pub keep_unused_versions: bool,
    pub confirm: bool,
}

/// The policy that honours no flag and needs no confirmation.
pub open spec fn no_policy() -> SafetyPolicy {
    SafetyPolicy { force: false, strict: false, keep_unused_versions: false, confirm: false }
}

/// `true` for the commands that publish content or a release.
pub open spec fn is_content_publish(command: SdkCommand) -> bool {
    match command {
        SdkCommand::Packagepack(PackagepackCommand::Author(SourceAuthoringCommand::Publish { .. })) => true,
        SdkCommand::Pack { command: PackCommand::Author(SourceAuthoringCommand::Publish { .. }), .. } => true,
        SdkCommand::Leaf { command: LeafCommand::Author(SourceAuthoringCommand::Publish { .. }), .. } => true,
        _ => false,
    }
}

/// `true` for the pack composition mutations.
pub open spec fn is_composition(command: SdkCommand) -> bool {
    match command {
        SdkCommand::Packagepack(PackagepackCommand::Compose(_)) => true,
        SdkCommand::Pack { command: PackCommand::Compose(_), .. } => true,
        _ => false,
    }
}

/// The safety policy of each command.
pub open spec fn policy_for(command: SdkCommand) -> SafetyPolicy {
    match command {
        SdkCommand::Repair(RepairCommand::Apply { .. }) => SafetyPolicy {
            force: true,
            strict: false,
            keep_unused_versions: true,
            confirm: true,
        },
        SdkCommand::Toolchain(ToolchainCommand::Install) | SdkCommand::Toolchain(
            ToolchainCommand::Repair,
        ) | SdkCommand::Workspace(WorkspaceCommand::Deploy) => SafetyPolicy {
            force: false,
            strict: false,
            keep_unused_versions: false,
            confirm: true,
        },
        SdkCommand::Root(RootCommand::Publish(request)) => SafetyPolicy {
            force: false,
            strict: false,
            keep_unused_versions: false,
            confirm: !request.plan,
        },
        _ => if is_composition(command) {
            SafetyPolicy { force: true, strict: true, keep_unused_versions: false, confirm: false }
        } else if is_content_publish(command) {
            SafetyPolicy { force: false, strict: false, keep_unused_versions: false, confirm: true }
        } else {
            no_policy()
        },
    }
}

impl SafetyPolicy {
    /// The policy of `command`.
    pub fn for_command(command: &SdkCommand) -> (policy: SafetyPolicy)
        ensures
            policy == policy_for(*command),
    {
        match command {
            SdkCommand::Repair(RepairCommand::Apply { .. }) => SafetyPolicy {
                force: true,
                strict: false,
                keep_unused_versions: true,
                confirm: true,
            },
            SdkCommand::Toolchain(ToolchainCommand::Install)
            | SdkCommand::Toolchain(ToolchainCommand::Repair)
            | SdkCommand::Workspace(WorkspaceCommand::Deploy) => SafetyPolicy {
                force: false,
                strict: false,
                keep_unused_versions: false,
                confirm: true,
            },
            SdkCommand::Root(RootCommand::Publish(request)) => SafetyPolicy {
                force: false,
                strict: false,
                keep_unused_versions: false,
                confirm: !request.plan,
            },
            SdkCommand::Packagepack(PackagepackCommand::Compose(_))
            | SdkCommand::Pack { command: PackCommand::Compose(_), .. } => SafetyPolicy {
                force: true,
                strict: true,
                keep_unused_versions: false,
                confirm: false,
            },
            SdkCommand::Packagepack(
                PackagepackCommand::Author(SourceAuthoringCommand::Publish { .. }),
            )
            | SdkCommand::Pack {
                command: PackCommand::Author(SourceAuthoringCommand::Publish { .. }),
                ..
            }
            | SdkCommand::Leaf {
                command: LeafCommand::Author(SourceAuthoringCommand::Publish { .. }),
                ..
            } => SafetyPolicy {
                force: false,
                strict: false,
                keep_unused_versions: false,
                confirm: true,
            },
            _ => Self::none(),
        }
    }

    /// The policy that honours no flag and needs no confirmation.
    pub fn none() -> (policy: SafetyPolicy)
        ensures
            policy == no_policy(),
    {
        SafetyPolicy { force: false, strict: false, keep_unused_versions: false, confirm: false }
    }
}

/// Why a command was stopped before it ran.
#[derive(Debug, Clone, PartialEq, Eq)]
pub enum SafetyError {
    UnsupportedFlag { flag: &'static str, action: String, reason: &'static str },
    Aborted { action: String },
    PromptUnavailable { action: String },
}

impl SafetyError {
    /// The user-facing explanation of this error.
    pub fn message(&self) -> (text: String)
        ensures
            text@ == safety_error_message(*self),
    {
        match self {
            SafetyError::UnsupportedFlag { flag, action, reason } => {
                let mut text = String::from_str(flag);
                text.append(" is not valid for `");
                text.append(action.as_str());
                text.append("`: ");
                text.append(reason);
                text
            },
            SafetyError::Aborted { action } => {
                let mut text = String::from_str("aborted `");
                text.append(action.as_str());
                text.append("`");
                text
            },
            SafetyError::PromptUnavailable { action } => {
                let mut text = String::from_str("cannot prompt for `");
                text.append(action.as_str());
                text.append(
                    "` in this terminal; rerun with --yes only if you intend to accept the prompt automatically",
                );
                text
            },
        }
    }
}

/// The user-facing explanation of a safety error.
pub open spec fn safety_error_message(error: SafetyError) -> Seq<char> {
    match error {
        SafetyError::UnsupportedFlag { flag, action, reason } => flag@ + " is not valid for `"@
            + action@ + "`: "@ + reason@,
        SafetyError::Aborted { action } => "aborted `"@ + action@ + "`"@,
        SafetyError::PromptUnavailable { action } => "cannot prompt for `"@ + action@
            + "` in this terminal; rerun with --yes only if you intend to accept the prompt automatically"@,
    }
}

/// What must happen before an accepted command runs.
#[derive(Debug, Clone, Copy, PartialEq, Eq, Structural)]
pub enum GuardDecision {
    /// Run the command right away.
    Proceed,
    /// Ask the user first; `force` says the question is about `--force`.
    Confirm { force: bool },
}

/// The flag rejection for `globals` under `policy`, if any, in the order
/// `--force`, `--strict`, `--keep-unused-versions`.
pub open spec fn rejected_flag(globals: GlobalOptions, policy: SafetyPolicy) -> Option<(Seq<char>, Seq<char>)> {
    if globals.force && !policy.force {
        Some(("--force"@, "this command has no defined force behavior"@))
    } else if globals.strict && !policy.strict {
        Some(("--strict"@, "this command does not perform validity-tolerant authoring mutation"@))
    } else if globals.keep_unused_versions && !policy.keep_unused_versions {
        Some(("--keep-unused-versions"@, "this command does not prune installed versions"@))
    } else {
        None
    }
}

/// The decision for an accepted command.
pub open spec fn guard_decision(globals: GlobalOptions, policy: SafetyPolicy) -> GuardDecision {
    if (globals.force || policy.confirm) && !globals.yes {
        GuardDecision::Confirm { force: globals.force }
    } else {
        GuardDecision::Proceed
    }
}

/// Check the global flags against `command`'s policy and decide whether the
/// user must confirm before it runs.
pub fn guard(globals: &GlobalOptions, command: &SdkCommand, spec: &CommandSpec) -> (decision:
    Result<GuardDecision, SafetyError>)
    ensures
        ({
            let policy = policy_for(*command);
            match rejected_flag(*globals, policy) {
                Some((flag, reason)) => decision matches Err(SafetyError::UnsupportedFlag {
                    flag: f,
                    action: a,
                    reason: r,
                }) && f@ == flag && a@ == spec.action@ && r@ == reason,
                None => decision == Ok::<GuardDecision, SafetyError>(guard_decision(*globals, policy)),
            }
        }),
{
    let policy = SafetyPolicy::for_command(command);
    if globals.force && !policy.force {
        return Err(
            SafetyError::UnsupportedFlag {
                flag: "--force",
                action: spec.action.clone(),
                reason: "this command has no defined force behavior",
            },
        );
    }
    if globals.strict && !policy.strict {
        return Err(
            SafetyError::UnsupportedFlag {
                flag: "--strict",
                action: spec.action.clone(),
                reason: "this command does not perform validity-tolerant authoring mutation",
            },
        );
    }
    if globals.keep_unused_versions && !policy.keep_unused_versions {
        return Err(
            SafetyError::UnsupportedFlag {
                flag: "--keep-unused-versions",
                action: spec.action.clone(),
                reason: "this command does not prune installed versions",
            },
        );
    }
    if (globals.force || policy.confirm) && !globals.yes {
        Ok(GuardDecision::Confirm { force: globals.force })
    } else {
        Ok(GuardDecision::Proceed)
    }
}

/// The question asked when a command needs confirmation.
pub fn confirmation_prompt(force: bool) -> (prompt: &'static str)
    ensures
        prompt@ == (if force { "Proceed with --force?"@ } else { "Proceed?"@ }),
{
    if force {
        "Proceed with --force?"
    } else {
        "Proceed?"
    }
}

/// The answer a confirmation prompt assumes when the user just presses
/// enter: the command does not run.
pub const CONFIRMS_BY_DEFAULT: bool = false;

/// Turn the user's answer into the command's fate: `None` means no answer
/// could be obtained from the terminal.
pub fn confirmation_outcome(action: &String, answer: Option<bool>) -> (outcome: Result<(), SafetyError>)
    ensures
        answer == Some(true) ==> outcome is Ok,
        answer == Some(false) ==> outcome == Err::<(), SafetyError>(SafetyError::Aborted { action: *action }),
        answer is None ==> outcome == Err::<(), SafetyError>(SafetyError::PromptUnavailable { action: *action }),
{
    match answer {
        Some(true) => Ok(()),
        Some(false) => Err(SafetyError::Aborted { action: action.clone() }),
        None => Err(SafetyError::PromptUnavailable { action: action.clone() }),
    }
}

/// With `--yes`, a command that passes the flag checks never stops to ask.
pub proof fn lemma_yes_never_prompts(globals: GlobalOptions, command: SdkCommand)
    requires
        globals.yes,
    ensures
        guard_decision(globals, policy_for(command)) == GuardDecision::Proceed,
{
}

/// Without `--force`, `--strict`, or `--keep-unused-versions`, no command is
/// rejected for its flags.
pub proof fn lemma_plain_invocations_pass_flag_checks(globals: GlobalOptions, command: SdkCommand)
    requires
        !globals.force,
        !globals.strict,
        !globals.keep_unused_versions,
    ensures
        rejected_flag(globals, policy_for(command)) is None,
{
}

/// Read-only commands honour no risk-bearing flag and never ask for
/// confirmation.
pub proof fn lemma_read_only_commands_never_prompt(command: SdkCommand)
    requires
        command_spec(command).surface == StateSurface::ReadOnly,
    ensures
        policy_for(command) == no_policy(),
{
}

/// Publishing authored content always asks for confirmation unless `--yes`
/// was given.
pub proof fn lemma_publication_is_confirmed(globals: GlobalOptions, command: SdkCommand)
    requires
        command_spec(command).surface == StateSurface::Publication,
        !globals.yes,
        rejected_flag(globals, policy_for(command)) is None,
    ensures
        guard_decision(globals, policy_for(command)) is Confirm,
{
}

/// Planning a root publish never prompts, while a real publish asks unless
/// `--yes` was given.
pub proof fn lemma_root_publish_confirms_only_real_uploads(
    globals: GlobalOptions,
    request: crate::root::RootPublishRequest,
)
    requires
        !globals.force,
    ensures
        (guard_decision(globals, policy_for(SdkCommand::Root(RootCommand::Publish(request))))
            is Confirm) == (!request.plan && !globals.yes),
{
}

/// `true` for the commands that replace installed state: installing or
/// repairing the toolchain, whose state surface is the toolchain, and
/// deploying a tool CLI over the one already in place.
pub open spec fn replaces_installed_state(command: SdkCommand) -> bool {
    command_spec(command).surface == StateSurface::Toolchain || command == SdkCommand::Workspace(
        WorkspaceCommand::Deploy,
    )
}

/// Law: a command that replaces installed state never runs unasked. Unless
/// `--yes` was given, a toolchain install or repair and a deploy, once
/// their flags are accepted, wait for the user's confirmation.
pub proof fn lemma_replacing_installed_state_is_confirmed(globals: GlobalOptions, command: SdkCommand)
    requires
        replaces_installed_state(command),
        !globals.yes,
        rejected_flag(globals, policy_for(command)) is None,
    ensures
        policy_for(command).confirm,
        guard_decision(globals, policy_for(command)) == (GuardDecision::Confirm { force: globals.force }),
{
}

} // verus!

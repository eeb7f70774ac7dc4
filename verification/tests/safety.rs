use vapor_sdk_core::root::{RootCommand, RootPublishRequest};
use vapor_sdk_core::safety::{
    confirmation_outcome, confirmation_prompt, guard, GuardDecision, SafetyError, SafetyPolicy,
};
use vapor_sdk_core::toolchain::ToolchainCommand;
use vapor_sdk_core::{
    describe_command, ContentType, GlobalOptions, LeafCommand, PackCommand, PackCompositionCommand,
    ChildContentRef, SdkCommand, SourceAuthoringCommand,
};

fn options(yes: bool, force: bool, strict: bool, keep: bool) -> GlobalOptions {
    GlobalOptions { workspace: None, verbose: false, yes, force, strict, keep_unused_versions: keep }
}

fn decide(globals: &GlobalOptions, command: &SdkCommand) -> Result<GuardDecision, SafetyError> {
    let spec = describe_command(command);
    guard(globals, command, &spec)
}

fn root_publish(plan: bool) -> SdkCommand {
    SdkCommand::Root(RootCommand::Publish(RootPublishRequest {
        plan,
        app_id: 1,
        depot_id: 2,
        description: "d".to_owned(),
        account: "a".to_owned(),
        steamcmd: "steamcmd".to_owned(),
        set_live: None,
    }))
}

#[test]
fn read_only_commands_proceed() {
    assert_eq!(decide(&GlobalOptions::default(), &SdkCommand::Status), Ok(GuardDecision::Proceed));
    assert_eq!(SafetyPolicy::for_command(&SdkCommand::Version), SafetyPolicy::none());
}

#[test]
fn toolchain_install_asks_unless_yes() {
    let command = SdkCommand::Toolchain(ToolchainCommand::Install);
    assert_eq!(
        decide(&options(false, false, false, false), &command),
        Ok(GuardDecision::Confirm { force: false })
    );
    assert_eq!(decide(&options(true, false, false, false), &command), Ok(GuardDecision::Proceed));
}

#[test]
fn force_is_rejected_where_undefined() {
    let command = SdkCommand::Toolchain(ToolchainCommand::Install);
    let error = decide(&options(false, true, false, false), &command).unwrap_err();
    assert_eq!(
        error,
        SafetyError::UnsupportedFlag {
            flag: "--force",
            action: "sdk toolchain install".to_owned(),
            reason: "this command has no defined force behavior",
        }
    );
    assert_eq!(
        error.message(),
        "--force is not valid for `sdk toolchain install`: this command has no defined force behavior"
    );
}

#[test]
fn strict_and_keep_are_rejected_on_plain_commands() {
    let strict = decide(&options(false, false, true, false), &SdkCommand::Status).unwrap_err();
    assert!(matches!(strict, SafetyError::UnsupportedFlag { flag: "--strict", .. }));
    let keep = decide(&options(false, false, false, true), &SdkCommand::Status).unwrap_err();
    assert!(matches!(keep, SafetyError::UnsupportedFlag { flag: "--keep-unused-versions", .. }));
}

#[test]
fn composition_accepts_force_and_strict() {
    let child = ChildContentRef { content_type: ContentType::Engine, content_id: "e".to_owned() };
    let command = SdkCommand::Pack {
        pack_type: ContentType::Enginepack,
        command: PackCommand::Compose(PackCompositionCommand::Remove { pack_id: "p".to_owned(), child }),
    };
    assert_eq!(decide(&options(false, false, true, false), &command), Ok(GuardDecision::Proceed));
    assert_eq!(
        decide(&options(false, true, true, false), &command),
        Ok(GuardDecision::Confirm { force: true })
    );
}

#[test]
fn content_publish_is_confirmed() {
    let command = SdkCommand::Leaf {
        content_type: ContentType::Game,
        command: LeafCommand::Author(SourceAuthoringCommand::Publish { content_id: "g".to_owned() }),
    };
    assert_eq!(
        decide(&GlobalOptions::default(), &command),
        Ok(GuardDecision::Confirm { force: false })
    );
}

#[test]
fn root_publish_plan_never_prompts() {
    assert_eq!(decide(&GlobalOptions::default(), &root_publish(true)), Ok(GuardDecision::Proceed));
    assert_eq!(
        decide(&GlobalOptions::default(), &root_publish(false)),
        Ok(GuardDecision::Confirm { force: false })
    );
}

#[test]
fn confirmation_prompt_and_outcome() {
    assert_eq!(confirmation_prompt(false), "Proceed?");
    assert_eq!(confirmation_prompt(true), "Proceed with --force?");
    let action = "sdk deploy".to_owned();
    assert_eq!(confirmation_outcome(&action, Some(true)), Ok(()));
    let aborted = confirmation_outcome(&action, Some(false)).unwrap_err();
    assert_eq!(aborted.message(), "aborted `sdk deploy`");
    let unavailable = confirmation_outcome(&action, None).unwrap_err();
    assert_eq!(
        unavailable.message(),
        "cannot prompt for `sdk deploy` in this terminal; rerun with --yes only if you intend to accept the prompt automatically"
    );
}

use vapor_sdk_core::root::{RootCommand, RootPublishRequest};
use vapor_sdk_core::toolchain::ToolchainCommand;
use vapor_sdk_core::workspace::WorkspaceCommand;
use vapor_sdk_core::{
    describe_command, ChildContentRef, ContentReadCommand, ContentType, LeafCommand, PackCommand,
    PackCompositionCommand, PackagepackCommand, SdkCommand, SourceAuthoringCommand, StateSurface,
};

fn publish_request(plan: bool) -> RootPublishRequest {
    RootPublishRequest {
        plan,
        app_id: 2_122_620,
        depot_id: 2_122_621,
        description: "Vapor root".to_owned(),
        account: "builder".to_owned(),
        steamcmd: "steamcmd".to_owned(),
        set_live: None,
    }
}

#[test]
fn describe_version() {
    let spec = describe_command(&SdkCommand::Version);
    assert_eq!(spec.action, "sdk version");
    assert_eq!(spec.summary, "Print SDK version and build identity.");
    assert_eq!(spec.surface, StateSurface::ReadOnly);
    assert!(spec.preconditions.is_empty());
    assert_eq!(spec.future_effects, vec!["display version metadata"]);
}

#[test]
fn describe_toolchain_install() {
    let spec = describe_command(&SdkCommand::Toolchain(ToolchainCommand::Install));
    assert_eq!(spec.action, "sdk toolchain install");
    assert_eq!(spec.summary, "Install the pinned Rust/Cargo toolchain through Rustup.");
    assert_eq!(spec.surface, StateSurface::Toolchain);
    assert_eq!(
        spec.preconditions,
        vec!["toolchain pin is known", "Rustup is available from VAPOR_HOME/rustup/bin or PATH"]
    );
    assert_eq!(spec.future_effects.len(), 3);
    assert_eq!(spec.future_effects[2], "leave Rustup responsible for Rust distribution details");
}

#[test]
fn describe_root_publish_follows_plan_flag() {
    let planned = describe_command(&SdkCommand::Root(RootCommand::Publish(publish_request(true))));
    let real = describe_command(&SdkCommand::Root(RootCommand::Publish(publish_request(false))));
    assert_eq!(planned.action, "sdk root publish --plan");
    assert_eq!(real.action, "sdk root publish");
    assert_eq!(real.surface, StateSurface::RootRelease);
    assert_eq!(real.summary, "Assemble the root package and upload it through SteamCMD.");
    assert_eq!(real.future_effects[0], "run SteamCMD with +login and +run_app_build");
}

#[test]
fn describe_workspace_deploy() {
    let spec = describe_command(&SdkCommand::Workspace(WorkspaceCommand::Deploy));
    assert_eq!(spec.action, "sdk deploy");
    assert_eq!(spec.surface, StateSurface::BuildArtifact);
    assert_eq!(
        spec.preconditions,
        vec!["Vapor toolchain is installed", "current workspace kind is sdk or launcher"]
    );
}

#[test]
fn describe_content_read_and_author() {
    let read = describe_command(&SdkCommand::Leaf {
        content_type: ContentType::GameMod,
        command: LeafCommand::Read(ContentReadCommand::Fingerprint { content_id: "m".to_owned() }),
    });
    assert_eq!(read.action, "sdk game_mod fingerprint");
    assert_eq!(read.summary, "Read SDK-known authored or discoverable content state.");
    assert_eq!(read.surface, StateSurface::ReadOnly);
    assert_eq!(read.future_effects, vec!["display requested information"]);

    let publish = describe_command(&SdkCommand::Pack {
        pack_type: ContentType::Modpack,
        command: PackCommand::Author(SourceAuthoringCommand::Publish { content_id: "p".to_owned() }),
    });
    assert_eq!(publish.action, "sdk modpack publish");
    assert_eq!(publish.summary, "Publish content through configured release channels.");
    assert_eq!(publish.surface, StateSurface::Publication);
}

#[test]
fn describe_composition_commands() {
    let child = ChildContentRef { content_type: ContentType::Game, content_id: "g".to_owned() };
    let add = describe_command(&SdkCommand::Pack {
        pack_type: ContentType::Gamepack,
        command: PackCommand::Compose(PackCompositionCommand::Add { pack_id: "p".to_owned(), child }),
    });
    assert_eq!(add.surface, StateSurface::AuthoredComposition);
    let lock = describe_command(&SdkCommand::Packagepack(PackagepackCommand::Lock {
        packagepack_id: "pp".to_owned(),
    }));
    assert_eq!(lock.action, "sdk packagepack lock");
    assert_eq!(
        lock.summary,
        "Write a persistent packagepack lock artifact from the resolved authored graph."
    );
    assert_eq!(lock.surface, StateSurface::AuthoredComposition);
}

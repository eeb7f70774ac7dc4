//! Content kinds and content references shared by authoring commands.

use vstd::prelude::*;

verus! {

/// Kinds of authored content the SDK knows how to manage.
#[derive(Debug, Clone, Copy, PartialEq, Eq, Structural)]
pub enum ContentType {
    Packagepack,
    Enginepack,
    Gamepack,
    Modpack,
    Engine,
    Game,
    EngineMod,
    GameMod,
    ExtensionMod,
}

/// The command-line word for a content kind.
pub open spec fn content_type_name(content_type: ContentType) -> Seq<char> {
    match content_type {
        ContentType::Packagepack => "packagepack"@,
        ContentType::Enginepack => "enginepack"@,
        ContentType::Gamepack => "gamepack"@,
        ContentType::Modpack => "modpack"@,
        ContentType::Engine => "engine"@,
        ContentType::Game => "game"@,
        ContentType::EngineMod => "engine_mod"@,
        ContentType::GameMod => "game_mod"@,
        ContentType::ExtensionMod => "extension_mod"@,
    }
}

impl ContentType {
    /// The command-line word for this content kind.
    pub fn as_str(self) -> (name: &'static str)
        ensures
            name@ == content_type_name(self),
    {
        match self {
            ContentType::Packagepack => "packagepack",
            ContentType::Enginepack => "enginepack",
            ContentType::Gamepack => "gamepack",
            ContentType::Modpack => "modpack",
            ContentType::Engine => "engine",
            ContentType::Game => "game",
            ContentType::EngineMod => "engine_mod",
            ContentType::GameMod => "game_mod",
            ContentType::ExtensionMod => "extension_mod",
        }
    }
}

/// Where a content listing is read from.
#[derive(Debug, Clone, Copy, PartialEq, Eq, Structural)]
pub enum ContentSource {
    /// Authored source projects in the current workspace.
    Authored,
    /// Content installed in the local content library.
    Library,
    /// Content discoverable through the content catalog.
    Catalog,
}

/// A typed reference to a child content item inside a pack.
#[derive(Debug, Clone, PartialEq, Eq)]
pub struct ChildContentRef {
    pub content_type: ContentType,
    pub content_id: String,
}

} // verus!

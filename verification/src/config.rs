//! What the launcher is configured with, as far as its decisions depend on it.
use vstd::prelude::*;

verus! {

/// One file of an optional pack.
pub struct OptionalPackFile {
    pub name: String,
    pub url: String,
    pub size: u64,
    pub sha256: String,
}

/// A set of large files that the user may download.
pub struct OptionalPack {
    pub id: String,
    pub files: Vec<OptionalPackFile>,
}

/// The digests, in hexadecimal, that the game files of one mode have.
pub struct ModeDigests {
    pub ragexe_sha256: String,
    pub dataini_sha256: String,
}

/// The digests of both modes; a mode without them is not checked.
pub struct ModeArtifacts {
    pub vanilla: Option<ModeDigests>,
    pub hd: Option<ModeDigests>,
}

/// A program that the launcher starts.
pub struct ProgramConfiguration {
    pub path: String,
    pub arguments: Vec<String>,
    pub exit_on_success: Option<bool>,
}

/// The launcher's window.
pub struct WindowConfiguration {
    pub title: String,
    pub width: i32,
    pub height: i32,
    pub resizable: bool,
}

/// The launcher's configuration.
pub struct PatcherConfiguration {
    pub index_url: String,
    pub window: WindowConfiguration,
    pub play: ProgramConfiguration,
    pub setup: ProgramConfiguration,
    pub optional_packs: Vec<OptionalPack>,
    pub mode_artifacts: ModeArtifacts,
}

} // verus!

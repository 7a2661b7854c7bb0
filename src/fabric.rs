//! Fabric mod-loader metadata and version naming.

use vstd::prelude::*;
use crate::version::{installed_version_path, version_json_path};

verus! {

/// A loader release listed by the Fabric metadata service.
#[derive(Debug, Clone)]
pub struct FabricLoaderVersion {
    pub separator: String,
    pub build: i32,
    pub maven: String,
    pub version: String,
    pub stable: bool,
}

/// An intermediary mapping release.
#[derive(Debug, Clone)]
pub struct FabricIntermediaryVersion {
    pub maven: String,
    pub version: String,
    pub stable: bool,
}

/// A loader release together with its mappings and launcher metadata.
#[derive(Debug, Clone)]
pub struct FabricLoaderEntry {
    pub loader: FabricLoaderVersion,
    pub intermediary: FabricIntermediaryVersion,
    pub launcher_meta: FabricLauncherMeta,
}

/// Launcher metadata of a loader release.
#[derive(Debug, Clone)]
pub struct FabricLauncherMeta {
    pub version: i32,
    pub libraries: FabricLibraries,
    pub main_class: FabricMainClass,
}

/// Libraries a loader release needs, per side.
#[derive(Debug, Clone)]
pub struct FabricLibraries {
    pub client: Vec<FabricLibrary>,
    pub common: Vec<FabricLibrary>,
    pub server: Vec<FabricLibrary>,
}

/// One library of a loader release.
#[derive(Debug, Clone)]
pub struct FabricLibrary {
    pub name: String,
    pub url: Option<String>,
}

/// Entry class of a loader release: one per side, or one for both.
#[derive(Debug, Clone)]
pub enum FabricMainClass {
    Structured { client: String, server: String },
    Simple(String),
}

impl FabricMainClass {
    /// Entry class of the client.
    pub fn client(&self) -> (r: &str)
        ensures
            r@ == match self {
                FabricMainClass::Structured { client, .. } => client@,
                FabricMainClass::Simple(s) => s@,
            },
    {
        match self {
            FabricMainClass::Structured { client, .. } => client.as_str(),
            FabricMainClass::Simple(s) => s.as_str(),
        }
    }

    /// Entry class of the server.
    pub fn server(&self) -> (r: &str)
        ensures
            r@ == match self {
                FabricMainClass::Structured { server, .. } => server@,
                FabricMainClass::Simple(s) => s@,
            },
    {
        match self {
            FabricMainClass::Structured { server, .. } => server.as_str(),
            FabricMainClass::Simple(s) => s.as_str(),
        }
    }
}

/// A game release that Fabric supports.
#[derive(Debug, Clone)]
pub struct FabricGameVersion {
    pub version: String,
    pub stable: bool,
}

/// A Fabric version installed in the game directory.
#[derive(Debug, Clone)]
pub struct InstalledFabricVersion {
    pub id: String,
    pub minecraft_version: String,
    pub loader_version: String,
    pub path: String,
}

/// Id of the Fabric version for a game release and loader release.
pub open spec fn fabric_version_id(game_version: Seq<char>, loader_version: Seq<char>) -> Seq<char> {
    "fabric-loader-"@ + loader_version + "-"@ + game_version
}

/// `fabric-loader-<loader>-<game>`.
pub fn generate_version_id(game_version: &str, loader_version: &str) -> (r: String)
    ensures
        r@ == fabric_version_id(game_version@, loader_version@),
{
    let mut s = String::from_str("fabric-loader-");
    s.append(loader_version);
    s.append("-");
    s.append(game_version);
    s
}

/// Id under which a fetched profile is installed: its own id when it has
/// one, else the generated one.
pub fn profile_version_id(profile_id: Option<&str>, game_version: &str, loader_version: &str) -> (r:
    String)
    ensures
        profile_id.is_some() ==> r@ == profile_id.unwrap()@,
        profile_id.is_none() ==> r@ == fabric_version_id(game_version@, loader_version@),
{
    match profile_id {
        Some(id) => String::from_str(id),
        None => generate_version_id(game_version, loader_version),
    }
}

/// Where the descriptor of the Fabric version is stored; the version counts
/// as installed when this file exists.
pub fn installed_json_path(game_dir: &str, game_version: &str, loader_version: &str) -> (r: String)
    ensures
        r@ == version_json_path(game_dir@, fabric_version_id(game_version@, loader_version@)),
{
    let id = generate_version_id(game_version, loader_version);
    installed_version_path(game_dir, id.as_str())
}

} // verus!

//! Version descriptors and the merge of a mod-loader variant into the base
//! release it inherits from.

use vstd::prelude::*;
use crate::rules::Rule;
use crate::text::{join, join_path, str_eq};

verus! {

/// A launchable build, possibly inheriting from a parent build.
#[derive(Debug, Clone)]
pub struct GameVersion {
    pub id: String,
    pub downloads: Option<Downloads>,
    pub asset_index: Option<AssetIndex>,
    pub libraries: Vec<Library>,
    pub main_class: String,
    pub minecraft_arguments: Option<String>,
    pub arguments: Option<Arguments>,
    pub java_version: Option<JavaVersion>,
    pub inherits_from: Option<String>,
    pub assets: Option<String>,
    pub version_type: Option<String>,
}

/// Client jar and optional server jar of a build.
#[derive(Debug, Clone)]
pub struct Downloads {
    pub client: DownloadArtifact,
    pub server: Option<DownloadArtifact>,
}

/// One downloadable file with its optional SHA-1 digest, size and path.
#[derive(Debug, Clone)]
pub struct DownloadArtifact {
    pub sha1: Option<String>,
    pub size: Option<u64>,
    pub url: String,
    pub path: Option<String>,
}

/// Reference to the asset index of a build.
#[derive(Debug, Clone)]
pub struct AssetIndex {
    pub id: String,
    pub sha1: String,
    pub size: u64,
    pub url: String,
    pub total_size: Option<u64>,
}

/// OS key of a native library and the classifier that holds its code.
#[derive(Debug, Clone)]
pub struct NativeMapping {
    pub os: String,
    pub classifier: String,
}

/// A named dependency with optional explicit artifacts and rules.
#[derive(Debug, Clone)]
pub struct Library {
    pub downloads: Option<LibraryDownloads>,
    pub name: String,
    pub rules: Option<Vec<Rule>>,
    pub natives: Option<Vec<NativeMapping>>,
    pub url: Option<String>,
}

/// A platform-specific artifact of a library under its classifier key.
#[derive(Debug, Clone)]
pub struct ClassifierArtifact {
    pub key: String,
    pub artifact: DownloadArtifact,
}

/// Explicit artifacts of a library.
#[derive(Debug, Clone)]
pub struct LibraryDownloads {
    pub artifact: Option<DownloadArtifact>,
    pub classifiers: Option<Vec<ClassifierArtifact>>,
}

/// One entry of an argument template: a plain string, or values that are
/// included only when their rules allow it.
#[derive(Debug, Clone)]
pub enum ArgEntry {
    Plain(String),
    Conditional(ConditionalArg),
}

/// Rule-gated values of an argument template entry.
#[derive(Debug, Clone)]
pub struct ConditionalArg {
    pub rules: Option<Vec<Rule>>,
    pub value: Vec<String>,
}

/// Structured argument templates, per category.
#[derive(Debug, Clone)]
pub struct Arguments {
    pub game: Option<Vec<ArgEntry>>,
    pub jvm: Option<Vec<ArgEntry>>,
}

/// Required runtime of a build.
#[derive(Debug, Clone)]
pub struct JavaVersion {
    pub component: String,
    pub major_version: u64,
}

/// View of an optional template as an optional sequence.
pub open spec fn list_view(o: Option<Vec<ArgEntry>>) -> Option<Seq<ArgEntry>> {
    match o {
        None => None,
        Some(v) => Some(v@),
    }
}

/// Parent's entries first, then the child's; one side alone is kept.
pub open spec fn merged_list(parent: Option<Seq<ArgEntry>>, child: Option<Seq<ArgEntry>>) -> Option<
    Seq<ArgEntry>,
> {
    match (parent, child) {
        (None, None) => None,
        (Some(p), None) => Some(p),
        (None, Some(c)) => Some(c),
        (Some(p), Some(c)) => Some(p + c),
    }
}

/// Whether `r` is the merge of the child and parent argument templates.
pub open spec fn is_arguments_merge(
    r: Option<Arguments>,
    child: Option<Arguments>,
    parent: Option<Arguments>,
) -> bool {
    match (child, parent) {
        (None, None) => r.is_none(),
        (Some(c), None) => r == Some(c),
        (None, Some(p)) => r == Some(p),
        (Some(c), Some(p)) => r.is_some() && list_view(r.unwrap().game) == merged_list(
            list_view(p.game),
            list_view(c.game),
        ) && list_view(r.unwrap().jvm) == merged_list(list_view(p.jvm), list_view(c.jvm)),
    }
}

/// The child's value when present, else the parent's.
pub open spec fn or_else<T>(child: Option<T>, parent: Option<T>) -> Option<T> {
    match child {
        Some(c) => Some(c),
        None => parent,
    }
}

/// Whether `r` is the merge of `child` into `parent`: the child's id and main
/// class, the child's libraries before the parent's, the child's optional
/// fields where present, argument templates parent-first, no parent id.
pub open spec fn is_merge_of(r: GameVersion, child: GameVersion, parent: GameVersion) -> bool {
    &&& r.id == child.id
    &&& r.main_class == child.main_class
    &&& r.libraries@ == child.libraries@ + parent.libraries@
    &&& r.downloads == or_else(child.downloads, parent.downloads)
    &&& r.asset_index == or_else(child.asset_index, parent.asset_index)
    &&& r.minecraft_arguments == or_else(child.minecraft_arguments, parent.minecraft_arguments)
    &&& is_arguments_merge(r.arguments, child.arguments, parent.arguments)
    &&& r.java_version == or_else(child.java_version, parent.java_version)
    &&& r.inherits_from.is_none()
    &&& r.assets == or_else(child.assets, parent.assets)
    &&& r.version_type == or_else(child.version_type, parent.version_type)
}

fn prefer<T>(child: Option<T>, parent: Option<T>) -> (r: Option<T>)
    ensures
        r == or_else(child, parent),
{
    match child {
        Some(c) => Some(c),
        None => parent,
    }
}

fn merge_arg_lists(parent: Option<Vec<ArgEntry>>, child: Option<Vec<ArgEntry>>) -> (r: Option<
    Vec<ArgEntry>,
>)
    ensures
        list_view(r) == merged_list(list_view(parent), list_view(child)),
{
    match (parent, child) {
        (None, None) => None,
        (Some(p), None) => Some(p),
        (None, Some(c)) => Some(c),
        (Some(p), Some(c)) => {
            let mut p = p;
            let mut c = c;
            p.append(&mut c);
            Some(p)
        },
    }
}

fn merge_arguments(child: Option<Arguments>, parent: Option<Arguments>) -> (r: Option<Arguments>)
    ensures
        is_arguments_merge(r, child, parent),
{
    match (child, parent) {
        (None, None) => None,
        (Some(c), None) => Some(c),
        (None, Some(p)) => Some(p),
        (Some(c), Some(p)) => Some(
            Arguments { game: merge_arg_lists(p.game, c.game), jvm: merge_arg_lists(p.jvm, c.jvm) },
        ),
    }
}

/// Merges a child version (mod loader) into its parent (base release).
pub fn merge_versions(child: GameVersion, parent: GameVersion) -> (r: GameVersion)
    ensures
        is_merge_of(r, child, parent),
{
    let ghost c0 = child;
    let ghost p0 = parent;
    let mut libraries = child.libraries;
    let mut parent_libraries = parent.libraries;
    libraries.append(&mut parent_libraries);
    let r = GameVersion {
        id: child.id,
        downloads: prefer(child.downloads, parent.downloads),
        asset_index: prefer(child.asset_index, parent.asset_index),
        libraries,
        main_class: child.main_class,
        minecraft_arguments: prefer(child.minecraft_arguments, parent.minecraft_arguments),
        arguments: merge_arguments(child.arguments, parent.arguments),
        java_version: prefer(child.java_version, parent.java_version),
        inherits_from: None,
        assets: prefer(child.assets, parent.assets),
        version_type: prefer(child.version_type, parent.version_type),
    };
    assert(r.libraries@ == c0.libraries@ + p0.libraries@);
    r
}

/// Whether the version names a parent that still has to be merged in.
pub fn needs_inheritance_resolution(version: &GameVersion) -> (r: bool)
    ensures
        r == version.inherits_from.is_some(),
{
    version.inherits_from.is_some()
}

/// Outcome of resolving a version against the versions stored locally.
#[derive(Debug)]
pub enum Resolution {
    /// A self-contained version: no parent id remains.
    Resolved(GameVersion),
    /// The parent is not stored locally and must be fetched remotely, then
    /// merged into `child` with `merge_versions`.
    NeedsParent { child: GameVersion, parent_id: String },
}

/// Index of the first local version whose id is `id`, or -1.
pub open spec fn first_with_id(local: Seq<GameVersion>, id: Seq<char>) -> int
    decreases local.len(),
{
    if local.len() == 0 {
        -1
    } else if first_with_id(local.drop_last(), id) >= 0 {
        first_with_id(local.drop_last(), id)
    } else if local.last().id@ == id {
        local.len() - 1
    } else {
        -1
    }
}

/// `first_with_id` is -1 or the position of the first version with that id.
pub proof fn lemma_first_with_id(local: Seq<GameVersion>, id: Seq<char>)
    ensures
        -1 <= first_with_id(local, id) < local.len(),
        first_with_id(local, id) >= 0 ==> local[first_with_id(local, id)].id@ == id,
        first_with_id(local, id) >= 0 ==> forall|k: int|
            0 <= k < first_with_id(local, id) ==> local[k].id@ != id,
        first_with_id(local, id) == -1 ==> forall|k: int| 0 <= k < local.len() ==> local[k].id@ != id,
    decreases local.len(),
{
    if local.len() > 0 {
        lemma_first_with_id(local.drop_last(), id);
        assert forall|k: int| 0 <= k < local.len() - 1 implies local[k] == local.drop_last()[k] by {}
    }
}

/// Whether `r` is what resolving `version` against `local` yields: a version
/// without parent is resolved as it is; a parent stored locally (the first
/// with that id) is merged in; otherwise the parent is requested.
pub open spec fn is_resolution_of(r: Resolution, version: GameVersion, local: Seq<GameVersion>) -> bool {
    match version.inherits_from {
        None => r == Resolution::Resolved(version),
        Some(pid) => {
            let k = first_with_id(local, pid@);
            if k >= 0 {
                match r {
                    Resolution::Resolved(g) => is_merge_of(g, version, local[k]),
                    _ => false,
                }
            } else {
                r == Resolution::NeedsParent { child: version, parent_id: pid }
            }
        },
    }
}

/// Resolves `version` using the versions found in local storage; a remote
/// lookup is asked for only when the parent is not among them.
pub fn resolve_inheritance(version: GameVersion, stored: Vec<GameVersion>) -> (r: Resolution)
    ensures
        is_resolution_of(r, version, stored@),
{
    let found = match &version.inherits_from {
        None => {
            return Resolution::Resolved(version);
        },
        Some(pid) => find_version(&stored, pid.as_str()),
    };
    let ghost pid_view = version.inherits_from.unwrap()@;
    proof {
        lemma_first_with_id(stored@, pid_view);
    }
    match found {
        Some(i) => {
            let ghost s0 = stored@;
            let mut local = stored;
            let parent = local.remove(i);
            assert(parent == s0[first_with_id(s0, pid_view)]);
            let merged = merge_versions(version, parent);
            Resolution::Resolved(merged)
        },
        None => {
            let parent_id = match &version.inherits_from {
                Some(p) => p.clone(),
                None => String::new(),
            };
            Resolution::NeedsParent { child: version, parent_id }
        },
    }
}

/// When the parent of a version is stored locally, resolution completes
/// with a self-contained version and asks for no remote lookup; a remote
/// lookup is only ever asked for an id that no stored version has.
pub proof fn lemma_local_parent_needs_no_fetch(
    version: GameVersion,
    stored: Seq<GameVersion>,
    r: Resolution,
)
    requires
        is_resolution_of(r, version, stored),
    ensures
        (version.inherits_from.is_some() && exists|k: int|
            0 <= k < stored.len() && stored[k].id@ == version.inherits_from.unwrap()@) ==> (
        r is Resolved && r->Resolved_0.inherits_from.is_none()),
        r is NeedsParent ==> forall|k: int|
            0 <= k < stored.len() ==> stored[k].id@ != r->parent_id@,
{
    if version.inherits_from.is_some() {
        lemma_first_with_id(stored, version.inherits_from.unwrap()@);
    }
}

/// Position of the first stored version whose id is `id`.
fn find_version(stored: &Vec<GameVersion>, id: &str) -> (r: Option<usize>)
    ensures
        match r {
            None => first_with_id(stored@, id@) == -1,
            Some(i) => first_with_id(stored@, id@) == i as int,
        },
{
    proof {
        lemma_first_with_id(stored@, id@);
    }
    let mut i: usize = 0;
    while i < stored.len()
        invariant
            i <= stored@.len(),
            forall|k: int| 0 <= k < i ==> stored@[k].id@ != id@,
        decreases stored@.len() - i,
    {
        if str_eq(stored[i].id.as_str(), id) {
            proof {
                lemma_first_with_id(stored@, id@);
            }
            return Some(i);
        }
        i = i + 1;
    }
    None
}

/// `game_dir/versions/<id>/<id>.json`, where an installed version is kept.
pub open spec fn version_json_path(game_dir: Seq<char>, id: Seq<char>) -> Seq<char> {
    join_path(join_path(join_path(game_dir, "versions"@), id), id + ".json"@)
}

/// Where the descriptor of version `id` is stored under `game_dir`.
pub fn installed_version_path(game_dir: &str, id: &str) -> (r: String)
    ensures
        r@ == version_json_path(game_dir@, id@),
{
    let versions = join(game_dir, "versions");
    let dir = join(versions.as_str(), id);
    let mut file = String::from_str(id);
    file.append(".json");
    join(dir.as_str(), file.as_str())
}

/// The remote list of known versions.
#[derive(Debug, Clone)]
pub struct VersionManifest {
    pub latest: Latest,
    pub versions: Vec<Version>,
}

/// The newest release and snapshot ids.
#[derive(Debug, Clone)]
pub struct Latest {
    pub release: String,
    pub snapshot: String,
}

/// One entry of the version list, with the URL of its descriptor.
#[derive(Debug, Clone)]
pub struct Version {
    pub id: String,
    pub type_: String,
    pub url: String,
    pub time: String,
    pub release_time: String,
}

/// Index of the first listed version whose id is `id`, or -1.
pub open spec fn first_listed(vs: Seq<Version>, id: Seq<char>) -> int
    decreases vs.len(),
{
    if vs.len() == 0 {
        -1
    } else if first_listed(vs.drop_last(), id) >= 0 {
        first_listed(vs.drop_last(), id)
    } else if vs.last().id@ == id {
        vs.len() - 1
    } else {
        -1
    }
}

/// `first_listed` is -1 or the position of the first entry with that id.
pub proof fn lemma_first_listed(vs: Seq<Version>, id: Seq<char>)
    ensures
        -1 <= first_listed(vs, id) < vs.len(),
        first_listed(vs, id) >= 0 ==> vs[first_listed(vs, id)].id@ == id,
        first_listed(vs, id) >= 0 ==> forall|k: int| 0 <= k < first_listed(vs, id) ==> vs[k].id@ != id,
        first_listed(vs, id) == -1 ==> forall|k: int| 0 <= k < vs.len() ==> vs[k].id@ != id,
    decreases vs.len(),
{
    if vs.len() > 0 {
        lemma_first_listed(vs.drop_last(), id);
        assert forall|k: int| 0 <= k < vs.len() - 1 implies vs[k] == vs.drop_last()[k] by {}
    }
}

/// Where the descriptor of version `id` is published; `None` when the list
/// does not know the id.
pub fn descriptor_url(manifest: &VersionManifest, id: &str) -> (r: Option<String>)
    ensures
        first_listed(manifest.versions@, id@) == -1 ==> r.is_none(),
        first_listed(manifest.versions@, id@) >= 0 ==> r == Some(
            manifest.versions@[first_listed(manifest.versions@, id@)].url,
        ),
{
    proof {
        lemma_first_listed(manifest.versions@, id@);
    }
    let mut i: usize = 0;
    while i < manifest.versions.len()
        invariant
            i <= manifest.versions@.len(),
            forall|k: int| 0 <= k < i ==> manifest.versions@[k].id@ != id@,
        decreases manifest.versions@.len() - i,
    {
        if str_eq(manifest.versions[i].id.as_str(), id) {
            proof {
                lemma_first_listed(manifest.versions@, id@);
            }
            return Some(manifest.versions[i].url.clone());
        }
        i = i + 1;
    }
    proof {
        lemma_first_listed(manifest.versions@, id@);
    }
    None
}

} // verus!

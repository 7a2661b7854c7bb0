//! Launch preparation: the download tasks a resolved version needs, the
//! classpath, and the placeholder tables of the argument templates.

use vstd::prelude::*;
use crate::download::{opt_string, DownloadTask};
use crate::maven::{coord_parses, get_library_path, library_url, name_path, resolve_library_url};
use crate::placeholders::Placeholder;
use crate::rules::{is_library_allowed, rules_view, spec_is_allowed, Platform};
use crate::text::{join, join_path, str_eq, strings_view};
use crate::auth::Account;
use crate::version::{AssetIndex, ClassifierArtifact, DownloadArtifact, GameVersion, Library};

verus! {

/// Base URL of the content-addressed asset store.
pub const ASSET_BASE_URL: &'static str = "https://resources.download.minecraft.net/";

/// Plain view of a task: URL, path, SHA-1, SHA-256.
pub open spec fn task_view(t: DownloadTask) -> (Seq<char>, Seq<char>, Option<Seq<char>>, Option<Seq<char>>) {
    (t.url@, t.path@, opt_string(t.sha1), opt_string(t.sha256))
}

/// Plain views of a list of tasks.
pub open spec fn tasks_view(ts: Seq<DownloadTask>) -> Seq<(Seq<char>, Seq<char>, Option<Seq<char>>, Option<Seq<char>>)> {
    ts.map_values(|t: DownloadTask| task_view(t))
}

/// Classifier key of the native code for platform `p`.
pub open spec fn native_key(p: Platform) -> Seq<char> {
    match p {
        Platform::Linux => "natives-linux"@,
        Platform::Windows => "natives-windows"@,
        Platform::MacOs => "natives-osx"@,
        Platform::Other => ""@,
    }
}

/// Path of an artifact relative to the libraries directory: its own path,
/// else the library name with `.jar`.
pub open spec fn artifact_rel_path(a: DownloadArtifact, lib_name: Seq<char>) -> Seq<char> {
    match a.path {
        Some(p) => p@,
        None => lib_name + ".jar"@,
    }
}

/// First classifier artifact stored under `key`.
pub open spec fn classifier_for(cs: Seq<ClassifierArtifact>, key: Seq<char>) -> Option<DownloadArtifact>
    decreases cs.len(),
{
    if cs.len() == 0 {
        None
    } else if cs[0].key@ == key {
        Some(cs[0].artifact)
    } else {
        classifier_for(cs.subrange(1, cs.len() as int), key)
    }
}

/// The native artifact of a library on platform `p`, when it has one with a
/// path.
pub open spec fn native_artifact(lib: Library, p: Platform) -> Option<DownloadArtifact> {
    match lib.downloads {
        Some(d) => match d.classifiers {
            Some(cs) => match classifier_for(cs@, native_key(p)) {
                Some(a) => if a.path.is_some() {
                    Some(a)
                } else {
                    None
                },
                None => None,
            },
            None => None,
        },
        None => None,
    }
}

/// The tasks one library contributes: nothing when its rules exclude it;
/// its explicit artifact and native artifact when it lists downloads; else
/// the artifact its Maven coordinate names.
pub open spec fn library_tasks_of(lib: Library, p: Platform, dir: Seq<char>) -> Seq<
    (Seq<char>, Seq<char>, Option<Seq<char>>, Option<Seq<char>>),
> {
    if !spec_is_allowed(rules_view(lib.rules), p) {
        Seq::empty()
    } else {
        match lib.downloads {
            Some(d) => {
                let main = match d.artifact {
                    Some(a) => seq![
                        (a.url@, join_path(dir, artifact_rel_path(a, lib.name@)), opt_string(a.sha1), None),
                    ],
                    None => Seq::empty(),
                };
                let native = match native_artifact(lib, p) {
                    Some(a) => seq![(a.url@, join_path(dir, a.path.unwrap()@), opt_string(a.sha1), None)],
                    None => Seq::empty(),
                };
                main + native
            },
            None => if coord_parses(lib.name@) {
                seq![
                    (
                        library_url(lib.name@, opt_string(lib.url)),
                        join_path(dir, name_path(lib.name@)),
                        None,
                        None,
                    ),
                ]
            } else {
                Seq::empty()
            },
        }
    }
}

/// Native archives one library contributes, to be extracted before launch.
pub open spec fn library_natives_of(lib: Library, p: Platform, dir: Seq<char>) -> Seq<Seq<char>> {
    if spec_is_allowed(rules_view(lib.rules), p) {
        match native_artifact(lib, p) {
            Some(a) => seq![join_path(dir, a.path.unwrap()@)],
            None => Seq::empty(),
        }
    } else {
        Seq::empty()
    }
}

/// Classpath entries one library contributes: its explicit artifact, or the
/// path of its Maven coordinate when it lists no downloads.
pub open spec fn library_classpath_of(lib: Library, p: Platform, dir: Seq<char>) -> Seq<Seq<char>> {
    if !spec_is_allowed(rules_view(lib.rules), p) {
        Seq::empty()
    } else {
        match lib.downloads {
            Some(d) => match d.artifact {
                Some(a) => seq![join_path(dir, artifact_rel_path(a, lib.name@))],
                None => Seq::empty(),
            },
            None => if coord_parses(lib.name@) {
                seq![join_path(dir, name_path(lib.name@))]
            } else {
                Seq::empty()
            },
        }
    }
}

/// The tasks of all libraries, in library order.
pub open spec fn libraries_tasks(libs: Seq<Library>, p: Platform, dir: Seq<char>) -> Seq<
    (Seq<char>, Seq<char>, Option<Seq<char>>, Option<Seq<char>>),
>
    decreases libs.len(),
{
    if libs.len() == 0 {
        Seq::empty()
    } else {
        libraries_tasks(libs.drop_last(), p, dir) + library_tasks_of(libs.last(), p, dir)
    }
}

/// The native archives of all libraries, in library order.
pub open spec fn libraries_natives(libs: Seq<Library>, p: Platform, dir: Seq<char>) -> Seq<Seq<char>>
    decreases libs.len(),
{
    if libs.len() == 0 {
        Seq::empty()
    } else {
        libraries_natives(libs.drop_last(), p, dir) + library_natives_of(libs.last(), p, dir)
    }
}

/// The classpath entries of all libraries, in library order.
pub open spec fn libraries_classpath(libs: Seq<Library>, p: Platform, dir: Seq<char>) -> Seq<Seq<char>>
    decreases libs.len(),
{
    if libs.len() == 0 {
        Seq::empty()
    } else {
        libraries_classpath(libs.drop_last(), p, dir) + library_classpath_of(libs.last(), p, dir)
    }
}

/// Download tasks and native archives of a version's libraries.
pub struct LibraryPlan {
    pub tasks: Vec<DownloadTask>,
    pub natives: Vec<String>,
}

fn native_key_of(p: Platform) -> (r: &'static str)
    ensures
        r@ == native_key(p),
{
    match p {
        Platform::Linux => "natives-linux",
        Platform::Windows => "natives-windows",
        Platform::MacOs => "natives-osx",
        Platform::Other => "",
    }
}

fn find_classifier<'a>(cs: &'a Vec<ClassifierArtifact>, key: &str) -> (r: Option<&'a DownloadArtifact>)
    ensures
        match r {
            None => classifier_for(cs@, key@).is_none(),
            Some(a) => classifier_for(cs@, key@) == Some(*a),
        },
{
    let mut i: usize = 0;
    assert(cs@.subrange(0, cs@.len() as int) == cs@);
    while i < cs.len()
        invariant
            i <= cs@.len(),
            classifier_for(cs@, key@) == classifier_for(cs@.subrange(i as int, cs@.len() as int), key@),
        decreases cs@.len() - i,
    {
        let ghost rest = cs@.subrange(i as int, cs@.len() as int);
        assert(rest.subrange(1, rest.len() as int) == cs@.subrange(i + 1, cs@.len() as int));
        if str_eq(cs[i].key.as_str(), key) {
            return Some(&cs[i].artifact);
        }
        i = i + 1;
    }
    None
}

fn opt_clone(o: &Option<String>) -> (r: Option<String>)
    ensures
        opt_string(r) == opt_string(*o),
{
    match o {
        Some(s) => Some(s.clone()),
        None => None,
    }
}

fn opt_ref(o: &Option<String>) -> (r: Option<&str>)
    ensures
        match r {
            None => o.is_none(),
            Some(s) => o.is_some() && s@ == o.unwrap()@,
        },
{
    match o {
        Some(s) => Some(s.as_str()),
        None => None,
    }
}

fn artifact_path(a: &DownloadArtifact, lib_name: &str, dir: &str) -> (r: String)
    ensures
        r@ == join_path(dir@, artifact_rel_path(*a, lib_name@)),
{
    match &a.path {
        Some(p) => join(dir, p.as_str()),
        None => {
            let mut rel = String::from_str(lib_name);
            rel.append(".jar");
            join(dir, rel.as_str())
        },
    }
}

fn native_of<'a>(lib: &'a Library, p: Platform) -> (r: Option<&'a DownloadArtifact>)
    ensures
        match r {
            None => native_artifact(*lib, p).is_none(),
            Some(a) => native_artifact(*lib, p) == Some(*a),
        },
{
    match &lib.downloads {
        Some(d) => match &d.classifiers {
            Some(cs) => match find_classifier(cs, native_key_of(p)) {
                Some(a) => if a.path.is_some() {
                    Some(a)
                } else {
                    None
                },
                None => None,
            },
            None => None,
        },
        None => None,
    }
}

/// Appends the tasks and native archives of one library.
fn plan_library(lib: &Library, p: Platform, dir: &str, plan: &mut LibraryPlan)
    ensures
        tasks_view(final(plan).tasks@) == tasks_view(old(plan).tasks@) + library_tasks_of(*lib, p, dir@),
        strings_view(final(plan).natives@) == strings_view(old(plan).natives@) + library_natives_of(
            *lib,
            p,
            dir@,
        ),
{
    let ghost t0 = tasks_view(plan.tasks@);
    let ghost n0 = strings_view(plan.natives@);
    if !is_library_allowed(&lib.rules, p) {
        assert(t0 + Seq::empty() == t0);
        assert(n0 + Seq::<Seq<char>>::empty() == n0);
        return;
    }
    match &lib.downloads {
        Some(d) => {
            match &d.artifact {
                Some(a) => {
                    let path = artifact_path(a, lib.name.as_str(), dir);
                    plan.tasks.push(
                        DownloadTask { url: a.url.clone(), path, sha1: opt_clone(&a.sha1), sha256: None },
                    );
                },
                None => {},
            }
            let ghost t1 = tasks_view(plan.tasks@);
            match native_of(lib, p) {
                Some(na) => {
                    let path = match &na.path {
                        Some(pp) => join(dir, pp.as_str()),
                        None => join(dir, ""),
                    };
                    plan.tasks.push(
                        DownloadTask {
                            url: na.url.clone(),
                            path: path.clone(),
                            sha1: opt_clone(&na.sha1),
                            sha256: None,
                        },
                    );
                    plan.natives.push(path);
                    assert(tasks_view(plan.tasks@) == t1 + library_tasks_of(*lib, p, dir@).subrange(
                        t1.len() - t0.len(),
                        library_tasks_of(*lib, p, dir@).len() as int,
                    ));
                },
                None => {},
            }
            assert(tasks_view(plan.tasks@) =~= t0 + library_tasks_of(*lib, p, dir@));
            assert(strings_view(plan.natives@) =~= n0 + library_natives_of(*lib, p, dir@));
        },
        None => {
            match resolve_library_url(lib.name.as_str(), None, opt_ref(&lib.url)) {
                Some(url) => {
                    match get_library_path(lib.name.as_str(), dir) {
                        Some(path) => {
                            plan.tasks.push(DownloadTask { url, path, sha1: None, sha256: None });
                        },
                        None => {},
                    }
                },
                None => {},
            }
            assert(tasks_view(plan.tasks@) =~= t0 + library_tasks_of(*lib, p, dir@));
            assert(strings_view(plan.natives@) =~= n0 + library_natives_of(*lib, p, dir@));
        },
    }
}

/// Download tasks and native archives of all libraries of `version` allowed
/// on `p`, stored under `libraries_dir`.
pub fn plan_libraries(version: &GameVersion, p: Platform, libraries_dir: &str) -> (r: LibraryPlan)
    ensures
        tasks_view(r.tasks@) == libraries_tasks(version.libraries@, p, libraries_dir@),
        strings_view(r.natives@) == libraries_natives(version.libraries@, p, libraries_dir@),
{
    let mut plan = LibraryPlan { tasks: Vec::new(), natives: Vec::new() };
    let libs = &version.libraries;
    let mut i: usize = 0;
    assert(libs@.subrange(0, 0) == Seq::<Library>::empty());
    assert(tasks_view(plan.tasks@) =~= Seq::empty());
    assert(strings_view(plan.natives@) =~= Seq::empty());
    while i < libs.len()
        invariant
            i <= libs@.len(),
            tasks_view(plan.tasks@) == libraries_tasks(libs@.subrange(0, i as int), p, libraries_dir@),
            strings_view(plan.natives@) == libraries_natives(
                libs@.subrange(0, i as int),
                p,
                libraries_dir@,
            ),
        decreases libs@.len() - i,
    {
        assert(libs@.subrange(0, i + 1).drop_last() == libs@.subrange(0, i as int));
        plan_library(&libs[i], p, libraries_dir, &mut plan);
        i = i + 1;
    }
    assert(libs@.subrange(0, libs@.len() as int) == libs@);
    plan
}

/// Why a launch cannot be prepared.
#[derive(Debug, Clone, Copy, PartialEq, Eq, Structural)]
pub enum LaunchError {
    /// Nobody is signed in.
    NoActiveAccount,
    /// The resolved version lists no client download.
    MissingDownloads,
    /// The resolved version names no asset index.
    MissingAssetIndex,
}

impl LaunchError {
    /// Human-readable description.
    pub fn message(&self) -> (r: String)
        ensures
            *self == LaunchError::NoActiveAccount ==> r@ == "No active account found. Please login first."@,
            *self == LaunchError::MissingDownloads ==> r@ == "Version has no downloads information"@,
            *self == LaunchError::MissingAssetIndex ==> r@ == "Version has no asset index information"@,
    {
        match self {
            LaunchError::NoActiveAccount => String::from_str("No active account found. Please login first."),
            LaunchError::MissingDownloads => String::from_str("Version has no downloads information"),
            LaunchError::MissingAssetIndex => String::from_str("Version has no asset index information"),
        }
    }
}

/// A launch needs a signed-in account.
pub fn require_account(active: &Option<Account>) -> (r: Result<(), LaunchError>)
    ensures
        r is Ok <==> active.is_some(),
        r is Err ==> r->Err_0 == LaunchError::NoActiveAccount,
{
    if active.is_some() {
        Ok(())
    } else {
        Err(LaunchError::NoActiveAccount)
    }
}

/// The first reason, in launch order, why `version` cannot be launched with
/// the signed-in account `active`: no account, then no client download,
/// then no asset index.
pub open spec fn launch_problem(active: Option<Account>, version: GameVersion) -> Option<LaunchError> {
    if active.is_none() {
        Some(LaunchError::NoActiveAccount)
    } else if version.downloads.is_none() {
        Some(LaunchError::MissingDownloads)
    } else if version.asset_index.is_none() {
        Some(LaunchError::MissingAssetIndex)
    } else {
        None
    }
}

/// Checks everything a launch needs before any download or spawn.
pub fn check_launchable(active: &Option<Account>, version: &GameVersion) -> (r: Result<(), LaunchError>)
    ensures
        r is Ok <==> launch_problem(*active, *version).is_none(),
        r is Err ==> launch_problem(*active, *version) == Some(r->Err_0),
{
    require_account(active)?;
    if version.downloads.is_none() {
        return Err(LaunchError::MissingDownloads);
    }
    if version.asset_index.is_none() {
        return Err(LaunchError::MissingAssetIndex);
    }
    Ok(())
}

/// The asset index a launch needs.
pub fn asset_index_of(version: &GameVersion) -> (r: Result<&AssetIndex, LaunchError>)
    ensures
        version.asset_index.is_none() ==> r is Err && r->Err_0 == LaunchError::MissingAssetIndex,
        version.asset_index.is_some() ==> r is Ok && *r->Ok_0 == version.asset_index.unwrap(),
{
    match &version.asset_index {
        Some(a) => Ok(a),
        None => Err(LaunchError::MissingAssetIndex),
    }
}

/// The release whose client jar is launched: the parent when the version
/// still names one, else the requested id.
pub open spec fn client_version(v: GameVersion, version_id: Seq<char>) -> Seq<char> {
    match v.inherits_from {
        Some(p) => p@,
        None => version_id,
    }
}

/// `game_dir/versions/<release>/<release>.jar`.
pub open spec fn client_jar_path(game_dir: Seq<char>, release: Seq<char>) -> Seq<char> {
    join_path(join_path(join_path(game_dir, "versions"@), release), release + ".jar"@)
}

/// Path of the client jar of `version` under `game_dir`.
pub fn client_jar_path_of(version: &GameVersion, version_id: &str, game_dir: &str) -> (r: String)
    ensures
        r@ == client_jar_path(game_dir@, client_version(*version, version_id@)),
{
    let release = match &version.inherits_from {
        Some(p) => p.as_str(),
        None => version_id,
    };
    let versions = join(game_dir, "versions");
    let dir = join(versions.as_str(), release);
    let mut file = String::from_str(release);
    file.append(".jar");
    join(dir.as_str(), file.as_str())
}

/// The client jar download, which every launch needs.
pub fn client_jar_task(version: &GameVersion, version_id: &str, game_dir: &str) -> (r: Result<
    DownloadTask,
    LaunchError,
>)
    ensures
        r is Err <==> version.downloads.is_none(),
        r is Err ==> r->Err_0 == LaunchError::MissingDownloads,
        r is Ok ==> task_view(r->Ok_0) == (
            version.downloads.unwrap().client.url@,
            client_jar_path(game_dir@, client_version(*version, version_id@)),
            opt_string(version.downloads.unwrap().client.sha1),
            None::<Seq<char>>,
        ),
{
    match &version.downloads {
        None => Err(LaunchError::MissingDownloads),
        Some(d) => {
            let path = client_jar_path_of(version, version_id, game_dir);
            Ok(
                DownloadTask {
                    url: d.client.url.clone(),
                    path,
                    sha1: opt_clone(&d.client.sha1),
                    sha256: None,
                },
            )
        },
    }
}

/// Pieces joined with `sep` between consecutive ones.
pub open spec fn join_with(parts: Seq<Seq<char>>, sep: Seq<char>) -> Seq<char>
    decreases parts.len(),
{
    if parts.len() == 0 {
        Seq::empty()
    } else if parts.len() == 1 {
        parts[0]
    } else {
        join_with(parts.drop_last(), sep) + sep + parts.last()
    }
}

/// Classpath separator of platform `p`.
pub open spec fn classpath_separator(p: Platform) -> Seq<char> {
    if p == Platform::Windows {
        ";"@
    } else {
        ":"@
    }
}

fn classpath_entries(version: &GameVersion, p: Platform, libraries_dir: &str) -> (r: Vec<String>)
    ensures
        strings_view(r@) == libraries_classpath(version.libraries@, p, libraries_dir@),
{
    let libs = &version.libraries;
    let mut out: Vec<String> = Vec::new();
    let mut i: usize = 0;
    assert(libs@.subrange(0, 0) == Seq::<Library>::empty());
    assert(strings_view(out@) =~= Seq::empty());
    while i < libs.len()
        invariant
            i <= libs@.len(),
            strings_view(out@) == libraries_classpath(libs@.subrange(0, i as int), p, libraries_dir@),
        decreases libs@.len() - i,
    {
        assert(libs@.subrange(0, i + 1).drop_last() == libs@.subrange(0, i as int));
        let lib = &libs[i];
        let ghost before = strings_view(out@);
        if is_library_allowed(&lib.rules, p) {
            match &lib.downloads {
                Some(d) => match &d.artifact {
                    Some(a) => {
                        out.push(artifact_path(a, lib.name.as_str(), libraries_dir));
                    },
                    None => {},
                },
                None => match get_library_path(lib.name.as_str(), libraries_dir) {
                    Some(path) => {
                        out.push(path);
                    },
                    None => {},
                },
            }
        }
        assert(strings_view(out@) =~= before + library_classpath_of(*lib, p, libraries_dir@));
        i = i + 1;
    }
    assert(libs@.subrange(0, libs@.len() as int) == libs@);
    out
}

/// The classpath: the allowed libraries' jars in library order, then the
/// client jar, joined with the platform's separator.
pub fn build_classpath(version: &GameVersion, p: Platform, libraries_dir: &str, client_jar: &str) -> (r:
    String)
    ensures
        r@ == join_with(
            libraries_classpath(version.libraries@, p, libraries_dir@).push(client_jar@),
            classpath_separator(p),
        ),
{
    let mut entries = classpath_entries(version, p, libraries_dir);
    let ghost libs_part = strings_view(entries@);
    entries.push(String::from_str(client_jar));
    let ghost parts = strings_view(entries@);
    assert(parts == libs_part.push(client_jar@));
    let sep = if p == Platform::Windows {
        ";"
    } else {
        ":"
    };
    let mut out = String::new();
    let mut i: usize = 0;
    assert(parts.len() >= 1);
    while i < entries.len()
        invariant
            i <= entries@.len(),
            parts == strings_view(entries@),
            sep@ == classpath_separator(p),
            out@ == join_with(parts.subrange(0, i as int), sep@),
        decreases entries@.len() - i,
    {
        assert(parts.subrange(0, i + 1).drop_last() == parts.subrange(0, i as int));
        if i > 0 {
            out.append(sep);
        }
        out.append(entries[i].as_str());
        assert(i == 0 ==> parts.subrange(0, 1) == seq![parts[0]]);
        i = i + 1;
    }
    assert(parts.subrange(0, parts.len() as int) == parts);
    out
}

/// Download task of one asset object: `objects/<first two hash chars>/<hash>`
/// under the asset store, checked against the hash itself.
pub open spec fn asset_task_view(hash: Seq<char>, objects_dir: Seq<char>) -> (
    Seq<char>,
    Seq<char>,
    Option<Seq<char>>,
    Option<Seq<char>>,
) {
    let prefix = hash.subrange(0, 2);
    (
        ASSET_BASE_URL@ + prefix + "/"@ + hash,
        join_path(join_path(objects_dir, prefix), hash),
        Some(hash),
        None,
    )
}

/// The task of an asset object; `None` when the hash is too short to give a
/// two-character directory.
pub fn asset_task(hash: &str, objects_dir: &str) -> (r: Option<DownloadTask>)
    ensures
        r is None <==> hash@.len() < 2,
        r is Some ==> task_view(r->Some_0) == asset_task_view(hash@, objects_dir@),
{
    if hash.unicode_len() < 2 {
        return None;
    }
    let prefix = hash.substring_char(0, 2);
    let mut url = String::from_str(ASSET_BASE_URL);
    url.append(prefix);
    url.append("/");
    url.append(hash);
    let dir = join(objects_dir, prefix);
    let path = join(dir.as_str(), hash);
    Some(DownloadTask { url, path, sha1: Some(String::from_str(hash)), sha256: None })
}

fn placeholder(key: &str, value: String) -> (r: Placeholder)
    ensures
        r.key@ == key@,
        r.value@ == value@,
{
    Placeholder { key: String::from_str(key), value }
}

/// Whether row `i` of table `t` maps `key` to `value`.
pub open spec fn row(t: Seq<Placeholder>, i: int, key: Seq<char>, value: Seq<char>) -> bool {
    t[i].key@ == key && t[i].value@ == value
}

/// Placeholder values of the JVM argument template.
pub fn jvm_placeholders(
    natives_directory: String,
    classpath: String,
    launcher_name: String,
    launcher_version: String,
) -> (r: Vec<Placeholder>)
    ensures
        r@.len() == 4,
        row(r@, 0, "natives_directory"@, natives_directory@),
        row(r@, 1, "classpath"@, classpath@),
        row(r@, 2, "launcher_name"@, launcher_name@),
        row(r@, 3, "launcher_version"@, launcher_version@),
{
    let mut t: Vec<Placeholder> = Vec::new();
    t.push(placeholder("natives_directory", natives_directory));
    t.push(placeholder("classpath", classpath));
    t.push(placeholder("launcher_name", launcher_name));
    t.push(placeholder("launcher_version", launcher_version));
    t
}

/// Placeholder values of the game argument template; user type, version
/// type and user properties are fixed.
pub fn game_placeholders(
    player_name: String,
    version_name: String,
    game_directory: String,
    assets_root: String,
    assets_index_name: String,
    auth_uuid: String,
    access_token: String,
) -> (r: Vec<Placeholder>)
    ensures
        r@.len() == 10,
        row(r@, 0, "auth_player_name"@, player_name@),
        row(r@, 1, "version_name"@, version_name@),
        row(r@, 2, "game_directory"@, game_directory@),
        row(r@, 3, "assets_root"@, assets_root@),
        row(r@, 4, "assets_index_name"@, assets_index_name@),
        row(r@, 5, "auth_uuid"@, auth_uuid@),
        row(r@, 6, "auth_access_token"@, access_token@),
        row(r@, 7, "user_type"@, "mojang"@),
        row(r@, 8, "version_type"@, "release"@),
        row(r@, 9, "user_properties"@, "{}"@),
{
    let mut t: Vec<Placeholder> = Vec::new();
    t.push(placeholder("auth_player_name", player_name));
    t.push(placeholder("version_name", version_name));
    t.push(placeholder("game_directory", game_directory));
    t.push(placeholder("assets_root", assets_root));
    t.push(placeholder("assets_index_name", assets_index_name));
    t.push(placeholder("auth_uuid", auth_uuid));
    t.push(placeholder("auth_access_token", access_token));
    t.push(placeholder("user_type", String::from_str("mojang")));
    t.push(placeholder("version_type", String::from_str("release")));
    t.push(placeholder("user_properties", String::from_str("{}")));
    t
}

/// Exit code reported when the process ended without one (killed by a
/// signal).
pub const EXIT_SENTINEL: i32 = -1;

/// The exit code to report for a finished game process.
pub fn reported_exit_code(code: Option<i32>) -> (r: i32)
    ensures
        code.is_some() ==> r == code.unwrap(),
        code.is_none() ==> r == EXIT_SENTINEL,
{
    match code {
        Some(c) => c,
        None => EXIT_SENTINEL,
    }
}

} // verus!

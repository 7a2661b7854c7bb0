//! Forge mod-loader version naming and the descriptor built from an
//! installer manifest.

use vstd::prelude::*;
use crate::maven::FORGE_MAVEN;
use crate::text::{parse_u32, split_char, split_on, strings_view, u32_value};
use crate::version::{
    installed_version_path, version_json_path, ArgEntry, Arguments, DownloadArtifact, GameVersion,
    Library, LibraryDownloads,
};

verus! {

/// Entry class of modern (1.13 and later) Forge.
pub const MODERN_MAIN_CLASS: &'static str = "cpw.mods.bootstraplauncher.BootstrapLauncher";

/// Entry class of legacy Forge.
pub const LEGACY_MAIN_CLASS: &'static str = "net.minecraft.launchwrapper.Launch";

/// A Forge release for a game release.
#[derive(Debug, Clone)]
pub struct ForgeVersion {
    pub version: String,
    pub minecraft_version: String,
    pub recommended: bool,
    pub latest: bool,
}

/// A Forge version installed in the game directory.
#[derive(Debug, Clone)]
pub struct InstalledForgeVersion {
    pub id: String,
    pub minecraft_version: String,
    pub forge_version: String,
    pub path: String,
}

/// Artifact of a library in an installer manifest.
#[derive(Debug, Clone)]
pub struct ForgeArtifact {
    pub path: Option<String>,
    pub url: Option<String>,
    pub sha1: Option<String>,
}

/// Downloads of a library in an installer manifest.
#[derive(Debug, Clone)]
pub struct ForgeLibraryDownloads {
    pub artifact: Option<ForgeArtifact>,
}

/// A library in an installer manifest.
#[derive(Debug, Clone)]
pub struct ForgeLibrary {
    pub name: String,
    pub downloads: Option<ForgeLibraryDownloads>,
    pub url: Option<String>,
}

/// Argument templates in an installer manifest.
#[derive(Debug, Clone)]
pub struct ForgeArguments {
    pub game: Option<Vec<ArgEntry>>,
    pub jvm: Option<Vec<ArgEntry>>,
}

/// The version descriptor inside a Forge installer.
#[derive(Debug, Clone)]
pub struct ForgeInstallerManifest {
    pub id: Option<String>,
    pub inherits_from: Option<String>,
    pub main_class: Option<String>,
    pub libraries: Vec<ForgeLibrary>,
    pub arguments: Option<ForgeArguments>,
}

/// Id of the Forge version for a game release and Forge release.
pub open spec fn forge_version_id(game_version: Seq<char>, forge_version: Seq<char>) -> Seq<char> {
    game_version + "-forge-"@ + forge_version
}

/// `<game>-forge-<forge>`.
pub fn generate_version_id(game_version: &str, forge_version: &str) -> (r: String)
    ensures
        r@ == forge_version_id(game_version@, forge_version@),
{
    let mut s = String::from_str(game_version);
    s.append("-forge-");
    s.append(forge_version);
    s
}

/// A game release is modern (1.13 or later) when its first two dot-separated
/// parts are numbers with major above 1, or major 1 and minor at least 13.
pub open spec fn modern_release(game_version: Seq<char>) -> bool {
    let parts = split_char(game_version, '.');
    parts.len() >= 2 && u32_value(parts[0]).is_some() && u32_value(parts[1]).is_some() && ({
        let major = u32_value(parts[0]).unwrap();
        let minor = u32_value(parts[1]).unwrap();
        major > 1 || (major == 1 && minor >= 13)
    })
}

/// Whether the game release uses modern Forge.
pub fn is_modern_forge(game_version: &str) -> (r: bool)
    ensures
        r == modern_release(game_version@),
{
    let parts = split_on(game_version, '.');
    let ghost views = parts@.map_values(|x: String| x@);
    if parts.len() < 2 {
        return false;
    }
    assert(views[0] == parts@[0]@);
    assert(views[1] == parts@[1]@);
    match (parse_u32(parts[0].as_str()), parse_u32(parts[1].as_str())) {
        (Some(major), Some(minor)) => major > 1 || (major == 1 && minor >= 13),
        _ => false,
    }
}

/// Default entry class for a game release.
pub open spec fn default_main_class(game_version: Seq<char>) -> Seq<char> {
    if modern_release(game_version) {
        MODERN_MAIN_CLASS@
    } else {
        LEGACY_MAIN_CLASS@
    }
}

fn default_main(game_version: &str) -> (r: String)
    ensures
        r@ == default_main_class(game_version@),
{
    if is_modern_forge(game_version) {
        String::from_str(MODERN_MAIN_CLASS)
    } else {
        String::from_str(LEGACY_MAIN_CLASS)
    }
}

/// How a manifest library appears in the descriptor: its name, its own
/// repository or the Forge one, and its artifact when the manifest gives
/// the artifact's URL.
pub open spec fn is_library_of(out: Library, lib: ForgeLibrary) -> bool {
    &&& out.name == lib.name
    &&& out.rules.is_none()
    &&& out.natives.is_none()
    &&& out.url.is_some()
    &&& out.url.unwrap()@ == match lib.url {
        Some(u) => u@,
        None => FORGE_MAVEN@,
    }
    &&& match lib.downloads {
        Some(d) => match d.artifact {
            Some(a) => match a.url {
                Some(u) => out.downloads == Some(
                    LibraryDownloads {
                        artifact: Some(DownloadArtifact { sha1: a.sha1, size: None, url: u, path: a.path }),
                        classifiers: None,
                    },
                ),
                None => out.downloads.is_none(),
            },
            None => out.downloads.is_none(),
        },
        None => out.downloads.is_none(),
    }
}

fn convert_library(lib: ForgeLibrary) -> (r: Library)
    ensures
        is_library_of(r, lib),
{
    let url = match lib.url {
        Some(u) => u,
        None => String::from_str(FORGE_MAVEN),
    };
    let downloads = match lib.downloads {
        Some(d) => match d.artifact {
            Some(a) => match a.url {
                Some(u) => Some(
                    LibraryDownloads {
                        artifact: Some(DownloadArtifact { sha1: a.sha1, size: None, url: u, path: a.path }),
                        classifiers: None,
                    },
                ),
                None => None,
            },
            None => None,
        },
        None => None,
    };
    Library { downloads, name: lib.name, rules: None, natives: None, url: Some(url) }
}

/// Whether `r` is the descriptor built from an installer manifest.
pub open spec fn is_forge_descriptor(
    r: GameVersion,
    game_version: Seq<char>,
    forge_version: Seq<char>,
    m: ForgeInstallerManifest,
) -> bool {
    &&& r.id@ == forge_version_id(game_version, forge_version)
    &&& r.inherits_from.is_some()
    &&& r.inherits_from.unwrap()@ == match m.inherits_from {
        Some(p) => p@,
        None => game_version,
    }
    &&& r.version_type.is_some() && r.version_type.unwrap()@ == "release"@
    &&& r.main_class@ == match m.main_class {
        Some(c) => c@,
        None => default_main_class(game_version),
    }
    &&& r.libraries@.len() == m.libraries@.len()
    &&& forall|k: int| 0 <= k < m.libraries@.len() ==> is_library_of(r.libraries@[k], m.libraries@[k])
    &&& r.arguments.is_some()
    &&& r.arguments.unwrap().game.is_some()
    &&& r.arguments.unwrap().game.unwrap()@ == match m.arguments {
        Some(a) => match a.game {
            Some(g) => g@,
            None => Seq::empty(),
        },
        None => Seq::empty(),
    }
    &&& r.arguments.unwrap().jvm.is_some()
    &&& r.arguments.unwrap().jvm.unwrap()@ == match m.arguments {
        Some(a) => match a.jvm {
            Some(j) => j@,
            None => Seq::empty(),
        },
        None => Seq::empty(),
    }
    &&& r.downloads.is_none() && r.asset_index.is_none() && r.minecraft_arguments.is_none()
    &&& r.java_version.is_none() && r.assets.is_none()
}

/// The descriptor of a Forge version, built from its installer manifest; it
/// inherits from the game release.
pub fn create_forge_version_json_from_manifest(
    game_version: &str,
    forge_version: &str,
    manifest: ForgeInstallerManifest,
) -> (r: GameVersion)
    ensures
        is_forge_descriptor(r, game_version@, forge_version@, manifest),
{
    let main_class = match manifest.main_class {
        Some(c) => c,
        None => default_main(game_version),
    };
    let inherits = match manifest.inherits_from {
        Some(p) => p,
        None => String::from_str(game_version),
    };
    let mut libraries: Vec<Library> = Vec::new();
    let mut rest = manifest.libraries;
    let ghost libs0 = rest@;
    while rest.len() > 0
        invariant
            libraries@.len() + rest@.len() == libs0.len(),
            forall|k: int| 0 <= k < libraries@.len() ==> is_library_of(libraries@[k], libs0[k]),
            rest@ == libs0.subrange(libraries@.len() as int, libs0.len() as int),
        decreases rest@.len(),
    {
        let lib = rest.remove(0);
        libraries.push(convert_library(lib));
    }
    let (game, jvm) = match manifest.arguments {
        Some(a) => (
            match a.game {
                Some(g) => g,
                None => Vec::new(),
            },
            match a.jvm {
                Some(j) => j,
                None => Vec::new(),
            },
        ),
        None => (Vec::new(), Vec::new()),
    };
    GameVersion {
        id: generate_version_id(game_version, forge_version),
        downloads: None,
        asset_index: None,
        libraries,
        main_class,
        minecraft_arguments: None,
        arguments: Some(Arguments { game: Some(game), jvm: Some(jvm) }),
        java_version: None,
        inherits_from: Some(inherits),
        assets: None,
        version_type: Some(String::from_str("release")),
    }
}

/// A descriptor built without an installer manifest: every library comes
/// from the Forge repository and the entry class follows the game release.
pub fn create_forge_version_json(game_version: &str, forge_version: &str, libraries: &Vec<ForgeLibrary>) -> (r:
    GameVersion)
    ensures
        r.id@ == forge_version_id(game_version@, forge_version@),
        r.inherits_from.is_some() && r.inherits_from.unwrap()@ == game_version@,
        r.version_type.is_some() && r.version_type.unwrap()@ == "release"@,
        r.main_class@ == default_main_class(game_version@),
        r.libraries@.len() == libraries@.len(),
        forall|k: int|
            0 <= k < libraries@.len() ==> (#[trigger] r.libraries@[k]).name == libraries@[k].name
                && r.libraries@[k].url.is_some() && r.libraries@[k].url.unwrap()@ == FORGE_MAVEN@
                && r.libraries@[k].downloads.is_none() && r.libraries@[k].rules.is_none(),
        r.arguments.is_some(),
        r.arguments.unwrap().game.is_some() && r.arguments.unwrap().game.unwrap()@.len() == 0,
        r.arguments.unwrap().jvm.is_some() && r.arguments.unwrap().jvm.unwrap()@.len() == 0,
{
    let mut libs: Vec<Library> = Vec::new();
    let mut i: usize = 0;
    while i < libraries.len()
        invariant
            i <= libraries@.len(),
            libs@.len() == i,
            forall|k: int|
                0 <= k < i ==> (#[trigger] libs@[k]).name == libraries@[k].name && libs@[k].url.is_some()
                    && libs@[k].url.unwrap()@ == FORGE_MAVEN@ && libs@[k].downloads.is_none()
                    && libs@[k].rules.is_none(),
        decreases libraries@.len() - i,
    {
        libs.push(
            Library {
                downloads: None,
                name: libraries[i].name.clone(),
                rules: None,
                natives: None,
                url: Some(String::from_str(FORGE_MAVEN)),
            },
        );
        i = i + 1;
    }
    GameVersion {
        id: generate_version_id(game_version, forge_version),
        downloads: None,
        asset_index: None,
        libraries: libs,
        main_class: default_main(game_version),
        minecraft_arguments: None,
        arguments: Some(Arguments { game: Some(Vec::new()), jvm: Some(Vec::new()) }),
        java_version: None,
        inherits_from: Some(String::from_str(game_version)),
        assets: None,
        version_type: Some(String::from_str("release")),
    }
}

/// Where the descriptor of the Forge version is stored; the version counts
/// as installed when this file exists.
pub fn installed_json_path(game_dir: &str, game_version: &str, forge_version: &str) -> (r: String)
    ensures
        r@ == version_json_path(game_dir@, forge_version_id(game_version@, forge_version@)),
{
    let id = generate_version_id(game_version, forge_version);
    installed_version_path(game_dir, id.as_str())
}

/// Key of a promotion entry: `<game>-recommended` or `<game>-latest`.
pub open spec fn promo_key_of(game_version: Seq<char>, recommended: bool) -> Seq<char> {
    game_version + if recommended {
        "-recommended"@
    } else {
        "-latest"@
    }
}

/// Key under which the promotions list the latest or recommended release.
pub fn promo_key(game_version: &str, recommended: bool) -> (r: String)
    ensures
        r@ == promo_key_of(game_version@, recommended),
{
    let mut s = String::from_str(game_version);
    if recommended {
        s.append("-recommended");
    } else {
        s.append("-latest");
    }
    s
}

/// Whether `v` describes Forge release `version` for game release `game`
/// with the given promotion marks.
pub open spec fn is_forge_version(v: ForgeVersion, version: Seq<char>, game: Seq<char>, rec: bool, latest: bool) -> bool {
    v.version@ == version && v.minecraft_version@ == game && v.recommended == rec && v.latest == latest
}

/// The Forge releases promoted for a game release: the latest one, then the
/// recommended one; one entry marked as both when they are the same.
pub fn forge_versions_from_promotions(
    game_version: &str,
    latest: Option<String>,
    recommended: Option<String>,
) -> (r: Vec<ForgeVersion>)
    ensures
        latest.is_none() && recommended.is_none() ==> r@.len() == 0,
        latest.is_some() && recommended.is_none() ==> r@.len() == 1 && is_forge_version(
            r@[0],
            latest.unwrap()@,
            game_version@,
            false,
            true,
        ),
        latest.is_none() && recommended.is_some() ==> r@.len() == 1 && is_forge_version(
            r@[0],
            recommended.unwrap()@,
            game_version@,
            true,
            false,
        ),
        latest.is_some() && recommended.is_some() && latest.unwrap()@ == recommended.unwrap()@ ==> r@.len()
            == 1 && is_forge_version(r@[0], latest.unwrap()@, game_version@, true, true),
        latest.is_some() && recommended.is_some() && latest.unwrap()@ != recommended.unwrap()@ ==> r@.len()
            == 2 && is_forge_version(r@[0], latest.unwrap()@, game_version@, false, true)
            && is_forge_version(r@[1], recommended.unwrap()@, game_version@, true, false),
{
    let mut out: Vec<ForgeVersion> = Vec::new();
    match recommended {
        Some(rec) => match latest {
            Some(l) => {
                if crate::text::str_eq(l.as_str(), rec.as_str()) {
                    out.push(
                        ForgeVersion {
                            version: l,
                            minecraft_version: String::from_str(game_version),
                            recommended: true,
                            latest: true,
                        },
                    );
                } else {
                    out.push(
                        ForgeVersion {
                            version: l,
                            minecraft_version: String::from_str(game_version),
                            recommended: false,
                            latest: true,
                        },
                    );
                    out.push(
                        ForgeVersion {
                            version: rec,
                            minecraft_version: String::from_str(game_version),
                            recommended: true,
                            latest: false,
                        },
                    );
                }
            },
            None => {
                out.push(
                    ForgeVersion {
                        version: rec,
                        minecraft_version: String::from_str(game_version),
                        recommended: true,
                        latest: false,
                    },
                );
            },
        },
        None => match latest {
            Some(l) => {
                out.push(
                    ForgeVersion {
                        version: l,
                        minecraft_version: String::from_str(game_version),
                        recommended: false,
                        latest: true,
                    },
                );
            },
            None => {},
        },
    }
    out
}

/// Strict lexicographic order of character sequences (by code point).
pub open spec fn seq_less(a: Seq<char>, b: Seq<char>) -> bool
    decreases a.len(),
{
    if b.len() == 0 {
        false
    } else if a.len() == 0 {
        true
    } else if a[0] != b[0] {
        a[0] < b[0]
    } else {
        seq_less(a.subrange(1, a.len() as int), b.subrange(1, b.len() as int))
    }
}

/// The lexicographic order is transitive.
pub proof fn lemma_seq_less_trans(a: Seq<char>, b: Seq<char>, c: Seq<char>)
    requires
        seq_less(a, b),
        seq_less(b, c),
    ensures
        seq_less(a, c),
    decreases a.len(),
{
    if a.len() > 0 && b.len() > 0 && c.len() > 0 && a[0] == b[0] && b[0] == c[0] {
        lemma_seq_less_trans(
            a.subrange(1, a.len() as int),
            b.subrange(1, b.len() as int),
            c.subrange(1, c.len() as int),
        );
    }
}

/// The lexicographic order is total and strict.
pub proof fn lemma_seq_less_total(a: Seq<char>, b: Seq<char>)
    ensures
        a == b || seq_less(a, b) || seq_less(b, a),
        !(seq_less(a, b) && seq_less(b, a)),
        !seq_less(a, a),
    decreases a.len(),
{
    if a.len() > 0 && b.len() > 0 && a[0] == b[0] {
        let ta = a.subrange(1, a.len() as int);
        let tb = b.subrange(1, b.len() as int);
        lemma_seq_less_total(ta, tb);
        if ta == tb {
            assert forall|i: int| 0 <= i < a.len() implies a[i] == b[i] by {
                if i > 0 {
                    assert(a[i] == ta[i - 1]);
                    assert(b[i] == tb[i - 1]);
                }
            }
            assert(a =~= b);
        }
    } else if a.len() > 0 && b.len() > 0 {
        lemma_seq_less_total(a.subrange(1, a.len() as int), a.subrange(1, a.len() as int));
    } else if a.len() == 0 && b.len() == 0 {
        assert(a =~= b);
    } else if a.len() > 0 {
        lemma_seq_less_total(a.subrange(1, a.len() as int), a.subrange(1, a.len() as int));
    }
}

/// Compares two strings in lexicographic order.
fn str_less(a: &str, b: &str) -> (r: bool)
    ensures
        r == seq_less(a@, b@),
{
    let n = a.unicode_len();
    let m = b.unicode_len();
    let mut i: usize = 0;
    assert(a@.subrange(0, n as int) == a@);
    assert(b@.subrange(0, m as int) == b@);
    while i < n && i < m
        invariant
            n == a@.len(),
            m == b@.len(),
            i <= n && i <= m,
            seq_less(a@, b@) == seq_less(a@.subrange(i as int, n as int), b@.subrange(i as int, m as int)),
        decreases n - i,
    {
        let x = a.get_char(i);
        let y = b.get_char(i);
        let ghost ta = a@.subrange(i as int, n as int);
        let ghost tb = b@.subrange(i as int, m as int);
        assert(ta[0] == x && tb[0] == y);
        if x != y {
            return x < y;
        }
        assert(ta.subrange(1, ta.len() as int) == a@.subrange(i + 1, n as int));
        assert(tb.subrange(1, tb.len() as int) == b@.subrange(i + 1, m as int));
        i = i + 1;
    }
    i == n && i < m
}

/// The first `-`-separated part of a promotion key, when it has at least two.
pub open spec fn key_release(key: Seq<char>) -> Option<Seq<char>> {
    let parts = split_char(key, '-');
    if parts.len() >= 2 {
        Some(parts[0])
    } else {
        None
    }
}

/// Whether the sequence is strictly decreasing (so free of repeats).
pub open spec fn strictly_descending(v: Seq<Seq<char>>) -> bool {
    forall|i: int, j: int| 0 <= i < j < v.len() ==> seq_less(v[j], v[i])
}

/// Whether some promotion key names release `x`.
pub open spec fn released_by(x: Seq<char>, keys: Seq<String>) -> bool {
    exists|q: int| 0 <= q < keys.len() && key_release(keys[q]@) == Some(x)
}

/// Whether `x` is one of `v`.
pub open spec fn contains_view(v: Seq<Seq<char>>, x: Seq<char>) -> bool {
    exists|i: int| 0 <= i < v.len() && v[i] == x
}

/// The game releases that promotion keys name, each once, newest
/// (lexicographically greatest) first.
pub fn game_versions_from_promotions(keys: &Vec<String>) -> (r: Vec<String>)
    ensures
        strictly_descending(strings_view(r@)),
        forall|i: int| 0 <= i < r@.len() ==> released_by(#[trigger] strings_view(r@)[i], keys@),
        forall|k: int|
            0 <= k < keys@.len() && key_release(#[trigger] keys@[k]@).is_some() ==> contains_view(
                strings_view(r@),
                key_release(keys@[k]@).unwrap(),
            ),
{
    let mut out: Vec<String> = Vec::new();
    let mut k: usize = 0;
    while k < keys.len()
        invariant
            k <= keys@.len(),
            strictly_descending(strings_view(out@)),
            forall|i: int| 0 <= i < out@.len() ==> released_by(#[trigger] strings_view(out@)[i], keys@),
            forall|q: int|
                0 <= q < k && key_release(#[trigger] keys@[q]@).is_some() ==> contains_view(
                    strings_view(out@),
                    key_release(keys@[q]@).unwrap(),
                ),
        decreases keys@.len() - k,
    {
        let parts = split_on(keys[k].as_str(), '-');
        proof {
            crate::text::lemma_split_len_pos(keys@[k as int]@, '-');
        }
        if parts.len() >= 2 {
            let ghost pv = parts@.map_values(|x: String| x@);
            assert(pv[0] == parts@[0]@);
            let release = parts[0].clone();
            let ghost rv = release@;
            assert(key_release(keys@[k as int]@) == Some(rv));
            let ghost before = strings_view(out@);
            let mut pos: usize = 0;
            while pos < out.len() && str_less(release.as_str(), out[pos].as_str())
                invariant
                    before == strings_view(out@),
                    release@ == rv,
                    pos <= out@.len(),
                    forall|i: int| 0 <= i < pos ==> seq_less(rv, #[trigger] before[i]),
                decreases out@.len() - pos,
            {
                assert(before[pos as int] == out@[pos as int]@);
                pos = pos + 1;
            }
            let present = pos < out.len() && !str_less(out[pos].as_str(), release.as_str());
            proof {
                if pos < before.len() {
                    assert(before[pos as int] == out@[pos as int]@);
                    lemma_seq_less_total(rv, before[pos as int]);
                }
            }
            if present {
                assert(before[pos as int] == rv);
                assert forall|q: int|
                    0 <= q < k + 1 && key_release(#[trigger] keys@[q]@).is_some() implies contains_view(
                    strings_view(out@),
                    key_release(keys@[q]@).unwrap(),
                ) by {
                    if q == k {
                        assert(strings_view(out@)[pos as int] == rv);
                    }
                }
            } else {
                proof {
                    assert forall|i: int| pos <= i < before.len() implies seq_less(before[i], rv) by {
                        lemma_seq_less_total(rv, before[pos as int]);
                        lemma_seq_less_total(rv, before[i]);
                        if i > pos {
                            lemma_seq_less_trans(before[i], before[pos as int], rv);
                        }
                    }
                }
                out.insert(pos, release);
                let ghost after = strings_view(out@);
                assert(after == before.insert(pos as int, rv));
                assert forall|i: int, j: int| 0 <= i < j < after.len() implies seq_less(after[j], after[i]) by {
                    if j < pos {
                    } else if j == pos {
                    } else if i < pos {
                        assert(after[j] == before[j - 1]);
                        if j - 1 >= pos {
                            assert(seq_less(before[j - 1], rv));
                            lemma_seq_less_trans(before[j - 1], rv, before[i]);
                        }
                    } else if i == pos {
                        assert(after[j] == before[j - 1]);
                    } else {
                        assert(after[i] == before[i - 1]);
                        assert(after[j] == before[j - 1]);
                    }
                }
                assert forall|i: int| 0 <= i < out@.len() implies released_by(#[trigger] strings_view(out@)[i], keys@) by {
                    if i < pos {
                        assert(after[i] == before[i]);
                        assert(released_by(before[i], keys@));
                    } else if i == pos {
                        assert(key_release(keys@[k as int]@) == Some(after[i]));
                    } else {
                        assert(after[i] == before[i - 1]);
                        assert(released_by(before[i - 1], keys@));
                    }
                }
                assert forall|q: int|
                    0 <= q < k + 1 && key_release(#[trigger] keys@[q]@).is_some() implies contains_view(
                    after,
                    key_release(keys@[q]@).unwrap(),
                ) by {
                    if q < k {
                        let x = key_release(keys@[q]@).unwrap();
                        assert(contains_view(before, x));
                        let i0 = choose|i: int| 0 <= i < before.len() && before[i] == x;
                        if i0 < pos {
                            assert(after[i0] == before[i0]);
                        } else {
                            assert(after[i0 + 1] == before[i0]);
                        }
                    } else {
                        assert(after[pos as int] == rv);
                    }
                }
            }
        }
        k = k + 1;
    }
    out
}

} // verus!

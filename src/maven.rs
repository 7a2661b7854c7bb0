//! Maven coordinates (`group:artifact:version[:classifier][@extension]`),
//! their repository-relative paths and download URLs.

use vstd::prelude::*;
use crate::text::{
    find_last, join, join_path, last_index_of, occurs_at, replace_char,
    replace_chars, split_char, split_on, starts_with, trim_end, trim_end_char,
};

verus! {

pub const MAVEN_CENTRAL: &'static str = "https://repo1.maven.org/maven2/";

pub const FABRIC_MAVEN: &'static str = "https://maven.fabricmc.net/";

pub const FORGE_MAVEN: &'static str = "https://maven.minecraftforge.net/";

pub const MOJANG_LIBRARIES: &'static str = "https://libraries.minecraft.net/";

/// A parsed Maven coordinate.
#[derive(Debug, Clone, PartialEq)]
pub struct MavenCoordinate {
    pub group: String,
    pub artifact: String,
    pub version: String,
    pub classifier: Option<String>,
    pub extension: String,
}

/// The part of a coordinate before its last `@` (all of it when none).
pub open spec fn coord_body(s: Seq<char>) -> Seq<char> {
    let at = last_index_of(s, '@');
    if at < 0 {
        s
    } else {
        s.subrange(0, at)
    }
}

/// The extension: what follows the last `@`, else `jar`.
pub open spec fn coord_extension(s: Seq<char>) -> Seq<char> {
    let at = last_index_of(s, '@');
    if at < 0 {
        "jar"@
    } else {
        s.subrange(at + 1, s.len() as int)
    }
}

/// The colon-separated segments of the coordinate body.
pub open spec fn coord_segments(s: Seq<char>) -> Seq<Seq<char>> {
    split_char(coord_body(s), ':')
}

/// A coordinate parses exactly when its body has three or four segments.
pub open spec fn coord_parses(s: Seq<char>) -> bool {
    coord_segments(s).len() == 3 || coord_segments(s).len() == 4
}

/// Whether `c` is what parsing `s` yields, for a coordinate that parses.
pub open spec fn parsed_as(c: MavenCoordinate, s: Seq<char>) -> bool {
    let parts = coord_segments(s);
    &&& c.group@ == parts[0]
    &&& c.artifact@ == parts[1]
    &&& c.version@ == parts[2]
    &&& c.extension@ == coord_extension(s)
    &&& match c.classifier {
        None => parts.len() == 3,
        Some(cl) => parts.len() == 4 && cl@ == parts[3],
    }
}

/// File name of an artifact: `artifact-version[-classifier].extension`.
pub open spec fn file_name_from(
    artifact: Seq<char>,
    version: Seq<char>,
    classifier: Option<Seq<char>>,
    extension: Seq<char>,
) -> Seq<char> {
    let stem = artifact + "-"@ + version;
    let stem = match classifier {
        None => stem,
        Some(cl) => stem + "-"@ + cl,
    };
    stem + "."@ + extension
}

/// Repository-relative path: the group with dots as slashes, then artifact,
/// version and file name.
pub open spec fn path_from(
    group: Seq<char>,
    artifact: Seq<char>,
    version: Seq<char>,
    classifier: Option<Seq<char>>,
    extension: Seq<char>,
) -> Seq<char> {
    replace_char(group, '.', '/') + "/"@ + artifact + "/"@ + version + "/"@ + file_name_from(
        artifact,
        version,
        classifier,
        extension,
    )
}

/// Repository-relative path of a coordinate.
pub open spec fn path_of(c: MavenCoordinate) -> Seq<char> {
    path_from(
        c.group@,
        c.artifact@,
        c.version@,
        match c.classifier {
            None => None,
            Some(cl) => Some(cl@),
        },
        c.extension@,
    )
}

/// Repository-relative path of the coordinate written `name`.
pub open spec fn name_path(name: Seq<char>) -> Seq<char> {
    let parts = coord_segments(name);
    path_from(
        parts[0],
        parts[1],
        parts[2],
        if parts.len() == 4 {
            Some(parts[3])
        } else {
            None
        },
        coord_extension(name),
    )
}

/// Download URL: the base without trailing slashes, one slash, the path.
pub open spec fn url_of(c: MavenCoordinate, base: Seq<char>) -> Seq<char> {
    trim_end_char(base, '/') + "/"@ + path_of(c)
}

/// Repository guessed from the group name.
pub open spec fn default_repository(group: Seq<char>) -> Seq<char> {
    if occurs_at(group, "net.fabricmc"@, 0) {
        FABRIC_MAVEN@
    } else if occurs_at(group, "net.minecraftforge"@, 0) || occurs_at(group, "cpw.mods"@, 0) {
        FORGE_MAVEN@
    } else {
        MOJANG_LIBRARIES@
    }
}

/// View of an optional string slice.
pub open spec fn opt_view(o: Option<&str>) -> Option<Seq<char>> {
    match o {
        None => None,
        Some(s) => Some(s@),
    }
}

/// Download URL of the library whose coordinate is written `name`, when no
/// explicit URL is given: under the hinted repository, else the guessed one.
pub open spec fn library_url(name: Seq<char>, hint: Option<Seq<char>>) -> Seq<char> {
    let base = match hint {
        Some(h) => h,
        None => default_repository(coord_segments(name)[0]),
    };
    trim_end_char(base, '/') + "/"@ + name_path(name)
}

impl MavenCoordinate {
    /// Parses `group:artifact:version[:classifier][@extension]`.
    pub fn parse(coord: &str) -> (r: Option<MavenCoordinate>)
        ensures
            r.is_some() == coord_parses(coord@),
            r.is_some() ==> parsed_as(r.unwrap(), coord@),
    {
        let (body, extension) = match find_last(coord, '@') {
            Some(at) => {
                let n = coord.unicode_len();
                (coord.substring_char(0, at), String::from_str(coord.substring_char(at + 1, n)))
            },
            None => (coord, String::from_str("jar")),
        };
        assert(body@ == coord_body(coord@));
        assert(extension@ == coord_extension(coord@));
        let mut parts = split_on(body, ':');
        let ghost views = parts@.map_values(|x: String| x@);
        assert(views.len() == parts@.len());
        if parts.len() == 3 {
            let version = parts.pop().unwrap();
            let artifact = parts.pop().unwrap();
            let group = parts.pop().unwrap();
            assert(group@ == views[0]);
            assert(artifact@ == views[1]);
            assert(version@ == views[2]);
            Some(MavenCoordinate { group, artifact, version, classifier: None, extension })
        } else if parts.len() == 4 {
            let classifier = parts.pop().unwrap();
            let version = parts.pop().unwrap();
            let artifact = parts.pop().unwrap();
            let group = parts.pop().unwrap();
            assert(group@ == views[0]);
            assert(artifact@ == views[1]);
            assert(version@ == views[2]);
            assert(classifier@ == views[3]);
            Some(
                MavenCoordinate { group, artifact, version, classifier: Some(classifier), extension },
            )
        } else {
            None
        }
    }

    /// Repository-relative path of the artifact.
    pub fn to_path(&self) -> (r: String)
        ensures
            r@ == path_of(*self),
    {
        proof {
            reveal_strlit("/");
        }
        let mut out = replace_chars(self.group.as_str(), '.', "/");
        out.append("/");
        out.append(self.artifact.as_str());
        out.append("/");
        out.append(self.version.as_str());
        out.append("/");
        out.append(self.artifact.as_str());
        out.append("-");
        out.append(self.version.as_str());
        match &self.classifier {
            Some(cl) => {
                out.append("-");
                out.append(cl.as_str());
            },
            None => {},
        }
        out.append(".");
        out.append(self.extension.as_str());
        assert(out@ =~= path_of(*self));
        out
    }

    /// Where the artifact is stored under `libraries_dir`.
    pub fn to_local_path(&self, libraries_dir: &str) -> (r: String)
        ensures
            r@ == join_path(libraries_dir@, path_of(*self)),
    {
        let rel = self.to_path();
        join(libraries_dir, rel.as_str())
    }

    /// Full download URL of the artifact under the repository `base_url`.
    pub fn to_url(&self, base_url: &str) -> (r: String)
        ensures
            r@ == url_of(*self, base_url@),
    {
        let mut out = String::from_str(trim_end(base_url, '/'));
        out.append("/");
        let rel = self.to_path();
        out.append(rel.as_str());
        out
    }
}

fn guess_repository(group: &str) -> (r: &'static str)
    ensures
        r@ == default_repository(group@),
{
    if starts_with(group, "net.fabricmc") {
        FABRIC_MAVEN
    } else if starts_with(group, "net.minecraftforge") || starts_with(group, "cpw.mods") {
        FORGE_MAVEN
    } else {
        MOJANG_LIBRARIES
    }
}

/// Resolves the download URL of a library: `None` only when no explicit URL
/// is given and `name` is not a coordinate.
pub fn resolve_library_url(name: &str, explicit_url: Option<&str>, maven_url: Option<&str>) -> (r:
    Option<String>)
    ensures
        explicit_url.is_some() ==> r.is_some() && r.unwrap()@ == explicit_url.unwrap()@,
        explicit_url.is_none() ==> r.is_some() == coord_parses(name@),
        explicit_url.is_none() && r.is_some() ==> r.unwrap()@ == library_url(name@, opt_view(maven_url)),
{
    if let Some(url) = explicit_url {
        return Some(String::from_str(url));
    }
    let coord = match MavenCoordinate::parse(name) {
        Some(c) => c,
        None => {
            return None;
        },
    };
    let base = match maven_url {
        Some(u) => u,
        None => guess_repository(coord.group.as_str()),
    };
    let r = coord.to_url(base);
    assert(path_of(coord) == name_path(name@));
    Some(r)
}

/// Local storage path of the library named `name` under `libraries_dir`.
pub fn get_library_path(name: &str, libraries_dir: &str) -> (r: Option<String>)
    ensures
        r.is_some() == coord_parses(name@),
        r.is_some() ==> r.unwrap()@ == join_path(libraries_dir@, name_path(name@)),
{
    let coord = MavenCoordinate::parse(name)?;
    assert(path_of(coord) == name_path(name@));
    Some(coord.to_local_path(libraries_dir))
}

} // verus!

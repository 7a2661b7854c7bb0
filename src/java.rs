//! Java runtime facts that the launch needs: version strings, the major
//! version they denote, and the choice of an installation.

use vstd::prelude::*;
use crate::rules::Platform;
use crate::text::{decimal, decimal_string};
use crate::text::{
    contains_seq, contains_str, first_char_index, parse_u32, split_char, split_on,
    u32_value,
};

verus! {

/// A detected Java installation.
#[derive(Debug, Clone)]
pub struct JavaInstallation {
    pub path: String,
    pub version: String,
    pub is_64bit: bool,
}

/// Java image type: runtime only or full development kit.
#[derive(Debug, Clone, Copy, PartialEq, Eq, Structural)]
pub enum ImageType {
    Jre,
    Jdk,
}

/// Name of an image type at the distribution service.
pub open spec fn image_name(t: ImageType) -> Seq<char> {
    match t {
        ImageType::Jre => "jre"@,
        ImageType::Jdk => "jdk"@,
    }
}

impl ImageType {
    /// Name used by the distribution service.
    pub fn as_str(&self) -> (r: &'static str)
        ensures
            r@ == image_name(*self),
    {
        match self {
            ImageType::Jre => "jre",
            ImageType::Jdk => "jdk",
        }
    }
}

impl Default for ImageType {
    fn default() -> (r: Self)
        ensures
            r == ImageType::Jre,
    {
        ImageType::Jre
    }
}

/// Processor architecture of the host.
#[derive(Debug, Clone, Copy, PartialEq, Eq, Structural)]
pub enum Arch {
    X86_64,
    Aarch64,
    X86,
    Arm,
    Other,
}

/// Distribution service name of the host OS; Alpine Linux has its own.
pub fn get_adoptium_os(p: Platform, alpine: bool) -> (r: &'static str)
    ensures
        p == Platform::Linux && alpine ==> r@ == "alpine-linux"@,
        p == Platform::Linux && !alpine ==> r@ == "linux"@,
        p == Platform::MacOs ==> r@ == "mac"@,
        p == Platform::Windows ==> r@ == "windows"@,
        p == Platform::Other ==> r@ == "linux"@,
{
    match p {
        Platform::Linux => if alpine {
            "alpine-linux"
        } else {
            "linux"
        },
        Platform::MacOs => "mac",
        Platform::Windows => "windows",
        Platform::Other => "linux",
    }
}

/// Distribution service name of the host architecture (x64 by default).
pub fn get_adoptium_arch(a: Arch) -> (r: &'static str)
    ensures
        a == Arch::X86_64 ==> r@ == "x64"@,
        a == Arch::Aarch64 ==> r@ == "aarch64"@,
        a == Arch::X86 ==> r@ == "x86"@,
        a == Arch::Arm ==> r@ == "arm"@,
        a == Arch::Other ==> r@ == "x64"@,
{
    match a {
        Arch::X86_64 => "x64",
        Arch::Aarch64 => "aarch64",
        Arch::X86 => "x86",
        Arch::Arm => "arm",
        Arch::Other => "x64",
    }
}

/// The quoted text of a line: between its first `"` and the next one.
pub open spec fn quoted(line: Seq<char>) -> Option<Seq<char>> {
    let start = first_char_index(line, '"');
    if start < 0 {
        None
    } else {
        let rest = line.subrange(start + 1, line.len() as int);
        let end = first_char_index(rest, '"');
        if end < 0 {
            None
        } else {
            Some(rest.subrange(0, end))
        }
    }
}

/// The version of a line, when it mentions `version` and quotes a text.
pub open spec fn line_version(line: Seq<char>) -> Option<Seq<char>> {
    if contains_seq(line, "version"@) {
        quoted(line)
    } else {
        None
    }
}

/// The first version that some line gives.
pub open spec fn first_line_version(lines: Seq<Seq<char>>) -> Option<Seq<char>>
    decreases lines.len(),
{
    if lines.len() == 0 {
        None
    } else if line_version(lines[0]).is_some() {
        line_version(lines[0])
    } else {
        first_line_version(lines.subrange(1, lines.len() as int))
    }
}

fn quoted_text(line: &str) -> (r: Option<String>)
    ensures
        match r {
            None => quoted(line@).is_none(),
            Some(s) => quoted(line@) == Some(s@),
        },
{
    let n = line.unicode_len();
    let start = match crate::text::find_first(line, '"') {
        None => {
            return None;
        },
        Some(s) => s,
    };
    let rest = line.substring_char(start + 1, n);
    match crate::text::find_first(rest, '"') {
        None => None,
        Some(e) => Some(String::from_str(rest.substring_char(0, e))),
    }
}

/// The version quoted on the first line of `java -version` output that
/// mentions `version`.
pub fn parse_version_string(output: &str) -> (r: Option<String>)
    ensures
        match r {
            None => first_line_version(split_char(output@, '\n')).is_none(),
            Some(s) => first_line_version(split_char(output@, '\n')) == Some(s@),
        },
{
    let lines = split_on(output, '\n');
    let ghost views = lines@.map_values(|x: String| x@);
    let mut i: usize = 0;
    assert(views.subrange(0, views.len() as int) == views);
    while i < lines.len()
        invariant
            i <= lines@.len(),
            views == lines@.map_values(|x: String| x@),
            views == split_char(output@, '\n'),
            first_line_version(views) == first_line_version(views.subrange(i as int, views.len() as int)),
        decreases lines@.len() - i,
    {
        let ghost rest = views.subrange(i as int, views.len() as int);
        assert(rest[0] == lines@[i as int]@);
        assert(rest.subrange(1, rest.len() as int) == views.subrange(i + 1, views.len() as int));
        let line = lines[i].as_str();
        if contains_str(line, "version") {
            match quoted_text(line) {
                Some(v) => {
                    return Some(v);
                },
                None => {},
            }
        }
        i = i + 1;
    }
    None
}

/// Major version of a Java version string: the second part of the old
/// `1.x` scheme, else the first part; 0 when that part is not a number.
pub open spec fn java_major(version: Seq<char>) -> u32 {
    let parts = split_char(version, '.');
    if parts[0] == "1"@ {
        if parts.len() >= 2 && u32_value(parts[1]).is_some() {
            u32_value(parts[1]).unwrap()
        } else {
            0
        }
    } else if u32_value(parts[0]).is_some() {
        u32_value(parts[0]).unwrap()
    } else {
        0
    }
}

/// Major version of a Java version string (`1.8.0_301` gives 8, `17.0.1`
/// gives 17).
pub fn parse_java_version(version: &str) -> (r: u32)
    ensures
        r == java_major(version@),
{
    let parts = split_on(version, '.');
    let ghost views = parts@.map_values(|x: String| x@);
    proof {
        crate::text::lemma_split_len_pos(version@, '.');
    }
    assert(views[0] == parts@[0]@);
    if crate::text::str_eq(parts[0].as_str(), "1") {
        if parts.len() >= 2 {
            assert(views[1] == parts@[1]@);
            match parse_u32(parts[1].as_str()) {
                Some(v) => v,
                None => 0,
            }
        } else {
            0
        }
    } else {
        match parse_u32(parts[0].as_str()) {
            Some(v) => v,
            None => 0,
        }
    }
}

/// Index of the first installation whose major version is at least
/// `required` (truncated to 32 bits), or -1.
pub open spec fn first_at_least(found: Seq<JavaInstallation>, required: u32) -> int
    decreases found.len(),
{
    if found.len() == 0 {
        -1
    } else if first_at_least(found.drop_last(), required) >= 0 {
        first_at_least(found.drop_last(), required)
    } else if java_major(found.last().version@) >= required {
        found.len() - 1
    } else {
        -1
    }
}

/// `first_at_least` is -1 or the first installation meeting the requirement.
pub proof fn lemma_first_at_least(found: Seq<JavaInstallation>, required: u32)
    ensures
        -1 <= first_at_least(found, required) < found.len(),
        first_at_least(found, required) >= 0 ==> java_major(found[first_at_least(found, required)].version@)
            >= required,
        forall|k: int|
            0 <= k < found.len() && (first_at_least(found, required) < 0 || k < first_at_least(found, required))
                ==> java_major(found[k].version@) < required,
    decreases found.len(),
{
    if found.len() > 0 {
        lemma_first_at_least(found.drop_last(), required);
        assert forall|k: int| 0 <= k < found.len() - 1 implies found[k] == found.drop_last()[k] by {}
    }
}

/// The installation to launch with: the first (in the given order, newest
/// first) whose major version meets the requirement, or the first of all
/// when nothing is required.
pub fn get_recommended_java(installations: Vec<JavaInstallation>, required_major_version: Option<u64>) -> (r:
    Option<JavaInstallation>)
    ensures
        required_major_version.is_none() ==> (r.is_some() <==> installations@.len() > 0),
        required_major_version.is_none() && installations@.len() > 0 ==> r == Some(installations@[0]),
        required_major_version.is_some() ==> ({
            let k = first_at_least(
                installations@,
                #[verifier::truncate]
                (required_major_version.unwrap() as u32),
            );
            if k < 0 {
                r.is_none()
            } else {
                r == Some(installations@[k])
            }
        }),
{
    match required_major_version {
        None => if installations.len() > 0 {
            let mut found = installations;
            Some(found.remove(0))
        } else {
            None
        },
        Some(required) => {
            let req = #[verifier::truncate]
            (required as u32);
            match first_meeting(&installations, req) {
                Some(i) => {
                    let mut found = installations;
                    Some(found.remove(i))
                },
                None => None,
            }
        },
    }
}

fn first_meeting(found: &Vec<JavaInstallation>, req: u32) -> (r: Option<usize>)
    ensures
        match r {
            None => first_at_least(found@, req) == -1,
            Some(i) => first_at_least(found@, req) == i as int && i < found@.len(),
        },
{
    proof {
        lemma_first_at_least(found@, req);
    }
    let mut i: usize = 0;
    while i < found.len()
        invariant
            i <= found@.len(),
            forall|k: int| 0 <= k < i ==> java_major(found@[k].version@) < req,
        decreases found@.len() - i,
    {
        if parse_java_version(found[i].version.as_str()) >= req {
            proof {
                lemma_first_at_least(found@, req);
            }
            return Some(i);
        }
        i = i + 1;
    }
    proof {
        lemma_first_at_least(found@, req);
    }
    None
}

/// Whether `x` is one of `v`.
pub open spec fn is_one_of(x: JavaInstallation, v: Seq<JavaInstallation>) -> bool {
    exists|k: int| 0 <= k < v.len() && v[k] == x
}

/// Whether some installation of `v` has path `p`.
pub open spec fn has_path(v: Seq<JavaInstallation>, p: Seq<char>) -> bool {
    exists|i: int| 0 <= i < v.len() && v[i].path@ == p
}

/// Whether no two installations share a path.
pub open spec fn distinct_paths(v: Seq<JavaInstallation>) -> bool {
    forall|i: int, j: int| 0 <= i < j < v.len() ==> v[i].path@ != v[j].path@
}

/// Whether installations are ordered newest major version first.
pub open spec fn newest_first(v: Seq<JavaInstallation>) -> bool {
    forall|i: int, j: int|
        0 <= i < j < v.len() ==> java_major(v[i].version@) >= java_major(v[j].version@)
}

fn find_path(v: &Vec<JavaInstallation>, path: &str) -> (r: bool)
    ensures
        r == exists|k: int| 0 <= k < v@.len() && v@[k].path@ == path@,
{
    let mut i: usize = 0;
    while i < v.len()
        invariant
            i <= v@.len(),
            forall|k: int| 0 <= k < i ==> v@[k].path@ != path@,
        decreases v@.len() - i,
    {
        if crate::text::str_eq(v[i].path.as_str(), path) {
            return true;
        }
        i = i + 1;
    }
    false
}

/// Orders detected installations: one per path (the first seen), newest
/// major version first, ties in detection order.
pub fn detect_java_installations(candidates: Vec<JavaInstallation>) -> (r: Vec<JavaInstallation>)
    ensures
        distinct_paths(r@),
        newest_first(r@),
        forall|i: int| 0 <= i < r@.len() ==> is_one_of(#[trigger] r@[i], candidates@),
        forall|k: int| 0 <= k < candidates@.len() ==> has_path(r@, #[trigger] candidates@[k].path@),
{
    let ghost input = candidates@;
    let mut rest = candidates;
    let mut out: Vec<JavaInstallation> = Vec::new();
    let mut majors: Vec<u32> = Vec::new();
    while rest.len() > 0
        invariant
            rest@.len() <= input.len(),
            rest@ == input.subrange(input.len() - rest@.len(), input.len() as int),
            majors@.len() == out@.len(),
            forall|i: int| 0 <= i < out@.len() ==> majors@[i] == java_major(#[trigger] out@[i].version@),
            distinct_paths(out@),
            newest_first(out@),
            forall|i: int| 0 <= i < out@.len() ==> is_one_of(#[trigger] out@[i], input),
            forall|k: int| 0 <= k < input.len() - rest@.len() ==> has_path(out@, #[trigger] input[k].path@),
        decreases rest@.len(),
    {
        let ghost done = input.len() - rest@.len();
        let c = rest.remove(0);
        assert(c == input[done]);
        if find_path(&out, c.path.as_str()) {
            assert forall|k: int| 0 <= k < done + 1 implies has_path(out@, #[trigger] input[k].path@) by {
                if k < done {
                } else {
                    assert(input[k] == c);
                }
            }
            continue;
        }
        let m = parse_java_version(c.version.as_str());
        let mut pos: usize = 0;
        while pos < out.len() && majors[pos] >= m
            invariant
                pos <= out@.len(),
                majors@.len() == out@.len(),
                forall|i: int| 0 <= i < pos ==> majors@[i] >= m,
            decreases out@.len() - pos,
        {
            pos = pos + 1;
        }
        let ghost before = out@;
        let ghost majors_before = majors@;
        proof {
            assert forall|i: int| pos <= i < before.len() implies majors_before[i] < m by {
                assert(majors_before[pos as int] < m);
                if i > pos {
                    assert(java_major(before[pos as int].version@) >= java_major(before[i].version@));
                }
            }
        }
        out.insert(pos, c);
        majors.insert(pos, m);
        assert(out@ == before.insert(pos as int, c));
        assert forall|i: int, j: int| 0 <= i < j < out@.len() implies java_major(out@[i].version@) >= java_major(
            out@[j].version@,
        ) by {
            if i < pos && j < pos {
            } else if i < pos && j == pos {
                assert(majors_before[i] >= m);
            } else if i < pos && j > pos {
                assert(out@[j] == before[j - 1]);
            } else if i == pos {
                assert(out@[j] == before[j - 1]);
                assert(majors_before[j - 1] < m);
            } else {
                assert(out@[i] == before[i - 1]);
                assert(out@[j] == before[j - 1]);
            }
        }
        assert forall|i: int, j: int| 0 <= i < j < out@.len() implies out@[i].path@ != out@[j].path@ by {
            if i < pos && j < pos {
            } else if j == pos {
            } else if i == pos {
                assert(out@[j] == before[j - 1]);
            } else if i < pos {
                assert(out@[j] == before[j - 1]);
            } else {
                assert(out@[i] == before[i - 1]);
                assert(out@[j] == before[j - 1]);
            }
        }
        assert forall|i: int| 0 <= i < out@.len() implies is_one_of(#[trigger] out@[i], input) by {
            if i < pos {
                assert(out@[i] == before[i]);
                assert(is_one_of(before[i], input));
            } else if i == pos {
                assert(input[done] == out@[i]);
            } else {
                assert(out@[i] == before[i - 1]);
                assert(is_one_of(before[i - 1], input));
            }
        }
        assert forall|k: int| 0 <= k < done + 1 implies has_path(out@, #[trigger] input[k].path@) by {
            if k < done {
                assert(has_path(before, input[k].path@));
                let i0 = choose|i: int| 0 <= i < before.len() && before[i].path@ == input[k].path@;
                if i0 < pos {
                    assert(out@[i0] == before[i0]);
                } else {
                    assert(out@[i0 + 1] == before[i0]);
                }
            } else {
                assert(out@[pos as int] == c);
            }
        }
        assert forall|i: int| 0 <= i < out@.len() implies majors@[i] == java_major(#[trigger] out@[i].version@) by {
            if i < pos {
            } else if i == pos {
            } else {
                assert(out@[i] == before[i - 1]);
            }
        }
    }
    out
}

/// One release asset listed by the Java distribution service.
#[derive(Debug, Clone)]
pub struct AdoptiumAsset {
    pub binary: AdoptiumBinary,
    pub release_name: String,
    pub version: AdoptiumVersionData,
}

/// The binary of a release asset.
#[derive(Debug, Clone)]
pub struct AdoptiumBinary {
    pub os: String,
    pub architecture: String,
    pub image_type: String,
    pub package: AdoptiumPackage,
}

/// The downloadable archive of a binary, with its optional SHA-256.
#[derive(Debug, Clone)]
pub struct AdoptiumPackage {
    pub name: String,
    pub link: String,
    pub size: u64,
    pub checksum: Option<String>,
}

/// Version numbers of a release asset.
#[derive(Debug, Clone)]
pub struct AdoptiumVersionData {
    pub major: u32,
    pub minor: u32,
    pub security: u32,
    pub semver: String,
    pub openjdk_version: String,
}

/// What is needed to download and verify one Java runtime.
#[derive(Debug, Clone)]
pub struct JavaDownloadInfo {
    pub version: String,
    pub release_name: String,
    pub download_url: String,
    pub file_name: String,
    pub file_size: u64,
    pub checksum: Option<String>,
    pub image_type: String,
}

/// Query of the latest release of a major version for a platform.
pub open spec fn release_query(major: u32, image: Seq<char>, os: Seq<char>, arch: Seq<char>) -> Seq<char> {
    "https://api.adoptium.net/v3/assets/latest/"@ + decimal(major as nat) + "/hotspot?os="@ + os
        + "&architecture="@ + arch + "&image_type="@ + image
}

/// URL asking the distribution service for the latest release.
pub fn java_release_url(major_version: u32, image_type: ImageType, os: &str, arch: &str) -> (r: String)
    ensures
        r@ == release_query(major_version, image_name(image_type), os@, arch@),
{
    let mut s = String::from_str("https://api.adoptium.net/v3/assets/latest/");
    let major = decimal_string(major_version as u64);
    s.append(major.as_str());
    s.append("/hotspot?os=");
    s.append(os);
    s.append("&architecture=");
    s.append(arch);
    s.append("&image_type=");
    s.append(image_type.as_str());
    s
}

/// Download facts of the first listed asset; an empty list means the
/// release is not available for this platform.
pub fn download_info_from_assets(assets: Vec<AdoptiumAsset>, major_version: u32, image_type: ImageType) -> (r:
    Result<JavaDownloadInfo, String>)
    ensures
        r is Err <==> assets@.len() == 0,
        r is Err ==> r->Err_0@ == "Java "@ + decimal(major_version as nat) + " "@ + image_name(image_type)
            + " download not found"@,
        r is Ok ==> ({
            let a = assets@[0];
            let i = r->Ok_0;
            &&& i.version == a.version.semver
            &&& i.release_name == a.release_name
            &&& i.download_url == a.binary.package.link
            &&& i.file_name == a.binary.package.name
            &&& i.file_size == a.binary.package.size
            &&& i.checksum == a.binary.package.checksum
            &&& i.image_type == a.binary.image_type
        }),
{
    if assets.len() == 0 {
        let mut msg = String::from_str("Java ");
        let major = decimal_string(major_version as u64);
        msg.append(major.as_str());
        msg.append(" ");
        msg.append(image_type.as_str());
        msg.append(" download not found");
        return Err(msg);
    }
    let mut assets = assets;
    let a = assets.remove(0);
    Ok(
        JavaDownloadInfo {
            version: a.version.semver,
            release_name: a.release_name,
            download_url: a.binary.package.link,
            file_name: a.binary.package.name,
            file_size: a.binary.package.size,
            checksum: a.binary.package.checksum,
            image_type: a.binary.image_type,
        },
    )
}

} // verus!

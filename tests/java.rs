use launchcore::java::{
    download_info_from_assets, java_release_url, AdoptiumAsset, AdoptiumBinary, AdoptiumPackage,
    AdoptiumVersionData,
    detect_java_installations,
    get_adoptium_arch, get_adoptium_os, get_recommended_java, parse_java_version,
    parse_version_string, Arch, ImageType, JavaInstallation,
};
use launchcore::rules::Platform;

fn inst(path: &str, version: &str) -> JavaInstallation {
    JavaInstallation { path: path.to_string(), version: version.to_string(), is_64bit: true }
}

#[test]
fn version_string_from_java_output() {
    let out = "Picked up flags\nopenjdk version \"17.0.1\" 2021-10-19\nOpenJDK Runtime";
    assert_eq!(parse_version_string(out), Some("17.0.1".to_string()));
    assert_eq!(parse_version_string("java version \"1.8.0_301\""), Some("1.8.0_301".to_string()));
    assert_eq!(parse_version_string("no quotes version here"), None);
}

#[test]
fn major_versions() {
    assert_eq!(parse_java_version("1.8.0_301"), 8);
    assert_eq!(parse_java_version("1.x"), 0);
    assert_eq!(parse_java_version("1.8.0"), 8);
    assert_eq!(parse_java_version("17.0.1"), 17);
    assert_eq!(parse_java_version("21"), 21);
    assert_eq!(parse_java_version("abc"), 0);
}

#[test]
fn recommended_installation() {
    let found = vec![inst("/a", "21.0.1"), inst("/b", "17.0.2"), inst("/c", "1.8.0")];
    assert_eq!(get_recommended_java(found.clone(), Some(17)).unwrap().path, "/a");
    assert_eq!(get_recommended_java(vec![inst("/b", "17.0.2"), inst("/c", "1.8.0")], Some(8)).unwrap().path, "/b");
    assert!(get_recommended_java(vec![inst("/c", "1.8.0")], Some(17)).is_none());
    assert_eq!(get_recommended_java(found, None).unwrap().path, "/a");
    assert!(get_recommended_java(vec![], None).is_none());
}

#[test]
fn distribution_names() {
    assert_eq!(get_adoptium_os(Platform::Linux, true), "alpine-linux");
    assert_eq!(get_adoptium_os(Platform::Linux, false), "linux");
    assert_eq!(get_adoptium_os(Platform::MacOs, false), "mac");
    assert_eq!(get_adoptium_os(Platform::Windows, false), "windows");
    assert_eq!(get_adoptium_arch(Arch::X86_64), "x64");
    assert_eq!(get_adoptium_arch(Arch::Aarch64), "aarch64");
    assert_eq!(get_adoptium_arch(Arch::Other), "x64");
    assert_eq!(ImageType::default().as_str(), "jre");
    assert_eq!(ImageType::Jdk.as_str(), "jdk");
}

#[test]
fn installations_deduplicated_newest_first() {
    let found = vec![
        inst("/a", "1.8.0_301"),
        inst("/b", "17.0.2"),
        inst("/a", "21"),
        inst("/c", "21.0.1"),
        inst("/d", "17"),
    ];
    let ranked = detect_java_installations(found);
    let paths: Vec<&str> = ranked.iter().map(|j| j.path.as_str()).collect();
    assert_eq!(paths, vec!["/c", "/b", "/d", "/a"]);
    assert!(detect_java_installations(vec![]).is_empty());
}

#[test]
fn release_query_url() {
    assert_eq!(
        java_release_url(17, ImageType::Jre, "linux", "x64"),
        "https://api.adoptium.net/v3/assets/latest/17/hotspot?os=linux&architecture=x64&image_type=jre"
    );
}

#[test]
fn download_info_from_first_asset() {
    let asset = AdoptiumAsset {
        binary: AdoptiumBinary {
            os: "linux".to_string(),
            architecture: "x64".to_string(),
            image_type: "jre".to_string(),
            package: AdoptiumPackage {
                name: "jre.tar.gz".to_string(),
                link: "https://x/jre.tar.gz".to_string(),
                size: 42,
                checksum: Some("ff".to_string()),
            },
        },
        release_name: "jdk-17.0.9+9".to_string(),
        version: AdoptiumVersionData {
            major: 17,
            minor: 0,
            security: 9,
            semver: "17.0.9+9".to_string(),
            openjdk_version: "17.0.9+9".to_string(),
        },
    };
    let info = download_info_from_assets(vec![asset], 17, ImageType::Jre).unwrap();
    assert_eq!(info.version, "17.0.9+9");
    assert_eq!(info.download_url, "https://x/jre.tar.gz");
    assert_eq!(info.file_size, 42);
    assert_eq!(info.checksum.as_deref(), Some("ff"));
    assert_eq!(
        download_info_from_assets(vec![], 21, ImageType::Jdk).unwrap_err(),
        "Java 21 jdk download not found"
    );
}

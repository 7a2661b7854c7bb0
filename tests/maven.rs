use launchcore::maven::{get_library_path, resolve_library_url, MavenCoordinate, FABRIC_MAVEN, FORGE_MAVEN, MOJANG_LIBRARIES};

#[test]
fn test_parse_simple_coordinate() {
    let coord = MavenCoordinate::parse("net.fabricmc:fabric-loader:0.14.21").unwrap();
    assert_eq!(coord.group, "net.fabricmc");
    assert_eq!(coord.artifact, "fabric-loader");
    assert_eq!(coord.version, "0.14.21");
    assert_eq!(coord.classifier, None);
    assert_eq!(coord.extension, "jar");
}

#[test]
fn test_parse_with_classifier() {
    let coord = MavenCoordinate::parse("org.lwjgl:lwjgl:3.3.1:natives-linux").unwrap();
    assert_eq!(coord.group, "org.lwjgl");
    assert_eq!(coord.artifact, "lwjgl");
    assert_eq!(coord.version, "3.3.1");
    assert_eq!(coord.classifier, Some("natives-linux".to_string()));
    assert_eq!(coord.extension, "jar");
}

#[test]
fn test_parse_with_extension() {
    let coord = MavenCoordinate::parse("com.example:artifact:1.0@zip").unwrap();
    assert_eq!(coord.extension, "zip");
}

#[test]
fn test_to_path() {
    let coord = MavenCoordinate::parse("net.fabricmc:fabric-loader:0.14.21").unwrap();
    assert_eq!(
        coord.to_path(),
        "net/fabricmc/fabric-loader/0.14.21/fabric-loader-0.14.21.jar"
    );
}

#[test]
fn test_to_path_with_classifier() {
    let coord = MavenCoordinate::parse("org.lwjgl:lwjgl:3.3.1:natives-linux").unwrap();
    assert_eq!(
        coord.to_path(),
        "org/lwjgl/lwjgl/3.3.1/lwjgl-3.3.1-natives-linux.jar"
    );
}

#[test]
fn test_to_url() {
    let coord = MavenCoordinate::parse("net.fabricmc:fabric-loader:0.14.21").unwrap();
    assert_eq!(
        coord.to_url(FABRIC_MAVEN),
        "https://maven.fabricmc.net/net/fabricmc/fabric-loader/0.14.21/fabric-loader-0.14.21.jar"
    );
}

#[test]
fn test_resolve_library_url_explicit() {
    let url = resolve_library_url(
        "net.fabricmc:fabric-loader:0.14.21",
        Some("https://example.com/lib.jar"),
        None,
    );
    assert_eq!(url, Some("https://example.com/lib.jar".to_string()));
}

#[test]
fn test_resolve_library_url_fabric() {
    let url = resolve_library_url("net.fabricmc:fabric-loader:0.14.21", None, None);
    assert!(url.unwrap().starts_with(FABRIC_MAVEN));
}

#[test]
fn parse_three_segments_defaults_to_jar_without_classifier() {
    let coord = MavenCoordinate::parse("g.a:artifact:1.0").unwrap();
    assert_eq!(coord.group, "g.a");
    assert_eq!(coord.extension, "jar");
    assert_eq!(coord.classifier, None);
}

#[test]
fn parse_classifier_and_extension_together() {
    let coord = MavenCoordinate::parse("g:a:1.0:cls@zip").unwrap();
    assert_eq!(coord.classifier, Some("cls".to_string()));
    assert_eq!(coord.extension, "zip");
    assert_eq!(coord.to_path(), "g/a/1.0/a-1.0-cls.zip");
}

#[test]
fn relative_path_replaces_group_dots() {
    let coord = MavenCoordinate::parse("net.x:y:1.0").unwrap();
    assert_eq!(coord.to_path(), "net/x/y/1.0/y-1.0.jar");
}

#[test]
fn parse_rejects_other_segment_counts() {
    assert!(MavenCoordinate::parse("a:b").is_none());
    assert!(MavenCoordinate::parse("a:b:c:d:e").is_none());
    assert!(MavenCoordinate::parse("").is_none());
}

#[test]
fn parse_uses_last_at_sign() {
    let coord = MavenCoordinate::parse("g:a:1@x@tar").unwrap();
    assert_eq!(coord.version, "1@x");
    assert_eq!(coord.extension, "tar");
}

#[test]
fn url_trims_trailing_slashes_of_base() {
    let coord = MavenCoordinate::parse("a.b:c:2").unwrap();
    assert_eq!(coord.to_url("https://repo.example//"), "https://repo.example/a/b/c/2/c-2.jar");
}

#[test]
fn resolve_picks_repository_by_group() {
    let forge = resolve_library_url("net.minecraftforge:forge:1.0", None, None).unwrap();
    assert!(forge.starts_with(FORGE_MAVEN));
    let cpw = resolve_library_url("cpw.mods:modlauncher:1.0", None, None).unwrap();
    assert!(cpw.starts_with(FORGE_MAVEN));
    let other = resolve_library_url("org.ow2.asm:asm:9.0", None, None).unwrap();
    assert_eq!(other, "https://libraries.minecraft.net/org/ow2/asm/asm/9.0/asm-9.0.jar");
    assert!(other.starts_with(MOJANG_LIBRARIES));
}

#[test]
fn resolve_uses_repository_hint() {
    let url = resolve_library_url("net.fabricmc:tiny:1.0", None, Some("https://hint.example/")).unwrap();
    assert_eq!(url, "https://hint.example/net/fabricmc/tiny/1.0/tiny-1.0.jar");
    assert_eq!(resolve_library_url("not-a-coordinate", None, None), None);
}

#[test]
fn library_path_under_directory() {
    assert_eq!(
        get_library_path("org.lwjgl:lwjgl:3.3.1", "/data/libraries"),
        Some("/data/libraries/org/lwjgl/lwjgl/3.3.1/lwjgl-3.3.1.jar".to_string())
    );
    assert_eq!(get_library_path("bad", "/data"), None);
}

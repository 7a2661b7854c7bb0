use launchcore::version::{
    descriptor_url, Latest, Version, VersionManifest,
    merge_versions, needs_inheritance_resolution, resolve_inheritance, ArgEntry, Arguments,
    DownloadArtifact, Downloads, GameVersion, Library, Resolution,
};

fn create_test_library(name: &str) -> Library {
    Library {
        name: name.to_string(),
        downloads: None,
        rules: None,
        natives: None,
        url: None,
    }
}

fn bare(id: &str, main: &str, parent: Option<&str>) -> GameVersion {
    GameVersion {
        id: id.to_string(),
        downloads: None,
        asset_index: None,
        libraries: vec![],
        main_class: main.to_string(),
        minecraft_arguments: None,
        arguments: None,
        java_version: None,
        inherits_from: parent.map(|p| p.to_string()),
        assets: None,
        version_type: None,
    }
}

#[test]
fn test_merge_libraries_order() {
    let child = GameVersion {
        id: "fabric-1.20.4".to_string(),
        downloads: None,
        asset_index: None,
        libraries: vec![create_test_library("fabric:loader:1.0")],
        main_class: "net.fabricmc.loader.launch.knot.KnotClient".to_string(),
        minecraft_arguments: None,
        arguments: None,
        java_version: None,
        inherits_from: Some("1.20.4".to_string()),
        assets: None,
        version_type: None,
    };

    let parent = GameVersion {
        id: "1.20.4".to_string(),
        downloads: Some(Downloads {
            client: DownloadArtifact {
                sha1: Some("abc".to_string()),
                size: Some(1000),
                url: "https://example.com/client.jar".to_string(),
                path: None,
            },
            server: None,
        }),
        asset_index: None,
        libraries: vec![create_test_library("net.minecraft:client:1.20.4")],
        main_class: "net.minecraft.client.main.Main".to_string(),
        minecraft_arguments: None,
        arguments: None,
        java_version: None,
        inherits_from: None,
        assets: None,
        version_type: Some("release".to_string()),
    };

    let merged = merge_versions(child, parent);

    assert_eq!(merged.libraries.len(), 2);
    assert_eq!(merged.libraries[0].name, "fabric:loader:1.0");
    assert_eq!(merged.libraries[1].name, "net.minecraft:client:1.20.4");
    assert_eq!(
        merged.main_class,
        "net.fabricmc.loader.launch.knot.KnotClient"
    );
    assert!(merged.downloads.is_some());
    assert!(merged.inherits_from.is_none());
}

#[test]
fn test_needs_inheritance_resolution() {
    let with_inheritance = bare("test", "Main", Some("1.20.4"));
    let without_inheritance = bare("test", "Main", None);
    assert!(needs_inheritance_resolution(&with_inheritance));
    assert!(!needs_inheritance_resolution(&without_inheritance));
}

#[test]
fn merge_takes_child_fields_and_parent_fallbacks() {
    let mut child = bare("c", "M", Some("p"));
    child.libraries = vec![create_test_library("a:a:1")];
    child.version_type = Some("snapshot".to_string());
    let mut parent = bare("p", "N", None);
    parent.libraries = vec![create_test_library("b:b:1")];
    parent.assets = Some("12".to_string());
    parent.version_type = Some("release".to_string());
    let merged = merge_versions(child, parent);
    let names: Vec<&str> = merged.libraries.iter().map(|l| l.name.as_str()).collect();
    assert_eq!(names, vec!["a:a:1", "b:b:1"]);
    assert_eq!(merged.id, "c");
    assert_eq!(merged.main_class, "M");
    assert_eq!(merged.assets.as_deref(), Some("12"));
    assert_eq!(merged.version_type.as_deref(), Some("snapshot"));
    assert!(merged.inherits_from.is_none());
}

fn plain(s: &str) -> ArgEntry {
    ArgEntry::Plain(s.to_string())
}

fn texts(v: &[ArgEntry]) -> Vec<String> {
    v.iter()
        .map(|e| match e {
            ArgEntry::Plain(s) => s.clone(),
            ArgEntry::Conditional(c) => c.value.join(" "),
        })
        .collect()
}

#[test]
fn merge_puts_parent_arguments_first() {
    let mut child = bare("c", "M", Some("p"));
    child.arguments = Some(Arguments { game: Some(vec![plain("--child")]), jvm: Some(vec![plain("-Dchild")]) });
    let mut parent = bare("p", "N", None);
    parent.arguments = Some(Arguments { game: Some(vec![plain("--parent")]), jvm: None });
    let merged = merge_versions(child, parent);
    let args = merged.arguments.unwrap();
    assert_eq!(texts(&args.game.unwrap()), vec!["--parent", "--child"]);
    assert_eq!(texts(&args.jvm.unwrap()), vec!["-Dchild"]);
}

#[test]
fn local_parent_resolves_without_remote_lookup() {
    let child = bare("fabric-loader-0.15.6-1.20.4", "Knot", Some("1.20.4"));
    let stored = vec![bare("1.19", "Old", None), bare("1.20.4", "Main", None)];
    match resolve_inheritance(child, stored) {
        Resolution::Resolved(v) => {
            assert_eq!(v.main_class, "Knot");
            assert!(v.inherits_from.is_none());
        }
        Resolution::NeedsParent { .. } => panic!("parent was stored locally"),
    }
}

#[test]
fn missing_parent_is_requested() {
    let child = bare("c", "Knot", Some("1.21"));
    match resolve_inheritance(child, vec![bare("1.20.4", "Main", None)]) {
        Resolution::NeedsParent { child, parent_id } => {
            assert_eq!(parent_id, "1.21");
            assert_eq!(child.id, "c");
        }
        Resolution::Resolved(_) => panic!("parent is not stored"),
    }
}

#[test]
fn version_without_parent_is_resolved_as_is() {
    match resolve_inheritance(bare("1.20.4", "Main", None), vec![]) {
        Resolution::Resolved(v) => assert_eq!(v.id, "1.20.4"),
        Resolution::NeedsParent { .. } => panic!("no parent"),
    }
}

#[test]
fn descriptor_url_by_id() {
    let entry = |id: &str, url: &str| Version {
        id: id.to_string(),
        type_: "release".to_string(),
        url: url.to_string(),
        time: String::new(),
        release_time: String::new(),
    };
    let m = VersionManifest {
        latest: Latest { release: "1.20.4".to_string(), snapshot: "24w01a".to_string() },
        versions: vec![entry("1.20.4", "https://x/a.json"), entry("1.20.4", "https://x/b.json"), entry("1.19", "https://x/c.json")],
    };
    assert_eq!(descriptor_url(&m, "1.20.4"), Some("https://x/a.json".to_string()));
    assert_eq!(descriptor_url(&m, "1.19"), Some("https://x/c.json".to_string()));
    assert_eq!(descriptor_url(&m, "2.0"), None);
}

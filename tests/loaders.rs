use launchcore::fabric;
use launchcore::forge::{self, is_modern_forge, ForgeArtifact, ForgeInstallerManifest, ForgeLibrary, ForgeLibraryDownloads};
use launchcore::version::ArgEntry;

#[test]
fn fabric_test_generate_version_id() {
    assert_eq!(
        fabric::generate_version_id("1.20.4", "0.15.6"),
        "fabric-loader-0.15.6-1.20.4"
    );
}

#[test]
fn forge_test_generate_version_id() {
    assert_eq!(
        forge::generate_version_id("1.20.4", "49.0.38"),
        "1.20.4-forge-49.0.38"
    );
}

#[test]
fn test_is_modern_forge() {
    assert!(!is_modern_forge("1.12.2"));
    assert!(is_modern_forge("1.13"));
    assert!(is_modern_forge("1.20.4"));
    assert!(is_modern_forge("1.21"));
}

#[test]
fn modern_forge_rejects_malformed_versions() {
    assert!(!is_modern_forge("1"));
    assert!(!is_modern_forge("a.b"));
    assert!(is_modern_forge("2.0"));
}

#[test]
fn installed_paths_follow_version_ids() {
    assert_eq!(
        fabric::installed_json_path("/g", "1.20.4", "0.15.6"),
        "/g/versions/fabric-loader-0.15.6-1.20.4/fabric-loader-0.15.6-1.20.4.json"
    );
    assert_eq!(
        forge::installed_json_path("/g/", "1.20.4", "49.0.38"),
        "/g/versions/1.20.4-forge-49.0.38/1.20.4-forge-49.0.38.json"
    );
}

#[test]
fn fabric_profile_id_prefers_profile() {
    assert_eq!(fabric::profile_version_id(Some("custom"), "1.20.4", "0.15.6"), "custom");
    assert_eq!(fabric::profile_version_id(None, "1.20.4", "0.15.6"), "fabric-loader-0.15.6-1.20.4");
}

#[test]
fn forge_descriptor_from_manifest() {
    let manifest = ForgeInstallerManifest {
        id: None,
        inherits_from: None,
        main_class: None,
        libraries: vec![
            ForgeLibrary { name: "net.minecraftforge:forge:49.0.38".to_string(), downloads: None, url: None },
            ForgeLibrary {
                name: "cpw.mods:securejarhandler:2.1".to_string(),
                downloads: Some(ForgeLibraryDownloads {
                    artifact: Some(ForgeArtifact {
                        path: Some("cpw/sjh.jar".to_string()),
                        url: Some("https://x/sjh.jar".to_string()),
                        sha1: Some("ff".to_string()),
                    }),
                }),
                url: Some("https://custom/".to_string()),
            },
        ],
        arguments: None,
    };
    let v = forge::create_forge_version_json_from_manifest("1.20.4", "49.0.38", manifest);
    assert_eq!(v.id, "1.20.4-forge-49.0.38");
    assert_eq!(v.inherits_from.as_deref(), Some("1.20.4"));
    assert_eq!(v.main_class, forge::MODERN_MAIN_CLASS);
    assert_eq!(v.version_type.as_deref(), Some("release"));
    assert_eq!(v.libraries.len(), 2);
    assert_eq!(v.libraries[0].url.as_deref(), Some(launchcore::maven::FORGE_MAVEN));
    assert!(v.libraries[0].downloads.is_none());
    assert_eq!(v.libraries[1].url.as_deref(), Some("https://custom/"));
    let art = v.libraries[1].downloads.as_ref().unwrap().artifact.as_ref().unwrap();
    assert_eq!(art.url, "https://x/sjh.jar");
    assert_eq!(art.path.as_deref(), Some("cpw/sjh.jar"));
    let args = v.arguments.unwrap();
    assert_eq!(args.game.unwrap().len(), 0);
    assert_eq!(args.jvm.unwrap().len(), 0);
}

#[test]
fn legacy_forge_main_class() {
    let manifest = ForgeInstallerManifest {
        id: None,
        inherits_from: Some("1.12.2".to_string()),
        main_class: None,
        libraries: vec![],
        arguments: Some(forge::ForgeArguments {
            game: Some(vec![ArgEntry::Plain("--tweakClass".to_string())]),
            jvm: None,
        }),
    };
    let v = forge::create_forge_version_json_from_manifest("1.12.2", "14.23.5", manifest);
    assert_eq!(v.main_class, forge::LEGACY_MAIN_CLASS);
    assert_eq!(v.arguments.unwrap().game.unwrap().len(), 1);
}

#[test]
fn promoted_forge_versions() {
    let both = forge::forge_versions_from_promotions("1.20.4", Some("49.0.38".to_string()), Some("49.0.38".to_string()));
    assert_eq!(both.len(), 1);
    assert!(both[0].latest && both[0].recommended);
    let two = forge::forge_versions_from_promotions("1.20.4", Some("49.0.40".to_string()), Some("49.0.38".to_string()));
    assert_eq!(two.len(), 2);
    assert_eq!(two[0].version, "49.0.40");
    assert!(two[0].latest && !two[0].recommended);
    assert_eq!(two[1].version, "49.0.38");
    assert!(two[1].recommended && !two[1].latest);
    assert_eq!(two[1].minecraft_version, "1.20.4");
    assert!(forge::forge_versions_from_promotions("1.20.4", None, None).is_empty());
    assert_eq!(forge::promo_key("1.20.4", true), "1.20.4-recommended");
    assert_eq!(forge::promo_key("1.20.4", false), "1.20.4-latest");
}

#[test]
fn supported_game_versions_from_keys() {
    let keys: Vec<String> = ["1.20.4-latest", "1.19.2-recommended", "1.20.4-recommended", "nodash", "1.7.10-latest"]
        .iter()
        .map(|s| s.to_string())
        .collect();
    assert_eq!(
        forge::game_versions_from_promotions(&keys),
        vec!["1.7.10".to_string(), "1.20.4".to_string(), "1.19.2".to_string()]
    );
}

#[test]
fn fallback_forge_descriptor() {
    let libs = vec![ForgeLibrary { name: "a:b:1".to_string(), downloads: None, url: Some("https://x/".to_string()) }];
    let v = forge::create_forge_version_json("1.12.2", "14.23.5", &libs);
    assert_eq!(v.id, "1.12.2-forge-14.23.5");
    assert_eq!(v.main_class, forge::LEGACY_MAIN_CLASS);
    assert_eq!(v.libraries[0].url.as_deref(), Some(launchcore::maven::FORGE_MAVEN));
    assert_eq!(v.inherits_from.as_deref(), Some("1.12.2"));
}

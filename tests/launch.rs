use launchcore::auth::{Account, OfflineAccount};
use launchcore::launch::{
    asset_index_of, check_launchable, require_account, asset_task, build_classpath, client_jar_task, plan_libraries, reported_exit_code, LaunchError,
};
use launchcore::rules::{OsRule, Platform, Rule};
use launchcore::version::{
    AssetIndex, ClassifierArtifact, DownloadArtifact, Downloads, GameVersion, Library, LibraryDownloads,
};

fn artifact(url: &str, path: Option<&str>, sha1: Option<&str>) -> DownloadArtifact {
    DownloadArtifact {
        sha1: sha1.map(|s| s.to_string()),
        size: None,
        url: url.to_string(),
        path: path.map(|s| s.to_string()),
    }
}

fn version(libraries: Vec<Library>) -> GameVersion {
    GameVersion {
        id: "1.20.4".to_string(),
        downloads: Some(Downloads { client: artifact("https://x/client.jar", None, Some("c1")), server: None }),
        asset_index: None,
        libraries,
        main_class: "Main".to_string(),
        minecraft_arguments: None,
        arguments: None,
        java_version: None,
        inherits_from: None,
        assets: None,
        version_type: None,
    }
}

fn libs() -> Vec<Library> {
    vec![
        Library {
            downloads: Some(LibraryDownloads {
                artifact: Some(artifact("https://x/lwjgl.jar", Some("org/lwjgl/lwjgl.jar"), Some("aa"))),
                classifiers: Some(vec![
                    ClassifierArtifact {
                        key: "natives-linux".to_string(),
                        artifact: artifact("https://x/natives.jar", Some("org/lwjgl/natives.jar"), Some("bb")),
                    },
                    ClassifierArtifact {
                        key: "natives-windows".to_string(),
                        artifact: artifact("https://x/win.jar", Some("org/lwjgl/win.jar"), None),
                    },
                ]),
            }),
            name: "org.lwjgl:lwjgl:3.3.1".to_string(),
            rules: None,
            natives: None,
            url: None,
        },
        Library {
            downloads: None,
            name: "net.fabricmc:fabric-loader:0.15.6".to_string(),
            rules: None,
            natives: None,
            url: Some("https://maven.fabricmc.net/".to_string()),
        },
        Library {
            downloads: Some(LibraryDownloads { artifact: Some(artifact("https://x/mac.jar", None, None)), classifiers: None }),
            name: "mac:only:1".to_string(),
            rules: Some(vec![Rule {
                action: "allow".to_string(),
                os: Some(OsRule { name: Some("osx".to_string()), version: None, arch: None }),
                features: None,
            }]),
            natives: None,
            url: None,
        },
    ]
}

#[test]
fn library_tasks_on_linux() {
    let plan = plan_libraries(&version(libs()), Platform::Linux, "/libs");
    let urls: Vec<&str> = plan.tasks.iter().map(|t| t.url.as_str()).collect();
    assert_eq!(
        urls,
        vec![
            "https://x/lwjgl.jar",
            "https://x/natives.jar",
            "https://maven.fabricmc.net/net/fabricmc/fabric-loader/0.15.6/fabric-loader-0.15.6.jar",
        ]
    );
    assert_eq!(plan.tasks[0].path, "/libs/org/lwjgl/lwjgl.jar");
    assert_eq!(plan.tasks[0].sha1.as_deref(), Some("aa"));
    assert_eq!(plan.tasks[2].path, "/libs/net/fabricmc/fabric-loader/0.15.6/fabric-loader-0.15.6.jar");
    assert_eq!(plan.tasks[2].sha1, None);
    assert_eq!(plan.natives, vec!["/libs/org/lwjgl/natives.jar".to_string()]);
}

#[test]
fn library_tasks_on_macos_include_gated_library() {
    let plan = plan_libraries(&version(libs()), Platform::MacOs, "/libs");
    let paths: Vec<&str> = plan.tasks.iter().map(|t| t.path.as_str()).collect();
    assert_eq!(
        paths,
        vec![
            "/libs/org/lwjgl/lwjgl.jar",
            "/libs/net/fabricmc/fabric-loader/0.15.6/fabric-loader-0.15.6.jar",
            "/libs/mac:only:1.jar",
        ]
    );
    assert!(plan.natives.is_empty());
}

#[test]
fn classpath_joins_with_platform_separator() {
    let v = version(libs());
    assert_eq!(
        build_classpath(&v, Platform::Linux, "/libs", "/c.jar"),
        "/libs/org/lwjgl/lwjgl.jar:/libs/net/fabricmc/fabric-loader/0.15.6/fabric-loader-0.15.6.jar:/c.jar"
    );
    assert_eq!(build_classpath(&version(vec![]), Platform::Windows, "/libs", "/c.jar"), "/c.jar");
    let with_mac = build_classpath(&v, Platform::Windows, "L", "c.jar");
    assert_eq!(with_mac.matches(';').count(), 2);
}

#[test]
fn client_jar_task_needs_downloads() {
    let t = client_jar_task(&version(vec![]), "1.20.4", "/game").unwrap();
    assert_eq!(t.url, "https://x/client.jar");
    assert_eq!(t.path, "/game/versions/1.20.4/1.20.4.jar");
    assert_eq!(t.sha1.as_deref(), Some("c1"));
    let mut v = version(vec![]);
    v.downloads = None;
    let err = client_jar_task(&v, "1.20.4", "/game").unwrap_err();
    assert_eq!(err, LaunchError::MissingDownloads);
    assert_eq!(err.message(), "Version has no downloads information");
}

#[test]
fn asset_objects_use_hash_prefix() {
    let t = asset_task("abcdef0123", "/assets/objects").unwrap();
    assert_eq!(t.url, "https://resources.download.minecraft.net/ab/abcdef0123");
    assert_eq!(t.path, "/assets/objects/ab/abcdef0123");
    assert_eq!(t.sha1.as_deref(), Some("abcdef0123"));
    assert!(asset_task("a", "/assets/objects").is_none());
}

#[test]
fn exit_code_sentinel() {
    assert_eq!(reported_exit_code(Some(0)), 0);
    assert_eq!(reported_exit_code(Some(3)), 3);
    assert_eq!(reported_exit_code(None), -1);
}

#[test]
fn launch_prerequisites_in_order() {
    let account = Some(Account::Offline(OfflineAccount { username: "S".to_string(), uuid: "u".to_string() }));
    let mut v = version(vec![]);
    assert_eq!(check_launchable(&None, &v), Err(LaunchError::NoActiveAccount));
    assert_eq!(
        LaunchError::NoActiveAccount.message(),
        "No active account found. Please login first."
    );
    assert_eq!(require_account(&None), Err(LaunchError::NoActiveAccount));
    assert_eq!(check_launchable(&account, &v), Err(LaunchError::MissingAssetIndex));
    assert_eq!(asset_index_of(&v).unwrap_err().message(), "Version has no asset index information");
    v.asset_index = Some(AssetIndex {
        id: "12".to_string(),
        sha1: "s".to_string(),
        size: 1,
        url: "https://x/12.json".to_string(),
        total_size: None,
    });
    assert_eq!(check_launchable(&account, &v), Ok(()));
    assert_eq!(asset_index_of(&v).unwrap().id, "12");
    v.downloads = None;
    assert_eq!(check_launchable(&account, &v), Err(LaunchError::MissingDownloads));
}

use launchcore::arguments::{build_arguments, expand_template, LaunchContext};
use launchcore::launch::{game_placeholders, jvm_placeholders};
use launchcore::placeholders::{has_unresolved_placeholder, substitute_placeholders, Placeholder};
use launchcore::rules::{OsRule, Platform, Rule};
use launchcore::version::{ArgEntry, Arguments, ConditionalArg, GameVersion};

fn table(rows: &[(&str, &str)]) -> Vec<Placeholder> {
    rows.iter()
        .map(|(k, v)| Placeholder { key: k.to_string(), value: v.to_string() })
        .collect()
}

fn version(arguments: Option<Arguments>, legacy: Option<&str>) -> GameVersion {
    GameVersion {
        id: "1.20.4".to_string(),
        downloads: None,
        asset_index: None,
        libraries: vec![],
        main_class: "net.minecraft.client.main.Main".to_string(),
        minecraft_arguments: legacy.map(|s| s.to_string()),
        arguments,
        java_version: None,
        inherits_from: None,
        assets: None,
        version_type: None,
    }
}

fn context(platform: Platform) -> LaunchContext {
    LaunchContext {
        platform,
        natives_path: "/n".to_string(),
        classpath: "a.jar:b.jar".to_string(),
        min_memory: 1024,
        max_memory: 2048,
        jvm_placeholders: jvm_placeholders("/n".to_string(), "a.jar:b.jar".to_string(), "L".to_string(), "1.0".to_string()),
        game_placeholders: game_placeholders(
            "Steve".to_string(),
            "1.20.4".to_string(),
            "/game".to_string(),
            "/game/assets".to_string(),
            "12".to_string(),
            "uuid-1".to_string(),
            "tok".to_string(),
        ),
    }
}

#[test]
fn substitution_replaces_known_tokens() {
    let t = table(&[("name", "Steve"), ("dir", "/x")]);
    assert_eq!(substitute_placeholders("--user ${name} in ${dir}", &t), "--user Steve in /x");
    assert_eq!(substitute_placeholders("${unknown}", &t), "${unknown}");
    assert_eq!(substitute_placeholders("${name", &t), "${name");
    assert_eq!(substitute_placeholders("", &t), "");
}

#[test]
fn unresolved_placeholder_detection() {
    assert!(has_unresolved_placeholder("a${b}c"));
    assert!(has_unresolved_placeholder("a${b"));
    assert!(!has_unresolved_placeholder("plain $ {x}"));
}

#[test]
fn undefined_token_never_reaches_arguments() {
    let t = table(&[("known", "v")]);
    let entries = vec![
        ArgEntry::Plain("--a=${known}".to_string()),
        ArgEntry::Plain("--b=${undefined_token}".to_string()),
        ArgEntry::Conditional(ConditionalArg {
            rules: None,
            value: vec!["${undefined_token}".to_string(), "--c".to_string()],
        }),
    ];
    let out = expand_template(&entries, Platform::Linux, &t, false);
    assert_eq!(out, vec!["--a=v".to_string(), "--c".to_string()]);
}

#[test]
fn jvm_template_drops_memory_bounds() {
    let t = table(&[]);
    let entries = vec![
        ArgEntry::Plain("-Xmx512M".to_string()),
        ArgEntry::Plain("-Xss1M".to_string()),
        ArgEntry::Plain("-Xms256M".to_string()),
    ];
    assert_eq!(expand_template(&entries, Platform::Linux, &t, true), vec!["-Xss1M".to_string()]);
}

#[test]
fn rule_gated_entries_follow_platform() {
    let t = table(&[]);
    let entries = vec![ArgEntry::Conditional(ConditionalArg {
        rules: Some(vec![Rule {
            action: "allow".to_string(),
            os: Some(OsRule { name: Some("osx".to_string()), version: None, arch: None }),
            features: None,
        }]),
        value: vec!["-XstartOnFirstThread".to_string()],
    })];
    assert_eq!(expand_template(&entries, Platform::MacOs, &t, true).len(), 1);
    assert_eq!(expand_template(&entries, Platform::Linux, &t, true).len(), 0);
}

#[test]
fn full_vector_with_structured_templates() {
    let args = Arguments {
        jvm: Some(vec![
            ArgEntry::Plain("-Djava.library.path=${natives_directory}".to_string()),
            ArgEntry::Plain("-cp".to_string()),
            ArgEntry::Plain("${classpath}".to_string()),
        ]),
        game: Some(vec![
            ArgEntry::Plain("--username".to_string()),
            ArgEntry::Plain("${auth_player_name}".to_string()),
            ArgEntry::Plain("--quickPlayPath".to_string()),
            ArgEntry::Plain("${quickPlayPath}".to_string()),
        ]),
    };
    let out = build_arguments(&version(Some(args), None), &context(Platform::Linux));
    assert_eq!(
        out,
        vec![
            "-Djava.library.path=/n",
            "-cp",
            "a.jar:b.jar",
            "-Xmx2048M",
            "-Xms1024M",
            "net.minecraft.client.main.Main",
            "--username",
            "Steve",
            "--quickPlayPath",
        ]
    );
}

#[test]
fn full_vector_adds_missing_flags_and_legacy_words() {
    let v = version(None, Some("--username ${auth_player_name}  --accessToken ${auth_access_token} --userType ${user_type} --x ${nope}"));
    let out = build_arguments(&v, &context(Platform::Windows));
    assert_eq!(
        out,
        vec![
            "-Xmx2048M",
            "-Xms1024M",
            "-Djava.library.path=/n",
            "-cp",
            "a.jar:b.jar",
            "net.minecraft.client.main.Main",
            "--username",
            "Steve",
            "--accessToken",
            "tok",
            "--userType",
            "mojang",
            "--x",
        ]
    );
}

#[test]
fn legacy_words_split_on_unicode_whitespace() {
    let v = version(None, Some("--a\u{a0}x\x0C--b\u{2028}${auth_player_name}"));
    let out = build_arguments(&v, &context(Platform::Linux));
    assert_eq!(&out[out.len() - 4..], &["--a", "x", "--b", "Steve"]);
}

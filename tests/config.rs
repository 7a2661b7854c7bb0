use launchcore::config::{parse_config, ConfigState, LauncherConfig};

#[test]
fn default_settings() {
    let c = LauncherConfig::default();
    assert_eq!(c.min_memory, 1024);
    assert_eq!(c.max_memory, 2048);
    assert_eq!(c.java_path, "java");
    assert_eq!(c.download_threads, 32);
    let s = ConfigState::new("/data", None);
    assert_eq!(s.file_path, "/data/config.json");
    assert_eq!(s.config.theme, "dark");
}

#[test]
fn config_text_later_lines_win() {
    let entries = parse_config(" a = 1 \nno equals\nb=x=y\na=2\r\n");
    let mut pairs: Vec<(String, String)> = entries.into_iter().map(|e| (e.key, e.value)).collect();
    pairs.sort();
    assert_eq!(
        pairs,
        vec![("a".to_string(), "2".to_string()), ("b".to_string(), "x=y".to_string())]
    );
}

#[test]
fn config_trims_all_unicode_whitespace() {
    let entries = parse_config("a\x0C=1\n\u{a0}b\u{2003}= \x0B2\u{3000}");
    let mut pairs: Vec<(String, String)> = entries.into_iter().map(|e| (e.key, e.value)).collect();
    pairs.sort();
    assert_eq!(
        pairs,
        vec![("a".to_string(), "1".to_string()), ("b".to_string(), "2".to_string())]
    );
}

//! Launcher settings and the `key=value` configuration text format.

use vstd::prelude::*;
use crate::text::{char_is_ws, find_first, first_char_index, is_ws, join, join_path, split_char, split_on};

verus! {

/// Persisted launcher settings.
#[derive(Debug, Clone)]
pub struct LauncherConfig {
    pub min_memory: u32,
    pub max_memory: u32,
    pub java_path: String,
    pub width: u32,
    pub height: u32,
    pub download_threads: u32,
    pub custom_background_path: Option<String>,
    pub enable_gpu_acceleration: bool,
    pub enable_visual_effects: bool,
    pub active_effect: String,
    pub theme: String,
}

impl Default for LauncherConfig {
    fn default() -> (r: Self)
        ensures
            r.min_memory == 1024 && r.max_memory == 2048,
            r.java_path@ == "java"@,
            r.width == 854 && r.height == 480,
            r.download_threads == 32,
            r.custom_background_path.is_none(),
            !r.enable_gpu_acceleration && r.enable_visual_effects,
            r.active_effect@ == "constellation"@,
            r.theme@ == "dark"@,
    {
        LauncherConfig {
            min_memory: 1024,
            max_memory: 2048,
            java_path: String::from_str("java"),
            width: 854,
            height: 480,
            download_threads: 32,
            custom_background_path: None,
            enable_gpu_acceleration: false,
            enable_visual_effects: true,
            active_effect: String::from_str("constellation"),
            theme: String::from_str("dark"),
        }
    }
}

/// Settings of the running launcher and the file they are kept in.
pub struct ConfigState {
    pub config: LauncherConfig,
    pub file_path: String,
}

impl ConfigState {
    /// The state for `config.json` under `app_data_dir`, holding the stored
    /// settings when they could be read, else the defaults.
    pub fn new(app_data_dir: &str, stored: Option<LauncherConfig>) -> (r: Self)
        ensures
            r.file_path@ == join_path(app_data_dir@, "config.json"@),
            stored.is_some() ==> r.config == stored.unwrap(),
            stored.is_none() ==> r.config.max_memory == 2048 && r.config.download_threads == 32,
    {
        let config = match stored {
            Some(c) => c,
            None => LauncherConfig::default(),
        };
        ConfigState { config, file_path: join(app_data_dir, "config.json") }
    }
}

/// One `key=value` setting.
#[derive(Debug, Clone)]
pub struct ConfigEntry {
    pub key: String,
    pub value: String,
}

/// `s` without leading and trailing Unicode whitespace (as `str::trim`).
pub open spec fn trim_ws(s: Seq<char>) -> Seq<char>
    decreases s.len(),
{
    if s.len() > 0 && is_ws(s[0]) {
        trim_ws(s.subrange(1, s.len() as int))
    } else if s.len() > 0 && is_ws(s.last()) {
        trim_ws(s.drop_last())
    } else {
        s
    }
}

/// The settings of `lines`: each line holding `=` sets its trimmed key (the
/// text before the first `=`) to its trimmed value; later lines win.
pub open spec fn settings_of(lines: Seq<Seq<char>>) -> Map<Seq<char>, Seq<char>>
    decreases lines.len(),
{
    if lines.len() == 0 {
        Map::empty()
    } else {
        let prev = settings_of(lines.drop_last());
        let line = lines.last();
        let eq = first_char_index(line, '=');
        if eq < 0 {
            prev
        } else {
            prev.insert(
                trim_ws(line.subrange(0, eq)),
                trim_ws(line.subrange(eq + 1, line.len() as int)),
            )
        }
    }
}

/// The map that a list of entries with distinct keys denotes.
pub open spec fn entries_map(es: Seq<ConfigEntry>) -> Map<Seq<char>, Seq<char>> {
    Map::new(
        |k: Seq<char>| exists|i: int| 0 <= i < es.len() && es[i].key@ == k,
        |k: Seq<char>| es[choose|i: int| 0 <= i < es.len() && es[i].key@ == k].value@,
    )
}

/// Whether no two entries share a key.
pub open spec fn distinct_keys(es: Seq<ConfigEntry>) -> bool {
    forall|i: int, j: int| 0 <= i < j < es.len() ==> es[i].key@ != es[j].key@
}

fn trim(s: &str) -> (r: &str)
    ensures
        r@ == trim_ws(s@),
{
    let n = s.unicode_len();
    let mut a: usize = 0;
    let mut b: usize = n;
    assert(s@.subrange(0, n as int) == s@);
    while a < b && char_is_ws(s.get_char(a))
        invariant
            n == s@.len(),
            a <= b == n,
            trim_ws(s@) == trim_ws(s@.subrange(a as int, n as int)),
        decreases b - a,
    {
        let ghost t = s@.subrange(a as int, n as int);
        assert(t.subrange(1, t.len() as int) == s@.subrange(a + 1, n as int));
        a = a + 1;
    }
    while a < b && char_is_ws(s.get_char(b - 1))
        invariant
            n == s@.len(),
            a <= b <= n,
            a < b ==> !is_ws(s@[a as int]),
            trim_ws(s@) == trim_ws(s@.subrange(a as int, b as int)),
        decreases b - a,
    {
        let ghost t = s@.subrange(a as int, b as int);
        assert(t.drop_last() == s@.subrange(a as int, b - 1));
        assert(!is_ws(t[0]));
        b = b - 1;
    }
    let r = s.substring_char(a, b);
    assert(r@.len() == 0 || (!is_ws(r@[0]) && !is_ws(r@.last())));
    r
}

/// Sets `key` to `value`, replacing an entry with the same key.
fn upsert(entries: &mut Vec<ConfigEntry>, key: String, value: String)
    requires
        distinct_keys(old(entries)@),
    ensures
        distinct_keys(final(entries)@),
        entries_map(final(entries)@) == entries_map(old(entries)@).insert(key@, value@),
{
    let ghost before = entries@;
    let mut i: usize = 0;
    while i < entries.len()
        invariant
            entries@ == before,
            before == old(entries)@,
            distinct_keys(before),
            i <= entries@.len(),
            forall|k: int| 0 <= k < i ==> entries@[k].key@ != key@,
        decreases entries@.len() - i,
    {
        if entries[i].key == key {
            let ghost idx = i as int;
            entries.set(i, ConfigEntry { key: key.clone(), value: value.clone() });
            assert forall|m: int| 0 <= m < entries@.len() implies #[trigger] entries@[m].key@ == before[m].key@ by {}
            assert(distinct_keys(entries@));
            assert forall|k: Seq<char>| #[trigger] entries_map(entries@).contains_key(k)
                == entries_map(before).insert(key@, value@).contains_key(k) by {
                if exists|j: int| 0 <= j < before.len() && before[j].key@ == k {
                    let j = choose|j: int| 0 <= j < before.len() && before[j].key@ == k;
                    assert(entries@[j].key@ == k);
                }
                if exists|j: int| 0 <= j < entries@.len() && entries@[j].key@ == k {
                    let j = choose|j: int| 0 <= j < entries@.len() && entries@[j].key@ == k;
                    if j != idx {
                        assert(before[j].key@ == k);
                    }
                }
            }
            assert forall|k: Seq<char>| #[trigger] entries_map(entries@).contains_key(k) implies entries_map(
                entries@,
            )[k] == entries_map(before).insert(key@, value@)[k] by {
                let j = choose|j: int| 0 <= j < entries@.len() && entries@[j].key@ == k;
                if k == key@ {
                    assert(j == idx);
                } else {
                    let j2 = choose|j2: int| 0 <= j2 < before.len() && before[j2].key@ == k;
                    assert(j2 == j);
                }
            }
            assert(entries_map(entries@) =~= entries_map(before).insert(key@, value@));
            return;
        }
        i = i + 1;
    }
    let ghost idx = entries@.len() as int;
    entries.push(ConfigEntry { key, value });
    assert forall|m: int| 0 <= m < idx implies #[trigger] entries@[m] == before[m] by {}
    assert(distinct_keys(entries@));
    assert forall|k: Seq<char>| #[trigger] entries_map(entries@).contains_key(k) == entries_map(
        before,
    ).insert(key@, value@).contains_key(k) by {
        if exists|j: int| 0 <= j < before.len() && before[j].key@ == k {
            let j = choose|j: int| 0 <= j < before.len() && before[j].key@ == k;
            assert(entries@[j].key@ == k);
        }
        if k == key@ {
            assert(entries@[idx].key@ == k);
        }
    }
    assert forall|k: Seq<char>| #[trigger] entries_map(entries@).contains_key(k) implies entries_map(
        entries@,
    )[k] == entries_map(before).insert(key@, value@)[k] by {
        let j = choose|j: int| 0 <= j < entries@.len() && entries@[j].key@ == k;
        if k == key@ {
            assert(j == idx);
        } else {
            let j2 = choose|j2: int| 0 <= j2 < before.len() && before[j2].key@ == k;
            assert(j2 == j);
        }
    }
    assert(entries_map(entries@) =~= entries_map(before).insert(key@, value@));
}

/// Reads `key=value` lines: keys are unique and later lines win.
pub fn parse_config(content: &str) -> (r: Vec<ConfigEntry>)
    ensures
        distinct_keys(r@),
        entries_map(r@) == settings_of(split_char(content@, '\n')),
{
    let lines = split_on(content, '\n');
    let ghost views = lines@.map_values(|x: String| x@);
    let mut out: Vec<ConfigEntry> = Vec::new();
    let mut i: usize = 0;
    assert(views.subrange(0, 0) == Seq::<Seq<char>>::empty());
    assert(entries_map(out@) =~= Map::<Seq<char>, Seq<char>>::empty());
    while i < lines.len()
        invariant
            i <= lines@.len(),
            views == lines@.map_values(|x: String| x@),
            views == split_char(content@, '\n'),
            distinct_keys(out@),
            entries_map(out@) == settings_of(views.subrange(0, i as int)),
        decreases lines@.len() - i,
    {
        let line = lines[i].as_str();
        assert(views.subrange(0, i + 1).drop_last() == views.subrange(0, i as int));
        assert(views.subrange(0, i + 1).last() == line@);
        match find_first(line, '=') {
            Some(eq) => {
                let n = line.unicode_len();
                let key = String::from_str(trim(line.substring_char(0, eq)));
                let value = String::from_str(trim(line.substring_char(eq + 1, n)));
                upsert(&mut out, key, value);
            },
            None => {},
        }
        i = i + 1;
    }
    assert(views.subrange(0, views.len() as int) == views);
    out
}

} // verus!

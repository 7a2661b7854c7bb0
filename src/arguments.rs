//! Assembly of the launched process's argument vector from the merged
//! version descriptor, the classpath and the placeholder values.

use vstd::prelude::*;
use crate::placeholders::{
    has_placeholder, has_unresolved_placeholder, substitute, substitute_placeholders, Placeholder,
};
use crate::rules::{is_library_allowed, rules_view, spec_is_allowed, Platform};
use crate::text::{
    contains_seq, contains_str, decimal, decimal_string, digit_char, occurs_at, split_words, starts_with, str_eq,
    strings_view, words,
};
use crate::version::{ArgEntry, GameVersion};

verus! {

/// The raw values one template entry contributes on platform `p`.
pub open spec fn entry_values(e: ArgEntry, p: Platform) -> Seq<Seq<char>> {
    match e {
        ArgEntry::Plain(s) => seq![s@],
        ArgEntry::Conditional(c) => if spec_is_allowed(rules_view(c.rules), p) {
            strings_view(c.value@)
        } else {
            Seq::empty()
        },
    }
}

/// The raw values of a template on platform `p`, in order.
pub open spec fn template_values(entries: Seq<ArgEntry>, p: Platform) -> Seq<Seq<char>>
    decreases entries.len(),
{
    if entries.len() == 0 {
        Seq::empty()
    } else {
        template_values(entries.drop_last(), p) + entry_values(entries.last(), p)
    }
}

/// A memory bound flag, which the builder sets itself.
pub open spec fn is_memory_flag(a: Seq<char>) -> bool {
    occurs_at(a, "-Xmx"@, 0) || occurs_at(a, "-Xms"@, 0)
}

/// Whether a substituted argument is passed on: no unresolved placeholder,
/// and for JVM templates no memory bound.
pub open spec fn kept(a: Seq<char>, jvm: bool) -> bool {
    !has_placeholder(a) && !(jvm && is_memory_flag(a))
}

/// Substitutes each raw value and keeps those that `kept` accepts.
pub open spec fn expand(vals: Seq<Seq<char>>, table: Seq<Placeholder>, jvm: bool) -> Seq<Seq<char>>
    decreases vals.len(),
{
    if vals.len() == 0 {
        Seq::empty()
    } else {
        let prev = expand(vals.drop_last(), table, jvm);
        let a = substitute(vals.last(), table);
        if kept(a, jvm) {
            prev.push(a)
        } else {
            prev
        }
    }
}

/// No argument produced from a template holds an unresolved placeholder
/// (nor, for JVM templates, a memory bound).
pub proof fn lemma_expand_kept(vals: Seq<Seq<char>>, table: Seq<Placeholder>, jvm: bool)
    ensures
        forall|k: int|
            0 <= k < expand(vals, table, jvm).len() ==> #[trigger] kept(
                expand(vals, table, jvm)[k],
                jvm,
            ),
    decreases vals.len(),
{
    if vals.len() > 0 {
        lemma_expand_kept(vals.drop_last(), table, jvm);
        let prev = expand(vals.drop_last(), table, jvm);
        let r = expand(vals, table, jvm);
        assert forall|k: int| 0 <= k < r.len() implies #[trigger] kept(r[k], jvm) by {
            if k < prev.len() {
                assert(r[k] == prev[k]);
                assert(kept(prev[k], jvm));
            }
        }
    }
}

fn is_memory_arg(a: &str) -> (r: bool)
    ensures
        r == is_memory_flag(a@),
{
    starts_with(a, "-Xmx") || starts_with(a, "-Xms")
}

/// Substitutes `raw` and appends it to `out` when it is kept.
fn push_expanded(out: &mut Vec<String>, raw: &str, table: &Vec<Placeholder>, jvm: bool)
    ensures
        strings_view(final(out)@) == if kept(substitute(raw@, table@), jvm) {
            strings_view(old(out)@).push(substitute(raw@, table@))
        } else {
            strings_view(old(out)@)
        },
{
    let arg = substitute_placeholders(raw, table);
    if !has_unresolved_placeholder(arg.as_str()) && !(jvm && is_memory_arg(arg.as_str())) {
        let ghost before = strings_view(out@);
        out.push(arg);
        assert(strings_view(out@) == before.push(arg@));
    }
}

/// Expands a template: the values of entries whose rules allow them on `p`,
/// substituted against `table`, without those that `kept` rejects.
pub fn expand_template(entries: &Vec<ArgEntry>, p: Platform, table: &Vec<Placeholder>, jvm: bool) -> (r:
    Vec<String>)
    ensures
        strings_view(r@) == expand(template_values(entries@, p), table@, jvm),
{
    let mut out: Vec<String> = Vec::new();
    let mut i: usize = 0;
    assert(entries@.subrange(0, 0) == Seq::<ArgEntry>::empty());
    assert(strings_view(out@) == Seq::<Seq<char>>::empty());
    while i < entries.len()
        invariant
            i <= entries@.len(),
            strings_view(out@) == expand(
                template_values(entries@.subrange(0, i as int), p),
                table@,
                jvm,
            ),
        decreases entries@.len() - i,
    {
        let ghost prefix = template_values(entries@.subrange(0, i as int), p);
        assert(entries@.subrange(0, i + 1).drop_last() == entries@.subrange(0, i as int));
        assert(entries@.subrange(0, i + 1).last() == entries@[i as int]);
        match &entries[i] {
            ArgEntry::Plain(s) => {
                push_expanded(&mut out, s.as_str(), table, jvm);
                assert(prefix.push(s@).drop_last() == prefix);
                assert(prefix + seq![s@] == prefix.push(s@));
            },
            ArgEntry::Conditional(c) => {
                if is_library_allowed(&c.rules, p) {
                    let ghost vs = strings_view(c.value@);
                    let mut j: usize = 0;
                    assert(prefix + vs.subrange(0, 0) == prefix);
                    while j < c.value.len()
                        invariant
                            j <= c.value@.len(),
                            vs == strings_view(c.value@),
                            strings_view(out@) == expand(prefix + vs.subrange(0, j as int), table@, jvm),
                        decreases c.value@.len() - j,
                    {
                        push_expanded(&mut out, c.value[j].as_str(), table, jvm);
                        assert((prefix + vs.subrange(0, j + 1)).drop_last() == prefix + vs.subrange(
                            0,
                            j as int,
                        ));
                        assert((prefix + vs.subrange(0, j + 1)).last() == c.value@[j as int]@);
                        j = j + 1;
                    }
                    assert(vs.subrange(0, vs.len() as int) == vs);
                } else {
                    assert(prefix + Seq::<Seq<char>>::empty() == prefix);
                }
            },
        }
        i = i + 1;
    }
    assert(entries@.subrange(0, entries@.len() as int) == entries@);
    out
}

/// Expands the words of a legacy argument string against `table`.
pub fn expand_legacy(line: &str, table: &Vec<Placeholder>) -> (r: Vec<String>)
    ensures
        strings_view(r@) == expand(words(line@), table@, false),
{
    let parts = split_words(line);
    let ghost ws = strings_view(parts@);
    let mut out: Vec<String> = Vec::new();
    let mut j: usize = 0;
    assert(ws.subrange(0, 0) == Seq::<Seq<char>>::empty());
    assert(strings_view(out@) == Seq::<Seq<char>>::empty());
    while j < parts.len()
        invariant
            j <= parts@.len(),
            ws == strings_view(parts@),
            ws == words(line@),
            strings_view(out@) == expand(ws.subrange(0, j as int), table@, false),
        decreases parts@.len() - j,
    {
        push_expanded(&mut out, parts[j].as_str(), table, false);
        assert(ws.subrange(0, j + 1).drop_last() == ws.subrange(0, j as int));
        j = j + 1;
    }
    assert(ws.subrange(0, ws.len() as int) == ws);
    out
}

/// What the argument builder needs besides the version descriptor.
pub struct LaunchContext {
    pub platform: Platform,
    pub natives_path: String,
    pub classpath: String,
    pub min_memory: u32,
    pub max_memory: u32,
    /// Values of the JVM template placeholders.
    pub jvm_placeholders: Vec<Placeholder>,
    /// Values of the game template placeholders.
    pub game_placeholders: Vec<Placeholder>,
}

/// JVM arguments from the version's JVM template.
pub open spec fn jvm_part(v: GameVersion, c: LaunchContext) -> Seq<Seq<char>> {
    match v.arguments {
        Some(a) => match a.jvm {
            Some(j) => expand(template_values(j@, c.platform), c.jvm_placeholders@, true),
            None => Seq::empty(),
        },
        None => Seq::empty(),
    }
}

/// Game arguments: the legacy string when present, else the game template.
pub open spec fn game_part(v: GameVersion, c: LaunchContext) -> Seq<Seq<char>> {
    match v.minecraft_arguments {
        Some(s) => expand(words(s@), c.game_placeholders@, false),
        None => match v.arguments {
            Some(a) => match a.game {
                Some(g) => expand(template_values(g@, c.platform), c.game_placeholders@, false),
                None => Seq::empty(),
            },
            None => Seq::empty(),
        },
    }
}

/// The explicit memory bounds, maximum first.
pub open spec fn memory_flags(c: LaunchContext) -> Seq<Seq<char>> {
    seq![
        "-Xmx"@ + decimal(c.max_memory as nat) + "M"@,
        "-Xms"@ + decimal(c.min_memory as nat) + "M"@,
    ]
}

/// Whether some argument already sets the native-library path.
pub open spec fn has_library_path_flag(args: Seq<Seq<char>>) -> bool {
    exists|k: int| 0 <= k < args.len() && contains_seq(args[k], "-Djava.library.path"@)
}

/// Whether some argument already is a classpath flag.
pub open spec fn has_classpath_flag(args: Seq<Seq<char>>) -> bool {
    exists|k: int| 0 <= k < args.len() && (args[k] == "-cp"@ || args[k] == "-classpath"@)
}

/// `args` with a native-library-path flag appended unless one is present.
pub open spec fn with_library_path(args: Seq<Seq<char>>, natives: Seq<char>) -> Seq<Seq<char>> {
    if has_library_path_flag(args) {
        args
    } else {
        args.push("-Djava.library.path="@ + natives)
    }
}

/// `args` with `-cp <classpath>` appended unless a classpath flag is present.
pub open spec fn with_classpath(args: Seq<Seq<char>>, classpath: Seq<char>) -> Seq<Seq<char>> {
    if has_classpath_flag(args) {
        args
    } else {
        args.push("-cp"@).push(classpath)
    }
}

/// The full argument vector: JVM template arguments, memory bounds, the
/// native-library path and classpath when missing, the main class, then the
/// game arguments.
pub open spec fn launch_arguments(v: GameVersion, c: LaunchContext) -> Seq<Seq<char>> {
    with_classpath(
        with_library_path(jvm_part(v, c) + memory_flags(c), c.natives_path@),
        c.classpath@,
    ).push(v.main_class@) + game_part(v, c)
}

fn memory_flag(prefix: &str, megabytes: u32) -> (r: String)
    ensures
        r@ == prefix@ + decimal(megabytes as nat) + "M"@,
{
    let mut s = String::from_str(prefix);
    let digits = decimal_string(megabytes as u64);
    s.append(digits.as_str());
    s.append("M");
    s
}

fn any_contains(args: &Vec<String>, sub: &str) -> (r: bool)
    ensures
        r == exists|k: int| 0 <= k < args@.len() && contains_seq(#[trigger] strings_view(args@)[k], sub@),
{
    let mut i: usize = 0;
    while i < args.len()
        invariant
            i <= args@.len(),
            forall|k: int| 0 <= k < i ==> !contains_seq(#[trigger] strings_view(args@)[k], sub@),
        decreases args@.len() - i,
    {
        if contains_str(args[i].as_str(), sub) {
            assert(contains_seq(strings_view(args@)[i as int], sub@));
            return true;
        }
        i = i + 1;
    }
    false
}

fn any_classpath_flag(args: &Vec<String>) -> (r: bool)
    ensures
        r == has_classpath_flag(strings_view(args@)),
{
    let mut i: usize = 0;
    while i < args.len()
        invariant
            i <= args@.len(),
            forall|k: int|
                0 <= k < i ==> !(#[trigger] strings_view(args@)[k] == "-cp"@ || strings_view(args@)[k]
                    == "-classpath"@),
        decreases args@.len() - i,
    {
        if str_eq(args[i].as_str(), "-cp") || str_eq(args[i].as_str(), "-classpath") {
            assert(strings_view(args@)[i as int] == args@[i as int]@);
            return true;
        }
        i = i + 1;
    }
    false
}

/// Builds the ordered argument vector of the launched process.
pub fn build_arguments(version: &GameVersion, ctx: &LaunchContext) -> (r: Vec<String>)
    ensures
        strings_view(r@) == launch_arguments(*version, *ctx),
{
    let mut args: Vec<String> = match &version.arguments {
        Some(a) => match &a.jvm {
            Some(j) => expand_template(j, ctx.platform, &ctx.jvm_placeholders, true),
            None => Vec::new(),
        },
        None => Vec::new(),
    };
    let ghost jvm = strings_view(args@);
    assert(jvm == jvm_part(*version, *ctx));
    args.push(memory_flag("-Xmx", ctx.max_memory));
    args.push(memory_flag("-Xms", ctx.min_memory));
    assert(strings_view(args@) == jvm + memory_flags(*ctx));
    let ghost with_mem = strings_view(args@);
    if !any_contains(&args, "-Djava.library.path") {
        let mut flag = String::from_str("-Djava.library.path=");
        flag.append(ctx.natives_path.as_str());
        args.push(flag);
        assert(strings_view(args@) == with_mem.push("-Djava.library.path="@ + ctx.natives_path@));
    }
    assert(strings_view(args@) == with_library_path(with_mem, ctx.natives_path@));
    let ghost with_lib = strings_view(args@);
    if !any_classpath_flag(&args) {
        args.push(String::from_str("-cp"));
        args.push(ctx.classpath.clone());
        assert(strings_view(args@) == with_lib.push("-cp"@).push(ctx.classpath@));
    }
    let ghost with_cp = strings_view(args@);
    args.push(version.main_class.clone());
    assert(strings_view(args@) == with_cp.push(version.main_class@));
    let mut game: Vec<String> = match &version.minecraft_arguments {
        Some(line) => expand_legacy(line.as_str(), &ctx.game_placeholders),
        None => match &version.arguments {
            Some(a) => match &a.game {
                Some(g) => expand_template(g, ctx.platform, &ctx.game_placeholders, false),
                None => Vec::new(),
            },
            None => Vec::new(),
        },
    };
    assert(strings_view(game@) == game_part(*version, *ctx));
    let ghost head = strings_view(args@);
    let ghost tail = strings_view(game@);
    args.append(&mut game);
    assert(strings_view(args@) == head + tail);
    args
}

/// Every argument that comes from a template, JVM or game, is free of
/// unresolved placeholders; JVM template arguments set no memory bound.
pub proof fn lemma_template_arguments_resolved(v: GameVersion, c: LaunchContext)
    ensures
        forall|k: int| 0 <= k < jvm_part(v, c).len() ==> #[trigger] kept(jvm_part(v, c)[k], true),
        forall|k: int|
            0 <= k < game_part(v, c).len() ==> !has_placeholder(#[trigger] game_part(v, c)[k]),
{
    match v.arguments {
        Some(a) => match a.jvm {
            Some(j) => lemma_expand_kept(template_values(j@, c.platform), c.jvm_placeholders@, true),
            None => {},
        },
        None => {},
    }
    match v.minecraft_arguments {
        Some(s) => {
            lemma_expand_kept(words(s@), c.game_placeholders@, false);
            assert forall|k: int| 0 <= k < game_part(v, c).len() implies !has_placeholder(
                #[trigger] game_part(v, c)[k],
            ) by {
                assert(kept(game_part(v, c)[k], false));
            }
        },
        None => match v.arguments {
            Some(a) => match a.game {
                Some(g) => {
                    lemma_expand_kept(template_values(g@, c.platform), c.game_placeholders@, false);
                    assert forall|k: int| 0 <= k < game_part(v, c).len() implies !has_placeholder(
                        #[trigger] game_part(v, c)[k],
                    ) by {
                        assert(kept(game_part(v, c)[k], false));
                    }
                },
                None => {},
            },
            None => {},
        },
    }
}

/// A sequence without `$` holds no placeholder.
pub proof fn lemma_no_dollar(s: Seq<char>)
    requires
        forall|i: int| 0 <= i < s.len() ==> s[i] != '$',
    ensures
        !has_placeholder(s),
{
    reveal_strlit("${");
    if has_placeholder(s) {
        let i = choose|i: int| occurs_at(s, "${"@, i);
        assert(s.subrange(i, i + 2)[0] == '$');
    }
}

/// Joining two placeholder-free sequences creates none when the first does
/// not end in `$`.
pub proof fn lemma_concat_no_placeholder(a: Seq<char>, b: Seq<char>)
    requires
        !has_placeholder(a),
        !has_placeholder(b),
        a.len() > 0 ==> a.last() != '$',
    ensures
        !has_placeholder(a + b),
{
    reveal_strlit("${");
    let ab = a + b;
    if has_placeholder(ab) {
        let i = choose|i: int| occurs_at(ab, "${"@, i);
        let sub = ab.subrange(i, i + 2);
        if i + 2 <= a.len() {
            assert(a.subrange(i, i + 2) =~= sub);
            assert(occurs_at(a, "${"@, i));
        } else if i >= a.len() {
            assert(b.subrange(i - a.len(), i - a.len() + 2) =~= sub);
            assert(occurs_at(b, "${"@, i - a.len()));
        } else {
            assert(sub[0] == a.last());
        }
    }
}

/// Each decimal digit character is a digit.
pub proof fn lemma_digit_char(d: nat)
    requires
        d < 10,
    ensures
        '0' <= digit_char(d) <= '9',
{
    let t = seq!['0', '1', '2', '3', '4', '5', '6', '7', '8', '9'];
    assert(forall|i: int| 0 <= i < 10 ==> '0' <= #[trigger] t[i] <= '9');
}

/// Decimal text consists of digits only.
pub proof fn lemma_decimal_digits(n: nat)
    ensures
        forall|i: int| 0 <= i < decimal(n).len() ==> '0' <= #[trigger] decimal(n)[i] <= '9',
    decreases n,
{
    lemma_digit_char(n % 10);
    if n >= 10 {
        lemma_decimal_digits(n / 10);
        let prev = decimal(n / 10);
        assert(decimal(n) == prev.push(digit_char(n % 10)));
        assert forall|i: int| 0 <= i < decimal(n).len() implies '0' <= #[trigger] decimal(n)[i] <= '9' by {
            if i < prev.len() {
                assert(decimal(n)[i] == prev[i]);
            }
        }
    } else {
        assert(decimal(n) == seq![digit_char(n)]);
    }
}

/// The memory bounds hold no placeholder.
pub proof fn lemma_memory_flags_resolved(c: LaunchContext)
    ensures
        forall|k: int| 0 <= k < memory_flags(c).len() ==> !has_placeholder(#[trigger] memory_flags(c)[k]),
{
    reveal_strlit("-Xmx");
    reveal_strlit("-Xms");
    reveal_strlit("M");
    lemma_decimal_digits(c.max_memory as nat);
    lemma_decimal_digits(c.min_memory as nat);
    let hi = "-Xmx"@ + decimal(c.max_memory as nat) + "M"@;
    let lo = "-Xms"@ + decimal(c.min_memory as nat) + "M"@;
    assert forall|i: int| 0 <= i < hi.len() implies hi[i] != '$' by {
        if i >= 4 && i < 4 + decimal(c.max_memory as nat).len() {
            assert(hi[i] == decimal(c.max_memory as nat)[i - 4]);
        }
    }
    assert forall|i: int| 0 <= i < lo.len() implies lo[i] != '$' by {
        if i >= 4 && i < 4 + decimal(c.min_memory as nat).len() {
            assert(lo[i] == decimal(c.min_memory as nat)[i - 4]);
        }
    }
    lemma_no_dollar(hi);
    lemma_no_dollar(lo);
}

/// No element of the argument vector holds an unresolved placeholder, as
/// long as the values passed through unsubstituted (main class, classpath,
/// native-library path) hold none.
pub proof fn lemma_launch_arguments_resolved(v: GameVersion, c: LaunchContext)
    requires
        !has_placeholder(v.main_class@),
        !has_placeholder(c.classpath@),
        !has_placeholder(c.natives_path@),
    ensures
        forall|k: int|
            0 <= k < launch_arguments(v, c).len() ==> !has_placeholder(#[trigger] launch_arguments(v, c)[k]),
{
    lemma_template_arguments_resolved(v, c);
    lemma_memory_flags_resolved(c);
    let j = jvm_part(v, c);
    let a = j + memory_flags(c);
    assert forall|k: int| 0 <= k < a.len() implies !has_placeholder(#[trigger] a[k]) by {
        if k < j.len() {
            assert(kept(j[k], true));
        } else {
            assert(a[k] == memory_flags(c)[k - j.len()]);
        }
    }
    reveal_strlit("-Djava.library.path=");
    reveal_strlit("-cp");
    let flag = "-Djava.library.path="@;
    lemma_no_dollar(flag);
    lemma_concat_no_placeholder(flag, c.natives_path@);
    lemma_no_dollar("-cp"@);
    let b = with_library_path(a, c.natives_path@);
    assert forall|k: int| 0 <= k < b.len() implies !has_placeholder(#[trigger] b[k]) by {
        if k < a.len() {
            assert(b[k] == a[k]);
        }
    }
    let d = with_classpath(b, c.classpath@);
    assert forall|k: int| 0 <= k < d.len() implies !has_placeholder(#[trigger] d[k]) by {
        if k < b.len() {
            assert(d[k] == b[k]);
        }
    }
    let e = d.push(v.main_class@);
    let g = game_part(v, c);
    let all = e + g;
    assert(all == launch_arguments(v, c));
    assert forall|k: int| 0 <= k < all.len() implies !has_placeholder(#[trigger] all[k]) by {
        if k < d.len() {
            assert(all[k] == d[k]);
        } else if k == d.len() {
            assert(all[k] == v.main_class@);
        } else {
            assert(all[k] == g[k - e.len()]);
        }
    }
}

} // verus!

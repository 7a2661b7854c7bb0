//! `${name}` placeholder substitution against a table of values.

use vstd::prelude::*;
use crate::text::{contains_seq, contains_str, str_eq};

verus! {

/// One row of a placeholder table: `${key}` stands for `value`.
#[derive(Debug, Clone)]
pub struct Placeholder {
    pub key: String,
    pub value: String,
}

/// Value of the first row whose key is `name`.
pub open spec fn lookup(table: Seq<Placeholder>, name: Seq<char>) -> Option<Seq<char>>
    decreases table.len(),
{
    if table.len() == 0 {
        None
    } else if table[0].key@ == name {
        Some(table[0].value@)
    } else {
        lookup(table.subrange(1, table.len() as int), name)
    }
}

/// Position of the first `c` in `t`, or -1.
pub open spec fn first_index(t: Seq<char>, c: char) -> int
    decreases t.len(),
{
    if t.len() == 0 {
        -1
    } else if t[0] == c {
        0
    } else {
        let k = first_index(t.subrange(1, t.len() as int), c);
        if k < 0 {
            -1
        } else {
            k + 1
        }
    }
}

/// Position of the `}` that closes a placeholder opening at the start of
/// `s`, or -1 when `s` does not open one or never closes it.
pub open spec fn closing_at(s: Seq<char>) -> int {
    if s.len() >= 2 && s[0] == '$' && s[1] == '{' {
        let k = first_index(s.subrange(2, s.len() as int), '}');
        if k < 0 {
            -1
        } else {
            k + 2
        }
    } else {
        -1
    }
}

/// Left-to-right substitution: each `${name}` whose name the table knows
/// becomes its value; everything else is copied unchanged.
pub open spec fn substitute(s: Seq<char>, table: Seq<Placeholder>) -> Seq<char>
    decreases s.len(),
{
    if s.len() == 0 {
        Seq::empty()
    } else {
        let close = closing_at(s);
        if 2 <= close < s.len() && lookup(table, s.subrange(2, close)).is_some() {
            lookup(table, s.subrange(2, close)).unwrap() + substitute(
                s.subrange(close + 1, s.len() as int),
                table,
            )
        } else {
            seq![s[0]] + substitute(s.subrange(1, s.len() as int), table)
        }
    }
}

/// Whether `s` still holds the opening `${` of a placeholder.
pub open spec fn has_placeholder(s: Seq<char>) -> bool {
    contains_seq(s, "${"@)
}

/// `first_index` is -1 or the position of the first occurrence.
pub proof fn lemma_first_index(t: Seq<char>, c: char)
    ensures
        -1 <= first_index(t, c) < t.len(),
        first_index(t, c) >= 0 ==> t[first_index(t, c)] == c,
        forall|k: int| 0 <= k < t.len() && (first_index(t, c) < 0 || k < first_index(t, c)) ==> t[k] != c,
    decreases t.len(),
{
    if t.len() > 0 {
        let rest = t.subrange(1, t.len() as int);
        lemma_first_index(rest, c);
        assert forall|k: int| 1 <= k < t.len() implies t[k] == rest[k - 1] by {}
    }
}

/// Value of the first row whose key is `name`.
pub fn find_placeholder<'a>(table: &'a Vec<Placeholder>, name: &str) -> (r: Option<&'a String>)
    ensures
        match r {
            None => lookup(table@, name@).is_none(),
            Some(v) => lookup(table@, name@) == Some(v@),
        },
{
    let mut i: usize = 0;
    assert(table@.subrange(0, table@.len() as int) == table@);
    while i < table.len()
        invariant
            i <= table@.len(),
            lookup(table@, name@) == lookup(table@.subrange(i as int, table@.len() as int), name@),
        decreases table@.len() - i,
    {
        let ghost rest = table@.subrange(i as int, table@.len() as int);
        assert(rest.subrange(1, rest.len() as int) == table@.subrange(i + 1, table@.len() as int));
        if str_eq(table[i].key.as_str(), name) {
            return Some(&table[i].value);
        }
        i = i + 1;
    }
    None
}

/// Position (in `s`) of the first `}` at or after `from`.
fn find_close(s: &str, from: usize) -> (r: Option<usize>)
    requires
        from <= s@.len(),
    ensures
        match r {
            None => first_index(s@.subrange(from as int, s@.len() as int), '}') == -1,
            Some(j) => from <= j < s@.len() && first_index(s@.subrange(from as int, s@.len() as int), '}')
                == j - from,
        },
{
    let n = s.unicode_len();
    let mut j: usize = from;
    proof {
        lemma_first_index(s@.subrange(from as int, n as int), '}');
    }
    while j < n
        invariant
            n == s@.len(),
            from <= j <= n,
            forall|k: int| from <= k < j ==> s@[k] != '}',
        decreases n - j,
    {
        if s.get_char(j) == '}' {
            proof {
                let t = s@.subrange(from as int, n as int);
                lemma_first_index(t, '}');
                assert(t[j - from] == '}');
            }
            return Some(j);
        }
        j = j + 1;
    }
    proof {
        let t = s@.subrange(from as int, n as int);
        lemma_first_index(t, '}');
        if first_index(t, '}') >= 0 {
            assert(t[first_index(t, '}')] == s@[from + first_index(t, '}')]);
        }
    }
    None
}

/// Replaces each known `${name}` in `s` by its value from `table`.
pub fn substitute_placeholders(s: &str, table: &Vec<Placeholder>) -> (r: String)
    ensures
        r@ == substitute(s@, table@),
{
    let n = s.unicode_len();
    let mut out = String::new();
    let mut i: usize = 0;
    assert(s@.subrange(0, n as int) == s@);
    assert(out@ + substitute(s@, table@) == substitute(s@, table@));
    while i < n
        invariant
            n == s@.len(),
            i <= n,
            out@ + substitute(s@.subrange(i as int, n as int), table@) == substitute(s@, table@),
        decreases n - i,
    {
        let ghost rest = s@.subrange(i as int, n as int);
        let mut done = false;
        if s.get_char(i) == '$' && i + 1 < n && s.get_char(i + 1) == '{' {
            assert(rest.subrange(2, rest.len() as int) == s@.subrange(i + 2, n as int));
            match find_close(s, i + 2) {
                Some(j) => {
                    let name = s.substring_char(i + 2, j);
                    assert(closing_at(rest) == j - i);
                    assert(rest.subrange(2, j - i) == name@);
                    match find_placeholder(table, name) {
                        Some(v) => {
                            assert(rest.subrange(j - i + 1, rest.len() as int) == s@.subrange(
                                j + 1,
                                n as int,
                            ));
                            let ghost before = out@;
                            out.append(v.as_str());
                            assert(out@ + substitute(s@.subrange(j + 1, n as int), table@) == before
                                + substitute(rest, table@));
                            i = j + 1;
                            done = true;
                        },
                        None => {},
                    }
                },
                None => {
                    assert(closing_at(rest) == -1);
                },
            }
        } else {
            assert(closing_at(rest) == -1);
        }
        if !done {
            let ghost before = out@;
            out.append(s.substring_char(i, i + 1));
            assert(rest.subrange(1, rest.len() as int) == s@.subrange(i + 1, n as int));
            assert(out@ + substitute(s@.subrange(i + 1, n as int), table@) == before + substitute(
                rest,
                table@,
            ));
            i = i + 1;
        }
    }
    assert(s@.subrange(n as int, n as int) == Seq::<char>::empty());
    assert(s@.subrange(0, n as int) == s@);
    out
}

/// Whether `s` still holds the opening `${` of a placeholder.
pub fn has_unresolved_placeholder(s: &str) -> (r: bool)
    ensures
        r == has_placeholder(s@),
{
    contains_str(s, "${")
}

} // verus!

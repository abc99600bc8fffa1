//! Rewriting of SQL templates with named parameters (`:name`) into positional ones.

use vstd::prelude::*;
use vstd::utf8::{encode_scalar, encode_utf8};
use crate::text::{str_chars, string_from_chars, str_eq};

verus! {

/// The UTF-8 length of a text, in bytes.
pub open spec fn byte_len(s: Seq<char>) -> nat {
    encode_utf8(s).len()
}

/// The UTF-8 length of one character, in bytes.
pub open spec fn char_width(c: char) -> nat {
    encode_scalar(c as u32).len()
}

/// Whether some character of `s` (or its end) starts at byte offset `b`.
pub open spec fn is_char_offset(s: Seq<char>, b: int) -> bool {
    exists|k: int| 0 <= k <= s.len() && #[trigger] byte_len(s.take(k)) == b
}

/// The character position that starts at byte offset `b`.
pub open spec fn char_index(s: Seq<char>, b: int) -> int {
    choose|k: int| 0 <= k <= s.len() && #[trigger] byte_len(s.take(k)) == b
}

/// The matches of the pattern `:(\w+)` in `template`, left to right, each as the
/// byte offset where it starts and the captured name.
pub uninterp spec fn named_param_matches(template: Seq<char>) -> Seq<(int, Seq<char>)>;

/// The text of a named parameter.
pub open spec fn param_token(name: Seq<char>) -> Seq<char> {
    seq![':'] + name
}

/// The matches with their byte offsets turned into character positions.
pub open spec fn char_matches(t: Seq<char>, ms: Seq<(int, Seq<char>)>) -> Seq<(int, Seq<char>)> {
    ms.map_values(|m: (int, Seq<char>)| (char_index(t, m.0), m.1))
}

/// The character position just after a match.
pub open spec fn match_end(m: (int, Seq<char>)) -> int {
    m.0 + 1 + m.1.len()
}

/// Each match is its parameter's text at its position in `t`, and the matches
/// come left to right without overlapping.
pub open spec fn well_placed(t: Seq<char>, cms: Seq<(int, Seq<char>)>) -> bool {
    &&& forall|i: int| 0 <= i < cms.len() ==> 0 <= (#[trigger] cms[i]).0 && match_end(cms[i]) <= t.len()
        && t.subrange(cms[i].0, match_end(cms[i])) == param_token(cms[i].1)
    &&& forall|i: int, j: int| 0 <= i < j < cms.len() ==> match_end(#[trigger] cms[i]) <= (#[trigger] cms[j]).0
}

/// Finds the named parameters of a SQL template with `regex::Regex`, pattern `:(\w+)`,
/// through `captures_iter`, and returns where each match starts (`Match::start`, a
/// byte offset) and its first group. The matches depend on the template alone and are
/// named. The regex documentation gives the rest: a match starts at a character
/// boundary and is the text `:` and its group, and `captures_iter` yields successive
/// matches that do not overlap.
#[verifier::external_body]
fn find_named_params(template: &str) -> (caps: Vec<(usize, String)>)
    ensures
        caps@.map_values(|c: (usize, String)| (c.0 as int, c.1@)) == named_param_matches(template@),
        forall|i: int| 0 <= i < caps@.len() ==> is_char_offset(template@, #[trigger] caps@[i].0 as int),
        well_placed(template@, char_matches(template@, caps@.map_values(|c: (usize, String)| (c.0 as int, c.1@)))),
{
    let re = regex::Regex::new(r":(\w+)").unwrap();
    re.captures_iter(template).map(|c| (c.get(0).unwrap().start(), c[1].to_string())).collect()
}

proof fn lemma_encode_concat(a: Seq<char>, b: Seq<char>)
    ensures
        encode_utf8(a + b) == encode_utf8(a) + encode_utf8(b),
    decreases a.len(),
{
    if a.len() == 0 {
        assert(a + b =~= b);
        assert(encode_utf8(a) + encode_utf8(b) =~= encode_utf8(b));
    } else {
        lemma_encode_concat(a.drop_first(), b);
        assert((a + b).drop_first() =~= a.drop_first() + b);
        assert((a + b)[0] == a[0]);
        assert(encode_utf8(a + b) =~= encode_utf8(a) + encode_utf8(b));
    }
}

proof fn lemma_char_width_pos(c: char)
    ensures
        1 <= char_width(c) <= 4,
{
}

/// One more character adds its width.
proof fn lemma_byte_len_step(s: Seq<char>, k: int)
    requires
        0 <= k < s.len(),
    ensures
        byte_len(s.take(k + 1)) == byte_len(s.take(k)) + char_width(s[k]),
{
    assert(s.take(k + 1) =~= s.take(k) + seq![s[k]]);
    lemma_encode_concat(s.take(k), seq![s[k]]);
    let one = seq![s[k]];
    assert(one[0] == s[k]);
    assert(one.drop_first() =~= Seq::<char>::empty());
    assert(encode_utf8(one.drop_first()) =~= Seq::<u8>::empty());
    assert(encode_utf8(one) == encode_scalar(one[0] as u32) + encode_utf8(one.drop_first()));
    assert(encode_utf8(one) =~= encode_scalar(s[k] as u32));
}

/// Byte offsets grow with the character position, by at least one per character.
proof fn lemma_byte_len_mono(s: Seq<char>, j: int, k: int)
    requires
        0 <= j <= k <= s.len(),
    ensures
        byte_len(s.take(j)) + (k - j) <= byte_len(s.take(k)),
    decreases k - j,
{
    if j < k {
        lemma_byte_len_mono(s, j, k - 1);
        lemma_byte_len_step(s, k - 1);
        lemma_char_width_pos(s[k - 1]);
    }
}

fn utf8_width(c: char) -> (w: usize)
    ensures
        w == char_width(c),
{
    let v = c as u32;
    if v < 0x80 {
        1
    } else if v < 0x800 {
        2
    } else if v < 0x10000 {
        3
    } else {
        4
    }
}

/// A SQL statement with positional `?` parameters and, in binding order, the
/// names whose values are bound to them.
pub struct PositionalQuery {
    pub sql: String,
    pub bind_names: Vec<String>,
}

/// The statement text after the rewrite: each match, at its own position, becomes
/// `?` when its name has a value and stays as written otherwise; the text between
/// matches is kept.
pub open spec fn rewrite_sql(t: Seq<char>, cms: Seq<(int, Seq<char>)>, keys: Set<Seq<char>>) -> Seq<char>
    decreases cms.len(),
{
    if cms.len() == 0 {
        t
    } else {
        let m = cms.last();
        rewrite_sql(t.subrange(0, m.0), cms.drop_last(), keys)
            + (if keys.contains(m.1) { seq!['?'] } else { param_token(m.1) })
            + t.subrange(match_end(m), t.len() as int)
    }
}

/// The names that have values, in the order of their matches: one binding per `?`.
pub open spec fn bound_names(ms: Seq<(int, Seq<char>)>, keys: Set<Seq<char>>) -> Seq<Seq<char>>
    decreases ms.len(),
{
    if ms.len() == 0 {
        Seq::empty()
    } else {
        let prev = bound_names(ms.drop_last(), keys);
        if keys.contains(ms.last().1) { prev.push(ms.last().1) } else { prev }
    }
}

/// Text after the last match passes through the rewrite unchanged.
proof fn lemma_rewrite_extend(t0: Seq<char>, u: Seq<char>, cms: Seq<(int, Seq<char>)>, keys: Set<Seq<char>>)
    requires
        forall|j: int| 0 <= j < cms.len() ==> 0 <= (#[trigger] cms[j]).0 && match_end(cms[j]) <= t0.len(),
    ensures
        rewrite_sql(t0 + u, cms, keys) == rewrite_sql(t0, cms, keys) + u,
{
    if cms.len() > 0 {
        let m = cms.last();
        assert(cms[cms.len() - 1] == m);
        assert((t0 + u).subrange(0, m.0) =~= t0.subrange(0, m.0));
        assert((t0 + u).subrange(match_end(m), (t0 + u).len() as int) =~= t0.subrange(match_end(m), t0.len() as int) + u);
        let a = rewrite_sql(t0.subrange(0, m.0), cms.drop_last(), keys);
        let p = if keys.contains(m.1) { seq!['?'] } else { param_token(m.1) };
        assert(a + p + (t0.subrange(match_end(m), t0.len() as int) + u) =~= a + p + t0.subrange(match_end(m), t0.len() as int) + u);
    } else {
        assert(t0 + u == t0 + u);
    }
}

fn contains_name(names: &Vec<String>, name: &str) -> (r: bool)
    ensures
        r == names@.map_values(|n: String| n@).contains(name@),
{
    let ghost view = names@.map_values(|n: String| n@);
    let mut i: usize = 0;
    while i < names.len()
        invariant
            0 <= i <= names.len(),
            view == names@.map_values(|n: String| n@),
            forall|k: int| 0 <= k < i ==> view[k] != name@,
        decreases names.len() - i,
    {
        if str_eq(names[i].as_str(), name) {
            assert(view[i as int] == name@);
            return true;
        }
        i += 1;
    }
    false
}

fn copy_range(out: &mut Vec<char>, v: &Vec<char>, from: usize, to: usize)
    requires
        from <= to <= v.len(),
    ensures
        final(out)@ == old(out)@ + v@.subrange(from as int, to as int),
{
    let ghost start = out@;
    let mut k: usize = from;
    while k < to
        invariant
            from <= k <= to <= v.len(),
            out@ == start + v@.subrange(from as int, k as int),
        decreases to - k,
    {
        out.push(v[k]);
        k += 1;
        assert(out@ =~= start + v@.subrange(from as int, k as int));
    }
}

/// Turns a SQLite template with named parameters (`:name`) into one with positional
/// parameters (`?`). `param_names` are the names that have values; each match of such
/// a name is replaced where it stands, and a parameter without a value is left in the
/// text as it is. The names are bound in the order of their matches.
pub fn prepare_sqlite_query(template: &str, param_names: &Vec<String>) -> (q: PositionalQuery)
    ensures
        q.sql@ == rewrite_sql(
            template@,
            char_matches(template@, named_param_matches(template@)),
            param_names@.map_values(|n: String| n@).to_set(),
        ),
        q.bind_names@.map_values(|n: String| n@) == bound_names(
            named_param_matches(template@),
            param_names@.map_values(|n: String| n@).to_set(),
        ),
{
    let caps = find_named_params(template);
    let tv = str_chars(template);
    let ghost t = template@;
    let ghost keys = param_names@.map_values(|n: String| n@).to_set();
    let ghost ms = named_param_matches(t);
    let ghost cms = char_matches(t, ms);
    let mut out: Vec<char> = Vec::new();
    let mut bind_names: Vec<String> = Vec::new();
    let mut ci: usize = 0;
    let mut cb: usize = 0;
    let mut e: usize = 0;
    let mut i: usize = 0;
    proof {
        assert(caps@.map_values(|c: (usize, String)| (c.0 as int, c.1@)).len() == caps@.len());
        assert(t.take(0) =~= Seq::<char>::empty());
        assert(t.subrange(0, 0) =~= Seq::<char>::empty());
        assert(cms.take(0) =~= Seq::<(int, Seq<char>)>::empty());
        assert(ms.take(0) =~= Seq::<(int, Seq<char>)>::empty());
    }
    while i < caps.len()
        invariant
            tv@ == t,
            t == template@,
            ms == named_param_matches(t),
            cms == char_matches(t, ms),
            keys == param_names@.map_values(|n: String| n@).to_set(),
            caps@.map_values(|c: (usize, String)| (c.0 as int, c.1@)) == ms,
            caps@.len() == ms.len(),
            forall|j: int| 0 <= j < caps@.len() ==> is_char_offset(t, #[trigger] caps@[j].0 as int),
            well_placed(t, cms),
            0 <= i <= caps.len(),
            ci <= e <= t.len(),
            cb == byte_len(t.take(ci as int)),
            i == 0 ==> e == 0,
            i > 0 ==> e == match_end(cms[i - 1]) && ci == cms[i - 1].0,
            out@ == rewrite_sql(t.subrange(0, e as int), cms.take(i as int), keys),
            bind_names@.map_values(|n: String| n@) == bound_names(ms.take(i as int), keys),
        decreases caps.len() - i,
    {
        let b: usize = caps[i].0;
        let ghost k = char_index(t, b as int);
        proof {
            assert(ms[i as int] == (caps@[i as int].0 as int, caps@[i as int].1@));
            assert(is_char_offset(t, caps@[i as int].0 as int));
            assert(0 <= k <= t.len() && byte_len(t.take(k)) == b);
            assert(cms[i as int] == (k, ms[i as int].1));
            if i > 0 {
                assert(match_end(cms[i - 1]) <= cms[i as int].0);
            }
            assert(ci <= k);
        }
        while cb < b
            invariant
                tv@ == t,
                0 <= k <= t.len(),
                byte_len(t.take(k)) == b,
                ci <= k,
                cb == byte_len(t.take(ci as int)),
            decreases k - ci,
        {
            proof {
                if ci >= k {
                    lemma_byte_len_mono(t, k, ci as int);
                }
                lemma_byte_len_step(t, ci as int);
                lemma_byte_len_mono(t, ci + 1, k);
            }
            let w = utf8_width(tv[ci]);
            cb = cb + w;
            ci = ci + 1;
        }
        proof {
            lemma_byte_len_mono(t, ci as int, k);
            assert(ci == k);
        }
        let name_chars = str_chars(caps[i].1.as_str());
        let ghost m = cms[i as int];
        proof {
            assert(m.1 == caps@[i as int].1@);
            assert(0 <= m.0 && match_end(m) <= t.len());
            assert(name_chars@ == m.1);
            assert(ci == m.0);
        }
        let new_e: usize = ci + 1 + name_chars.len();
        let ghost before = out@;
        copy_range(&mut out, &tv, e, ci);
        proof {
            lemma_rewrite_extend(t.subrange(0, e as int), t.subrange(e as int, ci as int), cms.take(i as int), keys);
            assert(t.subrange(0, e as int) + t.subrange(e as int, ci as int) =~= t.subrange(0, ci as int));
        }
        let present = contains_name(param_names, caps[i].1.as_str());
        proof {
            let names_view = param_names@.map_values(|n: String| n@);
            assert(present == keys.contains(caps@[i as int].1@)) by {
                if present {
                    assert(names_view.to_set().contains(caps@[i as int].1@));
                }
                if keys.contains(caps@[i as int].1@) {
                    assert(names_view.contains(caps@[i as int].1@));
                }
            }
        }
        if present {
            out.push('?');
            bind_names.push(caps[i].1.clone());
        } else {
            copy_range(&mut out, &tv, ci, new_e);
        }
        proof {
            let tn = t.subrange(0, new_e as int);
            assert(cms.take(i + 1).last() == m);
            assert(cms.take(i + 1).drop_last() =~= cms.take(i as int));
            assert(tn.subrange(0, m.0) =~= t.subrange(0, ci as int));
            assert(tn.subrange(match_end(m), tn.len() as int) =~= Seq::<char>::empty());
            assert(t.subrange(ci as int, new_e as int) == param_token(m.1));
            assert(ms.take(i + 1).drop_last() =~= ms.take(i as int));
            assert(ms.take(i + 1).last() == ms[i as int]);
            assert(out@ =~= rewrite_sql(tn, cms.take(i + 1), keys));
            assert(bind_names@.map_values(|n: String| n@) =~= bound_names(ms.take(i + 1), keys));
        }
        e = new_e;
        i += 1;
    }
    let ghost before = out@;
    copy_range(&mut out, &tv, e, tv.len());
    proof {
        assert(cms.take(i as int) =~= cms);
        assert(ms.take(i as int) =~= ms);
        assert forall|j: int| 0 <= j < cms.len() implies 0 <= (#[trigger] cms[j]).0 && match_end(cms[j]) <= e by {
            if j < i - 1 {
                assert(match_end(cms[j]) <= cms[i - 1].0);
            }
        }
        lemma_rewrite_extend(t.subrange(0, e as int), t.subrange(e as int, t.len() as int), cms, keys);
        assert(t.subrange(0, e as int) + t.subrange(e as int, t.len() as int) =~= t);
    }
    PositionalQuery { sql: string_from_chars(&out), bind_names }
}

/// The matches of the pattern `:(\w+)|\$(\w+)` in `template`, left to right, each as
/// the byte offset where it starts and the captured name (of whichever group took part).
pub uninterp spec fn pg_param_matches(template: Seq<char>) -> Seq<(int, Seq<char>)>;

/// Whether the regex class `\w` holds the character.
pub uninterp spec fn regex_word_char(c: char) -> bool;

/// Each match is `:` or `$` and then its name, at its position in `t`, and the
/// matches come left to right without overlapping.
pub open spec fn pg_well_placed(t: Seq<char>, cms: Seq<(int, Seq<char>)>) -> bool {
    &&& forall|i: int| 0 <= i < cms.len() ==> 0 <= (#[trigger] cms[i]).0 && match_end(cms[i]) <= t.len()
        && (t[cms[i].0] == ':' || t[cms[i].0] == '$')
        && t.subrange(cms[i].0 + 1, match_end(cms[i])) == cms[i].1
    &&& forall|i: int, j: int| 0 <= i < j < cms.len() ==> match_end(#[trigger] cms[i]) <= (#[trigger] cms[j]).0
}

/// Finds the named parameters of a PostgreSQL template with `regex::Regex`, pattern
/// `:(\w+)|\$(\w+)`, through `captures_iter`, and returns where each match starts
/// (`Match::start`, a byte offset) and the group that took part. The matches depend
/// on the template alone and are named. The regex documentation gives the rest: a
/// match starts at a character boundary and is its sign (`:` or `$`) and its group,
/// and `captures_iter` yields successive matches that do not overlap.
#[verifier::external_body]
fn find_pg_params(template: &str) -> (caps: Vec<(usize, String)>)
    ensures
        caps@.map_values(|c: (usize, String)| (c.0 as int, c.1@)) == pg_param_matches(template@),
        forall|i: int| 0 <= i < caps@.len() ==> is_char_offset(template@, #[trigger] caps@[i].0 as int),
        pg_well_placed(template@, char_matches(template@, caps@.map_values(|c: (usize, String)| (c.0 as int, c.1@)))),
{
    let re = regex::Regex::new(r":(\w+)|\$(\w+)").unwrap();
    re.captures_iter(template)
        .map(|c| (c.get(0).unwrap().start(), c.get(1).or_else(|| c.get(2)).unwrap().as_str().to_string()))
        .collect()
}

/// Tests a character against the regex class `\w` (`regex::Regex::is_match` with
/// pattern `^\w$` on the character alone).
#[verifier::external_body]
fn is_word_char(c: char) -> (b: bool)
    ensures
        b == regex_word_char(c),
{
    let re = regex::Regex::new(r"^\w$").unwrap();
    re.is_match(&c.to_string())
}

/// A match with its character position, its name, its sign, and whether it is a
/// parameter: `:name` always is, `$name` only where no word character precedes it.
pub open spec fn pg_marked(t: Seq<char>, ms: Seq<(int, Seq<char>)>) -> Seq<(int, Seq<char>, char, bool)> {
    ms.map_values(|m: (int, Seq<char>)| {
        let k = char_index(t, m.0);
        (k, m.1, t[k], t[k] == ':' || k == 0 || !regex_word_char(t[k - 1]))
    })
}

/// The character position just after a marked match.
pub open spec fn pg_end(m: (int, Seq<char>, char, bool)) -> int {
    m.0 + 1 + m.1.len()
}

/// The names bound, in order of appearance: parameters whose name has a value.
/// The `n`-th of them is `$n` in the statement.
pub open spec fn pg_bound(ms: Seq<(int, Seq<char>, char, bool)>, keys: Set<Seq<char>>) -> Seq<Seq<char>>
    decreases ms.len(),
{
    if ms.len() == 0 {
        Seq::empty()
    } else {
        let prev = pg_bound(ms.drop_last(), keys);
        let m = ms.last();
        if m.3 && keys.contains(m.1) { prev.push(m.1) } else { prev }
    }
}

/// The statement text after the rewrite: each parameter whose name has a value
/// becomes `$n`, numbered from 1 in order of appearance, where it stands; every
/// other match and the text between matches are kept.
pub open spec fn rewrite_pg_sql(t: Seq<char>, ms: Seq<(int, Seq<char>, char, bool)>, keys: Set<Seq<char>>) -> Seq<char>
    decreases ms.len(),
{
    if ms.len() == 0 {
        t
    } else {
        let m = ms.last();
        rewrite_pg_sql(t.subrange(0, m.0), ms.drop_last(), keys)
            + (if m.3 && keys.contains(m.1) {
                seq!['$'] + crate::text::nat_text((pg_bound(ms.drop_last(), keys).len() + 1) as nat)
            } else {
                seq![m.2] + m.1
            })
            + t.subrange(pg_end(m), t.len() as int)
    }
}

proof fn lemma_pg_rewrite_extend(t0: Seq<char>, u: Seq<char>, ms: Seq<(int, Seq<char>, char, bool)>, keys: Set<Seq<char>>)
    requires
        forall|j: int| 0 <= j < ms.len() ==> 0 <= (#[trigger] ms[j]).0 && pg_end(ms[j]) <= t0.len(),
    ensures
        rewrite_pg_sql(t0 + u, ms, keys) == rewrite_pg_sql(t0, ms, keys) + u,
{
    if ms.len() > 0 {
        let m = ms.last();
        assert(ms[ms.len() - 1] == m);
        assert((t0 + u).subrange(0, m.0) =~= t0.subrange(0, m.0));
        assert((t0 + u).subrange(pg_end(m), (t0 + u).len() as int) =~= t0.subrange(pg_end(m), t0.len() as int) + u);
        let a = rewrite_pg_sql(t0.subrange(0, m.0), ms.drop_last(), keys);
        let p = if m.3 && keys.contains(m.1) {
            seq!['$'] + crate::text::nat_text((pg_bound(ms.drop_last(), keys).len() + 1) as nat)
        } else {
            seq![m.2] + m.1
        };
        assert(a + p + (t0.subrange(pg_end(m), t0.len() as int) + u) =~= a + p + t0.subrange(pg_end(m), t0.len() as int) + u);
    } else {
        assert(t0 + u == t0 + u);
    }
}

/// Turns a PostgreSQL template with named parameters (`:name`, or `$name` where no
/// word character precedes it) into one with numbered parameters (`$1`, `$2`, ...).
/// `param_names` are the names that have values; each of their parameters is
/// replaced where it stands, numbered in order of appearance, and bound in that
/// order. Other matches are left in the text as they are.
pub fn prepare_postgres_query(template: &str, param_names: &Vec<String>) -> (q: PositionalQuery)
    ensures
        q.sql@ == rewrite_pg_sql(
            template@,
            pg_marked(template@, pg_param_matches(template@)),
            param_names@.map_values(|n: String| n@).to_set(),
        ),
        q.bind_names@.map_values(|n: String| n@) == pg_bound(
            pg_marked(template@, pg_param_matches(template@)),
            param_names@.map_values(|n: String| n@).to_set(),
        ),
{
    let caps = find_pg_params(template);
    let tv = str_chars(template);
    let ghost t = template@;
    let ghost keys = param_names@.map_values(|n: String| n@).to_set();
    let ghost ms = pg_param_matches(t);
    let ghost cms = char_matches(t, ms);
    let ghost pms = pg_marked(t, ms);
    let mut out: Vec<char> = Vec::new();
    let mut bind_names: Vec<String> = Vec::new();
    let mut ci: usize = 0;
    let mut cb: usize = 0;
    let mut e: usize = 0;
    let mut i: usize = 0;
    proof {
        assert(caps@.map_values(|c: (usize, String)| (c.0 as int, c.1@)).len() == caps@.len());
        assert(t.take(0) =~= Seq::<char>::empty());
        assert(t.subrange(0, 0) =~= Seq::<char>::empty());
        assert(pms.take(0) =~= Seq::<(int, Seq<char>, char, bool)>::empty());
    }
    while i < caps.len()
        invariant
            tv@ == t,
            t == template@,
            ms == pg_param_matches(t),
            cms == char_matches(t, ms),
            pms == pg_marked(t, ms),
            keys == param_names@.map_values(|n: String| n@).to_set(),
            caps@.map_values(|c: (usize, String)| (c.0 as int, c.1@)) == ms,
            caps@.len() == ms.len(),
            forall|j: int| 0 <= j < caps@.len() ==> is_char_offset(t, #[trigger] caps@[j].0 as int),
            pg_well_placed(t, cms),
            0 <= i <= caps.len(),
            ci <= e <= t.len(),
            cb == byte_len(t.take(ci as int)),
            i == 0 ==> e == 0,
            i > 0 ==> e == match_end(cms[i - 1]) && ci == cms[i - 1].0,
            bind_names@.len() <= i,
            out@ == rewrite_pg_sql(t.subrange(0, e as int), pms.take(i as int), keys),
            bind_names@.map_values(|n: String| n@) == pg_bound(pms.take(i as int), keys),
        decreases caps.len() - i,
    {
        let b: usize = caps[i].0;
        let ghost k = char_index(t, b as int);
        proof {
            assert(ms[i as int] == (caps@[i as int].0 as int, caps@[i as int].1@));
            assert(is_char_offset(t, caps@[i as int].0 as int));
            assert(0 <= k <= t.len() && byte_len(t.take(k)) == b);
            assert(cms[i as int] == (k, ms[i as int].1));
            if i > 0 {
                assert(match_end(cms[i - 1]) <= cms[i as int].0);
            }
        }
        while cb < b
            invariant
                tv@ == t,
                0 <= k <= t.len(),
                byte_len(t.take(k)) == b,
                ci <= k,
                cb == byte_len(t.take(ci as int)),
            decreases k - ci,
        {
            proof {
                if ci >= k {
                    lemma_byte_len_mono(t, k, ci as int);
                }
                lemma_byte_len_step(t, ci as int);
                lemma_byte_len_mono(t, ci + 1, k);
            }
            let w = utf8_width(tv[ci]);
            cb = cb + w;
            ci = ci + 1;
        }
        proof {
            lemma_byte_len_mono(t, ci as int, k);
            assert(ci == k);
        }
        let name_chars = str_chars(caps[i].1.as_str());
        let ghost m = pms[i as int];
        proof {
            assert(m == (k, ms[i as int].1, t[k], t[k] == ':' || k == 0 || !regex_word_char(t[k - 1])));
            assert(m.1 == caps@[i as int].1@);
            assert(0 <= k && match_end(cms[i as int]) <= t.len());
            assert(name_chars@ == m.1);
            assert(cms[i as int].1 == m.1);
            assert(ci == k);
            assert(ci + 1 + name_chars@.len() <= t.len());
        }
        let name_len = name_chars.len();
        assert(ci + 1 + name_len <= tv.len());
        let new_e: usize = ci + 1 + name_len;
        copy_range(&mut out, &tv, e, ci);
        proof {
            let pt = pms.take(i as int);
            assert forall|j: int| 0 <= j < pt.len() implies 0 <= (#[trigger] pt[j]).0 && pg_end(pt[j]) <= e by {
                assert(pt[j] == pms[j]);
                assert(pms[j].0 == cms[j].0 && pms[j].1 == cms[j].1);
                if j < i - 1 {
                    assert(match_end(cms[j]) <= cms[i - 1].0);
                }
            }
            lemma_pg_rewrite_extend(t.subrange(0, e as int), t.subrange(e as int, ci as int), pms.take(i as int), keys);
            assert(t.subrange(0, e as int) + t.subrange(e as int, ci as int) =~= t.subrange(0, ci as int));
        }
        let sign = tv[ci];
        let param = sign == ':' || ci == 0 || !is_word_char(tv[ci - 1]);
        let present = contains_name(param_names, caps[i].1.as_str());
        proof {
            let names_view = param_names@.map_values(|n: String| n@);
            assert(present == keys.contains(caps@[i as int].1@)) by {
                if present {
                    assert(names_view.to_set().contains(caps@[i as int].1@));
                }
                if keys.contains(caps@[i as int].1@) {
                    assert(names_view.contains(caps@[i as int].1@));
                }
            }
            assert(param == m.3);
        }
        let ghost prev_bound = bind_names@.map_values(|n: String| n@);
        if param && present {
            out.push('$');
            let n: u64 = (bind_names.len() as u64) + 1;
            crate::text::push_nat_text(n, &mut out);
            bind_names.push(caps[i].1.clone());
        } else {
            copy_range(&mut out, &tv, ci, new_e);
        }
        proof {
            let tn = t.subrange(0, new_e as int);
            assert(pms.take(i + 1).last() == m);
            assert(pms.take(i + 1).drop_last() =~= pms.take(i as int));
            assert(tn.subrange(0, m.0) =~= t.subrange(0, ci as int));
            assert(tn.subrange(pg_end(m), tn.len() as int) =~= Seq::<char>::empty());
            assert(pg_end(m) == new_e);
            assert(t.subrange(ci as int, new_e as int) =~= seq![t[k]] + t.subrange(ci + 1, new_e as int));
            assert(prev_bound.len() == bind_names@.len() || prev_bound.len() + 1 == bind_names@.len());
            assert(out@ =~= rewrite_pg_sql(tn, pms.take(i + 1), keys));
            assert(bind_names@.map_values(|n: String| n@) =~= pg_bound(pms.take(i + 1), keys));
        }
        e = new_e;
        i += 1;
    }
    copy_range(&mut out, &tv, e, tv.len());
    proof {
        assert(pms.take(i as int) =~= pms);
        assert forall|j: int| 0 <= j < pms.len() implies 0 <= (#[trigger] pms[j]).0 && pg_end(pms[j]) <= e by {
            assert(pms[j].0 == cms[j].0 && pms[j].1 == cms[j].1);
            if j < i - 1 {
                assert(match_end(cms[j]) <= cms[i - 1].0);
            }
        }
        lemma_pg_rewrite_extend(t.subrange(0, e as int), t.subrange(e as int, t.len() as int), pms, keys);
        assert(t.subrange(0, e as int) + t.subrange(e as int, t.len() as int) =~= t);
    }
    PositionalQuery { sql: string_from_chars(&out), bind_names }
}

/// With no parameter values, a template is left as it is and nothing is bound.
pub proof fn lemma_no_values_no_rewrite(t: Seq<char>, ms: Seq<(int, Seq<char>)>)
    requires
        well_placed(t, char_matches(t, ms)),
    ensures
        rewrite_sql(t, char_matches(t, ms), Set::empty()) == t,
        bound_names(ms, Set::empty()) == Seq::<Seq<char>>::empty(),
    decreases ms.len(),
{
    lemma_unbound_kept(t, char_matches(t, ms));
    lemma_bound_names_have_values(ms, Set::empty());
}

proof fn lemma_unbound_kept(t: Seq<char>, cms: Seq<(int, Seq<char>)>)
    requires
        well_placed(t, cms),
    ensures
        rewrite_sql(t, cms, Set::empty()) == t,
    decreases cms.len(),
{
    if cms.len() > 0 {
        let m = cms.last();
        assert(cms[cms.len() - 1] == m);
        let t0 = t.subrange(0, m.0);
        let d = cms.drop_last();
        assert forall|i: int| 0 <= i < d.len() implies 0 <= (#[trigger] d[i]).0 && match_end(d[i]) <= t0.len()
            && t0.subrange(d[i].0, match_end(d[i])) == param_token(d[i].1) by {
            assert(d[i] == cms[i]);
            assert(match_end(cms[i]) <= cms[cms.len() - 1].0);
            assert(t0.subrange(d[i].0, match_end(d[i])) =~= t.subrange(d[i].0, match_end(d[i])));
        }
        assert forall|i: int, j: int| 0 <= i < j < d.len() implies match_end(#[trigger] d[i]) <= (#[trigger] d[j]).0 by {
            assert(d[i] == cms[i] && d[j] == cms[j]);
        }
        lemma_unbound_kept(t0, d);
        assert(t0 + t.subrange(m.0, match_end(m)) + t.subrange(match_end(m), t.len() as int) =~= t);
    }
}

/// Only names that have values are bound, one per match at most, in match order.
pub proof fn lemma_bound_names_have_values(ms: Seq<(int, Seq<char>)>, keys: Set<Seq<char>>)
    ensures
        bound_names(ms, keys).len() <= ms.len(),
        forall|i: int| 0 <= i < bound_names(ms, keys).len() ==> keys.contains(#[trigger] bound_names(ms, keys)[i]),
        keys == Set::<Seq<char>>::empty() ==> bound_names(ms, keys) == Seq::<Seq<char>>::empty(),
    decreases ms.len(),
{
    if ms.len() > 0 {
        lemma_bound_names_have_values(ms.drop_last(), keys);
    }
}

proof fn lemma_pg_unbound_kept(t: Seq<char>, ms: Seq<(int, Seq<char>, char, bool)>)
    requires
        forall|i: int| 0 <= i < ms.len() ==> 0 <= (#[trigger] ms[i]).0 && pg_end(ms[i]) <= t.len()
            && t[ms[i].0] == ms[i].2 && t.subrange(ms[i].0 + 1, pg_end(ms[i])) == ms[i].1,
        forall|i: int, j: int| 0 <= i < j < ms.len() ==> pg_end(#[trigger] ms[i]) <= (#[trigger] ms[j]).0,
    ensures
        rewrite_pg_sql(t, ms, Set::empty()) == t,
    decreases ms.len(),
{
    if ms.len() > 0 {
        let m = ms.last();
        assert(ms[ms.len() - 1] == m);
        let t0 = t.subrange(0, m.0);
        let d = ms.drop_last();
        assert forall|i: int| 0 <= i < d.len() implies 0 <= (#[trigger] d[i]).0 && pg_end(d[i]) <= t0.len()
            && t0[d[i].0] == d[i].2 && t0.subrange(d[i].0 + 1, pg_end(d[i])) == d[i].1 by {
            assert(d[i] == ms[i]);
            assert(pg_end(ms[i]) <= ms[ms.len() - 1].0);
            assert(t0.subrange(d[i].0 + 1, pg_end(d[i])) =~= t.subrange(d[i].0 + 1, pg_end(d[i])));
        }
        assert forall|i: int, j: int| 0 <= i < j < d.len() implies pg_end(#[trigger] d[i]) <= (#[trigger] d[j]).0 by {
            assert(d[i] == ms[i] && d[j] == ms[j]);
        }
        lemma_pg_unbound_kept(t0, d);
        assert(t0 + (seq![m.2] + m.1) + t.subrange(pg_end(m), t.len() as int) =~= t);
    }
}

/// With no parameter values, a PostgreSQL template is left as it is and nothing is bound.
pub proof fn lemma_pg_no_values_no_rewrite(t: Seq<char>, ms: Seq<(int, Seq<char>)>)
    requires
        pg_well_placed(t, char_matches(t, ms)),
    ensures
        rewrite_pg_sql(t, pg_marked(t, ms), Set::empty()) == t,
        pg_bound(pg_marked(t, ms), Set::empty()) == Seq::<Seq<char>>::empty(),
    decreases ms.len(),
{
    let cms = char_matches(t, ms);
    let pms = pg_marked(t, ms);
    assert forall|i: int| 0 <= i < pms.len() implies 0 <= (#[trigger] pms[i]).0 && pg_end(pms[i]) <= t.len()
        && t[pms[i].0] == pms[i].2 && t.subrange(pms[i].0 + 1, pg_end(pms[i])) == pms[i].1 by {
        assert(cms[i].0 == pms[i].0 && cms[i].1 == pms[i].1);
    }
    assert forall|i: int, j: int| 0 <= i < j < pms.len() implies pg_end(#[trigger] pms[i]) <= (#[trigger] pms[j]).0 by {
        assert(cms[i].0 == pms[i].0 && cms[i].1 == pms[i].1);
        assert(cms[j].0 == pms[j].0);
    }
    lemma_pg_unbound_kept(t, pms);
    lemma_pg_bound_empty(pms);
}

proof fn lemma_pg_bound_empty(ms: Seq<(int, Seq<char>, char, bool)>)
    ensures
        pg_bound(ms, Set::empty()) == Seq::<Seq<char>>::empty(),
    decreases ms.len(),
{
    if ms.len() > 0 {
        lemma_pg_bound_empty(ms.drop_last());
    }
}

} // verus!

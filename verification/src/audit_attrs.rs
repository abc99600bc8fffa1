//! The options of the audit attribute on a function: which service logs,
//! at which level, which arguments are left out, and what metadata goes
//! along; and the text of the ENTER record it logs.

use vstd::prelude::*;
use vstd::string::StringExecFns;
use crate::audit::AuditLogLevel;
use crate::cli::{trim, trimmed_of};
use crate::text::{str_chars, str_eq, string_from_chars};

verus! {

/// One entry of the attribute's option list: `key = value` (the key when it
/// is a single identifier, else empty; the value when it is a string
/// literal), or an entry of another form.
#[derive(Clone, Debug)]
pub enum AttrEntry {
    NameValue { key: String, value: Option<String> },
    Other,
}

/// The options of an audit attribute.
#[derive(Clone, Debug)]
pub struct AuditLogAttrs {
    pub service: Option<String>,
    pub level: String,
    pub skip_args: Vec<usize>,
    pub metadata: Option<String>,
}

/// Whether `s` is one or more ASCII digits.
pub open spec fn is_digits(s: Seq<char>) -> bool {
    s.len() > 0 && forall|i: int| 0 <= i < s.len() ==> '0' <= #[trigger] s[i] <= '9'
}

/// The value of a run of decimal digits.
pub open spec fn digits_value(s: Seq<char>) -> nat
    decreases s.len(),
{
    if s.len() == 0 {
        0
    } else {
        digits_value(s.drop_last()) * 10 + ((s.last() as u32 - '0' as u32) as nat)
    }
}

/// What std's `str::parse::<usize>` gives for a text: the number, when the
/// text is an optional '+' followed by digits whose value fits.
pub open spec fn usize_parse(s: Seq<char>) -> Option<usize> {
    let d = if s.len() > 0 && s[0] == '+' { s.subrange(1, s.len() as int) } else { s };
    if is_digits(d) && digits_value(d) <= usize::MAX {
        Some(digits_value(d) as usize)
    } else {
        None
    }
}

/// A longer run of digits is worth at least as much as its beginning.
proof fn lemma_digits_value_prefix(d: Seq<char>, j: int, k: int)
    requires
        0 <= j <= k <= d.len(),
    ensures
        digits_value(d.take(j)) <= digits_value(d.take(k)),
    decreases k - j,
{
    if j < k {
        lemma_digits_value_prefix(d, j, k - 1);
        assert(d.take(k).drop_last() =~= d.take(k - 1));
    }
}

/// Parses a `usize` as `str::parse::<usize>` does: an optional '+' and then
/// ASCII digits whose value fits.
fn parse_usize(s: &str) -> (r: Option<usize>)
    ensures
        r == usize_parse(s@),
{
    let v = crate::text::str_chars(s);
    let start: usize = if v.len() > 0 && v[0] == '+' { 1 } else { 0 };
    let ghost d = v@.subrange(start as int, v@.len() as int);
    proof {
        if s@.len() > 0 && s@[0] == '+' {
            assert(d =~= s@.subrange(1, s@.len() as int));
        } else {
            assert(d =~= s@);
        }
        assert(usize_parse(s@) == (if is_digits(d) && digits_value(d) <= usize::MAX {
            Some(digits_value(d) as usize)
        } else {
            None
        }));
    }
    if start == v.len() {
        return None;
    }
    let mut acc: usize = 0;
    let mut i: usize = start;
    proof {
        assert(d.take(0) =~= Seq::<char>::empty());
    }
    while i < v.len()
        invariant
            v@ == s@,
            start <= i <= v.len(),
            start < v.len(),
            d == v@.subrange(start as int, v@.len() as int),
            forall|k: int| 0 <= k < i - start ==> '0' <= #[trigger] d[k] <= '9',
            acc == digits_value(d.take(i - start)),
            usize_parse(s@) == (if is_digits(d) && digits_value(d) <= usize::MAX {
                Some(digits_value(d) as usize)
            } else {
                None
            }),
        decreases v.len() - i,
    {
        let c = v[i];
        assert(d[i - start] == c);
        if !('0' <= c && c <= '9') {
            assert(!is_digits(d));
            return None;
        }
        let dig: usize = ((c as u32) - ('0' as u32)) as usize;
        proof {
            assert(d.take(i - start + 1).drop_last() =~= d.take(i - start));
            assert(d.take(i - start + 1).last() == c);
            assert(digits_value(d.take(i - start + 1)) == acc * 10 + dig);
        }
        match acc.checked_mul(10) {
            None => {
                proof {
                    if is_digits(d) {
                        lemma_digits_value_prefix(d, i - start + 1, d.len() as int);
                        assert(d.take(d.len() as int) =~= d);
                    }
                }
                return None;
            },
            Some(t) => match t.checked_add(dig) {
                None => {
                    proof {
                        if is_digits(d) {
                            lemma_digits_value_prefix(d, i - start + 1, d.len() as int);
                            assert(d.take(d.len() as int) =~= d);
                        }
                    }
                    return None;
                },
                Some(n) => {
                    acc = n;
                },
            },
        }
        i += 1;
    }
    proof {
        assert(d.take(i - start) =~= d);
    }
    Some(acc)
}

/// The pieces of `s` between commas, in order (one piece when there is none).
pub open spec fn split_commas(s: Seq<char>) -> Seq<Seq<char>>
    decreases s.len(),
{
    if s.len() == 0 {
        seq![Seq::empty()]
    } else {
        let rest = split_commas(s.drop_last());
        if s.last() == ',' {
            rest.push(Seq::empty())
        } else {
            rest.update(rest.len() - 1, rest.last().push(s.last()))
        }
    }
}

proof fn lemma_split_nonempty(s: Seq<char>)
    ensures
        split_commas(s).len() >= 1,
    decreases s.len(),
{
    if s.len() > 0 {
        lemma_split_nonempty(s.drop_last());
    }
}

/// The argument positions a `skip_args` text lists: each comma-separated
/// piece, trimmed, that parses as a number, in order.
pub open spec fn skip_list(pieces: Seq<Seq<char>>) -> Seq<usize>
    decreases pieces.len(),
{
    if pieces.len() == 0 {
        Seq::empty()
    } else {
        let rest = skip_list(pieces.drop_last());
        match usize_parse(trimmed_of(pieces.last())) {
            Some(n) => rest.push(n),
            None => rest,
        }
    }
}

/// Splits a text at its commas.
fn split_at_commas(s: &str) -> (r: Vec<String>)
    ensures
        r@.map_values(|p: String| p@) == split_commas(s@),
{
    let cs = str_chars(s);
    let mut pieces: Vec<String> = Vec::new();
    let mut cur: Vec<char> = Vec::new();
    let mut i: usize = 0;
    while i < cs.len()
        invariant
            i <= cs.len(),
            cs@ == s@,
            pieces@.map_values(|p: String| p@).push(cur@) == split_commas(cs@.subrange(0, i as int)),
        decreases cs.len() - i,
    {
        let ghost pre = cs@.subrange(0, i as int);
        assert(cs@.subrange(0, i + 1).drop_last() =~= pre);
        if cs[i] == ',' {
            let piece = string_from_chars(&cur);
            pieces.push(piece);
            cur = Vec::new();
            assert(pieces@.map_values(|p: String| p@).push(cur@) =~= split_commas(cs@.subrange(0, i + 1)));
        } else {
            let ghost before_cur = cur@;
            cur.push(cs[i]);
            proof {
                lemma_split_nonempty(pre);
                let rest = split_commas(pre);
                assert(rest.last() == before_cur);
                assert(pieces@.map_values(|p: String| p@).push(cur@) =~= rest.update(rest.len() - 1, before_cur.push(cs@[i as int])));
            }
        }
        i += 1;
    }
    assert(cs@.subrange(0, cs@.len() as int) =~= cs@);
    let last = string_from_chars(&cur);
    pieces.push(last);
    assert(pieces@.map_values(|p: String| p@) =~= split_commas(s@));
    pieces
}

/// The argument positions listed in a `skip_args` text such as "0, 2".
pub fn parse_skip_args(s: &str) -> (r: Vec<usize>)
    ensures
        r@ == skip_list(split_commas(s@)),
{
    let pieces = split_at_commas(s);
    let ghost views = pieces@.map_values(|p: String| p@);
    let mut r: Vec<usize> = Vec::new();
    let mut i: usize = 0;
    while i < pieces.len()
        invariant
            i <= pieces.len(),
            views == pieces@.map_values(|p: String| p@),
            r@ == skip_list(views.subrange(0, i as int)),
        decreases pieces.len() - i,
    {
        assert(views.subrange(0, i + 1).drop_last() =~= views.subrange(0, i as int));
        assert(views.subrange(0, i + 1).last() == pieces@[i as int]@);
        let t = trim(pieces[i].as_str());
        match parse_usize(t.as_str()) {
            Some(n) => { r.push(n); },
            None => {},
        }
        i += 1;
    }
    assert(views.subrange(0, pieces@.len() as int) =~= views);
    r
}

/// The options an attribute's entries give, starting from the defaults
/// (no service, level "info", no skipped arguments, no metadata); a later
/// entry for the same option wins.
pub open spec fn attrs_after(entries: Seq<AttrEntry>) -> (Option<Seq<char>>, Seq<char>, Seq<usize>, Option<Seq<char>>)
    decreases entries.len(),
{
    if entries.len() == 0 {
        (None, "info"@, Seq::empty(), None)
    } else {
        let (svc, lvl, skip, meta) = attrs_after(entries.drop_last());
        match entries.last() {
            AttrEntry::NameValue { key, value: Some(v) } =>
                if key@ == "service"@ {
                    (Some(v@), lvl, skip, meta)
                } else if key@ == "level"@ {
                    (svc, v@, skip, meta)
                } else if key@ == "skip_args"@ {
                    (svc, lvl, skip_list(split_commas(v@)), meta)
                } else if key@ == "metadata"@ {
                    (svc, lvl, skip, Some(v@))
                } else {
                    (svc, lvl, skip, meta)
                },
            _ => (svc, lvl, skip, meta),
        }
    }
}

/// The options as text.
pub open spec fn attrs_view(a: AuditLogAttrs) -> (Option<Seq<char>>, Seq<char>, Seq<usize>, Option<Seq<char>>) {
    (match a.service { Some(s) => Some(s@), None => None }, a.level@, a.skip_args@,
        match a.metadata { Some(m) => Some(m@), None => None })
}

impl AuditLogAttrs {
    /// Reads the options from the attribute's entries.
    pub fn parse(entries: &Vec<AttrEntry>) -> (a: Self)
        ensures
            attrs_view(a) == attrs_after(entries@),
    {
        proof {
            reveal_strlit("service");
            reveal_strlit("level");
            reveal_strlit("skip_args");
            reveal_strlit("metadata");
            assert("service"@[0] != "level"@[0]);
            assert("service"@[0] != "skip_args"@[0] || "service"@[1] != "skip_args"@[1]);
            assert("service"@[0] != "metadata"@[0]);
            assert("level"@[0] != "skip_args"@[0]);
            assert("level"@[0] != "metadata"@[0]);
            assert("skip_args"@[0] != "metadata"@[0]);
        }
        let mut a = AuditLogAttrs { service: None, level: String::from_str("info"), skip_args: Vec::new(), metadata: None };
        let mut i: usize = 0;
        assert(attrs_view(a) =~~= attrs_after(entries@.subrange(0, 0)));
        while i < entries.len()
            invariant
                i <= entries.len(),
                attrs_view(a) == attrs_after(entries@.subrange(0, i as int)),
            decreases entries.len() - i,
        {
            assert(entries@.subrange(0, i + 1).drop_last() =~= entries@.subrange(0, i as int));
            assert(entries@.subrange(0, i + 1).last() == entries@[i as int]);
            match &entries[i] {
                AttrEntry::NameValue { key, value: Some(v) } => {
                    if str_eq(key.as_str(), "service") {
                        a.service = Some(v.clone());
                    } else if str_eq(key.as_str(), "level") {
                        a.level = v.clone();
                    } else if str_eq(key.as_str(), "skip_args") {
                        a.skip_args = parse_skip_args(v.as_str());
                    } else if str_eq(key.as_str(), "metadata") {
                        a.metadata = Some(v.clone());
                    }
                },
                _ => {},
            }
            i += 1;
        }
        assert(entries@.subrange(0, entries@.len() as int) =~= entries@);
        a
    }
}

/// `s` in lower case, as std lowers it.
pub uninterp spec fn lowercase_of(s: Seq<char>) -> Seq<char>;

/// Calls `str::to_lowercase`; the result depends on the text alone and is named.
#[verifier::external_body]
fn to_lowercase(s: &str) -> (r: String)
    ensures
        r@ == lowercase_of(s@),
{
    s.to_lowercase()
}

/// The level an attribute's level text names, case aside: debug, warn and
/// error name theirs, anything else INFO.
pub open spec fn level_named(level: Seq<char>) -> AuditLogLevel {
    let l = lowercase_of(level);
    if l == "debug"@ {
        AuditLogLevel::Debug
    } else if l == "warn"@ {
        AuditLogLevel::Warn
    } else if l == "error"@ {
        AuditLogLevel::Error
    } else {
        AuditLogLevel::Info
    }
}

/// The level an attribute's level text names.
pub fn level_to_path(level: &str) -> (l: AuditLogLevel)
    ensures
        l == level_named(level@),
{
    let low = to_lowercase(level);
    if str_eq(low.as_str(), "debug") {
        AuditLogLevel::Debug
    } else if str_eq(low.as_str(), "warn") {
        AuditLogLevel::Warn
    } else if str_eq(low.as_str(), "error") {
        AuditLogLevel::Error
    } else {
        AuditLogLevel::Info
    }
}

/// A parameter of the audited function: the receiver, a plain name, or
/// another pattern.
#[derive(Clone, Debug)]
pub enum AuditedParam {
    Receiver,
    Named(String),
    Pattern,
}

/// How an argument appears in the ENTER record: the receiver as "self=...",
/// a named one as name=value.
#[derive(Clone, Debug)]
pub enum ArgPart {
    SelfPlaceholder,
    Named(String),
}

/// Whether a position is listed.
pub open spec fn listed(skip: Seq<usize>, i: int) -> bool {
    exists|k: int| 0 <= k < skip.len() && skip[k] as int == i
}

/// The parts of the ENTER record for the parameters from position `from`
/// on: the receiver and named parameters whose position is not skipped.
pub open spec fn arg_parts(params: Seq<AuditedParam>, skip: Seq<usize>) -> Seq<Option<Seq<char>>>
    decreases params.len(),
{
    if params.len() == 0 {
        Seq::empty()
    } else {
        let rest = arg_parts(params.drop_last(), skip);
        let i = params.len() - 1;
        if listed(skip, i) {
            rest
        } else {
            match params.last() {
                AuditedParam::Receiver => rest.push(None),
                AuditedParam::Named(n) => rest.push(Some(n@)),
                AuditedParam::Pattern => rest,
            }
        }
    }
}

/// A part as text: none for the receiver, the name for a named one.
pub open spec fn part_view(p: ArgPart) -> Option<Seq<char>> {
    match p {
        ArgPart::SelfPlaceholder => None,
        ArgPart::Named(n) => Some(n@),
    }
}

fn is_listed(skip: &Vec<usize>, i: usize) -> (b: bool)
    ensures
        b == listed(skip@, i as int),
{
    let mut k: usize = 0;
    while k < skip.len()
        invariant
            k <= skip.len(),
            forall|j: int| 0 <= j < k ==> skip@[j] != i,
        decreases skip.len() - k,
    {
        if skip[k] == i {
            return true;
        }
        k += 1;
    }
    false
}

/// The arguments the ENTER record shows, in order.
pub fn logged_args(params: &Vec<AuditedParam>, skip: &Vec<usize>) -> (r: Vec<ArgPart>)
    ensures
        r@.map_values(|p: ArgPart| part_view(p)) == arg_parts(params@, skip@),
{
    let mut r: Vec<ArgPart> = Vec::new();
    let mut i: usize = 0;
    while i < params.len()
        invariant
            i <= params.len(),
            r@.map_values(|p: ArgPart| part_view(p)) == arg_parts(params@.subrange(0, i as int), skip@),
        decreases params.len() - i,
    {
        assert(params@.subrange(0, i + 1).drop_last() =~= params@.subrange(0, i as int));
        assert(params@.subrange(0, i + 1).last() == params@[i as int]);
        if !is_listed(skip, i) {
            match &params[i] {
                AuditedParam::Receiver => {
                    r.push(ArgPart::SelfPlaceholder);
                },
                AuditedParam::Named(n) => {
                    r.push(ArgPart::Named(n.clone()));
                },
                AuditedParam::Pattern => {},
            }
        }
        i += 1;
        assert(r@.map_values(|p: ArgPart| part_view(p)) =~= arg_parts(params@.subrange(0, i as int), skip@));
    }
    assert(params@.subrange(0, params@.len() as int) =~= params@);
    r
}

/// Texts joined with ", ".
pub open spec fn join_comma(parts: Seq<Seq<char>>) -> Seq<char>
    decreases parts.len(),
{
    if parts.len() == 0 {
        Seq::empty()
    } else if parts.len() == 1 {
        parts[0]
    } else {
        join_comma(parts.drop_last()) + ", "@ + parts.last()
    }
}

/// Texts joined with ", ".
pub fn join_with_comma(parts: &Vec<String>) -> (s: String)
    ensures
        s@ == join_comma(parts@.map_values(|p: String| p@)),
{
    let mut s = String::new();
    let mut i: usize = 0;
    while i < parts.len()
        invariant
            i <= parts.len(),
            s@ == join_comma(parts@.subrange(0, i as int).map_values(|p: String| p@)),
        decreases parts.len() - i,
    {
        let ghost prev = parts@.subrange(0, i as int).map_values(|p: String| p@);
        assert(parts@.subrange(0, i + 1).map_values(|p: String| p@) =~= prev.push(parts@[i as int]@));
        if i > 0 {
            s.append(", ");
        }
        s.append(parts[i].as_str());
        proof {
            let next = prev.push(parts@[i as int]@);
            assert(next.drop_last() =~= prev);
            if i == 0 {
                assert(prev.len() == 0);
                assert(s@ =~= parts@[0]@);
            }
        }
        i += 1;
    }
    assert(parts@.subrange(0, parts@.len() as int) =~= parts@);
    s
}

/// The message of the ENTER record of a call: the function's name and its
/// shown arguments, already written as text, in brackets.
pub fn entry_message(fn_name: &str, rendered: &Vec<String>) -> (s: String)
    ensures
        s@ == fn_name@ + "("@ + join_comma(rendered@.map_values(|p: String| p@)) + ")"@,
{
    let joined = join_with_comma(rendered);
    let mut s = String::from_str(fn_name);
    s.append("(");
    s.append(joined.as_str());
    s.append(")");
    s
}

/// The metadata the guard carries: the attribute's, or none as empty text.
pub fn metadata_text(attrs: &AuditLogAttrs) -> (s: String)
    ensures
        s@ == (match attrs.metadata { Some(m) => m@, None => Seq::<char>::empty() }),
{
    match &attrs.metadata {
        Some(m) => m.clone(),
        None => String::new(),
    }
}

} // verus!

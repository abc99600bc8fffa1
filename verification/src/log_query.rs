//! Construction of the log store's queries: SQL text with numbered parameters
//! and the values bound to them, and the equivalent document filters.

use vstd::prelude::*;
use crate::text::{nat_text, push_nat_text, str_chars, string_from_chars, concat3};

verus! {

/// A value bound to a query parameter. Time bounds are named here and supplied
/// by the caller, which holds them.
#[derive(Clone, Debug)]
pub enum LogBind {
    Text(String),
    Since,
    StartTime,
    EndTime,
    Int(i64),
}

/// The optional filters of a log query. The time bounds are given as present or not.
#[derive(Clone, Debug)]
pub struct LogFilters {
    pub service_name: Option<String>,
    pub log_type: Option<String>,
    pub level: Option<String>,
    pub source: Option<String>,
    pub tags: Option<String>,
    pub keyword: Option<String>,
    pub has_start_time: bool,
    pub has_end_time: bool,
}

/// A statement with its parameters in binding order.
pub struct LogQuery {
    pub sql: String,
    pub binds: Vec<LogBind>,
}

/// Conditions joined by " AND ".
pub open spec fn join_and(items: Seq<Seq<char>>) -> Seq<char>
    decreases items.len(),
{
    if items.len() == 0 {
        Seq::empty()
    } else if items.len() == 1 {
        items[0]
    } else {
        join_and(items.drop_last()) + " AND "@ + items.last()
    }
}

/// Each condition prefix followed by its parameter number, counted from 1.
pub open spec fn numbered(prefixes: Seq<Seq<char>>) -> Seq<Seq<char>> {
    Seq::new(prefixes.len(), |k: int| prefixes[k] + nat_text((k + 1) as nat))
}

/// The WHERE clause of the log store: live rows, then the numbered conditions.
pub open spec fn where_text(prefixes: Seq<Seq<char>>) -> Seq<char> {
    join_and(seq!["del_flag = 0"@] + numbered(prefixes))
}

/// Builds the WHERE clause for the given condition prefixes (each ending in `$`).
pub fn where_clause(prefixes: &Vec<&'static str>) -> (s: String)
    requires
        prefixes.len() < u64::MAX,
    ensures
        s@ == where_text(prefixes@.map_values(|p: &'static str| p@)),
{
    let ghost pv = prefixes@.map_values(|p: &'static str| p@);
    let mut out: Vec<char> = str_chars("del_flag = 0");
    proof {
        reveal_strlit("del_flag = 0");
        assert(seq!["del_flag = 0"@] + numbered(pv.take(0)) =~= seq!["del_flag = 0"@]);
    }
    let mut i: usize = 0;
    while i < prefixes.len()
        invariant
            0 <= i <= prefixes.len(),
            prefixes.len() < u64::MAX,
            pv == prefixes@.map_values(|p: &'static str| p@),
            out@ == join_and(seq!["del_flag = 0"@] + numbered(pv.take(i as int))),
        decreases prefixes.len() - i,
    {
        let ghost before = out@;
        let and = str_chars(" AND ");
        let mut k: usize = 0;
        while k < and.len()
            invariant
                0 <= k <= and.len(),
                out@ == before + and@.take(k as int),
            decreases and.len() - k,
        {
            out.push(and[k]);
            k += 1;
            assert(out@ =~= before + and@.take(k as int));
        }
        let p = str_chars(prefixes[i]);
        let mut k2: usize = 0;
        let ghost mid = out@;
        while k2 < p.len()
            invariant
                0 <= k2 <= p.len(),
                out@ == mid + p@.take(k2 as int),
            decreases p.len() - k2,
        {
            out.push(p[k2]);
            k2 += 1;
            assert(out@ =~= mid + p@.take(k2 as int));
        }
        push_nat_text((i + 1) as u64, &mut out);
        proof {
            assert(and@.take(and@.len() as int) =~= and@);
            assert(p@.take(p@.len() as int) =~= p@);
            let items = seq!["del_flag = 0"@] + numbered(pv.take(i + 1));
            assert(items.drop_last() =~= seq!["del_flag = 0"@] + numbered(pv.take(i as int)));
            assert(items.last() == pv[i as int] + nat_text((i + 1) as nat));
            assert(out@ =~= join_and(items));
        }
        i += 1;
    }
    assert(pv.take(prefixes.len() as int) =~= pv);
    string_from_chars(&out)
}

/// Appends `$` and a parameter number to a string.
fn with_param_number(prefix: &str, n: u64) -> (s: String)
    ensures
        s@ == prefix@ + "$"@ + nat_text(n as nat),
{
    let mut v = str_chars(prefix);
    v.push('$');
    push_nat_text(n, &mut v);
    proof {
        reveal_strlit("$");
    }
    assert(v@ =~= prefix@ + "$"@ + nat_text(n as nat));
    string_from_chars(&v)
}

/// A LIKE pattern matching any text that contains `s`.
pub fn like_pattern(s: &str) -> (p: String)
    ensures
        p@ == "%"@ + s@ + "%"@,
{
    concat3("%", s, "%")
}


/// The view of a bound value.
pub enum LogBindView {
    Text(Seq<char>),
    Since,
    StartTime,
    EndTime,
    Int(i64),
}

pub open spec fn bind_view(b: LogBind) -> LogBindView {
    match b {
        LogBind::Text(s) => LogBindView::Text(s@),
        LogBind::Since => LogBindView::Since,
        LogBind::StartTime => LogBindView::StartTime,
        LogBind::EndTime => LogBindView::EndTime,
        LogBind::Int(i) => LogBindView::Int(i),
    }
}

pub open spec fn binds_view(b: Seq<LogBind>) -> Seq<LogBindView> {
    b.map_values(|x: LogBind| bind_view(x))
}

/// One condition when the filter is present, none otherwise.
pub open spec fn opt_cond(present: bool, prefix: Seq<char>) -> Seq<Seq<char>> {
    if present { seq![prefix] } else { Seq::empty() }
}

/// One bound value when the filter is present, none otherwise.
pub open spec fn opt_bind(present: bool, b: LogBindView) -> Seq<LogBindView> {
    if present { seq![b] } else { Seq::empty() }
}

pub open spec fn text_of(o: Option<String>) -> Seq<char> {
    match o {
        Some(s) => s@,
        None => Seq::empty(),
    }
}

pub open spec fn like_of(o: Option<String>) -> Seq<char> {
    "%"@ + text_of(o) + "%"@
}

/// Conditions of a tail query, in order.
pub open spec fn tail_prefixes(f: LogFilters, has_since: bool) -> Seq<Seq<char>> {
    opt_cond(f.service_name.is_some(), "service_name = $"@)
        + opt_cond(f.log_type.is_some(), "log_type = $"@)
        + opt_cond(f.keyword.is_some(), "content LIKE $"@)
        + opt_cond(has_since, "created_at > $"@)
}

/// Values bound to the conditions of a tail query, in order.
pub open spec fn tail_binds(f: LogFilters, has_since: bool) -> Seq<LogBindView> {
    opt_bind(f.service_name.is_some(), LogBindView::Text(text_of(f.service_name)))
        + opt_bind(f.log_type.is_some(), LogBindView::Text(text_of(f.log_type)))
        + opt_bind(f.keyword.is_some(), LogBindView::Text(like_of(f.keyword)))
        + opt_bind(has_since, LogBindView::Since)
}

/// Conditions of a search query, in order.
pub open spec fn search_prefixes(f: LogFilters) -> Seq<Seq<char>> {
    opt_cond(f.service_name.is_some(), "service_name = $"@)
        + opt_cond(f.log_type.is_some(), "log_type = $"@)
        + opt_cond(f.level.is_some(), "level = $"@)
        + opt_cond(f.source.is_some(), "source = $"@)
        + opt_cond(f.tags.is_some(), "tags LIKE $"@)
        + opt_cond(f.keyword.is_some(), "content LIKE $"@)
        + opt_cond(f.has_start_time, "created_at >= $"@)
        + opt_cond(f.has_end_time, "created_at <= $"@)
}

/// Conditions of a stats query, in order.
pub open spec fn stats_prefixes(f: LogFilters) -> Seq<Seq<char>> {
    opt_cond(f.service_name.is_some(), "service_name = $"@)
        + opt_cond(f.log_type.is_some(), "log_type = $"@)
        + opt_cond(f.has_start_time, "created_at >= $"@)
        + opt_cond(f.has_end_time, "created_at <= $"@)
}

/// Values bound to the conditions of a search query, in order.
pub open spec fn search_binds(f: LogFilters) -> Seq<LogBindView> {
    opt_bind(f.service_name.is_some(), LogBindView::Text(text_of(f.service_name)))
        + opt_bind(f.log_type.is_some(), LogBindView::Text(text_of(f.log_type)))
        + opt_bind(f.level.is_some(), LogBindView::Text(text_of(f.level)))
        + opt_bind(f.source.is_some(), LogBindView::Text(text_of(f.source)))
        + opt_bind(f.tags.is_some(), LogBindView::Text(like_of(f.tags)))
        + opt_bind(f.keyword.is_some(), LogBindView::Text(like_of(f.keyword)))
        + opt_bind(f.has_start_time, LogBindView::StartTime)
        + opt_bind(f.has_end_time, LogBindView::EndTime)
}

/// Values bound to the conditions of a stats query, in order.
pub open spec fn stats_binds(f: LogFilters) -> Seq<LogBindView> {
    opt_bind(f.service_name.is_some(), LogBindView::Text(text_of(f.service_name)))
        + opt_bind(f.log_type.is_some(), LogBindView::Text(text_of(f.log_type)))
        + opt_bind(f.has_start_time, LogBindView::StartTime)
        + opt_bind(f.has_end_time, LogBindView::EndTime)
}

fn push_cond(
    prefixes: &mut Vec<&'static str>,
    binds: &mut Vec<LogBind>,
    present: bool,
    prefix: &'static str,
    bind: LogBind,
)
    ensures
        final(prefixes)@.map_values(|p: &'static str| p@) == old(prefixes)@.map_values(|p: &'static str| p@)
            + opt_cond(present, prefix@),
        binds_view(final(binds)@) == binds_view(old(binds)@) + opt_bind(present, bind_view(bind)),
{
    if present {
        prefixes.push(prefix);
        binds.push(bind);
    }
    assert(final(prefixes)@.map_values(|p: &'static str| p@) =~= old(prefixes)@.map_values(|p: &'static str| p@)
        + opt_cond(present, prefix@));
    assert(binds_view(final(binds)@) =~= binds_view(old(binds)@) + opt_bind(present, bind_view(bind)));
}

fn text_bind(o: &Option<String>) -> (b: LogBind)
    ensures
        bind_view(b) == LogBindView::Text(text_of(*o)),
{
    match o {
        Some(s) => LogBind::Text(s.clone()),
        None => LogBind::Text(String::new()),
    }
}

fn like_bind(o: &Option<String>) -> (b: LogBind)
    ensures
        bind_view(b) == LogBindView::Text(like_of(*o)),
{
    match o {
        Some(s) => LogBind::Text(like_pattern(s.as_str())),
        None => {
            let p = like_pattern("");
            proof {
                reveal_strlit("");
                assert(p@ =~= "%"@ + Seq::<char>::empty() + "%"@);
            }
            LogBind::Text(p)
        },
    }
}

/// The newest live log rows that pass the filters, at most `limit` (100 when not given).
pub fn tail_query(f: &LogFilters, has_since: bool, limit: Option<u32>) -> (q: LogQuery)
    ensures
        q.sql@ == "SELECT * FROM sys_log WHERE "@ + where_text(tail_prefixes(*f, has_since))
            + " ORDER BY created_at DESC LIMIT $"@ + nat_text(tail_prefixes(*f, has_since).len() + 1),
        binds_view(q.binds@) == tail_binds(*f, has_since)
            + seq![LogBindView::Int(match limit { Some(l) => l as i64, None => 100 })],
{
    let mut prefixes: Vec<&'static str> = Vec::new();
    let mut binds: Vec<LogBind> = Vec::new();
    push_cond(&mut prefixes, &mut binds, f.service_name.is_some(), "service_name = $", text_bind(&f.service_name));
    push_cond(&mut prefixes, &mut binds, f.log_type.is_some(), "log_type = $", text_bind(&f.log_type));
    push_cond(&mut prefixes, &mut binds, f.keyword.is_some(), "content LIKE $", like_bind(&f.keyword));
    push_cond(&mut prefixes, &mut binds, has_since, "created_at > $", LogBind::Since);
    let limit_value: i64 = match limit {
        Some(l) => l as i64,
        None => 100,
    };
    let ghost before = binds@;
    binds.push(LogBind::Int(limit_value));
    assert(binds_view(binds@) =~= binds_view(before) + seq![LogBindView::Int(limit_value)]);
    assert(prefixes@.map_values(|p: &'static str| p@) =~= tail_prefixes(*f, has_since));
    let w = where_clause(&prefixes);
    let tail = with_param_number(" ORDER BY created_at DESC LIMIT ", (prefixes.len() + 1) as u64);
    proof {
        reveal_strlit(" ORDER BY created_at DESC LIMIT ");
        reveal_strlit("$");
        reveal_strlit(" ORDER BY created_at DESC LIMIT $");
    }
    let sql = concat3("SELECT * FROM sys_log WHERE ", w.as_str(), tail.as_str());
    assert(sql@ =~= "SELECT * FROM sys_log WHERE "@ + where_text(tail_prefixes(*f, has_since))
        + " ORDER BY created_at DESC LIMIT $"@ + nat_text(tail_prefixes(*f, has_since).len() + 1));
    LogQuery { sql, binds }
}

fn search_conditions(f: &LogFilters) -> (r: (Vec<&'static str>, Vec<LogBind>))
    ensures
        r.0@.map_values(|p: &'static str| p@) == search_prefixes(*f),
        binds_view(r.1@) == search_binds(*f),
{
    let mut prefixes: Vec<&'static str> = Vec::new();
    let mut binds: Vec<LogBind> = Vec::new();
    push_cond(&mut prefixes, &mut binds, f.service_name.is_some(), "service_name = $", text_bind(&f.service_name));
    push_cond(&mut prefixes, &mut binds, f.log_type.is_some(), "log_type = $", text_bind(&f.log_type));
    push_cond(&mut prefixes, &mut binds, f.level.is_some(), "level = $", text_bind(&f.level));
    push_cond(&mut prefixes, &mut binds, f.source.is_some(), "source = $", text_bind(&f.source));
    push_cond(&mut prefixes, &mut binds, f.tags.is_some(), "tags LIKE $", like_bind(&f.tags));
    push_cond(&mut prefixes, &mut binds, f.keyword.is_some(), "content LIKE $", like_bind(&f.keyword));
    push_cond(&mut prefixes, &mut binds, f.has_start_time, "created_at >= $", LogBind::StartTime);
    push_cond(&mut prefixes, &mut binds, f.has_end_time, "created_at <= $", LogBind::EndTime);
    assert(prefixes@.map_values(|p: &'static str| p@) =~= search_prefixes(*f));
    assert(binds_view(binds@) =~= search_binds(*f));
    (prefixes, binds)
}

/// The count and page queries of a log search. The page query binds the page's
/// limit and offset after the filter values.
#[verifier::rlimit(40)]
pub fn search_queries(f: &LogFilters, limit: i64, offset: i64) -> (q: (LogQuery, LogQuery))
    ensures
        q.0.sql@ == "SELECT COUNT(1) as count FROM sys_log WHERE "@ + where_text(search_prefixes(*f)),
        binds_view(q.0.binds@) == search_binds(*f),
        q.1.sql@ == "SELECT * FROM sys_log WHERE "@ + where_text(search_prefixes(*f))
            + " ORDER BY created_at DESC LIMIT $"@ + nat_text(search_prefixes(*f).len() + 1)
            + " OFFSET $"@ + nat_text(search_prefixes(*f).len() + 2),
        binds_view(q.1.binds@) == search_binds(*f) + seq![LogBindView::Int(limit), LogBindView::Int(offset)],
{
    let (prefixes, mut binds) = search_conditions(f);
    let w = where_clause(&prefixes);
    let count_sql = crate::text::concat2("SELECT COUNT(1) as count FROM sys_log WHERE ", w.as_str());
    let n = prefixes.len() as u64;
    let lim = with_param_number(" ORDER BY created_at DESC LIMIT ", n + 1);
    let off = with_param_number(" OFFSET ", n + 2);
    proof {
        reveal_strlit(" ORDER BY created_at DESC LIMIT ");
        reveal_strlit("$");
        reveal_strlit(" ORDER BY created_at DESC LIMIT $");
        reveal_strlit(" OFFSET ");
        reveal_strlit(" OFFSET $");
    }
    let head = crate::text::concat2("SELECT * FROM sys_log WHERE ", w.as_str());
    let data_sql = concat3(head.as_str(), lim.as_str(), off.as_str());
    assert(data_sql@ =~= "SELECT * FROM sys_log WHERE "@ + where_text(search_prefixes(*f))
        + " ORDER BY created_at DESC LIMIT $"@ + nat_text(search_prefixes(*f).len() + 1)
        + " OFFSET $"@ + nat_text(search_prefixes(*f).len() + 2));
    let (_, count_binds) = search_conditions(f);
    let ghost before = binds@;
    binds.push(LogBind::Int(limit));
    binds.push(LogBind::Int(offset));
    assert(binds_view(binds@) =~= binds_view(before) + seq![LogBindView::Int(limit), LogBindView::Int(offset)]);
    (LogQuery { sql: count_sql, binds: count_binds }, LogQuery { sql: data_sql, binds })
}

/// The three queries of the log statistics: the total, the counts per level and the
/// counts per log type, all over the same filters and bound values.
pub fn stats_queries(f: &LogFilters) -> (q: (String, String, String, Vec<LogBind>))
    ensures
        q.0@ == "SELECT COUNT(1) as count FROM sys_log WHERE "@ + where_text(stats_prefixes(*f)),
        q.1@ == "SELECT level, COUNT(1) as count FROM sys_log WHERE "@ + where_text(stats_prefixes(*f))
            + " AND level IS NOT NULL GROUP BY level"@,
        q.2@ == "SELECT log_type, COUNT(1) as count FROM sys_log WHERE "@ + where_text(stats_prefixes(*f))
            + " AND log_type IS NOT NULL GROUP BY log_type"@,
        binds_view(q.3@) == stats_binds(*f),
{
    let mut prefixes: Vec<&'static str> = Vec::new();
    let mut binds: Vec<LogBind> = Vec::new();
    push_cond(&mut prefixes, &mut binds, f.service_name.is_some(), "service_name = $", text_bind(&f.service_name));
    push_cond(&mut prefixes, &mut binds, f.log_type.is_some(), "log_type = $", text_bind(&f.log_type));
    push_cond(&mut prefixes, &mut binds, f.has_start_time, "created_at >= $", LogBind::StartTime);
    push_cond(&mut prefixes, &mut binds, f.has_end_time, "created_at <= $", LogBind::EndTime);
    assert(prefixes@.map_values(|p: &'static str| p@) =~= stats_prefixes(*f));
    assert(binds_view(binds@) =~= stats_binds(*f));
    let w = where_clause(&prefixes);
    let total = crate::text::concat2("SELECT COUNT(1) as count FROM sys_log WHERE ", w.as_str());
    let by_level = concat3(
        "SELECT level, COUNT(1) as count FROM sys_log WHERE ",
        w.as_str(),
        " AND level IS NOT NULL GROUP BY level",
    );
    let by_type = concat3(
        "SELECT log_type, COUNT(1) as count FROM sys_log WHERE ",
        w.as_str(),
        " AND log_type IS NOT NULL GROUP BY log_type",
    );
    (total, by_level, by_type, binds)
}


/// A condition on one field of a document filter.
#[derive(Clone, Debug)]
pub enum FieldCond {
    /// The field equals this integer.
    Int(i64),
    /// The field equals this text.
    Text(String),
    /// The field matches this pattern, ignoring case.
    RegexI(String),
    /// The field is later than the `since` bound.
    AfterSince,
    /// The field is at or after the start bound.
    AtOrAfterStart,
    /// The field is at or before the end bound.
    AtOrBeforeEnd,
}

pub enum FieldCondView {
    Int(i64),
    Text(Seq<char>),
    RegexI(Seq<char>),
    AfterSince,
    AtOrAfterStart,
    AtOrBeforeEnd,
}

pub open spec fn cond_view(c: FieldCond) -> FieldCondView {
    match c {
        FieldCond::Int(i) => FieldCondView::Int(i),
        FieldCond::Text(s) => FieldCondView::Text(s@),
        FieldCond::RegexI(s) => FieldCondView::RegexI(s@),
        FieldCond::AfterSince => FieldCondView::AfterSince,
        FieldCond::AtOrAfterStart => FieldCondView::AtOrAfterStart,
        FieldCond::AtOrBeforeEnd => FieldCondView::AtOrBeforeEnd,
    }
}

/// A document filter: fields in insertion order, each with one condition.
pub struct DocFilter {
    pub entries: Vec<(String, FieldCond)>,
}

pub open spec fn filter_view(f: Seq<(String, FieldCond)>) -> Seq<(Seq<char>, FieldCondView)> {
    f.map_values(|e: (String, FieldCond)| (e.0@, cond_view(e.1)))
}

/// One entry when the filter is present, none otherwise.
pub open spec fn opt_entry(present: bool, key: Seq<char>, c: FieldCondView) -> Seq<(Seq<char>, FieldCondView)> {
    if present { seq![(key, c)] } else { Seq::empty() }
}

/// The filter of a log search over the document store: the start and end bounds share
/// the `created_at` field, so when both are given only the end bound is kept.
pub open spec fn mongo_search_filter(f: LogFilters) -> Seq<(Seq<char>, FieldCondView)> {
    seq![("del_flag"@, FieldCondView::Int(0))]
        + opt_entry(f.service_name.is_some(), "service_name"@, FieldCondView::Text(text_of(f.service_name)))
        + opt_entry(f.log_type.is_some(), "log_type"@, FieldCondView::Text(text_of(f.log_type)))
        + opt_entry(f.level.is_some(), "level"@, FieldCondView::Text(text_of(f.level)))
        + opt_entry(f.source.is_some(), "source"@, FieldCondView::Text(text_of(f.source)))
        + opt_entry(f.tags.is_some(), "tags"@, FieldCondView::RegexI(text_of(f.tags)))
        + opt_entry(f.keyword.is_some(), "content"@, FieldCondView::RegexI(text_of(f.keyword)))
        + opt_entry(f.has_start_time || f.has_end_time, "created_at"@,
            if f.has_end_time { FieldCondView::AtOrBeforeEnd } else { FieldCondView::AtOrAfterStart })
}

fn push_if(entries: &mut Vec<(String, FieldCond)>, present: bool, key: &str, cond: FieldCond)
    ensures
        filter_view(final(entries)@) == filter_view(old(entries)@) + opt_entry(present, key@, cond_view(cond)),
{
    if present {
        entries.push((crate::text::copy_str(key), cond));
    }
    assert(filter_view(final(entries)@) =~= filter_view(old(entries)@) + opt_entry(present, key@, cond_view(cond)));
}

fn text_cond(o: &Option<String>) -> (c: FieldCond)
    ensures
        cond_view(c) == FieldCondView::Text(text_of(*o)),
{
    match o {
        Some(s) => FieldCond::Text(s.clone()),
        None => FieldCond::Text(String::new()),
    }
}

fn regex_cond(o: &Option<String>) -> (c: FieldCond)
    ensures
        cond_view(c) == FieldCondView::RegexI(text_of(*o)),
{
    match o {
        Some(s) => FieldCond::RegexI(s.clone()),
        None => FieldCond::RegexI(String::new()),
    }
}

/// The document filter of a log search.
pub fn mongo_search_filter_of(f: &LogFilters) -> (d: DocFilter)
    ensures
        filter_view(d.entries@) == mongo_search_filter(*f),
{
    let mut e: Vec<(String, FieldCond)> = Vec::new();
    e.push((crate::text::copy_str("del_flag"), FieldCond::Int(0)));
    assert(filter_view(e@) =~= seq![("del_flag"@, FieldCondView::Int(0))]);
    push_if(&mut e, f.service_name.is_some(), "service_name", text_cond(&f.service_name));
    push_if(&mut e, f.log_type.is_some(), "log_type", text_cond(&f.log_type));
    push_if(&mut e, f.level.is_some(), "level", text_cond(&f.level));
    push_if(&mut e, f.source.is_some(), "source", text_cond(&f.source));
    push_if(&mut e, f.tags.is_some(), "tags", regex_cond(&f.tags));
    push_if(&mut e, f.keyword.is_some(), "content", regex_cond(&f.keyword));
    let time_cond = if f.has_end_time { FieldCond::AtOrBeforeEnd } else { FieldCond::AtOrAfterStart };
    push_if(&mut e, f.has_start_time || f.has_end_time, "created_at", time_cond);
    DocFilter { entries: e }
}

/// The document filter of a log tail.
pub open spec fn mongo_tail_filter(f: LogFilters, has_since: bool) -> Seq<(Seq<char>, FieldCondView)> {
    seq![("del_flag"@, FieldCondView::Int(0))]
        + opt_entry(f.service_name.is_some(), "service_name"@, FieldCondView::Text(text_of(f.service_name)))
        + opt_entry(f.log_type.is_some(), "log_type"@, FieldCondView::Text(text_of(f.log_type)))
        + opt_entry(f.keyword.is_some(), "content"@, FieldCondView::RegexI(text_of(f.keyword)))
        + opt_entry(has_since, "created_at"@, FieldCondView::AfterSince)
}

pub fn mongo_tail_filter_of(f: &LogFilters, has_since: bool) -> (d: DocFilter)
    ensures
        filter_view(d.entries@) == mongo_tail_filter(*f, has_since),
{
    let mut e: Vec<(String, FieldCond)> = Vec::new();
    e.push((crate::text::copy_str("del_flag"), FieldCond::Int(0)));
    assert(filter_view(e@) =~= seq![("del_flag"@, FieldCondView::Int(0))]);
    push_if(&mut e, f.service_name.is_some(), "service_name", text_cond(&f.service_name));
    push_if(&mut e, f.log_type.is_some(), "log_type", text_cond(&f.log_type));
    push_if(&mut e, f.keyword.is_some(), "content", regex_cond(&f.keyword));
    push_if(&mut e, has_since, "created_at", FieldCond::AfterSince);
    DocFilter { entries: e }
}

/// The document filter of the log statistics; as in a search, an end bound replaces a
/// start bound on `created_at`.
pub open spec fn mongo_stats_filter(f: LogFilters) -> Seq<(Seq<char>, FieldCondView)> {
    seq![("del_flag"@, FieldCondView::Int(0))]
        + opt_entry(f.service_name.is_some(), "service_name"@, FieldCondView::Text(text_of(f.service_name)))
        + opt_entry(f.log_type.is_some(), "log_type"@, FieldCondView::Text(text_of(f.log_type)))
        + opt_entry(f.has_start_time || f.has_end_time, "created_at"@,
            if f.has_end_time { FieldCondView::AtOrBeforeEnd } else { FieldCondView::AtOrAfterStart })
}

pub fn mongo_stats_filter_of(f: &LogFilters) -> (d: DocFilter)
    ensures
        filter_view(d.entries@) == mongo_stats_filter(*f),
{
    let mut e: Vec<(String, FieldCond)> = Vec::new();
    e.push((crate::text::copy_str("del_flag"), FieldCond::Int(0)));
    assert(filter_view(e@) =~= seq![("del_flag"@, FieldCondView::Int(0))]);
    push_if(&mut e, f.service_name.is_some(), "service_name", text_cond(&f.service_name));
    push_if(&mut e, f.log_type.is_some(), "log_type", text_cond(&f.log_type));
    let time_cond = if f.has_end_time { FieldCond::AtOrBeforeEnd } else { FieldCond::AtOrAfterStart };
    push_if(&mut e, f.has_start_time || f.has_end_time, "created_at", time_cond);
    DocFilter { entries: e }
}

/// The document filter of a position query: a wallet id of 0 and an empty symbol match any.
pub open spec fn position_filter(wallet_id: i64, symbol: Seq<char>) -> Seq<(Seq<char>, FieldCondView)> {
    opt_entry(wallet_id != 0, "wallet_id"@, FieldCondView::Int(wallet_id))
        + opt_entry(symbol.len() != 0, "symbol"@, FieldCondView::Text(symbol))
}

pub fn position_filter_of(wallet_id: i64, symbol: &str) -> (d: DocFilter)
    ensures
        filter_view(d.entries@) == position_filter(wallet_id, symbol@),
{
    let mut e: Vec<(String, FieldCond)> = Vec::new();
    assert(filter_view(e@) =~= Seq::<(Seq<char>, FieldCondView)>::empty());
    push_if(&mut e, wallet_id != 0, "wallet_id", FieldCond::Int(wallet_id));
    push_if(&mut e, !symbol.is_empty(), "symbol", FieldCond::Text(crate::text::copy_str(symbol)));
    assert(filter_view(e@) =~= position_filter(wallet_id, symbol@));
    DocFilter { entries: e }
}

/// Whether some condition is the given one and is bound to the given value.
pub open spec fn has_condition(prefixes: Seq<Seq<char>>, binds: Seq<LogBindView>, prefix: Seq<char>, value: LogBindView) -> bool {
    exists|k: int| 0 <= k < prefixes.len() && k < binds.len() && prefixes[k] == prefix && #[trigger] binds[k] == value
}

/// One for a given filter, none otherwise.
pub open spec fn given(b: bool) -> nat {
    if b { 1 } else { 0 }
}

/// The statistics queries filter by exactly the filters given: each given
/// service name, log type, start and end time is one condition bound to that
/// value, and there is no other condition; every condition has its value.
pub proof fn lemma_stats_conditions(f: LogFilters)
    ensures
        stats_prefixes(f).len() == stats_binds(f).len(),
        stats_prefixes(f).len() == given(f.service_name is Some) + given(f.log_type is Some)
            + given(f.has_start_time) + given(f.has_end_time),
        f.service_name matches Some(n) ==> has_condition(stats_prefixes(f), stats_binds(f), "service_name = $"@, LogBindView::Text(n@)),
        f.log_type matches Some(t) ==> has_condition(stats_prefixes(f), stats_binds(f), "log_type = $"@, LogBindView::Text(t@)),
        f.has_start_time ==> has_condition(stats_prefixes(f), stats_binds(f), "created_at >= $"@, LogBindView::StartTime),
        f.has_end_time ==> has_condition(stats_prefixes(f), stats_binds(f), "created_at <= $"@, LogBindView::EndTime),
{
    let p = stats_prefixes(f);
    let b = stats_binds(f);
    let i1 = given(f.service_name is Some) as int;
    let i2 = i1 + given(f.log_type is Some);
    let i3 = i2 + given(f.has_start_time);
    if f.service_name is Some {
        assert(p[0] == "service_name = $"@ && b[0] == LogBindView::Text(text_of(f.service_name)));
    }
    if f.log_type is Some {
        assert(p[i1] == "log_type = $"@ && b[i1] == LogBindView::Text(text_of(f.log_type)));
    }
    if f.has_start_time {
        assert(p[i2] == "created_at >= $"@ && b[i2] == LogBindView::StartTime);
    }
    if f.has_end_time {
        assert(p[i3] == "created_at <= $"@ && b[i3] == LogBindView::EndTime);
    }
}

/// The tail query filters by exactly the filters given: service name, log
/// type, keyword (as a LIKE pattern containing it) and the time it follows
/// on from; each is one condition bound to that value, and there is no other.
pub proof fn lemma_tail_conditions(f: LogFilters, has_since: bool)
    ensures
        tail_prefixes(f, has_since).len() == tail_binds(f, has_since).len(),
        tail_prefixes(f, has_since).len() == given(f.service_name is Some) + given(f.log_type is Some)
            + given(f.keyword is Some) + given(has_since),
        f.service_name matches Some(n) ==> has_condition(tail_prefixes(f, has_since), tail_binds(f, has_since),
            "service_name = $"@, LogBindView::Text(n@)),
        f.log_type matches Some(t) ==> has_condition(tail_prefixes(f, has_since), tail_binds(f, has_since),
            "log_type = $"@, LogBindView::Text(t@)),
        f.keyword matches Some(w) ==> has_condition(tail_prefixes(f, has_since), tail_binds(f, has_since),
            "content LIKE $"@, LogBindView::Text("%"@ + w@ + "%"@)),
        has_since ==> has_condition(tail_prefixes(f, has_since), tail_binds(f, has_since), "created_at > $"@, LogBindView::Since),
{
    let p = tail_prefixes(f, has_since);
    let b = tail_binds(f, has_since);
    let i1 = given(f.service_name is Some) as int;
    let i2 = i1 + given(f.log_type is Some);
    let i3 = i2 + given(f.keyword is Some);
    if f.service_name is Some {
        assert(p[0] == "service_name = $"@ && b[0] == LogBindView::Text(text_of(f.service_name)));
    }
    if f.log_type is Some {
        assert(p[i1] == "log_type = $"@ && b[i1] == LogBindView::Text(text_of(f.log_type)));
    }
    if f.keyword is Some {
        assert(p[i2] == "content LIKE $"@ && b[i2] == LogBindView::Text(like_of(f.keyword)));
    }
    if has_since {
        assert(p[i3] == "created_at > $"@ && b[i3] == LogBindView::Since);
    }
}

proof fn lemma_opt_condition(present: bool, prefix: Seq<char>, value: LogBindView)
    ensures
        opt_cond(present, prefix).len() == opt_bind(present, value).len(),
        opt_cond(present, prefix).len() == given(present),
        present ==> has_condition(opt_cond(present, prefix), opt_bind(present, value), prefix, value),
{
    if present {
        assert(opt_cond(present, prefix)[0] == prefix && opt_bind(present, value)[0] == value);
    }
}

proof fn lemma_join_conditions(p1: Seq<Seq<char>>, b1: Seq<LogBindView>, p2: Seq<Seq<char>>, b2: Seq<LogBindView>)
    requires
        p1.len() == b1.len(),
        p2.len() == b2.len(),
    ensures
        (p1 + p2).len() == (b1 + b2).len(),
        forall|x: Seq<char>, v: LogBindView| has_condition(p1, b1, x, v) || has_condition(p2, b2, x, v)
            ==> #[trigger] has_condition(p1 + p2, b1 + b2, x, v),
{
    assert forall|x: Seq<char>, v: LogBindView| has_condition(p1, b1, x, v) || has_condition(p2, b2, x, v)
        implies #[trigger] has_condition(p1 + p2, b1 + b2, x, v) by {
        if has_condition(p1, b1, x, v) {
            let k = choose|k: int| 0 <= k < p1.len() && k < b1.len() && p1[k] == x && #[trigger] b1[k] == v;
            assert((p1 + p2)[k] == x && (b1 + b2)[k] == v);
        } else {
            let k = choose|k: int| 0 <= k < p2.len() && k < b2.len() && p2[k] == x && #[trigger] b2[k] == v;
            assert((p1 + p2)[p1.len() + k] == x && (b1 + b2)[b1.len() + k] == v);
        }
    }
}

/// The search queries filter by exactly the filters given: service name, log
/// type, level and source by equality, tags and keyword by LIKE patterns
/// containing them, start and end time; each is one condition bound to that
/// value, and there is no other.
pub proof fn lemma_search_conditions(f: LogFilters)
    ensures
        search_prefixes(f).len() == search_binds(f).len(),
        search_prefixes(f).len() == given(f.service_name is Some) + given(f.log_type is Some)
            + given(f.level is Some) + given(f.source is Some) + given(f.tags is Some)
            + given(f.keyword is Some) + given(f.has_start_time) + given(f.has_end_time),
        f.service_name matches Some(n) ==> has_condition(search_prefixes(f), search_binds(f), "service_name = $"@, LogBindView::Text(n@)),
        f.log_type matches Some(t) ==> has_condition(search_prefixes(f), search_binds(f), "log_type = $"@, LogBindView::Text(t@)),
        f.level matches Some(l) ==> has_condition(search_prefixes(f), search_binds(f), "level = $"@, LogBindView::Text(l@)),
        f.source matches Some(x) ==> has_condition(search_prefixes(f), search_binds(f), "source = $"@, LogBindView::Text(x@)),
        f.tags matches Some(g) ==> has_condition(search_prefixes(f), search_binds(f), "tags LIKE $"@, LogBindView::Text("%"@ + g@ + "%"@)),
        f.keyword matches Some(w) ==> has_condition(search_prefixes(f), search_binds(f), "content LIKE $"@, LogBindView::Text("%"@ + w@ + "%"@)),
        f.has_start_time ==> has_condition(search_prefixes(f), search_binds(f), "created_at >= $"@, LogBindView::StartTime),
        f.has_end_time ==> has_condition(search_prefixes(f), search_binds(f), "created_at <= $"@, LogBindView::EndTime),
{
    let p1 = opt_cond(f.service_name.is_some(), "service_name = $"@);
    let b1 = opt_bind(f.service_name.is_some(), LogBindView::Text(text_of(f.service_name)));
    let p2 = opt_cond(f.log_type.is_some(), "log_type = $"@);
    let b2 = opt_bind(f.log_type.is_some(), LogBindView::Text(text_of(f.log_type)));
    let p3 = opt_cond(f.level.is_some(), "level = $"@);
    let b3 = opt_bind(f.level.is_some(), LogBindView::Text(text_of(f.level)));
    let p4 = opt_cond(f.source.is_some(), "source = $"@);
    let b4 = opt_bind(f.source.is_some(), LogBindView::Text(text_of(f.source)));
    let p5 = opt_cond(f.tags.is_some(), "tags LIKE $"@);
    let b5 = opt_bind(f.tags.is_some(), LogBindView::Text(like_of(f.tags)));
    let p6 = opt_cond(f.keyword.is_some(), "content LIKE $"@);
    let b6 = opt_bind(f.keyword.is_some(), LogBindView::Text(like_of(f.keyword)));
    let p7 = opt_cond(f.has_start_time, "created_at >= $"@);
    let b7 = opt_bind(f.has_start_time, LogBindView::StartTime);
    let p8 = opt_cond(f.has_end_time, "created_at <= $"@);
    let b8 = opt_bind(f.has_end_time, LogBindView::EndTime);
    lemma_opt_condition(f.service_name.is_some(), "service_name = $"@, LogBindView::Text(text_of(f.service_name)));
    lemma_opt_condition(f.log_type.is_some(), "log_type = $"@, LogBindView::Text(text_of(f.log_type)));
    lemma_opt_condition(f.level.is_some(), "level = $"@, LogBindView::Text(text_of(f.level)));
    lemma_opt_condition(f.source.is_some(), "source = $"@, LogBindView::Text(text_of(f.source)));
    lemma_opt_condition(f.tags.is_some(), "tags LIKE $"@, LogBindView::Text(like_of(f.tags)));
    lemma_opt_condition(f.keyword.is_some(), "content LIKE $"@, LogBindView::Text(like_of(f.keyword)));
    lemma_opt_condition(f.has_start_time, "created_at >= $"@, LogBindView::StartTime);
    lemma_opt_condition(f.has_end_time, "created_at <= $"@, LogBindView::EndTime);
    lemma_join_conditions(p1, b1, p2, b2);
    lemma_join_conditions(p1 + p2, b1 + b2, p3, b3);
    lemma_join_conditions(p1 + p2 + p3, b1 + b2 + b3, p4, b4);
    lemma_join_conditions(p1 + p2 + p3 + p4, b1 + b2 + b3 + b4, p5, b5);
    lemma_join_conditions(p1 + p2 + p3 + p4 + p5, b1 + b2 + b3 + b4 + b5, p6, b6);
    lemma_join_conditions(p1 + p2 + p3 + p4 + p5 + p6, b1 + b2 + b3 + b4 + b5 + b6, p7, b7);
    lemma_join_conditions(p1 + p2 + p3 + p4 + p5 + p6 + p7, b1 + b2 + b3 + b4 + b5 + b6 + b7, p8, b8);
    assert(search_prefixes(f) == p1 + p2 + p3 + p4 + p5 + p6 + p7 + p8);
    assert(search_binds(f) == b1 + b2 + b3 + b4 + b5 + b6 + b7 + b8);
}

proof fn lemma_join_entries(a: Seq<(Seq<char>, FieldCondView)>, b: Seq<(Seq<char>, FieldCondView)>)
    ensures
        forall|x: (Seq<char>, FieldCondView)| a.contains(x) || b.contains(x) ==> #[trigger] (a + b).contains(x),
{
    assert forall|x: (Seq<char>, FieldCondView)| a.contains(x) || b.contains(x) implies #[trigger] (a + b).contains(x) by {
        if a.contains(x) {
            let k = choose|k: int| 0 <= k < a.len() && a[k] == x;
            assert((a + b)[k] == x);
        } else {
            let k = choose|k: int| 0 <= k < b.len() && b[k] == x;
            assert((a + b)[a.len() + k] == x);
        }
    }
}

proof fn lemma_opt_entry(present: bool, key: Seq<char>, c: FieldCondView)
    ensures
        opt_entry(present, key, c).len() == given(present),
        present ==> opt_entry(present, key, c).contains((key, c)),
{
    if present {
        assert(opt_entry(present, key, c)[0] == (key, c));
    }
}

/// The document filters keep live rows only and filter by exactly the
/// filters given: a given service name, log type or level is matched
/// exactly, tags and keyword case-insensitively as patterns, and the time
/// bounds on `created_at` (the end bound winning over the start bound).
pub proof fn lemma_mongo_filters(f: LogFilters, has_since: bool)
    ensures
        mongo_search_filter(f).contains(("del_flag"@, FieldCondView::Int(0))),
        mongo_stats_filter(f).contains(("del_flag"@, FieldCondView::Int(0))),
        mongo_tail_filter(f, has_since).contains(("del_flag"@, FieldCondView::Int(0))),
        mongo_search_filter(f).len() == 1 + given(f.service_name is Some) + given(f.log_type is Some)
            + given(f.level is Some) + given(f.source is Some) + given(f.tags is Some)
            + given(f.keyword is Some) + given(f.has_start_time || f.has_end_time),
        mongo_stats_filter(f).len() == 1 + given(f.service_name is Some) + given(f.log_type is Some)
            + given(f.has_start_time || f.has_end_time),
        mongo_tail_filter(f, has_since).len() == 1 + given(f.service_name is Some) + given(f.log_type is Some)
            + given(f.keyword is Some) + given(has_since),
        f.service_name matches Some(n) ==> mongo_search_filter(f).contains(("service_name"@, FieldCondView::Text(n@)))
            && mongo_stats_filter(f).contains(("service_name"@, FieldCondView::Text(n@)))
            && mongo_tail_filter(f, has_since).contains(("service_name"@, FieldCondView::Text(n@))),
        f.log_type matches Some(t) ==> mongo_search_filter(f).contains(("log_type"@, FieldCondView::Text(t@)))
            && mongo_stats_filter(f).contains(("log_type"@, FieldCondView::Text(t@)))
            && mongo_tail_filter(f, has_since).contains(("log_type"@, FieldCondView::Text(t@))),
        f.level matches Some(l) ==> mongo_search_filter(f).contains(("level"@, FieldCondView::Text(l@))),
        f.source matches Some(x) ==> mongo_search_filter(f).contains(("source"@, FieldCondView::Text(x@))),
        f.tags matches Some(g) ==> mongo_search_filter(f).contains(("tags"@, FieldCondView::RegexI(g@))),
        f.keyword matches Some(w) ==> mongo_search_filter(f).contains(("content"@, FieldCondView::RegexI(w@)))
            && mongo_tail_filter(f, has_since).contains(("content"@, FieldCondView::RegexI(w@))),
        f.has_end_time ==> mongo_search_filter(f).contains(("created_at"@, FieldCondView::AtOrBeforeEnd))
            && mongo_stats_filter(f).contains(("created_at"@, FieldCondView::AtOrBeforeEnd)),
        f.has_start_time && !f.has_end_time ==> mongo_search_filter(f).contains(("created_at"@, FieldCondView::AtOrAfterStart))
            && mongo_stats_filter(f).contains(("created_at"@, FieldCondView::AtOrAfterStart)),
        has_since ==> mongo_tail_filter(f, has_since).contains(("created_at"@, FieldCondView::AfterSince)),
{
    let d = seq![("del_flag"@, FieldCondView::Int(0))];
    assert(d[0] == ("del_flag"@, FieldCondView::Int(0)));
    let e1 = opt_entry(f.service_name.is_some(), "service_name"@, FieldCondView::Text(text_of(f.service_name)));
    let e2 = opt_entry(f.log_type.is_some(), "log_type"@, FieldCondView::Text(text_of(f.log_type)));
    let e3 = opt_entry(f.level.is_some(), "level"@, FieldCondView::Text(text_of(f.level)));
    let e4 = opt_entry(f.source.is_some(), "source"@, FieldCondView::Text(text_of(f.source)));
    let e5 = opt_entry(f.tags.is_some(), "tags"@, FieldCondView::RegexI(text_of(f.tags)));
    let e6 = opt_entry(f.keyword.is_some(), "content"@, FieldCondView::RegexI(text_of(f.keyword)));
    let e7 = opt_entry(f.has_start_time || f.has_end_time, "created_at"@,
        if f.has_end_time { FieldCondView::AtOrBeforeEnd } else { FieldCondView::AtOrAfterStart });
    let e8 = opt_entry(has_since, "created_at"@, FieldCondView::AfterSince);
    lemma_opt_entry(f.service_name.is_some(), "service_name"@, FieldCondView::Text(text_of(f.service_name)));
    lemma_opt_entry(f.log_type.is_some(), "log_type"@, FieldCondView::Text(text_of(f.log_type)));
    lemma_opt_entry(f.level.is_some(), "level"@, FieldCondView::Text(text_of(f.level)));
    lemma_opt_entry(f.source.is_some(), "source"@, FieldCondView::Text(text_of(f.source)));
    lemma_opt_entry(f.tags.is_some(), "tags"@, FieldCondView::RegexI(text_of(f.tags)));
    lemma_opt_entry(f.keyword.is_some(), "content"@, FieldCondView::RegexI(text_of(f.keyword)));
    lemma_opt_entry(f.has_start_time || f.has_end_time, "created_at"@,
        if f.has_end_time { FieldCondView::AtOrBeforeEnd } else { FieldCondView::AtOrAfterStart });
    lemma_opt_entry(has_since, "created_at"@, FieldCondView::AfterSince);
    lemma_join_entries(d, e1);
    lemma_join_entries(d + e1, e2);
    lemma_join_entries(d + e1 + e2, e3);
    lemma_join_entries(d + e1 + e2 + e3, e4);
    lemma_join_entries(d + e1 + e2 + e3 + e4, e5);
    lemma_join_entries(d + e1 + e2 + e3 + e4 + e5, e6);
    lemma_join_entries(d + e1 + e2 + e3 + e4 + e5 + e6, e7);
    lemma_join_entries(d + e1 + e2, e7);
    lemma_join_entries(d + e1 + e2, e6);
    lemma_join_entries(d + e1 + e2 + e6, e8);
    assert(mongo_search_filter(f) == d + e1 + e2 + e3 + e4 + e5 + e6 + e7);
    assert(mongo_stats_filter(f) == d + e1 + e2 + e7);
    assert(mongo_tail_filter(f, has_since) == d + e1 + e2 + e6 + e8);
    assert(d.contains(("del_flag"@, FieldCondView::Int(0))));
}

/// A position query matches the wallet when a wallet id other than 0 is
/// given and the symbol when a non-empty one is given, and nothing else.
pub proof fn lemma_position_filter(wallet_id: i64, symbol: Seq<char>)
    ensures
        position_filter(wallet_id, symbol).len() == given(wallet_id != 0) + given(symbol.len() != 0),
        wallet_id != 0 ==> position_filter(wallet_id, symbol).contains(("wallet_id"@, FieldCondView::Int(wallet_id))),
        symbol.len() != 0 ==> position_filter(wallet_id, symbol).contains(("symbol"@, FieldCondView::Text(symbol))),
{
    let a = opt_entry(wallet_id != 0, "wallet_id"@, FieldCondView::Int(wallet_id));
    let b = opt_entry(symbol.len() != 0, "symbol"@, FieldCondView::Text(symbol));
    lemma_opt_entry(wallet_id != 0, "wallet_id"@, FieldCondView::Int(wallet_id));
    lemma_opt_entry(symbol.len() != 0, "symbol"@, FieldCondView::Text(symbol));
    lemma_join_entries(a, b);
}

} // verus!

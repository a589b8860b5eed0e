//! The panel's own log: its filters, the query they make, and the count
//! of entries by level.

use vstd::prelude::*;

use crate::text::{chars_of, decimal_of, str_eq, u64_decimal};

verus! {

/// Filters and paging of the panel log.
pub struct LogParams {
    pub level: Option<String>,
    pub source: Option<String>,
    /// `1h`, `24h`, `7d` or `30d`.
    pub since: Option<String>,
    pub limit: Option<i64>,
    pub offset: Option<i64>,
}

/// The period the counts are taken over.
pub struct CountParams {
    pub since: Option<String>,
}

/// Log entries by level.
pub struct LogCounts {
    pub error: i64,
    pub warning: i64,
    pub info: i64,
}

/// The interval a period name stands for, in PostgreSQL's words.
pub open spec fn since_interval(since: Seq<char>) -> Option<Seq<char>> {
    if since == "1h"@ {
        Some("1 hour"@)
    } else if since == "24h"@ {
        Some("24 hours"@)
    } else if since == "7d"@ {
        Some("7 days"@)
    } else if since == "30d"@ {
        Some("30 days"@)
    } else {
        None
    }
}

pub fn parse_since(since: &str) -> (r: Option<&'static str>)
    ensures
        match r {
            Some(i) => since_interval(since@) == Some(i@),
            None => since_interval(since@) is None,
        },
{
    if str_eq(since, "1h") {
        Some("1 hour")
    } else if str_eq(since, "24h") {
        Some("24 hours")
    } else if str_eq(since, "7d") {
        Some("7 days")
    } else if str_eq(since, "30d") {
        Some("30 days")
    } else {
        None
    }
}

/// The levels the list can be filtered by.
pub open spec fn is_level(l: Seq<char>) -> bool {
    l == "error"@ || l == "warning"@ || l == "info"@
}

/// The page of the list: 50 entries unless given, within 1..=200, from
/// the given offset, at least 0.
pub fn log_paging(params: &LogParams) -> (r: (i64, i64))
    ensures
        r.0 == ({ let l = match params.limit { Some(l) => l, None => 50 }; if l < 1 { 1 } else if l > 200 { 200 } else { l } }),
        r.1 == ({ let o = match params.offset { Some(o) => o, None => 0 }; if o < 0 { 0 } else { o } }),
{
    let l = match params.limit { Some(l) => l, None => 50 };
    let o = match params.offset { Some(o) => o, None => 0 };
    (if l < 1 { 1 } else if l > 200 { 200 } else { l }, if o < 0 { 0 } else { o })
}

/// The level filter, when it names a known level.
pub open spec fn level_filter(params: LogParams) -> Option<Seq<char>> {
    match params.level {
        Some(l) => if is_level(l@) { Some(l@) } else { None },
        None => None,
    }
}

/// The source filter, when it is non-empty.
pub open spec fn source_filter(params: LogParams) -> Option<Seq<char>> {
    match params.source {
        Some(s) => if s@.len() > 0 { Some(s@) } else { None },
        None => None,
    }
}

/// The conditions of the list query, numbered from `$1`; the period
/// becomes a condition on the time when it is a known one.
pub open spec fn list_conditions(params: LogParams) -> Seq<Seq<char>> {
    let c1: Seq<Seq<char>> = if level_filter(params) is Some { seq!["level = $1"@] } else { Seq::empty() };
    let n = c1.len() + 1;
    let c2 = if source_filter(params) is Some { c1.push("source = $"@ + decimal_of(n)) } else { c1 };
    match params.since {
        Some(s) => match since_interval(s@) {
            Some(i) => c2.push("created_at > NOW() - INTERVAL '"@ + i + "'"@),
            None => c2,
        },
        None => c2,
    }
}

/// The list query: the conditions joined by `AND`, then the ordering and
/// the numbered limit and offset, after the filter values.
pub open spec fn list_sql_of(params: LogParams) -> Seq<char> {
    let conds = list_conditions(params);
    let binds = (if level_filter(params) is Some { 1nat } else { 0nat }) + (if source_filter(params) is Some { 1nat } else { 0nat });
    let where_clause = if conds.len() == 0 { Seq::empty() } else { "WHERE "@ + crate::text::join_with(conds, " AND "@) };
    "SELECT id, level, source, message, details, created_at FROM system_logs "@ + where_clause
        + " ORDER BY created_at DESC LIMIT $"@ + decimal_of(binds + 1) + " OFFSET $"@ + decimal_of(binds + 2)
}

fn join_and(conds: &Vec<String>) -> (s: String)
    ensures
        s@ == crate::text::join_with(conds@.map_values(|c: String| c@), " AND "@),
{
    let ghost model = conds@.map_values(|c: String| c@);
    let mut s = String::new();
    proof {
        reveal_strlit("");
    }
    let mut i: usize = 0;
    while i < conds.len()
        invariant
            i <= conds@.len(),
            model == conds@.map_values(|c: String| c@),
            s@ == crate::text::join_with(model.take(i as int), " AND "@),
        decreases conds@.len() - i,
    {
        let ghost before = s@;
        if i > 0 {
            s.append(" AND ");
        }
        s.append(conds[i].as_str());
        assert(model.take(i + 1).drop_last() =~= model.take(i as int));
        assert(model.take(i + 1).last() == conds@[i as int]@);
        if i == 0 {
            assert(s@ =~= crate::text::join_with(model.take(i + 1), " AND "@));
        } else {
            assert(s@ =~= before + " AND "@ + conds@[i as int]@);
        }
        i = i + 1;
    }
    assert(model.take(i as int) =~= model);
    s
}

/// Builds the list query and the filter values to bind before the limit
/// and offset.
pub fn list_query(params: &LogParams) -> (r: (String, Vec<String>))
    ensures
        r.0@ == list_sql_of(*params),
        r.1@.map_values(|b: String| b@) == (match level_filter(*params) { Some(l) => seq![l], None => Seq::empty() })
            + match source_filter(*params) { Some(s) => seq![s], None => Seq::empty() },
{
    let mut conds: Vec<String> = Vec::new();
    let mut binds: Vec<String> = Vec::new();
    let mut n: u64 = 1;
    if let Some(l) = &params.level {
        if str_eq(l.as_str(), "error") || str_eq(l.as_str(), "warning") || str_eq(l.as_str(), "info") {
            conds.push(String::from_str("level = $1"));
            binds.push(String::from_str(l.as_str()));
            n = 2;
        }
    }
    if let Some(s) = &params.source {
        if chars_of(s.as_str()).len() > 0 {
            let d = u64_decimal(n);
            conds.push(crate::text::concat2("source = $", d.as_str()));
            binds.push(String::from_str(s.as_str()));
            n = n + 1;
        }
    }
    if let Some(s) = &params.since {
        if let Some(i) = parse_since(s.as_str()) {
            conds.push(crate::text::concat3("created_at > NOW() - INTERVAL '", i, "'"));
        }
    }
    assert(conds@.map_values(|c: String| c@) =~= list_conditions(*params));
    let mut sql = String::from_str("SELECT id, level, source, message, details, created_at FROM system_logs ");
    if conds.len() > 0 {
        sql.append("WHERE ");
        let w = join_and(&conds);
        sql.append(w.as_str());
    }
    sql.append(" ORDER BY created_at DESC LIMIT $");
    let a = u64_decimal(n);
    sql.append(a.as_str());
    sql.append(" OFFSET $");
    let b = u64_decimal(n + 1);
    sql.append(b.as_str());
    proof {
        reveal_strlit("");
    }
    assert(sql@ =~= list_sql_of(*params));
    assert(binds@.map_values(|b: String| b@) =~= (match level_filter(*params) { Some(l) => seq![l], None => Seq::empty() })
        + match source_filter(*params) { Some(s) => seq![s], None => Seq::empty() });
    (sql, binds)
}

/// The period of the counts: the given one when known, 24 hours else.
pub fn count_interval(params: &CountParams) -> (i: &'static str)
    ensures
        i@ == match params.since {
            Some(s) => match since_interval(s@) { Some(x) => x, None => "24 hours"@ },
            None => "24 hours"@,
        },
{
    match &params.since {
        Some(s) => match parse_since(s.as_str()) {
            Some(x) => x,
            None => "24 hours",
        },
        None => "24 hours",
    }
}

/// The count of a level among the grouped rows: the last row for that
/// level, 0 when there is none.
pub open spec fn level_count(rows: Seq<(Seq<char>, i64)>, level: Seq<char>) -> i64
    decreases rows.len(),
{
    if rows.len() == 0 {
        0
    } else if rows.last().0 == level {
        rows.last().1
    } else {
        level_count(rows.drop_last(), level)
    }
}

/// Reads the grouped counts into the three known levels.
pub fn log_counts(rows: &Vec<(String, i64)>) -> (c: LogCounts)
    ensures
        c.error == level_count(rows@.map_values(|r: (String, i64)| (r.0@, r.1)), "error"@),
        c.warning == level_count(rows@.map_values(|r: (String, i64)| (r.0@, r.1)), "warning"@),
        c.info == level_count(rows@.map_values(|r: (String, i64)| (r.0@, r.1)), "info"@),
{
    let ghost model = rows@.map_values(|r: (String, i64)| (r.0@, r.1));
    let mut c = LogCounts { error: 0, warning: 0, info: 0 };
    let mut i: usize = 0;
    while i < rows.len()
        invariant
            i <= rows@.len(),
            model == rows@.map_values(|r: (String, i64)| (r.0@, r.1)),
            c.error == level_count(model.take(i as int), "error"@),
            c.warning == level_count(model.take(i as int), "warning"@),
            c.info == level_count(model.take(i as int), "info"@),
        decreases rows@.len() - i,
    {
        proof {
            reveal_strlit("error");
            reveal_strlit("warning");
            reveal_strlit("info");
            assert("error"@.len() == 5 && "warning"@.len() == 7 && "info"@.len() == 4);
        }
        assert(model.take(i + 1).drop_last() =~= model.take(i as int));
        assert(model.take(i + 1).last() == (rows@[i as int].0@, rows@[i as int].1));
        let level = rows[i].0.as_str();
        let cnt = rows[i].1;
        if str_eq(level, "error") {
            c.error = cnt;
        } else if str_eq(level, "warning") {
            c.warning = cnt;
        } else if str_eq(level, "info") {
            c.info = cnt;
        }
        i = i + 1;
    }
    assert(model.take(i as int) =~= model);
    c
}

/// The unit words of an interval: hours for `h`, days for `d`, singular
/// for one.
pub open spec fn unit_words(u: char, n: nat) -> Seq<char> {
    if u == 'h' {
        if n == 1 { "hour"@ } else { "hours"@ }
    } else {
        if n == 1 { "day"@ } else { "days"@ }
    }
}

/// A period name is a count and a unit letter (`h` or `d`), and the
/// interval it stands for is that same count of that same unit: no period
/// is read as a longer or shorter one.
pub proof fn law_since_keeps_length(s: Seq<char>)
    ensures
        since_interval(s) matches Some(i) ==> exists|n: nat, u: char|
            #![trigger decimal_of(n), unit_words(u, n)]
            (u == 'h' || u == 'd') && s == decimal_of(n) + seq![u] && i == decimal_of(n) + " "@ + unit_words(u, n),
{
    reveal_strlit("1h");
    reveal_strlit("24h");
    reveal_strlit("7d");
    reveal_strlit("30d");
    reveal_strlit("1 hour");
    reveal_strlit("24 hours");
    reveal_strlit("7 days");
    reveal_strlit("30 days");
    reveal_strlit(" ");
    reveal_strlit("hour");
    reveal_strlit("hours");
    reveal_strlit("day");
    reveal_strlit("days");
    if since_interval(s) is Some {
        let i = since_interval(s)->0;
        if s == "1h"@ {
            assert(decimal_of(1) =~= seq!['1']);
            assert(s =~= decimal_of(1) + seq!['h']);
            assert(i =~= decimal_of(1) + " "@ + unit_words('h', 1));
        } else if s == "24h"@ {
            assert(decimal_of(2) =~= seq!['2']);
            assert(decimal_of(24) =~= seq!['2', '4']);
            assert(s =~= decimal_of(24) + seq!['h']);
            assert(i =~= decimal_of(24) + " "@ + unit_words('h', 24));
        } else if s == "7d"@ {
            assert(decimal_of(7) =~= seq!['7']);
            assert(s =~= decimal_of(7) + seq!['d']);
            assert(i =~= decimal_of(7) + " "@ + unit_words('d', 7));
        } else {
            assert(decimal_of(3) =~= seq!['3']);
            assert(decimal_of(30) =~= seq!['3', '0']);
            assert(s =~= decimal_of(30) + seq!['d']);
            assert(i =~= decimal_of(30) + " "@ + unit_words('d', 30));
        }
    }
}

/// Each of the four period names is recognised.
pub proof fn law_since_names_recognised()
    ensures
        since_interval(decimal_of(1) + seq!['h']) is Some,
        since_interval(decimal_of(24) + seq!['h']) is Some,
        since_interval(decimal_of(7) + seq!['d']) is Some,
        since_interval(decimal_of(30) + seq!['d']) is Some,
{
    reveal_strlit("1h");
    reveal_strlit("24h");
    reveal_strlit("7d");
    reveal_strlit("30d");
    assert(decimal_of(2) =~= seq!['2']);
    assert(decimal_of(3) =~= seq!['3']);
    assert(decimal_of(1) + seq!['h'] =~= "1h"@);
    assert(decimal_of(24) + seq!['h'] =~= "24h"@);
    assert(decimal_of(7) + seq!['d'] =~= "7d"@);
    assert(decimal_of(30) + seq!['d'] =~= "30d"@);
}

} // verus!

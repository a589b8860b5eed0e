//! Log viewing: which logs may be asked for, how many lines, and the
//! agent paths and queries that fetch them.

use vstd::prelude::*;

use crate::crypto::{jwt_encode_hs256, jwt_hs256, parse_uuid, unix_now, url_encode, url_encoded, uuid_value};
use crate::text::{chars_of, concat2, decimal_of, is_ascii_alnum, str_eq, u64_decimal};

verus! {

/// A request for log lines.
pub struct LogQuery {
    pub log_type: Option<String>,
    pub lines: Option<u32>,
    pub filter: Option<String>,
}

/// A search in the logs.
pub struct SearchQuery {
    pub log_type: Option<String>,
    pub pattern: Option<String>,
    pub max: Option<u32>,
}

/// A request for a live log stream.
pub struct StreamTokenQuery {
    pub site_id: Option<String>,
    pub log_type: Option<String>,
}

/// Why a log request is refused.
#[derive(Debug, Clone, Copy, PartialEq, Eq, Structural)]
pub enum LogError {
    InvalidLogType,
    InvalidSiteLogType,
    PatternRequired,
    AdminRequired,
    InvalidContainer,
    InvalidService,
    InvalidSiteId,
    TicketFailed,
}

impl LogError {
    pub fn status(&self) -> (s: u16)
        ensures
            s == match self {
                LogError::AdminRequired => 403u16,
                LogError::TicketFailed => 500u16,
                _ => 400u16,
            },
    {
        match self {
            LogError::AdminRequired => 403,
            LogError::TicketFailed => 500,
            _ => 400,
        }
    }

    pub fn message(&self) -> (m: &'static str)
        ensures
            m@ == match self {
                LogError::InvalidLogType => "Invalid log type"@,
                LogError::InvalidSiteLogType => "Invalid site log type"@,
                LogError::PatternRequired => "Pattern is required"@,
                LogError::AdminRequired => "Admin access required for system log streaming"@,
                LogError::InvalidContainer => "Invalid container name"@,
                LogError::InvalidService => "Invalid service name"@,
                LogError::InvalidSiteId => "Invalid site_id"@,
                LogError::TicketFailed => "Internal server error"@,
            },
    {
        match self {
            LogError::InvalidLogType => "Invalid log type",
            LogError::InvalidSiteLogType => "Invalid site log type",
            LogError::PatternRequired => "Pattern is required",
            LogError::AdminRequired => "Admin access required for system log streaming",
            LogError::InvalidContainer => "Invalid container name",
            LogError::InvalidService => "Invalid service name",
            LogError::InvalidSiteId => "Invalid site_id",
            LogError::TicketFailed => "Internal server error",
        }
    }
}

/// The server-wide logs.
pub open spec fn is_system_log(t: Seq<char>) -> bool {
    t == "nginx_access"@ || t == "nginx_error"@ || t == "syslog"@ || t == "auth"@ || t == "php_fpm"@
}

fn system_log_ok(t: &str) -> (b: bool)
    ensures
        b == is_system_log(t@),
{
    str_eq(t, "nginx_access") || str_eq(t, "nginx_error") || str_eq(t, "syslog") || str_eq(t, "auth")
        || str_eq(t, "php_fpm")
}

/// The number of lines: 100 unless given, within 1..=1000.
pub open spec fn lines_of(v: Option<u32>) -> u32 {
    let x = match v { Some(x) => x, None => 100 };
    if x < 1 { 1 } else if x > 1000 { 1000 } else { x }
}

/// The number of search hits: 500 unless given, within 1..=5000.
pub open spec fn max_hits_of(v: Option<u32>) -> u32 {
    let x = match v { Some(x) => x, None => 500 };
    if x < 1 { 1 } else if x > 5000 { 5000 } else { x }
}

pub open spec fn type_or(t: Option<String>, d: Seq<char>) -> Seq<char> {
    match t {
        Some(x) => x@,
        None => d,
    }
}

/// The filter part of a log path, when a filter is given.
pub open spec fn filter_part(f: Option<String>) -> Seq<char> {
    match f {
        Some(x) => "&filter="@ + url_encoded(x@),
        None => Seq::empty(),
    }
}

fn type_or_default(t: &Option<String>, d: &str) -> (s: String)
    ensures
        s@ == type_or(*t, d@),
{
    match t {
        Some(x) => String::from_str(x.as_str()),
        None => String::from_str(d),
    }
}

fn append_filter(path: &mut String, f: &Option<String>)
    ensures
        final(path)@ == old(path)@ + filter_part(*f),
{
    if let Some(x) = f {
        path.append("&filter=");
        let e = url_encode(x.as_str());
        path.append(e.as_str());
    } else {
        proof {
            assert(old(path)@ + Seq::<char>::empty() =~= old(path)@);
        }
    }
}

/// The agent path of a server log: `/logs?type=T&lines=N`, with the
/// filter when one is given.
pub open spec fn system_log_path_of(q: LogQuery) -> Result<Seq<char>, LogError> {
    let t = type_or(q.log_type, "nginx_access"@);
    if !is_system_log(t) {
        Err(LogError::InvalidLogType)
    } else {
        Ok("/logs?type="@ + t + "&lines="@ + decimal_of(lines_of(q.lines) as nat) + filter_part(q.filter))
    }
}

fn clamp_u32(v: Option<u32>, d: u32, lo: u32, hi: u32) -> (r: u32)
    requires
        lo <= hi,
    ensures
        r == ({ let x = match v { Some(x) => x, None => d }; if x < lo { lo } else if x > hi { hi } else { x } }),
{
    let x = match v { Some(x) => x, None => d };
    if x < lo { lo } else if x > hi { hi } else { x }
}

pub fn system_log_path(q: &LogQuery) -> (r: Result<String, LogError>)
    ensures
        match r {
            Ok(p) => system_log_path_of(*q) == Ok::<Seq<char>, LogError>(p@),
            Err(e) => system_log_path_of(*q) == Err::<Seq<char>, LogError>(e),
        },
{
    let t = type_or_default(&q.log_type, "nginx_access");
    if !system_log_ok(t.as_str()) {
        return Err(LogError::InvalidLogType);
    }
    let lines = clamp_u32(q.lines, 100, 1, 1000);
    let n = u64_decimal(lines as u64);
    let mut p = String::from_str("/logs?type=");
    p.append(t.as_str());
    p.append("&lines=");
    p.append(n.as_str());
    append_filter(&mut p, &q.filter);
    Ok(p)
}

/// The agent path of a site's log: `/logs/DOMAIN?type=T&lines=N`, where
/// the type is `access` (default) or `error`, with the filter when given.
pub open spec fn site_log_path_of(domain: Seq<char>, q: LogQuery) -> Result<Seq<char>, LogError> {
    let t = type_or(q.log_type, "access"@);
    if !(t == "access"@ || t == "error"@) {
        Err(LogError::InvalidSiteLogType)
    } else {
        Ok("/logs/"@ + domain + "?type="@ + t + "&lines="@ + decimal_of(lines_of(q.lines) as nat) + filter_part(q.filter))
    }
}

pub fn site_log_path(domain: &str, q: &LogQuery) -> (r: Result<String, LogError>)
    ensures
        match r {
            Ok(p) => site_log_path_of(domain@, *q) == Ok::<Seq<char>, LogError>(p@),
            Err(e) => site_log_path_of(domain@, *q) == Err::<Seq<char>, LogError>(e),
        },
{
    let t = type_or_default(&q.log_type, "access");
    if !(str_eq(t.as_str(), "access") || str_eq(t.as_str(), "error")) {
        return Err(LogError::InvalidSiteLogType);
    }
    let lines = clamp_u32(q.lines, 100, 1, 1000);
    let n = u64_decimal(lines as u64);
    let mut p = String::from_str("/logs/");
    p.append(domain);
    p.append("?type=");
    p.append(t.as_str());
    p.append("&lines=");
    p.append(n.as_str());
    append_filter(&mut p, &q.filter);
    Ok(p)
}

pub open spec fn pattern_of(q: SearchQuery) -> Seq<char> {
    type_or(q.pattern, Seq::empty())
}

/// The agent path of a search in a server log:
/// `/logs/search?type=T&pattern=P&max=M`; the pattern is required.
pub open spec fn system_search_path_of(q: SearchQuery) -> Result<Seq<char>, LogError> {
    let t = type_or(q.log_type, "nginx_access"@);
    if !is_system_log(t) {
        Err(LogError::InvalidLogType)
    } else if pattern_of(q).len() == 0 {
        Err(LogError::PatternRequired)
    } else {
        Ok("/logs/search?type="@ + t + "&pattern="@ + url_encoded(pattern_of(q)) + "&max="@
            + decimal_of(max_hits_of(q.max) as nat))
    }
}

fn search_tail(p: &mut String, pattern: &str, max: Option<u32>)
    ensures
        final(p)@ == old(p)@ + "&pattern="@ + url_encoded(pattern@) + "&max="@ + decimal_of(max_hits_of(max) as nat),
{
    p.append("&pattern=");
    let e = url_encode(pattern);
    p.append(e.as_str());
    p.append("&max=");
    let m = clamp_u32(max, 500, 1, 5000);
    let n = u64_decimal(m as u64);
    p.append(n.as_str());
}

fn pattern_text(q: &SearchQuery) -> (s: String)
    ensures
        s@ == pattern_of(*q),
{
    proof {
        reveal_strlit("");
    }
    type_or_default(&q.pattern, "")
}

pub fn system_search_path(q: &SearchQuery) -> (r: Result<String, LogError>)
    ensures
        match r {
            Ok(p) => system_search_path_of(*q) == Ok::<Seq<char>, LogError>(p@),
            Err(e) => system_search_path_of(*q) == Err::<Seq<char>, LogError>(e),
        },
{
    let t = type_or_default(&q.log_type, "nginx_access");
    if !system_log_ok(t.as_str()) {
        return Err(LogError::InvalidLogType);
    }
    let pattern = pattern_text(q);
    if chars_of(pattern.as_str()).len() == 0 {
        return Err(LogError::PatternRequired);
    }
    let mut p = String::from_str("/logs/search?type=");
    p.append(t.as_str());
    search_tail(&mut p, pattern.as_str(), q.max);
    Ok(p)
}

/// The agent path of a search in a site's log: the type names the site's
/// access or error log and is itself encoded.
pub open spec fn site_search_path_of(domain: Seq<char>, q: SearchQuery) -> Result<Seq<char>, LogError> {
    let t = type_or(q.log_type, "access"@);
    let full = if t == "access"@ { "nginx_access:"@ + domain } else { "nginx_error:"@ + domain };
    if !(t == "access"@ || t == "error"@) {
        Err(LogError::InvalidSiteLogType)
    } else if pattern_of(q).len() == 0 {
        Err(LogError::PatternRequired)
    } else {
        Ok("/logs/search?type="@ + url_encoded(full) + "&pattern="@ + url_encoded(pattern_of(q)) + "&max="@
            + decimal_of(max_hits_of(q.max) as nat))
    }
}

pub fn site_search_path(domain: &str, q: &SearchQuery) -> (r: Result<String, LogError>)
    ensures
        match r {
            Ok(p) => site_search_path_of(domain@, *q) == Ok::<Seq<char>, LogError>(p@),
            Err(e) => site_search_path_of(domain@, *q) == Err::<Seq<char>, LogError>(e),
        },
{
    let t = type_or_default(&q.log_type, "access");
    let full = if str_eq(t.as_str(), "access") {
        concat2("nginx_access:", domain)
    } else if str_eq(t.as_str(), "error") {
        concat2("nginx_error:", domain)
    } else {
        return Err(LogError::InvalidSiteLogType);
    };
    let pattern = pattern_text(q);
    if chars_of(pattern.as_str()).len() == 0 {
        return Err(LogError::PatternRequired);
    }
    let mut p = String::from_str("/logs/search?type=");
    let e = url_encode(full.as_str());
    p.append(e.as_str());
    search_tail(&mut p, pattern.as_str(), q.max);
    Ok(p)
}

/// Streaming the server's logs needs an administrator; a site's logs do
/// not, but the site must be named by a UUID. The result is the stream's
/// type (`nginx_access` by default) and the site's UUID as its number.
pub open spec fn stream_access_of(q: StreamTokenQuery, role: Seq<char>) -> Result<(Seq<char>, Option<u128>), LogError> {
    match q.site_id {
        None => if role != "admin"@ {
            Err(LogError::AdminRequired)
        } else {
            Ok((type_or(q.log_type, "nginx_access"@), None))
        },
        Some(id) => match uuid_value(id@) {
            None => Err(LogError::InvalidSiteId),
            Some(u) => Ok((type_or(q.log_type, "nginx_access"@), Some(u))),
        },
    }
}

pub fn stream_access(q: &StreamTokenQuery, role: &str) -> (r: Result<(String, Option<u128>), LogError>)
    ensures
        match r {
            Ok((t, s)) => stream_access_of(*q, role@) == Ok::<(Seq<char>, Option<u128>), LogError>((t@, s)),
            Err(e) => stream_access_of(*q, role@) == Err::<(Seq<char>, Option<u128>), LogError>(e),
        },
{
    let site = match &q.site_id {
        None => {
            if !str_eq(role, "admin") {
                return Err(LogError::AdminRequired);
            }
            None
        },
        Some(id) => match parse_uuid(id.as_str()) {
            Some(u) => Some(u),
            None => return Err(LogError::InvalidSiteId),
        },
    };
    Ok((type_or_default(&q.log_type, "nginx_access"), site))
}

/// When a log-stream ticket issued at `now` runs out: a minute later, as
/// the unsigned number of seconds the claim holds.
pub open spec fn ticket_expiry(now: i64) -> u64 {
    (now + 60) as u64
}

/// The ticket for a log stream, issued at second `now`: refused as
/// `stream_access_of` refuses; otherwise a JWT for the user's address with
/// purpose `log_stream`, running out a minute after `now` and signed with
/// the agent's token, with the stream type and the site.
pub open spec fn stream_ticket_of(
    q: StreamTokenQuery,
    role: Seq<char>,
    email: Seq<char>,
    agent_token: Seq<char>,
    now: i64,
) -> Result<(Seq<char>, Seq<char>, Option<u128>), LogError> {
    match stream_access_of(q, role) {
        Err(e) => Err(e),
        Ok((t, s)) => match jwt_hs256(email, "log_stream"@, ticket_expiry(now), vstd::utf8::encode_utf8(agent_token)) {
            Some(tok) => Ok((tok, t, s)),
            None => Err(LogError::TicketFailed),
        },
    }
}

/// Issues a short-lived ticket for a WebSocket log stream at second `now`.
pub fn stream_ticket(q: &StreamTokenQuery, role: &str, email: &str, agent_token: &str, now: i64) -> (r: Result<(String, String, Option<u128>), LogError>)
    requires
        now + 60 <= i64::MAX,
    ensures
        match r {
            Ok((k, t, s)) => stream_ticket_of(*q, role@, email@, agent_token@, now)
                == Ok::<(Seq<char>, Seq<char>, Option<u128>), LogError>((k@, t@, s)),
            Err(e) => stream_ticket_of(*q, role@, email@, agent_token@, now)
                == Err::<(Seq<char>, Seq<char>, Option<u128>), LogError>(e),
        },
{
    let (t, s) = match stream_access(q, role) {
        Ok(x) => x,
        Err(e) => return Err(e),
    };
    #[verifier::truncate]
    let exp: u64 = (now + 60) as u64;
    match jwt_encode_hs256(email, "log_stream", exp, agent_token.as_bytes()) {
        Some(tok) => Ok((tok, t, s)),
        None => Err(LogError::TicketFailed),
    }
}

/// Issues a log-stream ticket now, by the system clock: whatever time the
/// clock gives, the result is the ticket of `stream_ticket_of` for it (a
/// clock within a minute of the end of 64-bit time is read as that limit).
pub fn issue_stream_ticket(q: &StreamTokenQuery, role: &str, email: &str, agent_token: &str) -> (r: Result<(String, String, Option<u128>), LogError>)
    ensures
        stream_access_of(*q, role@) matches Err(e) ==> r == Err::<(String, String, Option<u128>), LogError>(e),
        exists|now: i64| #![trigger stream_ticket_of(*q, role@, email@, agent_token@, now)]
            match r {
                Ok((k, t, s)) => stream_ticket_of(*q, role@, email@, agent_token@, now)
                    == Ok::<(Seq<char>, Seq<char>, Option<u128>), LogError>((k@, t@, s)),
                Err(e) => stream_ticket_of(*q, role@, email@, agent_token@, now)
                    == Err::<(Seq<char>, Seq<char>, Option<u128>), LogError>(e),
            },
{
    let clock = unix_now();
    let now: i64 = if clock > i64::MAX - 60 { i64::MAX - 60 } else { clock };
    let r = stream_ticket(q, role, email, agent_token, now);
    assert(match r {
        Ok((k, t, s)) => stream_ticket_of(*q, role@, email@, agent_token@, now)
            == Ok::<(Seq<char>, Seq<char>, Option<u128>), LogError>((k@, t@, s)),
        Err(e) => stream_ticket_of(*q, role@, email@, agent_token@, now)
            == Err::<(Seq<char>, Seq<char>, Option<u128>), LogError>(e),
    });
    r
}

/// A container or service name: non-empty, ASCII letters, digits, `-`,
/// `_` and `.`.
pub open spec fn is_unit_name(n: Seq<char>) -> bool {
    n.len() > 0 && forall|i: int| 0 <= i < n.len()
        ==> (is_ascii_alnum(#[trigger] n[i]) || n[i] == '-' || n[i] == '_' || n[i] == '.')
}

fn unit_name_ok(n: &str) -> (b: bool)
    ensures
        b == is_unit_name(n@),
{
    let cs = chars_of(n);
    if cs.len() == 0 {
        return false;
    }
    let mut i: usize = 0;
    while i < cs.len()
        invariant
            cs@ == n@,
            i <= cs@.len(),
            forall|j: int| 0 <= j < i ==> (is_ascii_alnum(#[trigger] cs@[j]) || cs@[j] == '-' || cs@[j] == '_' || cs@[j] == '.'),
        decreases cs@.len() - i,
    {
        let c = cs[i];
        if !(crate::text::ascii_alnum(c) || c == '-' || c == '_' || c == '.') {
            return false;
        }
        i = i + 1;
    }
    true
}

/// The agent path of a container's log; the lines default to `200`.
pub fn docker_log_path(container: &str, lines: Option<&str>) -> (r: Result<String, LogError>)
    ensures
        !is_unit_name(container@) ==> r == Err::<String, LogError>(LogError::InvalidContainer),
        is_unit_name(container@) ==> (r matches Ok(p) && p@ == "/logs/docker/"@ + container@ + "?lines="@
            + match lines { Some(l) => l@, None => "200"@ }),
{
    if !unit_name_ok(container) {
        return Err(LogError::InvalidContainer);
    }
    let mut p = String::from_str("/logs/docker/");
    p.append(container);
    p.append("?lines=");
    match lines {
        Some(l) => p.append(l),
        None => p.append("200"),
    }
    Ok(p)
}

/// The agent path of a system service's log; the lines default to `100`.
pub fn service_log_path(service: &str, lines: Option<&str>) -> (r: Result<String, LogError>)
    ensures
        !is_unit_name(service@) ==> r == Err::<String, LogError>(LogError::InvalidService),
        is_unit_name(service@) ==> (r matches Ok(p) && p@ == "/logs/service/"@ + service@ + "?lines="@
            + match lines { Some(l) => l@, None => "100"@ }),
{
    if !unit_name_ok(service) {
        return Err(LogError::InvalidService);
    }
    let mut p = String::from_str("/logs/service/");
    p.append(service);
    p.append("?lines=");
    match lines {
        Some(l) => p.append(l),
        None => p.append("100"),
    }
    Ok(p)
}

/// The agent path of the log statistics, for one domain when given.
pub fn log_stats_path(domain: Option<&str>) -> (p: String)
    ensures
        p@ == "/logs/stats"@ + match domain { Some(d) => "?domain="@ + d@, None => Seq::empty() },
{
    match domain {
        Some(d) => crate::text::concat3("/logs/stats", "?domain=", d),
        None => {
            let p = String::from_str("/logs/stats");
            assert(p@ =~= "/logs/stats"@ + Seq::<char>::empty());
            p
        },
    }
}

/// A site search reads the site's access log unless its error log is
/// asked for: with no type, or the type `access`, the searched log is
/// `nginx_access:` and the domain; with the type `error` it is
/// `nginx_error:` and the domain. The log's name travels URL-encoded,
/// followed by the pattern and the cap on hits.
pub proof fn law_site_search_targets_the_asked_log(domain: Seq<char>, q: SearchQuery)
    requires
        pattern_of(q).len() > 0,
    ensures
        (q.log_type is None || q.log_type->0@ == "access"@) ==> site_search_path_of(domain, q)
            == Ok::<Seq<char>, LogError>("/logs/search?type="@ + url_encoded("nginx_access:"@ + domain)
                + "&pattern="@ + url_encoded(pattern_of(q)) + "&max="@ + decimal_of(max_hits_of(q.max) as nat)),
        (q.log_type is Some && q.log_type->0@ == "error"@) ==> site_search_path_of(domain, q)
            == Ok::<Seq<char>, LogError>("/logs/search?type="@ + url_encoded("nginx_error:"@ + domain)
                + "&pattern="@ + url_encoded(pattern_of(q)) + "&max="@ + decimal_of(max_hits_of(q.max) as nat)),
{
    reveal_strlit("access");
    reveal_strlit("error");
    assert("access"@[0] != "error"@[0]);
}

} // verus!

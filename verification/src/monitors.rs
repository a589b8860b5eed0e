//! Uptime monitors: what a monitor may check, how often, where its alerts
//! go, and how the public page and the certificate list read the results.

use vstd::prelude::*;

use crate::text::utf8_len;

use crate::text::{chars_of, has_prefix, starts_with, str_eq, trim_str, trimmed};

verus! {

/// Paging of a list.
pub struct PaginationQuery {
    pub limit: Option<i64>,
    pub offset: Option<i64>,
}

/// A request to create a monitor.
pub struct CreateMonitor {
    pub url: String,
    pub name: String,
    pub site_id: Option<uuid::Uuid>,
    pub check_interval: Option<i32>,
    pub alert_email: Option<bool>,
    pub alert_slack_url: Option<String>,
    pub alert_discord_url: Option<String>,
    pub monitor_type: Option<String>,
    pub port: Option<i32>,
    pub keyword: Option<String>,
    pub keyword_must_contain: Option<bool>,
    pub custom_headers: Option<serde_json::Value>,
}

/// A change to a monitor.
pub struct UpdateMonitor {
    pub name: Option<String>,
    pub url: Option<String>,
    pub check_interval: Option<i32>,
    pub enabled: Option<bool>,
    pub alert_email: Option<bool>,
    pub alert_slack_url: Option<String>,
    pub alert_discord_url: Option<String>,
    pub monitor_type: Option<String>,
    pub port: Option<i32>,
    pub keyword: Option<String>,
    pub keyword_must_contain: Option<bool>,
    pub custom_headers: Option<serde_json::Value>,
}

/// The kinds of checks a monitor runs.
pub open spec fn is_monitor_type(t: Seq<char>) -> bool {
    t == "http"@ || t == "tcp"@ || t == "ping"@ || t == "heartbeat"@
}

/// Why a monitor request is refused.
#[derive(Debug, Clone, Copy, PartialEq, Eq, Structural)]
pub enum MonitorError {
    InvalidType,
    InvalidUrl,
    MissingHost,
    InvalidName,
    MonitorLimit,
    MissingWindow,
}

impl MonitorError {
    pub fn message(&self) -> (m: &'static str)
        ensures
            m@ == match self {
                MonitorError::InvalidType => "monitor_type must be 'http', 'tcp', 'ping', or 'heartbeat'"@,
                MonitorError::InvalidUrl => "URL must start with http:// or https://"@,
                MonitorError::MissingHost => "Host/URL is required"@,
                MonitorError::InvalidName => "Name must be 1-100 characters"@,
                MonitorError::MonitorLimit => "Monitor limit reached (50)"@,
                MonitorError::MissingWindow => "starts_at and ends_at required"@,
            },
    {
        match self {
            MonitorError::InvalidType => "monitor_type must be 'http', 'tcp', 'ping', or 'heartbeat'",
            MonitorError::InvalidUrl => "URL must start with http:// or https://",
            MonitorError::MissingHost => "Host/URL is required",
            MonitorError::InvalidName => "Name must be 1-100 characters",
            MonitorError::MonitorLimit => "Monitor limit reached (50)",
            MonitorError::MissingWindow => "starts_at and ends_at required",
        }
    }
}

/// What a monitor checks: its type (default `http`) and its target,
/// trimmed; an HTTP monitor needs an http(s) URL, the others a non-empty
/// host.
pub open spec fn monitor_target_of(req_type: Option<Seq<char>>, url: Seq<char>) -> Result<(Seq<char>, Seq<char>), MonitorError> {
    let t = match req_type { Some(x) => x, None => "http"@ };
    let u = trimmed(url);
    if !is_monitor_type(t) {
        Err(MonitorError::InvalidType)
    } else if t == "http"@ {
        if u.len() == 0 || (!has_prefix(u, "http://"@) && !has_prefix(u, "https://"@)) {
            Err(MonitorError::InvalidUrl)
        } else {
            Ok((t, u))
        }
    } else if u.len() == 0 {
        Err(MonitorError::MissingHost)
    } else {
        Ok((t, u))
    }
}

/// The first checks on a new monitor, before its URL is checked for
/// internal addresses (which HTTP monitors need next).
pub fn check_monitor_target(req: &CreateMonitor) -> (r: Result<(String, String), MonitorError>)
    ensures
        match r {
            Ok((t, u)) => monitor_target_of(req.monitor_type.deep_view(), req.url@) == Ok::<(Seq<char>, Seq<char>), MonitorError>((t@, u@)),
            Err(e) => monitor_target_of(req.monitor_type.deep_view(), req.url@) == Err::<(Seq<char>, Seq<char>), MonitorError>(e),
        },
{
    let t = match &req.monitor_type {
        Some(x) => String::from_str(x.as_str()),
        None => String::from_str("http"),
    };
    if !(str_eq(t.as_str(), "http") || str_eq(t.as_str(), "tcp") || str_eq(t.as_str(), "ping")
        || str_eq(t.as_str(), "heartbeat")) {
        return Err(MonitorError::InvalidType);
    }
    let u = trim_str(req.url.as_str());
    let uc = chars_of(u.as_str());
    if str_eq(t.as_str(), "http") {
        if uc.len() == 0 || (!starts_with(uc.as_slice(), "http://") && !starts_with(uc.as_slice(), "https://")) {
            return Err(MonitorError::InvalidUrl);
        }
    } else if uc.len() == 0 {
        return Err(MonitorError::MissingHost);
    }
    Ok((t, u))
}

/// The check interval: 60 seconds unless given, kept within 30..=3600.
pub open spec fn interval_of(v: Option<i32>) -> i32 {
    let x = match v { Some(x) => x, None => 60 };
    if x < 30 { 30 } else if x > 3600 { 3600 } else { x }
}

pub fn check_interval(v: Option<i32>) -> (r: i32)
    ensures
        r == interval_of(v),
        30 <= r <= 3600,
{
    let x = match v { Some(x) => x, None => 60 };
    if x < 30 { 30 } else if x > 3600 { 3600 } else { x }
}

pub open spec fn unset(v: Option<String>) -> bool {
    match v {
        Some(s) => s@.len() == 0,
        None => true,
    }
}

fn is_unset(v: &Option<String>) -> (b: bool)
    ensures
        b == unset(*v),
{
    match v {
        Some(s) => chars_of(s.as_str()).len() == 0,
        None => true,
    }
}

/// Whether the owner's global alert targets are needed: when the Slack or
/// the Discord target is missing or empty.
pub fn needs_global_alerts(req: &CreateMonitor) -> (b: bool)
    ensures
        b == (unset(req.alert_slack_url) || unset(req.alert_discord_url)),
{
    is_unset(&req.alert_slack_url) || is_unset(&req.alert_discord_url)
}

fn copy_opt(v: &Option<String>) -> (r: Option<String>)
    ensures
        r.deep_view() == v.deep_view(),
{
    match v {
        Some(s) => Some(String::from_str(s.as_str())),
        None => None,
    }
}

/// A missing or empty alert target is taken from the owner's global
/// alert rule, when there is one.
pub open spec fn inherited(own: Option<String>, global: Option<Option<String>>) -> Option<Seq<char>> {
    match global {
        Some(g) => if unset(own) { g.deep_view() } else { own.deep_view() },
        None => own.deep_view(),
    }
}

/// The second checks on a new monitor: a name of 1 to 100 bytes after
/// trimming and at most 50 monitors per owner. The result is the trimmed
/// name, the interval and the alert targets (Slack, Discord), those not
/// given taken from the global rule (`global`, when it exists).
pub fn check_monitor_rest(
    req: &CreateMonitor,
    global: &Option<(Option<String>, Option<String>)>,
    count: i64,
) -> (r: Result<(String, i32, Option<String>, Option<String>), MonitorError>)
    ensures
        (trimmed(req.name@).len() == 0 || utf8_len(trimmed(req.name@)) > 100)
            ==> r == Err::<(String, i32, Option<String>, Option<String>), MonitorError>(MonitorError::InvalidName),
        !(trimmed(req.name@).len() == 0 || utf8_len(trimmed(req.name@)) > 100) && count >= 50
            ==> r == Err::<(String, i32, Option<String>, Option<String>), MonitorError>(MonitorError::MonitorLimit),
        !(trimmed(req.name@).len() == 0 || utf8_len(trimmed(req.name@)) > 100) && count < 50
            ==> (r matches Ok((n, i, s, d)) && n@ == trimmed(req.name@) && i == interval_of(req.check_interval)
                && s.deep_view() == inherited(req.alert_slack_url, match global { Some(g) => Some(g.0), None => None })
                && d.deep_view() == inherited(req.alert_discord_url, match global { Some(g) => Some(g.1), None => None })),
{
    let name = trim_str(req.name.as_str());
    if chars_of(name.as_str()).len() == 0 || name.as_str().as_bytes().len() > 100 {
        return Err(MonitorError::InvalidName);
    }
    let interval = check_interval(req.check_interval);
    let (slack, discord) = match global {
        Some((gs, gd)) => {
            let s = if is_unset(&req.alert_slack_url) { copy_opt(gs) } else { copy_opt(&req.alert_slack_url) };
            let d = if is_unset(&req.alert_discord_url) { copy_opt(gd) } else { copy_opt(&req.alert_discord_url) };
            (s, d)
        },
        None => (copy_opt(&req.alert_slack_url), copy_opt(&req.alert_discord_url)),
    };
    if count >= 50 {
        return Err(MonitorError::MonitorLimit);
    }
    Ok((name, interval, slack, discord))
}

/// The URL of a change that must be checked for internal addresses: the
/// trimmed new URL, when it is an http(s) one.
pub fn update_url_to_check(req: &UpdateMonitor) -> (r: Option<String>)
    ensures
        match req.url {
            Some(u) => if has_prefix(trimmed(u@), "http://"@) || has_prefix(trimmed(u@), "https://"@) {
                r matches Some(x) && x@ == trimmed(u@)
            } else {
                r is None
            },
            None => r is None,
        },
{
    match &req.url {
        Some(u) => {
            let t = trim_str(u.as_str());
            let tc = chars_of(t.as_str());
            if starts_with(tc.as_slice(), "http://") || starts_with(tc.as_slice(), "https://") {
                Some(t)
            } else {
                None
            }
        },
        None => None,
    }
}

/// A new interval given in a change is kept within 30..=3600.
pub fn update_interval(req: &UpdateMonitor) -> (r: Option<i32>)
    ensures
        match req.check_interval {
            Some(x) => r == Some(if x < 30 { 30i32 } else if x > 3600 { 3600i32 } else { x }),
            None => r is None,
        },
{
    match req.check_interval {
        Some(x) => Some(if x < 30 { 30 } else if x > 3600 { 3600 } else { x }),
        None => None,
    }
}

// ─── Reading the results ───────────────────────────────────────

/// The public monitor page is shown only when its setting is `true`.
pub fn status_page_enabled(setting: &Option<String>) -> (b: bool)
    ensures
        b == (setting.deep_view() == Some("true"@)),
{
    match setting {
        Some(v) => str_eq(v.as_str(), "true"),
        None => false,
    }
}

/// The public monitor page is `operational` when every monitor is up.
pub fn monitors_summary(statuses: &Vec<String>) -> (s: &'static str)
    ensures
        (forall|i: int| 0 <= i < statuses@.len() ==> #[trigger] statuses@[i]@ == "up"@) ==> s@ == "operational"@,
        !(forall|i: int| 0 <= i < statuses@.len() ==> #[trigger] statuses@[i]@ == "up"@) ==> s@ == "degraded"@,
{
    let mut i: usize = 0;
    while i < statuses.len()
        invariant
            i <= statuses@.len(),
            forall|j: int| 0 <= j < i ==> #[trigger] statuses@[j]@ == "up"@,
        decreases statuses@.len() - i,
    {
        if !str_eq(statuses[i].as_str(), "up") {
            return "degraded";
        }
        i = i + 1;
    }
    "operational"
}

/// The standing of a certificate by days left (999 when its expiry is
/// unknown): `expired`, `critical` within a week, `warning` within a
/// month, `ok` else.
pub open spec fn cert_status_of(days_left: i64) -> Seq<char> {
    if days_left < 0 { "expired"@ } else if days_left <= 7 { "critical"@ } else if days_left <= 30 { "warning"@ } else { "ok"@ }
}

pub fn certificate_status(days_left: Option<i64>) -> (r: (i64, &'static str))
    ensures
        r.0 == match days_left { Some(d) => d, None => 999 },
        r.1@ == cert_status_of(r.0),
{
    let d = match days_left { Some(d) => d, None => 999 };
    let s = if d < 0 { "expired" } else if d <= 7 { "critical" } else if d <= 30 { "warning" } else { "ok" };
    (d, s)
}

/// A given, non-empty text, or the empty text.
pub open spec fn text_or_empty(v: Option<&str>) -> Seq<char> {
    match v {
        Some(x) => x@,
        None => Seq::empty(),
    }
}

/// A maintenance window needs a start and an end; its name defaults to
/// `Maintenance`.
pub fn maintenance_request(name: Option<&str>, starts_at: Option<&str>, ends_at: Option<&str>) -> (r: Result<(String, String, String), MonitorError>)
    ensures
        (text_or_empty(starts_at).len() == 0 || text_or_empty(ends_at).len() == 0)
            ==> r == Err::<(String, String, String), MonitorError>(MonitorError::MissingWindow),
        text_or_empty(starts_at).len() > 0 && text_or_empty(ends_at).len() > 0 ==> (r matches Ok((n, s, e))
            && n@ == match name { Some(x) => x@, None => "Maintenance"@ }
            && s@ == text_or_empty(starts_at) && e@ == text_or_empty(ends_at)),
{
    let s = match starts_at { Some(x) => x, None => "" };
    let e = match ends_at { Some(x) => x, None => "" };
    proof {
        reveal_strlit("");
    }
    if chars_of(s).len() == 0 || chars_of(e).len() == 0 {
        return Err(MonitorError::MissingWindow);
    }
    let n = match name { Some(x) => String::from_str(x), None => String::from_str("Maintenance") };
    Ok((n, String::from_str(s), String::from_str(e)))
}

/// A maintenance window is active from its start to its end, both
/// included (times as Unix seconds).
pub fn window_active(now: i64, start: i64, end: i64) -> (b: bool)
    ensures
        b == (start <= now && now <= end),
{
    now >= start && now <= end
}

/// A heartbeat is accepted only with the monitor's own token.
pub fn heartbeat_token_ok(stored: &Option<String>, token: &str) -> (b: bool)
    ensures
        b == (stored.deep_view() == Some(token@)),
{
    match stored {
        Some(t) => str_eq(t.as_str(), token),
        None => false,
    }
}

} // verus!

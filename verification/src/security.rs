//! Server security: firewall rules, jails, the audit log query, security
//! scans and the score and report built from them.

use vstd::prelude::*;

use crate::text::parse_i64;
use crate::text::{
    chars_of, concat2, contains_str, decimal_of, has_infix, i64_decimal, is_ascii_alnum,
    parsed_i64, signed_decimal_of, str_eq,
};

verus! {

/// A firewall rule to add.
pub struct FirewallRuleRequest {
    pub port: u16,
    pub proto: Option<String>,
    pub action: Option<String>,
    pub from: Option<String>,
}

/// Why a security request is refused.
#[derive(Debug, Clone, Copy, PartialEq, Eq, Structural)]
pub enum SecurityError {
    InvalidPort,
    InvalidProtocol,
    InvalidAction,
    InvalidJail,
}

impl SecurityError {
    pub fn message(&self) -> (m: &'static str)
        ensures
            m@ == match self {
                SecurityError::InvalidPort => "Port must be between 1 and 65535"@,
                SecurityError::InvalidProtocol => "Protocol must be tcp, udp, or tcp/udp"@,
                SecurityError::InvalidAction => "Action must be allow, deny, or reject"@,
                SecurityError::InvalidJail => "Invalid jail name"@,
            },
    {
        match self {
            SecurityError::InvalidPort => "Port must be between 1 and 65535",
            SecurityError::InvalidProtocol => "Protocol must be tcp, udp, or tcp/udp",
            SecurityError::InvalidAction => "Action must be allow, deny, or reject",
            SecurityError::InvalidJail => "Invalid jail name",
        }
    }
}

/// The checks on a firewall rule, in order: a port other than 0, a
/// protocol (default `tcp`) of `tcp`, `udp`, `tcp/udp`, an action
/// (default `allow`) of `allow`, `deny`, `reject`.
pub open spec fn firewall_rule_check(req: FirewallRuleRequest) -> Result<(u16, Seq<char>, Seq<char>), SecurityError> {
    let proto = match req.proto { Some(p) => p@, None => "tcp"@ };
    let action = match req.action { Some(a) => a@, None => "allow"@ };
    if req.port == 0 {
        Err(SecurityError::InvalidPort)
    } else if !(proto == "tcp"@ || proto == "udp"@ || proto == "tcp/udp"@) {
        Err(SecurityError::InvalidProtocol)
    } else if !(action == "allow"@ || action == "deny"@ || action == "reject"@) {
        Err(SecurityError::InvalidAction)
    } else {
        Ok((req.port, proto, action))
    }
}

pub fn check_firewall_rule(req: &FirewallRuleRequest) -> (r: Result<(u16, String, String), SecurityError>)
    ensures
        match r {
            Ok((p, pr, a)) => firewall_rule_check(*req) == Ok::<(u16, Seq<char>, Seq<char>), SecurityError>((p, pr@, a@)),
            Err(e) => firewall_rule_check(*req) == Err::<(u16, Seq<char>, Seq<char>), SecurityError>(e),
        },
{
    if req.port == 0 {
        return Err(SecurityError::InvalidPort);
    }
    let proto = match &req.proto {
        Some(p) => String::from_str(p.as_str()),
        None => String::from_str("tcp"),
    };
    if !(str_eq(proto.as_str(), "tcp") || str_eq(proto.as_str(), "udp") || str_eq(proto.as_str(), "tcp/udp")) {
        return Err(SecurityError::InvalidProtocol);
    }
    let action = match &req.action {
        Some(a) => String::from_str(a.as_str()),
        None => String::from_str("allow"),
    };
    if !(str_eq(action.as_str(), "allow") || str_eq(action.as_str(), "deny") || str_eq(action.as_str(), "reject")) {
        return Err(SecurityError::InvalidAction);
    }
    Ok((req.port, proto, action))
}

/// The name a rule is logged under: `port/protocol`.
pub fn firewall_rule_name(port: u16, proto: &str) -> (s: String)
    ensures
        s@ == decimal_of(port as nat) + "/"@ + proto@,
{
    let p = crate::text::u64_decimal(port as u64);
    crate::text::concat3(p.as_str(), "/", proto)
}

/// A jail name: non-empty, ASCII letters, digits, `-` and `_`.
pub open spec fn is_jail_name(j: Seq<char>) -> bool {
    j.len() > 0 && forall|i: int| 0 <= i < j.len() ==> (is_ascii_alnum(#[trigger] j[i]) || j[i] == '-' || j[i] == '_')
}

pub fn check_jail_name(jail: &str) -> (r: Result<(), SecurityError>)
    ensures
        r is Ok <==> is_jail_name(jail@),
        r is Err ==> r == Err::<(), SecurityError>(SecurityError::InvalidJail),
{
    let cs = chars_of(jail);
    if cs.len() == 0 {
        return Err(SecurityError::InvalidJail);
    }
    let mut i: usize = 0;
    while i < cs.len()
        invariant
            cs@ == jail@,
            i <= cs@.len(),
            forall|j: int| 0 <= j < i ==> (is_ascii_alnum(#[trigger] cs@[j]) || cs@[j] == '-' || cs@[j] == '_'),
        decreases cs@.len() - i,
    {
        let c = cs[i];
        if !(crate::text::ascii_alnum(c) || c == '-' || c == '_') {
            return Err(SecurityError::InvalidJail);
        }
        i = i + 1;
    }
    Ok(())
}

/// A panel login entry succeeded unless its action says it failed.
pub fn login_succeeded(action: &str) -> (b: bool)
    ensures
        b == !has_infix(action@, "failed"@),
{
    let cs = chars_of(action);
    !contains_str(cs.as_slice(), "failed")
}

/// The lockdown reason when the administrator gives none.
pub fn lockdown_reason(reason: Option<&str>) -> (s: String)
    ensures
        s@ == match reason { Some(r) => r@, None => "Manual admin lockdown"@ },
{
    match reason {
        Some(r) => String::from_str(r),
        None => String::from_str("Manual admin lockdown"),
    }
}

/// The paging of the audit log: the limit is the given number (100 when
/// absent or not a number), at most 500; the offset the given number (0
/// likewise).
pub open spec fn audit_paging_of(limit: Option<Seq<char>>, offset: Option<Seq<char>>) -> (i64, i64) {
    let l = match limit {
        Some(t) => match parsed_i64(t) { Some(v) => v, None => 100 },
        None => 100,
    };
    let o = match offset {
        Some(t) => match parsed_i64(t) { Some(v) => v, None => 0 },
        None => 0,
    };
    (if l > 500 { 500 } else { l }, o)
}

pub fn audit_paging(limit: Option<&str>, offset: Option<&str>) -> (r: (i64, i64))
    ensures
        r == audit_paging_of(limit.deep_view(), offset.deep_view()),
{
    let l: i64 = match limit {
        Some(t) => match parse_i64(t) { Some(v) => v, None => 100 },
        None => 100,
    };
    let o: i64 = match offset {
        Some(t) => match parse_i64(t) { Some(v) => v, None => 0 },
        None => 0,
    };
    (if l > 500 { 500 } else { l }, o)
}

// ─── Scans ─────────────────────────────────────────────────────

/// The findings of a scan counted by severity.
pub struct ScanTally {
    pub critical: i32,
    pub warning: i32,
    pub info: i32,
}

pub open spec fn count_of(sev: Seq<Seq<char>>, s: Seq<char>) -> nat {
    sev.filter(|x: Seq<char>| x == s).len()
}

pub open spec fn count_other(sev: Seq<Seq<char>>) -> nat {
    sev.filter(|x: Seq<char>| x != "critical"@ && x != "warning"@).len()
}

/// Counts findings by severity: `critical`, `warning`, and anything else
/// as information. A finding without a severity counts as information.
pub fn tally_findings(severities: &Vec<Option<String>>) -> (t: ScanTally)
    requires
        severities@.len() <= i32::MAX,
    ensures
        t.critical == count_of(severities@.map_values(|s: Option<String>| sev_of(s)), "critical"@),
        t.warning == count_of(severities@.map_values(|s: Option<String>| sev_of(s)), "warning"@),
        t.info == count_other(severities@.map_values(|s: Option<String>| sev_of(s))),
        t.critical + t.warning + t.info == severities@.len(),
{
    let ghost sev = severities@.map_values(|s: Option<String>| sev_of(s));
    let mut t = ScanTally { critical: 0, warning: 0, info: 0 };
    let mut i: usize = 0;
    while i < severities.len()
        invariant
            severities@.len() <= i32::MAX,
            i <= severities@.len(),
            sev == severities@.map_values(|s: Option<String>| sev_of(s)),
            t.critical == count_of(sev.take(i as int), "critical"@),
            t.warning == count_of(sev.take(i as int), "warning"@),
            t.info == count_other(sev.take(i as int)),
            t.critical + t.warning + t.info == i,
        decreases severities@.len() - i,
    {
        assert(sev.take(i + 1).drop_last() =~= sev.take(i as int));
        reveal(Seq::filter);
        let s = match &severities[i] {
            Some(x) => x.as_str(),
            None => "info",
        };
        proof {
            reveal_strlit("info");
            reveal_strlit("critical");
            reveal_strlit("warning");
            assert("info"@.len() == 4 && "critical"@.len() == 8 && "warning"@.len() == 7);
        }
        assert(sev[i as int] == s@);
        if str_eq(s, "critical") {
            t.critical = t.critical + 1;
        } else if str_eq(s, "warning") {
            t.warning = t.warning + 1;
        } else {
            t.info = t.info + 1;
        }
        i = i + 1;
    }
    assert(sev.take(severities@.len() as int) =~= sev);
    t
}

/// The severity a finding is counted under.
pub open spec fn sev_of(s: Option<String>) -> Seq<char> {
    match s {
        Some(x) => x@,
        None => "info"@,
    }
}

/// A changed file found when comparing against the stored baseline: its
/// title and description.
pub fn integrity_finding(path: &str, old_hash: &str, new_hash: &str) -> (r: Option<(String, String)>)
    ensures
        old_hash@ == new_hash@ ==> r is None,
        old_hash@ != new_hash@ ==> (r matches Some((t, d))
            && t@ == "File modified: "@ + path@
            && d@ == "Hash changed from "@ + old_hash@ + " to "@ + new_hash@),
{
    if str_eq(old_hash, new_hash) {
        return None;
    }
    let t = concat2("File modified: ", path);
    let mut d = String::from_str("Hash changed from ");
    d.append(old_hash);
    d.append(" to ");
    d.append(new_hash);
    Some((t, d))
}

/// The alert a finished scan raises: none without critical or warning
/// findings; otherwise with severity `critical` when there are critical
/// findings, `warning` else, and a title and a message giving the counts.
pub fn scan_alert(critical: i32, warning: i32, total: i32) -> (r: Option<(&'static str, String, String)>)
    requires
        critical >= 0,
        warning >= 0,
    ensures
        critical == 0 && warning == 0 ==> r is None,
        critical > 0 || warning > 0 ==> (r matches Some((sev, title, msg))
            && sev@ == (if critical > 0 { "critical"@ } else { "warning"@ })
            && title@ == "Security scan: "@ + decimal_of(critical as nat) + " critical, "@
                + decimal_of(warning as nat) + " warning findings"@
            && msg@ == "A security scan completed with "@ + signed_decimal_of(total as int) + " total findings ("@
                + decimal_of(critical as nat) + " critical, "@ + decimal_of(warning as nat)
                + " warning). Review the scan results in the Security section."@),
{
    if critical == 0 && warning == 0 {
        return None;
    }
    let sev = if critical > 0 { "critical" } else { "warning" };
    let c = crate::text::u64_decimal(critical as u64);
    let w = crate::text::u64_decimal(warning as u64);
    let n = i64_decimal(total as i64);
    let mut title = String::from_str("Security scan: ");
    title.append(c.as_str());
    title.append(" critical, ");
    title.append(w.as_str());
    title.append(" warning findings");
    let mut msg = String::from_str("A security scan completed with ");
    msg.append(n.as_str());
    msg.append(" total findings (");
    msg.append(c.as_str());
    msg.append(" critical, ");
    msg.append(w.as_str());
    msg.append(" warning). Review the scan results in the Security section.");
    Some((sev, title, msg))
}

/// The activity detail of a scan: `N findings, C critical`.
pub fn scan_detail(total: i32, critical: i32) -> (s: String)
    ensures
        s@ == signed_decimal_of(total as int) + " findings, "@ + signed_decimal_of(critical as int) + " critical"@,
{
    let t = i64_decimal(total as i64);
    let c = i64_decimal(critical as i64);
    let mut s = String::from_str(t.as_str());
    s.append(" findings, ");
    s.append(c.as_str());
    s.append(" critical");
    s
}

/// The counts a finished scan is stored with.
pub struct ScanCounts {
    pub critical: i32,
    pub warning: i32,
    pub info: i32,
    pub total: i32,
}

/// A file reported by the agent, as (path, the baseline hash stored for that
/// path when the file is reached, if any, the hash the agent reports).
pub open spec fn file_changed(f: (Seq<char>, Option<Seq<char>>, Seq<char>)) -> bool {
    f.1 is Some && f.1->0 != f.2
}

/// How many reported files changed from their stored baseline.
pub open spec fn changed_count(files: Seq<(Seq<char>, Option<Seq<char>>, Seq<char>)>) -> nat
    decreases files.len(),
{
    if files.len() == 0 {
        0
    } else {
        changed_count(files.drop_last()) + if file_changed(files.last()) { 1nat } else { 0nat }
    }
}

/// The counts of a scan: the agent's findings by severity, plus one
/// warning for every file whose hash differs from its stored baseline (a
/// file without a baseline adds nothing), and their total.
pub fn scan_counts(
    severities: &Vec<Option<String>>,
    files: &Vec<(String, Option<String>, String)>,
) -> (c: ScanCounts)
    requires
        severities@.len() + files@.len() <= i32::MAX,
    ensures
        c.critical == count_of(severities@.map_values(|s: Option<String>| sev_of(s)), "critical"@),
        c.warning == count_of(severities@.map_values(|s: Option<String>| sev_of(s)), "warning"@)
            + changed_count(files.deep_view()),
        c.info == count_other(severities@.map_values(|s: Option<String>| sev_of(s))),
        c.total == c.critical + c.warning + c.info,
{
    let t = tally_findings(severities);
    let ghost m = files.deep_view();
    let mut changed: i32 = 0;
    let mut i: usize = 0;
    while i < files.len()
        invariant
            severities@.len() + files@.len() <= i32::MAX,
            i <= files@.len(),
            m == files.deep_view(),
            m.len() == files@.len(),
            changed == changed_count(m.take(i as int)),
            changed <= i,
        decreases files@.len() - i,
    {
        assert(m.take(i + 1).drop_last() =~= m.take(i as int));
        assert(m[i as int] == files@[i as int].deep_view());
        let f = &files[i];
        match &f.1 {
            Some(old) => {
                if !str_eq(old.as_str(), f.2.as_str()) {
                    changed = changed + 1;
                }
            },
            None => {},
        }
        i = i + 1;
    }
    assert(m.take(i as int) =~= m);
    let warning = t.warning + changed;
    ScanCounts { critical: t.critical, warning, info: t.info, total: t.critical + warning + t.info }
}

/// Whether the score arithmetic stays within 32-bit numbers, as the
/// stored counts are.
pub open spec fn score_fits(critical: i32, warning: i32) -> bool {
    &&& i32::MIN <= critical * 20 <= i32::MAX
    &&& i32::MIN <= 100 - critical * 20 <= i32::MAX
    &&& i32::MIN <= warning * 5 <= i32::MAX
    &&& i32::MIN <= 100 - critical * 20 - warning * 5 <= i32::MAX
}

/// The security score: 100, less 20 per critical and 5 per warning
/// finding of the latest scan, at least 0; -1 when there is no scan.
pub open spec fn posture_score_of(latest: Option<(i32, i32)>) -> int {
    match latest {
        Some((c, w)) => {
            let s = 100 - c * 20 - w * 5;
            if s < 0 { 0 } else { s }
        },
        None => -1,
    }
}

pub fn posture_score(latest: Option<(i32, i32)>) -> (s: i32)
    requires
        latest matches Some((c, w)) ==> score_fits(c, w),
    ensures
        s == posture_score_of(latest),
        latest matches Some((c, w)) && c >= 0 && w >= 0 ==> 0 <= s <= 100,
{
    match latest {
        Some((c, w)) => {
            let s = 100 - c * 20 - w * 5;
            if s < 0 { 0 } else { s }
        },
        None => -1,
    }
}

/// The colour a finding's severity is shown in.
pub fn severity_color(severity: &str) -> (c: &'static str)
    ensures
        severity@ == "critical"@ ==> c@ == "#ef4444"@,
        severity@ == "warning"@ ==> c@ == "#f59e0b"@,
        severity@ != "critical"@ && severity@ != "warning"@ ==> c@ == "#3b82f6"@,
{
    proof {
        reveal_strlit("critical");
        reveal_strlit("warning");
        assert("critical"@.len() == 8 && "warning"@.len() == 7);
    }
    if str_eq(severity, "critical") {
        "#ef4444"
    } else if str_eq(severity, "warning") {
        "#f59e0b"
    } else {
        "#3b82f6"
    }
}

/// The colour the score is shown in: green from 80, amber from 50, red
/// below.
pub fn score_color(score: i32) -> (c: &'static str)
    ensures
        score >= 80 ==> c@ == "#22c55e"@,
        50 <= score < 80 ==> c@ == "#f59e0b"@,
        score < 50 ==> c@ == "#ef4444"@,
{
    if score >= 80 {
        "#22c55e"
    } else if score >= 50 {
        "#f59e0b"
    } else {
        "#ef4444"
    }
}

/// A report card: its CSS class (`pass` when the setting is the safe
/// one) and its label.
pub fn report_card(safe: bool, safe_label: &'static str, unsafe_label: &'static str) -> (r: (&'static str, &'static str))
    ensures
        r.0@ == (if safe { "pass"@ } else { "fail"@ }),
        r.1@ == (if safe { safe_label@ } else { unsafe_label@ }),
{
    if safe { ("pass", safe_label) } else { ("fail", unsafe_label) }
}

} // verus!

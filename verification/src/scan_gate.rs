//! Per-image vulnerability scans: the severity gate that may block a
//! deploy, the scan settings and their validation.

use vstd::prelude::*;

use crate::text::parse_i32;
use crate::text::parsed_i32;
use crate::text::{i64_decimal, signed_decimal_of, str_eq};

verus! {

/// One vulnerability found in an image.
pub struct Vuln {
    pub cve: String,
    pub severity: String,
    pub package: String,
    pub installed_version: String,
    pub fixed_version: Option<String>,
    pub description: Option<String>,
}

/// The result of scanning one image.
pub struct ImageScanResult {
    pub image: String,
    pub scanner: String,
    pub critical_count: u32,
    pub high_count: u32,
    pub medium_count: u32,
    pub low_count: u32,
    pub unknown_count: u32,
    pub vulnerabilities: Vec<Vuln>,
    pub scanned_at: String,
}

/// The scan settings as shown to an admin.
pub struct ScanSettings {
    pub enabled: bool,
    pub on_deploy: bool,
    pub deploy_gate: String,
    pub interval_hours: i32,
    pub installed: bool,
}

/// The scan settings as an admin submits them.
pub struct UpdateSettings {
    pub enabled: bool,
    pub on_deploy: bool,
    pub deploy_gate: String,
    pub interval_hours: i32,
}

/// An ad-hoc scan request.
pub struct ScanByImageRequest {
    pub image: String,
}

/// Gate names: "none", "critical", "high", "medium".
pub open spec fn is_gate(g: Seq<char>) -> bool {
    g == "none"@ || g == "critical"@ || g == "high"@ || g == "medium"@
}

/// A gate name is one of the four known ones.
pub fn valid_gate(g: &str) -> (b: bool)
    ensures
        b == is_gate(g@),
{
    str_eq(g, "none") || str_eq(g, "critical") || str_eq(g, "high") || str_eq(g, "medium")
}

/// Findings at or above a gate's severity block a deploy; any other gate
/// name blocks nothing.
pub open spec fn over_threshold(gate: Seq<char>, critical: u32, high: u32, medium: u32) -> bool {
    if gate == "critical"@ {
        critical > 0
    } else if gate == "high"@ {
        critical > 0 || high > 0
    } else if gate == "medium"@ {
        critical > 0 || high > 0 || medium > 0
    } else {
        false
    }
}

/// True if the result exceeds the configured deploy-gate threshold.
pub fn exceeds_threshold(gate: &str, r: &ImageScanResult) -> (b: bool)
    ensures
        b == over_threshold(gate@, r.critical_count, r.high_count, r.medium_count),
{
    if str_eq(gate, "critical") {
        r.critical_count > 0
    } else if str_eq(gate, "high") {
        r.critical_count > 0 || r.high_count > 0
    } else if str_eq(gate, "medium") {
        r.critical_count > 0 || r.high_count > 0 || r.medium_count > 0
    } else {
        false
    }
}

/// Stored settings as (enabled, scan on deploy, gate, interval in hours).
pub type ScanConfig = (bool, bool, Seq<char>, i32);

/// The settings read from key/value rows, later rows overriding earlier
/// ones; defaults are off, off, "none" and 24 hours, and an interval that
/// does not parse reads as 24.
pub open spec fn settings_from_rows(rows: Seq<(Seq<char>, Seq<char>)>) -> (bool, bool, Seq<char>, i32)
    decreases rows.len(),
{
    if rows.len() == 0 {
        (false, false, "none"@, 24i32)
    } else {
        let p = settings_from_rows(rows.drop_last());
        let (k, v) = rows.last();
        if k == "image_scan_enabled"@ {
            (v == "true"@, p.1, p.2, p.3)
        } else if k == "image_scan_on_deploy"@ {
            (p.0, v == "true"@, p.2, p.3)
        } else if k == "image_scan_deploy_gate"@ {
            (p.0, p.1, v, p.3)
        } else if k == "image_scan_interval_hours"@ {
            (p.0, p.1, p.2, match parsed_i32(v) {
                Some(h) => h,
                None => 24i32,
            })
        } else {
            p
        }
    }
}

/// Reads the scan settings out of the settings rows.
pub fn scan_settings_from_rows(rows: &Vec<(String, String)>) -> (r: (bool, bool, String, i32))
    ensures
        (r.0, r.1, r.2@, r.3) == settings_from_rows(rows.deep_view()),
{
    let mut enabled = false;
    let mut on_deploy = false;
    let mut gate = String::from_str("none");
    let mut hours: i32 = 24;
    let mut i: usize = 0;
    while i < rows.len()
        invariant
            i <= rows@.len(),
            (enabled, on_deploy, gate@, hours) == settings_from_rows(rows.deep_view().take(i as int)),
        decreases rows@.len() - i,
    {
        let ghost dv = rows.deep_view();
        assert(dv.take(i + 1).drop_last() =~= dv.take(i as int));
        assert(dv.take(i + 1).last() == dv[i as int]);
        let k = rows[i].0.as_str();
        let v = rows[i].1.as_str();
        if str_eq(k, "image_scan_enabled") {
            enabled = str_eq(v, "true");
        } else if str_eq(k, "image_scan_on_deploy") {
            on_deploy = str_eq(v, "true");
        } else if str_eq(k, "image_scan_deploy_gate") {
            gate = String::from_str(v);
        } else if str_eq(k, "image_scan_interval_hours") {
            hours = match parse_i32(v) {
                Some(h) => h,
                None => 24,
            };
        }
        i = i + 1;
    }
    assert(rows.deep_view().take(rows@.len() as int) =~= rows.deep_view());
    (enabled, on_deploy, gate, hours)
}

/// Why submitted scan settings are refused.
#[derive(Debug, Clone, Copy, PartialEq, Eq, Structural)]
pub enum ScanSettingsError {
    InvalidGate,
    InvalidInterval,
}

impl ScanSettingsError {
    pub fn message(&self) -> (m: &'static str)
        ensures
            m@ == match self {
                ScanSettingsError::InvalidGate => "Invalid deploy_gate (none|critical|high|medium)"@,
                ScanSettingsError::InvalidInterval => "interval_hours must be 1..=720"@,
            },
    {
        match self {
            ScanSettingsError::InvalidGate => "Invalid deploy_gate (none|critical|high|medium)",
            ScanSettingsError::InvalidInterval => "interval_hours must be 1..=720",
        }
    }
}

/// Submitted settings: a known gate and an interval of 1 to 720 hours.
pub fn validate_scan_settings(body: &UpdateSettings) -> (r: Result<(), ScanSettingsError>)
    ensures
        r == (if !is_gate(body.deploy_gate@) {
            Err(ScanSettingsError::InvalidGate)
        } else if !(1 <= body.interval_hours <= 720) {
            Err(ScanSettingsError::InvalidInterval)
        } else {
            Ok(())
        }),
{
    if !valid_gate(body.deploy_gate.as_str()) {
        return Err(ScanSettingsError::InvalidGate);
    }
    if !(1 <= body.interval_hours && body.interval_hours <= 720) {
        return Err(ScanSettingsError::InvalidInterval);
    }
    Ok(())
}

/// The deploy gate is active: scanning enabled, scanning on deploy, and a
/// gate other than "none".
pub fn gate_active(enabled: bool, on_deploy: bool, gate: &str) -> (b: bool)
    ensures
        b == (enabled && on_deploy && gate@ != "none"@),
{
    enabled && on_deploy && !str_eq(gate, "none")
}

/// What the deploy gate decides for an image.
#[derive(Debug, Clone, Copy, PartialEq, Eq, Structural)]
pub enum GateVerdict {
    /// The deploy goes ahead.
    Allow,
    /// The deploy goes ahead and a background scan is started, since no
    /// recent scan of the image exists.
    AllowAndScan,
    /// A recent scan shows findings over the threshold.
    Block { critical: i32, high: i32, medium: i32 },
}

/// A blocked deploy is refused as unprocessable, with its gate, counts
/// and image.
pub fn gate_refusal(gate: &str, critical: i32, high: i32, medium: i32, image: &str) -> (r: (u16, String))
    ensures
        r.0 == 422,
        r.1@ == "Deploy blocked by image scan gate ("@ + gate@ + "): "@ + signed_decimal_of(critical as int)
            + " critical / "@ + signed_decimal_of(high as int) + " high / "@ + signed_decimal_of(medium as int)
            + " medium in "@ + image@,
{
    let mut m = String::from_str("Deploy blocked by image scan gate (");
    m.append(gate);
    m.append("): ");
    let c = i64_decimal(critical as i64);
    m.append(c.as_str());
    m.append(" critical / ");
    let h = i64_decimal(high as i64);
    m.append(h.as_str());
    m.append(" high / ");
    let md = i64_decimal(medium as i64);
    m.append(md.as_str());
    m.append(" medium in ");
    m.append(image);
    (422, m)
}

/// The counts stored for a scan, as they are read back.
pub open spec fn stored_over_threshold(gate: Seq<char>, c: i32, h: i32, m: i32) -> bool {
    over_threshold(gate, c as u32, h as u32, m as u32)
}

/// A gate's verdict from the most recent scan within seven days,
/// as (critical, high, medium, low, unknown) counts.
pub open spec fn gate_verdict_of(gate: Seq<char>, recent: Option<(i32, i32, i32, i32, i32)>) -> GateVerdict {
    match recent {
        None => GateVerdict::AllowAndScan,
        Some((c, h, m, _, _)) => if stored_over_threshold(gate, c, h, m) {
            GateVerdict::Block { critical: c, high: h, medium: m }
        } else {
            GateVerdict::Allow
        },
    }
}

pub fn gate_verdict(gate: &str, recent: Option<(i32, i32, i32, i32, i32)>) -> (v: GateVerdict)
    ensures
        v == gate_verdict_of(gate@, recent),
{
    match recent {
        None => GateVerdict::AllowAndScan,
        Some((c, h, m, _, _)) => {
            let critical = c as u32;
            let high = h as u32;
            let medium = m as u32;
            let over = if str_eq(gate, "critical") {
                critical > 0
            } else if str_eq(gate, "high") {
                critical > 0 || high > 0
            } else if str_eq(gate, "medium") {
                critical > 0 || high > 0 || medium > 0
            } else {
                false
            };
            if over {
                GateVerdict::Block { critical: c, high: h, medium: m }
            } else {
                GateVerdict::Allow
            }
        },
    }
}

/// The image of the first template with the given id (an entry without an
/// id never matches).
pub open spec fn template_image(ts: Seq<(Option<Seq<char>>, Option<Seq<char>>)>, id: Seq<char>) -> Option<Seq<char>>
    decreases ts.len(),
{
    if ts.len() == 0 {
        None
    } else if ts[0].0 == Some(id) {
        ts[0].1
    } else {
        template_image(ts.drop_first(), id)
    }
}

/// Finds a template's image in the agent's (id, image) list.
pub fn find_template_image(ts: &Vec<(Option<String>, Option<String>)>, id: &str) -> (r: Option<String>)
    ensures
        r.deep_view() == template_image(ts.deep_view(), id@),
{
    let mut i: usize = 0;
    assert(ts.deep_view().skip(0) =~= ts.deep_view());
    while i < ts.len()
        invariant
            i <= ts@.len(),
            template_image(ts.deep_view(), id@) == template_image(ts.deep_view().skip(i as int), id@),
        decreases ts@.len() - i,
    {
        let ghost dv = ts.deep_view();
        assert(dv.skip(i as int)[0] == dv[i as int]);
        assert(dv.skip(i as int).drop_first() =~= dv.skip(i + 1));
        match &ts[i].0 {
            Some(t) => {
                if str_eq(t.as_str(), id) {
                    return match &ts[i].1 {
                        Some(img) => Some(String::from_str(img.as_str())),
                        None => None,
                    };
                }
            },
            None => {},
        }
        i = i + 1;
    }
    None
}

/// The image of the first app with the given name (a missing name reads as
/// the empty text).
pub open spec fn app_image(apps: Seq<(Option<Seq<char>>, Option<Seq<char>>)>, name: Seq<char>) -> Option<Seq<char>>
    decreases apps.len(),
{
    if apps.len() == 0 {
        None
    } else if (match apps[0].0 {
        Some(n) => n,
        None => Seq::<char>::empty(),
    }) == name {
        apps[0].1
    } else {
        app_image(apps.drop_first(), name)
    }
}

/// Finds an app's image in the agent's (name, image) list.
pub fn find_app_image(apps: &Vec<(Option<String>, Option<String>)>, name: &str) -> (r: Option<String>)
    ensures
        r.deep_view() == app_image(apps.deep_view(), name@),
{
    let mut i: usize = 0;
    assert(apps.deep_view().skip(0) =~= apps.deep_view());
    proof {
        reveal_strlit("");
    }
    while i < apps.len()
        invariant
            i <= apps@.len(),
            app_image(apps.deep_view(), name@) == app_image(apps.deep_view().skip(i as int), name@),
            ""@ == Seq::<char>::empty(),
        decreases apps@.len() - i,
    {
        let ghost dv = apps.deep_view();
        assert(dv.skip(i as int)[0] == dv[i as int]);
        assert(dv.skip(i as int).drop_first() =~= dv.skip(i + 1));
        let matches = match &apps[i].0 {
            Some(n) => str_eq(n.as_str(), name),
            None => str_eq("", name),
        };
        if matches {
            return match &apps[i].1 {
                Some(img) => Some(String::from_str(img.as_str())),
                None => None,
            };
        }
        i = i + 1;
    }
    None
}

/// Raising a gate never lets through what a lower gate blocked:
/// medium blocks whatever high blocks, and high whatever critical blocks.
pub proof fn law_gates_are_nested(c: u32, h: u32, m: u32)
    ensures
        over_threshold("critical"@, c, h, m) ==> over_threshold("high"@, c, h, m),
        over_threshold("high"@, c, h, m) ==> over_threshold("medium"@, c, h, m),
        !over_threshold("none"@, c, h, m),
{
    reveal_strlit("critical");
    reveal_strlit("high");
    reveal_strlit("medium");
    reveal_strlit("none");
    assert("critical"@.len() == 8);
    assert("high"@.len() == 4);
    assert("medium"@.len() == 6);
    assert("none"@.len() == 4);
    assert("none"@[0] != "high"@[0]);
}

/// The verdict of a gate on a recent scan follows the scan's counts: the
/// `critical` gate blocks when there are critical findings, `high` when
/// there are critical or high ones, `medium` when there are critical, high
/// or medium ones, and any other gate never blocks; a block carries the
/// counts it was decided on, and without a recent scan the deploy goes
/// ahead and a scan is started. (Counts are read as stored; a count that is
/// not zero counts as findings.)
pub proof fn law_verdict_follows_counts(gate: Seq<char>, c: i32, h: i32, m: i32, l: i32, u: i32)
    ensures
        gate == "critical"@ ==> (gate_verdict_of(gate, Some((c, h, m, l, u))) is Block <==> c != 0),
        gate == "high"@ ==> (gate_verdict_of(gate, Some((c, h, m, l, u))) is Block <==> (c != 0 || h != 0)),
        gate == "medium"@ ==> (gate_verdict_of(gate, Some((c, h, m, l, u))) is Block
            <==> (c != 0 || h != 0 || m != 0)),
        !(gate == "critical"@ || gate == "high"@ || gate == "medium"@)
            ==> gate_verdict_of(gate, Some((c, h, m, l, u))) == GateVerdict::Allow,
        gate_verdict_of(gate, Some((c, h, m, l, u))) is Block ==> gate_verdict_of(gate, Some((c, h, m, l, u)))
            == (GateVerdict::Block { critical: c, high: h, medium: m }),
        gate_verdict_of(gate, None) == GateVerdict::AllowAndScan,
{
    reveal_strlit("critical");
    reveal_strlit("high");
    reveal_strlit("medium");
    assert("critical"@.len() == 8);
    assert("high"@.len() == 4);
    assert("medium"@.len() == 6);
    assert((c as u32 > 0) == (c != 0)) by (bit_vector);
    assert((h as u32 > 0) == (h != 0)) by (bit_vector);
    assert((m as u32 > 0) == (m != 0)) by (bit_vector);
}

} // verus!

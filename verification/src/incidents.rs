//! Incidents and the public status page: what an incident may say, how a
//! change to one is applied, and how the page sums up the components.

use vstd::prelude::*;

use crate::text::utf8_len;

use crate::crypto::uuid_v4_simple;
use crate::text::{is_ascii_hex, join_with, str_eq};

verus! {

/// A request to open an incident.
pub struct CreateIncidentRequest {
    pub title: String,
    pub severity: Option<String>,
    pub description: Option<String>,
    pub status: Option<String>,
    pub component_ids: Option<Vec<uuid::Uuid>>,
    pub visible_on_status_page: Option<bool>,
}

/// A change to an incident.
pub struct UpdateIncidentRequest {
    pub title: Option<String>,
    pub status: Option<String>,
    pub severity: Option<String>,
    pub description: Option<String>,
    pub message: Option<String>,
    pub postmortem: Option<String>,
    pub postmortem_published: Option<bool>,
    pub visible_on_status_page: Option<bool>,
}

/// Paging and filtering of the incident list.
pub struct IncidentListQuery {
    pub limit: Option<i64>,
    pub offset: Option<i64>,
    pub status: Option<String>,
}

/// A new entry in an incident's timeline.
pub struct PostUpdateRequest {
    pub status: String,
    pub message: String,
}

/// The states an incident goes through.
pub open spec fn is_incident_status(s: Seq<char>) -> bool {
    s == "investigating"@ || s == "identified"@ || s == "monitoring"@ || s == "resolved"@
        || s == "postmortem"@
}

/// How bad an incident is.
pub open spec fn is_severity(s: Seq<char>) -> bool {
    s == "minor"@ || s == "major"@ || s == "critical"@ || s == "maintenance"@
}

pub fn incident_status_ok(s: &str) -> (b: bool)
    ensures
        b == is_incident_status(s@),
{
    str_eq(s, "investigating") || str_eq(s, "identified") || str_eq(s, "monitoring")
        || str_eq(s, "resolved") || str_eq(s, "postmortem")
}

pub fn severity_ok(s: &str) -> (b: bool)
    ensures
        b == is_severity(s@),
{
    str_eq(s, "minor") || str_eq(s, "major") || str_eq(s, "critical") || str_eq(s, "maintenance")
}

/// Why an incident request is refused.
#[derive(Debug, Clone, Copy, PartialEq, Eq, Structural)]
pub enum IncidentError {
    InvalidTitle,
    InvalidStatus,
    InvalidSeverity,
    InvalidComponentName,
    InvalidEmail,
}

impl IncidentError {
    pub fn message(&self) -> (m: &'static str)
        ensures
            m@ == match self {
                IncidentError::InvalidTitle => "Title must be 1-200 characters"@,
                IncidentError::InvalidStatus => "Invalid status"@,
                IncidentError::InvalidSeverity => "Invalid severity"@,
                IncidentError::InvalidComponentName => "Name must be 1-100 characters"@,
                IncidentError::InvalidEmail => "Invalid email address"@,
            },
    {
        match self {
            IncidentError::InvalidTitle => "Title must be 1-200 characters",
            IncidentError::InvalidStatus => "Invalid status",
            IncidentError::InvalidSeverity => "Invalid severity",
            IncidentError::InvalidComponentName => "Name must be 1-100 characters",
            IncidentError::InvalidEmail => "Invalid email address",
        }
    }
}

/// A new incident as it is stored, with its first timeline entry.
pub struct NewIncident {
    pub title: String,
    pub status: String,
    pub severity: String,
    pub description: Option<String>,
    pub visible_on_status_page: bool,
    /// The message of the first timeline entry.
    pub first_update: String,
}

pub open spec fn opt_or(v: Option<String>, d: Seq<char>) -> Seq<char> {
    match v {
        Some(s) => s@,
        None => d,
    }
}

/// The checks on a new incident, in order: the title is 1 to 200 bytes,
/// the status (default `investigating`) and the severity (default
/// `major`) are known ones.
pub open spec fn new_incident_check(req: CreateIncidentRequest) -> Result<(), IncidentError> {
    if req.title@.len() == 0 || utf8_len(req.title@) > 200 {
        Err(IncidentError::InvalidTitle)
    } else if !is_incident_status(opt_or(req.status, "investigating"@)) {
        Err(IncidentError::InvalidStatus)
    } else if !is_severity(opt_or(req.severity, "major"@)) {
        Err(IncidentError::InvalidSeverity)
    } else {
        Ok(())
    }
}

fn or_default(v: &Option<String>, d: &str) -> (s: String)
    ensures
        s@ == opt_or(*v, d@),
{
    match v {
        Some(x) => String::from_str(x.as_str()),
        None => String::from_str(d),
    }
}

/// Checks a new incident and fills in its defaults; it is shown on the
/// status page unless asked otherwise, and its first timeline entry is
/// its description or `Incident created`.
pub fn plan_incident(req: &CreateIncidentRequest) -> (r: Result<NewIncident, IncidentError>)
    ensures
        match new_incident_check(*req) {
            Err(e) => r == Err::<NewIncident, IncidentError>(e),
            Ok(_) => r matches Ok(n) && {
                &&& n.title@ == req.title@
                &&& n.status@ == opt_or(req.status, "investigating"@)
                &&& n.severity@ == opt_or(req.severity, "major"@)
                &&& n.description.deep_view() == req.description.deep_view()
                &&& n.visible_on_status_page == match req.visible_on_status_page { Some(b) => b, None => true }
                &&& n.first_update@ == opt_or(req.description, "Incident created"@)
            },
        },
{
    let cs = crate::text::chars_of(req.title.as_str());
    if cs.len() == 0 || req.title.as_str().as_bytes().len() > 200 {
        return Err(IncidentError::InvalidTitle);
    }
    let status = or_default(&req.status, "investigating");
    if !incident_status_ok(status.as_str()) {
        return Err(IncidentError::InvalidStatus);
    }
    let severity = or_default(&req.severity, "major");
    if !severity_ok(severity.as_str()) {
        return Err(IncidentError::InvalidSeverity);
    }
    let description = match &req.description {
        Some(d) => Some(String::from_str(d.as_str())),
        None => None,
    };
    Ok(NewIncident {
        title: String::from_str(req.title.as_str()),
        status,
        severity,
        description,
        visible_on_status_page: match req.visible_on_status_page { Some(b) => b, None => true },
        first_update: or_default(&req.description, "Incident created"),
    })
}

/// The editable fields of a stored incident.
pub struct IncidentFields {
    pub title: String,
    pub status: String,
    pub severity: String,
    pub description: Option<String>,
    pub postmortem: Option<String>,
    pub postmortem_published: bool,
    pub visible_on_status_page: bool,
}

/// The checks on a change to an incident: a given status or severity must
/// be a known one.
pub open spec fn incident_update_check(req: UpdateIncidentRequest) -> Result<(), IncidentError> {
    if req.status matches Some(s) && !is_incident_status(s@) {
        Err(IncidentError::InvalidStatus)
    } else if req.severity matches Some(s) && !is_severity(s@) {
        Err(IncidentError::InvalidSeverity)
    } else {
        Ok(())
    }
}

pub fn check_incident_update(req: &UpdateIncidentRequest) -> (r: Result<(), IncidentError>)
    ensures
        r == incident_update_check(*req),
{
    if let Some(s) = &req.status {
        if !incident_status_ok(s.as_str()) {
            return Err(IncidentError::InvalidStatus);
        }
    }
    if let Some(s) = &req.severity {
        if !severity_ok(s.as_str()) {
            return Err(IncidentError::InvalidSeverity);
        }
    }
    Ok(())
}

/// A text field takes a given non-empty value and keeps its own otherwise.
pub open spec fn keep_unless_text(cur: Seq<char>, new: Option<String>) -> Seq<char> {
    match new {
        Some(s) => if s@.len() > 0 { s@ } else { cur },
        None => cur,
    }
}

fn text_update(cur: &String, new: &Option<String>) -> (s: String)
    ensures
        s@ == keep_unless_text(cur@, *new),
{
    match new {
        Some(x) => {
            if x.as_str().as_bytes().len() > 0 {
                proof {
                    assert(x@.len() > 0) by {
                        if x@.len() == 0 {
                            assert(x@ =~= Seq::<char>::empty());
                            assert(vstd::utf8::encode_utf8(x@) =~= Seq::<u8>::empty()) by {
                                reveal_with_fuel(vstd::utf8::encode_utf8, 2);
                            }
                        }
                    }
                }
                String::from_str(x.as_str())
            } else {
                proof {
                    assert(x@.len() == 0) by {
                        if x@.len() > 0 {
                            vstd::utf8::encode_utf8_first_scalar(x@);
                        }
                    }
                }
                String::from_str(cur.as_str())
            }
        },
        None => String::from_str(cur.as_str()),
    }
}

fn opt_text_update(cur: &Option<String>, new: &Option<String>) -> (s: Option<String>)
    ensures
        s.deep_view() == match new { Some(x) => Some(x@), None => cur.deep_view() },
{
    match new {
        Some(x) => Some(String::from_str(x.as_str())),
        None => match cur {
            Some(c) => Some(String::from_str(c.as_str())),
            None => None,
        },
    }
}

/// An incident after a change: title, status and severity take given
/// non-empty values; description and postmortem take given values; the
/// flags take given values.
pub open spec fn updated_incident(cur: IncidentFields, req: UpdateIncidentRequest) -> (Seq<char>, Seq<char>, Seq<char>, Option<Seq<char>>, Option<Seq<char>>, bool, bool) {
    (
        keep_unless_text(cur.title@, req.title),
        keep_unless_text(cur.status@, req.status),
        keep_unless_text(cur.severity@, req.severity),
        match req.description { Some(x) => Some(x@), None => cur.description.deep_view() },
        match req.postmortem { Some(x) => Some(x@), None => cur.postmortem.deep_view() },
        match req.postmortem_published { Some(b) => b, None => cur.postmortem_published },
        match req.visible_on_status_page { Some(b) => b, None => cur.visible_on_status_page },
    )
}

impl View for IncidentFields {
    type V = (Seq<char>, Seq<char>, Seq<char>, Option<Seq<char>>, Option<Seq<char>>, bool, bool);

    open spec fn view(&self) -> Self::V {
        (self.title@, self.status@, self.severity@, self.description.deep_view(), self.postmortem.deep_view(),
            self.postmortem_published, self.visible_on_status_page)
    }
}

/// Applies a change to an incident.
pub fn apply_incident_update(cur: &IncidentFields, req: &UpdateIncidentRequest) -> (n: IncidentFields)
    ensures
        n@ == updated_incident(*cur, *req),
{
    IncidentFields {
        title: text_update(&cur.title, &req.title),
        status: text_update(&cur.status, &req.status),
        severity: text_update(&cur.severity, &req.severity),
        description: opt_text_update(&cur.description, &req.description),
        postmortem: opt_text_update(&cur.postmortem, &req.postmortem),
        postmortem_published: match req.postmortem_published { Some(b) => b, None => cur.postmortem_published },
        visible_on_status_page: match req.visible_on_status_page { Some(b) => b, None => cur.visible_on_status_page },
    }
}

/// A change to `resolved` stamps the resolution time.
pub fn resolves(status: &Option<String>) -> (b: bool)
    ensures
        b == (status.deep_view() == Some("resolved"@)),
{
    match status {
        Some(s) => str_eq(s.as_str(), "resolved"),
        None => false,
    }
}

/// A move to `postmortem` without a postmortem text fills in a template
/// when the stored postmortem is empty.
pub fn wants_postmortem_template(req: &UpdateIncidentRequest, current: &Option<String>) -> (b: bool)
    ensures
        b == (req.status.deep_view() == Some("postmortem"@) && req.postmortem is None
            && match current { Some(p) => p@.len() == 0, None => true }),
{
    let to_pm = match &req.status {
        Some(s) => str_eq(s.as_str(), "postmortem"),
        None => false,
    };
    let empty = match current {
        Some(p) => crate::text::chars_of(p.as_str()).len() == 0,
        None => true,
    };
    to_pm && req.postmortem.is_none() && empty
}

/// The status of the timeline entry that a change with a message adds.
pub fn update_entry_status(req: &UpdateIncidentRequest, stored_status: &str) -> (s: String)
    ensures
        s@ == opt_or(req.status, stored_status@),
{
    or_default(&req.status, stored_status)
}

/// A new timeline entry needs a known status.
pub fn check_post_update(req: &PostUpdateRequest) -> (r: Result<(), IncidentError>)
    ensures
        r is Ok <==> is_incident_status(req.status@),
        r is Err ==> r == Err::<(), IncidentError>(IncidentError::InvalidStatus),
{
    if incident_status_ok(req.status.as_str()) {
        Ok(())
    } else {
        Err(IncidentError::InvalidStatus)
    }
}

/// One line of a postmortem timeline: `- **time** [status]: message`.
pub open spec fn timeline_line(time: Seq<char>, status: Seq<char>, message: Seq<char>) -> Seq<char> {
    "- **"@ + time + "** ["@ + status + "]: "@ + message
}

/// The timeline lines joined by line breaks.
pub open spec fn timeline_of(entries: Seq<(Seq<char>, Seq<char>, Seq<char>)>) -> Seq<char> {
    join_with(entries.map_values(|e: (Seq<char>, Seq<char>, Seq<char>)| timeline_line(e.0, e.1, e.2)), "\n"@)
}

/// The postmortem template around a timeline.
pub open spec fn postmortem_template_of(timeline: Seq<char>) -> Seq<char> {
    "## Incident Postmortem\n\n### Summary\n[Describe the incident]\n\n### Timeline\n"@ + timeline
        + "\n\n### Root Cause\n[What caused this?]\n\n### Resolution\n[How was it fixed?]\n\n### Action Items\n- [ ] \n"@
}

/// Builds the postmortem template from the timeline entries (time, as
/// the page shows it, status and message), oldest first.
pub fn postmortem_template(entries: &Vec<(String, String, String)>) -> (t: String)
    ensures
        t@ == postmortem_template_of(timeline_of(entries@.map_values(|e: (String, String, String)| (e.0@, e.1@, e.2@)))),
{
    let ghost model = entries@.map_values(|e: (String, String, String)| (e.0@, e.1@, e.2@));
    let ghost lines = model.map_values(|e: (Seq<char>, Seq<char>, Seq<char>)| timeline_line(e.0, e.1, e.2));
    let mut timeline = String::new();
    let mut i: usize = 0;
    proof {
        reveal_strlit("");
    }
    while i < entries.len()
        invariant
            i <= entries@.len(),
            model == entries@.map_values(|e: (String, String, String)| (e.0@, e.1@, e.2@)),
            lines == model.map_values(|e: (Seq<char>, Seq<char>, Seq<char>)| timeline_line(e.0, e.1, e.2)),
            timeline@ == join_with(lines.take(i as int), "\n"@),
        decreases entries@.len() - i,
    {
        proof {
            reveal_strlit("\n");
        }
        let ghost before = timeline@;
        if i > 0 {
            timeline.append("\n");
        }
        let e = &entries[i];
        timeline.append("- **");
        timeline.append(e.0.as_str());
        timeline.append("** [");
        timeline.append(e.1.as_str());
        timeline.append("]: ");
        timeline.append(e.2.as_str());
        assert(lines[i as int] == timeline_line(e.0@, e.1@, e.2@));
        assert(lines.take(i + 1).drop_last() =~= lines.take(i as int));
        assert(lines.take(i + 1).last() == lines[i as int]);
        if i == 0 {
            assert(timeline@ =~= join_with(lines.take(i + 1), "\n"@));
        } else {
            assert(timeline@ =~= before + "\n"@ + lines[i as int]);
        }
        i = i + 1;
    }
    assert(lines.take(i as int) =~= lines);
    let mut t = String::from_str("## Incident Postmortem\n\n### Summary\n[Describe the incident]\n\n### Timeline\n");
    t.append(timeline.as_str());
    t.append("\n\n### Root Cause\n[What caused this?]\n\n### Resolution\n[How was it fixed?]\n\n### Action Items\n- [ ] \n");
    t
}

// ─── Status page ───────────────────────────────────────────────

/// The look and switches of the status page.
pub struct StatusPageSettings {
    pub title: String,
    pub description: String,
    pub logo_url: Option<String>,
    pub accent_color: String,
    pub show_subscribe: bool,
    pub show_incident_history: bool,
    pub history_days: i32,
    pub enabled: bool,
}

/// A change to the status page settings.
pub struct UpdateConfigRequest {
    pub title: Option<String>,
    pub description: Option<String>,
    pub logo_url: Option<String>,
    pub accent_color: Option<String>,
    pub show_subscribe: Option<bool>,
    pub show_incident_history: Option<bool>,
    pub history_days: Option<i32>,
    pub enabled: Option<bool>,
}

impl View for StatusPageSettings {
    type V = (Seq<char>, Seq<char>, Option<Seq<char>>, Seq<char>, bool, bool, i32, bool);

    open spec fn view(&self) -> Self::V {
        (self.title@, self.description@, self.logo_url.deep_view(), self.accent_color@,
            self.show_subscribe, self.show_incident_history, self.history_days, self.enabled)
    }
}

/// The settings the public page uses when none are stored.
pub fn default_status_page() -> (c: StatusPageSettings)
    ensures
        c@ == ("Service Status"@, "Current status of our services"@, None::<Seq<char>>, "#22c55e"@, true, true, 90i32, true),
{
    StatusPageSettings {
        title: String::from_str("Service Status"),
        description: String::from_str("Current status of our services"),
        logo_url: None,
        accent_color: String::from_str("#22c55e"),
        show_subscribe: true,
        show_incident_history: true,
        history_days: 90,
        enabled: true,
    }
}

/// The settings after a change: texts take given non-empty values (the
/// logo any given value), flags and numbers take given values.
pub open spec fn updated_settings(cur: StatusPageSettings, req: UpdateConfigRequest) -> (Seq<char>, Seq<char>, Option<Seq<char>>, Seq<char>, bool, bool, i32, bool) {
    (
        keep_unless_text(cur.title@, req.title),
        keep_unless_text(cur.description@, req.description),
        match req.logo_url { Some(x) => Some(x@), None => cur.logo_url.deep_view() },
        keep_unless_text(cur.accent_color@, req.accent_color),
        match req.show_subscribe { Some(b) => b, None => cur.show_subscribe },
        match req.show_incident_history { Some(b) => b, None => cur.show_incident_history },
        match req.history_days { Some(d) => d, None => cur.history_days },
        match req.enabled { Some(b) => b, None => cur.enabled },
    )
}

pub fn apply_config_update(cur: &StatusPageSettings, req: &UpdateConfigRequest) -> (n: StatusPageSettings)
    ensures
        n@ == updated_settings(*cur, *req),
{
    StatusPageSettings {
        title: text_update(&cur.title, &req.title),
        description: text_update(&cur.description, &req.description),
        logo_url: opt_text_update(&cur.logo_url, &req.logo_url),
        accent_color: text_update(&cur.accent_color, &req.accent_color),
        show_subscribe: match req.show_subscribe { Some(b) => b, None => cur.show_subscribe },
        show_incident_history: match req.show_incident_history { Some(b) => b, None => cur.show_incident_history },
        history_days: match req.history_days { Some(d) => d, None => cur.history_days },
        enabled: match req.enabled { Some(b) => b, None => cur.enabled },
    }
}

/// The status shown for a component: its override when set; otherwise
/// `operational` when it has no enabled monitors or all are up,
/// `major_outage` when one is down, `degraded` else.
pub open spec fn component_status_of(status_override: Option<Seq<char>>, monitors: Seq<Seq<char>>) -> Seq<char> {
    match status_override {
        Some(o) => o,
        None => if monitors.len() == 0 || (forall|i: int| 0 <= i < monitors.len() ==> #[trigger] monitors[i] == "up"@) {
            "operational"@
        } else if exists|i: int| 0 <= i < monitors.len() && #[trigger] monitors[i] == "down"@ {
            "major_outage"@
        } else {
            "degraded"@
        },
    }
}

pub fn component_status(status_override: &Option<String>, monitors: &Vec<String>) -> (s: String)
    ensures
        s@ == component_status_of(status_override.deep_view(), monitors@.map_values(|m: String| m@)),
{
    let ghost ms = monitors@.map_values(|m: String| m@);
    if let Some(o) = status_override {
        return String::from_str(o.as_str());
    }
    let mut all_up = true;
    let mut any_down = false;
    let mut i: usize = 0;
    while i < monitors.len()
        invariant
            i <= monitors@.len(),
            ms == monitors@.map_values(|m: String| m@),
            all_up <==> forall|j: int| 0 <= j < i ==> #[trigger] ms[j] == "up"@,
            any_down <==> exists|j: int| 0 <= j < i && #[trigger] ms[j] == "down"@,
        decreases monitors@.len() - i,
    {
        assert(ms[i as int] == monitors@[i as int]@);
        if !str_eq(monitors[i].as_str(), "up") {
            all_up = false;
        }
        if str_eq(monitors[i].as_str(), "down") {
            any_down = true;
        }
        i = i + 1;
    }
    if monitors.len() == 0 || all_up {
        String::from_str("operational")
    } else if any_down {
        String::from_str("major_outage")
    } else {
        String::from_str("degraded")
    }
}

/// The status of the whole page: `operational` when every component is,
/// `major_outage` when one is out, `degraded` else.
pub open spec fn overall_status_of(components: Seq<Seq<char>>) -> Seq<char> {
    if forall|i: int| 0 <= i < components.len() ==> #[trigger] components[i] == "operational"@ {
        "operational"@
    } else if exists|i: int| 0 <= i < components.len() && #[trigger] components[i] == "major_outage"@ {
        "major_outage"@
    } else {
        "degraded"@
    }
}

pub fn overall_status(components: &Vec<String>) -> (s: &'static str)
    ensures
        s@ == overall_status_of(components@.map_values(|c: String| c@)),
{
    let ghost cs = components@.map_values(|c: String| c@);
    let mut all_ok = true;
    let mut any_out = false;
    let mut i: usize = 0;
    while i < components.len()
        invariant
            i <= components@.len(),
            cs == components@.map_values(|c: String| c@),
            all_ok <==> forall|j: int| 0 <= j < i ==> #[trigger] cs[j] == "operational"@,
            any_out <==> exists|j: int| 0 <= j < i && #[trigger] cs[j] == "major_outage"@,
        decreases components@.len() - i,
    {
        assert(cs[i as int] == components@[i as int]@);
        if !str_eq(components[i].as_str(), "operational") {
            all_ok = false;
        }
        if str_eq(components[i].as_str(), "major_outage") {
            any_out = true;
        }
        i = i + 1;
    }
    if all_ok {
        "operational"
    } else if any_out {
        "major_outage"
    } else {
        "degraded"
    }
}

/// A page whose components carry no override and whose monitors are all
/// up is operational as a whole.
pub proof fn law_all_up_is_operational(monitors: Seq<Seq<Seq<char>>>)
    requires
        forall|c: int, m: int| 0 <= c < monitors.len() && 0 <= m < monitors[c].len()
            ==> #[trigger] monitors[c][m] == "up"@,
    ensures
        overall_status_of(monitors.map_values(|ms: Seq<Seq<char>>| component_status_of(None, ms))) == "operational"@,
{
    let comps = monitors.map_values(|ms: Seq<Seq<char>>| component_status_of(None, ms));
    assert forall|i: int| 0 <= i < comps.len() implies #[trigger] comps[i] == "operational"@ by {
        let ms = monitors[i];
        assert(forall|m: int| 0 <= m < ms.len() ==> #[trigger] ms[m] == "up"@);
    }
}

/// One monitor down, with no override on its component, puts the whole
/// page in a major outage.
pub proof fn law_down_monitor_is_major_outage(monitors: Seq<Seq<Seq<char>>>, c: int, m: int)
    requires
        0 <= c < monitors.len(),
        0 <= m < monitors[c].len(),
        monitors[c][m] == "down"@,
    ensures
        overall_status_of(monitors.map_values(|ms: Seq<Seq<char>>| component_status_of(None, ms))) == "major_outage"@,
{
    let comps = monitors.map_values(|ms: Seq<Seq<char>>| component_status_of(None, ms));
    let ms = monitors[c];
    reveal_strlit("down");
    reveal_strlit("up");
    reveal_strlit("operational");
    reveal_strlit("major_outage");
    assert("down"@.len() == 4 && "up"@.len() == 2);
    assert("major_outage"@.len() == 12 && "operational"@.len() == 11);
    assert(ms[m] != "up"@);
    assert(comps[c] == "major_outage"@);
    assert(comps[c] != "operational"@);
}

/// A component name is 1 to 100 bytes.
pub fn check_component_name(name: &str) -> (r: Result<(), IncidentError>)
    ensures
        r is Ok <==> (name@.len() > 0 && utf8_len(name@) <= 100),
        r is Err ==> r == Err::<(), IncidentError>(IncidentError::InvalidComponentName),
{
    if crate::text::chars_of(name).len() == 0 || name.as_bytes().len() > 100 {
        Err(IncidentError::InvalidComponentName)
    } else {
        Ok(())
    }
}

/// A request to follow status updates.
pub struct SubscribeRequest {
    pub email: String,
}

/// A subscriber address is non-empty, has an `@` and is at most 255 bytes.
pub fn check_subscriber_email(email: &str) -> (r: Result<(), IncidentError>)
    ensures
        r is Ok <==> (email@.len() > 0 && email@.contains('@') && utf8_len(email@) <= 255),
        r is Err ==> r == Err::<(), IncidentError>(IncidentError::InvalidEmail),
{
    let cs = crate::text::chars_of(email);
    if cs.len() == 0 || !crate::text::has_char(cs.as_slice(), '@') || email.as_bytes().len() > 255 {
        Err(IncidentError::InvalidEmail)
    } else {
        Ok(())
    }
}

/// A subscriber's token: a random UUID as 32 hex digits.
pub fn subscriber_token() -> (t: String)
    ensures
        t@.len() == 32,
        forall|i: int| 0 <= i < 32 ==> is_ascii_hex(#[trigger] t@[i]),
{
    uuid_v4_simple()
}

/// The subject and body of a status mail to subscribers.
pub fn subscriber_notice(title: &str, status: &str, message: &str) -> (r: (String, String))
    ensures
        r.0@ == "[Status Update] "@ + title@ + " — "@ + status@,
        r.1@ == title@ + "\nStatus: "@ + status@ + "\n\n"@ + message@,
{
    let mut subject = String::from_str("[Status Update] ");
    subject.append(title);
    subject.append(" — ");
    subject.append(status);
    let mut body = String::from_str(title);
    body.append("\nStatus: ");
    body.append(status);
    body.append("\n\n");
    body.append(message);
    (subject, body)
}

} // verus!

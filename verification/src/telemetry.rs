//! Telemetry: the settings that switch it on and point it somewhere, when
//! a report may be sent, which events are cleared, and whether an update
//! is waiting.

use vstd::prelude::*;

use crate::text::utf8_len;

use crate::text::{chars_of, has_prefix, starts_with, str_eq};

verus! {

/// Filters and paging of the telemetry events.
pub struct ListParams {
    pub limit: Option<i64>,
    pub offset: Option<i64>,
    pub category: Option<String>,
    pub event_type: Option<String>,
}

/// A change to the telemetry settings.
pub struct ConfigUpdate {
    pub telemetry_enabled: Option<String>,
    pub telemetry_endpoint: Option<String>,
}

/// How old the events to clear are.
pub struct ClearParams {
    pub before_days: Option<i64>,
}

/// Why a telemetry request is refused.
#[derive(Debug, Clone, Copy, PartialEq, Eq, Structural)]
pub enum TelemetryError {
    EndpointNotHttps,
    EndpointTooLong,
    InvalidEnabled,
    NoEndpoint,
    NotEnabled,
}

impl TelemetryError {
    pub fn message(&self) -> (m: &'static str)
        ensures
            m@ == match self {
                TelemetryError::EndpointNotHttps => "Telemetry endpoint must use HTTPS"@,
                TelemetryError::EndpointTooLong => "Endpoint URL too long (max 512 chars)"@,
                TelemetryError::InvalidEnabled => "telemetry_enabled must be 'true' or 'false'"@,
                TelemetryError::NoEndpoint => "No telemetry endpoint configured"@,
                TelemetryError::NotEnabled => "Telemetry is not enabled"@,
            },
    {
        match self {
            TelemetryError::EndpointNotHttps => "Telemetry endpoint must use HTTPS",
            TelemetryError::EndpointTooLong => "Endpoint URL too long (max 512 chars)",
            TelemetryError::InvalidEnabled => "telemetry_enabled must be 'true' or 'false'",
            TelemetryError::NoEndpoint => "No telemetry endpoint configured",
            TelemetryError::NotEnabled => "Telemetry is not enabled",
        }
    }
}

/// The checks on a settings change, in order: a given endpoint is empty
/// (which turns remote reporting off) or an https URL, and at most 512
/// bytes; a given switch is `true` or `false`.
pub open spec fn config_update_check(req: ConfigUpdate) -> Result<(), TelemetryError> {
    match req.telemetry_endpoint {
        Some(e) if e@.len() > 0 && !has_prefix(e@, "https://"@) => Err(TelemetryError::EndpointNotHttps),
        Some(e) if utf8_len(e@) > 512 => Err(TelemetryError::EndpointTooLong),
        _ => match req.telemetry_enabled {
            Some(v) if !(v@ == "true"@ || v@ == "false"@) => Err(TelemetryError::InvalidEnabled),
            _ => Ok(()),
        },
    }
}

pub fn check_config_update(req: &ConfigUpdate) -> (r: Result<(), TelemetryError>)
    ensures
        r == config_update_check(*req),
{
    if let Some(e) = &req.telemetry_endpoint {
        let ec = chars_of(e.as_str());
        if ec.len() > 0 && !starts_with(ec.as_slice(), "https://") {
            return Err(TelemetryError::EndpointNotHttps);
        }
        if e.as_str().as_bytes().len() > 512 {
            return Err(TelemetryError::EndpointTooLong);
        }
    }
    if let Some(v) = &req.telemetry_enabled {
        if !(str_eq(v.as_str(), "true") || str_eq(v.as_str(), "false")) {
            return Err(TelemetryError::InvalidEnabled);
        }
    }
    Ok(())
}

/// A report is sent on demand only to a configured endpoint and with
/// telemetry switched on.
pub fn check_send(endpoint: &Option<String>, enabled: &Option<String>) -> (r: Result<(), TelemetryError>)
    ensures
        match endpoint { Some(e) => e@.len() == 0, None => true }
            ==> r == Err::<(), TelemetryError>(TelemetryError::NoEndpoint),
        !(match endpoint { Some(e) => e@.len() == 0, None => true }) && enabled.deep_view() != Some("true"@)
            ==> r == Err::<(), TelemetryError>(TelemetryError::NotEnabled),
        !(match endpoint { Some(e) => e@.len() == 0, None => true }) && enabled.deep_view() == Some("true"@)
            ==> r is Ok,
{
    let empty = match endpoint {
        Some(e) => chars_of(e.as_str()).len() == 0,
        None => true,
    };
    if empty {
        return Err(TelemetryError::NoEndpoint);
    }
    let on = match enabled {
        Some(v) => str_eq(v.as_str(), "true"),
        None => false,
    };
    if !on {
        return Err(TelemetryError::NotEnabled);
    }
    Ok(())
}

/// The age of the events to clear, in days: within 0..=3650; 0 (the
/// default) clears them all.
pub fn clear_days(params: &ClearParams) -> (d: i64)
    ensures
        d == ({ let x = match params.before_days { Some(x) => x, None => 0 }; if x < 0 { 0 } else if x > 3650 { 3650 } else { x } }),
        0 <= d <= 3650,
{
    let x = match params.before_days { Some(x) => x, None => 0 };
    if x < 0 { 0 } else if x > 3650 { 3650 } else { x }
}

/// An update is waiting when a non-empty available version is stored.
pub fn update_available(rows: &Vec<(String, String)>) -> (b: bool)
    ensures
        b == exists|i: int| 0 <= i < rows@.len() && #[trigger] rows@[i].0@ == "update_available_version"@
            && rows@[i].1@.len() > 0,
{
    let mut i: usize = 0;
    while i < rows.len()
        invariant
            i <= rows@.len(),
            forall|j: int| 0 <= j < i ==> !(#[trigger] rows@[j].0@ == "update_available_version"@ && rows@[j].1@.len() > 0),
        decreases rows@.len() - i,
    {
        if str_eq(rows[i].0.as_str(), "update_available_version") && chars_of(rows[i].1.as_str()).len() > 0 {
            return true;
        }
        i = i + 1;
    }
    false
}

/// The installation id shown in a preview.
pub fn installation_id_or_placeholder(id: Option<String>) -> (s: String)
    ensures
        s@ == match id { Some(x) => x@, None => "not yet generated"@ },
{
    match id {
        Some(x) => x,
        None => String::from_str("not yet generated"),
    }
}

/// Which filter lists the events: the category when given, else the event
/// type when given, else none.
#[derive(Debug, PartialEq, Eq)]
pub enum EventFilter {
    Category(String),
    EventType(String),
    All,
}

pub fn event_filter(params: &ListParams) -> (f: EventFilter)
    ensures
        match params.category {
            Some(c) => f matches EventFilter::Category(x) && x@ == c@,
            None => match params.event_type {
                Some(t) => f matches EventFilter::EventType(x) && x@ == t@,
                None => f matches EventFilter::All,
            },
        },
{
    match &params.category {
        Some(c) => EventFilter::Category(String::from_str(c.as_str())),
        None => match &params.event_type {
            Some(t) => EventFilter::EventType(String::from_str(t.as_str())),
            None => EventFilter::All,
        },
    }
}

} // verus!

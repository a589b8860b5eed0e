//! Resellers: who may be made one, and how a change to a reseller's
//! quotas and branding is applied.

use vstd::prelude::*;

use crate::text::str_eq;

verus! {

/// A request to make a user a reseller.
pub struct CreateResellerRequest {
    pub user_id: uuid::Uuid,
    pub panel_name: Option<String>,
    pub max_users: Option<i32>,
    pub max_sites: Option<i32>,
    pub max_databases: Option<i32>,
    pub logo_url: Option<String>,
    pub accent_color: Option<String>,
    pub hide_branding: Option<bool>,
}

/// A change to a reseller's quotas and branding.
pub struct UpdateResellerRequest {
    pub panel_name: Option<String>,
    pub max_users: Option<i32>,
    pub max_sites: Option<i32>,
    pub max_databases: Option<i32>,
    pub max_disk_mb: Option<i64>,
    pub max_email_accounts: Option<i32>,
    pub logo_url: Option<String>,
    pub accent_color: Option<String>,
    pub hide_branding: Option<bool>,
}

/// A server to allocate to a reseller.
pub struct AllocateServerRequest {
    pub server_id: uuid::Uuid,
}

/// Why a user cannot be made a reseller.
#[derive(Debug, Clone, Copy, PartialEq, Eq, Structural)]
pub enum ResellerError {
    CannotPromoteAdmin,
    AlreadyReseller,
}

impl ResellerError {
    pub fn status(&self) -> (s: u16)
        ensures
            s == match self {
                ResellerError::CannotPromoteAdmin => 400u16,
                ResellerError::AlreadyReseller => 409u16,
            },
    {
        match self {
            ResellerError::CannotPromoteAdmin => 400,
            ResellerError::AlreadyReseller => 409,
        }
    }

    pub fn message(&self) -> (m: &'static str)
        ensures
            m@ == match self {
                ResellerError::CannotPromoteAdmin => "Cannot promote an admin to reseller"@,
                ResellerError::AlreadyReseller => "Reseller profile already exists"@,
            },
    {
        match self {
            ResellerError::CannotPromoteAdmin => "Cannot promote an admin to reseller",
            ResellerError::AlreadyReseller => "Reseller profile already exists",
        }
    }
}

/// An administrator cannot be made a reseller, nor a reseller that
/// already has a profile.
pub fn check_promotion(role: &str, has_profile: bool) -> (r: Result<(), ResellerError>)
    ensures
        role@ == "admin"@ ==> r == Err::<(), ResellerError>(ResellerError::CannotPromoteAdmin),
        role@ != "admin"@ && role@ == "reseller"@ && has_profile ==> r == Err::<(), ResellerError>(ResellerError::AlreadyReseller),
        role@ != "admin"@ && !(role@ == "reseller"@ && has_profile) ==> r is Ok,
{
    if str_eq(role, "admin") {
        return Err(ResellerError::CannotPromoteAdmin);
    }
    if str_eq(role, "reseller") && has_profile {
        return Err(ResellerError::AlreadyReseller);
    }
    Ok(())
}

/// A reseller's quotas and branding.
pub struct ResellerTerms {
    pub panel_name: Option<String>,
    pub max_users: Option<i32>,
    pub max_sites: Option<i32>,
    pub max_databases: Option<i32>,
    pub max_disk_mb: Option<i64>,
    pub max_email_accounts: Option<i32>,
    pub logo_url: Option<String>,
    pub accent_color: Option<String>,
    pub hide_branding: bool,
}

/// A new reseller's terms: what the request gives, branding shown unless
/// asked otherwise.
pub fn new_terms(req: &CreateResellerRequest) -> (t: ResellerTerms)
    ensures
        t.panel_name.deep_view() == req.panel_name.deep_view(),
        t.max_users == req.max_users,
        t.max_sites == req.max_sites,
        t.max_databases == req.max_databases,
        t.max_disk_mb is None,
        t.max_email_accounts is None,
        t.logo_url.deep_view() == req.logo_url.deep_view(),
        t.accent_color.deep_view() == req.accent_color.deep_view(),
        t.hide_branding == match req.hide_branding { Some(b) => b, None => false },
{
    ResellerTerms {
        panel_name: copy_opt(&req.panel_name),
        max_users: req.max_users,
        max_sites: req.max_sites,
        max_databases: req.max_databases,
        max_disk_mb: None,
        max_email_accounts: None,
        logo_url: copy_opt(&req.logo_url),
        accent_color: copy_opt(&req.accent_color),
        hide_branding: match req.hide_branding { Some(b) => b, None => false },
    }
}

fn copy_opt(v: &Option<String>) -> (r: Option<String>)
    ensures
        r.deep_view() == v.deep_view(),
{
    match v {
        Some(s) => Some(String::from_str(s.as_str())),
        None => None,
    }
}

fn pick_text(new: &Option<String>, cur: &Option<String>) -> (r: Option<String>)
    ensures
        r.deep_view() == match new { Some(x) => Some(x@), None => cur.deep_view() },
{
    match new {
        Some(x) => Some(String::from_str(x.as_str())),
        None => copy_opt(cur),
    }
}

/// A reseller's terms after a change: every given value replaces the
/// current one.
pub fn apply_update(cur: &ResellerTerms, req: &UpdateResellerRequest) -> (t: ResellerTerms)
    ensures
        t.panel_name.deep_view() == match req.panel_name { Some(x) => Some(x@), None => cur.panel_name.deep_view() },
        t.max_users == match req.max_users { Some(x) => Some(x), None => cur.max_users },
        t.max_sites == match req.max_sites { Some(x) => Some(x), None => cur.max_sites },
        t.max_databases == match req.max_databases { Some(x) => Some(x), None => cur.max_databases },
        t.max_disk_mb == match req.max_disk_mb { Some(x) => Some(x), None => cur.max_disk_mb },
        t.max_email_accounts == match req.max_email_accounts { Some(x) => Some(x), None => cur.max_email_accounts },
        t.logo_url.deep_view() == match req.logo_url { Some(x) => Some(x@), None => cur.logo_url.deep_view() },
        t.accent_color.deep_view() == match req.accent_color { Some(x) => Some(x@), None => cur.accent_color.deep_view() },
        t.hide_branding == match req.hide_branding { Some(b) => b, None => cur.hide_branding },
{
    ResellerTerms {
        panel_name: pick_text(&req.panel_name, &cur.panel_name),
        max_users: match req.max_users { Some(x) => Some(x), None => cur.max_users },
        max_sites: match req.max_sites { Some(x) => Some(x), None => cur.max_sites },
        max_databases: match req.max_databases { Some(x) => Some(x), None => cur.max_databases },
        max_disk_mb: match req.max_disk_mb { Some(x) => Some(x), None => cur.max_disk_mb },
        max_email_accounts: match req.max_email_accounts { Some(x) => Some(x), None => cur.max_email_accounts },
        logo_url: pick_text(&req.logo_url, &cur.logo_url),
        accent_color: pick_text(&req.accent_color, &cur.accent_color),
        hide_branding: match req.hide_branding { Some(b) => b, None => cur.hide_branding },
    }
}

} // verus!

//! The per-site settings pages: redirects, protected paths, the cache,
//! firewall and bot toggles, security headers and the health score.

use vstd::prelude::*;

use crate::agent_body::AgentBody;
use crate::domain::{is_domain, is_valid_domain};
use crate::sites::{build_nginx_body, nginx_body_of, Site};
use crate::text::{
    chars_of, has_infix, has_prefix, str_eq, string_from_chars, trim, trimmed, contains_str,
    starts_with,
};

verus! {

/// One step of a site's provisioning, as shown while it runs.
#[derive(Debug)]
pub struct ProvisionStep {
    pub step: String,
    pub label: String,
    /// `pending`, `in_progress`, `done` or `error`.
    pub status: String,
    pub message: Option<String>,
}

impl View for ProvisionStep {
    /// Step, label, status and message.
    type V = (Seq<char>, Seq<char>, Seq<char>, Option<Seq<char>>);

    open spec fn view(&self) -> (Seq<char>, Seq<char>, Seq<char>, Option<Seq<char>>) {
        (self.step@, self.label@, self.status@, self.message.deep_view())
    }
}

impl ProvisionStep {
    /// A copy with the same text in every field.
    pub fn copy(&self) -> (p: Self)
        ensures
            p@ == self@,
    {
        ProvisionStep {
            step: String::from_str(self.step.as_str()),
            label: String::from_str(self.label.as_str()),
            status: String::from_str(self.status.as_str()),
            message: match &self.message {
                Some(m) => Some(String::from_str(m.as_str())),
                None => None,
            },
        }
    }

    pub fn new(step: &str, label: &str, status: &str, message: Option<String>) -> (p: Self)
        ensures
            p.step@ == step@,
            p.label@ == label@,
            p.status@ == status@,
            p.message == message,
    {
        ProvisionStep {
            step: String::from_str(step),
            label: String::from_str(label),
            status: String::from_str(status),
            message,
        }
    }
}

// ─── Redirects, protected paths and aliases ───────────────────

/// A redirect to add to a site.
pub struct AddRedirectBody {
    pub source: String,
    pub target: String,
    pub redirect_type: String,
}

/// The redirect type when none is given.
pub fn default_301() -> (s: String)
    ensures
        s@ == "301"@,
{
    String::from_str("301")
}

/// A char that a shell or the web server's configuration would interpret.
pub open spec fn is_shell_meta(c: char) -> bool {
    c == ';' || c == '|' || c == '&' || c == '$' || c == '`' || c == '\'' || c == '"'
        || c == '\\' || c == '\n' || c == '\r' || c == '\0'
}

pub open spec fn has_shell_meta(s: Seq<char>) -> bool {
    exists|i: int| 0 <= i < s.len() && is_shell_meta(#[trigger] s[i])
}

fn shell_meta(c: char) -> (b: bool)
    ensures
        b == is_shell_meta(c),
{
    c == ';' || c == '|' || c == '&' || c == '$' || c == '`' || c == '\'' || c == '"'
        || c == '\\' || c == '\n' || c == '\r' || c == '\0'
}

fn any_shell_meta(s: &[char]) -> (b: bool)
    ensures
        b == has_shell_meta(s@),
{
    let mut i: usize = 0;
    while i < s.len()
        invariant
            i <= s@.len(),
            forall|j: int| 0 <= j < i ==> !is_shell_meta(#[trigger] s@[j]),
        decreases s@.len() - i,
    {
        if shell_meta(s[i]) {
            assert(is_shell_meta(s@[i as int]));
            return true;
        }
        i = i + 1;
    }
    false
}

/// Why a redirect is refused.
#[derive(Debug, Clone, Copy, PartialEq, Eq, Structural)]
pub enum RedirectError {
    InvalidSource,
    InvalidTarget,
    TargetMetachars,
}

impl RedirectError {
    pub fn message(&self) -> (m: &'static str)
        ensures
            m@ == match self {
                RedirectError::InvalidSource => "Invalid redirect source: must start with / and contain no shell metacharacters"@,
                RedirectError::InvalidTarget => "Invalid redirect target: must be a URL (http/https) or path (starts with /)"@,
                RedirectError::TargetMetachars => "Invalid redirect target: contains shell metacharacters"@,
            },
    {
        match self {
            RedirectError::InvalidSource => "Invalid redirect source: must start with / and contain no shell metacharacters",
            RedirectError::InvalidTarget => "Invalid redirect target: must be a URL (http/https) or path (starts with /)",
            RedirectError::TargetMetachars => "Invalid redirect target: contains shell metacharacters",
        }
    }
}

pub open spec fn redirect_check(source: Seq<char>, target: Seq<char>) -> Result<(), RedirectError> {
    if !has_prefix(source, "/"@) || has_shell_meta(source) {
        Err(RedirectError::InvalidSource)
    } else if !(has_prefix(target, "http://"@) || has_prefix(target, "https://"@) || has_prefix(target, "/"@)) {
        Err(RedirectError::InvalidTarget)
    } else if has_shell_meta(target) {
        Err(RedirectError::TargetMetachars)
    } else {
        Ok(())
    }
}

/// Checks a redirect: the source is a path, the target a URL or a path,
/// and neither holds a char the web server's configuration would interpret.
pub fn validate_redirect(source: &str, target: &str) -> (r: Result<(), RedirectError>)
    ensures
        r == redirect_check(source@, target@),
{
    let s = chars_of(source);
    let t = chars_of(target);
    if !starts_with(s.as_slice(), "/") || any_shell_meta(s.as_slice()) {
        return Err(RedirectError::InvalidSource);
    }
    if !(starts_with(t.as_slice(), "http://") || starts_with(t.as_slice(), "https://")
        || starts_with(t.as_slice(), "/")) {
        return Err(RedirectError::InvalidTarget);
    }
    if any_shell_meta(t.as_slice()) {
        return Err(RedirectError::TargetMetachars);
    }
    Ok(())
}

/// A request to protect a path of a site with a password.
pub struct PasswordProtectBody {
    pub path: String,
    pub username: String,
    pub password: String,
}

/// A domain alias to add to a site.
pub struct AddAliasBody {
    pub alias: String,
}

/// `char::is_alphanumeric`: alphabetic or numeric in the Unicode sense.
pub uninterp spec fn unicode_alphanumeric(c: char) -> bool;

/// Calls `char::is_alphanumeric`; its result is named, not restated.
#[verifier::external_body]
fn alphanumeric(c: char) -> (b: bool)
    ensures
        b == unicode_alphanumeric(c),
{
    c.is_alphanumeric()
}

pub open spec fn is_username_char(c: char) -> bool {
    unicode_alphanumeric(c) || c == '_' || c == '-'
}

pub open spec fn is_username(u: Seq<char>) -> bool {
    u.len() > 0 && forall|i: int| 0 <= i < u.len() ==> is_username_char(#[trigger] u[i])
}

/// Why a path cannot be protected as requested.
#[derive(Debug, Clone, Copy, PartialEq, Eq, Structural)]
pub enum ProtectError {
    InvalidPath,
    InvalidUsername,
}

impl ProtectError {
    pub fn message(&self) -> (m: &'static str)
        ensures
            m@ == match self {
                ProtectError::InvalidPath => "Invalid path: must not contain '..' or shell metacharacters"@,
                ProtectError::InvalidUsername => "Invalid username: must be alphanumeric (underscores and hyphens allowed)"@,
            },
    {
        match self {
            ProtectError::InvalidPath => "Invalid path: must not contain '..' or shell metacharacters",
            ProtectError::InvalidUsername => "Invalid username: must be alphanumeric (underscores and hyphens allowed)",
        }
    }
}

pub open spec fn protect_check(path: Seq<char>, username: Seq<char>) -> Result<(), ProtectError> {
    if has_infix(path, ".."@) || has_shell_meta(path) {
        Err(ProtectError::InvalidPath)
    } else if !is_username(username) {
        Err(ProtectError::InvalidUsername)
    } else {
        Ok(())
    }
}

/// Checks a path and user name for password protection.
pub fn validate_password_protect(path: &str, username: &str) -> (r: Result<(), ProtectError>)
    ensures
        r == protect_check(path@, username@),
{
    let p = chars_of(path);
    if contains_str(p.as_slice(), "..") || any_shell_meta(p.as_slice()) {
        return Err(ProtectError::InvalidPath);
    }
    let u = chars_of(username);
    if u.len() == 0 {
        return Err(ProtectError::InvalidUsername);
    }
    let mut i: usize = 0;
    while i < u.len()
        invariant
            u@ == username@,
            !has_infix(path@, ".."@),
            !has_shell_meta(path@),
            i <= u@.len(),
            forall|j: int| 0 <= j < i ==> is_username_char(#[trigger] u@[j]),
        decreases u@.len() - i,
    {
        let c = u[i];
        if !(alphanumeric(c) || c == '_' || c == '-') {
            assert(!is_username_char(u@[i as int]));
            return Err(ProtectError::InvalidUsername);
        }
        i = i + 1;
    }
    Ok(())
}

// ─── Smaller site requests ─────────────────────────────────────

/// Why a request about a site's settings is refused.
#[derive(Debug, Clone, Copy, PartialEq, Eq, Structural)]
pub enum SiteRequestError {
    InvalidWafMode,
    InvalidBotMode,
    InvalidImageFormat,
    MissingEnabled,
    MissingWafEnabled,
    FastcgiNotEnabled,
    RedisNotEnabled,
    InvalidAlias,
    TargetRequired,
    InvalidTarget,
}

impl SiteRequestError {
    pub fn message(&self) -> (m: &'static str)
        ensures
            m@ == match self {
                SiteRequestError::InvalidWafMode => "Mode must be 'detection' or 'prevention'"@,
                SiteRequestError::InvalidBotMode => "Mode must be 'off', 'rate-limit', 'challenge', or 'block'"@,
                SiteRequestError::InvalidImageFormat => "Format must be 'webp' or 'avif'"@,
                SiteRequestError::MissingEnabled => "Missing 'enabled' boolean field"@,
                SiteRequestError::MissingWafEnabled => "Missing 'enabled' boolean"@,
                SiteRequestError::FastcgiNotEnabled => "FastCGI cache is not enabled for this site"@,
                SiteRequestError::RedisNotEnabled => "Redis cache is not enabled for this site"@,
                SiteRequestError::InvalidAlias => "Invalid alias: must be a valid domain name"@,
                SiteRequestError::TargetRequired => "Target domain required"@,
                SiteRequestError::InvalidTarget => "Invalid target domain format"@,
            },
    {
        match self {
            SiteRequestError::InvalidWafMode => "Mode must be 'detection' or 'prevention'",
            SiteRequestError::InvalidBotMode => "Mode must be 'off', 'rate-limit', 'challenge', or 'block'",
            SiteRequestError::InvalidImageFormat => "Format must be 'webp' or 'avif'",
            SiteRequestError::MissingEnabled => "Missing 'enabled' boolean field",
            SiteRequestError::MissingWafEnabled => "Missing 'enabled' boolean",
            SiteRequestError::FastcgiNotEnabled => "FastCGI cache is not enabled for this site",
            SiteRequestError::RedisNotEnabled => "Redis cache is not enabled for this site",
            SiteRequestError::InvalidAlias => "Invalid alias: must be a valid domain name",
            SiteRequestError::TargetRequired => "Target domain required",
            SiteRequestError::InvalidTarget => "Invalid target domain format",
        }
    }
}

/// The value a switch request turns a setting to (the firewall's switch
/// or another); it must be given.
pub fn requested_switch(enabled: Option<bool>, waf: bool) -> (r: Result<bool, SiteRequestError>)
    ensures
        match enabled {
            Some(b) => r == Ok::<bool, SiteRequestError>(b),
            None => r == Err::<bool, SiteRequestError>(
                if waf { SiteRequestError::MissingWafEnabled } else { SiteRequestError::MissingEnabled }),
        },
{
    match enabled {
        Some(b) => Ok(b),
        None => if waf { Err(SiteRequestError::MissingWafEnabled) } else { Err(SiteRequestError::MissingEnabled) },
    }
}

/// A cache is purged only while it is on.
pub fn check_purge(redis: bool, cache_enabled: bool) -> (r: Result<(), SiteRequestError>)
    ensures
        r is Ok <==> cache_enabled,
        !cache_enabled ==> r == Err::<(), SiteRequestError>(
            if redis { SiteRequestError::RedisNotEnabled } else { SiteRequestError::FastcgiNotEnabled }),
{
    if cache_enabled {
        Ok(())
    } else if redis {
        Err(SiteRequestError::RedisNotEnabled)
    } else {
        Err(SiteRequestError::FastcgiNotEnabled)
    }
}

/// An alias of a site must be a valid domain.
pub fn check_alias(alias: &str) -> (r: Result<(), SiteRequestError>)
    ensures
        r is Ok <==> is_domain(alias@),
        r is Err ==> r == Err::<(), SiteRequestError>(SiteRequestError::InvalidAlias),
{
    if is_valid_domain(alias) { Ok(()) } else { Err(SiteRequestError::InvalidAlias) }
}

/// The domain a site is cloned to: it must be given and be valid.
pub fn check_clone_target(domain: Option<&str>) -> (r: Result<String, SiteRequestError>)
    ensures
        match domain {
            None => r == Err::<String, SiteRequestError>(SiteRequestError::TargetRequired),
            Some(d) => if is_domain(d@) {
                r matches Ok(x) && x@ == d@
            } else {
                r == Err::<String, SiteRequestError>(SiteRequestError::InvalidTarget)
            },
        },
{
    match domain {
        None => Err(SiteRequestError::TargetRequired),
        Some(d) => if is_valid_domain(d) { Ok(String::from_str(d)) } else { Err(SiteRequestError::InvalidTarget) },
    }
}

// ─── Modes of the firewall, bot protection and image optimisation ──

/// The WAF mode asked for: `detection` when none is given; none (refused)
/// when the mode is neither `detection` nor `prevention`.
pub open spec fn waf_mode_of(mode: Option<Seq<char>>) -> Option<Seq<char>> {
    match mode {
        None => Some("detection"@),
        Some(m) => if m == "detection"@ || m == "prevention"@ { Some(m) } else { None },
    }
}

pub fn waf_mode_choice(mode: Option<&str>) -> (r: Result<String, SiteRequestError>)
    ensures
        match r {
            Ok(m) => waf_mode_of(mode.deep_view()) == Some(m@),
            Err(e) => waf_mode_of(mode.deep_view()) is None && e == SiteRequestError::InvalidWafMode,
        },
{
    match mode {
        None => Ok(String::from_str("detection")),
        Some(m) => {
            if str_eq(m, "detection") || str_eq(m, "prevention") {
                Ok(String::from_str(m))
            } else {
                Err(SiteRequestError::InvalidWafMode)
            }
        },
    }
}

/// The bot-protection mode asked for: `off` when none is given; none
/// (refused) when it is not one of `off`, `rate-limit`, `challenge`, `block`.
pub open spec fn bot_mode_of(mode: Option<Seq<char>>) -> Option<Seq<char>> {
    match mode {
        None => Some("off"@),
        Some(m) => if m == "off"@ || m == "rate-limit"@ || m == "challenge"@ || m == "block"@ {
            Some(m)
        } else {
            None
        },
    }
}

pub fn bot_mode_choice(mode: Option<&str>) -> (r: Result<String, SiteRequestError>)
    ensures
        match r {
            Ok(m) => bot_mode_of(mode.deep_view()) == Some(m@),
            Err(e) => bot_mode_of(mode.deep_view()) is None && e == SiteRequestError::InvalidBotMode,
        },
{
    match mode {
        None => Ok(String::from_str("off")),
        Some(m) => {
            if str_eq(m, "off") || str_eq(m, "rate-limit") || str_eq(m, "challenge") || str_eq(m, "block") {
                Ok(String::from_str(m))
            } else {
                Err(SiteRequestError::InvalidBotMode)
            }
        },
    }
}

/// The image conversion asked for: format `webp` and quality 80 unless
/// given; none (refused) when the format is neither `webp` nor `avif`.
pub open spec fn image_request_of(format: Option<Seq<char>>, quality: Option<u64>) -> Option<(Seq<char>, u64)> {
    let q = match quality { Some(q) => q, None => 80 };
    match format {
        None => Some(("webp"@, q)),
        Some(f) => if f == "webp"@ || f == "avif"@ { Some((f, q)) } else { None },
    }
}

pub fn image_request(format: Option<&str>, quality: Option<u64>) -> (r: Result<(String, u64), SiteRequestError>)
    ensures
        match r {
            Ok((f, q)) => image_request_of(format.deep_view(), quality) == Some((f@, q)),
            Err(e) => image_request_of(format.deep_view(), quality) is None && e == SiteRequestError::InvalidImageFormat,
        },
{
    let q = match quality { Some(q) => q, None => 80 };
    match format {
        None => Ok((String::from_str("webp"), q)),
        Some(f) => {
            if str_eq(f, "webp") || str_eq(f, "avif") {
                Ok((String::from_str(f), q))
            } else {
                Err(SiteRequestError::InvalidImageFormat)
            }
        },
    }
}

// ─── Security headers ──────────────────────────────────────────

/// Why security headers are refused.
#[derive(Debug, Clone, Copy, PartialEq, Eq, Structural)]
pub enum HeadersError {
    CspTooLong,
    CspInvalidChars,
    PermissionsTooLong,
}

impl HeadersError {
    pub fn message(&self) -> (m: &'static str)
        ensures
            m@ == match self {
                HeadersError::CspTooLong => "CSP policy must be under 4KB"@,
                HeadersError::CspInvalidChars => "CSP policy contains invalid characters"@,
                HeadersError::PermissionsTooLong => "Permissions-Policy must be under 2KB"@,
            },
    {
        match self {
            HeadersError::CspTooLong => "CSP policy must be under 4KB",
            HeadersError::CspInvalidChars => "CSP policy contains invalid characters",
            HeadersError::PermissionsTooLong => "Permissions-Policy must be under 2KB",
        }
    }
}

/// The headers check, over the UTF-8 length of each header and its chars.
pub open spec fn headers_check(
    csp: Option<(nat, Seq<char>)>,
    perms_len: Option<nat>,
) -> Result<(), HeadersError> {
    match csp {
        Some((n, _)) if n > 4096 => Err(HeadersError::CspTooLong),
        Some((_, c)) if c.contains('\n') || c.contains('\r') || c.contains('\0') => Err(HeadersError::CspInvalidChars),
        _ => match perms_len {
            Some(n) if n > 2048 => Err(HeadersError::PermissionsTooLong),
            _ => Ok(()),
        },
    }
}

pub open spec fn csp_facts(csp: Option<String>) -> Option<(nat, Seq<char>)> {
    match csp {
        Some(s) => Some((vstd::utf8::encode_utf8(s@).len(), s@)),
        None => None,
    }
}

pub open spec fn perms_len(perms: Option<String>) -> Option<nat> {
    match perms {
        Some(s) => Some(vstd::utf8::encode_utf8(s@).len()),
        None => None,
    }
}

/// Checks a Content-Security-Policy (at most 4096 bytes, no line breaks or
/// NUL) and a Permissions-Policy (at most 2048 bytes).
pub fn check_security_headers(csp: &Option<String>, perms: &Option<String>) -> (r: Result<(), HeadersError>)
    ensures
        r == headers_check(csp_facts(*csp), perms_len(*perms)),
{
    if let Some(c) = csp {
        if c.as_str().as_bytes().len() > 4096 {
            return Err(HeadersError::CspTooLong);
        }
        let cs = chars_of(c.as_str());
        if crate::text::has_char(cs.as_slice(), '\n') || crate::text::has_char(cs.as_slice(), '\r')
            || crate::text::has_char(cs.as_slice(), '\0') {
            return Err(HeadersError::CspInvalidChars);
        }
    }
    if let Some(p) = perms {
        if p.as_str().as_bytes().len() > 2048 {
            return Err(HeadersError::PermissionsTooLong);
        }
    }
    Ok(())
}

/// The configuration of a site after its security headers changed.
pub fn security_headers_body(site: Site, csp: Option<String>, perms: Option<String>) -> (b: AgentBody)
    ensures
        b@ == nginx_body_of(Site { csp_policy: csp, permissions_policy: perms, ..site }),
{
    let mut updated = site;
    updated.csp_policy = csp;
    updated.permissions_policy = perms;
    build_nginx_body(&updated)
}

/// The configuration of a site after its bot-protection mode changed.
pub fn bot_protection_body(site: Site, mode: String) -> (b: AgentBody)
    ensures
        b@ == nginx_body_of(Site { bot_protection: mode, ..site }),
{
    let mut updated = site;
    updated.bot_protection = mode;
    build_nginx_body(&updated)
}

} // verus!

verus! {

// ─── Caches and toggles ────────────────────────────────────────

/// Whether every Redis database from 1 to `n - 1` is taken.
pub open spec fn redis_dbs_taken_below(used: Seq<i32>, n: int) -> bool {
    forall|k: i32| 1 <= k < n ==> #[trigger] used.contains(k)
}

/// The lowest Redis database from 1 to 15 that no other site uses.
pub fn free_redis_db(used: &Vec<i32>) -> (r: Option<i32>)
    ensures
        match r {
            Some(n) => 1 <= n <= 15 && !used@.contains(n) && redis_dbs_taken_below(used@, n as int),
            None => redis_dbs_taken_below(used@, 16),
        },
{
    let mut n: i32 = 1;
    while n <= 15
        invariant
            1 <= n <= 16,
            redis_dbs_taken_below(used@, n as int),
        decreases 16 - n,
    {
        let mut taken = false;
        let mut i: usize = 0;
        while i < used.len()
            invariant
                i <= used@.len(),
                taken <==> exists|j: int| 0 <= j < i && used@[j] == n,
            decreases used@.len() - i,
        {
            if used[i] == n {
                taken = true;
            }
            i = i + 1;
        }
        if !taken {
            return Some(n);
        }
        assert(redis_dbs_taken_below(used@, n + 1)) by {
            assert forall|k: i32| 1 <= k < n + 1 implies #[trigger] used@.contains(k) by {
                if k == n {
                    let j = choose|j: int| 0 <= j < used@.len() && used@[j] == n;
                    assert(used@[j] == k);
                }
            }
        }
        n = n + 1;
    }
    None
}

/// Why a cache cannot be switched.
#[derive(Debug, Clone, Copy, PartialEq, Eq, Structural)]
pub enum CacheError {
    FastcgiNotPhp,
    RedisNotPhp,
    RedisSlotsFull,
}

impl CacheError {
    pub fn status(&self) -> (s: u16)
        ensures
            s == match self {
                CacheError::RedisSlotsFull => 409u16,
                _ => 400u16,
            },
    {
        match self {
            CacheError::RedisSlotsFull => 409,
            _ => 400,
        }
    }

    pub fn message(&self) -> (m: &'static str)
        ensures
            m@ == match self {
                CacheError::FastcgiNotPhp => "FastCGI cache is only available for PHP sites"@,
                CacheError::RedisNotPhp => "Redis object cache is only available for PHP sites"@,
                CacheError::RedisSlotsFull => "All Redis DB slots (1-15) are in use"@,
            },
    {
        match self {
            CacheError::FastcgiNotPhp => "FastCGI cache is only available for PHP sites",
            CacheError::RedisNotPhp => "Redis object cache is only available for PHP sites",
            CacheError::RedisSlotsFull => "All Redis DB slots (1-15) are in use",
        }
    }
}

/// What switching a setting comes to: nothing, when it already has the
/// asked value; otherwise applying it (for the Redis cache, with the
/// database number to use).
#[derive(Debug, Clone, Copy, PartialEq, Eq, Structural)]
pub enum ToggleOutcome {
    Unchanged,
    Apply(i32),
}

/// Switching the FastCGI cache: only PHP sites have one.
pub fn fastcgi_toggle(runtime: &str, current: bool, enabled: bool) -> (r: Result<ToggleOutcome, CacheError>)
    ensures
        runtime@ != "php"@ ==> r == Err::<ToggleOutcome, CacheError>(CacheError::FastcgiNotPhp),
        runtime@ == "php"@ && enabled == current ==> r == Ok::<ToggleOutcome, CacheError>(ToggleOutcome::Unchanged),
        runtime@ == "php"@ && enabled != current ==> r == Ok::<ToggleOutcome, CacheError>(ToggleOutcome::Apply(0)),
{
    if !str_eq(runtime, "php") {
        return Err(CacheError::FastcgiNotPhp);
    }
    if enabled == current {
        Ok(ToggleOutcome::Unchanged)
    } else {
        Ok(ToggleOutcome::Apply(0))
    }
}

/// Switching the Redis object cache: only PHP sites have one; enabling it
/// takes the lowest free database from 1 to 15 (`used` holds those of the
/// other sites with the cache on), disabling it sets the database to 0.
pub fn redis_toggle(runtime: &str, current: bool, enabled: bool, used: &Vec<i32>) -> (r: Result<ToggleOutcome, CacheError>)
    ensures
        runtime@ != "php"@ ==> r == Err::<ToggleOutcome, CacheError>(CacheError::RedisNotPhp),
        runtime@ == "php"@ && enabled == current ==> r == Ok::<ToggleOutcome, CacheError>(ToggleOutcome::Unchanged),
        runtime@ == "php"@ && enabled != current && !enabled ==> r == Ok::<ToggleOutcome, CacheError>(ToggleOutcome::Apply(0)),
        runtime@ == "php"@ && enabled != current && enabled ==> match r {
            Ok(ToggleOutcome::Apply(n)) => 1 <= n <= 15 && !used@.contains(n) && redis_dbs_taken_below(used@, n as int),
            Err(e) => e == CacheError::RedisSlotsFull && redis_dbs_taken_below(used@, 16),
            _ => false,
        },
{
    if !str_eq(runtime, "php") {
        return Err(CacheError::RedisNotPhp);
    }
    if enabled == current {
        return Ok(ToggleOutcome::Unchanged);
    }
    if !enabled {
        return Ok(ToggleOutcome::Apply(0));
    }
    match free_redis_db(used) {
        Some(n) => Ok(ToggleOutcome::Apply(n)),
        None => Err(CacheError::RedisSlotsFull),
    }
}

/// The reply when a setting already had the asked value.
pub fn already_message(feature: &str, enabled: bool) -> (s: String)
    ensures
        s@ == feature@ + (if enabled { " is already enabled"@ } else { " is already disabled"@ }),
{
    let mut s = String::from_str(feature);
    if enabled {
        s.append(" is already enabled");
    } else {
        s.append(" is already disabled");
    }
    s
}

// ─── Renaming a site ───────────────────────────────────────────

/// Why a site cannot be renamed to a domain.
#[derive(Debug, Clone, Copy, PartialEq, Eq, Structural)]
pub enum RenameError {
    InvalidDomain,
    SameDomain,
}

impl RenameError {
    pub fn message(&self) -> (m: &'static str)
        ensures
            m@ == match self {
                RenameError::InvalidDomain => "Invalid domain format"@,
                RenameError::SameDomain => "New domain is the same as current domain"@,
            },
    {
        match self {
            RenameError::InvalidDomain => "Invalid domain format",
            RenameError::SameDomain => "New domain is the same as current domain",
        }
    }
}

/// The domain a site is renamed to, trimmed; refused when it is not a
/// valid domain or is the current one.
pub fn check_rename(new_domain: &str, current: &str) -> (r: Result<String, RenameError>)
    ensures
        !is_domain(trimmed(new_domain@)) ==> r == Err::<String, RenameError>(RenameError::InvalidDomain),
        is_domain(trimmed(new_domain@)) && trimmed(new_domain@) == current@
            ==> r == Err::<String, RenameError>(RenameError::SameDomain),
        is_domain(trimmed(new_domain@)) && trimmed(new_domain@) != current@
            ==> (r matches Ok(d) && d@ == trimmed(new_domain@)),
{
    let cs = chars_of(new_domain);
    let t = trim(cs.as_slice());
    let d = string_from_chars(t.as_slice());
    if !is_valid_domain(d.as_str()) {
        return Err(RenameError::InvalidDomain);
    }
    if str_eq(d.as_str(), current) {
        return Err(RenameError::SameDomain);
    }
    Ok(d)
}

/// The URL a site's health is checked at: HTTPS when it has a certificate.
pub fn health_url(domain: &str, ssl_enabled: bool) -> (u: String)
    ensures
        u@ == (if ssl_enabled { "https://"@ } else { "http://"@ }) + domain@,
{
    let mut u = if ssl_enabled { String::from_str("https://") } else { String::from_str("http://") };
    u.append(domain);
    u
}

// ─── Health score ──────────────────────────────────────────────

/// Points lost for TLS: 25 without a certificate or with an expired one,
/// 15 when it expires within a week, 5 within a month.
pub open spec fn ssl_penalty(ssl_enabled: bool, days_left: Option<i64>) -> int {
    if !ssl_enabled {
        25
    } else {
        match days_left {
            Some(d) => if d < 0 { 25 } else if d < 7 { 15 } else if d < 30 { 5 } else { 0 },
            None => 0,
        }
    }
}

/// Points lost for backups: 30 without any, 20 when the last is older
/// than two days, 10 when older than one.
pub open spec fn backup_penalty(hours_since: Option<i64>) -> int {
    match hours_since {
        None => 30,
        Some(h) => if h > 48 { 20 } else if h > 24 { 10 } else { 0 },
    }
}

/// Points lost for uptime: 20 when the monitor is down, up to 15 for a
/// slow response, 5 without an enabled monitor.
pub open spec fn uptime_penalty(status: Option<Seq<char>>, response_ms: Option<i32>, enabled: bool) -> int {
    (if status == Some("down"@) { 20int } else { 0int })
    + match response_ms {
        Some(rt) => if rt > 5000 { 15int } else if rt > 2000 { 10int } else if rt > 1000 { 5int } else { 0int },
        None => 0int,
    }
    + (if status is None || !enabled { 5int } else { 0int })
}

/// The composite health score of a site: 100 minus the penalties, at
/// least 0.
pub open spec fn health_score_of(
    ssl_enabled: bool,
    ssl_days_left: Option<i64>,
    backup_hours: Option<i64>,
    monitor_status: Option<Seq<char>>,
    response_ms: Option<i32>,
    monitor_enabled: bool,
) -> int {
    let s = 100 - ssl_penalty(ssl_enabled, ssl_days_left) - backup_penalty(backup_hours)
        - uptime_penalty(monitor_status, response_ms, monitor_enabled);
    if s < 0 { 0 } else { s }
}

/// Computes the composite health score of a site, which lies in 0..=100.
pub fn health_score(
    ssl_enabled: bool,
    ssl_days_left: Option<i64>,
    backup_hours: Option<i64>,
    monitor_status: &Option<String>,
    response_ms: Option<i32>,
    monitor_enabled: bool,
) -> (score: i32)
    ensures
        score == health_score_of(ssl_enabled, ssl_days_left, backup_hours, monitor_status.deep_view(), response_ms, monitor_enabled),
        0 <= score <= 100,
{
    let mut score: i32 = 100;
    if !ssl_enabled {
        score -= 25;
    } else if let Some(days) = ssl_days_left {
        if days < 0 {
            score -= 25;
        } else if days < 7 {
            score -= 15;
        } else if days < 30 {
            score -= 5;
        }
    }
    match backup_hours {
        None => score -= 30,
        Some(h) => {
            if h > 48 {
                score -= 20;
            } else if h > 24 {
                score -= 10;
            }
        },
    }
    let down = match monitor_status {
        Some(s) => str_eq(s.as_str(), "down"),
        None => false,
    };
    if down {
        score -= 20;
    }
    if let Some(rt) = response_ms {
        if rt > 5000 {
            score -= 15;
        } else if rt > 2000 {
            score -= 10;
        } else if rt > 1000 {
            score -= 5;
        }
    }
    if monitor_status.is_none() || !monitor_enabled {
        score -= 5;
    }
    if score < 0 {
        score = 0;
    }
    score
}

} // verus!

verus! {

// ─── One-click installs ────────────────────────────────────────

/// The applications a new site can have installed.
pub open spec fn is_installable(cms: Seq<char>) -> bool {
    cms == "wordpress"@ || cms == "laravel"@ || cms == "drupal"@ || cms == "joomla"@
        || cms == "symfony"@ || cms == "codeigniter"@
}

/// The applications that get a MySQL database (all but Symfony).
pub open spec fn needs_database(cms: Seq<char>) -> bool {
    cms == "wordpress"@ || cms == "laravel"@ || cms == "drupal"@ || cms == "joomla"@
        || cms == "codeigniter"@
}

pub open spec fn cms_label_of(cms: Seq<char>) -> Seq<char> {
    if cms == "wordpress"@ { "WordPress"@ }
    else if cms == "laravel"@ { "Laravel"@ }
    else if cms == "drupal"@ { "Drupal"@ }
    else if cms == "joomla"@ { "Joomla"@ }
    else if cms == "symfony"@ { "Symfony"@ }
    else if cms == "codeigniter"@ { "CodeIgniter"@ }
    else { cms }
}

/// The database name of a site: its domain with `.` and `-` made `_`.
pub open spec fn db_name_of(domain: Seq<char>) -> Seq<char> {
    domain.map_values(|c: char| if c == '.' || c == '-' { '_' } else { c })
}

/// What installing an application on a new site takes.
pub struct CmsPlan {
    pub cms: String,
    pub label: String,
    pub needs_db: bool,
    pub title: String,
    pub admin_email: String,
    pub admin_user: String,
    pub admin_password: String,
    pub db_name: String,
    pub db_password: String,
}

fn installable(c: &str) -> (b: bool)
    ensures
        b == is_installable(c@),
{
    str_eq(c, "wordpress") || str_eq(c, "laravel") || str_eq(c, "drupal") || str_eq(c, "joomla")
        || str_eq(c, "symfony") || str_eq(c, "codeigniter")
}

fn cms_label(c: &str) -> (s: String)
    ensures
        s@ == cms_label_of(c@),
{
    if str_eq(c, "wordpress") { String::from_str("WordPress") }
    else if str_eq(c, "laravel") { String::from_str("Laravel") }
    else if str_eq(c, "drupal") { String::from_str("Drupal") }
    else if str_eq(c, "joomla") { String::from_str("Joomla") }
    else if str_eq(c, "symfony") { String::from_str("Symfony") }
    else if str_eq(c, "codeigniter") { String::from_str("CodeIgniter") }
    else { String::from_str(c) }
}

/// The database name derived from a domain.
pub fn db_name(domain: &str) -> (s: String)
    ensures
        s@ == db_name_of(domain@),
{
    let cs = chars_of(domain);
    let mut out: Vec<char> = Vec::new();
    let mut i: usize = 0;
    while i < cs.len()
        invariant
            cs@ == domain@,
            i <= cs@.len(),
            out@ == db_name_of(cs@.take(i as int)),
        decreases cs@.len() - i,
    {
        let c = cs[i];
        out.push(if c == '.' || c == '-' { '_' } else { c });
        assert(cs@.take(i + 1) =~= cs@.take(i as int).push(c));
        assert(out@ =~= db_name_of(cs@.take(i + 1)));
        i = i + 1;
    }
    assert(cs@.take(cs@.len() as int) =~= cs@);
    string_from_chars(out.as_slice())
}

fn or_default(v: &Option<String>, d: &str) -> (s: String)
    ensures
        s@ == match v { Some(x) => x@, None => d@ },
{
    match v {
        Some(x) => String::from_str(x.as_str()),
        None => String::from_str(d),
    }
}

/// The install that a new site asks for, if any: `None` unless its
/// `cms` is one of the installable applications. The title defaults to
/// the domain, the admin to `admin` at `admin@example.com`, the admin
/// password to 16 random letters and digits; the database password is
/// 20 random letters and digits.
pub fn cms_plan(req: &crate::sites::CreateSiteRequest) -> (r: Option<CmsPlan>)
    ensures
        r is None <==> !(req.cms matches Some(c) && is_installable(c@)),
        r matches Some(p) ==> {
            &&& req.cms matches Some(c) && p.cms@ == c@
            &&& p.label@ == cms_label_of(p.cms@)
            &&& p.needs_db == needs_database(p.cms@)
            &&& p.title@ == match req.site_title { Some(t) => t@, None => req.domain@ }
            &&& p.admin_email@ == match req.admin_email { Some(e) => e@, None => "admin@example.com"@ }
            &&& p.admin_user@ == match req.admin_user { Some(u) => u@, None => "admin"@ }
            &&& match req.admin_password {
                Some(pw) => p.admin_password@ == pw@,
                None => p.admin_password@.len() == 16
                    && forall|i: int| 0 <= i < 16 ==> crate::text::is_ascii_alnum(#[trigger] p.admin_password@[i]),
            }
            &&& p.db_name@ == db_name_of(req.domain@)
            &&& p.db_password@.len() == 20
            &&& forall|i: int| 0 <= i < 20 ==> crate::text::is_ascii_alnum(#[trigger] p.db_password@[i])
        },
{
    let c = match &req.cms {
        Some(c) => c,
        None => return None,
    };
    if !installable(c.as_str()) {
        return None;
    }
    let admin_password = match &req.admin_password {
        Some(pw) => String::from_str(pw.as_str()),
        None => crate::crypto::random_alphanumeric(16),
    };
    Some(CmsPlan {
        cms: String::from_str(c.as_str()),
        label: cms_label(c.as_str()),
        needs_db: str_eq(c.as_str(), "wordpress") || str_eq(c.as_str(), "laravel")
            || str_eq(c.as_str(), "drupal") || str_eq(c.as_str(), "joomla")
            || str_eq(c.as_str(), "codeigniter"),
        title: or_default(&req.site_title, req.domain.as_str()),
        admin_email: or_default(&req.admin_email, "admin@example.com"),
        admin_user: or_default(&req.admin_user, "admin"),
        admin_password,
        db_name: db_name(req.domain.as_str()),
        db_password: crate::crypto::random_alphanumeric(20),
    })
}

/// An accepted redirect goes from a path to a URL or a path, and neither
/// side holds a char the web server's configuration or a shell would
/// interpret.
pub proof fn law_accepted_redirect_is_plain(source: Seq<char>, target: Seq<char>)
    requires
        redirect_check(source, target) is Ok,
    ensures
        has_prefix(source, "/"@),
        has_prefix(target, "http://"@) || has_prefix(target, "https://"@) || has_prefix(target, "/"@),
        forall|i: int| 0 <= i < source.len() ==> !is_shell_meta(#[trigger] source[i]),
        forall|i: int| 0 <= i < target.len() ==> !is_shell_meta(#[trigger] target[i]),
{
}

} // verus!

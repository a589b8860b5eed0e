//! Panel settings: which keys may be set or imported, what a value must
//! look like, which values are secret, how branding is chosen, and how an
//! exported configuration is read back.

use vstd::prelude::*;

use crate::text::{chars_of, has_prefix, has_suffix, is_ascii_hex, str_eq, starts_with, ends_with};

verus! {

/// The keys the settings page may set.
pub open spec fn update_keys() -> Seq<Seq<char>> {
    seq![
        "panel_name"@, "smtp_host"@, "smtp_port"@, "smtp_username"@, "smtp_password"@,
        "smtp_from"@, "smtp_from_name"@, "smtp_encryption"@,
        "stripe_price_starter"@, "stripe_price_pro"@, "stripe_price_agency"@,
        "agent_latest_version"@, "agent_download_url"@, "agent_checksum"@,
        "pdns_api_url"@, "pdns_api_key"@,
        "auto_heal_enabled"@, "status_page_enabled"@, "enforce_2fa"@,
        "timezone"@, "logo_url"@, "accent_color"@,
        "email_footer"@, "events_webhook_url"@,
        "oauth_google_client_id"@, "oauth_google_client_secret"@,
        "oauth_github_client_id"@, "oauth_github_client_secret"@,
        "oauth_gitlab_client_id"@, "oauth_gitlab_client_secret"@,
        "oauth_auto_create"@, "hide_branding"@,
        "reverse_proxy"@,
        "notif_template_email"@, "notif_template_slack"@,
        "notif_template_discord"@, "notif_template_webhook"@,
        "telemetry_enabled"@, "telemetry_endpoint"@,
    ]
}

/// The keys an import may set: the same whitelist as the settings page.
pub open spec fn import_keys() -> Seq<Seq<char>> {
    update_keys()
}

fn key_list() -> (v: Vec<&'static str>)
    ensures
        v@.map_values(|s: &str| s@) == update_keys(),
{
    let v = vec![
        "panel_name", "smtp_host", "smtp_port", "smtp_username", "smtp_password",
        "smtp_from", "smtp_from_name", "smtp_encryption",
        "stripe_price_starter", "stripe_price_pro", "stripe_price_agency",
        "agent_latest_version", "agent_download_url", "agent_checksum",
        "pdns_api_url", "pdns_api_key",
        "auto_heal_enabled", "status_page_enabled", "enforce_2fa",
        "timezone", "logo_url", "accent_color",
        "email_footer", "events_webhook_url",
        "oauth_google_client_id", "oauth_google_client_secret",
        "oauth_github_client_id", "oauth_github_client_secret",
        "oauth_gitlab_client_id", "oauth_gitlab_client_secret",
        "oauth_auto_create", "hide_branding",
        "reverse_proxy",
        "notif_template_email", "notif_template_slack",
        "notif_template_discord", "notif_template_webhook",
        "telemetry_enabled", "telemetry_endpoint",
    ];
    assert(v@.map_values(|s: &str| s@) =~= update_keys());
    v
}

/// Whether `key` is among the first `n` keys of the settings page.
fn key_among(key: &str, n: usize) -> (b: bool)
    requires
        n <= 39,
    ensures
        b == update_keys().take(n as int).contains(key@),
{
    let keys = key_list();
    let ghost model = keys@.map_values(|s: &str| s@);
    assert(model.len() == update_keys().len());
    let mut i: usize = 0;
    while i < n
        invariant
            n <= 39,
            keys@.len() == 39,
            model == keys@.map_values(|s: &str| s@),
            model == update_keys(),
            i <= n,
            forall|j: int| 0 <= j < i ==> model[j] != key@,
        decreases n - i,
    {
        if str_eq(keys[i], key) {
            assert(update_keys().take(n as int)[i as int] == key@);
            return true;
        }
        i = i + 1;
    }
    assert forall|j: int| 0 <= j < n implies update_keys().take(n as int)[j] != key@ by {
        assert(update_keys().take(n as int)[j] == model[j]);
    }
    false
}

/// Whether the settings page may set a key.
pub fn is_update_key(key: &str) -> (b: bool)
    ensures
        b == update_keys().contains(key@),
{
    let b = key_among(key, 39);
    assert(update_keys().take(39) =~= update_keys());
    b
}

/// Whether an import may set a key.
pub fn is_import_key(key: &str) -> (b: bool)
    ensures
        b == import_keys().contains(key@),
{
    is_update_key(key)
}

/// Secret settings: stored encrypted and shown masked.
pub open spec fn is_secret_key(key: Seq<char>) -> bool {
    key == "smtp_password"@ || key == "pdns_api_key"@ || has_suffix(key, "_client_secret"@)
}

pub fn secret_key(key: &str) -> (b: bool)
    ensures
        b == is_secret_key(key@),
{
    let kc = chars_of(key);
    str_eq(key, "smtp_password") || str_eq(key, "pdns_api_key") || ends_with(kc.as_slice(), "_client_secret")
}

/// The keys whose stored value is shown masked.
pub open spec fn is_masked_key(key: Seq<char>) -> bool {
    key == "smtp_password"@ || key == "pdns_api_key"@ || key == "oauth_google_client_secret"@
        || key == "oauth_github_client_secret"@ || key == "oauth_gitlab_client_secret"@
}

/// How a stored setting is listed: a masked key with a value shows
/// `********`.
pub open spec fn listed_value_of(key: Seq<char>, value: Seq<char>) -> Seq<char> {
    if is_masked_key(key) && value.len() > 0 { "********"@ } else { value }
}

pub fn listed_value(key: &str, value: &str) -> (s: String)
    ensures
        s@ == listed_value_of(key@, value@),
{
    let masked = str_eq(key, "smtp_password") || str_eq(key, "pdns_api_key")
        || str_eq(key, "oauth_google_client_secret") || str_eq(key, "oauth_github_client_secret")
        || str_eq(key, "oauth_gitlab_client_secret");
    if masked && chars_of(value).len() > 0 {
        String::from_str("********")
    } else {
        String::from_str(value)
    }
}

/// Whether a stored setting goes into an export: secrets never do.
pub fn exportable_key(key: &str) -> (b: bool)
    ensures
        b == !(key@ == "smtp_password"@ || key@ == "pdns_api_key"@ || has_suffix(key@, "_client_secret"@)),
{
    !secret_key(key)
}

/// Why a settings change is refused.
#[derive(Debug, PartialEq, Eq)]
pub enum SettingsError {
    UnknownSetting(String),
    InvalidLogoUrl,
    InvalidAccentColor,
}

impl SettingsError {
    pub fn message(&self) -> (s: String)
        ensures
            match self {
                SettingsError::UnknownSetting(k) => s@ == "Unknown setting: "@ + k@,
                SettingsError::InvalidLogoUrl => s@ == "logo_url must be an HTTP(S) URL or relative path"@,
                SettingsError::InvalidAccentColor => s@ == "accent_color must be a valid hex color (#rrggbb), rgb(), or hsl()"@,
            },
    {
        match self {
            SettingsError::UnknownSetting(k) => crate::text::concat2("Unknown setting: ", k.as_str()),
            SettingsError::InvalidLogoUrl => String::from_str("logo_url must be an HTTP(S) URL or relative path"),
            SettingsError::InvalidAccentColor => String::from_str("accent_color must be a valid hex color (#rrggbb), rgb(), or hsl()"),
        }
    }
}

/// A logo is an http(s) URL, a path, or nothing.
pub open spec fn is_logo_url(u: Seq<char>) -> bool {
    u.len() == 0 || has_prefix(u, "https://"@) || has_prefix(u, "http://"@) || has_prefix(u, "/"@)
}

/// An accent colour: `#` and hex digits (at most 9 bytes), or something
/// starting `rgb` or `hsl`, or nothing.
pub open spec fn is_accent_color(c: Seq<char>) -> bool {
    c.len() == 0
    || (c.len() > 0 && c[0] == '#' && vstd::utf8::encode_utf8(c).len() <= 9
        && forall|i: int| 1 <= i < c.len() ==> is_ascii_hex(#[trigger] c[i]))
    || has_prefix(c, "rgb"@) || has_prefix(c, "hsl"@)
}

fn logo_ok(u: &str) -> (b: bool)
    ensures
        b == is_logo_url(u@),
{
    let c = chars_of(u);
    c.len() == 0 || starts_with(c.as_slice(), "https://") || starts_with(c.as_slice(), "http://")
        || starts_with(c.as_slice(), "/")
}

fn hex_after_first(c: &[char]) -> (b: bool)
    ensures
        b == forall|i: int| 1 <= i < c@.len() ==> is_ascii_hex(#[trigger] c@[i]),
{
    let mut i: usize = 1;
    while i < c.len()
        invariant
            1 <= i,
            i <= c@.len() || c@.len() == 0,
            forall|j: int| 1 <= j < i && j < c@.len() ==> is_ascii_hex(#[trigger] c@[j]),
        decreases c@.len() - i,
    {
        if !crate::text::ascii_hex(c[i]) {
            return false;
        }
        i = i + 1;
    }
    true
}

fn accent_ok(color: &str) -> (b: bool)
    ensures
        b == is_accent_color(color@),
{
    let c = chars_of(color);
    if c.len() == 0 {
        return true;
    }
    let hex = c[0] == '#' && color.as_bytes().len() <= 9 && hex_after_first(c.as_slice());
    hex || starts_with(c.as_slice(), "rgb") || starts_with(c.as_slice(), "hsl")
}

/// The first key in the given order that may not be set.
pub open spec fn first_unknown(keys: Seq<Seq<char>>) -> Option<Seq<char>>
    decreases keys.len(),
{
    if keys.len() == 0 {
        None
    } else if !update_keys().contains(keys[0]) {
        Some(keys[0])
    } else {
        first_unknown(keys.skip(1))
    }
}

/// The last value given for a key.
pub open spec fn value_for(entries: Seq<(Seq<char>, Seq<char>)>, key: Seq<char>) -> Option<Seq<char>>
    decreases entries.len(),
{
    if entries.len() == 0 {
        None
    } else if entries.last().0 == key {
        Some(entries.last().1)
    } else {
        value_for(entries.drop_last(), key)
    }
}

/// The checks on a settings change, in order: every key may be set (the
/// first one that may not is named), the logo and the accent colour are
/// well formed.
pub open spec fn settings_check(entries: Seq<(Seq<char>, Seq<char>)>) -> Result<(), Seq<char>> {
    match first_unknown(entries.map_values(|e: (Seq<char>, Seq<char>)| e.0)) {
        Some(k) => Err("unknown:"@ + k),
        None => if value_for(entries, "logo_url"@) matches Some(u) && !is_logo_url(u) {
            Err("logo"@)
        } else if value_for(entries, "accent_color"@) matches Some(c) && !is_accent_color(c) {
            Err("accent"@)
        } else {
            Ok(())
        },
    }
}

pub open spec fn error_tag(e: SettingsError) -> Seq<char> {
    match e {
        SettingsError::UnknownSetting(k) => "unknown:"@ + k@,
        SettingsError::InvalidLogoUrl => "logo"@,
        SettingsError::InvalidAccentColor => "accent"@,
    }
}

fn find_value(entries: &Vec<(String, String)>, key: &str) -> (r: Option<String>)
    ensures
        r.deep_view() == value_for(entries@.map_values(|e: (String, String)| (e.0@, e.1@)), key@),
{
    let ghost model = entries@.map_values(|e: (String, String)| (e.0@, e.1@));
    let mut found: Option<String> = None;
    let mut i: usize = 0;
    while i < entries.len()
        invariant
            i <= entries@.len(),
            model == entries@.map_values(|e: (String, String)| (e.0@, e.1@)),
            found.deep_view() == value_for(model.take(i as int), key@),
        decreases entries@.len() - i,
    {
        assert(model.take(i + 1).drop_last() =~= model.take(i as int));
        assert(model.take(i + 1).last() == (entries@[i as int].0@, entries@[i as int].1@));
        if str_eq(entries[i].0.as_str(), key) {
            found = Some(String::from_str(entries[i].1.as_str()));
        }
        i = i + 1;
    }
    assert(model.take(i as int) =~= model);
    found
}

/// Checks a settings change given as its entries (in the order the
/// request's map gave them).
pub fn check_settings(entries: &Vec<(String, String)>) -> (r: Result<(), SettingsError>)
    ensures
        match r {
            Ok(_) => settings_check(entries@.map_values(|e: (String, String)| (e.0@, e.1@))) is Ok,
            Err(e) => settings_check(entries@.map_values(|e: (String, String)| (e.0@, e.1@))) == Err::<(), Seq<char>>(error_tag(e)),
        },
{
    let ghost model = entries@.map_values(|e: (String, String)| (e.0@, e.1@));
    let ghost keys = model.map_values(|e: (Seq<char>, Seq<char>)| e.0);
    let mut i: usize = 0;
    assert(keys.skip(0) =~= keys);
    while i < entries.len()
        invariant
            i <= entries@.len(),
            model == entries@.map_values(|e: (String, String)| (e.0@, e.1@)),
            keys == model.map_values(|e: (Seq<char>, Seq<char>)| e.0),
            first_unknown(keys.skip(i as int)) == first_unknown(keys),
        decreases entries@.len() - i,
    {
        assert(keys.skip(i as int)[0] == entries@[i as int].0@);
        assert(keys.skip(i as int).skip(1) =~= keys.skip(i + 1));
        if !is_update_key(entries[i].0.as_str()) {
            let k = String::from_str(entries[i].0.as_str());
            return Err(SettingsError::UnknownSetting(k));
        }
        i = i + 1;
    }
    if let Some(u) = find_value(entries, "logo_url") {
        if !logo_ok(u.as_str()) {
            return Err(SettingsError::InvalidLogoUrl);
        }
    }
    if let Some(c) = find_value(entries, "accent_color") {
        if !accent_ok(c.as_str()) {
            return Err(SettingsError::InvalidAccentColor);
        }
    }
    Ok(())
}

/// What becomes of one entry of a settings change: a secret given as the
/// mask is left alone; a non-empty secret is stored encrypted; anything
/// else is stored as given.
#[derive(Debug, Clone, Copy, PartialEq, Eq, Structural)]
pub enum SettingWrite {
    Skip,
    Plain,
    Encrypted,
}

pub open spec fn setting_write_of(key: Seq<char>, value: Seq<char>) -> SettingWrite {
    if is_secret_key(key) && value == "********"@ {
        SettingWrite::Skip
    } else if is_secret_key(key) && value.len() > 0 {
        SettingWrite::Encrypted
    } else {
        SettingWrite::Plain
    }
}

pub fn setting_write(key: &str, value: &str) -> (w: SettingWrite)
    ensures
        w == setting_write_of(key@, value@),
{
    let secret = secret_key(key);
    if secret && str_eq(value, "********") {
        SettingWrite::Skip
    } else if secret && chars_of(value).len() > 0 {
        SettingWrite::Encrypted
    } else {
        SettingWrite::Plain
    }
}

/// The mail settings; a change to any of them reconfigures the agent.
pub open spec fn is_smtp_key(k: Seq<char>) -> bool {
    k == "smtp_host"@ || k == "smtp_port"@ || k == "smtp_username"@ || k == "smtp_password"@
        || k == "smtp_from"@ || k == "smtp_from_name"@ || k == "smtp_encryption"@
}

pub fn touches_smtp(entries: &Vec<(String, String)>) -> (b: bool)
    ensures
        b == exists|i: int| 0 <= i < entries@.len() && is_smtp_key(#[trigger] entries@[i].0@),
{
    let mut i: usize = 0;
    while i < entries.len()
        invariant
            i <= entries@.len(),
            forall|j: int| 0 <= j < i ==> !is_smtp_key(#[trigger] entries@[j].0@),
        decreases entries@.len() - i,
    {
        let k = entries[i].0.as_str();
        if str_eq(k, "smtp_host") || str_eq(k, "smtp_port") || str_eq(k, "smtp_username")
            || str_eq(k, "smtp_password") || str_eq(k, "smtp_from") || str_eq(k, "smtp_from_name")
            || str_eq(k, "smtp_encryption") {
            return true;
        }
        i = i + 1;
    }
    false
}

/// The last stored value of a setting, from the setting rows.
pub fn row_value(rows: &Vec<(String, String)>, key: &str) -> (r: Option<String>)
    ensures
        r.deep_view() == value_for(rows@.map_values(|e: (String, String)| (e.0@, e.1@)), key@),
{
    find_value(rows, key)
}

fn value_or(rows: &Vec<(String, String)>, key: &str, d: &str) -> (s: String)
    ensures
        s@ == match value_for(rows@.map_values(|e: (String, String)| (e.0@, e.1@)), key@) { Some(v) => v, None => d@ },
{
    match find_value(rows, key) {
        Some(v) => v,
        None => String::from_str(d),
    }
}

/// `str::parse::<u16>`: an optional `+` and ASCII digits, in range.
pub open spec fn parsed_u16(s: Seq<char>) -> Option<u16> {
    if s.len() > 0 && s[0] == '-' {
        None
    } else {
        match crate::text::int_text_value(s) {
            Some(v) => if 0 <= v <= 65535 { Some(v as u16) } else { None },
            None => None,
        }
    }
}

fn parse_port(s: &str) -> (r: Option<u16>)
    ensures
        r == parsed_u16(s@),
{
    let c = chars_of(s);
    if c.len() > 0 && c[0] == '-' {
        return None;
    }
    match crate::text::parse_i64(s) {
        Some(v) => if 0 <= v && v <= 65535 { Some(v as u16) } else { None },
        None => None,
    }
}

/// The mail server configuration sent to the agent.
pub struct SmtpConfig {
    pub host: String,
    pub port: u16,
    pub username: String,
    pub password: String,
    pub from: String,
    pub from_name: String,
    pub encryption: String,
}

/// The mail server configuration from the stored mail settings: none
/// without a host; the port 587 unless a valid one is stored; the sender
/// name `Arcpanel` and the encryption `starttls` unless stored. The
/// password is the stored (encrypted) value.
pub fn smtp_config(rows: &Vec<(String, String)>) -> (r: Option<SmtpConfig>)
    ensures
        ({
            let m = rows@.map_values(|e: (String, String)| (e.0@, e.1@));
            let host = match value_for(m, "smtp_host"@) { Some(v) => v, None => Seq::empty() };
            if host.len() == 0 {
                r is None
            } else {
                r matches Some(c) && c.host@ == host
                    && c.port == match parsed_u16(match value_for(m, "smtp_port"@) { Some(v) => v, None => "587"@ }) { Some(p) => p, None => 587u16 }
                    && c.username@ == match value_for(m, "smtp_username"@) { Some(v) => v, None => Seq::empty() }
                    && c.password@ == match value_for(m, "smtp_password"@) { Some(v) => v, None => Seq::empty() }
                    && c.from@ == match value_for(m, "smtp_from"@) { Some(v) => v, None => Seq::empty() }
                    && c.from_name@ == match value_for(m, "smtp_from_name"@) { Some(v) => v, None => "Arcpanel"@ }
                    && c.encryption@ == match value_for(m, "smtp_encryption"@) { Some(v) => v, None => "starttls"@ }
            }
        }),
{
    proof {
        reveal_strlit("");
    }
    let host = value_or(rows, "smtp_host", "");
    if chars_of(host.as_str()).len() == 0 {
        return None;
    }
    let port_text = value_or(rows, "smtp_port", "587");
    let port = match parse_port(port_text.as_str()) {
        Some(p) => p,
        None => 587,
    };
    Some(SmtpConfig {
        host,
        port,
        username: value_or(rows, "smtp_username", ""),
        password: value_or(rows, "smtp_password", ""),
        from: value_or(rows, "smtp_from", ""),
        from_name: value_or(rows, "smtp_from_name", "Arcpanel"),
        encryption: value_or(rows, "smtp_encryption", "starttls"),
    })
}

/// Why a test message cannot be sent.
#[derive(Debug, Clone, Copy, PartialEq, Eq, Structural)]
pub enum TestSendError {
    InvalidRecipient,
    SmtpNotConfigured,
    UrlRequired,
    InvalidWebhookUrl,
}

impl TestSendError {
    pub fn message(&self) -> (m: &'static str)
        ensures
            m@ == match self {
                TestSendError::InvalidRecipient => "Valid email address required"@,
                TestSendError::SmtpNotConfigured => "SMTP not configured — save SMTP settings first"@,
                TestSendError::UrlRequired => "URL required"@,
                TestSendError::InvalidWebhookUrl => "Invalid webhook URL"@,
            },
    {
        match self {
            TestSendError::InvalidRecipient => "Valid email address required",
            TestSendError::SmtpNotConfigured => "SMTP not configured — save SMTP settings first",
            TestSendError::UrlRequired => "URL required",
            TestSendError::InvalidWebhookUrl => "Invalid webhook URL",
        }
    }
}

/// A test mail goes to the given address (the administrator's own by
/// default), which needs an `@`, from the stored sender, which must be
/// set. The result is the recipient, the sender and the sender's name.
pub fn plan_test_email(to: Option<&str>, admin_email: &str, rows: &Vec<(String, String)>) -> (r: Result<(String, String, String), TestSendError>)
    ensures
        ({
            let m = rows@.map_values(|e: (String, String)| (e.0@, e.1@));
            let recipient = match to { Some(t) => t@, None => admin_email@ };
            let from = match value_for(m, "smtp_from"@) { Some(v) => v, None => Seq::empty() };
            if recipient.len() == 0 || !recipient.contains('@') {
                r == Err::<(String, String, String), TestSendError>(TestSendError::InvalidRecipient)
            } else if from.len() == 0 {
                r == Err::<(String, String, String), TestSendError>(TestSendError::SmtpNotConfigured)
            } else {
                r matches Ok((t, f, n)) && t@ == recipient && f@ == from
                    && n@ == match value_for(m, "smtp_from_name"@) { Some(v) => v, None => "Arcpanel"@ }
            }
        }),
{
    proof {
        reveal_strlit("");
    }
    let recipient = match to {
        Some(t) => String::from_str(t),
        None => String::from_str(admin_email),
    };
    let rc = chars_of(recipient.as_str());
    if rc.len() == 0 || !crate::text::has_char(rc.as_slice(), '@') {
        return Err(TestSendError::InvalidRecipient);
    }
    let from = value_or(rows, "smtp_from", "");
    if chars_of(from.as_str()).len() == 0 {
        return Err(TestSendError::SmtpNotConfigured);
    }
    let name = value_or(rows, "smtp_from_name", "Arcpanel");
    Ok((recipient, from, name))
}

/// A test notification: the URL must be given and be an https URL; the
/// service defaults to `webhook`. The result is the payload's key and
/// text, and the reply once it was sent.
pub fn plan_test_webhook(url: Option<&str>, service: Option<&str>) -> (r: Result<(&'static str, &'static str, String), TestSendError>)
    ensures
        url is None ==> r == Err::<(&'static str, &'static str, String), TestSendError>(TestSendError::UrlRequired),
        url matches Some(u) && !has_prefix(u@, "https://"@)
            ==> r == Err::<(&'static str, &'static str, String), TestSendError>(TestSendError::InvalidWebhookUrl),
        url matches Some(u) && has_prefix(u@, "https://"@) ==> (r matches Ok((k, t, reply)) && {
            let svc = match service { Some(s) => s@, None => "webhook"@ };
            &&& k@ == (if svc == "slack"@ { "text"@ } else { "content"@ })
            &&& t@ == (if svc == "slack"@ { "Arcpanel test notification — your Slack webhook is working!"@ }
                else { "Arcpanel test notification — your Discord webhook is working!"@ })
            &&& reply@ == svc + " test sent"@
        }),
{
    let u = match url {
        Some(u) => u,
        None => return Err(TestSendError::UrlRequired),
    };
    let uc = chars_of(u);
    if !starts_with(uc.as_slice(), "https://") {
        return Err(TestSendError::InvalidWebhookUrl);
    }
    let svc = match service {
        Some(s) => s,
        None => "webhook",
    };
    let reply = crate::text::concat2(svc, " test sent");
    if str_eq(svc, "slack") {
        Ok(("text", "Arcpanel test notification — your Slack webhook is working!", reply))
    } else {
        Ok(("content", "Arcpanel test notification — your Discord webhook is working!", reply))
    }
}

// ─── Branding ──────────────────────────────────────────────────

/// The sign-in provider a configured client-id setting names:
/// `oauth_NAME_client_id` gives `NAME`.
pub open spec fn oauth_provider_of(key: Seq<char>) -> Option<Seq<char>> {
    if has_prefix(key, "oauth_"@) && has_suffix(key.skip(6), "_client_id"@) {
        Some(key.skip(6).take(key.len() - 16))
    } else {
        None
    }
}

fn oauth_provider(key: &str) -> (r: Option<String>)
    ensures
        r.deep_view() == oauth_provider_of(key@),
{
    let k = chars_of(key);
    proof {
        reveal_strlit("oauth_");
        reveal_strlit("_client_id");
    }
    if !starts_with(k.as_slice(), "oauth_") {
        return None;
    }
    let mut rest: Vec<char> = Vec::new();
    let mut i: usize = 6;
    while i < k.len()
        invariant
            k@ == key@,
            6 <= k@.len(),
            6 <= i <= k@.len(),
            rest@ == k@.subrange(6, i as int),
        decreases k@.len() - i,
    {
        rest.push(k[i]);
        assert(rest@ =~= k@.subrange(6, i + 1));
        i = i + 1;
    }
    assert(rest@ =~= k@.skip(6));
    if !ends_with(rest.as_slice(), "_client_id") {
        return None;
    }
    rest.truncate(rest.len() - 10);
    assert(rest@ =~= k@.skip(6).take(k@.len() - 16));
    Some(crate::text::string_from_chars(rest.as_slice()))
}

/// The sign-in providers among the configured client ids, in order.
pub open spec fn oauth_providers_of(keys: Seq<Seq<char>>) -> Seq<Seq<char>>
    decreases keys.len(),
{
    if keys.len() == 0 {
        Seq::empty()
    } else {
        let p = oauth_providers_of(keys.drop_last());
        match oauth_provider_of(keys.last()) {
            Some(n) => p.push(n),
            None => p,
        }
    }
}

pub fn oauth_providers(keys: &Vec<String>) -> (v: Vec<String>)
    ensures
        v@.map_values(|s: String| s@) == oauth_providers_of(keys@.map_values(|s: String| s@)),
{
    let ghost model = keys@.map_values(|s: String| s@);
    let mut v: Vec<String> = Vec::new();
    let mut i: usize = 0;
    while i < keys.len()
        invariant
            i <= keys@.len(),
            model == keys@.map_values(|s: String| s@),
            v@.map_values(|s: String| s@) == oauth_providers_of(model.take(i as int)),
        decreases keys@.len() - i,
    {
        assert(model.take(i + 1).drop_last() =~= model.take(i as int));
        assert(model.take(i + 1).last() == keys@[i as int]@);
        let ghost before = v@.map_values(|s: String| s@);
        if let Some(p) = oauth_provider(keys[i].as_str()) {
            v.push(p);
            assert(v@.map_values(|s: String| s@) =~= before.push(v@.last()@));
        }
        i = i + 1;
    }
    assert(model.take(i as int) =~= model);
    v
}

/// The session token a request carries: the `Authorization` header's
/// bearer token, else the `token` cookie.
pub open spec fn cookie_token_of(pieces: Seq<Seq<char>>) -> Option<Seq<char>>
    decreases pieces.len(),
{
    if pieces.len() == 0 {
        None
    } else {
        let t = crate::text::trimmed(pieces[0]);
        if has_prefix(t, "token="@) { Some(t.skip(6)) } else { cookie_token_of(pieces.skip(1)) }
    }
}

pub open spec fn session_token_of(auth: Option<Seq<char>>, cookie: Option<Seq<char>>) -> Option<Seq<char>> {
    match auth {
        Some(h) if has_prefix(h, "Bearer "@) => Some(h.skip(7)),
        _ => match cookie {
            Some(c) => cookie_token_of(crate::text::split_at_char(c, ';')),
            None => None,
        },
    }
}

fn skip_chars(v: &[char], n: usize) -> (r: Vec<char>)
    requires
        n <= v@.len(),
    ensures
        r@ == v@.skip(n as int),
{
    let mut r: Vec<char> = Vec::new();
    let mut i: usize = n;
    while i < v.len()
        invariant
            n <= i <= v@.len(),
            r@ == v@.subrange(n as int, i as int),
        decreases v@.len() - i,
    {
        r.push(v[i]);
        assert(r@ =~= v@.subrange(n as int, i + 1));
        i = i + 1;
    }
    assert(r@ =~= v@.skip(n as int));
    r
}

pub fn session_token(auth: Option<&str>, cookie: Option<&str>) -> (r: Option<String>)
    ensures
        r.deep_view() == session_token_of(auth.deep_view(), cookie.deep_view()),
{
    proof {
        reveal_strlit("Bearer ");
        reveal_strlit("token=");
    }
    if let Some(h) = auth {
        let hc = chars_of(h);
        if starts_with(hc.as_slice(), "Bearer ") {
            let t = skip_chars(hc.as_slice(), 7);
            return Some(crate::text::string_from_chars(t.as_slice()));
        }
    }
    let c = match cookie {
        Some(c) => c,
        None => return None,
    };
    let cc = chars_of(c);
    let pieces = crate::text::split_char(cc.as_slice(), ';');
    let ghost model = pieces@.map_values(|v: Vec<char>| v@);
    let mut i: usize = 0;
    assert(model.skip(0) =~= model);
    while i < pieces.len()
        invariant
            i <= pieces@.len(),
            model == pieces@.map_values(|v: Vec<char>| v@),
            model == crate::text::split_at_char(c@, ';'),
            cookie_token_of(model.skip(i as int)) == cookie_token_of(model),
            session_token_of(auth.deep_view(), cookie.deep_view()) == cookie_token_of(model),
        decreases pieces@.len() - i,
    {
        proof {
            reveal_strlit("token=");
        }
        assert(model.skip(i as int)[0] == pieces@[i as int]@);
        assert(model.skip(i as int).skip(1) =~= model.skip(i + 1));
        let t = crate::text::trim(pieces[i].as_slice());
        if starts_with(t.as_slice(), "token=") {
            let v = skip_chars(t.as_slice(), 6);
            return Some(crate::text::string_from_chars(v.as_slice()));
        }
        i = i + 1;
    }
    None
}

/// How the panel presents itself.
pub struct Branding {
    pub panel_name: String,
    pub logo_url: String,
    pub accent_color: String,
    pub hide_branding: bool,
}

/// The branding shown: a reseller's own, when the signed-in user belongs
/// to a reseller that set any of it (each unset part taken from the
/// panel's); the panel's otherwise (name `Arcpanel` by default, hidden
/// branding only when set to `true`).
pub fn branding_of(
    rows: &Vec<(String, String)>,
    reseller: Option<(Option<String>, Option<String>, Option<String>, bool)>,
) -> (b: Branding)
    ensures
        ({
            let m = rows@.map_values(|e: (String, String)| (e.0@, e.1@));
            let name = match value_for(m, "panel_name"@) { Some(v) => v, None => "Arcpanel"@ };
            let logo = match value_for(m, "logo_url"@) { Some(v) => v, None => Seq::empty() };
            let accent = match value_for(m, "accent_color"@) { Some(v) => v, None => Seq::empty() };
            let hide = value_for(m, "hide_branding"@) == Some("true"@);
            match reseller {
                Some((l, a, n, h)) if l is Some || a is Some || n is Some || h => {
                    &&& b.panel_name@ == match n { Some(x) => x@, None => name }
                    &&& b.logo_url@ == match l { Some(x) => x@, None => logo }
                    &&& b.accent_color@ == match a { Some(x) => x@, None => accent }
                    &&& b.hide_branding == h
                },
                _ => {
                    &&& b.panel_name@ == name
                    &&& b.logo_url@ == logo
                    &&& b.accent_color@ == accent
                    &&& b.hide_branding == hide
                },
            }
        }),
{
    proof {
        reveal_strlit("");
    }
    let name = value_or(rows, "panel_name", "Arcpanel");
    let logo = value_or(rows, "logo_url", "");
    let accent = value_or(rows, "accent_color", "");
    let hide = match find_value(rows, "hide_branding") {
        Some(v) => str_eq(v.as_str(), "true"),
        None => false,
    };
    match reseller {
        Some((l, a, n, h)) => {
            if l.is_some() || a.is_some() || n.is_some() || h {
                return Branding {
                    panel_name: match n { Some(x) => x, None => name },
                    logo_url: match l { Some(x) => x, None => logo },
                    accent_color: match a { Some(x) => x, None => accent },
                    hide_branding: h,
                };
            }
            Branding { panel_name: name, logo_url: logo, accent_color: accent, hide_branding: hide }
        },
        None => Branding { panel_name: name, logo_url: logo, accent_color: accent, hide_branding: hide },
    }
}

// ─── Importing an exported configuration ───────────────────────

/// One setting of an import: its key and, when the value is a text, the
/// value.
pub struct ImportedSetting {
    pub key: String,
    pub value: Option<String>,
}

/// A setting to store from an import, and whether it is stored encrypted.
pub struct SettingToStore {
    pub key: String,
    pub value: String,
    pub encrypt: bool,
}

/// The settings an import stores, in order: those it may set whose value
/// is a text (a non-empty secret encrypted); and how many it skipped for
/// their key.
pub open spec fn settings_import_of(entries: Seq<(Seq<char>, Option<Seq<char>>)>) -> (Seq<(Seq<char>, Seq<char>, bool)>, nat)
    decreases entries.len(),
{
    if entries.len() == 0 {
        (Seq::empty(), 0)
    } else {
        let p = settings_import_of(entries.drop_last());
        let (k, v) = entries.last();
        if !import_keys().contains(k) {
            (p.0, p.1 + 1)
        } else {
            match v {
                Some(x) => (p.0.push((k, x, is_secret_key(k) && x.len() > 0)), p.1),
                None => p,
            }
        }
    }
}

pub fn plan_settings_import(entries: &Vec<ImportedSetting>) -> (r: (Vec<SettingToStore>, u64))
    ensures
        ({
            let p = settings_import_of(entries@.map_values(|e: ImportedSetting| (e.key@, e.value.deep_view())));
            &&& r.0@.map_values(|s: SettingToStore| (s.key@, s.value@, s.encrypt)) == p.0
            &&& r.1 == p.1
        }),
{
    let ghost model = entries@.map_values(|e: ImportedSetting| (e.key@, e.value.deep_view()));
    let mut out: Vec<SettingToStore> = Vec::new();
    let mut skipped: u64 = 0;
    let mut i: usize = 0;
    while i < entries.len()
        invariant
            i <= entries@.len(),
            model == entries@.map_values(|e: ImportedSetting| (e.key@, e.value.deep_view())),
            out@.map_values(|s: SettingToStore| (s.key@, s.value@, s.encrypt)) == settings_import_of(model.take(i as int)).0,
            skipped == settings_import_of(model.take(i as int)).1,
            skipped <= i,
        decreases entries@.len() - i,
    {
        assert(model.take(i + 1).drop_last() =~= model.take(i as int));
        assert(model.take(i + 1).last() == (entries@[i as int].key@, entries@[i as int].value.deep_view()));
        let ghost before = out@.map_values(|s: SettingToStore| (s.key@, s.value@, s.encrypt));
        let e = &entries[i];
        if !is_import_key(e.key.as_str()) {
            skipped = skipped + 1;
        } else if let Some(v) = &e.value {
            let enc = secret_key(e.key.as_str()) && chars_of(v.as_str()).len() > 0;
            out.push(SettingToStore { key: String::from_str(e.key.as_str()), value: String::from_str(v.as_str()), encrypt: enc });
            assert(out@.map_values(|s: SettingToStore| (s.key@, s.value@, s.encrypt)) =~= before.push((e.key@, v@, enc)));
        }
        i = i + 1;
    }
    assert(model.take(i as int) =~= model);
    (out, skipped)
}

/// An import stores only keys an import may set, stores every non-empty
/// secret encrypted, and accounts for each entry at most once (stored,
/// skipped, or dropped for a value that is not a text).
pub proof fn law_import_keeps_to_known_keys(entries: Seq<(Seq<char>, Option<Seq<char>>)>)
    ensures
        ({
            let p = settings_import_of(entries);
            &&& forall|i: int| 0 <= i < p.0.len() ==> import_keys().contains(#[trigger] p.0[i].0)
            &&& forall|i: int| 0 <= i < p.0.len() ==> (is_secret_key(#[trigger] p.0[i].0) && p.0[i].1.len() > 0 ==> p.0[i].2)
            &&& p.0.len() + p.1 <= entries.len()
        }),
    decreases entries.len(),
{
    if entries.len() > 0 {
        law_import_keeps_to_known_keys(entries.drop_last());
    }
}

/// An alert rule as an import gives it: each field when present and of
/// the right kind, and the server id when it reads as a UUID.
pub struct ImportedAlertRule {
    pub server_id: Option<String>,
    pub cpu_threshold: Option<i64>,
    pub cpu_duration: Option<i64>,
    pub memory_threshold: Option<i64>,
    pub memory_duration: Option<i64>,
    pub disk_threshold: Option<i64>,
    pub alert_cpu: Option<bool>,
    pub alert_memory: Option<bool>,
    pub alert_disk: Option<bool>,
    pub alert_offline: Option<bool>,
    pub alert_backup_failure: Option<bool>,
    pub alert_ssl_expiry: Option<bool>,
    pub alert_service_health: Option<bool>,
    pub ssl_warning_days: Option<String>,
    pub notify_email: Option<bool>,
    pub cooldown_minutes: Option<i64>,
    pub muted_types: Option<String>,
}

/// An alert rule to store.
pub struct AlertRuleRow {
    /// The server's UUID as its 128-bit number.
    pub server_id: Option<u128>,
    pub cpu_threshold: i32,
    pub cpu_duration: i32,
    pub memory_threshold: i32,
    pub memory_duration: i32,
    pub disk_threshold: i32,
    pub alert_cpu: bool,
    pub alert_memory: bool,
    pub alert_disk: bool,
    pub alert_offline: bool,
    pub alert_backup_failure: bool,
    pub alert_ssl_expiry: bool,
    pub alert_service_health: bool,
    pub ssl_warning_days: String,
    pub notify_email: bool,
    pub cooldown_minutes: i32,
    pub muted_types: String,
}

/// A number from an import as a 32-bit column: its low 32 bits, as a
/// cast keeps them.
pub open spec fn low32(v: i64) -> i32 {
    v as i32
}

fn low32_exec(v: i64) -> (r: i32)
    ensures
        r == low32(v),
{
    #[verifier::truncate]
    (v as i32)
}

fn or_i32(v: Option<i64>, d: i64) -> (r: i32)
    ensures
        r == low32(match v { Some(x) => x, None => d }),
{
    low32_exec(match v { Some(x) => x, None => d })
}

fn text_or(v: &Option<String>, d: &str) -> (s: String)
    ensures
        s@ == match v { Some(x) => x@, None => d@ },
{
    match v {
        Some(x) => String::from_str(x.as_str()),
        None => String::from_str(d),
    }
}

/// An imported alert rule with its defaults: thresholds of 90 over 5
/// minutes, CPU, memory, disk and offline alerts and mail on, the others
/// off, a 14-day certificate warning and a 15-minute cooldown.
pub fn alert_rule_row(r: ImportedAlertRule) -> (row: AlertRuleRow)
    ensures
        row.server_id == match r.server_id { Some(t) => crate::crypto::uuid_value(t@), None => None },
        row.cpu_threshold == low32(match r.cpu_threshold { Some(x) => x, None => 90 }),
        row.cpu_duration == low32(match r.cpu_duration { Some(x) => x, None => 5 }),
        row.memory_threshold == low32(match r.memory_threshold { Some(x) => x, None => 90 }),
        row.memory_duration == low32(match r.memory_duration { Some(x) => x, None => 5 }),
        row.disk_threshold == low32(match r.disk_threshold { Some(x) => x, None => 90 }),
        row.alert_cpu == match r.alert_cpu { Some(b) => b, None => true },
        row.alert_memory == match r.alert_memory { Some(b) => b, None => true },
        row.alert_disk == match r.alert_disk { Some(b) => b, None => true },
        row.alert_offline == match r.alert_offline { Some(b) => b, None => true },
        row.alert_backup_failure == match r.alert_backup_failure { Some(b) => b, None => false },
        row.alert_ssl_expiry == match r.alert_ssl_expiry { Some(b) => b, None => false },
        row.alert_service_health == match r.alert_service_health { Some(b) => b, None => false },
        row.ssl_warning_days@ == match r.ssl_warning_days { Some(x) => x@, None => "14"@ },
        row.notify_email == match r.notify_email { Some(b) => b, None => true },
        row.cooldown_minutes == low32(match r.cooldown_minutes { Some(x) => x, None => 15 }),
        row.muted_types@ == match r.muted_types { Some(x) => x@, None => ""@ },
{
    AlertRuleRow {
        cpu_threshold: or_i32(r.cpu_threshold, 90),
        cpu_duration: or_i32(r.cpu_duration, 5),
        memory_threshold: or_i32(r.memory_threshold, 90),
        memory_duration: or_i32(r.memory_duration, 5),
        disk_threshold: or_i32(r.disk_threshold, 90),
        alert_cpu: match r.alert_cpu { Some(b) => b, None => true },
        alert_memory: match r.alert_memory { Some(b) => b, None => true },
        alert_disk: match r.alert_disk { Some(b) => b, None => true },
        alert_offline: match r.alert_offline { Some(b) => b, None => true },
        alert_backup_failure: match r.alert_backup_failure { Some(b) => b, None => false },
        alert_ssl_expiry: match r.alert_ssl_expiry { Some(b) => b, None => false },
        alert_service_health: match r.alert_service_health { Some(b) => b, None => false },
        ssl_warning_days: text_or(&r.ssl_warning_days, "14"),
        notify_email: match r.notify_email { Some(b) => b, None => true },
        cooldown_minutes: or_i32(r.cooldown_minutes, 15),
        muted_types: text_or(&r.muted_types, ""),
        server_id: match &r.server_id {
            Some(t) => crate::crypto::parse_uuid(t.as_str()),
            None => None,
        },
    }
}

/// A monitor as an import gives it.
pub struct ImportedMonitor {
    pub name: Option<String>,
    pub url: Option<String>,
    pub monitor_type: Option<String>,
    pub check_interval: Option<i64>,
    pub keyword: Option<String>,
}

/// A monitor to store.
pub struct MonitorRow {
    pub name: String,
    pub url: String,
    pub monitor_type: String,
    pub check_interval: i32,
    pub keyword: Option<String>,
}

/// An imported monitor is taken when it has a name and a URL; its type
/// defaults to `http`, its interval to 60 seconds.
pub fn monitor_row(m: &ImportedMonitor) -> (r: Option<MonitorRow>)
    ensures
        ({
            let name = match m.name { Some(x) => x@, None => Seq::empty() };
            let url = match m.url { Some(x) => x@, None => Seq::empty() };
            if name.len() == 0 || url.len() == 0 {
                r is None
            } else {
                r matches Some(row) && row.name@ == name && row.url@ == url
                    && row.monitor_type@ == match m.monitor_type { Some(x) => x@, None => "http"@ }
                    && row.check_interval == low32(match m.check_interval { Some(x) => x, None => 60 })
                    && row.keyword.deep_view() == m.keyword.deep_view()
            }
        }),
{
    proof {
        reveal_strlit("");
    }
    let name = text_or(&m.name, "");
    let url = text_or(&m.url, "");
    if chars_of(name.as_str()).len() == 0 || chars_of(url.as_str()).len() == 0 {
        return None;
    }
    Some(MonitorRow {
        name,
        url,
        monitor_type: text_or(&m.monitor_type, "http"),
        check_interval: or_i32(m.check_interval, 60),
        keyword: match &m.keyword {
            Some(k) => Some(String::from_str(k.as_str())),
            None => None,
        },
    })
}

/// A backup schedule as an import gives it.
pub struct ImportedSchedule {
    pub site_id: Option<String>,
    pub schedule: Option<String>,
    pub retention_count: Option<i64>,
    pub enabled: Option<bool>,
}

/// A backup schedule to store.
pub struct ScheduleRow {
    /// The site's UUID as its 128-bit number.
    pub site_id: u128,
    pub schedule: String,
    pub retention_count: i32,
    pub enabled: bool,
}

/// An imported schedule is taken when its site reads as a UUID; it runs
/// at 02:00 daily and keeps 7 backups unless given.
pub fn schedule_row(s: &ImportedSchedule) -> (r: Option<ScheduleRow>)
    ensures
        !(s.site_id matches Some(t) && crate::crypto::uuid_value(t@) is Some) ==> r is None,
        (s.site_id matches Some(t) && crate::crypto::uuid_value(t@) is Some) ==> (r matches Some(row)
            && Some(row.site_id) == crate::crypto::uuid_value(s.site_id->0@)
            && row.schedule@ == match s.schedule { Some(x) => x@, None => "0 2 * * *"@ }
            && row.retention_count == low32(match s.retention_count { Some(x) => x, None => 7 })
            && row.enabled == match s.enabled { Some(b) => b, None => true }),
{
    let schedule = text_or(&s.schedule, "0 2 * * *");
    let retention_count = or_i32(s.retention_count, 7);
    let enabled = match s.enabled { Some(b) => b, None => true };
    let id = match &s.site_id {
        Some(t) => crate::crypto::parse_uuid(t.as_str()),
        None => None,
    };
    match id {
        Some(id) => Some(ScheduleRow { site_id: id, schedule, retention_count, enabled }),
        None => None,
    }
}

/// A backup policy as an import gives it.
pub struct ImportedPolicy {
    pub name: Option<String>,
    pub schedule: Option<String>,
    pub backup_sites: Option<bool>,
    pub backup_databases: Option<bool>,
    pub backup_volumes: Option<bool>,
    pub retention_count: Option<i64>,
    pub encrypt: Option<bool>,
    pub verify_after_backup: Option<bool>,
}

/// A backup policy to store.
pub struct PolicyRow {
    pub name: String,
    pub schedule: String,
    pub backup_sites: bool,
    pub backup_databases: bool,
    pub backup_volumes: bool,
    pub retention_count: i32,
    pub encrypt: bool,
    pub verify_after_backup: bool,
}

/// An imported policy is taken when it has a name; it backs up sites and
/// databases at 02:00 daily and keeps 7 backups unless given.
pub fn policy_row(p: &ImportedPolicy) -> (r: Option<PolicyRow>)
    ensures
        ({
            let name = match p.name { Some(x) => x@, None => Seq::empty() };
            if name.len() == 0 {
                r is None
            } else {
                r matches Some(row) && row.name@ == name
                    && row.schedule@ == match p.schedule { Some(x) => x@, None => "0 2 * * *"@ }
                    && row.backup_sites == match p.backup_sites { Some(b) => b, None => true }
                    && row.backup_databases == match p.backup_databases { Some(b) => b, None => true }
                    && row.backup_volumes == match p.backup_volumes { Some(b) => b, None => false }
                    && row.retention_count == low32(match p.retention_count { Some(x) => x, None => 7 })
                    && row.encrypt == match p.encrypt { Some(b) => b, None => false }
                    && row.verify_after_backup == match p.verify_after_backup { Some(b) => b, None => false }
            }
        }),
{
    proof {
        reveal_strlit("");
    }
    let name = text_or(&p.name, "");
    if chars_of(name.as_str()).len() == 0 {
        return None;
    }
    Some(PolicyRow {
        name,
        schedule: text_or(&p.schedule, "0 2 * * *"),
        backup_sites: match p.backup_sites { Some(b) => b, None => true },
        backup_databases: match p.backup_databases { Some(b) => b, None => true },
        backup_volumes: match p.backup_volumes { Some(b) => b, None => false },
        retention_count: or_i32(p.retention_count, 7),
        encrypt: match p.encrypt { Some(b) => b, None => false },
        verify_after_backup: match p.verify_after_backup { Some(b) => b, None => false },
    })
}

proof fn lemma_update_key_secret_is_masked(k: Seq<char>)
    requires
        update_keys().contains(k),
        is_secret_key(k),
    ensures
        is_masked_key(k),
{
    reveal_strlit("panel_name");
    reveal_strlit("smtp_host");
    reveal_strlit("smtp_port");
    reveal_strlit("smtp_username");
    reveal_strlit("smtp_password");
    reveal_strlit("smtp_from");
    reveal_strlit("smtp_from_name");
    reveal_strlit("smtp_encryption");
    reveal_strlit("stripe_price_starter");
    reveal_strlit("stripe_price_pro");
    reveal_strlit("stripe_price_agency");
    reveal_strlit("agent_latest_version");
    reveal_strlit("agent_download_url");
    reveal_strlit("agent_checksum");
    reveal_strlit("pdns_api_url");
    reveal_strlit("pdns_api_key");
    reveal_strlit("auto_heal_enabled");
    reveal_strlit("status_page_enabled");
    reveal_strlit("enforce_2fa");
    reveal_strlit("timezone");
    reveal_strlit("logo_url");
    reveal_strlit("accent_color");
    reveal_strlit("email_footer");
    reveal_strlit("events_webhook_url");
    reveal_strlit("oauth_google_client_id");
    reveal_strlit("oauth_google_client_secret");
    reveal_strlit("oauth_github_client_id");
    reveal_strlit("oauth_github_client_secret");
    reveal_strlit("oauth_gitlab_client_id");
    reveal_strlit("oauth_gitlab_client_secret");
    reveal_strlit("oauth_auto_create");
    reveal_strlit("hide_branding");
    reveal_strlit("reverse_proxy");
    reveal_strlit("notif_template_email");
    reveal_strlit("notif_template_slack");
    reveal_strlit("notif_template_discord");
    reveal_strlit("notif_template_webhook");
    reveal_strlit("telemetry_enabled");
    reveal_strlit("telemetry_endpoint");
    reveal_strlit("_client_secret");
    let i = choose|i: int| 0 <= i < update_keys().len() && update_keys()[i] == k;
    if !(k == "smtp_password"@ || k == "pdns_api_key"@) {
        assert(has_suffix(k, "_client_secret"@));
        let n: int = k.len() as int;
        assert(k.subrange(n - 14, n)[13] == k[n - 1]);
        assert(k[n - 1] == 't');
        assert(k.subrange(n - 14, n)[0] == k[n - 14]);
        assert(k[n - 14] == '_');
    }
}

/// Saving the settings page as it was listed changes no stored value: a
/// masked secret comes back as the mask and is skipped, and every other
/// value is written back as it was stored.
pub proof fn law_listed_settings_save_unchanged(key: Seq<char>, stored: Seq<char>)
    ensures
        setting_write_of(key, listed_value_of(key, stored)) is Skip
            || listed_value_of(key, stored) == stored,
{
    if is_masked_key(key) && stored.len() > 0 {
        reveal_strlit("_client_secret");
        reveal_strlit("oauth_google_client_secret");
        reveal_strlit("oauth_github_client_secret");
        reveal_strlit("oauth_gitlab_client_secret");
        if key == "oauth_google_client_secret"@ {
            assert(key.subrange(12, 26) =~= "_client_secret"@);
        } else if key == "oauth_github_client_secret"@ {
            assert(key.subrange(12, 26) =~= "_client_secret"@);
        } else if key == "oauth_gitlab_client_secret"@ {
            assert(key.subrange(12, 26) =~= "_client_secret"@);
        }
        assert(is_secret_key(key));
    }
}

proof fn lemma_known_keys_pass(ks: Seq<Seq<char>>)
    requires
        forall|i: int| 0 <= i < ks.len() ==> update_keys().contains(#[trigger] ks[i]),
    ensures
        first_unknown(ks) is None,
    decreases ks.len(),
{
    if ks.len() > 0 {
        assert(update_keys().contains(ks[0]));
        let rest = ks.skip(1);
        assert forall|i: int| 0 <= i < rest.len() implies update_keys().contains(#[trigger] rest[i]) by {
            assert(rest[i] == ks[i + 1]);
        }
        lemma_known_keys_pass(rest);
    }
}

proof fn lemma_value_for_given(s: Seq<(Seq<char>, Seq<char>)>, key: Seq<char>)
    ensures
        value_for(s, key) matches Some(v) ==> exists|i: int| 0 <= i < s.len() && s[i] == (key, v),
    decreases s.len(),
{
    if s.len() > 0 && s.last().0 != key {
        lemma_value_for_given(s.drop_last(), key);
        if let Some(v) = value_for(s, key) {
            let i = choose|i: int| 0 <= i < s.drop_last().len() && s.drop_last()[i] == (key, v);
            assert(s[i] == (key, v));
        }
    } else if s.len() > 0 {
        assert(s[s.len() - 1] == s.last());
    }
}

/// The settings page as it is listed for the stored settings `m`, for the
/// keys `keys` in the order given.
pub open spec fn listed_page(m: Map<Seq<char>, Seq<char>>, keys: Seq<Seq<char>>) -> Seq<(Seq<char>, Seq<char>)> {
    keys.map_values(|k: Seq<char>| (k, listed_value_of(k, m[k])))
}

/// Saving the settings page exactly as it was listed is accepted and
/// leaves every stored setting as it was: each entry is either skipped (a
/// masked secret) or written with the value already stored, and none is
/// encrypted anew.
pub proof fn law_saving_listed_page_keeps_settings(m: Map<Seq<char>, Seq<char>>, keys: Seq<Seq<char>>)
    requires
        forall|i: int| 0 <= i < keys.len() ==> update_keys().contains(#[trigger] keys[i]) && m.dom().contains(keys[i]),
        m.dom().contains("logo_url"@) ==> is_logo_url(m["logo_url"@]),
        m.dom().contains("accent_color"@) ==> is_accent_color(m["accent_color"@]),
    ensures
        settings_check(listed_page(m, keys)) is Ok,
        forall|i: int| 0 <= i < keys.len() ==> {
            let e = #[trigger] listed_page(m, keys)[i];
            setting_write_of(e.0, e.1) is Skip || (setting_write_of(e.0, e.1) is Plain && e.1 == m[e.0])
        },
{
    let page = listed_page(m, keys);
    assert(page.map_values(|e: (Seq<char>, Seq<char>)| e.0) =~= keys);
    lemma_known_keys_pass(keys);
    reveal_strlit("logo_url");
    reveal_strlit("accent_color");
    reveal_strlit("smtp_password");
    reveal_strlit("pdns_api_key");
    reveal_strlit("oauth_google_client_secret");
    reveal_strlit("oauth_github_client_secret");
    reveal_strlit("oauth_gitlab_client_secret");
    lemma_value_for_given(page, "logo_url"@);
    lemma_value_for_given(page, "accent_color"@);
    if let Some(u) = value_for(page, "logo_url"@) {
        let i = choose|i: int| 0 <= i < page.len() && page[i] == ("logo_url"@, u);
        assert(keys[i] == "logo_url"@);
        assert(!is_masked_key("logo_url"@));
    }
    if let Some(c) = value_for(page, "accent_color"@) {
        let i = choose|i: int| 0 <= i < page.len() && page[i] == ("accent_color"@, c);
        assert(keys[i] == "accent_color"@);
        assert("accent_color"@[0] != "pdns_api_key"@[0]);
        assert(!is_masked_key("accent_color"@));
    }
    assert forall|i: int| 0 <= i < keys.len() implies {
        let e = #[trigger] listed_page(m, keys)[i];
        setting_write_of(e.0, e.1) is Skip || (setting_write_of(e.0, e.1) is Plain && e.1 == m[e.0])
    } by {
        let k = keys[i];
        assert(update_keys().contains(k));
        law_listed_settings_save_unchanged(k, m[k]);
        if is_secret_key(k) {
            lemma_update_key_secret_is_masked(k);
        }
    }
}

} // verus!

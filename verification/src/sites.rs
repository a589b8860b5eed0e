//! Sites: what a new site may be, the web-server configuration the agent
//! is sent for a site, and the rules behind a site's settings.

use vstd::prelude::*;

use crate::agent_body::{opt_int, opt_str, AgentBody, JsonScalar, Scalar};
use crate::domain::{is_domain, is_valid_domain};
use crate::text::{
    chars_of, contains_str, has_char, has_infix, has_prefix, has_suffix, lower_seq, starts_with,
    ends_with, str_eq, to_lower,
};

verus! {

/// The stored state of a site that its configuration is built from.
pub struct Site {
    pub domain: String,
    pub runtime: String,
    pub status: String,
    pub enabled: bool,
    pub proxy_port: Option<i32>,
    pub php_version: Option<String>,
    pub php_preset: Option<String>,
    pub app_command: Option<String>,
    pub custom_nginx: Option<String>,
    pub ssl_enabled: bool,
    pub ssl_cert_path: Option<String>,
    pub ssl_key_path: Option<String>,
    pub rate_limit: Option<i32>,
    pub max_upload_mb: i32,
    pub php_memory_mb: i32,
    pub php_max_workers: i32,
    pub php_max_execution_time: i32,
    pub php_upload_mb: i32,
    pub fastcgi_cache: bool,
    pub redis_cache: bool,
    pub redis_db: i32,
    pub waf_enabled: bool,
    pub waf_mode: String,
    pub csp_policy: Option<String>,
    pub permissions_policy: Option<String>,
    pub bot_protection: String,
}

// ─── Creating a site ───────────────────────────────────────────

/// Paging of a site list.
pub struct ListQuery {
    pub limit: Option<i64>,
    pub offset: Option<i64>,
}

/// A request to switch a site's PHP version.
pub struct SwitchPhpRequest {
    pub version: String,
}

/// A request to create a site.
pub struct CreateSiteRequest {
    pub domain: String,
    pub runtime: Option<String>,
    pub proxy_port: Option<i32>,
    pub php_version: Option<String>,
    pub php_preset: Option<String>,
    pub app_command: Option<String>,
    pub php_max_execution_time: Option<i32>,
    pub php_upload_mb: Option<i32>,
    pub cms: Option<String>,
    pub site_title: Option<String>,
    pub admin_email: Option<String>,
    pub admin_user: Option<String>,
    pub admin_password: Option<String>,
}

/// Why a site cannot be created as requested.
#[derive(Debug, Clone, Copy, PartialEq, Eq, Structural)]
pub enum CreateSiteError {
    InvalidDomain,
    ReservedDomain,
    InvalidRuntime,
    ProxyPortRequired,
    AppCommandRequired,
    AppCommandControlChars,
    AppCommandForbiddenChars,
    AppCommandDotDot,
    AppCommandTooLong,
    NodeCommandPrefix,
    PythonCommandPrefix,
    InvalidPhpPreset,
}

impl CreateSiteError {
    pub fn status(&self) -> (s: u16)
        ensures
            s == match self {
                CreateSiteError::ReservedDomain => 403u16,
                _ => 400u16,
            },
    {
        match self {
            CreateSiteError::ReservedDomain => 403,
            _ => 400,
        }
    }

    pub fn message(&self) -> (m: &'static str)
        ensures
            m@ == match self {
                CreateSiteError::InvalidDomain => "Invalid domain format"@,
                CreateSiteError::ReservedDomain => "This domain is reserved and cannot be used"@,
                CreateSiteError::InvalidRuntime => "Runtime must be static, php, proxy, node, or python"@,
                CreateSiteError::ProxyPortRequired => "proxy_port is required for proxy runtime"@,
                CreateSiteError::AppCommandRequired => "app_command is required for node/python runtime"@,
                CreateSiteError::AppCommandControlChars => "app_command must not contain newlines or null bytes"@,
                CreateSiteError::AppCommandForbiddenChars => "app_command contains forbidden characters"@,
                CreateSiteError::AppCommandDotDot => "app_command must not contain '..'"@,
                CreateSiteError::AppCommandTooLong => "app_command too long"@,
                CreateSiteError::NodeCommandPrefix => "app_command for node must start with node/npm/npx/yarn/pnpm or be a bare filename"@,
                CreateSiteError::PythonCommandPrefix => "app_command for python must start with python/gunicorn/uvicorn/flask/django or be a bare filename"@,
                CreateSiteError::InvalidPhpPreset => "php_preset must be one of: generic, laravel, wordpress, drupal, joomla, symfony, codeigniter, magento"@,
            },
    {
        match self {
            CreateSiteError::InvalidDomain => "Invalid domain format",
            CreateSiteError::ReservedDomain => "This domain is reserved and cannot be used",
            CreateSiteError::InvalidRuntime => "Runtime must be static, php, proxy, node, or python",
            CreateSiteError::ProxyPortRequired => "proxy_port is required for proxy runtime",
            CreateSiteError::AppCommandRequired => "app_command is required for node/python runtime",
            CreateSiteError::AppCommandControlChars => "app_command must not contain newlines or null bytes",
            CreateSiteError::AppCommandForbiddenChars => "app_command contains forbidden characters",
            CreateSiteError::AppCommandDotDot => "app_command must not contain '..'",
            CreateSiteError::AppCommandTooLong => "app_command too long",
            CreateSiteError::NodeCommandPrefix => "app_command for node must start with node/npm/npx/yarn/pnpm or be a bare filename",
            CreateSiteError::PythonCommandPrefix => "app_command for python must start with python/gunicorn/uvicorn/flask/django or be a bare filename",
            CreateSiteError::InvalidPhpPreset => "php_preset must be one of: generic, laravel, wordpress, drupal, joomla, symfony, codeigniter, magento",
        }
    }
}

/// A panel domain, or a subdomain of one.
pub open spec fn is_reserved(lower: Seq<char>) -> bool {
    ||| lower == "arcpanel.top"@ || has_suffix(lower, ".arcpanel.top"@)
    ||| lower == "panel.example.com"@ || has_suffix(lower, ".panel.example.com"@)
    ||| lower == "docs.arcpanel.top"@ || has_suffix(lower, ".docs.arcpanel.top"@)
}

pub open spec fn is_runtime(r: Seq<char>) -> bool {
    r == "static"@ || r == "php"@ || r == "proxy"@ || r == "node"@ || r == "python"@
}

pub open spec fn is_app_runtime(r: Seq<char>) -> bool {
    r == "node"@ || r == "python"@
}

/// Shell metacharacters refused in a start command.
pub open spec fn is_forbidden_cmd_char(c: char) -> bool {
    c == '`' || c == '$' || c == '|' || c == ';' || c == '&' || c == '<' || c == '>' || c == '\\'
        || c == '!' || c == '{' || c == '}'
}

pub open spec fn has_forbidden_cmd_char(s: Seq<char>) -> bool {
    exists|i: int| 0 <= i < s.len() && is_forbidden_cmd_char(#[trigger] s[i])
}

pub open spec fn node_command_ok(c: Seq<char>) -> bool {
    has_prefix(c, "node "@) || has_prefix(c, "npm "@) || has_prefix(c, "npx "@) || has_prefix(c, "yarn "@)
        || has_prefix(c, "pnpm "@) || !c.contains(' ')
}

pub open spec fn python_command_ok(c: Seq<char>) -> bool {
    has_prefix(c, "python"@) || has_prefix(c, "gunicorn "@) || has_prefix(c, "uvicorn "@) || has_prefix(
        c,
        "flask "@,
    ) || has_prefix(c, "django"@) || !c.contains(' ')
}

pub open spec fn is_php_preset(p: Seq<char>) -> bool {
    p == "generic"@ || p == "laravel"@ || p == "wordpress"@ || p == "drupal"@ || p == "joomla"@
        || p == "symfony"@ || p == "codeigniter"@ || p == "magento"@
}

/// The checks a start command must pass, in order.
pub open spec fn app_command_check(runtime: Seq<char>, cmd: Seq<char>) -> Result<(), CreateSiteError> {
    if cmd.contains('\n') || cmd.contains('\r') || cmd.contains('\0') {
        Err(CreateSiteError::AppCommandControlChars)
    } else if has_forbidden_cmd_char(cmd) {
        Err(CreateSiteError::AppCommandForbiddenChars)
    } else if has_infix(cmd, ".."@) {
        Err(CreateSiteError::AppCommandDotDot)
    } else if vstd::utf8::encode_utf8(cmd).len() > 1024 {
        Err(CreateSiteError::AppCommandTooLong)
    } else if runtime == "node"@ && !node_command_ok(cmd) {
        Err(CreateSiteError::NodeCommandPrefix)
    } else if runtime == "python"@ && !python_command_ok(cmd) {
        Err(CreateSiteError::PythonCommandPrefix)
    } else {
        Ok(())
    }
}

/// The runtime a request asks for ("static" when none is named).
pub open spec fn requested_runtime(r: Option<Seq<char>>) -> Seq<char> {
    match r {
        Some(x) => x,
        None => "static"@,
    }
}

/// The checks a site request must pass before the database is consulted,
/// in order; gives the runtime.
pub open spec fn create_site_check(
    domain: Seq<char>,
    runtime: Option<Seq<char>>,
    proxy_port: Option<i32>,
    app_command: Option<Seq<char>>,
    php_preset: Option<Seq<char>>,
) -> Result<Seq<char>, CreateSiteError> {
    let rt = requested_runtime(runtime);
    if !is_domain(domain) {
        Err(CreateSiteError::InvalidDomain)
    } else if is_reserved(lower_seq(domain)) {
        Err(CreateSiteError::ReservedDomain)
    } else if !is_runtime(rt) {
        Err(CreateSiteError::InvalidRuntime)
    } else if rt == "proxy"@ && proxy_port is None {
        Err(CreateSiteError::ProxyPortRequired)
    } else if is_app_runtime(rt) && (match app_command {
        Some(c) => crate::text::trimmed(c).len() == 0,
        None => true,
    }) {
        Err(CreateSiteError::AppCommandRequired)
    } else if app_command is Some && app_command_check(rt, app_command->0) is Err {
        Err(app_command_check(rt, app_command->0)->Err_0)
    } else if php_preset is Some && !is_php_preset(php_preset->0) {
        Err(CreateSiteError::InvalidPhpPreset)
    } else {
        Ok(rt)
    }
}

fn forbidden_cmd_char(c: char) -> (b: bool)
    ensures
        b == is_forbidden_cmd_char(c),
{
    c == '`' || c == '$' || c == '|' || c == ';' || c == '&' || c == '<' || c == '>' || c == '\\'
        || c == '!' || c == '{' || c == '}'
}

fn any_forbidden_cmd_char(s: &Vec<char>) -> (b: bool)
    ensures
        b == has_forbidden_cmd_char(s@),
{
    let mut i: usize = 0;
    while i < s.len()
        invariant
            i <= s@.len(),
            forall|j: int| 0 <= j < i ==> !is_forbidden_cmd_char(#[trigger] s@[j]),
        decreases s@.len() - i,
    {
        if forbidden_cmd_char(s[i]) {
            return true;
        }
        i = i + 1;
    }
    false
}

fn reserved(lower: &Vec<char>) -> (b: bool)
    ensures
        b == is_reserved(lower@),
{
    let l = lower.as_slice();
    let a = chars_of("arcpanel.top");
    let b = chars_of("panel.example.com");
    let c = chars_of("docs.arcpanel.top");
    crate::text::seq_eq(l, a.as_slice()) || ends_with(l, ".arcpanel.top")
        || crate::text::seq_eq(l, b.as_slice()) || ends_with(l, ".panel.example.com")
        || crate::text::seq_eq(l, c.as_slice()) || ends_with(l, ".docs.arcpanel.top")
}

fn runtime_ok(r: &str) -> (b: bool)
    ensures
        b == is_runtime(r@),
{
    str_eq(r, "static") || str_eq(r, "php") || str_eq(r, "proxy") || str_eq(r, "node") || str_eq(r, "python")
}

fn php_preset_ok(p: &str) -> (b: bool)
    ensures
        b == is_php_preset(p@),
{
    str_eq(p, "generic") || str_eq(p, "laravel") || str_eq(p, "wordpress") || str_eq(p, "drupal")
        || str_eq(p, "joomla") || str_eq(p, "symfony") || str_eq(p, "codeigniter") || str_eq(p, "magento")
}

/// Checks a start command for a node or python site.
pub fn check_app_command(runtime: &str, cmd: &str) -> (r: Result<(), CreateSiteError>)
    ensures
        r == app_command_check(runtime@, cmd@),
{
    let cs = chars_of(cmd);
    let s = cs.as_slice();
    if has_char(s, '\n') || has_char(s, '\r') || has_char(s, '\0') {
        return Err(CreateSiteError::AppCommandControlChars);
    }
    if any_forbidden_cmd_char(&cs) {
        return Err(CreateSiteError::AppCommandForbiddenChars);
    }
    if contains_str(s, "..") {
        return Err(CreateSiteError::AppCommandDotDot);
    }
    if cmd.as_bytes().len() > 1024 {
        return Err(CreateSiteError::AppCommandTooLong);
    }
    proof {
        reveal_strlit("node");
        reveal_strlit("python");
        assert("node"@.len() != "python"@.len());
    }
    if str_eq(runtime, "node") {
        if !node_command(s) {
            return Err(CreateSiteError::NodeCommandPrefix);
        }
    } else if str_eq(runtime, "python") {
        if !python_command(s) {
            return Err(CreateSiteError::PythonCommandPrefix);
        }
    }
    Ok(())
}

fn node_command(s: &[char]) -> (b: bool)
    ensures
        b == node_command_ok(s@),
{
    starts_with(s, "node ") || starts_with(s, "npm ") || starts_with(s, "npx ") || starts_with(s, "yarn ")
        || starts_with(s, "pnpm ") || !has_char(s, ' ')
}

fn python_command(s: &[char]) -> (b: bool)
    ensures
        b == python_command_ok(s@),
{
    starts_with(s, "python") || starts_with(s, "gunicorn ") || starts_with(s, "uvicorn ") || starts_with(s, "flask ")
        || starts_with(s, "django") || !has_char(s, ' ')
}

/// Checks a site request (domain, reserved names, runtime, port, start
/// command, PHP preset) and gives the runtime the site gets.
pub fn validate_create_site(
    domain: &str,
    runtime: Option<&str>,
    proxy_port: Option<i32>,
    app_command: Option<&str>,
    php_preset: Option<&str>,
) -> (r: Result<String, CreateSiteError>)
    ensures
        match r {
            Ok(rt) => create_site_check(
                domain@,
                match runtime { Some(x) => Some(x@), None => None },
                proxy_port,
                match app_command { Some(x) => Some(x@), None => None },
                match php_preset { Some(x) => Some(x@), None => None },
            ) == Ok::<Seq<char>, CreateSiteError>(rt@),
            Err(e) => create_site_check(
                domain@,
                match runtime { Some(x) => Some(x@), None => None },
                proxy_port,
                match app_command { Some(x) => Some(x@), None => None },
                match php_preset { Some(x) => Some(x@), None => None },
            ) == Err::<Seq<char>, CreateSiteError>(e),
        },
{
    if !is_valid_domain(domain) {
        return Err(CreateSiteError::InvalidDomain);
    }
    let dc = chars_of(domain);
    let lower = to_lower(dc.as_slice());
    if reserved(&lower) {
        return Err(CreateSiteError::ReservedDomain);
    }
    let rt: &str = match runtime {
        Some(x) => x,
        None => "static",
    };
    if !runtime_ok(rt) {
        return Err(CreateSiteError::InvalidRuntime);
    }
    if str_eq(rt, "proxy") && proxy_port.is_none() {
        return Err(CreateSiteError::ProxyPortRequired);
    }
    if str_eq(rt, "node") || str_eq(rt, "python") {
        let missing = match app_command {
            Some(c) => {
                let cc = chars_of(c);
                crate::text::trim(cc.as_slice()).len() == 0
            },
            None => true,
        };
        if missing {
            return Err(CreateSiteError::AppCommandRequired);
        }
    }
    if let Some(c) = app_command {
        match check_app_command(rt, c) {
            Ok(()) => {},
            Err(e) => return Err(e),
        }
    }
    if let Some(p) = php_preset {
        if !php_preset_ok(p) {
            return Err(CreateSiteError::InvalidPhpPreset);
        }
    }
    Ok(String::from_str(rt))
}

/// Sites a user may create per hour: 3 while the limit is on, else 999.
pub fn site_creation_limit(limit_enabled: bool) -> (n: i64)
    ensures
        n == (if limit_enabled { 3i64 } else { 999i64 }),
{
    if limit_enabled { 3 } else { 999 }
}

/// Another site may be created when fewer than the limit were created in
/// the last hour.
pub fn site_creation_allowed(recent: i64, limit: i64) -> (b: bool)
    ensures
        b == (recent < limit),
{
    recent < limit
}

// ─── The agent's web-server configuration ──────────────────────

/// The PHP-FPM socket of a PHP version.
pub open spec fn php_socket_of(v: Seq<char>) -> Seq<char> {
    "unix:/run/php/php"@ + v + "-fpm.sock"@
}

pub fn php_socket(v: &str) -> (s: String)
    ensures
        s@ == php_socket_of(v@),
{
    let mut s = String::from_str("unix:/run/php/php");
    s.append(v);
    s.append("-fpm.sock");
    s
}

/// Adds a text field when the value is present.
pub open spec fn with_str(b: Seq<(Seq<char>, Scalar)>, k: Seq<char>, v: Option<Seq<char>>) -> Seq<(Seq<char>, Scalar)> {
    match v {
        Some(s) => b.push((k, Scalar::Str(s))),
        None => b,
    }
}

/// Adds the PHP socket of a version when the site has one.
pub open spec fn with_php_socket(b: Seq<(Seq<char>, Scalar)>, v: Option<Seq<char>>) -> Seq<(Seq<char>, Scalar)> {
    match v {
        Some(s) => b.push(("php_socket"@, Scalar::Str(php_socket_of(s)))),
        None => b,
    }
}

/// Adds `ssl` and the certificate and key paths when SSL is on.
pub open spec fn with_ssl(b: Seq<(Seq<char>, Scalar)>, site: Site) -> Seq<(Seq<char>, Scalar)> {
    if site.ssl_enabled {
        with_str(
            with_str(b.push(("ssl"@, Scalar::Bool(true))), "ssl_cert"@, site.ssl_cert_path.deep_view()),
            "ssl_key"@,
            site.ssl_key_path.deep_view(),
        )
    } else {
        b
    }
}

fn add_str(b: &mut AgentBody, k: &str, v: &Option<String>)
    ensures
        final(b)@ == with_str(old(b)@, k@, v.deep_view()),
{
    if let Some(s) = v {
        b.set_str(k, s.as_str());
    }
}

fn add_php_socket(b: &mut AgentBody, v: &Option<String>)
    ensures
        final(b)@ == with_php_socket(old(b)@, v.deep_view()),
{
    if let Some(s) = v {
        let sock = php_socket(s.as_str());
        b.set_str("php_socket", sock.as_str());
    }
}

fn add_ssl(b: &mut AgentBody, site: &Site)
    ensures
        final(b)@ == with_ssl(old(b)@, *site),
{
    if site.ssl_enabled {
        b.set_bool("ssl", true);
        add_str(b, "ssl_cert", &site.ssl_cert_path);
        add_str(b, "ssl_key", &site.ssl_key_path);
    }
}

/// The full configuration of a site, shared by the paths that rebuild it.
pub open spec fn nginx_base(site: Site) -> Seq<(Seq<char>, Scalar)> {
    seq![
        ("runtime"@, Scalar::Str(site.runtime@)),
        ("fastcgi_cache"@, Scalar::Bool(site.fastcgi_cache)),
        ("redis_cache"@, Scalar::Bool(site.redis_cache)),
        ("redis_db"@, Scalar::Int(site.redis_db as i64)),
        ("waf_enabled"@, Scalar::Bool(site.waf_enabled)),
        ("waf_mode"@, Scalar::Str(site.waf_mode@)),
        ("rate_limit"@, opt_int(site.rate_limit)),
        ("max_upload_mb"@, Scalar::Int(site.max_upload_mb as i64)),
        ("php_memory_mb"@, Scalar::Int(site.php_memory_mb as i64)),
        ("php_max_workers"@, Scalar::Int(site.php_max_workers as i64)),
        ("csp_policy"@, opt_str(site.csp_policy.deep_view())),
        ("permissions_policy"@, opt_str(site.permissions_policy.deep_view())),
        ("bot_protection"@, Scalar::Str(site.bot_protection@)),
    ]
}

/// The full configuration of a site, shared by the paths that rebuild it.
pub open spec fn nginx_body_of(site: Site) -> Seq<(Seq<char>, Scalar)> {
    let base = nginx_base(site);
    let b = with_ssl(
        with_php_socket(
            with_str(with_str(base, "php_preset"@, site.php_preset.deep_view()), "custom_nginx"@, site.custom_nginx.deep_view()),
            site.php_version.deep_view(),
        ),
        site,
    );
    if site.runtime@ == "proxy"@ || site.runtime@ == "node"@ || site.runtime@ == "python"@ {
        b.push(("proxy_port"@, opt_int(site.proxy_port)))
    } else {
        b
    }
}

/// Builds the full agent configuration of a site.
pub fn build_nginx_body(site: &Site) -> (b: AgentBody)
    ensures
        b@ == nginx_body_of(*site),
{
    let mut b = AgentBody::new();
    b.set_str("runtime", site.runtime.as_str());
    b.set_bool("fastcgi_cache", site.fastcgi_cache);
    b.set_bool("redis_cache", site.redis_cache);
    b.set_int("redis_db", site.redis_db as i64);
    b.set_bool("waf_enabled", site.waf_enabled);
    b.set_str("waf_mode", site.waf_mode.as_str());
    b.set_opt_int("rate_limit", site.rate_limit);
    b.set_int("max_upload_mb", site.max_upload_mb as i64);
    b.set_int("php_memory_mb", site.php_memory_mb as i64);
    b.set_int("php_max_workers", site.php_max_workers as i64);
    b.set_opt_str("csp_policy", &site.csp_policy);
    b.set_opt_str("permissions_policy", &site.permissions_policy);
    b.set_str("bot_protection", site.bot_protection.as_str());
    assert(b@ =~= nginx_base(*site));
    add_str(&mut b, "php_preset", &site.php_preset);
    add_str(&mut b, "custom_nginx", &site.custom_nginx);
    add_php_socket(&mut b, &site.php_version);
    add_ssl(&mut b, site);
    let rt = site.runtime.as_str();
    if str_eq(rt, "proxy") || str_eq(rt, "node") || str_eq(rt, "python") {
        b.set_opt_int("proxy_port", site.proxy_port);
    }
    b
}

} // verus!

verus! {

/// The configuration sent when a site's PHP version is switched.
pub open spec fn switch_php_body_of(site: Site, version: Seq<char>) -> Seq<(Seq<char>, Scalar)> {
    let base = seq![
        ("runtime"@, Scalar::Str("php"@)),
        ("php_socket"@, Scalar::Str(php_socket_of(version))),
        ("php_memory_mb"@, Scalar::Int(site.php_memory_mb as i64)),
        ("php_max_workers"@, Scalar::Int(site.php_max_workers as i64)),
        ("php_max_execution_time"@, Scalar::Int(site.php_max_execution_time as i64)),
        ("php_upload_mb"@, Scalar::Int(site.php_upload_mb as i64)),
        ("fastcgi_cache"@, Scalar::Bool(site.fastcgi_cache)),
        ("redis_cache"@, Scalar::Bool(site.redis_cache)),
        ("redis_db"@, Scalar::Int(site.redis_db as i64)),
        ("waf_enabled"@, Scalar::Bool(site.waf_enabled)),
        ("waf_mode"@, Scalar::Str(site.waf_mode@)),
    ];
    with_ssl(
        with_str(with_str(base, "php_preset"@, site.php_preset.deep_view()), "custom_nginx"@, site.custom_nginx.deep_view()),
        site,
    )
}

pub fn switch_php_body(site: &Site, version: &str) -> (b: AgentBody)
    ensures
        b@ == switch_php_body_of(*site, version@),
{
    let mut b = AgentBody::new();
    b.set_str("runtime", "php");
    let sock = php_socket(version);
    b.set_str("php_socket", sock.as_str());
    b.set_int("php_memory_mb", site.php_memory_mb as i64);
    b.set_int("php_max_workers", site.php_max_workers as i64);
    b.set_int("php_max_execution_time", site.php_max_execution_time as i64);
    b.set_int("php_upload_mb", site.php_upload_mb as i64);
    b.set_bool("fastcgi_cache", site.fastcgi_cache);
    b.set_bool("redis_cache", site.redis_cache);
    b.set_int("redis_db", site.redis_db as i64);
    b.set_bool("waf_enabled", site.waf_enabled);
    b.set_str("waf_mode", site.waf_mode.as_str());
    add_str(&mut b, "php_preset", &site.php_preset);
    add_str(&mut b, "custom_nginx", &site.custom_nginx);
    add_ssl(&mut b, site);
    b
}

/// The PHP version of a site can only be switched on PHP sites.
pub fn php_switch_allowed(site: &Site) -> (b: bool)
    ensures
        b == (site.runtime@ == "php"@),
{
    str_eq(site.runtime.as_str(), "php")
}

/// Requested resource limits.
pub struct UpdateLimitsRequest {
    pub rate_limit: Option<i32>,
    pub max_upload_mb: Option<i32>,
    pub php_memory_mb: Option<i32>,
    pub php_max_workers: Option<i32>,
    pub php_max_execution_time: Option<i32>,
    pub php_upload_mb: Option<i32>,
    pub custom_nginx: Option<String>,
}

#[derive(Debug, Clone, Copy, PartialEq, Eq, Structural)]
pub enum LimitsError {
    RateLimit,
    MaxUpload,
    PhpMemory,
    PhpWorkers,
}

impl LimitsError {
    pub fn message(&self) -> (m: &'static str)
        ensures
            m@ == match self {
                LimitsError::RateLimit => "Rate limit must be between 1 and 10000"@,
                LimitsError::MaxUpload => "Max upload must be between 1 and 10240 MB"@,
                LimitsError::PhpMemory => "PHP memory must be between 32 and 4096 MB"@,
                LimitsError::PhpWorkers => "PHP workers must be between 1 and 100"@,
            },
    {
        match self {
            LimitsError::RateLimit => "Rate limit must be between 1 and 10000",
            LimitsError::MaxUpload => "Max upload must be between 1 and 10240 MB",
            LimitsError::PhpMemory => "PHP memory must be between 32 and 4096 MB",
            LimitsError::PhpWorkers => "PHP workers must be between 1 and 100",
        }
    }
}

/// The limits a site ends up with: (max upload, PHP memory, PHP workers,
/// max execution time, PHP upload), each the requested value or the
/// site's current one.
pub open spec fn effective_limits(site: Site, body: UpdateLimitsRequest) -> (i32, i32, i32, i32, i32) {
    (
        match body.max_upload_mb { Some(v) => v, None => site.max_upload_mb },
        match body.php_memory_mb { Some(v) => v, None => site.php_memory_mb },
        match body.php_max_workers { Some(v) => v, None => site.php_max_workers },
        match body.php_max_execution_time { Some(v) => v, None => site.php_max_execution_time },
        match body.php_upload_mb { Some(v) => v, None => site.php_upload_mb },
    )
}

/// Checks requested limits: rate limit 1..=10000 when given, upload
/// 1..=10240 MB, PHP memory 32..=4096 MB, PHP workers 1..=100.
pub fn validate_limits(site: &Site, body: &UpdateLimitsRequest) -> (r: Result<(i32, i32, i32, i32, i32), LimitsError>)
    ensures
        ({
            let e = effective_limits(*site, *body);
            r == (if body.rate_limit is Some && !(1 <= body.rate_limit->0 <= 10000) {
                Err(LimitsError::RateLimit)
            } else if !(1 <= e.0 <= 10240) {
                Err(LimitsError::MaxUpload)
            } else if !(32 <= e.1 <= 4096) {
                Err(LimitsError::PhpMemory)
            } else if !(1 <= e.2 <= 100) {
                Err(LimitsError::PhpWorkers)
            } else {
                Ok(e)
            })
        }),
{
    if let Some(rl) = body.rate_limit {
        if rl < 1 || rl > 10000 {
            return Err(LimitsError::RateLimit);
        }
    }
    let max_upload = match body.max_upload_mb { Some(v) => v, None => site.max_upload_mb };
    if max_upload < 1 || max_upload > 10240 {
        return Err(LimitsError::MaxUpload);
    }
    let php_memory = match body.php_memory_mb { Some(v) => v, None => site.php_memory_mb };
    if php_memory < 32 || php_memory > 4096 {
        return Err(LimitsError::PhpMemory);
    }
    let workers = match body.php_max_workers { Some(v) => v, None => site.php_max_workers };
    if workers < 1 || workers > 100 {
        return Err(LimitsError::PhpWorkers);
    }
    let max_exec = match body.php_max_execution_time { Some(v) => v, None => site.php_max_execution_time };
    let php_upload = match body.php_upload_mb { Some(v) => v, None => site.php_upload_mb };
    Ok((max_upload, php_memory, workers, max_exec, php_upload))
}

/// The fields that open the configuration sent after a change of limits.
pub open spec fn limits_base(site: Site, body: UpdateLimitsRequest, l: (i32, i32, i32, i32, i32)) -> Seq<(Seq<char>, Scalar)> {
    seq![
        ("runtime"@, Scalar::Str(site.runtime@)),
        ("rate_limit"@, opt_int(body.rate_limit)),
        ("max_upload_mb"@, Scalar::Int(l.0 as i64)),
        ("php_memory_mb"@, Scalar::Int(l.1 as i64)),
        ("php_max_workers"@, Scalar::Int(l.2 as i64)),
        ("fastcgi_cache"@, Scalar::Bool(site.fastcgi_cache)),
        ("redis_cache"@, Scalar::Bool(site.redis_cache)),
        ("redis_db"@, Scalar::Int(site.redis_db as i64)),
        ("waf_enabled"@, Scalar::Bool(site.waf_enabled)),
        ("waf_mode"@, Scalar::Str(site.waf_mode@)),
    ]
}

/// The custom configuration, preset and proxy port that follow the base.
pub open spec fn limits_middle(b: Seq<(Seq<char>, Scalar)>, site: Site, body: UpdateLimitsRequest) -> Seq<(Seq<char>, Scalar)> {
    let custom = if body.custom_nginx is Some { body.custom_nginx.deep_view() } else { site.custom_nginx.deep_view() };
    let b1 = with_str(with_str(b, "custom_nginx"@, custom), "php_preset"@, site.php_preset.deep_view());
    match site.proxy_port {
        Some(p) => b1.push(("proxy_port"@, Scalar::Int(p as i64))),
        None => b1,
    }
}

/// The configuration sent after the limits of a site changed.
pub open spec fn limits_body_of(site: Site, body: UpdateLimitsRequest, l: (i32, i32, i32, i32, i32)) -> Seq<(Seq<char>, Scalar)> {
    with_ssl(
        with_php_socket(limits_middle(limits_base(site, body, l), site, body), site.php_version.deep_view())
            .push(("php_max_execution_time"@, Scalar::Int(l.3 as i64)))
            .push(("php_upload_mb"@, Scalar::Int(l.4 as i64))),
        site,
    )
}

fn add_limits_middle(b: &mut AgentBody, site: &Site, body: &UpdateLimitsRequest)
    ensures
        final(b)@ == limits_middle(old(b)@, *site, *body),
{
    if body.custom_nginx.is_some() {
        add_str(b, "custom_nginx", &body.custom_nginx);
    } else {
        add_str(b, "custom_nginx", &site.custom_nginx);
    }
    add_str(b, "php_preset", &site.php_preset);
    if let Some(p) = site.proxy_port {
        b.set_int("proxy_port", p as i64);
    }
}

/// Builds the configuration sent after the limits of a site changed.
pub fn limits_body(site: &Site, body: &UpdateLimitsRequest, l: (i32, i32, i32, i32, i32)) -> (b: AgentBody)
    ensures
        b@ == limits_body_of(*site, *body, l),
{
    let mut b = AgentBody::new();
    b.set_str("runtime", site.runtime.as_str());
    b.set_opt_int("rate_limit", body.rate_limit);
    b.set_int("max_upload_mb", l.0 as i64);
    b.set_int("php_memory_mb", l.1 as i64);
    b.set_int("php_max_workers", l.2 as i64);
    b.set_bool("fastcgi_cache", site.fastcgi_cache);
    b.set_bool("redis_cache", site.redis_cache);
    b.set_int("redis_db", site.redis_db as i64);
    b.set_bool("waf_enabled", site.waf_enabled);
    b.set_str("waf_mode", site.waf_mode.as_str());
    assert(b@ =~= limits_base(*site, *body, l));
    add_limits_middle(&mut b, site, body);
    add_php_socket(&mut b, &site.php_version);
    b.set_int("php_max_execution_time", l.3 as i64);
    b.set_int("php_upload_mb", l.4 as i64);
    add_ssl(&mut b, site);
    b
}

/// The PHP part shared by the cache toggles: preset, custom config,
/// socket and SSL.
pub open spec fn php_tail(b: Seq<(Seq<char>, Scalar)>, site: Site) -> Seq<(Seq<char>, Scalar)> {
    with_ssl(
        with_php_socket(
            with_str(with_str(b, "php_preset"@, site.php_preset.deep_view()), "custom_nginx"@, site.custom_nginx.deep_view()),
            site.php_version.deep_view(),
        ),
        site,
    )
}

fn add_php_tail(b: &mut AgentBody, site: &Site)
    ensures
        final(b)@ == php_tail(old(b)@, *site),
{
    add_str(b, "php_preset", &site.php_preset);
    add_str(b, "custom_nginx", &site.custom_nginx);
    add_php_socket(b, &site.php_version);
    add_ssl(b, site);
}

/// The configuration sent when the FastCGI cache is switched.
pub open spec fn fastcgi_body_of(site: Site, enabled: bool) -> Seq<(Seq<char>, Scalar)> {
    php_tail(
        seq![
            ("runtime"@, Scalar::Str("php"@)),
            ("fastcgi_cache"@, Scalar::Bool(enabled)),
            ("rate_limit"@, opt_int(site.rate_limit)),
            ("max_upload_mb"@, Scalar::Int(site.max_upload_mb as i64)),
            ("php_memory_mb"@, Scalar::Int(site.php_memory_mb as i64)),
            ("php_max_workers"@, Scalar::Int(site.php_max_workers as i64)),
        ],
        site,
    )
}

pub fn fastcgi_body(site: &Site, enabled: bool) -> (b: AgentBody)
    ensures
        b@ == fastcgi_body_of(*site, enabled),
{
    let mut b = AgentBody::new();
    b.set_str("runtime", "php");
    b.set_bool("fastcgi_cache", enabled);
    b.set_opt_int("rate_limit", site.rate_limit);
    b.set_int("max_upload_mb", site.max_upload_mb as i64);
    b.set_int("php_memory_mb", site.php_memory_mb as i64);
    b.set_int("php_max_workers", site.php_max_workers as i64);
    add_php_tail(&mut b, site);
    b
}

/// The configuration sent when the Redis object cache is switched.
pub open spec fn redis_body_of(site: Site, enabled: bool, redis_db: i32) -> Seq<(Seq<char>, Scalar)> {
    php_tail(
        seq![
            ("runtime"@, Scalar::Str("php"@)),
            ("fastcgi_cache"@, Scalar::Bool(site.fastcgi_cache)),
            ("redis_cache"@, Scalar::Bool(enabled)),
            ("redis_db"@, Scalar::Int(redis_db as i64)),
            ("rate_limit"@, opt_int(site.rate_limit)),
            ("max_upload_mb"@, Scalar::Int(site.max_upload_mb as i64)),
            ("php_memory_mb"@, Scalar::Int(site.php_memory_mb as i64)),
            ("php_max_workers"@, Scalar::Int(site.php_max_workers as i64)),
        ],
        site,
    )
}

pub fn redis_body(site: &Site, enabled: bool, redis_db: i32) -> (b: AgentBody)
    ensures
        b@ == redis_body_of(*site, enabled, redis_db),
{
    let mut b = AgentBody::new();
    b.set_str("runtime", "php");
    b.set_bool("fastcgi_cache", site.fastcgi_cache);
    b.set_bool("redis_cache", enabled);
    b.set_int("redis_db", redis_db as i64);
    b.set_opt_int("rate_limit", site.rate_limit);
    b.set_int("max_upload_mb", site.max_upload_mb as i64);
    b.set_int("php_memory_mb", site.php_memory_mb as i64);
    b.set_int("php_max_workers", site.php_max_workers as i64);
    add_php_tail(&mut b, site);
    b
}

/// The configuration sent when the web application firewall is switched.
pub open spec fn waf_body_of(site: Site, enabled: bool, mode: Seq<char>) -> Seq<(Seq<char>, Scalar)> {
    php_tail(
        seq![
            ("runtime"@, Scalar::Str(site.runtime@)),
            ("fastcgi_cache"@, Scalar::Bool(site.fastcgi_cache)),
            ("redis_cache"@, Scalar::Bool(site.redis_cache)),
            ("redis_db"@, Scalar::Int(site.redis_db as i64)),
            ("waf_enabled"@, Scalar::Bool(enabled)),
            ("waf_mode"@, Scalar::Str(mode)),
            ("rate_limit"@, opt_int(site.rate_limit)),
            ("max_upload_mb"@, Scalar::Int(site.max_upload_mb as i64)),
            ("php_memory_mb"@, Scalar::Int(site.php_memory_mb as i64)),
            ("php_max_workers"@, Scalar::Int(site.php_max_workers as i64)),
        ],
        site,
    )
}

pub fn waf_body(site: &Site, enabled: bool, mode: &str) -> (b: AgentBody)
    ensures
        b@ == waf_body_of(*site, enabled, mode@),
{
    let mut b = AgentBody::new();
    b.set_str("runtime", site.runtime.as_str());
    b.set_bool("fastcgi_cache", site.fastcgi_cache);
    b.set_bool("redis_cache", site.redis_cache);
    b.set_int("redis_db", site.redis_db as i64);
    b.set_bool("waf_enabled", enabled);
    b.set_str("waf_mode", mode);
    b.set_opt_int("rate_limit", site.rate_limit);
    b.set_int("max_upload_mb", site.max_upload_mb as i64);
    b.set_int("php_memory_mb", site.php_memory_mb as i64);
    b.set_int("php_max_workers", site.php_max_workers as i64);
    add_php_tail(&mut b, site);
    b
}

/// The configuration sent for a new site (with the PHP limits the new row
/// was given).
pub open spec fn create_body_of(
    runtime: Seq<char>,
    proxy_port: Option<i32>,
    app_command: Option<Seq<char>>,
    php_version: Option<Seq<char>>,
    php_preset: Option<Seq<char>>,
    row: Site,
) -> Seq<(Seq<char>, Scalar)> {
    let b0 = seq![("runtime"@, Scalar::Str(runtime))];
    let b1 = match proxy_port {
        Some(p) => b0.push(("proxy_port"@, Scalar::Int(p as i64))),
        None => b0,
    };
    with_str(with_php_socket(with_str(b1, "app_command"@, app_command), php_version), "php_preset"@, php_preset)
        .push(("php_memory_mb"@, Scalar::Int(row.php_memory_mb as i64)))
        .push(("php_max_workers"@, Scalar::Int(row.php_max_workers as i64)))
        .push(("php_max_execution_time"@, Scalar::Int(row.php_max_execution_time as i64)))
        .push(("php_upload_mb"@, Scalar::Int(row.php_upload_mb as i64)))
        .push(("fastcgi_cache"@, Scalar::Bool(false)))
        .push(("redis_cache"@, Scalar::Bool(false)))
        .push(("redis_db"@, Scalar::Int(0)))
        .push(("waf_enabled"@, Scalar::Bool(false)))
        .push(("waf_mode"@, Scalar::Str("detection"@)))
}

pub fn create_body(
    runtime: &str,
    proxy_port: Option<i32>,
    app_command: &Option<String>,
    php_version: &Option<String>,
    php_preset: &Option<String>,
    row: &Site,
) -> (b: AgentBody)
    ensures
        b@ == create_body_of(runtime@, proxy_port, app_command.deep_view(), php_version.deep_view(), php_preset.deep_view(), *row),
{
    let mut b = AgentBody::new();
    b.set_str("runtime", runtime);
    if let Some(p) = proxy_port {
        b.set_int("proxy_port", p as i64);
    }
    add_str(&mut b, "app_command", app_command);
    add_php_socket(&mut b, php_version);
    add_str(&mut b, "php_preset", php_preset);
    b.set_int("php_memory_mb", row.php_memory_mb as i64);
    b.set_int("php_max_workers", row.php_max_workers as i64);
    b.set_int("php_max_execution_time", row.php_max_execution_time as i64);
    b.set_int("php_upload_mb", row.php_upload_mb as i64);
    b.set_bool("fastcgi_cache", false);
    b.set_bool("redis_cache", false);
    b.set_int("redis_db", 0);
    b.set_bool("waf_enabled", false);
    b.set_str("waf_mode", "detection");
    b
}

/// The configuration sent for a clone of a site.
pub open spec fn clone_body_of(source: Site) -> Seq<(Seq<char>, Scalar)> {
    let b0 = seq![("runtime"@, Scalar::Str(source.runtime@)), ("root"@, Scalar::Str("/var/www"@))];
    let b1 = match source.proxy_port {
        Some(p) => b0.push(("proxy_port"@, Scalar::Int(p as i64))),
        None => b0,
    };
    with_str(with_php_socket(b1, source.php_version.deep_view()), "php_preset"@, source.php_preset.deep_view())
        .push(("fastcgi_cache"@, Scalar::Bool(source.fastcgi_cache)))
        .push(("redis_cache"@, Scalar::Bool(source.redis_cache)))
        .push(("redis_db"@, Scalar::Int(source.redis_db as i64)))
        .push(("waf_enabled"@, Scalar::Bool(source.waf_enabled)))
        .push(("waf_mode"@, Scalar::Str(source.waf_mode@)))
}

pub fn clone_body(source: &Site) -> (b: AgentBody)
    ensures
        b@ == clone_body_of(*source),
{
    let mut b = AgentBody::new();
    b.set_str("runtime", source.runtime.as_str());
    b.set_str("root", "/var/www");
    if let Some(p) = source.proxy_port {
        b.set_int("proxy_port", p as i64);
    }
    add_php_socket(&mut b, &source.php_version);
    add_str(&mut b, "php_preset", &source.php_preset);
    b.set_bool("fastcgi_cache", source.fastcgi_cache);
    b.set_bool("redis_cache", source.redis_cache);
    b.set_int("redis_db", source.redis_db as i64);
    b.set_bool("waf_enabled", source.waf_enabled);
    b.set_str("waf_mode", source.waf_mode.as_str());
    b
}

/// A site is never created under one of the panel's own domains, in any
/// letter case.
pub proof fn law_reserved_domains_refused(
    domain: Seq<char>,
    runtime: Option<Seq<char>>,
    proxy_port: Option<i32>,
    app_command: Option<Seq<char>>,
    php_preset: Option<Seq<char>>,
)
    requires
        create_site_check(domain, runtime, proxy_port, app_command, php_preset) is Ok,
    ensures
        !is_reserved(lower_seq(domain)),
        is_domain(domain),
{
}

/// A site is never created with a start command that could break out of
/// it: an accepted command holds no line break, no NUL, no shell
/// metacharacter and no `..`, and is at most 1024 bytes long.
pub proof fn law_accepted_command_is_plain(
    domain: Seq<char>,
    runtime: Option<Seq<char>>,
    proxy_port: Option<i32>,
    cmd: Seq<char>,
    php_preset: Option<Seq<char>>,
)
    requires
        create_site_check(domain, runtime, proxy_port, Some(cmd), php_preset) is Ok,
    ensures
        !cmd.contains('\n'),
        !cmd.contains('\r'),
        !cmd.contains('\0'),
        forall|i: int| 0 <= i < cmd.len() ==> !is_forbidden_cmd_char(#[trigger] cmd[i]),
        !has_infix(cmd, ".."@),
        vstd::utf8::encode_utf8(cmd).len() <= 1024,
{
}

} // verus!

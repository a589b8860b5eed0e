use arcpanel::agent_body::JsonScalar;
use arcpanel::site_settings::{
    already_message, bot_mode_choice, check_rename, check_security_headers, cms_plan, db_name,
    fastcgi_toggle, health_url, image_request, redis_toggle, validate_password_protect,
    validate_redirect, waf_mode_choice, CacheError, ProtectError, RedirectError, RenameError,
    ToggleOutcome, HeadersError, SiteRequestError, requested_switch, check_purge, check_alias,
    check_clone_target,
};
use arcpanel::sites::{
    build_nginx_body, check_app_command, php_socket, php_switch_allowed, site_creation_allowed,
    site_creation_limit, validate_create_site, validate_limits, CreateSiteError, CreateSiteRequest,
    LimitsError, Site, UpdateLimitsRequest,
};

fn site() -> Site {
    Site {
        domain: "x.example.com".into(),
        runtime: "php".into(),
        status: "active".into(),
        enabled: true,
        proxy_port: None,
        php_version: Some("8.3".into()),
        php_preset: None,
        app_command: None,
        custom_nginx: None,
        ssl_enabled: false,
        ssl_cert_path: None,
        ssl_key_path: None,
        rate_limit: None,
        max_upload_mb: 64,
        php_memory_mb: 256,
        php_max_workers: 5,
        php_max_execution_time: 300,
        php_upload_mb: 64,
        fastcgi_cache: false,
        redis_cache: false,
        redis_db: 0,
        waf_enabled: false,
        waf_mode: "detection".into(),
        csp_policy: None,
        permissions_policy: None,
        bot_protection: "off".into(),
    }
}

#[test]
fn create_site_checks() {
    assert_eq!(validate_create_site("a.example.com", None, None, None, None).unwrap(), "static");
    assert_eq!(validate_create_site("bad domain", None, None, None, None), Err(CreateSiteError::InvalidDomain));
    assert_eq!(validate_create_site("x.ArcPanel.top", None, None, None, None), Err(CreateSiteError::ReservedDomain));
    assert_eq!(validate_create_site("a.example.com", Some("ruby"), None, None, None), Err(CreateSiteError::InvalidRuntime));
    assert_eq!(validate_create_site("a.example.com", Some("proxy"), None, None, None), Err(CreateSiteError::ProxyPortRequired));
    assert_eq!(validate_create_site("a.example.com", Some("node"), None, Some("  "), None), Err(CreateSiteError::AppCommandRequired));
    assert_eq!(validate_create_site("a.example.com", Some("node"), None, Some("npm start"), None).unwrap(), "node");
    assert_eq!(validate_create_site("a.example.com", Some("php"), None, None, Some("rails")), Err(CreateSiteError::InvalidPhpPreset));
    assert_eq!(check_app_command("node", "node app.js; rm -rf /"), Err(CreateSiteError::AppCommandForbiddenChars));
    assert_eq!(check_app_command("node", "node ../app.js"), Err(CreateSiteError::AppCommandDotDot));
    assert_eq!(check_app_command("node", "bash run.sh"), Err(CreateSiteError::NodeCommandPrefix));
    assert_eq!(check_app_command("python", "ruby app.rb"), Err(CreateSiteError::PythonCommandPrefix));
    assert!(check_app_command("python", "gunicorn app:app").is_ok());
    assert!(check_app_command("node", "server.js").is_ok());
    assert_eq!(check_app_command("node", "a\nb"), Err(CreateSiteError::AppCommandControlChars));
    assert_eq!(check_app_command("static", &"x".repeat(1025)), Err(CreateSiteError::AppCommandTooLong));
    assert_eq!(CreateSiteError::ReservedDomain.status(), 403);
    assert_eq!(site_creation_limit(true), 3);
    assert_eq!(site_creation_limit(false), 999);
    assert!(site_creation_allowed(2, 3) && !site_creation_allowed(3, 3));
}

#[test]
fn limits() {
    let s = site();
    let none = UpdateLimitsRequest { rate_limit: None, max_upload_mb: None, php_memory_mb: None, php_max_workers: None, php_max_execution_time: None, php_upload_mb: None, custom_nginx: None };
    assert_eq!(validate_limits(&s, &none).unwrap(), (64, 256, 5, 300, 64));
    let bad_rate = UpdateLimitsRequest { rate_limit: Some(0), ..none };
    assert_eq!(validate_limits(&s, &bad_rate), Err(LimitsError::RateLimit));
    let none = UpdateLimitsRequest { rate_limit: None, max_upload_mb: None, php_memory_mb: Some(16), php_max_workers: None, php_max_execution_time: None, php_upload_mb: None, custom_nginx: None };
    assert_eq!(validate_limits(&s, &none), Err(LimitsError::PhpMemory));
}

#[test]
fn nginx_config() {
    let s = site();
    assert!(php_switch_allowed(&s));
    assert_eq!(php_socket("8.3"), "unix:/run/php/php8.3-fpm.sock");
    let b = build_nginx_body(&s);
    assert_eq!(b.fields[0].0, "runtime");
    assert!(b.fields.iter().any(|(k, v)| k == "php_socket" && matches!(v, JsonScalar::Str(x) if x == "unix:/run/php/php8.3-fpm.sock")));
}

#[test]
fn site_settings_checks() {
    assert!(validate_redirect("/old", "https://new.example/").is_ok());
    assert_eq!(validate_redirect("old", "/new"), Err(RedirectError::InvalidSource));
    assert_eq!(validate_redirect("/old", "ftp://x"), Err(RedirectError::InvalidTarget));
    assert_eq!(validate_redirect("/old", "/new;reboot"), Err(RedirectError::TargetMetachars));
    assert!(validate_password_protect("/admin", "bob_1-x").is_ok());
    assert_eq!(validate_password_protect("/../etc", "bob"), Err(ProtectError::InvalidPath));
    assert_eq!(validate_password_protect("/admin", "bob smith"), Err(ProtectError::InvalidUsername));
    assert_eq!(waf_mode_choice(None).unwrap(), "detection");
    assert_eq!(waf_mode_choice(Some("prevention")).unwrap(), "prevention");
    assert_eq!(waf_mode_choice(Some("block")), Err(SiteRequestError::InvalidWafMode));
    assert_eq!(bot_mode_choice(None).unwrap(), "off");
    assert_eq!(bot_mode_choice(Some("rate-limit")).unwrap(), "rate-limit");
    assert_eq!(bot_mode_choice(Some("ban")), Err(SiteRequestError::InvalidBotMode));
    assert_eq!(image_request(None, None), Ok(("webp".to_string(), 80)));
    assert_eq!(image_request(Some("avif"), Some(50)), Ok(("avif".to_string(), 50)));
    assert_eq!(image_request(Some("png"), None), Err(SiteRequestError::InvalidImageFormat));
    assert_eq!(SiteRequestError::InvalidImageFormat.message(), "Format must be 'webp' or 'avif'");
    assert_eq!(requested_switch(Some(false), false), Ok(false));
    assert_eq!(requested_switch(None, false), Err(SiteRequestError::MissingEnabled));
    assert_eq!(requested_switch(None, true), Err(SiteRequestError::MissingWafEnabled));
    assert_eq!(check_purge(true, false), Err(SiteRequestError::RedisNotEnabled));
    assert_eq!(check_purge(false, false), Err(SiteRequestError::FastcgiNotEnabled));
    assert!(check_purge(false, true).is_ok());
    assert!(check_alias("www.example.com").is_ok());
    assert_eq!(check_alias("not a domain"), Err(SiteRequestError::InvalidAlias));
    assert_eq!(check_clone_target(None), Err(SiteRequestError::TargetRequired));
    assert_eq!(check_clone_target(Some("bad")), Err(SiteRequestError::InvalidTarget));
    assert_eq!(check_clone_target(Some("copy.example.com")).unwrap(), "copy.example.com");
    assert!(check_security_headers(&Some("default-src 'self'".into()), &None).is_ok());
    assert_eq!(check_security_headers(&Some("a".repeat(4097)), &None), Err(HeadersError::CspTooLong));
    assert_eq!(check_security_headers(&Some("a\nb".into()), &None), Err(HeadersError::CspInvalidChars));
    assert_eq!(check_security_headers(&None, &Some("p".repeat(2049))), Err(HeadersError::PermissionsTooLong));
}

#[test]
fn caches_and_renames() {
    assert_eq!(fastcgi_toggle("node", false, true), Err(CacheError::FastcgiNotPhp));
    assert_eq!(fastcgi_toggle("php", true, true), Ok(ToggleOutcome::Unchanged));
    assert_eq!(fastcgi_toggle("php", false, true), Ok(ToggleOutcome::Apply(0)));
    assert_eq!(redis_toggle("php", false, true, &vec![1, 2]), Ok(ToggleOutcome::Apply(3)));
    assert_eq!(redis_toggle("php", true, false, &vec![1, 2]), Ok(ToggleOutcome::Apply(0)));
    assert_eq!(redis_toggle("php", false, true, &(1..=15).collect()), Err(CacheError::RedisSlotsFull));
    assert_eq!(redis_toggle("static", false, true, &vec![]), Err(CacheError::RedisNotPhp));
    assert_eq!(CacheError::RedisSlotsFull.status(), 409);
    assert_eq!(already_message("WAF", true), "WAF is already enabled");
    assert_eq!(check_rename(" new.example.com ", "old.example.com").unwrap(), "new.example.com");
    assert_eq!(check_rename("old.example.com", "old.example.com"), Err(RenameError::SameDomain));
    assert_eq!(check_rename("not valid", "old.example.com"), Err(RenameError::InvalidDomain));
    assert_eq!(health_url("x.com", true), "https://x.com");
    assert_eq!(db_name("my-site.example.com"), "my_site_example_com");
}

#[test]
fn cms_installs() {
    let mut req = CreateSiteRequest {
        domain: "blog.example.com".into(), runtime: Some("php".into()), proxy_port: None,
        php_version: None, php_preset: None, app_command: None, php_max_execution_time: None,
        php_upload_mb: None, cms: Some("wordpress".into()), site_title: None, admin_email: None,
        admin_user: None, admin_password: None,
    };
    let p = cms_plan(&req).unwrap();
    assert_eq!(p.label, "WordPress");
    assert!(p.needs_db);
    assert_eq!(p.title, "blog.example.com");
    assert_eq!(p.admin_user, "admin");
    assert_eq!(p.admin_password.len(), 16);
    assert!(p.admin_password.chars().all(|c| c.is_ascii_alphanumeric()));
    assert_eq!(p.db_name, "blog_example_com");
    assert_eq!(p.db_password.len(), 20);
    req.cms = Some("symfony".into());
    assert!(!cms_plan(&req).unwrap().needs_db);
    req.cms = Some("ghost".into());
    assert!(cms_plan(&req).is_none());
}

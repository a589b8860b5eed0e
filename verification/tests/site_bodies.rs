use arcpanel::agent_body::{AgentBody, JsonScalar};
use arcpanel::incidents::{apply_config_update, default_status_page, UpdateConfigRequest};
use arcpanel::site_provision::dns_record_step;
use arcpanel::site_settings::{bot_protection_body, security_headers_body};
use arcpanel::sites::{clone_body, create_body, fastcgi_body, limits_body, redis_body, switch_php_body, waf_body, Site, UpdateLimitsRequest};
use arcpanel::ssl::{check_has_certificate, default_profile_change, dns01_body, DefaultProfileReq, DnsZone, SslError};

fn site(ssl: bool) -> Site {
    Site {
        domain: "x.example.com".into(),
        runtime: "php".into(),
        status: "active".into(),
        enabled: true,
        proxy_port: None,
        php_version: Some("8.3".into()),
        php_preset: Some("laravel".into()),
        app_command: None,
        custom_nginx: None,
        ssl_enabled: ssl,
        ssl_cert_path: Some("/c.pem".into()),
        ssl_key_path: Some("/k.pem".into()),
        rate_limit: Some(10),
        max_upload_mb: 64,
        php_memory_mb: 256,
        php_max_workers: 5,
        php_max_execution_time: 300,
        php_upload_mb: 64,
        fastcgi_cache: false,
        redis_cache: true,
        redis_db: 3,
        waf_enabled: false,
        waf_mode: "detection".into(),
        csp_policy: None,
        permissions_policy: None,
        bot_protection: "off".into(),
    }
}

fn keys(b: &AgentBody) -> Vec<String> {
    b.fields.iter().map(|(k, _)| k.clone()).collect()
}

fn get<'a>(b: &'a AgentBody, k: &str) -> &'a JsonScalar {
    &b.fields.iter().find(|(x, _)| x == k).unwrap().1
}

#[test]
fn toggles() {
    let f = fastcgi_body(&site(true), true);
    assert_eq!(
        keys(&f),
        vec!["runtime", "fastcgi_cache", "rate_limit", "max_upload_mb", "php_memory_mb", "php_max_workers",
             "php_preset", "php_socket", "ssl", "ssl_cert", "ssl_key"]
    );
    assert!(matches!(get(&f, "fastcgi_cache"), JsonScalar::Bool(true)));
    let r = redis_body(&site(false), false, 0);
    assert!(matches!(get(&r, "redis_db"), JsonScalar::Int(0)));
    assert!(!keys(&r).contains(&"ssl".to_string()));
    let w = waf_body(&site(false), true, "prevention");
    assert!(matches!(get(&w, "waf_mode"), JsonScalar::Str(m) if m == "prevention"));
    let s = switch_php_body(&site(false), "8.4");
    assert!(matches!(get(&s, "php_socket"), JsonScalar::Str(m) if m == "unix:/run/php/php8.4-fpm.sock"));
    let h = security_headers_body(site(false), Some("default-src 'self'".into()), None);
    assert!(matches!(get(&h, "csp_policy"), JsonScalar::Str(m) if m == "default-src 'self'"));
    assert!(matches!(get(&h, "permissions_policy"), JsonScalar::Null));
    let bp = bot_protection_body(site(false), "challenge".into());
    assert!(matches!(get(&bp, "bot_protection"), JsonScalar::Str(m) if m == "challenge"));
}

#[test]
fn limits_create_clone() {
    let req = UpdateLimitsRequest { rate_limit: Some(50), max_upload_mb: None, php_memory_mb: None, php_max_workers: None, php_max_execution_time: None, php_upload_mb: None, custom_nginx: Some("# x".into()) };
    let l = limits_body(&site(false), &req, (64, 512, 8, 120, 32));
    assert!(matches!(get(&l, "custom_nginx"), JsonScalar::Str(m) if m == "# x"));
    assert!(matches!(get(&l, "php_max_execution_time"), JsonScalar::Int(120)));
    let c = create_body("node", Some(5001), &Some("npm start".into()), &None, &None, &site(false));
    assert_eq!(keys(&c)[..3].to_vec(), vec!["runtime", "proxy_port", "app_command"]);
    assert!(matches!(get(&c, "waf_mode"), JsonScalar::Str(m) if m == "detection"));
    let k = clone_body(&site(false));
    assert!(matches!(get(&k, "root"), JsonScalar::Str(m) if m == "/var/www"));
    assert!(matches!(get(&k, "redis_db"), JsonScalar::Int(3)));
}

#[test]
fn ssl_bits() {
    assert_eq!(check_has_certificate(false), Err(SslError::NotEnabled));
    assert!(check_has_certificate(true).is_ok());
    assert_eq!(default_profile_change(&DefaultProfileReq { profile: Some(String::new()) }), None);
    assert_eq!(default_profile_change(&DefaultProfileReq { profile: Some("tlsserver".into()) }).as_deref(), Some("tlsserver"));
    let z = DnsZone { domain: "x.com".into(), cf_zone_id: Some("z".into()), cf_api_token: Some("t".into()), cf_api_email: None };
    let b = dns01_body("a@x.com", &z, true, &Some("shortlived".into()));
    assert_eq!(keys(&b), vec!["email", "cf_zone_id", "cf_api_token", "cf_api_email", "wildcard", "profile"]);
    assert!(matches!(get(&b, "cf_api_email"), JsonScalar::Null));
    assert_eq!(dns_record_step().label, "Creating DNS record");
}

#[test]
fn status_page_config() {
    let cur = default_status_page();
    let req = UpdateConfigRequest { title: Some(String::new()), description: Some("Ours".into()), logo_url: None, accent_color: None, show_subscribe: Some(false), show_incident_history: None, history_days: Some(30), enabled: None };
    let n = apply_config_update(&cur, &req);
    assert_eq!(n.title, "Service Status");
    assert_eq!(n.description, "Ours");
    assert!(!n.show_subscribe);
    assert_eq!(n.history_days, 30);
}

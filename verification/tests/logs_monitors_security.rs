use arcpanel::logs::{
    docker_log_path, log_stats_path, service_log_path, site_log_path, site_search_path,
    issue_stream_ticket, stream_access, stream_ticket, system_log_path, system_search_path, LogError, LogQuery, SearchQuery,
    StreamTokenQuery,
};
use arcpanel::monitors::{
    certificate_status, check_interval, check_monitor_rest, check_monitor_target,
    heartbeat_token_ok, maintenance_request, monitors_summary, needs_global_alerts,
    status_page_enabled, update_interval, update_url_to_check, window_active, CreateMonitor,
    MonitorError, UpdateMonitor,
};
use arcpanel::security::{
    audit_paging, check_firewall_rule, check_jail_name, firewall_rule_name, integrity_finding,
    lockdown_reason, login_succeeded, posture_score, report_card, scan_alert, scan_detail,
    score_color, scan_counts, severity_color, tally_findings, FirewallRuleRequest, SecurityError,
};

fn lq(t: Option<&str>, lines: Option<u32>, filter: Option<&str>) -> LogQuery {
    LogQuery { log_type: t.map(Into::into), lines, filter: filter.map(Into::into) }
}

#[test]
fn log_paths() {
    assert_eq!(system_log_path(&lq(None, None, None)).unwrap(), "/logs?type=nginx_access&lines=100");
    assert_eq!(system_log_path(&lq(Some("syslog"), Some(5000), Some("a b"))).unwrap(), "/logs?type=syslog&lines=1000&filter=a%20b");
    assert_eq!(system_log_path(&lq(Some("kern"), None, None)), Err(LogError::InvalidLogType));
    assert_eq!(site_log_path("x.com", &lq(None, Some(0), None)).unwrap(), "/logs/x.com?type=access&lines=1");
    assert_eq!(site_log_path("x.com", &lq(Some("syslog"), None, None)), Err(LogError::InvalidSiteLogType));
}

#[test]
fn search_paths() {
    let q = |t: Option<&str>, p: Option<&str>, m: Option<u32>| SearchQuery { log_type: t.map(Into::into), pattern: p.map(Into::into), max: m };
    assert_eq!(system_search_path(&q(None, Some("err"), None)).unwrap(), "/logs/search?type=nginx_access&pattern=err&max=500");
    assert_eq!(system_search_path(&q(None, Some(""), None)), Err(LogError::PatternRequired));
    assert_eq!(system_search_path(&q(None, None, None)), Err(LogError::PatternRequired));
    assert_eq!(
        site_search_path("x.com", &q(Some("error"), Some("5xx"), Some(9999))).unwrap(),
        "/logs/search?type=nginx_error%3Ax.com&pattern=5xx&max=5000"
    );
}

#[test]
fn streams_and_units() {
    let sys = StreamTokenQuery { site_id: None, log_type: None };
    assert_eq!(stream_access(&sys, "user"), Err(LogError::AdminRequired));
    assert_eq!(stream_access(&sys, "admin").unwrap(), ("nginx_access".to_string(), None));
    let site = StreamTokenQuery { site_id: Some("x".into()), log_type: Some("error".into()) };
    assert_eq!(stream_access(&site, "user"), Err(LogError::InvalidSiteId));
    let site = StreamTokenQuery { site_id: Some("67e55044-10b1-426f-9247-bb680e5fe0c8".into()), log_type: Some("error".into()) };
    assert_eq!(stream_access(&site, "user").unwrap(), ("error".to_string(), Some(0x67e5504410b1426f9247bb680e5fe0c8u128)));
    assert_eq!(LogError::AdminRequired.status(), 403);
    assert_eq!(docker_log_path("web_1", None).unwrap(), "/logs/docker/web_1?lines=200");
    assert_eq!(docker_log_path("web;rm", None), Err(LogError::InvalidContainer));
    assert_eq!(service_log_path("nginx", Some("50")).unwrap(), "/logs/service/nginx?lines=50");
    assert_eq!(service_log_path("", None), Err(LogError::InvalidService));
    assert_eq!(log_stats_path(None), "/logs/stats");
    assert_eq!(log_stats_path(Some("x.com")), "/logs/stats?domain=x.com");
}

fn monitor(url: &str, name: &str, t: Option<&str>) -> CreateMonitor {
    CreateMonitor {
        url: url.into(),
        name: name.into(),
        site_id: None,
        check_interval: None,
        alert_email: None,
        alert_slack_url: None,
        alert_discord_url: Some("https://discord.example/hook".into()),
        monitor_type: t.map(Into::into),
        port: None,
        keyword: None,
        keyword_must_contain: None,
        custom_headers: None,
    }
}

#[test]
fn monitor_checks() {
    assert_eq!(check_monitor_target(&monitor(" https://a.example ", "n", None)).unwrap(), ("http".to_string(), "https://a.example".to_string()));
    assert_eq!(check_monitor_target(&monitor("a.example", "n", None)), Err(MonitorError::InvalidUrl));
    assert_eq!(check_monitor_target(&monitor("10.0.0.1", "n", Some("tcp"))).unwrap().0, "tcp");
    assert_eq!(check_monitor_target(&monitor("  ", "n", Some("ping"))), Err(MonitorError::MissingHost));
    assert_eq!(check_monitor_target(&monitor("x", "n", Some("dns"))), Err(MonitorError::InvalidType));
    assert_eq!(check_interval(None), 60);
    assert_eq!(check_interval(Some(5)), 30);
    assert_eq!(check_interval(Some(99999)), 3600);
    let m = monitor("https://a.example", " Home ", None);
    assert!(needs_global_alerts(&m));
    let global = Some((Some("https://slack.example/hook".to_string()), Some("https://d2.example".to_string())));
    let (n, i, s, d) = check_monitor_rest(&m, &global, 3).unwrap();
    assert_eq!(n, "Home");
    assert_eq!(i, 60);
    assert_eq!(s.as_deref(), Some("https://slack.example/hook"));
    assert_eq!(d.as_deref(), Some("https://discord.example/hook"));
    assert_eq!(check_monitor_rest(&m, &global, 50), Err(MonitorError::MonitorLimit));
    assert_eq!(check_monitor_rest(&monitor("u", "  ", None), &None, 0), Err(MonitorError::InvalidName));
}

#[test]
fn monitor_updates_and_results() {
    let mut u = UpdateMonitor {
        name: None, url: Some(" http://b.example ".into()), check_interval: Some(10), enabled: None,
        alert_email: None, alert_slack_url: None, alert_discord_url: None, monitor_type: None,
        port: None, keyword: None, keyword_must_contain: None, custom_headers: None,
    };
    assert_eq!(update_url_to_check(&u).as_deref(), Some("http://b.example"));
    assert_eq!(update_interval(&u), Some(30));
    u.url = Some("10.0.0.1".into());
    assert_eq!(update_url_to_check(&u), None);
    assert!(status_page_enabled(&Some("true".into())));
    assert!(!status_page_enabled(&Some("yes".into())));
    assert_eq!(monitors_summary(&vec!["up".into(), "up".into()]), "operational");
    assert_eq!(monitors_summary(&vec!["up".into(), "down".into()]), "degraded");
    assert_eq!(certificate_status(None), (999, "ok"));
    assert_eq!(certificate_status(Some(-1)), (-1, "expired"));
    assert_eq!(certificate_status(Some(7)), (7, "critical"));
    assert_eq!(certificate_status(Some(30)), (30, "warning"));
    assert_eq!(maintenance_request(None, Some("a"), Some("b")).unwrap().0, "Maintenance");
    assert_eq!(maintenance_request(Some("x"), Some(""), Some("b")), Err(MonitorError::MissingWindow));
    assert!(window_active(5, 5, 10) && window_active(10, 5, 10) && !window_active(11, 5, 10));
    assert!(heartbeat_token_ok(&Some("t".into()), "t"));
    assert!(!heartbeat_token_ok(&None, "t"));
}

#[test]
fn firewall_and_jails() {
    let r = |port: u16, p: Option<&str>, a: Option<&str>| FirewallRuleRequest { port, proto: p.map(Into::into), action: a.map(Into::into), from: None };
    assert_eq!(check_firewall_rule(&r(22, None, None)).unwrap(), (22, "tcp".to_string(), "allow".to_string()));
    assert_eq!(check_firewall_rule(&r(0, None, None)), Err(SecurityError::InvalidPort));
    assert_eq!(check_firewall_rule(&r(53, Some("icmp"), None)), Err(SecurityError::InvalidProtocol));
    assert_eq!(check_firewall_rule(&r(53, Some("udp"), Some("drop"))), Err(SecurityError::InvalidAction));
    assert_eq!(firewall_rule_name(8080, "tcp/udp"), "8080/tcp/udp");
    assert!(check_jail_name("sshd-panel_1").is_ok());
    assert_eq!(check_jail_name("ssh d"), Err(SecurityError::InvalidJail));
    assert!(login_succeeded("auth.login"));
    assert!(!login_succeeded("auth.login_failed"));
    assert_eq!(lockdown_reason(None), "Manual admin lockdown");
    assert_eq!(audit_paging(None, None), (100, 0));
    assert_eq!(audit_paging(Some("9999"), Some("20")), (500, 20));
    assert_eq!(audit_paging(Some("x"), Some("-3")), (100, -3));
    assert_eq!(audit_paging(Some("+7"), Some("9223372036854775807")), (7, i64::MAX));
    assert_eq!(audit_paging(Some("-9223372036854775808"), Some("9223372036854775808")), (i64::MIN, 0));
    assert_eq!(audit_paging(Some(""), Some("-")), (100, 0));
    assert_eq!(audit_paging(Some(" 5"), Some("1a")), (100, 0));
}

#[test]
fn scan_results() {
    let sev = vec![Some("critical".to_string()), Some("warning".to_string()), None, Some("low".to_string()), Some("critical".to_string())];
    let t = tally_findings(&sev);
    assert_eq!((t.critical, t.warning, t.info), (2, 1, 2));
    assert_eq!(integrity_finding("/etc/passwd", "a", "a"), None);
    assert_eq!(
        integrity_finding("/etc/passwd", "a", "b"),
        Some(("File modified: /etc/passwd".to_string(), "Hash changed from a to b".to_string()))
    );
    assert_eq!(scan_alert(0, 0, 4), None);
    let (sev, title, msg) = scan_alert(0, 2, 5).unwrap();
    assert_eq!(sev, "warning");
    assert_eq!(title, "Security scan: 0 critical, 2 warning findings");
    assert_eq!(msg, "A security scan completed with 5 total findings (0 critical, 2 warning). Review the scan results in the Security section.");
    assert_eq!(scan_alert(1, 0, 1).unwrap().0, "critical");
    assert_eq!(scan_detail(5, 1), "5 findings, 1 critical");
    assert_eq!(posture_score(None), -1);
    assert_eq!(posture_score(Some((1, 2))), 70);
    assert_eq!(posture_score(Some((9, 0))), 0);
    assert_eq!(severity_color("critical"), "#ef4444");
    assert_eq!(severity_color("other"), "#3b82f6");
    assert_eq!(score_color(80), "#22c55e");
    assert_eq!(score_color(50), "#f59e0b");
    assert_eq!(score_color(49), "#ef4444");
    assert_eq!(report_card(true, "On", "Off"), ("pass", "On"));
    assert_eq!(report_card(false, "On", "Off"), ("fail", "Off"));
}

#[test]
fn scan_counts_add_changed_files_as_warnings() {
    let sev = vec![Some("critical".to_string()), Some("warning".to_string()), None, Some("low".to_string())];
    let files = vec![
        ("/etc/passwd".to_string(), Some("aa".to_string()), "bb".to_string()),
        ("/etc/hosts".to_string(), Some("cc".to_string()), "cc".to_string()),
        ("/etc/new".to_string(), None, "dd".to_string()),
        ("/etc/shadow".to_string(), Some("ee".to_string()), "ff".to_string()),
    ];
    let c = scan_counts(&sev, &files);
    assert_eq!((c.critical, c.warning, c.info, c.total), (1, 3, 2, 6));
    let c = scan_counts(&Vec::new(), &Vec::new());
    assert_eq!((c.critical, c.warning, c.info, c.total), (0, 0, 0, 0));
}

#[test]
fn stream_tickets_are_signed_for_a_minute() {
    let sys = StreamTokenQuery { site_id: None, log_type: None };
    assert_eq!(stream_ticket(&sys, "user", "a@b.c", "agent-secret", 1_000), Err(LogError::AdminRequired));
    let bad = StreamTokenQuery { site_id: Some("nope".into()), log_type: None };
    assert_eq!(issue_stream_ticket(&bad, "admin", "a@b.c", "agent-secret"), Err(LogError::InvalidSiteId));

    let now = chrono::Utc::now().timestamp();
    let (tok, ty, site) = stream_ticket(&sys, "admin", "a@b.c", "agent-secret", now).unwrap();
    assert_eq!(ty, "nginx_access");
    assert_eq!(site, None);
    let data = jsonwebtoken::decode::<serde_json::Value>(
        &tok,
        &jsonwebtoken::DecodingKey::from_secret(b"agent-secret"),
        &jsonwebtoken::Validation::default(),
    )
    .unwrap();
    assert_eq!(data.claims["sub"], "a@b.c");
    assert_eq!(data.claims["purpose"], "log_stream");
    assert_eq!(data.claims["exp"].as_i64().unwrap(), now + 60);
    let payload = tok.split('.').nth(1).unwrap();
    let payload = base64::Engine::decode(&base64::engine::general_purpose::URL_SAFE_NO_PAD, payload).unwrap();
    assert_eq!(
        String::from_utf8(payload).unwrap(),
        format!("{{\"sub\":\"a@b.c\",\"purpose\":\"log_stream\",\"exp\":{}}}", now + 60)
    );
    assert!(jsonwebtoken::decode::<serde_json::Value>(
        &tok,
        &jsonwebtoken::DecodingKey::from_secret(b"other"),
        &jsonwebtoken::Validation::default(),
    )
    .is_err());

    let (tok2, _, _) = issue_stream_ticket(&sys, "admin", "a@b.c", "agent-secret").unwrap();
    assert_eq!(tok2.split('.').count(), 3);
    assert_eq!(LogError::TicketFailed.status(), 500);
}

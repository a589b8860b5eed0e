use arcpanel::settings::{
    alert_rule_row, branding_of, check_settings, exportable_key, is_import_key, is_update_key,
    listed_value, monitor_row, oauth_providers, plan_settings_import, plan_test_email,
    plan_test_webhook, policy_row, row_value, schedule_row, session_token, setting_write,
    smtp_config, touches_smtp, ImportedAlertRule, ImportedMonitor, ImportedPolicy,
    ImportedSchedule, ImportedSetting, SettingWrite, SettingsError, TestSendError,
};

fn rows(v: &[(&str, &str)]) -> Vec<(String, String)> {
    v.iter().map(|(k, x)| (k.to_string(), x.to_string())).collect()
}

#[test]
fn keys() {
    assert!(is_update_key("smtp_host"));
    assert!(is_update_key("telemetry_endpoint"));
    assert!(!is_update_key("jwt_secret"));
    assert!(is_import_key("panel_name"));
    assert!(is_import_key("telemetry_enabled"));
    assert!(is_import_key("telemetry_endpoint"));
    assert!(!is_import_key("bogus_key"));
    assert!(!exportable_key("smtp_password"));
    assert!(!exportable_key("oauth_github_client_secret"));
    assert!(exportable_key("panel_name"));
    assert_eq!(listed_value("smtp_password", "abc"), "********");
    assert_eq!(listed_value("smtp_password", ""), "");
    assert_eq!(listed_value("panel_name", "X"), "X");
}

#[test]
fn settings_changes() {
    assert!(check_settings(&rows(&[("panel_name", "P"), ("logo_url", "/logo.png"), ("accent_color", "#ff00aa")])).is_ok());
    assert_eq!(
        check_settings(&rows(&[("panel_name", "P"), ("nope", "1"), ("also_nope", "2")])),
        Err(SettingsError::UnknownSetting("nope".into()))
    );
    assert_eq!(check_settings(&rows(&[("logo_url", "ftp://x")])), Err(SettingsError::InvalidLogoUrl));
    assert_eq!(check_settings(&rows(&[("accent_color", "#zzz")])), Err(SettingsError::InvalidAccentColor));
    assert!(check_settings(&rows(&[("accent_color", "rgb(1,2,3)")])).is_ok());
    assert_eq!(SettingsError::UnknownSetting("k".into()).message(), "Unknown setting: k");
    assert_eq!(setting_write("smtp_password", "********"), SettingWrite::Skip);
    assert_eq!(setting_write("smtp_password", "pw"), SettingWrite::Encrypted);
    assert_eq!(setting_write("smtp_password", ""), SettingWrite::Plain);
    assert_eq!(setting_write("panel_name", "x"), SettingWrite::Plain);
    assert!(touches_smtp(&rows(&[("panel_name", "x"), ("smtp_port", "25")])));
    assert!(!touches_smtp(&rows(&[("panel_name", "x")])));
}

#[test]
fn smtp_and_tests() {
    let r = rows(&[("smtp_host", "mail.x"), ("smtp_port", "bad"), ("smtp_from", "a@x"), ("smtp_host", "mx.x")]);
    assert_eq!(row_value(&r, "smtp_host").as_deref(), Some("mx.x"));
    let c = smtp_config(&r).unwrap();
    assert_eq!(c.host, "mx.x");
    assert_eq!(c.port, 587);
    assert_eq!(c.from_name, "Arcpanel");
    assert_eq!(c.encryption, "starttls");
    assert_eq!(smtp_config(&rows(&[("smtp_port", "25")])).is_none(), true);
    assert_eq!(smtp_config(&rows(&[("smtp_host", "h"), ("smtp_port", "2525")])).unwrap().port, 2525);
    assert_eq!(plan_test_email(None, "admin@x", &r).unwrap(), ("admin@x".to_string(), "a@x".to_string(), "Arcpanel".to_string()));
    assert_eq!(plan_test_email(Some("nobody"), "admin@x", &r), Err(TestSendError::InvalidRecipient));
    assert_eq!(plan_test_email(None, "admin@x", &rows(&[])), Err(TestSendError::SmtpNotConfigured));
    assert_eq!(plan_test_webhook(None, None), Err(TestSendError::UrlRequired));
    assert_eq!(plan_test_webhook(Some("http://x"), None), Err(TestSendError::InvalidWebhookUrl));
    let (k, t, reply) = plan_test_webhook(Some("https://hooks.slack.com/x"), Some("slack")).unwrap();
    assert_eq!(k, "text");
    assert!(t.contains("Slack"));
    assert_eq!(reply, "slack test sent");
    let (k, _, reply) = plan_test_webhook(Some("https://x"), None).unwrap();
    assert_eq!(k, "content");
    assert_eq!(reply, "webhook test sent");
}

#[test]
fn sign_in_and_branding() {
    let keys = vec!["oauth_google_client_id".to_string(), "panel_name".to_string(), "oauth_gitlab_client_id".to_string()];
    assert_eq!(oauth_providers(&keys), vec!["google".to_string(), "gitlab".to_string()]);
    assert_eq!(session_token(Some("Bearer abc"), Some("token=zzz")).as_deref(), Some("abc"));
    assert_eq!(session_token(None, Some("a=1; token=zzz; b=2")).as_deref(), Some("zzz"));
    assert_eq!(session_token(Some("Basic x"), None), None);
    let r = rows(&[("panel_name", "Acme"), ("hide_branding", "true")]);
    let b = branding_of(&r, None);
    assert_eq!(b.panel_name, "Acme");
    assert!(b.hide_branding);
    let b = branding_of(&r, Some((Some("/r.png".into()), None, None, false)));
    assert_eq!(b.logo_url, "/r.png");
    assert_eq!(b.panel_name, "Acme");
    assert!(!b.hide_branding);
    let b = branding_of(&rows(&[]), Some((None, None, None, false)));
    assert_eq!(b.panel_name, "Arcpanel");
}

#[test]
fn imports() {
    let entries = vec![
        ImportedSetting { key: "panel_name".into(), value: Some("P".into()) },
        ImportedSetting { key: "smtp_password".into(), value: Some("pw".into()) },
        ImportedSetting { key: "telemetry_enabled".into(), value: Some("true".into()) },
        ImportedSetting { key: "bogus_key".into(), value: Some("x".into()) },
        ImportedSetting { key: "timezone".into(), value: None },
    ];
    let (store, skipped) = plan_settings_import(&entries);
    assert_eq!(skipped, 1);
    assert_eq!(store.len(), 3);
    assert_eq!(store[2].key, "telemetry_enabled");
    assert!(!store[0].encrypt);
    assert!(store[1].encrypt);
    let m = monitor_row(&ImportedMonitor { name: Some("m".into()), url: Some("https://x".into()), monitor_type: None, check_interval: None, keyword: None }).unwrap();
    assert_eq!(m.monitor_type, "http");
    assert_eq!(m.check_interval, 60);
    assert!(monitor_row(&ImportedMonitor { name: None, url: Some("u".into()), monitor_type: None, check_interval: None, keyword: None }).is_none());
    let id = "67e55044-10b1-426f-9247-bb680e5fe0c8";
    let s = schedule_row(&ImportedSchedule { site_id: Some(id.into()), schedule: None, retention_count: None, enabled: None }).unwrap();
    assert_eq!(s.site_id, 0x67e5504410b1426f9247bb680e5fe0c8u128);
    assert_eq!(s.schedule, "0 2 * * *");
    assert_eq!(s.retention_count, 7);
    assert!(schedule_row(&ImportedSchedule { site_id: Some("nope".into()), schedule: None, retention_count: None, enabled: None }).is_none());
    let p = policy_row(&ImportedPolicy { name: Some("nightly".into()), schedule: None, backup_sites: None, backup_databases: None, backup_volumes: None, retention_count: Some(4_294_967_298), encrypt: None, verify_after_backup: None }).unwrap();
    assert!(p.backup_sites && p.backup_databases && !p.backup_volumes);
    assert_eq!(p.retention_count, 2);
    let a = alert_rule_row(ImportedAlertRule {
        server_id: Some(id.into()), cpu_threshold: None, cpu_duration: None, memory_threshold: None,
        memory_duration: None, disk_threshold: None, alert_cpu: None, alert_memory: None, alert_disk: None,
        alert_offline: None, alert_backup_failure: None, alert_ssl_expiry: None, alert_service_health: None,
        ssl_warning_days: None, notify_email: None, cooldown_minutes: None, muted_types: None,
    });
    assert_eq!(a.server_id, Some(0x67e5504410b1426f9247bb680e5fe0c8u128));
    assert_eq!(a.cpu_threshold, 90);
    assert_eq!(a.cooldown_minutes, 15);
    assert_eq!(a.ssl_warning_days, "14");
    assert!(a.alert_cpu && !a.alert_ssl_expiry);
}

#[test]
fn saving_the_listed_page_keeps_every_setting() {
    let stored = rows(&[
        ("panel_name", "Panel"),
        ("smtp_password", "enc:abc"),
        ("oauth_google_client_secret", ""),
        ("logo_url", "/logo.png"),
        ("accent_color", "#ff0000"),
        ("timezone", "UTC"),
    ]);
    let page: Vec<(String, String)> =
        stored.iter().map(|(k, v)| (k.clone(), listed_value(k, v))).collect();
    assert_eq!(page[1].1, "********");
    assert!(check_settings(&page).is_ok());
    for ((k, listed), (_, kept)) in page.iter().zip(stored.iter()) {
        match setting_write(k, listed) {
            SettingWrite::Skip => assert_eq!(k, "smtp_password"),
            SettingWrite::Plain => assert_eq!(listed, kept),
            SettingWrite::Encrypted => panic!("a listed page re-encrypts nothing"),
        }
    }
}

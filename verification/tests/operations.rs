use arcpanel::incidents::{
    apply_incident_update, check_component_name, check_incident_update, check_post_update,
    check_subscriber_email, default_status_page, plan_incident, postmortem_template, resolves,
    subscriber_notice, subscriber_token, update_entry_status, wants_postmortem_template,
    CreateIncidentRequest, IncidentError, IncidentFields, PostUpdateRequest, UpdateIncidentRequest,
};
use arcpanel::php::{check_removal, plan_install, progress_url, validate_version, InstallRecord, InstallRequest, PhpError};
use arcpanel::resellers::{apply_update, check_promotion, ResellerError, ResellerTerms, UpdateResellerRequest};
use arcpanel::secrets::{
    check_new_secret, check_vault_name, check_vault_update, encryption_key, import_entry,
    CreateSecretRequest, ImportedSecret, SecretError, UpdateVaultRequest,
};
use arcpanel::stacks::{check_new_stack, check_yaml, service_count, stack_status, ContainerInfo, CreateStackRequest, StackError};
use arcpanel::staging::{plan_staging, staging_body, sync_message, CreateStagingRequest, StagingError};
use arcpanel::system_logs::{count_interval, list_query, log_counts, log_paging, CountParams, LogParams};
use arcpanel::telemetry::{
    check_config_update, check_send, clear_days, event_filter, installation_id_or_placeholder,
    update_available, ClearParams, ConfigUpdate, EventFilter, ListParams, TelemetryError,
};
use sha2::{Digest, Sha256};

fn no_update() -> UpdateIncidentRequest {
    UpdateIncidentRequest {
        title: None, status: None, severity: None, description: None, message: None,
        postmortem: None, postmortem_published: None, visible_on_status_page: None,
    }
}

#[test]
fn incidents() {
    let req = CreateIncidentRequest {
        title: "DB down".into(), severity: None, description: None, status: None,
        component_ids: None, visible_on_status_page: None,
    };
    let n = plan_incident(&req).unwrap();
    assert_eq!((n.status.as_str(), n.severity.as_str(), n.first_update.as_str()), ("investigating", "major", "Incident created"));
    assert!(n.visible_on_status_page);
    let bad = CreateIncidentRequest { title: String::new(), ..req };
    assert_eq!(plan_incident(&bad).err(), Some(IncidentError::InvalidTitle));
    let mut u = no_update();
    u.status = Some("fixed".into());
    assert_eq!(check_incident_update(&u), Err(IncidentError::InvalidStatus));
    u.status = Some("resolved".into());
    assert!(check_incident_update(&u).is_ok());
    assert!(resolves(&u.status));
    assert_eq!(update_entry_status(&no_update(), "monitoring"), "monitoring");
    let cur = IncidentFields {
        title: "T".into(), status: "investigating".into(), severity: "major".into(), description: None,
        postmortem: None, postmortem_published: false, visible_on_status_page: true,
    };
    let mut ch = no_update();
    ch.title = Some(String::new());
    ch.severity = Some("minor".into());
    ch.visible_on_status_page = Some(false);
    let n = apply_incident_update(&cur, &ch);
    assert_eq!(n.title, "T");
    assert_eq!(n.severity, "minor");
    assert!(!n.visible_on_status_page);
    let mut pm = no_update();
    pm.status = Some("postmortem".into());
    assert!(wants_postmortem_template(&pm, &None));
    assert!(!wants_postmortem_template(&pm, &Some("done".into())));
    assert_eq!(check_post_update(&PostUpdateRequest { status: "nope".into(), message: "m".into() }), Err(IncidentError::InvalidStatus));
    let t = postmortem_template(&vec![("10:00".into(), "investigating".into(), "Looking".into())]);
    assert!(t.starts_with("## Incident Postmortem\n\n### Summary\n"));
    assert!(t.contains("### Timeline\n- **10:00** [investigating]: Looking\n\n### Root Cause"));
    assert_eq!(default_status_page().history_days, 90);
    assert!(check_component_name("API").is_ok());
    assert_eq!(check_component_name(""), Err(IncidentError::InvalidComponentName));
    assert_eq!(check_subscriber_email("nobody"), Err(IncidentError::InvalidEmail));
    assert_eq!(subscriber_token().len(), 32);
    let (s, b) = subscriber_notice("Outage", "resolved", "All good");
    assert_eq!(s, "[Status Update] Outage — resolved");
    assert_eq!(b, "Outage\nStatus: resolved\n\nAll good");
}

#[test]
fn php_installs() {
    assert!(validate_version("8.3").is_ok());
    assert_eq!(validate_version("9.0"), Err(PhpError::Unsupported));
    let req = InstallRequest { version: " 8.2 ".into(), method: "native".into(), extensions: vec![] };
    assert_eq!(plan_install(&req, &None).unwrap(), ("8.2".to_string(), InstallRecord::Insert));
    assert_eq!(plan_install(&req, &Some("error".into())).unwrap().1, InstallRecord::Reset);
    assert_eq!(plan_install(&req, &Some("active".into())), Err(PhpError::AlreadyInstalled));
    assert_eq!(PhpError::AlreadyInstalled.message("8.2"), "PHP 8.2 is already installed on this server");
    assert_eq!(PhpError::AlreadyInstalled.status(), 409);
    assert_eq!(check_removal(3), Err(PhpError::InUse(3)));
    assert_eq!(PhpError::InUse(3).status(), 409);
    assert_eq!(PhpError::InUse(3).message("8.1"), "PHP 8.1 is in use by 3 site(s). Migrate those sites first.");
    assert!(check_removal(0).is_ok());
    assert_eq!(progress_url("abc"), "/api/php/install-progress/abc");
}

#[test]
fn resellers() {
    assert_eq!(check_promotion("admin", false), Err(ResellerError::CannotPromoteAdmin));
    assert_eq!(check_promotion("reseller", true), Err(ResellerError::AlreadyReseller));
    assert!(check_promotion("user", false).is_ok());
    let cur = ResellerTerms {
        panel_name: Some("R".into()), max_users: Some(5), max_sites: None, max_databases: None,
        max_disk_mb: Some(100), max_email_accounts: None, logo_url: None, accent_color: None, hide_branding: true,
    };
    let req = UpdateResellerRequest {
        panel_name: None, max_users: Some(9), max_sites: None, max_databases: None, max_disk_mb: None,
        max_email_accounts: Some(3), logo_url: None, accent_color: None, hide_branding: None,
    };
    let t = apply_update(&cur, &req);
    assert_eq!(t.panel_name.as_deref(), Some("R"));
    assert_eq!(t.max_users, Some(9));
    assert_eq!(t.max_disk_mb, Some(100));
    assert_eq!(t.max_email_accounts, Some(3));
    assert!(t.hide_branding);
}

#[test]
fn secrets() {
    assert!(check_vault_name("prod").is_ok());
    assert_eq!(check_vault_name(""), Err(SecretError::InvalidVaultName));
    assert!(check_vault_update(&UpdateVaultRequest { name: None, description: None }).is_ok());
    let s = |k: &str, v: &str, t: Option<&str>| CreateSecretRequest { key: k.into(), value: v.into(), description: None, secret_type: t.map(Into::into), auto_inject: None };
    assert_eq!(check_new_secret(&s("DB_URL", "x", None)).unwrap(), "env");
    assert_eq!(check_new_secret(&s("", "x", None)), Err(SecretError::InvalidKey));
    assert_eq!(check_new_secret(&s("K", "", None)), Err(SecretError::EmptyValue));
    assert_eq!(check_new_secret(&s("K", "v", Some("blob"))), Err(SecretError::InvalidType));
    let expected = hex::encode(Sha256::digest(b"arcpanel-secrets-encryption:jwt"));
    assert_eq!(encryption_key(None, "jwt"), expected);
    assert_eq!(encryption_key(Some("given".into()), "jwt"), "given");
    let e = import_entry(&ImportedSecret { key: Some("K".into()), encrypted_value: Some("E".into()), description: None, secret_type: None, auto_inject: None }).unwrap();
    assert_eq!((e.secret_type.as_str(), e.auto_inject), ("env", false));
    assert!(import_entry(&ImportedSecret { key: Some("K".into()), encrypted_value: None, description: None, secret_type: None, auto_inject: None }).is_none());
}

#[test]
fn stacks_and_staging() {
    assert!(check_new_stack(&CreateStackRequest { name: "web".into(), yaml: "services: {}".into() }).is_ok());
    assert_eq!(check_new_stack(&CreateStackRequest { name: "  ".into(), yaml: String::new() }), Err(StackError::InvalidName));
    assert_eq!(check_yaml(&"x".repeat(65537)), Err(StackError::YamlTooLarge));
    assert_eq!(service_count(Some(3)), 3);
    assert_eq!(service_count(None), 0);
    let c = |s: Option<&str>, st: &str| ContainerInfo { stack_id: s.map(Into::into), status: Some(st.into()) };
    let apps = vec![c(Some("a"), "running"), c(Some("a"), "exited"), c(Some("b"), "running"), c(None, "running")];
    assert_eq!(stack_status(&apps, "a"), (1, 2, "partial"));
    assert_eq!(stack_status(&apps, "b"), (1, 1, "running"));
    assert_eq!(stack_status(&apps, "z"), (0, 0, "removed"));
    assert_eq!(stack_status(&vec![c(Some("a"), "exited")], "a"), (0, 1, "stopped"));

    let none = CreateStagingRequest { domain: None };
    assert_eq!(plan_staging("active", false, false, "x.com", &none).unwrap(), "staging.x.com");
    assert_eq!(plan_staging("creating", false, false, "x.com", &none), Err(StagingError::ParentNotActive));
    assert_eq!(plan_staging("active", true, false, "x.com", &none), Err(StagingError::ParentIsStaging));
    assert_eq!(plan_staging("active", false, true, "x.com", &none), Err(StagingError::AlreadyExists));
    assert_eq!(plan_staging("active", false, false, "x.com", &CreateStagingRequest { domain: Some("bad domain".into()) }), Err(StagingError::InvalidDomain));
    assert_eq!(plan_staging("active", false, false, "x.com", &CreateStagingRequest { domain: Some("dev.x.com".into()) }).unwrap(), "dev.x.com");
    assert_eq!(staging_body("php", None, &Some("8.3".into())).fields.len(), 2);
    assert_eq!(sync_message("Synced", "a.com", "b.com"), "Synced a.com → b.com");
}

#[test]
fn panel_log() {
    let p = LogParams { level: Some("error".into()), source: Some("agent".into()), since: Some("7d".into()), limit: Some(1000), offset: Some(-5) };
    assert_eq!(log_paging(&p), (200, 0));
    let (sql, binds) = list_query(&p);
    assert_eq!(
        sql,
        "SELECT id, level, source, message, details, created_at FROM system_logs WHERE level = $1 AND source = $2 AND created_at > NOW() - INTERVAL '7 days' ORDER BY created_at DESC LIMIT $3 OFFSET $4"
    );
    assert_eq!(binds, vec!["error".to_string(), "agent".to_string()]);
    let q = LogParams { level: Some("debug".into()), source: None, since: None, limit: None, offset: None };
    assert_eq!(log_paging(&q), (50, 0));
    assert_eq!(list_query(&q).0, "SELECT id, level, source, message, details, created_at FROM system_logs  ORDER BY created_at DESC LIMIT $1 OFFSET $2");
    assert_eq!(count_interval(&CountParams { since: Some("1h".into()) }), "1 hour");
    assert_eq!(count_interval(&CountParams { since: Some("2y".into()) }), "24 hours");
    let c = log_counts(&vec![("error".into(), 3), ("info".into(), 7)]);
    assert_eq!((c.error, c.warning, c.info), (3, 0, 7));
}

#[test]
fn telemetry() {
    let u = |e: Option<&str>, en: Option<&str>| ConfigUpdate { telemetry_endpoint: e.map(Into::into), telemetry_enabled: en.map(Into::into) };
    assert!(check_config_update(&u(Some(""), Some("false"))).is_ok());
    assert_eq!(check_config_update(&u(Some("http://x"), None)), Err(TelemetryError::EndpointNotHttps));
    assert_eq!(check_config_update(&u(Some(&format!("https://{}", "a".repeat(510))), None)), Err(TelemetryError::EndpointTooLong));
    assert_eq!(check_config_update(&u(None, Some("yes"))), Err(TelemetryError::InvalidEnabled));
    assert_eq!(check_send(&None, &Some("true".into())), Err(TelemetryError::NoEndpoint));
    assert_eq!(check_send(&Some("https://t".into()), &Some("false".into())), Err(TelemetryError::NotEnabled));
    assert!(check_send(&Some("https://t".into()), &Some("true".into())).is_ok());
    assert_eq!(clear_days(&ClearParams { before_days: Some(-2) }), 0);
    assert_eq!(clear_days(&ClearParams { before_days: Some(99999) }), 3650);
    assert!(update_available(&vec![("update_available_version".into(), "1.2".into())]));
    assert!(!update_available(&vec![("update_available_version".into(), "".into())]));
    assert_eq!(installation_id_or_placeholder(None), "not yet generated");
    let lp = |c: Option<&str>, t: Option<&str>| ListParams { limit: None, offset: None, category: c.map(Into::into), event_type: t.map(Into::into) };
    assert_eq!(event_filter(&lp(Some("error"), Some("x"))), EventFilter::Category("error".into()));
    assert_eq!(event_filter(&lp(None, Some("x"))), EventFilter::EventType("x".into()));
    assert_eq!(event_filter(&lp(None, None)), EventFilter::All);
}

use arcpanel::metrics::MetricsQuery;
use arcpanel::notifications::{check_marked, event_for, NotificationError};
use arcpanel::site_settings::ProvisionStep;
use arcpanel::system::{
    health_reply, reverse_proxy_after, service_install_finished, service_install_message,
    service_install_started, traefik_install_body, update_event_steps, update_failed_steps,
    update_started, ProvisionLog, SystemError, UpdateEvent,
};
use arcpanel::agent_body::JsonScalar;

fn step(s: &str, l: &str, st: &str) -> ProvisionStep {
    ProvisionStep::new(s, l, st, None)
}

fn triple(p: &ProvisionStep) -> (String, String, String, Option<String>) {
    (p.step.clone(), p.label.clone(), p.status.clone(), p.message.clone())
}

#[test]
fn log_replays_emitted_steps_in_order() {
    let mut log = ProvisionLog::new();
    log.open(7);
    log.emit(7, step("a", "A", "in_progress"));
    log.emit(7, step("b", "B", "done"));
    let h = log.history(7).unwrap();
    assert_eq!(h.len(), 2);
    assert_eq!(h[0].step, "a");
    assert_eq!(h[1].label, "B");
}

#[test]
fn log_ignores_unknown_and_closed_installs() {
    let mut log = ProvisionLog::new();
    log.emit(1, step("a", "A", "done"));
    assert_eq!(log.history(1).unwrap_err(), SystemError::NoActiveInstall);
    log.open(1);
    log.open(2);
    log.emit(2, step("x", "X", "done"));
    assert_eq!(log.history(1).unwrap().len(), 0);
    log.close(2);
    log.emit(2, step("y", "Y", "done"));
    assert!(log.history(2).is_err());
    assert_eq!(SystemError::NoActiveInstall.status(), 404);
    assert_eq!(SystemError::NoActiveInstall.message(), "No active install");
}

#[test]
fn reopening_clears_history() {
    let mut log = ProvisionLog::new();
    log.open(3);
    log.emit(3, step("a", "A", "done"));
    log.open(3);
    assert_eq!(log.history(3).unwrap().len(), 0);
}

#[test]
fn update_events() {
    let line = UpdateEvent { kind: Some("line".into()), line: Some("Unpacking x".into()), success: None };
    let v = update_event_steps(&line);
    assert_eq!(v.len(), 1);
    assert_eq!(triple(&v[0]), ("line".into(), "Unpacking x".into(), "in_progress".into(), None));

    let empty = UpdateEvent { kind: Some("line".into()), line: Some(String::new()), success: None };
    assert!(update_event_steps(&empty).is_empty());

    let ok = UpdateEvent { kind: Some("done".into()), line: None, success: Some(true) };
    let v = update_event_steps(&ok);
    assert_eq!(v[0].status, "done");
    assert_eq!(v[1].label, "Updates applied");

    let bad = UpdateEvent { kind: Some("done".into()), line: None, success: None };
    let v = update_event_steps(&bad);
    assert_eq!(v[0].status, "error");
    assert_eq!(v[1].label, "Updates finished with errors");

    let other = UpdateEvent { kind: None, line: Some("x".into()), success: Some(true) };
    assert!(update_event_steps(&other).is_empty());

    assert_eq!(update_started().label, "Applying system updates");
    let f = update_failed_steps("boom");
    assert_eq!(f[0].message.as_deref(), Some("boom"));
    assert_eq!(f[1].label, "Update failed");
}

#[test]
fn service_install_steps() {
    assert_eq!(service_install_started("UFW Firewall").label, "Installing UFW Firewall");
    let ok = service_install_finished("Certbot", Ok(()));
    assert_eq!(ok[1].label, "Certbot installed");
    assert_eq!(ok[0].status, "done");
    let err = service_install_finished("Certbot", Err("timeout".into()));
    assert_eq!(err[0].message.as_deref(), Some("timeout"));
    assert_eq!(err[1].label, "Install failed");
    assert_eq!(service_install_message("PHP"), "PHP installation started");
}

#[test]
fn health_and_traefik() {
    let up = health_reply(true, "1.2.3");
    assert_eq!(up.fields.len(), 3);
    assert!(matches!(&up.fields[0].1, JsonScalar::Str(s) if s == "ok"));
    let down = health_reply(false, "1.2.3");
    assert_eq!(down.fields[1].0, "db");
    assert!(matches!(&down.fields[0].1, JsonScalar::Str(s) if s == "degraded"));
    let b = traefik_install_body(None);
    assert!(matches!(&b.fields[0].1, JsonScalar::Str(s) if s == "admin@localhost"));
    let b = traefik_install_body(Some("ops@example.com"));
    assert!(matches!(&b.fields[0].1, JsonScalar::Str(s) if s == "ops@example.com"));
    assert_eq!(reverse_proxy_after(true), "traefik");
    assert_eq!(reverse_proxy_after(false), "nginx");
}

#[test]
fn metrics_window() {
    let q = |h: Option<i32>| MetricsQuery { metric_type: None, hours: h };
    assert_eq!(q(None).window_hours(), 24);
    assert_eq!(q(Some(0)).window_hours(), 1);
    assert_eq!(q(Some(500)).window_hours(), 168);
    assert_eq!(q(Some(48)).window_hours(), 48);
    assert_eq!(q(None).metric_kind(), "cpu");
    let m = MetricsQuery { metric_type: Some("memory".into()), hours: None };
    assert_eq!(m.metric_kind(), "memory");
}

#[test]
fn notifications() {
    assert!(check_marked(1).is_ok());
    assert_eq!(check_marked(0), Err(NotificationError::NotFoundOrRead));
    assert_eq!(event_for(Some((5, "hi".into())), 5), Some("hi".to_string()));
    assert_eq!(event_for(Some((5, "hi".into())), 6), None);
    assert_eq!(event_for(None, 6), None);
}

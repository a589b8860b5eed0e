//! Verified core of a hosting control panel: request validation, the rules
//! that turn stored state into decisions, and the byte-level parsing of
//! WebAuthn authenticator data.

pub mod crypto;
pub mod text;
pub mod passkeys;
pub mod scan_gate;
pub mod domain;
pub mod agent_body;
pub mod sites;
pub mod site_settings;
pub mod site_provision;
pub mod mail;
pub mod mail_dns;
pub mod incidents;
pub mod users;
pub mod teams;
pub mod monitors;
pub mod security;
pub mod logs;
pub mod system_logs;
pub mod secrets;
pub mod sboms;
pub mod prometheus;
pub mod php;
pub mod settings;
pub mod telemetry;
pub mod servers;
pub mod stacks;
pub mod staging;
pub mod resellers;
pub mod ssl;
pub mod system;
pub mod metrics;
pub mod notifications;

//! Server maintenance: the progress log that long-running installs write to
//! and readers replay, the steps reported while packages update or a service
//! installs, and the health reply.

use std::collections::HashMap;
use vstd::prelude::*;

use crate::agent_body::{AgentBody, JsonScalar, Scalar};
use crate::site_settings::ProvisionStep;
use crate::text::{chars_of, concat2, str_eq};

verus! {

broadcast use vstd::std_specs::hash::group_hash_axioms;

/// A progress step as a mathematical value: step, label, status, message.
pub type StepView = (Seq<char>, Seq<char>, Seq<char>, Option<Seq<char>>);

/// The steps of a list as mathematical values.
pub open spec fn steps_view(v: Seq<ProvisionStep>) -> Seq<StepView> {
    v.map_values(|p: ProvisionStep| p@)
}

/// Why a progress log cannot be replayed.
#[derive(Debug, Clone, Copy, PartialEq, Eq, Structural)]
pub enum SystemError {
    NoActiveInstall,
}

impl SystemError {
    pub fn status(&self) -> (s: u16)
        ensures
            s == 404,
    {
        404
    }

    pub fn message(&self) -> (m: &'static str)
        ensures
            m@ == "No active install"@,
    {
        "No active install"
    }
}

/// The progress of each running install, by install id: the steps it
/// reported so far, oldest first.
pub struct ProvisionLog {
    logs: HashMap<u128, Vec<ProvisionStep>>,
}

impl View for ProvisionLog {
    type V = Map<u128, Seq<StepView>>;

    closed spec fn view(&self) -> Map<u128, Seq<StepView>> {
        self.logs@.map_values(|v: Vec<ProvisionStep>| steps_view(v@))
    }
}

/// The log after a step is reported for an install: appended to that
/// install's steps while it is open, ignored once it is closed.
pub open spec fn emitted(log: Map<u128, Seq<StepView>>, id: u128, step: StepView) -> Map<u128, Seq<StepView>> {
    if log.contains_key(id) {
        log.insert(id, log[id].push(step))
    } else {
        log
    }
}

fn copy_steps(v: &Vec<ProvisionStep>) -> (c: Vec<ProvisionStep>)
    ensures
        steps_view(c@) == steps_view(v@),
{
    let mut c: Vec<ProvisionStep> = Vec::new();
    let mut i: usize = 0;
    while i < v.len()
        invariant
            i <= v@.len(),
            steps_view(c@) == steps_view(v@.take(i as int)),
        decreases v@.len() - i,
    {
        c.push(v[i].copy());
        assert(steps_view(v@.take(i + 1)) =~= steps_view(v@.take(i as int)).push(v@[i as int]@));
        i = i + 1;
    }
    assert(v@.take(i as int) =~= v@);
    c
}

impl ProvisionLog {
    pub fn new() -> (l: Self)
        ensures
            l@ == Map::<u128, Seq<StepView>>::empty(),
    {
        let l = ProvisionLog { logs: HashMap::new() };
        assert(l@ =~= Map::<u128, Seq<StepView>>::empty());
        l
    }

    /// Starts the log of an install with no steps.
    pub fn open(&mut self, id: u128)
        ensures
            final(self)@ == old(self)@.insert(id, Seq::<StepView>::empty()),
    {
        let empty: Vec<ProvisionStep> = Vec::new();
        assert(steps_view(empty@) =~= Seq::<StepView>::empty());
        self.logs.insert(id, empty);
        assert(self@ =~= old(self)@.insert(id, Seq::<StepView>::empty()));
    }

    /// Records a step of an install.
    pub fn emit(&mut self, id: u128, step: ProvisionStep)
        ensures
            final(self)@ == emitted(old(self)@, id, step@),
    {
        let ghost sv = step@;
        match self.logs.remove(&id) {
            Some(mut history) => {
                history.push(step);
                assert(steps_view(history@) =~= old(self)@[id].push(sv));
                self.logs.insert(id, history);
                assert(self@ =~= emitted(old(self)@, id, sv));
            },
            None => {
                assert(self.logs@ =~= old(self).logs@);
            },
        }
    }

    /// Ends the log of an install.
    pub fn close(&mut self, id: u128)
        ensures
            final(self)@ == old(self)@.remove(id),
    {
        let _ = self.logs.remove(&id);
        assert(self@ =~= old(self)@.remove(id));
    }

    /// The steps an install reported so far, for a reader that joins late.
    pub fn history(&self, id: u128) -> (r: Result<Vec<ProvisionStep>, SystemError>)
        ensures
            match r {
                Ok(v) => self@.contains_key(id) && steps_view(v@) == self@[id],
                Err(e) => !self@.contains_key(id) && e == SystemError::NoActiveInstall,
            },
    {
        match self.logs.get(&id) {
            Some(v) => Ok(copy_steps(v)),
            None => Err(SystemError::NoActiveInstall),
        }
    }
}

/// A step reported to an open install is appended to its steps.
pub proof fn law_emit_appends(log: Map<u128, Seq<StepView>>, id: u128, step: StepView)
    requires
        log.contains_key(id),
    ensures
        emitted(log, id, step).contains_key(id),
        emitted(log, id, step)[id] == log[id].push(step),
{
}

/// A step reported to one install leaves every other install's steps as
/// they were.
pub proof fn law_emit_keeps_others(log: Map<u128, Seq<StepView>>, id: u128, other: u128, step: StepView)
    requires
        other != id,
    ensures
        emitted(log, id, step).contains_key(other) == log.contains_key(other),
        log.contains_key(other) ==> emitted(log, id, step)[other] == log[other],
{
}

/// Once an install's log is closed, steps reported to it are dropped.
pub proof fn law_emit_after_close_is_ignored(log: Map<u128, Seq<StepView>>, id: u128, step: StepView)
    ensures
        emitted(log.remove(id), id, step) == log.remove(id),
{
}

/// A freshly opened log replays exactly the steps reported to it since.
pub proof fn law_open_then_emit_replays(log: Map<u128, Seq<StepView>>, id: u128, a: StepView, b: StepView)
    ensures
        emitted(emitted(log.insert(id, Seq::empty()), id, a), id, b)[id] == seq![a, b],
{
    assert(emitted(emitted(log.insert(id, Seq::empty()), id, a), id, b)[id] =~= seq![a, b]);
}

// ─── Package updates ──────────────────────────────────────────

/// The step shown when package updates start.
pub fn update_started() -> (p: ProvisionStep)
    ensures
        p@ == ("update"@, "Applying system updates"@, "in_progress"@, None::<Seq<char>>),
{
    ProvisionStep::new("update", "Applying system updates", "in_progress", None)
}

/// A line of the agent's streamed update output, as far as it is read:
/// its `type`, its `line` and its `success` flag, each where present with
/// the right JSON type.
pub struct UpdateEvent {
    pub kind: Option<String>,
    pub line: Option<String>,
    pub success: Option<bool>,
}

/// The steps an update event adds: a non-empty output line is shown as it
/// comes; the final event marks the update done, or failed unless it says
/// it succeeded; anything else adds nothing.
pub open spec fn update_event_steps_of(kind: Option<Seq<char>>, line: Option<Seq<char>>, success: Option<bool>) -> Seq<StepView> {
    if kind == Some("line"@) {
        match line {
            Some(l) if l.len() > 0 => seq![("line"@, l, "in_progress"@, None::<Seq<char>>)],
            _ => Seq::empty(),
        }
    } else if kind == Some("done"@) {
        if success == Some(true) {
            seq![
                ("update"@, "Applying system updates"@, "done"@, None::<Seq<char>>),
                ("complete"@, "Updates applied"@, "done"@, None::<Seq<char>>),
            ]
        } else {
            seq![
                ("update"@, "Applying system updates"@, "error"@, None::<Seq<char>>),
                ("complete"@, "Updates finished with errors"@, "error"@, None::<Seq<char>>),
            ]
        }
    } else {
        Seq::empty()
    }
}

pub fn update_event_steps(ev: &UpdateEvent) -> (v: Vec<ProvisionStep>)
    ensures
        steps_view(v@) == update_event_steps_of(ev.kind.deep_view(), ev.line.deep_view(), ev.success),
{
    let mut v: Vec<ProvisionStep> = Vec::new();
    let is_line = match &ev.kind {
        Some(k) => str_eq(k.as_str(), "line"),
        None => false,
    };
    let is_done = match &ev.kind {
        Some(k) => str_eq(k.as_str(), "done"),
        None => false,
    };
    proof {
        reveal_strlit("line");
        reveal_strlit("done");
        assert("line"@[0] != "done"@[0]);
    }
    if is_line {
        match &ev.line {
            Some(l) => {
                if chars_of(l.as_str()).len() > 0 {
                    v.push(ProvisionStep::new("line", l.as_str(), "in_progress", None));
                }
            },
            None => {},
        }
    } else if is_done {
        let ok = match ev.success {
            Some(b) => b,
            None => false,
        };
        if ok {
            v.push(ProvisionStep::new("update", "Applying system updates", "done", None));
            v.push(ProvisionStep::new("complete", "Updates applied", "done", None));
        } else {
            v.push(ProvisionStep::new("update", "Applying system updates", "error", None));
            v.push(ProvisionStep::new("complete", "Updates finished with errors", "error", None));
        }
    }
    assert(steps_view(v@) =~= update_event_steps_of(ev.kind.deep_view(), ev.line.deep_view(), ev.success));
    v
}

/// The steps shown when the agent could not apply the updates.
pub fn update_failed_steps(error: &str) -> (v: Vec<ProvisionStep>)
    ensures
        steps_view(v@) == seq![
            ("update"@, "Failed to apply updates"@, "error"@, Some(error@)),
            ("complete"@, "Update failed"@, "error"@, None::<Seq<char>>),
        ],
{
    let mut v: Vec<ProvisionStep> = Vec::new();
    v.push(ProvisionStep::new("update", "Failed to apply updates", "error", Some(String::from_str(error))));
    v.push(ProvisionStep::new("complete", "Update failed", "error", None));
    assert(steps_view(v@) =~= seq![
        ("update"@, "Failed to apply updates"@, "error"@, Some(error@)),
        ("complete"@, "Update failed"@, "error"@, None::<Seq<char>>),
    ]);
    v
}

// ─── Service installers ───────────────────────────────────────

/// The step shown while a service installs (or uninstalls).
pub fn service_install_started(service: &str) -> (p: ProvisionStep)
    ensures
        p@ == ("install"@, "Installing "@ + service@, "in_progress"@, None::<Seq<char>>),
{
    let label = concat2("Installing ", service);
    ProvisionStep::new("install", label.as_str(), "in_progress", None)
}

/// The steps shown when the agent is done: the install step done and the
/// service installed, or the install step failed with the agent's error.
pub fn service_install_finished(service: &str, outcome: Result<(), String>) -> (v: Vec<ProvisionStep>)
    ensures
        steps_view(v@) == match outcome {
            Ok(_) => seq![
                ("install"@, "Installing "@ + service@, "done"@, None::<Seq<char>>),
                ("complete"@, service@ + " installed"@, "done"@, None::<Seq<char>>),
            ],
            Err(e) => seq![
                ("install"@, "Installing "@ + service@, "error"@, Some(e@)),
                ("complete"@, "Install failed"@, "error"@, None::<Seq<char>>),
            ],
        },
{
    let label = concat2("Installing ", service);
    let mut v: Vec<ProvisionStep> = Vec::new();
    match outcome {
        Ok(_) => {
            let done = concat2(service, " installed");
            v.push(ProvisionStep::new("install", label.as_str(), "done", None));
            v.push(ProvisionStep::new("complete", done.as_str(), "done", None));
        },
        Err(e) => {
            v.push(ProvisionStep::new("install", label.as_str(), "error", Some(e)));
            v.push(ProvisionStep::new("complete", "Install failed", "error", None));
        },
    }
    assert(steps_view(v@) =~= match outcome {
        Ok(_) => seq![
            ("install"@, "Installing "@ + service@, "done"@, None::<Seq<char>>),
            ("complete"@, service@ + " installed"@, "done"@, None::<Seq<char>>),
        ],
        Err(e) => seq![
            ("install"@, "Installing "@ + service@, "error"@, Some(e@)),
            ("complete"@, "Install failed"@, "error"@, None::<Seq<char>>),
        ],
    });
    v
}

/// The reply to a started install.
pub fn service_install_message(service: &str) -> (s: String)
    ensures
        s@ == service@ + " installation started"@,
{
    concat2(service, " installation started")
}

// ─── Health and Traefik ───────────────────────────────────────

/// The public health reply: `ok` when the database answers, else
/// `degraded` with the database marked unreachable.
pub fn health_reply(db_ok: bool, version: &str) -> (b: AgentBody)
    ensures
        b@ == if db_ok {
            seq![
                ("status"@, Scalar::Str("ok"@)),
                ("service"@, Scalar::Str("arc-api"@)),
                ("version"@, Scalar::Str(version@)),
            ]
        } else {
            seq![
                ("status"@, Scalar::Str("degraded"@)),
                ("db"@, Scalar::Str("unreachable"@)),
                ("service"@, Scalar::Str("arc-api"@)),
                ("version"@, Scalar::Str(version@)),
            ]
        },
{
    let mut b = AgentBody::new();
    if db_ok {
        b.set("status", JsonScalar::Str(String::from_str("ok")));
    } else {
        b.set("status", JsonScalar::Str(String::from_str("degraded")));
        b.set("db", JsonScalar::Str(String::from_str("unreachable")));
    }
    b.set("service", JsonScalar::Str(String::from_str("arc-api")));
    b.set("version", JsonScalar::Str(String::from_str(version)));
    proof {
        if db_ok {
            assert(b@ =~= seq![
                ("status"@, Scalar::Str("ok"@)),
                ("service"@, Scalar::Str("arc-api"@)),
                ("version"@, Scalar::Str(version@)),
            ]);
        } else {
            assert(b@ =~= seq![
                ("status"@, Scalar::Str("degraded"@)),
                ("db"@, Scalar::Str("unreachable"@)),
                ("service"@, Scalar::Str("arc-api"@)),
                ("version"@, Scalar::Str(version@)),
            ]);
        }
    }
    b
}

/// What the agent is sent to install Traefik: the ACME e-mail given, or
/// `admin@localhost`.
pub fn traefik_install_body(acme_email: Option<&str>) -> (b: AgentBody)
    ensures
        b@ == seq![("acme_email"@, Scalar::Str(match acme_email {
            Some(e) => e@,
            None => "admin@localhost"@,
        }))],
{
    let mut b = AgentBody::new();
    let email = match acme_email {
        Some(e) => String::from_str(e),
        None => String::from_str("admin@localhost"),
    };
    b.set("acme_email", JsonScalar::Str(email));
    assert(b@ =~= seq![("acme_email"@, Scalar::Str(match acme_email {
        Some(e) => e@,
        None => "admin@localhost"@,
    }))]);
    b
}

/// The reverse proxy recorded after Traefik is installed or removed.
pub fn reverse_proxy_after(traefik_installed: bool) -> (s: &'static str)
    ensures
        s@ == if traefik_installed { "traefik"@ } else { "nginx"@ },
{
    if traefik_installed { "traefik" } else { "nginx" }
}

} // verus!

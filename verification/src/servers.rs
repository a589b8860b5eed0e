//! Managed servers: registering one, the agent's address and install
//! command, what may change, the agent token file, and the uptime strip.

use vstd::prelude::*;

use crate::text::utf8_len;

use crate::crypto::uuid_v4_simple;
use crate::text::{chars_of, concat2, concat3, has_prefix, is_ascii_hex, split_at_char, split_char, trim_str, trimmed, join_with, starts_with, string_from_chars};

verus! {

/// A request to register a server.
pub struct CreateServerRequest {
    pub name: String,
    pub ip_address: Option<String>,
}

/// A server's uptime over the last day in ten-minute buckets.
pub struct UptimeResponse {
    pub buckets: Vec<bool>,
    pub window_hours: i32,
    pub bucket_minutes: i32,
}

/// Why a server request is refused.
#[derive(Debug, Clone, Copy, PartialEq, Eq, Structural)]
pub enum ServerError {
    InvalidName,
    LocalServer,
}

impl ServerError {
    pub fn message(&self) -> (m: &'static str)
        ensures
            m@ == match self {
                ServerError::InvalidName => "Name must be 1-100 characters"@,
                ServerError::LocalServer => "Cannot delete the local server"@,
            },
    {
        match self {
            ServerError::InvalidName => "Name must be 1-100 characters",
            ServerError::LocalServer => "Cannot delete the local server",
        }
    }
}

/// A server to register: its trimmed name, its address (none when
/// empty), the agent's URL on port 9443 of that address, and a fresh
/// agent token.
pub struct NewServer {
    pub name: String,
    pub ip_address: Option<String>,
    pub agent_url: Option<String>,
    pub agent_token: String,
}

pub fn plan_server(req: &CreateServerRequest) -> (r: Result<NewServer, ServerError>)
    ensures
        ({
            let name = trimmed(req.name@);
            let ip = trimmed(match req.ip_address { Some(i) => i@, None => Seq::empty() });
            if name.len() == 0 || utf8_len(name) > 100 {
                r == Err::<NewServer, ServerError>(ServerError::InvalidName)
            } else {
                r matches Ok(s) && s.name@ == name
                    && s.ip_address.deep_view() == (if ip.len() == 0 { None } else { Some(ip) })
                    && s.agent_url.deep_view() == (if ip.len() == 0 { None } else { Some("https://"@ + ip + ":9443"@) })
                    && s.agent_token@.len() == 64
                    && forall|i: int| 0 <= i < 64 ==> is_ascii_hex(#[trigger] s.agent_token@[i])
            }
        }),
{
    let name = trim_str(req.name.as_str());
    if chars_of(name.as_str()).len() == 0 || name.as_str().as_bytes().len() > 100 {
        return Err(ServerError::InvalidName);
    }
    proof {
        reveal_strlit("");
    }
    let ip = match &req.ip_address {
        Some(i) => trim_str(i.as_str()),
        None => trim_str(""),
    };
    let a = uuid_v4_simple();
    let b = uuid_v4_simple();
    let token = concat2(a.as_str(), b.as_str());
    assert forall|i: int| 0 <= i < 64 implies is_ascii_hex(#[trigger] token@[i]) by {
        if i < 32 {
            assert(token@[i] == a@[i]);
        } else {
            assert(token@[i] == b@[i - 32]);
        }
    }
    let empty = chars_of(ip.as_str()).len() == 0;
    proof {
        reveal_strlit("");
        assert(trimmed(""@) =~= Seq::<char>::empty()) by {
            assert(""@.len() == 0);
        }
    }
    let agent_url = if empty { None } else { Some(concat3("https://", ip.as_str(), ":9443")) };
    let ip_address = if empty { None } else { Some(ip) };
    Ok(NewServer { name, ip_address, agent_url, agent_token: token })
}

/// The command that installs the agent on a new server.
pub fn install_script(panel_url: &str, token: &str, server_id: &str) -> (s: String)
    ensures
        s@ == "curl -sSL "@ + panel_url@ + "/install-agent.sh | sudo bash -s -- \\\n  --panel-url "@ + panel_url@
            + " \\\n  --token "@ + token@ + " \\\n  --server-id "@ + server_id@,
{
    let mut s = String::from_str("curl -sSL ");
    s.append(panel_url);
    s.append("/install-agent.sh | sudo bash -s -- \\\n  --panel-url ");
    s.append(panel_url);
    s.append(" \\\n  --token ");
    s.append(token);
    s.append(" \\\n  --server-id ");
    s.append(server_id);
    s
}

/// The panel's own server cannot be removed.
pub fn check_removal(is_local: bool) -> (r: Result<(), ServerError>)
    ensures
        r is Ok <==> !is_local,
        is_local ==> r == Err::<(), ServerError>(ServerError::LocalServer),
{
    if is_local { Err(ServerError::LocalServer) } else { Ok(()) }
}

/// A server after a change: name, address and agent URL take the given
/// values and keep their own otherwise.
pub fn updated_server(
    name: &str,
    ip: &Option<String>,
    url: &Option<String>,
    new_name: Option<&str>,
    new_ip: Option<&str>,
    new_url: Option<&str>,
) -> (r: (String, Option<String>, Option<String>))
    ensures
        r.0@ == match new_name { Some(n) => n@, None => name@ },
        r.1.deep_view() == match new_ip { Some(i) => Some(i@), None => ip.deep_view() },
        r.2.deep_view() == match new_url { Some(u) => Some(u@), None => url.deep_view() },
{
    let n = match new_name { Some(n) => String::from_str(n), None => String::from_str(name) };
    let i = match new_ip {
        Some(x) => Some(String::from_str(x)),
        None => match ip { Some(x) => Some(String::from_str(x.as_str())), None => None },
    };
    let u = match new_url {
        Some(x) => Some(String::from_str(x)),
        None => match url { Some(x) => Some(String::from_str(x.as_str())), None => None },
    };
    (n, i, u)
}

/// The agent's reported version, `unknown` when it gives none.
pub fn agent_version(reported: Option<&str>) -> (s: String)
    ensures
        s@ == match reported { Some(v) => v@, None => "unknown"@ },
{
    match reported { Some(v) => String::from_str(v), None => String::from_str("unknown") }
}

// ─── The agent token file ──────────────────────────────────────

/// The lines of a text as `str::lines` gives them: split at each `\n`, a
/// `\r` right before a `\n` dropped, and no empty last line after a final
/// line break.
pub open spec fn lines_of(s: Seq<char>) -> Seq<Seq<char>> {
    let pieces = split_at_char(s, '\n');
    let n = pieces.len();
    let kept = if pieces[n - 1].len() == 0 { pieces.take(n - 1) } else { pieces };
    Seq::new(kept.len(), |i: int|
        if i < n - 1 && kept[i].len() > 0 && kept[i].last() == '\r' { kept[i].drop_last() } else { kept[i] })
}

/// A line of the environment file with the agent token replaced.
pub open spec fn token_line(line: Seq<char>, token: Seq<char>) -> Seq<char> {
    if has_prefix(line, "AGENT_TOKEN="@) { "AGENT_TOKEN="@ + token } else { line }
}

/// The environment file with its `AGENT_TOKEN=` lines set to the new
/// token, its lines joined by `\n`.
pub open spec fn with_new_token(contents: Seq<char>, token: Seq<char>) -> Seq<char> {
    join_with(lines_of(contents).map_values(|l: Seq<char>| token_line(l, token)), "\n"@)
}

pub fn replace_agent_token(contents: &str, token: &str) -> (r: String)
    ensures
        r@ == with_new_token(contents@, token@),
{
    let cs = chars_of(contents);
    let pieces = split_char(cs.as_slice(), '\n');
    let ghost pm = pieces@.map_values(|v: Vec<char>| v@);
    let n = pieces.len();
    let keep = if pieces[n - 1].len() == 0 { n - 1 } else { n };
    let ghost lines = lines_of(contents@);
    let ghost out_lines = lines.map_values(|l: Seq<char>| token_line(l, token@));
    assert(lines.len() == keep);
    let mut out = String::new();
    let mut i: usize = 0;
    proof {
        reveal_strlit("");
    }
    while i < keep
        invariant
            n == pieces@.len(),
            n >= 1,
            pm == pieces@.map_values(|v: Vec<char>| v@),
            pm == split_at_char(contents@, '\n'),
            keep <= n,
            keep == lines.len(),
            lines == lines_of(contents@),
            out_lines == lines.map_values(|l: Seq<char>| token_line(l, token@)),
            i <= keep,
            out@ == join_with(out_lines.take(i as int), "\n"@),
        decreases keep - i,
    {
        proof {
            reveal_strlit("\n");
            reveal_strlit("\r");
            reveal_strlit("AGENT_TOKEN=");
        }
        let p = &pieces[i];
        let mut line: Vec<char> = Vec::new();
        let strip = i + 1 < n && p.len() > 0 && p[p.len() - 1] == '\r';
        let end = if strip { p.len() - 1 } else { p.len() };
        let mut k: usize = 0;
        while k < end
            invariant
                end <= p@.len(),
                k <= end,
                line@ == p@.take(k as int),
            decreases end - k,
        {
            line.push(p[k]);
            assert(line@ =~= p@.take(k + 1));
            k = k + 1;
        }
        assert(pm[i as int] == p@);
        assert(line@ == lines[i as int]) by {
            if strip {
                assert(p@.take(end as int) =~= p@.drop_last());
            } else {
                assert(p@.take(end as int) =~= p@);
            }
        }
        let ghost joined = out@;
        if i > 0 {
            out.append("\n");
        }
        if starts_with(line.as_slice(), "AGENT_TOKEN=") {
            out.append("AGENT_TOKEN=");
            out.append(token);
        } else {
            let ls = string_from_chars(line.as_slice());
            out.append(ls.as_str());
        }
        assert(out_lines.take(i + 1).drop_last() =~= out_lines.take(i as int));
        assert(out_lines.take(i + 1).last() == out_lines[i as int]);
        if i == 0 {
            assert(out@ =~= join_with(out_lines.take(i + 1), "\n"@));
        } else {
            assert(out@ =~= joined + "\n"@ + out_lines[i as int]);
        }
        i = i + 1;
    }
    assert(out_lines.take(keep as int) =~= out_lines);
    out
}

// ─── Uptime ────────────────────────────────────────────────────

/// The ten-minute bucket a time falls in (Unix seconds divided by 600,
/// rounded toward zero).
pub open spec fn bucket_of(t: i64) -> int {
    if t >= 0 { t as int / 600 } else { -((-(t as int)) / 600) }
}

/// The last day in ten-minute buckets, oldest first, each online when a
/// metrics row landed in it.
pub fn uptime_buckets(online: &Vec<i64>, now: i64) -> (r: UptimeResponse)
    ensures
        r.window_hours == 24,
        r.bucket_minutes == 10,
        r.buckets@.len() == 144,
        forall|i: int| 0 <= i < 144 ==> #[trigger] r.buckets@[i]
            == online@.contains((bucket_of(now) - 143 + i) as i64),
{
    let wide: i128 = now as i128;
    let nb: i128 = if wide >= 0 { wide / 600 } else { -((-wide) / 600) };
    let now_bucket: i64 = nb as i64;
    let start: i64 = now_bucket - 143;
    let mut buckets: Vec<bool> = Vec::new();
    let mut i: i64 = 0;
    while i < 144
        invariant
            now_bucket == bucket_of(now),
            start == now_bucket - 143,
            i64::MIN / 600 - 1 <= now_bucket <= i64::MAX / 600,
            0 <= i <= 144,
            buckets@.len() == i,
            forall|j: int| 0 <= j < i ==> #[trigger] buckets@[j] == online@.contains((start + j) as i64),
        decreases 144 - i,
    {
        let b = start + i;
        let mut found = false;
        let mut k: usize = 0;
        while k < online.len()
            invariant
                k <= online@.len(),
                found <==> exists|j: int| 0 <= j < k && online@[j] == b,
            decreases online@.len() - k,
        {
            if online[k] == b {
                found = true;
            }
            k = k + 1;
        }
        proof {
            if found {
                let j = choose|j: int| 0 <= j < k && online@[j] == b;
                assert(online@.contains(b));
            }
        }
        buckets.push(found);
        i = i + 1;
    }
    UptimeResponse { buckets, window_hours: 24, bucket_minutes: 10 }
}

} // verus!

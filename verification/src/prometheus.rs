//! The Prometheus scrape endpoint: when it answers, how its bearer token
//! is issued, stored and checked.

use vstd::prelude::*;

use crate::crypto::{ct_eq, hex_encode, hex_lower, sha256, sha256_digest, uuid_v4_simple};
use crate::text::{chars_of, concat3, has_prefix, is_ascii_hex, str_eq, string_from_chars};
use vstd::utf8::encode_utf8;

verus! {

/// The token given as a query parameter.
pub struct ScrapeQuery {
    pub token: Option<String>,
}

/// What the administrator sees of the endpoint's settings.
pub struct PromSettings {
    pub enabled: bool,
    pub token_configured: bool,
    pub token_prefix: Option<String>,
}

/// A change to the endpoint's settings.
pub struct UpdateSettingsReq {
    pub enabled: bool,
    pub rotate_token: bool,
}

/// A scrape token: `arcms_` and two random UUIDs as 32 hex digits each.
pub open spec fn is_scrape_token(t: Seq<char>) -> bool {
    &&& t.len() == 70
    &&& t.take(6) == "arcms_"@
    &&& forall|i: int| 6 <= i < 70 ==> is_ascii_hex(#[trigger] t[i])
}

/// Issues a fresh scrape token.
pub fn generate_token() -> (t: String)
    ensures
        is_scrape_token(t@),
{
    let a = uuid_v4_simple();
    let b = uuid_v4_simple();
    let t = concat3("arcms_", a.as_str(), b.as_str());
    proof {
        reveal_strlit("arcms_");
        assert(t@.take(6) =~= "arcms_"@);
        assert forall|i: int| 6 <= i < 70 implies is_ascii_hex(#[trigger] t@[i]) by {
            if i < 38 {
                assert(t@[i] == a@[i - 6]);
            } else {
                assert(t@[i] == b@[i - 38]);
            }
        }
    }
    t
}

/// The part of a token kept for display: its first 15 chars.
pub fn token_prefix(token: &str) -> (p: String)
    requires
        token@.len() >= 15,
    ensures
        p@ == token@.take(15),
{
    let cs = chars_of(token);
    let mut v: Vec<char> = Vec::new();
    let mut i: usize = 0;
    while i < 15
        invariant
            cs@ == token@,
            cs@.len() >= 15,
            i <= 15,
            v@ == cs@.take(i as int),
        decreases 15 - i,
    {
        v.push(cs[i]);
        assert(v@ =~= cs@.take(i + 1));
        i = i + 1;
    }
    string_from_chars(v.as_slice())
}

/// The stored form of a token: the hex SHA-256 of its UTF-8 bytes.
pub open spec fn token_hash_of(token: Seq<char>) -> Seq<char> {
    hex_lower(sha256_digest(encode_utf8(token)))
}

pub fn token_hash(token: &str) -> (h: String)
    ensures
        h@ == token_hash_of(token@),
{
    let d = sha256(token.as_bytes());
    hex_encode(d.as_slice())
}

/// The stored settings, read from the setting rows: enabled when
/// `prometheus_enabled` is `true`, and the token hash; the last row of a
/// key counts.
pub open spec fn settings_of(rows: Seq<(Seq<char>, Seq<char>)>) -> (bool, Option<Seq<char>>)
    decreases rows.len(),
{
    if rows.len() == 0 {
        (false, None)
    } else {
        let p = settings_of(rows.drop_last());
        let (k, v) = rows.last();
        if k == "prometheus_enabled"@ {
            (v == "true"@, p.1)
        } else if k == "prometheus_token_hash"@ {
            (p.0, Some(v))
        } else {
            p
        }
    }
}

pub fn read_settings(rows: &Vec<(String, String)>) -> (r: (bool, Option<String>))
    ensures
        (r.0, r.1.deep_view()) == settings_of(rows@.map_values(|x: (String, String)| (x.0@, x.1@))),
{
    let ghost model = rows@.map_values(|x: (String, String)| (x.0@, x.1@));
    let mut enabled = false;
    let mut hash: Option<String> = None;
    let mut i: usize = 0;
    while i < rows.len()
        invariant
            i <= rows@.len(),
            model == rows@.map_values(|x: (String, String)| (x.0@, x.1@)),
            (enabled, hash.deep_view()) == settings_of(model.take(i as int)),
        decreases rows@.len() - i,
    {
        assert(model.take(i + 1).drop_last() =~= model.take(i as int));
        assert(model.take(i + 1).last() == (rows@[i as int].0@, rows@[i as int].1@));
        let k = rows[i].0.as_str();
        let v = rows[i].1.as_str();
        if str_eq(k, "prometheus_enabled") {
            enabled = str_eq(v, "true");
        } else if str_eq(k, "prometheus_token_hash") {
            hash = Some(String::from_str(v));
        }
        i = i + 1;
    }
    assert(model.take(i as int) =~= model);
    (enabled, hash)
}

/// Why a scrape is refused.
#[derive(Debug, Clone, Copy, PartialEq, Eq, Structural)]
pub enum ScrapeError {
    Disabled,
    NoTokenConfigured,
    TokenRequired,
    InvalidToken,
}

impl ScrapeError {
    pub fn status(&self) -> (s: u16)
        ensures
            s == match self {
                ScrapeError::Disabled => 404u16,
                _ => 401u16,
            },
    {
        match self {
            ScrapeError::Disabled => 404,
            _ => 401,
        }
    }

    pub fn message(&self) -> (m: &'static str)
        ensures
            m@ == match self {
                ScrapeError::Disabled => "Not Found"@,
                ScrapeError::NoTokenConfigured => "No scrape token configured"@,
                ScrapeError::TokenRequired => "Scrape token required"@,
                ScrapeError::InvalidToken => "Invalid scrape token"@,
            },
    {
        match self {
            ScrapeError::Disabled => "Not Found",
            ScrapeError::NoTokenConfigured => "No scrape token configured",
            ScrapeError::TokenRequired => "Scrape token required",
            ScrapeError::InvalidToken => "Invalid scrape token",
        }
    }
}

/// The token a scrape presents: the `Authorization` header with its
/// `Bearer ` prefix taken off, else the query token; an empty one counts
/// as none.
pub open spec fn presented_token(header: Option<Seq<char>>, query: Option<Seq<char>>) -> Option<Seq<char>> {
    let from_header = match header {
        Some(h) => if has_prefix(h, "Bearer "@) { Some(h.skip(7)) } else { None },
        None => None,
    };
    let t = match from_header { Some(x) => Some(x), None => query };
    match t {
        Some(x) => if x.len() > 0 { Some(x) } else { None },
        None => None,
    }
}

/// Whether a scrape is answered: not when the endpoint is off (which
/// looks like a missing page), nor without a stored token, nor without a
/// presented one, nor when the presented token's hash differs from the
/// stored one.
pub open spec fn scrape_check(
    enabled: bool,
    stored: Option<Seq<char>>,
    header: Option<Seq<char>>,
    query: Option<Seq<char>>,
) -> Result<(), ScrapeError> {
    if !enabled {
        Err(ScrapeError::Disabled)
    } else if !(stored matches Some(s) && s.len() > 0) {
        Err(ScrapeError::NoTokenConfigured)
    } else if presented_token(header, query) is None {
        Err(ScrapeError::TokenRequired)
    } else if encode_utf8(token_hash_of(presented_token(header, query).unwrap()))
        != encode_utf8(stored.unwrap()) {
        Err(ScrapeError::InvalidToken)
    } else {
        Ok(())
    }
}

fn presented(header: Option<&str>, query: &Option<String>) -> (r: Option<String>)
    ensures
        r.deep_view() == presented_token(header.deep_view(), query.deep_view()),
{
    let from_header: Option<String> = match header {
        Some(h) => {
            let hc = chars_of(h);
            if crate::text::starts_with(hc.as_slice(), "Bearer ") {
                proof {
                    reveal_strlit("Bearer ");
                }
                let mut v: Vec<char> = Vec::new();
                let mut i: usize = 7;
                while i < hc.len()
                    invariant
                        7 <= hc@.len(),
                        7 <= i <= hc@.len(),
                        v@ == hc@.subrange(7, i as int),
                    decreases hc@.len() - i,
                {
                    v.push(hc[i]);
                    assert(v@ =~= hc@.subrange(7, i + 1));
                    i = i + 1;
                }
                assert(hc@.subrange(7, hc@.len() as int) =~= hc@.skip(7));
                Some(string_from_chars(v.as_slice()))
            } else {
                None
            }
        },
        None => None,
    };
    let t: Option<String> = match from_header {
        Some(x) => Some(x),
        None => match query {
            Some(q) => Some(String::from_str(q.as_str())),
            None => None,
        },
    };
    match t {
        Some(x) => if chars_of(x.as_str()).len() > 0 { Some(x) } else { None },
        None => None,
    }
}

/// Decides a scrape from the stored settings, the `Authorization` header
/// (when it is readable text) and the query. The hashes are compared in
/// constant time.
pub fn check_scrape(
    enabled: bool,
    stored_hash: &Option<String>,
    auth_header: Option<&str>,
    query: &ScrapeQuery,
) -> (r: Result<(), ScrapeError>)
    ensures
        r == scrape_check(enabled, stored_hash.deep_view(), auth_header.deep_view(), query.token.deep_view()),
{
    if !enabled {
        return Err(ScrapeError::Disabled);
    }
    let stored = match stored_hash {
        Some(s) => {
            if chars_of(s.as_str()).len() == 0 {
                return Err(ScrapeError::NoTokenConfigured);
            }
            s
        },
        None => return Err(ScrapeError::NoTokenConfigured),
    };
    let provided = match presented(auth_header, &query.token) {
        Some(p) => p,
        None => return Err(ScrapeError::TokenRequired),
    };
    let provided_hex = token_hash(provided.as_str());
    if !ct_eq(provided_hex.as_str().as_bytes(), stored.as_str().as_bytes()) {
        return Err(ScrapeError::InvalidToken);
    }
    Ok(())
}

/// A new token is issued when asked for, or when the endpoint is being
/// turned on and no token is stored.
pub fn needs_new_token(req: &UpdateSettingsReq, existing_hash: &Option<String>) -> (b: bool)
    ensures
        b == (req.rotate_token || (req.enabled && match existing_hash { Some(h) => h@.len() == 0, None => true })),
{
    let empty = match existing_hash {
        Some(h) => chars_of(h.as_str()).len() == 0,
        None => true,
    };
    req.rotate_token || (req.enabled && empty)
}

/// A freshly issued token, with what is stored of it.
pub struct IssuedToken {
    pub token: String,
    pub prefix: String,
    pub hash: String,
}

/// Issues a token and works out its stored hash and display prefix.
pub fn issue_token() -> (t: IssuedToken)
    ensures
        is_scrape_token(t.token@),
        t.prefix@ == t.token@.take(15),
        t.hash@ == token_hash_of(t.token@),
        t.hash@.len() == 64,
{
    let token = generate_token();
    let prefix = token_prefix(token.as_str());
    let d = sha256(token.as_str().as_bytes());
    let hash = hex_encode(d.as_slice());
    proof {
        crate::crypto::lemma_hex_len(d@);
    }
    IssuedToken { token, prefix, hash }
}

/// The administrator's view of the settings: a token counts as
/// configured when a non-empty hash is stored; an empty prefix is none.
pub fn prom_settings(enabled: bool, hash: &Option<String>, prefix: Option<String>) -> (s: PromSettings)
    ensures
        s.enabled == enabled,
        s.token_configured == match hash { Some(h) => h@.len() > 0, None => false },
        s.token_prefix.deep_view() == match prefix { Some(p) => if p@.len() > 0 { Some(p@) } else { None }, None => None },
{
    PromSettings {
        enabled,
        token_configured: match hash {
            Some(h) => chars_of(h.as_str()).len() > 0,
            None => false,
        },
        token_prefix: match prefix {
            Some(p) => if chars_of(p.as_str()).len() > 0 { Some(p) } else { None },
            None => None,
        },
    }
}

/// A token the panel issued and stored is accepted when it is presented
/// as a bearer token while the endpoint is on. (A stored hash is never
/// empty: it has 64 hex digits.)
pub proof fn law_issued_token_is_accepted(token: Seq<char>)
    requires
        is_scrape_token(token),
        token_hash_of(token).len() == 64,
    ensures
        scrape_check(true, Some(token_hash_of(token)), Some("Bearer "@ + token), None) is Ok,
{
    reveal_strlit("Bearer ");
    let h = "Bearer "@ + token;
    assert(h.take(7) =~= "Bearer "@);
    assert(h.skip(7) =~= token);
    assert(presented_token(Some(h), None) == Some(token));
}

/// A switched-off endpoint answers every scrape as a missing page.
pub proof fn law_disabled_is_not_found(stored: Option<Seq<char>>, header: Option<Seq<char>>, query: Option<Seq<char>>)
    ensures
        scrape_check(false, stored, header, query) == Err::<(), ScrapeError>(ScrapeError::Disabled),
{
}

/// A scrape is answered only with a token whose hash is the stored one.
pub proof fn law_scrape_needs_matching_token(
    stored: Option<Seq<char>>,
    header: Option<Seq<char>>,
    query: Option<Seq<char>>,
)
    requires
        scrape_check(true, stored, header, query) is Ok,
    ensures
        stored is Some,
        presented_token(header, query) is Some,
        encode_utf8(token_hash_of(presented_token(header, query)->0)) == encode_utf8(stored->0),
{
}

} // verus!

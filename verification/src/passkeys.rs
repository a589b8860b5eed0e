//! WebAuthn passkeys: the layout of authenticator data, the COSE public key,
//! the single-use challenge store and the two ceremonies (registration and
//! authentication) up to the point where the database is consulted.

use vstd::prelude::*;

use crate::crypto::{
    b64url_bytes, b64url_decode, b64url_encode, b64url_text, cbor_map, cbor_top_map, client_data_fields,
    hex_encode, hex_lower, json_client_fields, p256_der_ok, p256_der_signature_ok, p256_key_ok,
    p256_point_ok, p256_signature_valid, p256_verify, random_bytes, sha256, sha256_digest, url_host,
};

verus! {

// ─── Authenticator data ────────────────────────────────────────

/// Why authenticator data could not be read.
#[derive(Debug, Clone, Copy, PartialEq, Eq, Structural)]
pub enum AuthDataError {
    TooShort,
    NoAttestedData,
    TooShortForAttested,
    TooShortForCredentialId,
}

impl AuthDataError {
    pub fn message(&self) -> (m: &'static str)
        ensures
            m@ == match self {
                AuthDataError::TooShort => "authData too short"@,
                AuthDataError::NoAttestedData => "No attested credential data in authData"@,
                AuthDataError::TooShortForAttested => "authData too short for attested data"@,
                AuthDataError::TooShortForCredentialId => "authData too short for credential ID"@,
            },
    {
        match self {
            AuthDataError::TooShort => "authData too short",
            AuthDataError::NoAttestedData => "No attested credential data in authData",
            AuthDataError::TooShortForAttested => "authData too short for attested data",
            AuthDataError::TooShortForCredentialId => "authData too short for credential ID",
        }
    }
}

/// The flags byte has the attested-credential-data bit (bit 6).
pub open spec fn attested_flag(flags: u8) -> bool {
    flags & 0x40u8 != 0
}

/// The flags byte has the user-present bit (bit 0).
pub open spec fn user_present_flag(flags: u8) -> bool {
    flags & 0x01u8 != 0
}

/// The big-endian credential-ID length at bytes 53..55.
pub open spec fn cred_id_len(a: Seq<u8>) -> int {
    (a[53] as int) * 256 + (a[54] as int)
}

/// The layout of authenticator data: 32 bytes rpIdHash, 1 byte flags,
/// 4 bytes signCount and, with the AT flag, 16 bytes AAGUID, a 2-byte
/// credential-ID length L, L bytes of credential ID and the CBOR public key
/// (at least one byte).  The result is (credential ID, COSE key, AAGUID).
pub open spec fn auth_data_layout(a: Seq<u8>) -> Result<(Seq<u8>, Seq<u8>, Seq<u8>), AuthDataError> {
    if a.len() < 37 {
        Err(AuthDataError::TooShort)
    } else if !attested_flag(a[32]) {
        Err(AuthDataError::NoAttestedData)
    } else if a.len() < 55 {
        Err(AuthDataError::TooShortForAttested)
    } else if a.len() < 55 + cred_id_len(a) + 1 {
        Err(AuthDataError::TooShortForCredentialId)
    } else {
        Ok((
            a.subrange(55, 55 + cred_id_len(a)),
            a.subrange(55 + cred_id_len(a), a.len() as int),
            a.subrange(37, 53),
        ))
    }
}

/// The big-endian signature counter at bytes 33..37.
pub open spec fn sign_count_of(a: Seq<u8>) -> int {
    (a[33] as int) * 16777216 + (a[34] as int) * 65536 + (a[35] as int) * 256 + (a[36] as int)
}

/// Copies `a[lo..hi]`.
fn copy_range(a: &[u8], lo: usize, hi: usize) -> (r: Vec<u8>)
    requires
        lo <= hi <= a@.len(),
    ensures
        r@ == a@.subrange(lo as int, hi as int),
{
    let mut r: Vec<u8> = Vec::new();
    let mut i: usize = lo;
    while i < hi
        invariant
            lo <= i <= hi <= a@.len(),
            r@ == a@.subrange(lo as int, i as int),
        decreases hi - i,
    {
        r.push(a[i]);
        assert(a@.subrange(lo as int, i + 1) =~= a@.subrange(lo as int, i as int).push(a@[i as int]));
        i = i + 1;
    }
    r
}

/// Reads the attested credential data of authenticator data:
/// (credential ID, COSE public key bytes, AAGUID).
pub fn parse_auth_data(auth_data: &[u8]) -> (r: Result<(Vec<u8>, Vec<u8>, [u8; 16]), AuthDataError>)
    ensures
        match r {
            Ok((cid, key, aaguid)) => auth_data_layout(auth_data@) == Ok::<_, AuthDataError>((cid@, key@, aaguid@)),
            Err(e) => auth_data_layout(auth_data@) == Err::<(Seq<u8>, Seq<u8>, Seq<u8>), _>(e),
        },
{
    let n = auth_data.len();
    if n < 37 {
        return Err(AuthDataError::TooShort);
    }
    let flags = auth_data[32];
    if flags & 0x40 == 0 {
        return Err(AuthDataError::NoAttestedData);
    }
    if n < 55 {
        return Err(AuthDataError::TooShortForAttested);
    }
    let a = auth_data;
    let aaguid: [u8; 16] = [
        a[37], a[38], a[39], a[40], a[41], a[42], a[43], a[44],
        a[45], a[46], a[47], a[48], a[49], a[50], a[51], a[52],
    ];
    let len = (a[53] as usize) * 256 + (a[54] as usize);
    if n < 55 + len + 1 {
        return Err(AuthDataError::TooShortForCredentialId);
    }
    let credential_id = copy_range(a, 55, 55 + len);
    let cose_key = copy_range(a, 55 + len, n);
    assert(aaguid@ =~= a@.subrange(37, 53));
    Ok((credential_id, cose_key, aaguid))
}

/// The signature counter of authenticator data (bytes 33..37, big-endian).
pub fn sign_count(auth_data: &[u8]) -> (c: u32)
    requires
        auth_data@.len() >= 37,
    ensures
        c as int == sign_count_of(auth_data@),
{
    (auth_data[33] as u32) * 16777216 + (auth_data[34] as u32) * 65536 + (auth_data[35] as u32) * 256
        + (auth_data[36] as u32)
}

/// A stored counter and a new one show a cloned authenticator: both are
/// in use and the new one did not grow.
pub open spec fn counter_regressed(stored: i64, new: i64) -> bool {
    stored > 0 && new > 0 && new <= stored
}

pub fn counter_regression(stored: i64, new: i64) -> (r: bool)
    ensures
        r == counter_regressed(stored, new),
{
    stored > 0 && new > 0 && new <= stored
}

// ─── COSE public key ───────────────────────────────────────────

/// Why a COSE key is not a usable P-256 key.
#[derive(Debug, Clone, Copy, PartialEq, Eq, Structural)]
pub enum CoseKeyError {
    Cbor,
    NotMap,
    MissingX,
    MissingY,
    BadCoordinateLength,
    InvalidPoint,
}

impl CoseKeyError {
    pub fn message(&self) -> (m: &'static str)
        ensures
            m@ == match self {
                CoseKeyError::Cbor => "CBOR parse error"@,
                CoseKeyError::NotMap => "COSE key is not a map"@,
                CoseKeyError::MissingX => "Missing x coordinate in COSE key"@,
                CoseKeyError::MissingY => "Missing y coordinate in COSE key"@,
                CoseKeyError::BadCoordinateLength => "Invalid coordinate length"@,
                CoseKeyError::InvalidPoint => "Invalid P-256 key"@,
            },
    {
        match self {
            CoseKeyError::Cbor => "CBOR parse error",
            CoseKeyError::NotMap => "COSE key is not a map",
            CoseKeyError::MissingX => "Missing x coordinate in COSE key",
            CoseKeyError::MissingY => "Missing y coordinate in COSE key",
            CoseKeyError::BadCoordinateLength => "Invalid coordinate length",
            CoseKeyError::InvalidPoint => "Invalid P-256 key",
        }
    }
}

/// The value of the last map entry whose integer key, cut to 32 bits, is
/// `label` and whose value is a byte string.
pub open spec fn cose_param(
    entries: Seq<(Option<i128>, Option<Seq<char>>, Option<Seq<u8>>)>,
    label: i32,
) -> Option<Seq<u8>>
    decreases entries.len(),
{
    if entries.len() == 0 {
        None
    } else {
        let e = entries.last();
        if e.0 is Some && (e.0->0 as i32) == label && e.2 is Some {
            e.2
        } else {
            cose_param(entries.drop_last(), label)
        }
    }
}

/// The uncompressed SEC1 point `0x04 || x || y`.
pub open spec fn sec1_point(x: Seq<u8>, y: Seq<u8>) -> Seq<u8> {
    seq![4u8] + x + y
}

/// What the entries of a COSE key map give: the SEC1 point of its x (-2)
/// and y (-3) coordinates, when both are 32 bytes and the point lies on
/// P-256.
pub open spec fn cose_entries_point(entries: Seq<(Option<i128>, Option<Seq<char>>, Option<Seq<u8>>)>) -> Result<Seq<u8>, CoseKeyError> {
    match (cose_param(entries, -2i32), cose_param(entries, -3i32)) {
        (None, _) => Err(CoseKeyError::MissingX),
        (Some(_), None) => Err(CoseKeyError::MissingY),
        (Some(x), Some(y)) => if x.len() != 32 || y.len() != 32 {
            Err(CoseKeyError::BadCoordinateLength)
        } else if !p256_point_ok(sec1_point(x, y)) {
            Err(CoseKeyError::InvalidPoint)
        } else {
            Ok(sec1_point(x, y))
        },
    }
}

/// What a COSE key gives: the point of its map's entries.
pub open spec fn cose_key_point(cbor: Seq<u8>) -> Result<Seq<u8>, CoseKeyError> {
    match cbor_top_map(cbor) {
        None => Err(CoseKeyError::Cbor),
        Some(None) => Err(CoseKeyError::NotMap),
        Some(Some(entries)) => cose_entries_point(entries),
    }
}

/// Finds the last byte-string parameter with a given label.
fn find_cose_param(entries: &Vec<(Option<i128>, Option<String>, Option<Vec<u8>>)>, label: i32) -> (r: Option<Vec<u8>>)
    ensures
        r.deep_view() == cose_param(entries.deep_view(), label),
{
    let mut found: Option<Vec<u8>> = None;
    let mut i: usize = 0;
    while i < entries.len()
        invariant
            i <= entries@.len(),
            found.deep_view() == cose_param(entries.deep_view().subrange(0, i as int), label),
        decreases entries@.len() - i,
    {
        let ghost dv = entries.deep_view();
        let ghost pre = dv.subrange(0, i as int);
        let ghost post = dv.subrange(0, i + 1);
        assert(post.drop_last() =~= pre);
        assert(post.last() == dv[i as int]);
        match &entries[i].0 {
            Some(k) => {
                let key: i32 = *k as i32;
                if key == label {
                    match &entries[i].2 {
                        Some(b) => {
                            found = Some(b.clone());
                        },
                        None => {},
                    }
                }
            },
            None => {},
        }
        i = i + 1;
    }
    assert(entries.deep_view().subrange(0, entries@.len() as int) =~= entries.deep_view());
    found
}

/// Reads a COSE EC2 key and gives its uncompressed SEC1 P-256 point.
pub fn parse_cose_p256_key(cbor_bytes: &[u8]) -> (r: Result<Vec<u8>, CoseKeyError>)
    ensures
        match r {
            Ok(p) => cose_key_point(cbor_bytes@) == Ok::<_, CoseKeyError>(p@),
            Err(e) => cose_key_point(cbor_bytes@) == Err::<Seq<u8>, _>(e),
        },
{
    let decoded = cbor_map(cbor_bytes);
    let ghost dv = decoded.deep_view();
    let entries = match decoded {
        None => return Err(CoseKeyError::Cbor),
        Some(None) => return Err(CoseKeyError::NotMap),
        Some(Some(m)) => m,
    };
    assert(dv == Some(Some(entries.deep_view())));
    cose_key_from_entries(&entries)
}

/// Reads the entries of a decoded COSE key map (integer key, text key,
/// byte-string value, each where the entry has one) and gives its
/// uncompressed SEC1 P-256 point.
pub fn cose_key_from_entries(entries: &Vec<(Option<i128>, Option<String>, Option<Vec<u8>>)>) -> (r: Result<Vec<u8>, CoseKeyError>)
    ensures
        match r {
            Ok(p) => cose_entries_point(entries.deep_view()) == Ok::<_, CoseKeyError>(p@),
            Err(e) => cose_entries_point(entries.deep_view()) == Err::<Seq<u8>, _>(e),
        },
{
    let x = match find_cose_param(entries, -2) {
        Some(x) => x,
        None => return Err(CoseKeyError::MissingX),
    };
    let y = match find_cose_param(entries, -3) {
        Some(y) => y,
        None => return Err(CoseKeyError::MissingY),
    };
    assert(x.deep_view() =~= x@);
    assert(y.deep_view() =~= y@);
    if x.len() != 32 || y.len() != 32 {
        return Err(CoseKeyError::BadCoordinateLength);
    }
    let mut point: Vec<u8> = Vec::new();
    point.push(4u8);
    let mut i: usize = 0;
    while i < 32
        invariant
            x@.len() == 32,
            i <= 32,
            point@ == seq![4u8] + x@.subrange(0, i as int),
        decreases 32 - i,
    {
        point.push(x[i]);
        assert(x@.subrange(0, i + 1) =~= x@.subrange(0, i as int).push(x@[i as int]));
        i = i + 1;
    }
    let mut j: usize = 0;
    while j < 32
        invariant
            x@.len() == 32,
            y@.len() == 32,
            j <= 32,
            point@ == seq![4u8] + x@ + y@.subrange(0, j as int),
        decreases 32 - j,
    {
        point.push(y[j]);
        assert(y@.subrange(0, j + 1) =~= y@.subrange(0, j as int).push(y@[j as int]));
        j = j + 1;
    }
    assert(x@.subrange(0, 32) =~= x@);
    assert(y@.subrange(0, 32) =~= y@);
    assert(point@ =~= sec1_point(x@, y@));
    if !p256_key_ok(point.as_slice()) {
        return Err(CoseKeyError::InvalidPoint);
    }
    Ok(point)
}

} // verus!

verus! {

// ─── Challenge store ───────────────────────────────────────────

/// What a challenge was issued for.
#[derive(Debug)]
pub enum ChallengeData {
    Registration { user_id: u128, user_email: String },
    Authentication,
}

/// A challenge's purpose as a value: the user (id and email) of a
/// registration, `None` for an authentication.
pub type ChallengePurpose = Option<(u128, Seq<char>)>;

impl View for ChallengeData {
    type V = Option<(u128, Seq<char>)>;

    open spec fn view(&self) -> Option<(u128, Seq<char>)> {
        match self {
            ChallengeData::Registration { user_id, user_email } => Some((*user_id, user_email@)),
            ChallengeData::Authentication => None,
        }
    }
}

/// One stored challenge: (base64url text, purpose, second it was issued).
pub type ChallengeEntry = (Seq<char>, Option<(u128, Seq<char>)>, u64);

/// How long a challenge lives, in seconds.
pub const CHALLENGE_TTL_SECS: u64 = 300;

/// Above this many live challenges the store is cut down.
pub const CHALLENGE_CAP: usize = 10000;

/// What the store is cut down to.
pub const CHALLENGE_KEEP: usize = 5000;

/// Seconds between `created` and `now` (zero if `now` is earlier).
pub open spec fn age(created: u64, now: u64) -> int {
    if now >= created {
        now - created
    } else {
        0
    }
}

/// The entries without any under key `k`, in order.
pub open spec fn without_key(s: Seq<ChallengeEntry>, k: Seq<char>) -> Seq<ChallengeEntry>
    decreases s.len(),
{
    if s.len() == 0 {
        s
    } else if s.last().0 == k {
        without_key(s.drop_last(), k)
    } else {
        without_key(s.drop_last(), k).push(s.last())
    }
}

/// The purpose and issue time stored under key `k` (the latest entry).
pub open spec fn lookup(s: Seq<ChallengeEntry>, k: Seq<char>) -> Option<(Option<(u128, Seq<char>)>, u64)>
    decreases s.len(),
{
    if s.len() == 0 {
        None
    } else if s.last().0 == k {
        Some((s.last().1, s.last().2))
    } else {
        lookup(s.drop_last(), k)
    }
}

/// The entries younger than the time-to-live, in order.
pub open spec fn keep_fresh(s: Seq<ChallengeEntry>, now: u64) -> Seq<ChallengeEntry>
    decreases s.len(),
{
    if s.len() == 0 {
        s
    } else if age(s.last().2, now) < CHALLENGE_TTL_SECS {
        keep_fresh(s.drop_last(), now).push(s.last())
    } else {
        keep_fresh(s.drop_last(), now)
    }
}

/// Above the cap, only the newest `CHALLENGE_KEEP` entries stay.
pub open spec fn capped(s: Seq<ChallengeEntry>) -> Seq<ChallengeEntry> {
    if s.len() > CHALLENGE_CAP {
        s.subrange(s.len() - CHALLENGE_KEEP, s.len() as int)
    } else {
        s
    }
}

/// The store after expired challenges are dropped and the size cap applied.
pub open spec fn purged(s: Seq<ChallengeEntry>, now: u64) -> Seq<ChallengeEntry> {
    capped(keep_fresh(s, now))
}

/// Challenges issued and not yet used, in the order they were issued.
pub struct ChallengeStore {
    entries: Vec<(String, ChallengeData, u64)>,
}

pub open spec fn entry_view(e: (String, ChallengeData, u64)) -> ChallengeEntry {
    (e.0@, e.1@, e.2)
}

impl View for ChallengeStore {
    type V = Seq<ChallengeEntry>;

    closed spec fn view(&self) -> Seq<ChallengeEntry> {
        self.entries@.map_values(|e: (String, ChallengeData, u64)| entry_view(e))
    }
}

impl ChallengeStore {
    /// An empty store.
    pub fn new() -> (s: Self)
        ensures
            s@ == Seq::<ChallengeEntry>::empty(),
    {
        let s = ChallengeStore { entries: Vec::new() };
        assert(s@ =~= Seq::<ChallengeEntry>::empty());
        s
    }

    /// Number of stored challenges.
    pub fn len(&self) -> (n: usize)
        ensures
            n == self@.len(),
    {
        self.entries.len()
    }

    /// Stores a challenge; one stored earlier under the same text is replaced.
    pub fn insert(&mut self, key: String, data: ChallengeData, now: u64)
        ensures
            final(self)@ == without_key(old(self)@, key@).push((key@, data@, now)),
    {
        let ghost pre = self@;
        let mut old_entries: Vec<(String, ChallengeData, u64)> = Vec::new();
        std::mem::swap(&mut old_entries, &mut self.entries);
        assert(old_entries@.map_values(|e: (String, ChallengeData, u64)| entry_view(e)) == pre);
        let mut kept: Vec<(String, ChallengeData, u64)> = Vec::new();
        for e in it: old_entries
            invariant
                it.seq().map_values(|e: (String, ChallengeData, u64)| entry_view(e)) == pre,
                kept@.map_values(|e: (String, ChallengeData, u64)| entry_view(e))
                    == without_key(pre.take(it.index() as int), key@),
        {
            let ghost i = it.index();
            assert(pre.take(i + 1).drop_last() =~= pre.take(i as int));
            assert(pre.take(i + 1).last() == entry_view(e));
            let same = crate::text::str_eq(e.0.as_str(), key.as_str());
            if !same {
                let ghost before = kept@;
                kept.push(e);
                assert(kept@.map_values(|e: (String, ChallengeData, u64)| entry_view(e))
                    =~= before.map_values(|e: (String, ChallengeData, u64)| entry_view(e)).push(entry_view(e)));
            }
        }
        assert(pre.take(pre.len() as int) =~= pre);
        let ghost before = kept@;
        kept.push((key, data, now));
        assert(kept@.map_values(|e: (String, ChallengeData, u64)| entry_view(e))
            =~= before.map_values(|e: (String, ChallengeData, u64)| entry_view(e)).push(entry_view(kept@.last())));
        self.entries = kept;
    }

    /// Removes and gives back the challenge stored under `key`.
    pub fn take(&mut self, key: &str) -> (r: Option<ChallengeData>)
        ensures
            match r {
                Some(d) => lookup(old(self)@, key@) matches Some(v) && v.0 == d@,
                None => lookup(old(self)@, key@) is None,
            },
            final(self)@ == without_key(old(self)@, key@),
    {
        let ghost pre = self@;
        let mut old_entries: Vec<(String, ChallengeData, u64)> = Vec::new();
        std::mem::swap(&mut old_entries, &mut self.entries);
        assert(old_entries@.map_values(|e: (String, ChallengeData, u64)| entry_view(e)) == pre);
        let mut kept: Vec<(String, ChallengeData, u64)> = Vec::new();
        let mut found: Option<ChallengeData> = None;
        for e in it: old_entries
            invariant
                it.seq().map_values(|e: (String, ChallengeData, u64)| entry_view(e)) == pre,
                kept@.map_values(|e: (String, ChallengeData, u64)| entry_view(e))
                    == without_key(pre.take(it.index() as int), key@),
                match found {
                    Some(d) => lookup(pre.take(it.index() as int), key@) matches Some(v) && v.0 == d@,
                    None => lookup(pre.take(it.index() as int), key@) is None,
                },
        {
            let ghost i = it.index();
            assert(pre.take(i + 1).drop_last() =~= pre.take(i as int));
            assert(pre.take(i + 1).last() == entry_view(e));
            let same = crate::text::str_eq(e.0.as_str(), key);
            if same {
                found = Some(e.1);
            } else {
                let ghost before = kept@;
                kept.push(e);
                assert(kept@.map_values(|e: (String, ChallengeData, u64)| entry_view(e))
                    =~= before.map_values(|e: (String, ChallengeData, u64)| entry_view(e)).push(entry_view(e)));
            }
        }
        assert(pre.take(pre.len() as int) =~= pre);
        self.entries = kept;
        found
    }

    /// Drops the challenges older than the time-to-live; above the cap only
    /// the newest `CHALLENGE_KEEP` stay.
    pub fn purge_expired(&mut self, now: u64)
        ensures
            final(self)@ == purged(old(self)@, now),
    {
        let ghost pre = self@;
        let mut old_entries: Vec<(String, ChallengeData, u64)> = Vec::new();
        std::mem::swap(&mut old_entries, &mut self.entries);
        assert(old_entries@.map_values(|e: (String, ChallengeData, u64)| entry_view(e)) == pre);
        let mut kept: Vec<(String, ChallengeData, u64)> = Vec::new();
        for e in it: old_entries
            invariant
                it.seq().map_values(|e: (String, ChallengeData, u64)| entry_view(e)) == pre,
                kept@.map_values(|e: (String, ChallengeData, u64)| entry_view(e))
                    == keep_fresh(pre.take(it.index() as int), now),
        {
            let ghost i = it.index();
            assert(pre.take(i + 1).drop_last() =~= pre.take(i as int));
            assert(pre.take(i + 1).last() == entry_view(e));
            let fresh = if now >= e.2 { now - e.2 < CHALLENGE_TTL_SECS } else { true };
            if fresh {
                let ghost before = kept@;
                kept.push(e);
                assert(kept@.map_values(|e: (String, ChallengeData, u64)| entry_view(e))
                    =~= before.map_values(|e: (String, ChallengeData, u64)| entry_view(e)).push(entry_view(e)));
            }
        }
        assert(pre.take(pre.len() as int) =~= pre);
        if kept.len() > CHALLENGE_CAP {
            let drop = kept.len() - CHALLENGE_KEEP;
            let rest = kept.split_off(drop);
            self.entries = rest;
        } else {
            self.entries = kept;
        }
    }
}

} // verus!

verus! {

/// A challenge is single-use: once taken, nothing is stored under its text.
pub proof fn law_challenge_single_use(s: Seq<ChallengeEntry>, k: Seq<char>)
    ensures
        lookup(without_key(s, k), k) is None,
    decreases s.len(),
{
    if s.len() > 0 {
        law_challenge_single_use(s.drop_last(), k);
        if s.last().0 != k {
            assert(without_key(s, k).drop_last() == without_key(s.drop_last(), k));
        }
    }
}

/// Taking one challenge leaves every other challenge as it was.
pub proof fn law_take_keeps_others(s: Seq<ChallengeEntry>, k: Seq<char>, other: Seq<char>)
    requires
        other != k,
    ensures
        lookup(without_key(s, k), other) == lookup(s, other),
    decreases s.len(),
{
    if s.len() > 0 {
        law_take_keeps_others(s.drop_last(), k, other);
        if s.last().0 != k {
            assert(without_key(s, k).drop_last() == without_key(s.drop_last(), k));
        }
    }
}

/// A challenge just stored is found under its text with its purpose.
pub proof fn law_insert_then_lookup(s: Seq<ChallengeEntry>, k: Seq<char>, d: Option<(u128, Seq<char>)>, now: u64)
    ensures
        lookup(without_key(s, k).push((k, d, now)), k) == Some((d, now)),
{
    assert(without_key(s, k).push((k, d, now)).drop_last() == without_key(s, k));
}

proof fn lemma_keep_fresh_fresh(s: Seq<ChallengeEntry>, now: u64)
    ensures
        forall|i: int| 0 <= i < keep_fresh(s, now).len() ==> age(#[trigger] keep_fresh(s, now)[i].2, now) < CHALLENGE_TTL_SECS,
        keep_fresh(s, now).len() <= s.len(),
    decreases s.len(),
{
    if s.len() > 0 {
        lemma_keep_fresh_fresh(s.drop_last(), now);
    }
}

proof fn lemma_keep_fresh_members(s: Seq<ChallengeEntry>, now: u64)
    ensures
        forall|i: int| 0 <= i < keep_fresh(s, now).len() ==> s.contains(#[trigger] keep_fresh(s, now)[i]),
        forall|i: int| 0 <= i < s.len() && age(s[i].2, now) < CHALLENGE_TTL_SECS
            ==> keep_fresh(s, now).contains(#[trigger] s[i]),
    decreases s.len(),
{
    if s.len() > 0 {
        let init = s.drop_last();
        lemma_keep_fresh_members(init, now);
        let k = keep_fresh(s, now);
        let ki = keep_fresh(init, now);
        assert forall|i: int| 0 <= i < k.len() implies s.contains(#[trigger] k[i]) by {
            if i < ki.len() {
                assert(k[i] == ki[i]);
                let j = choose|j: int| 0 <= j < init.len() && init[j] == ki[i];
                assert(s[j] == init[j]);
            } else {
                assert(k[i] == s.last());
                assert(s[s.len() - 1] == s.last());
            }
        }
        assert forall|i: int| 0 <= i < s.len() && age(s[i].2, now) < CHALLENGE_TTL_SECS
            implies k.contains(#[trigger] s[i]) by {
            if i < s.len() - 1 {
                assert(init[i] == s[i]);
                assert(ki.contains(init[i]));
                let j = choose|j: int| 0 <= j < ki.len() && ki[j] == init[i];
                assert(k[j] == ki[j]);
            } else {
                assert(k[k.len() - 1] == s[i]);
            }
        }
    }
}

/// A purge only drops challenges: what stays was stored. While no more
/// live challenges than the cap are stored, every live one stays; above
/// the cap exactly `CHALLENGE_KEEP` of them stay.
pub proof fn law_purge_keeps_live_challenges(s: Seq<ChallengeEntry>, now: u64)
    ensures
        forall|i: int| 0 <= i < purged(s, now).len() ==> s.contains(#[trigger] purged(s, now)[i]),
        keep_fresh(s, now).len() <= CHALLENGE_CAP ==> forall|i: int|
            0 <= i < s.len() && age(s[i].2, now) < CHALLENGE_TTL_SECS ==> purged(s, now).contains(#[trigger] s[i]),
        keep_fresh(s, now).len() > CHALLENGE_CAP ==> purged(s, now).len() == CHALLENGE_KEEP,
{
    lemma_keep_fresh_members(s, now);
    let f = keep_fresh(s, now);
    if f.len() > CHALLENGE_CAP {
        assert forall|i: int| 0 <= i < purged(s, now).len() implies s.contains(#[trigger] purged(s, now)[i]) by {
            assert(purged(s, now)[i] == f[i + f.len() - CHALLENGE_KEEP]);
        }
    }
}

/// After a purge every stored challenge is younger than the time-to-live
/// and no more than the cap are stored.
pub proof fn law_purge_leaves_fresh(s: Seq<ChallengeEntry>, now: u64)
    ensures
        forall|i: int| 0 <= i < purged(s, now).len() ==> age(#[trigger] purged(s, now)[i].2, now) < CHALLENGE_TTL_SECS,
        purged(s, now).len() <= CHALLENGE_CAP,
{
    lemma_keep_fresh_fresh(s, now);
    let f = keep_fresh(s, now);
    if f.len() > CHALLENGE_CAP {
        assert forall|i: int| 0 <= i < purged(s, now).len() implies age(#[trigger] purged(s, now)[i].2, now) < CHALLENGE_TTL_SECS by {
            assert(purged(s, now)[i] == f[i + f.len() - CHALLENGE_KEEP]);
        }
    }
}

} // verus!

verus! {

// ─── Ceremonies ────────────────────────────────────────────────

/// Why a registration or an authentication is refused.
#[derive(Debug, Clone, Copy, PartialEq, Eq, Structural)]
pub enum PasskeyError {
    ClientDataEncoding,
    ClientDataJson,
    CeremonyType,
    UnknownChallenge,
    ChallengeUserMismatch,
    WrongChallengeType,
    OriginMismatch,
    AttestationEncoding,
    AttestationCbor,
    MissingAuthData,
    RpIdHashMismatch,
    AuthDataTruncated,
    UserNotPresent,
    InvalidAttestationData,
    InvalidCredentialKey,
    TooManyAttempts,
    AuthenticatorDataEncoding,
    CredentialCloned,
    StoredKeyInvalid,
    SignatureEncoding,
    SignatureFormat,
    SignatureInvalid,
}

impl PasskeyError {
    /// The HTTP status the error is answered with.
    pub fn status(&self) -> (s: u16)
        ensures
            s == passkey_error_status(*self),
    {
        match self {
            PasskeyError::TooManyAttempts => 429,
            PasskeyError::CredentialCloned => 401,
            PasskeyError::SignatureFormat => 401,
            PasskeyError::SignatureInvalid => 401,
            PasskeyError::StoredKeyInvalid => 500,
            _ => 400,
        }
    }

    /// The message the error is answered with.
    pub fn message(&self) -> (m: &'static str)
        ensures
            m@ == match self {
                PasskeyError::ClientDataEncoding => "Invalid clientDataJSON encoding"@,
                PasskeyError::ClientDataJson => "Invalid clientDataJSON"@,
                PasskeyError::CeremonyType => "Invalid ceremony type"@,
                PasskeyError::UnknownChallenge => "Unknown or expired challenge"@,
                PasskeyError::ChallengeUserMismatch => "Challenge user mismatch"@,
                PasskeyError::WrongChallengeType => "Wrong challenge type"@,
                PasskeyError::OriginMismatch => "Origin mismatch"@,
                PasskeyError::AttestationEncoding => "Invalid attestationObject encoding"@,
                PasskeyError::AttestationCbor => "Invalid attestationObject CBOR"@,
                PasskeyError::MissingAuthData => "Missing authData in attestation"@,
                PasskeyError::RpIdHashMismatch => "RP ID hash mismatch"@,
                PasskeyError::AuthDataTruncated => "authData too short"@,
                PasskeyError::UserNotPresent => "User not present"@,
                PasskeyError::InvalidAttestationData => "Invalid attestation data"@,
                PasskeyError::InvalidCredentialKey => "Invalid credential key"@,
                PasskeyError::TooManyAttempts => "Too many login attempts. Try again in 15 minutes."@,
                PasskeyError::AuthenticatorDataEncoding => "Invalid authenticatorData encoding"@,
                PasskeyError::CredentialCloned => "Credential may be cloned"@,
                PasskeyError::StoredKeyInvalid => "Authentication failed"@,
                PasskeyError::SignatureEncoding => "Invalid signature encoding"@,
                PasskeyError::SignatureFormat => "Invalid signature format"@,
                PasskeyError::SignatureInvalid => "Signature verification failed"@,
            },
    {
        match self {
            PasskeyError::ClientDataEncoding => "Invalid clientDataJSON encoding",
            PasskeyError::ClientDataJson => "Invalid clientDataJSON",
            PasskeyError::CeremonyType => "Invalid ceremony type",
            PasskeyError::UnknownChallenge => "Unknown or expired challenge",
            PasskeyError::ChallengeUserMismatch => "Challenge user mismatch",
            PasskeyError::WrongChallengeType => "Wrong challenge type",
            PasskeyError::OriginMismatch => "Origin mismatch",
            PasskeyError::AttestationEncoding => "Invalid attestationObject encoding",
            PasskeyError::AttestationCbor => "Invalid attestationObject CBOR",
            PasskeyError::MissingAuthData => "Missing authData in attestation",
            PasskeyError::RpIdHashMismatch => "RP ID hash mismatch",
            PasskeyError::AuthDataTruncated => "authData too short",
            PasskeyError::UserNotPresent => "User not present",
            PasskeyError::InvalidAttestationData => "Invalid attestation data",
            PasskeyError::InvalidCredentialKey => "Invalid credential key",
            PasskeyError::TooManyAttempts => "Too many login attempts. Try again in 15 minutes.",
            PasskeyError::AuthenticatorDataEncoding => "Invalid authenticatorData encoding",
            PasskeyError::CredentialCloned => "Credential may be cloned",
            PasskeyError::StoredKeyInvalid => "Authentication failed",
            PasskeyError::SignatureEncoding => "Invalid signature encoding",
            PasskeyError::SignatureFormat => "Invalid signature format",
            PasskeyError::SignatureInvalid => "Signature verification failed",
        }
    }
}

pub open spec fn passkey_error_status(e: PasskeyError) -> u16 {
    match e {
        PasskeyError::TooManyAttempts => 429,
        PasskeyError::CredentialCloned => 401,
        PasskeyError::SignatureFormat => 401,
        PasskeyError::SignatureInvalid => 401,
        PasskeyError::StoredKeyInvalid => 500,
        _ => 400,
    }
}

/// A client-data field's text: the empty text where it is missing or not
/// a string.
pub open spec fn field_text(f: Option<Seq<char>>) -> Seq<char> {
    match f {
        Some(s) => s,
        None => Seq::empty(),
    }
}

fn field_or_empty(f: Option<String>) -> (s: String)
    ensures
        s@ == field_text(f.deep_view()),
{
    match f {
        Some(s) => s,
        None => String::new(),
    }
}

/// Decodes clientDataJSON and checks its ceremony type: the decoded bytes,
/// the challenge and the origin it names.
pub open spec fn client_data_check(cd_text: Seq<char>, expected_type: Seq<char>) -> Result<(Seq<u8>, Seq<char>, Seq<char>), PasskeyError> {
    match b64url_bytes(cd_text) {
        None => Err(PasskeyError::ClientDataEncoding),
        Some(b) => match json_client_fields(b) {
            None => Err(PasskeyError::ClientDataJson),
            Some(f) => if field_text(f.0) != expected_type {
                Err(PasskeyError::CeremonyType)
            } else {
                Ok((b, field_text(f.1), field_text(f.2)))
            },
        },
    }
}

/// The first map entry keyed by the text "authData" with a byte-string value.
pub open spec fn first_auth_data(es: Seq<(Option<i128>, Option<Seq<char>>, Option<Seq<u8>>)>) -> Option<Seq<u8>>
    decreases es.len(),
{
    if es.len() == 0 {
        None
    } else {
        let p = first_auth_data(es.drop_last());
        if p is Some {
            p
        } else if es.last().1 == Some("authData"@) && es.last().2 is Some {
            es.last().2
        } else {
            None
        }
    }
}

/// The authenticator data inside a base64url attestation object.
pub open spec fn attestation_auth_data(att_text: Seq<char>) -> Result<Seq<u8>, PasskeyError> {
    match b64url_bytes(att_text) {
        None => Err(PasskeyError::AttestationEncoding),
        Some(b) => match cbor_top_map(b) {
            None => Err(PasskeyError::AttestationCbor),
            Some(None) => Err(PasskeyError::MissingAuthData),
            Some(Some(es)) => match first_auth_data(es) {
                None => Err(PasskeyError::MissingAuthData),
                Some(a) => Ok(a),
            },
        },
    }
}

/// The first 32 bytes of authenticator data are the SHA-256 of the RP ID.
pub open spec fn rp_hash_matches(a: Seq<u8>, rp_id: Seq<char>) -> bool {
    a.len() >= 32 && a.subrange(0, 32) == sha256_digest(vstd::utf8::encode_utf8(rp_id))
}

/// `s` split at every comma (`str::split(',')`).
pub open spec fn split_commas(s: Seq<char>) -> Seq<Seq<char>>
    decreases s.len(),
{
    if s.len() == 0 {
        seq![Seq::empty()]
    } else {
        let p = split_commas(s.drop_last());
        if s.last() == ',' {
            p.push(Seq::empty())
        } else {
            p.update(p.len() - 1, p.last().push(s.last()))
        }
    }
}

/// The parts joined with commas (`[..].join(",")`).
pub open spec fn join_commas(parts: Seq<Seq<char>>) -> Seq<char>
    decreases parts.len(),
{
    if parts.len() == 0 {
        Seq::empty()
    } else if parts.len() == 1 {
        parts[0]
    } else {
        join_commas(parts.drop_last()) + seq![','] + parts.last()
    }
}

/// A passkey ready to be stored.
#[derive(Debug)]
pub struct NewPasskey {
    pub credential_id: String,
    pub public_key_cbor: Vec<u8>,
    pub sign_count: i64,
    pub aaguid_hex: String,
    pub transports: Option<String>,
    pub name: String,
}

/// (credential ID text, COSE key, counter, AAGUID hex, transports, name).
pub type NewPasskeyView = (Seq<char>, Seq<u8>, i64, Seq<char>, Option<Seq<char>>, Seq<char>);

impl View for NewPasskey {
    type V = (Seq<char>, Seq<u8>, i64, Seq<char>, Option<Seq<char>>, Seq<char>);

    open spec fn view(&self) -> (Seq<char>, Seq<u8>, i64, Seq<char>, Option<Seq<char>>, Seq<char>) {
        (
            self.credential_id@,
            self.public_key_cbor@,
            self.sign_count,
            self.aaguid_hex@,
            match self.transports {
                Some(t) => Some(t@),
                None => None,
            },
            self.name@,
        )
    }
}

/// The outcome of a registration once the challenge has been checked:
/// `challenge_purpose` is what the store held under the client's challenge.
pub open spec fn registration_outcome(
    challenge_purpose: Option<Option<(u128, Seq<char>)>>,
    user_id: u128,
    rp_id: Seq<char>,
    rp_origin: Seq<char>,
    origin: Seq<char>,
    att_text: Seq<char>,
    name: Option<Seq<char>>,
    transports: Option<Seq<Seq<char>>>,
) -> Result<NewPasskeyView, PasskeyError> {
    match challenge_purpose {
        None => Err(PasskeyError::UnknownChallenge),
        Some(None) => Err(PasskeyError::WrongChallengeType),
        Some(Some((uid, _))) => if uid != user_id {
            Err(PasskeyError::ChallengeUserMismatch)
        } else if origin != rp_origin {
            Err(PasskeyError::OriginMismatch)
        } else {
            match attestation_auth_data(att_text) {
                Err(e) => Err(e),
                Ok(a) => if !rp_hash_matches(a, rp_id) {
                    Err(PasskeyError::RpIdHashMismatch)
                } else if a.len() == 32 {
                    Err(PasskeyError::AuthDataTruncated)
                } else if !user_present_flag(a[32]) {
                    Err(PasskeyError::UserNotPresent)
                } else {
                    match auth_data_layout(a) {
                        Err(_) => Err(PasskeyError::InvalidAttestationData),
                        Ok((cid, key, aaguid)) => if cose_key_point(key) is Err {
                            Err(PasskeyError::InvalidCredentialKey)
                        } else {
                            Ok((
                                b64url_text(cid),
                                key,
                                sign_count_of(a) as i64,
                                hex_lower(aaguid),
                                match transports {
                                    Some(t) => Some(join_commas(t)),
                                    None => None,
                                },
                                match name {
                                    Some(n) => n,
                                    None => "My Passkey"@,
                                },
                            ))
                        },
                    }
                },
            }
        },
    }
}

} // verus!

verus! {

/// Joins the parts with commas.
pub fn join_with_commas(parts: &Vec<String>) -> (r: String)
    ensures
        r@ == join_commas(parts.deep_view()),
{
    let mut r = String::new();
    let mut i: usize = 0;
    proof {
        reveal_strlit(",");
    }
    while i < parts.len()
        invariant
            i <= parts@.len(),
            r@ == join_commas(parts.deep_view().take(i as int)),
            ","@ == seq![','],
        decreases parts@.len() - i,
    {
        let ghost dv = parts.deep_view();
        assert(dv.take(i + 1).drop_last() =~= dv.take(i as int));
        if i > 0 {
            r.append(",");
        }
        r.append(parts[i].as_str());
        if i == 0 {
            assert(dv.take(1) =~= seq![dv[0]]);
        }
        i = i + 1;
    }
    assert(parts.deep_view().take(parts@.len() as int) =~= parts.deep_view());
    r
}

/// The first "authData" byte string of a decoded CBOR map.
fn find_auth_data(es: &Vec<(Option<i128>, Option<String>, Option<Vec<u8>>)>) -> (r: Option<Vec<u8>>)
    ensures
        r.deep_view() == first_auth_data(es.deep_view()),
{
    let mut found: Option<Vec<u8>> = None;
    let mut i: usize = 0;
    proof {
        reveal_strlit("authData");
    }
    while i < es.len()
        invariant
            i <= es@.len(),
            found.deep_view() == first_auth_data(es.deep_view().take(i as int)),
        decreases es@.len() - i,
    {
        let ghost dv = es.deep_view();
        assert(dv.take(i + 1).drop_last() =~= dv.take(i as int));
        assert(dv.take(i + 1).last() == dv[i as int]);
        if found.is_none() {
            match (&es[i].1, &es[i].2) {
                (Some(t), Some(b)) => {
                    if crate::text::str_eq(t.as_str(), "authData") {
                        found = Some(b.clone());
                    }
                },
                _ => {},
            }
        }
        i = i + 1;
    }
    assert(es.deep_view().take(es@.len() as int) =~= es.deep_view());
    found
}

/// Decodes a base64url clientDataJSON and checks its ceremony type.
pub fn check_client_data(cd_text: &str, expected_type: &str) -> (r: Result<(Vec<u8>, String, String), PasskeyError>)
    ensures
        match r {
            Ok((b, c, o)) => client_data_check(cd_text@, expected_type@) == Ok::<_, PasskeyError>((b@, c@, o@)),
            Err(e) => client_data_check(cd_text@, expected_type@) == Err::<(Seq<u8>, Seq<char>, Seq<char>), _>(e),
        },
{
    let bytes = match b64url_decode(cd_text) {
        Some(b) => b,
        None => return Err(PasskeyError::ClientDataEncoding),
    };
    assert(bytes.deep_view() =~= bytes@);
    let fields = match client_data_fields(bytes.as_slice()) {
        Some(f) => f,
        None => return Err(PasskeyError::ClientDataJson),
    };
    let (ty, challenge, origin) = fields;
    let ty = field_or_empty(ty);
    if !crate::text::str_eq(ty.as_str(), expected_type) {
        return Err(PasskeyError::CeremonyType);
    }
    Ok((bytes, field_or_empty(challenge), field_or_empty(origin)))
}

/// Extracts the authenticator data of a base64url attestation object.
pub fn extract_auth_data(att_text: &str) -> (r: Result<Vec<u8>, PasskeyError>)
    ensures
        match r {
            Ok(a) => attestation_auth_data(att_text@) == Ok::<_, PasskeyError>(a@),
            Err(e) => attestation_auth_data(att_text@) == Err::<Seq<u8>, _>(e),
        },
{
    let bytes = match b64url_decode(att_text) {
        Some(b) => b,
        None => return Err(PasskeyError::AttestationEncoding),
    };
    assert(bytes.deep_view() =~= bytes@);
    let decoded = cbor_map(bytes.as_slice());
    let ghost dv = decoded.deep_view();
    let es = match decoded {
        None => return Err(PasskeyError::AttestationCbor),
        Some(None) => return Err(PasskeyError::MissingAuthData),
        Some(Some(es)) => es,
    };
    assert(dv == Some(Some(es.deep_view())));
    match find_auth_data(&es) {
        Some(a) => {
            assert(a.deep_view() =~= a@);
            Ok(a)
        },
        None => Err(PasskeyError::MissingAuthData),
    }
}

/// The first 32 bytes of `a` are the SHA-256 of the RP ID.
pub fn rp_hash_ok(a: &[u8], rp_id: &str) -> (r: bool)
    ensures
        r == rp_hash_matches(a@, rp_id@),
{
    if a.len() < 32 {
        return false;
    }
    let expected = sha256(rp_id.as_bytes());
    let mut i: usize = 0;
    while i < 32
        invariant
            a@.len() >= 32,
            expected@.len() == 32,
            expected@ == sha256_digest(vstd::utf8::encode_utf8(rp_id@)),
            i <= 32,
            forall|j: int| 0 <= j < i ==> a@[j] == expected@[j],
        decreases 32 - i,
    {
        if a[i] != expected[i] {
            assert(a@.subrange(0, 32)[i as int] != expected@[i as int]);
            return false;
        }
        i = i + 1;
    }
    assert(a@.subrange(0, 32) =~= expected@);
    true
}

/// The purpose stored under a challenge text, if any.
pub open spec fn stored_purpose(s: Seq<ChallengeEntry>, k: Seq<char>) -> Option<Option<(u128, Seq<char>)>> {
    match lookup(s, k) {
        Some(v) => Some(v.0),
        None => None,
    }
}

/// A registration result as a value.
pub open spec fn registration_view(r: Result<NewPasskey, PasskeyError>) -> Result<NewPasskeyView, PasskeyError> {
    match r {
        Ok(p) => Ok(p@),
        Err(e) => Err(e),
    }
}

/// Completes a passkey registration: purges expired challenges, checks the
/// client data and its challenge (which is used up once the ceremony type
/// is right), the origin, the attestation's RP ID hash, the user-present
/// flag and the credential's P-256 key, and gives the passkey to store.
pub fn finish_registration(
    store: &mut ChallengeStore,
    now: u64,
    user_id: u128,
    rp_id: &str,
    rp_origin: &str,
    client_data_json: &str,
    attestation_object: &str,
    name: Option<String>,
    transports: Option<Vec<String>>,
) -> (r: Result<NewPasskey, PasskeyError>)
    ensures
        match client_data_check(client_data_json@, "webauthn.create"@) {
            Err(e) => r == Err::<NewPasskey, _>(e) && final(store)@ == purged(old(store)@, now),
            Ok((_, chal, origin)) => {
                &&& final(store)@ == without_key(purged(old(store)@, now), chal)
                &&& registration_view(r) == registration_outcome(
                    stored_purpose(purged(old(store)@, now), chal),
                    user_id,
                    rp_id@,
                    rp_origin@,
                    origin,
                    attestation_object@,
                    name.deep_view(),
                    transports.deep_view(),
                )
            },
        },
{
    store.purge_expired(now);
    let (_bytes, challenge, origin) = match check_client_data(client_data_json, "webauthn.create") {
        Ok(v) => v,
        Err(e) => return Err(e),
    };
    let ghost p = store@;
    let taken = store.take(challenge.as_str());
    match taken {
        None => return Err(PasskeyError::UnknownChallenge),
        Some(ChallengeData::Authentication) => return Err(PasskeyError::WrongChallengeType),
        Some(ChallengeData::Registration { user_id: uid, user_email: _ }) => {
            if uid != user_id {
                return Err(PasskeyError::ChallengeUserMismatch);
            }
        },
    }
    if !crate::text::str_eq(origin.as_str(), rp_origin) {
        return Err(PasskeyError::OriginMismatch);
    }
    let auth_data = match extract_auth_data(attestation_object) {
        Ok(a) => a,
        Err(e) => return Err(e),
    };
    if !rp_hash_ok(auth_data.as_slice(), rp_id) {
        return Err(PasskeyError::RpIdHashMismatch);
    }
    if auth_data.len() == 32 {
        return Err(PasskeyError::AuthDataTruncated);
    }
    let flags = auth_data[32];
    if flags & 0x01 == 0 {
        return Err(PasskeyError::UserNotPresent);
    }
    let (credential_id, cose_key, aaguid) = match parse_auth_data(auth_data.as_slice()) {
        Ok(v) => v,
        Err(_) => return Err(PasskeyError::InvalidAttestationData),
    };
    if parse_cose_p256_key(cose_key.as_slice()).is_err() {
        return Err(PasskeyError::InvalidCredentialKey);
    }
    let count = sign_count(auth_data.as_slice());
    let cred_b64 = b64url_encode(credential_id.as_slice());
    let aaguid_hex = hex_encode(&aaguid);
    let joined = match &transports {
        Some(t) => Some(join_with_commas(t)),
        None => None,
    };
    let pk_name = match name {
        Some(n) => n,
        None => String::from_str("My Passkey"),
    };
    Ok(NewPasskey {
        credential_id: cred_b64,
        public_key_cbor: cose_key,
        sign_count: count as i64,
        aaguid_hex,
        transports: joined,
        name: pk_name,
    })
}

} // verus!

verus! {

// ─── Failed-login throttle ─────────────────────────────────────

/// Failures older than this many seconds no longer count.
pub const ATTEMPT_WINDOW_SECS: u64 = 900;

/// This many recent failures block further attempts.
pub const MAX_ATTEMPTS: usize = 5;

/// The failure times younger than the window, in order.
pub open spec fn recent_failures(s: Seq<u64>, now: u64) -> Seq<u64>
    decreases s.len(),
{
    if s.len() == 0 {
        s
    } else if age(s.last(), now) < ATTEMPT_WINDOW_SECS {
        recent_failures(s.drop_last(), now).push(s.last())
    } else {
        recent_failures(s.drop_last(), now)
    }
}

/// The failed login attempts of one client address.
pub struct LoginAttempts {
    times: Vec<u64>,
}

impl View for LoginAttempts {
    type V = Seq<u64>;

    closed spec fn view(&self) -> Seq<u64> {
        self.times@
    }
}

impl LoginAttempts {
    pub fn new() -> (a: Self)
        ensures
            a@ == Seq::<u64>::empty(),
    {
        LoginAttempts { times: Vec::new() }
    }

    /// Forgets failures older than the window and tells whether another
    /// attempt is allowed (fewer than `MAX_ATTEMPTS` recent failures).
    pub fn check(&mut self, now: u64) -> (allowed: bool)
        ensures
            final(self)@ == recent_failures(old(self)@, now),
            allowed == (recent_failures(old(self)@, now).len() < MAX_ATTEMPTS),
    {
        let ghost pre = self.times@;
        let mut kept: Vec<u64> = Vec::new();
        let mut i: usize = 0;
        while i < self.times.len()
            invariant
                self.times@ == pre,
                i <= pre.len(),
                kept@ == recent_failures(pre.take(i as int), now),
            decreases pre.len() - i,
        {
            assert(pre.take(i + 1).drop_last() =~= pre.take(i as int));
            let t = self.times[i];
            let fresh = if now >= t { now - t < ATTEMPT_WINDOW_SECS } else { true };
            if fresh {
                kept.push(t);
            }
            i = i + 1;
        }
        assert(pre.take(pre.len() as int) =~= pre);
        self.times = kept;
        self.times.len() < MAX_ATTEMPTS
    }

    /// Records a failed attempt.
    pub fn record_failure(&mut self, now: u64)
        ensures
            final(self)@ == old(self)@.push(now),
    {
        self.times.push(now);
    }
}

proof fn lemma_recent_push_fresh(s: Seq<u64>, now: u64)
    ensures
        recent_failures(s.push(now), now) == recent_failures(s, now).push(now),
{
    assert(s.push(now).drop_last() =~= s);
}

/// Five failures recorded at one moment lock the address out at that moment,
/// whatever came before.
pub proof fn law_five_failures_lock_out(s: Seq<u64>, now: u64)
    ensures
        recent_failures(s.push(now).push(now).push(now).push(now).push(now), now).len() >= MAX_ATTEMPTS,
{
    lemma_recent_push_fresh(s, now);
    lemma_recent_push_fresh(s.push(now), now);
    lemma_recent_push_fresh(s.push(now).push(now), now);
    lemma_recent_push_fresh(s.push(now).push(now).push(now), now);
    lemma_recent_push_fresh(s.push(now).push(now).push(now).push(now), now);
}

// ─── Ceremony options ──────────────────────────────────────────

/// Byte `i` (0 = most significant) of a 128-bit number.
pub open spec fn be_byte(x: u128, i: int) -> u8 {
    ((x >> ((15 - i) * 8) as u128) & 0xffu128) as u8
}

/// The 16 big-endian bytes of a 128-bit user id.
pub fn user_id_bytes(x: u128) -> (r: Vec<u8>)
    ensures
        r@.len() == 16,
        forall|i: int| 0 <= i < 16 ==> #[trigger] r@[i] == be_byte(x, i),
{
    let mut r: Vec<u8> = Vec::new();
    let mut i: usize = 0;
    while i < 16
        invariant
            i <= 16,
            r@.len() == i,
            forall|j: int| 0 <= j < i ==> #[trigger] r@[j] == be_byte(x, j),
        decreases 16 - i,
    {
        let shift: u128 = ((15 - i) * 8) as u128;
        r.push(((x >> shift) & 0xff) as u8);
        i = i + 1;
    }
    r
}

/// What a browser sends to finish registering a passkey: the credential's
/// ids, the authenticator's attestation, and an optional name and
/// transports.
pub struct RegisterCompleteRequest {
    pub id: String,
    pub raw_id: String,
    pub response: AttestationResponse,
    pub name: Option<String>,
    pub transports: Option<Vec<String>>,
}

/// The attestation of a new credential: the CBOR attestation object and
/// the client data JSON, each in unpadded URL-safe base64.
pub struct AttestationResponse {
    pub attestation_object: String,
    pub client_data_json: String,
}

/// What a browser sends to sign in with a passkey.
pub struct AuthCompleteRequest {
    pub id: String,
    pub raw_id: String,
    pub response: AssertionResponse,
}

/// An assertion: authenticator data, client data JSON and signature, in
/// unpadded URL-safe base64, and the user handle where given.
pub struct AssertionResponse {
    pub authenticator_data: String,
    pub client_data_json: String,
    pub signature: String,
    pub user_handle: Option<String>,
}

/// A credential the authenticator should not register again.
pub struct CredentialDescriptor {
    pub id: String,
    pub transports: Option<Vec<String>>,
}

/// The options of a registration ceremony (WebAuthn
/// PublicKeyCredentialCreationOptions).
pub struct CreationOptions {
    pub rp_name: String,
    pub rp_id: String,
    pub user_id: String,
    pub user_name: String,
    pub user_display_name: String,
    pub challenge: String,
    pub algorithm: i32,
    pub timeout_ms: u64,
    pub attestation: String,
    pub resident_key: String,
    pub require_resident_key: bool,
    pub user_verification: String,
    pub exclude_credentials: Vec<CredentialDescriptor>,
}

/// The options of an authentication ceremony (WebAuthn
/// PublicKeyCredentialRequestOptions); no credentials are listed, so the
/// authenticator offers its discoverable ones.
pub struct RequestOptions {
    pub challenge: String,
    pub timeout_ms: u64,
    pub rp_id: String,
    pub user_verification: String,
}

/// Splits a stored transport list at its commas.
pub fn split_at_commas(s: &str) -> (r: Vec<String>)
    ensures
        r.deep_view() == split_commas(s@),
{
    let cs = crate::text::chars_of(s);
    let mut parts: Vec<Vec<char>> = Vec::new();
    parts.push(Vec::new());
    assert(parts@.map_values(|v: Vec<char>| v@) =~= split_commas(cs@.take(0)));
    let mut i: usize = 0;
    while i < cs.len()
        invariant
            cs@ == s@,
            i <= cs@.len(),
            parts@.len() >= 1,
            parts@.map_values(|v: Vec<char>| v@) == split_commas(cs@.take(i as int)),
        decreases cs@.len() - i,
    {
        assert(cs@.take(i + 1).drop_last() =~= cs@.take(i as int));
        let ghost model = split_commas(cs@.take(i as int));
        let c = cs[i];
        if c == ',' {
            parts.push(Vec::new());
            assert(parts@.map_values(|v: Vec<char>| v@) =~= model.push(Seq::empty()));
        } else {
            let last = parts.len() - 1;
            let mut cur = parts.pop().unwrap();
            let ghost before = cur@;
            assert(before == model.last());
            cur.push(c);
            parts.push(cur);
            assert(parts@.map_values(|v: Vec<char>| v@) =~= model.update(last as int, before.push(c)));
        }
        i = i + 1;
    }
    assert(cs@.take(cs@.len() as int) =~= cs@);
    let ghost model = parts@.map_values(|v: Vec<char>| v@);
    let mut r: Vec<String> = Vec::new();
    let mut k: usize = 0;
    while k < parts.len()
        invariant
            k <= parts@.len(),
            model == parts@.map_values(|v: Vec<char>| v@),
            r.deep_view() == model.take(k as int),
        decreases parts@.len() - k,
    {
        let st = crate::text::string_from_chars(parts[k].as_slice());
        assert(st@ == model[k as int]);
        let ghost before = r.deep_view();
        r.push(st);
        assert(r.deep_view() =~= before.push(model[k as int]));
        assert(model.take(k + 1) =~= model.take(k as int).push(model[k as int]));
        k = k + 1;
    }
    assert(model.take(parts@.len() as int) =~= model);
    r
}

} // verus!

verus! {

/// `s` without its trailing `c` chars (`str::trim_end_matches(c)`).
pub open spec fn trim_end_char(s: Seq<char>, c: char) -> Seq<char>
    decreases s.len(),
{
    if s.len() > 0 && s.last() == c {
        trim_end_char(s.drop_last(), c)
    } else {
        s
    }
}

/// The part of `s` before its first colon (all of `s` if it has none).
pub open spec fn before_colon(s: Seq<char>) -> Seq<char>
    decreases s.len(),
{
    if s.len() == 0 {
        s
    } else if before_colon(s.drop_last()).len() < s.len() - 1 {
        before_colon(s.drop_last())
    } else if s.last() == ':' {
        s.drop_last()
    } else {
        s
    }
}

fn trim_end_slashes(s: &str) -> (r: String)
    ensures
        r@ == trim_end_char(s@, '/'),
{
    let cs = crate::text::chars_of(s);
    let mut k: usize = cs.len();
    assert(cs@.take(k as int) =~= cs@);
    while k > 0 && cs[k - 1] == '/'
        invariant
            cs@ == s@,
            k <= cs@.len(),
            trim_end_char(cs@, '/') == trim_end_char(cs@.take(k as int), '/'),
        decreases k,
    {
        assert(cs@.take(k as int).drop_last() =~= cs@.take(k - 1));
        k = k - 1;
    }
    assert(trim_end_char(cs@.take(k as int), '/') == cs@.take(k as int));
    let mut cs = cs;
    cs.truncate(k);
    crate::text::string_from_chars(cs.as_slice())
}

fn host_before_colon(s: &str) -> (r: String)
    ensures
        r@ == before_colon(s@),
{
    let cs = crate::text::chars_of(s);
    let mut i: usize = 0;
    while i < cs.len() && cs[i] != ':'
        invariant
            cs@ == s@,
            i <= cs@.len(),
            forall|j: int| 0 <= j < i ==> cs@[j] != ':',
            before_colon(cs@.take(i as int)) == cs@.take(i as int),
        decreases cs@.len() - i,
    {
        assert(cs@.take(i + 1).drop_last() =~= cs@.take(i as int));
        i = i + 1;
    }
    proof {
        lemma_before_colon_prefix(cs@, i as int);
    }
    let mut cs = cs;
    cs.truncate(i);
    crate::text::string_from_chars(cs.as_slice())
}

proof fn lemma_before_colon_prefix(s: Seq<char>, i: int)
    requires
        0 <= i <= s.len(),
        forall|j: int| 0 <= j < i ==> s[j] != ':',
        i < s.len() ==> s[i] == ':',
        before_colon(s.take(i)) == s.take(i),
    ensures
        before_colon(s) == s.take(i),
    decreases s.len() - i,
{
    if i < s.len() {
        let t = s.take(i + 1);
        assert(t.drop_last() =~= s.take(i));
        assert(before_colon(t) == s.take(i));
        lemma_before_colon_stable(s, i + 1, i);
    } else {
        assert(s.take(i) =~= s);
    }
}

proof fn lemma_before_colon_stable(s: Seq<char>, k: int, i: int)
    requires
        0 <= i < k <= s.len(),
        before_colon(s.take(k)) == s.take(i),
    ensures
        before_colon(s) == s.take(i),
    decreases s.len() - k,
{
    if k < s.len() {
        assert(s.take(k + 1).drop_last() =~= s.take(k));
        lemma_before_colon_stable(s, k + 1, i);
    } else {
        assert(s.take(k) =~= s);
    }
}

/// The relying-party ID: the host of the configured base URL, else of the
/// Origin header, else the Host header without its port, else "localhost".
pub open spec fn rp_id_choice(base_url: Seq<char>, origin: Option<Seq<char>>, host: Option<Seq<char>>) -> Seq<char> {
    if base_url.len() > 0 && url_host(base_url) is Some {
        url_host(base_url)->0
    } else if origin is Some && url_host(origin->0) is Some {
        url_host(origin->0)->0
    } else if host is Some {
        before_colon(host->0)
    } else {
        "localhost"@
    }
}

/// The expected origin: the configured base URL, else the Origin header
/// (both without trailing slashes), else https:// and the Host header's
/// host, else "https://localhost".
pub open spec fn rp_origin_choice(base_url: Seq<char>, origin: Option<Seq<char>>, host: Option<Seq<char>>) -> Seq<char> {
    if base_url.len() > 0 {
        trim_end_char(base_url, '/')
    } else if origin is Some {
        trim_end_char(origin->0, '/')
    } else if host is Some {
        "https://"@ + before_colon(host->0)
    } else {
        "https://localhost"@
    }
}

pub fn rp_id_from(base_url: &str, origin: Option<&str>, host: Option<&str>) -> (r: String)
    ensures
        r@ == rp_id_choice(
            base_url@,
            match origin { Some(o) => Some(o@), None => None },
            match host { Some(h) => Some(h@), None => None },
        ),
{
    if !base_url.is_empty() {
        let h = crate::crypto::parse_url_host(base_url);
        if let Some(h) = h {
            return h;
        }
    }
    if let Some(o) = origin {
        let h = crate::crypto::parse_url_host(o);
        if let Some(h) = h {
            return h;
        }
    }
    if let Some(h) = host {
        return host_before_colon(h);
    }
    String::from_str("localhost")
}

/// `r` is `s` without its trailing slashes: `s` is `r` followed by
/// slashes only, and `r` does not end in a slash.
pub open spec fn slashes(k: nat) -> Seq<char> {
    Seq::new(k, |_i: int| '/')
}

pub open spec fn slashes_trimmed(s: Seq<char>, r: Seq<char>) -> bool {
    &&& exists|k: nat| s == r + #[trigger] slashes(k)
    &&& (r.len() == 0 || r.last() != '/')
}

proof fn lemma_trim_end_slashes(s: Seq<char>)
    ensures
        slashes_trimmed(s, trim_end_char(s, '/')),
    decreases s.len(),
{
    if s.len() > 0 && s.last() == '/' {
        lemma_trim_end_slashes(s.drop_last());
        let r = trim_end_char(s, '/');
        let k = choose|k: nat| s.drop_last() == r + #[trigger] slashes(k);
        assert(slashes(k + 1) =~= slashes(k).push('/'));
        assert(s =~= s.drop_last().push('/'));
        assert(s =~= r + slashes(k + 1));
    } else {
        assert(s =~= s + slashes(0));
    }
}

/// The origin a ceremony must come from is the configured base URL when
/// there is one, else the browser's Origin header, in both cases without
/// trailing slashes, and then the Host header plays no part.
pub proof fn law_expected_origin(base_url: Seq<char>, origin: Option<Seq<char>>, host: Option<Seq<char>>, other_host: Option<Seq<char>>)
    ensures
        base_url.len() > 0 ==> slashes_trimmed(base_url, rp_origin_choice(base_url, origin, host)),
        base_url.len() == 0 && origin is Some ==> slashes_trimmed(origin->0, rp_origin_choice(base_url, origin, host)),
        (base_url.len() > 0 || origin is Some) ==> rp_origin_choice(base_url, origin, host)
            == rp_origin_choice(base_url, origin, other_host),
        base_url.len() == 0 && origin is None && host is None ==> rp_origin_choice(base_url, origin, host)
            == "https://localhost"@,
{
    lemma_trim_end_slashes(base_url);
    if origin is Some {
        lemma_trim_end_slashes(origin->0);
    }
}

pub fn rp_origin_from(base_url: &str, origin: Option<&str>, host: Option<&str>) -> (r: String)
    ensures
        r@ == rp_origin_choice(
            base_url@,
            match origin { Some(o) => Some(o@), None => None },
            match host { Some(h) => Some(h@), None => None },
        ),
{
    if !base_url.is_empty() {
        return trim_end_slashes(base_url);
    }
    if let Some(o) = origin {
        return trim_end_slashes(o);
    }
    if let Some(h) = host {
        let hh = host_before_colon(h);
        let mut r = String::from_str("https://");
        r.append(hh.as_str());
        return r;
    }
    String::from_str("https://localhost")
}

} // verus!

verus! {

impl View for CredentialDescriptor {
    type V = (Seq<char>, Option<Seq<Seq<char>>>);

    open spec fn view(&self) -> (Seq<char>, Option<Seq<Seq<char>>>) {
        (self.id@, self.transports.deep_view())
    }
}

/// A fresh random challenge (32 bytes) in base64url.
fn new_challenge() -> (c: String)
    ensures
        exists|b: Seq<u8>| b.len() == 32 && c@ == #[trigger] b64url_text(b),
{
    let bytes = random_bytes(32);
    let c = b64url_encode(bytes.as_slice());
    assert(bytes@.len() == 32 && c@ == b64url_text(bytes@));
    c
}

/// Starts a registration: purges expired challenges, stores a fresh
/// challenge for the user and lists the user's passkeys to exclude.
pub fn begin_registration(
    store: &mut ChallengeStore,
    now: u64,
    rp_id: String,
    user_id: u128,
    user_email: &str,
    existing: &Vec<(String, Option<String>)>,
) -> (o: CreationOptions)
    ensures
        exists|b: Seq<u8>| b.len() == 32 && o.challenge@ == #[trigger] b64url_text(b),
        final(store)@ == without_key(purged(old(store)@, now), o.challenge@).push(
            (o.challenge@, Some((user_id, user_email@)), now),
        ),
        o.rp_name@ == "Arcpanel"@,
        o.rp_id@ == rp_id@,
        o.user_id@ == b64url_text(Seq::new(16, |i: int| be_byte(user_id, i))),
        o.user_name@ == user_email@,
        o.user_display_name@ == user_email@,
        o.algorithm == -7,
        o.timeout_ms == 300000,
        o.attestation@ == "none"@,
        o.resident_key@ == "preferred"@,
        !o.require_resident_key,
        o.user_verification@ == "preferred"@,
        o.exclude_credentials@.len() == existing@.len(),
        forall|i: int| 0 <= i < existing@.len() ==> (#[trigger] o.exclude_credentials@[i])@ == (
            existing@[i].0@,
            match existing@[i].1 {
                Some(t) => Some(split_commas(t@)),
                None => None,
            },
        ),
{
    store.purge_expired(now);
    let mut exclude: Vec<CredentialDescriptor> = Vec::new();
    let mut i: usize = 0;
    while i < existing.len()
        invariant
            i <= existing@.len(),
            exclude@.len() == i,
            forall|j: int| 0 <= j < i ==> (#[trigger] exclude@[j])@ == (
                existing@[j].0@,
                match existing@[j].1 {
                    Some(t) => Some(split_commas(t@)),
                    None => None,
                },
            ),
        decreases existing@.len() - i,
    {
        let id = String::from_str(existing[i].0.as_str());
        let transports = match &existing[i].1 {
            Some(t) => Some(split_at_commas(t.as_str())),
            None => None,
        };
        exclude.push(CredentialDescriptor { id, transports });
        i = i + 1;
    }
    let challenge = new_challenge();
    let key = String::from_str(challenge.as_str());
    store.insert(key, ChallengeData::Registration { user_id, user_email: String::from_str(user_email) }, now);
    let uid = user_id_bytes(user_id);
    assert(uid@ =~= Seq::new(16, |i: int| be_byte(user_id, i)));
    CreationOptions {
        rp_name: String::from_str("Arcpanel"),
        rp_id,
        user_id: b64url_encode(uid.as_slice()),
        user_name: String::from_str(user_email),
        user_display_name: String::from_str(user_email),
        challenge,
        algorithm: -7,
        timeout_ms: 300000,
        attestation: String::from_str("none"),
        resident_key: String::from_str("preferred"),
        require_resident_key: false,
        user_verification: String::from_str("preferred"),
        exclude_credentials: exclude,
    }
}

/// Starts an authentication: purges expired challenges and stores a fresh
/// challenge not tied to any user.
pub fn begin_authentication(store: &mut ChallengeStore, now: u64, rp_id: String) -> (o: RequestOptions)
    ensures
        exists|b: Seq<u8>| b.len() == 32 && o.challenge@ == #[trigger] b64url_text(b),
        final(store)@ == without_key(purged(old(store)@, now), o.challenge@).push(
            (o.challenge@, None, now),
        ),
        o.timeout_ms == 300000,
        o.rp_id@ == rp_id@,
        o.user_verification@ == "preferred"@,
{
    store.purge_expired(now);
    let challenge = new_challenge();
    let key = String::from_str(challenge.as_str());
    store.insert(key, ChallengeData::Authentication, now);
    RequestOptions {
        challenge,
        timeout_ms: 300000,
        rp_id,
        user_verification: String::from_str("preferred"),
    }
}

/// The first half of an authentication, before the credential is looked
/// up: purges expired challenges, throttles the client address, checks the
/// client data and uses up its challenge, checks the origin.  Gives the
/// decoded client data.
pub fn check_assertion_client(
    store: &mut ChallengeStore,
    attempts: &mut LoginAttempts,
    now: u64,
    rp_origin: &str,
    client_data_json: &str,
) -> (r: Result<Vec<u8>, PasskeyError>)
    ensures
        final(attempts)@ == recent_failures(old(attempts)@, now),
        recent_failures(old(attempts)@, now).len() >= MAX_ATTEMPTS ==> r == Err::<Vec<u8>, _>(PasskeyError::TooManyAttempts)
            && final(store)@ == purged(old(store)@, now),
        recent_failures(old(attempts)@, now).len() < MAX_ATTEMPTS ==> match client_data_check(client_data_json@, "webauthn.get"@) {
            Err(e) => r == Err::<Vec<u8>, _>(e) && final(store)@ == purged(old(store)@, now),
            Ok((b, chal, origin)) => {
                &&& final(store)@ == without_key(purged(old(store)@, now), chal)
                &&& match r {
                    Ok(v) => lookup(purged(old(store)@, now), chal) is Some && origin == rp_origin@ && v@ == b,
                    Err(e) => (lookup(purged(old(store)@, now), chal) is None && e == PasskeyError::UnknownChallenge)
                        || (lookup(purged(old(store)@, now), chal) is Some && origin != rp_origin@
                            && e == PasskeyError::OriginMismatch),
                }
            },
        },
{
    store.purge_expired(now);
    if !attempts.check(now) {
        return Err(PasskeyError::TooManyAttempts);
    }
    let (bytes, challenge, origin) = match check_client_data(client_data_json, "webauthn.get") {
        Ok(v) => v,
        Err(e) => return Err(e),
    };
    let taken = store.take(challenge.as_str());
    if taken.is_none() {
        return Err(PasskeyError::UnknownChallenge);
    }
    if !crate::text::str_eq(origin.as_str(), rp_origin) {
        return Err(PasskeyError::OriginMismatch);
    }
    Ok(bytes)
}

/// The second half of an authentication, against the stored credential:
/// RP ID hash, user presence, counter, signature over
/// `authenticatorData || SHA-256(clientDataJSON)`.  Gives the new counter.
pub open spec fn assertion_outcome(
    rp_id: Seq<char>,
    stored_key: Seq<u8>,
    stored_count: i64,
    ad_text: Seq<char>,
    client_data: Seq<u8>,
    sig_text: Seq<char>,
) -> Result<i64, PasskeyError> {
    match b64url_bytes(ad_text) {
        None => Err(PasskeyError::AuthenticatorDataEncoding),
        Some(a) => if a.len() < 37 || !rp_hash_matches(a, rp_id) {
            Err(PasskeyError::RpIdHashMismatch)
        } else if !user_present_flag(a[32]) {
            Err(PasskeyError::UserNotPresent)
        } else if counter_regressed(stored_count, sign_count_of(a) as i64) {
            Err(PasskeyError::CredentialCloned)
        } else {
            match cose_key_point(stored_key) {
                Err(_) => Err(PasskeyError::StoredKeyInvalid),
                Ok(pt) => match b64url_bytes(sig_text) {
                    None => Err(PasskeyError::SignatureEncoding),
                    Some(sig) => if !p256_der_ok(sig) {
                        Err(PasskeyError::SignatureFormat)
                    } else if !p256_signature_valid(pt, a + sha256_digest(client_data), sig) {
                        Err(PasskeyError::SignatureInvalid)
                    } else {
                        Ok(sign_count_of(a) as i64)
                    },
                },
            }
        },
    }
}

/// An accepted assertion from an authenticator that counts its uses moves
/// the stored counter forward: a counter that did not grow is refused as a
/// cloned credential.
pub proof fn law_accepted_assertion_advances_counter(
    rp_id: Seq<char>,
    stored_key: Seq<u8>,
    stored_count: i64,
    ad_text: Seq<char>,
    client_data: Seq<u8>,
    sig_text: Seq<char>,
)
    requires
        assertion_outcome(rp_id, stored_key, stored_count, ad_text, client_data, sig_text) is Ok,
        stored_count > 0,
    ensures
        ({
            let n = assertion_outcome(rp_id, stored_key, stored_count, ad_text, client_data, sig_text)->Ok_0;
            n == 0 || n > stored_count
        }),
{
}

pub fn verify_assertion(
    attempts: &mut LoginAttempts,
    now: u64,
    rp_id: &str,
    stored_key: &[u8],
    stored_count: i64,
    authenticator_data: &str,
    client_data: &[u8],
    signature: &str,
) -> (r: Result<i64, PasskeyError>)
    ensures
        match r {
            Ok(n) => assertion_outcome(rp_id@, stored_key@, stored_count, authenticator_data@, client_data@, signature@) == Ok::<i64, PasskeyError>(n),
            Err(e) => assertion_outcome(rp_id@, stored_key@, stored_count, authenticator_data@, client_data@, signature@) == Err::<i64, PasskeyError>(e),
        },
        final(attempts)@ == (if r == Err::<i64, PasskeyError>(PasskeyError::SignatureInvalid) {
            old(attempts)@.push(now)
        } else {
            old(attempts)@
        }),
{
    let a = match b64url_decode(authenticator_data) {
        Some(a) => a,
        None => return Err(PasskeyError::AuthenticatorDataEncoding),
    };
    assert(a.deep_view() =~= a@);
    if a.len() < 37 || !rp_hash_ok(a.as_slice(), rp_id) {
        return Err(PasskeyError::RpIdHashMismatch);
    }
    let flags = a[32];
    if flags & 0x01 == 0 {
        return Err(PasskeyError::UserNotPresent);
    }
    let new_count = sign_count(a.as_slice()) as i64;
    if counter_regression(stored_count, new_count) {
        return Err(PasskeyError::CredentialCloned);
    }
    let cd_hash = sha256(client_data);
    let mut signed: Vec<u8> = a.clone();
    let mut i: usize = 0;
    while i < cd_hash.len()
        invariant
            i <= cd_hash@.len(),
            signed@ == a@ + cd_hash@.take(i as int),
        decreases cd_hash@.len() - i,
    {
        signed.push(cd_hash[i]);
        assert(cd_hash@.take(i + 1) =~= cd_hash@.take(i as int).push(cd_hash@[i as int]));
        i = i + 1;
    }
    assert(cd_hash@.take(cd_hash@.len() as int) =~= cd_hash@);
    let point = match parse_cose_p256_key(stored_key) {
        Ok(p) => p,
        Err(_) => return Err(PasskeyError::StoredKeyInvalid),
    };
    let sig = match b64url_decode(signature) {
        Some(s) => s,
        None => return Err(PasskeyError::SignatureEncoding),
    };
    assert(sig.deep_view() =~= sig@);
    if !p256_der_signature_ok(sig.as_slice()) {
        return Err(PasskeyError::SignatureFormat);
    }
    if !p256_verify(point.as_slice(), signed.as_slice(), sig.as_slice()) {
        attempts.record_failure(now);
        return Err(PasskeyError::SignatureInvalid);
    }
    Ok(new_count)
}

/// Why a verified user may still not log in.
#[derive(Debug, Clone, Copy, PartialEq, Eq, Structural)]
pub enum LoginRefusal {
    Suspended,
    PendingApproval,
    LockedDown,
}

impl LoginRefusal {
    pub fn status(&self) -> (s: u16)
        ensures
            s == match self {
                LoginRefusal::Suspended => 403u16,
                LoginRefusal::PendingApproval => 403u16,
                LoginRefusal::LockedDown => 503u16,
            },
    {
        match self {
            LoginRefusal::Suspended => 403,
            LoginRefusal::PendingApproval => 403,
            LoginRefusal::LockedDown => 503,
        }
    }

    pub fn message(&self) -> (m: &'static str)
        ensures
            m@ == match self {
                LoginRefusal::Suspended => "Account suspended"@,
                LoginRefusal::PendingApproval => "Account pending admin approval"@,
                LoginRefusal::LockedDown => "System is in lockdown mode"@,
            },
    {
        match self {
            LoginRefusal::Suspended => "Account suspended",
            LoginRefusal::PendingApproval => "Account pending admin approval",
            LoginRefusal::LockedDown => "System is in lockdown mode",
        }
    }
}

/// Whether a user whose passkey checked out may log in: not suspended,
/// approved, and (unless an admin) not during a lockdown.
pub fn login_gate(role: &str, approved: bool, locked_down: bool) -> (r: Result<(), LoginRefusal>)
    ensures
        r == (if role@ == "suspended"@ {
            Err(LoginRefusal::Suspended)
        } else if !approved {
            Err(LoginRefusal::PendingApproval)
        } else if role@ != "admin"@ && locked_down {
            Err(LoginRefusal::LockedDown)
        } else {
            Ok(())
        }),
{
    if crate::text::str_eq(role, "suspended") {
        return Err(LoginRefusal::Suspended);
    }
    if !approved {
        return Err(LoginRefusal::PendingApproval);
    }
    if !crate::text::str_eq(role, "admin") && locked_down {
        return Err(LoginRefusal::LockedDown);
    }
    Ok(())
}


/// Why a request about a user's stored passkeys is refused.
#[derive(Debug, Clone, Copy, PartialEq, Eq, Structural)]
pub enum PasskeyRequestError {
    TooMany,
    InvalidName,
}

impl PasskeyRequestError {
    pub fn message(&self) -> (m: &'static str)
        ensures
            m@ == match self {
                PasskeyRequestError::TooMany => "Maximum 10 passkeys per account"@,
                PasskeyRequestError::InvalidName => "Name must be 1-255 characters"@,
            },
    {
        match self {
            PasskeyRequestError::TooMany => "Maximum 10 passkeys per account",
            PasskeyRequestError::InvalidName => "Name must be 1-255 characters",
        }
    }
}

/// A user has at most 10 passkeys: registering another needs fewer.
pub fn check_passkey_count(count: i64) -> (r: Result<(), PasskeyRequestError>)
    ensures
        r is Ok <==> count < 10,
        r is Err ==> r == Err::<(), PasskeyRequestError>(PasskeyRequestError::TooMany),
{
    if count >= 10 { Err(PasskeyRequestError::TooMany) } else { Ok(()) }
}

/// A passkey's new name, trimmed: 1 to 255 bytes.
pub fn check_passkey_name(raw: &str) -> (r: Result<String, PasskeyRequestError>)
    ensures
        ({
            let n = crate::text::trimmed(raw@);
            if n.len() == 0 || vstd::utf8::encode_utf8(n).len() > 255 {
                r == Err::<String, PasskeyRequestError>(PasskeyRequestError::InvalidName)
            } else {
                r matches Ok(x) && x@ == n
            }
        }),
{
    let n = crate::text::trim_str(raw);
    if crate::text::chars_of(n.as_str()).len() == 0 || n.as_str().as_bytes().len() > 255 {
        Err(PasskeyRequestError::InvalidName)
    } else {
        Ok(n)
    }
}

} // verus!

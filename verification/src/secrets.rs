//! The secrets vault: names, keys and types a vault accepts, how values
//! are shown masked, the key the values are encrypted with, and what an
//! import takes in.

use vstd::prelude::*;

use crate::text::utf8_len;

use crate::crypto::{hex_encode, hex_lower, sha256, sha256_digest};
use crate::text::{chars_of, lemma_utf8_concat, str_eq, string_from_chars, utf8_width};
use vstd::utf8::encode_utf8;

verus! {

/// A request to create a vault.
pub struct CreateVaultRequest {
    pub name: String,
    pub description: Option<String>,
    pub site_id: Option<uuid::Uuid>,
}

/// A change to a vault.
pub struct UpdateVaultRequest {
    pub name: Option<String>,
    pub description: Option<String>,
}

/// A request to store a secret.
pub struct CreateSecretRequest {
    pub key: String,
    pub value: String,
    pub description: Option<String>,
    pub secret_type: Option<String>,
    pub auto_inject: Option<bool>,
}

/// A change to a secret.
pub struct UpdateSecretRequest {
    pub value: Option<String>,
    pub description: Option<String>,
    pub auto_inject: Option<bool>,
}

/// Paging of the secrets, and whether their values are shown.
pub struct PaginationQuery {
    pub limit: Option<i64>,
    pub offset: Option<i64>,
    pub reveal: Option<bool>,
}

/// The kinds of secret a vault holds.
pub open spec fn is_secret_type(t: Seq<char>) -> bool {
    t == "env"@ || t == "api_key"@ || t == "password"@ || t == "certificate"@ || t == "custom"@
}

/// Why a vault request is refused.
#[derive(Debug, Clone, Copy, PartialEq, Eq, Structural)]
pub enum SecretError {
    InvalidVaultName,
    InvalidKey,
    EmptyValue,
    InvalidType,
    NothingToInject,
    MissingSecrets,
}

impl SecretError {
    pub fn message(&self) -> (m: &'static str)
        ensures
            m@ == match self {
                SecretError::InvalidVaultName => "Name must be 1-100 characters"@,
                SecretError::InvalidKey => "Key must be 1-200 characters"@,
                SecretError::EmptyValue => "Value cannot be empty"@,
                SecretError::InvalidType => "Invalid secret_type"@,
                SecretError::NothingToInject => "No auto-inject secrets in this vault"@,
                SecretError::MissingSecrets => "Missing 'secrets' array"@,
            },
    {
        match self {
            SecretError::InvalidVaultName => "Name must be 1-100 characters",
            SecretError::InvalidKey => "Key must be 1-200 characters",
            SecretError::EmptyValue => "Value cannot be empty",
            SecretError::InvalidType => "Invalid secret_type",
            SecretError::NothingToInject => "No auto-inject secrets in this vault",
            SecretError::MissingSecrets => "Missing 'secrets' array",
        }
    }
}

/// A vault name is 1 to 100 bytes.
pub fn check_vault_name(name: &str) -> (r: Result<(), SecretError>)
    ensures
        r is Ok <==> (name@.len() > 0 && utf8_len(name@) <= 100),
        r is Err ==> r == Err::<(), SecretError>(SecretError::InvalidVaultName),
{
    if chars_of(name).len() == 0 || name.as_bytes().len() > 100 {
        Err(SecretError::InvalidVaultName)
    } else {
        Ok(())
    }
}

/// A change to a vault needs a valid name when it gives one.
pub fn check_vault_update(req: &UpdateVaultRequest) -> (r: Result<(), SecretError>)
    ensures
        r is Ok <==> match req.name { Some(n) => n@.len() > 0 && utf8_len(n@) <= 100, None => true },
        r is Err ==> r == Err::<(), SecretError>(SecretError::InvalidVaultName),
{
    match &req.name {
        Some(n) => check_vault_name(n.as_str()),
        None => Ok(()),
    }
}

/// The checks on a new secret, in order: a key of 1 to 200 bytes, a
/// non-empty value, a known type (default `env`). The result is the type.
pub open spec fn new_secret_check(req: CreateSecretRequest) -> Result<Seq<char>, SecretError> {
    let t = match req.secret_type { Some(t) => t@, None => "env"@ };
    if req.key@.len() == 0 || utf8_len(req.key@) > 200 {
        Err(SecretError::InvalidKey)
    } else if req.value@.len() == 0 {
        Err(SecretError::EmptyValue)
    } else if !is_secret_type(t) {
        Err(SecretError::InvalidType)
    } else {
        Ok(t)
    }
}

pub fn check_new_secret(req: &CreateSecretRequest) -> (r: Result<String, SecretError>)
    ensures
        match r {
            Ok(t) => new_secret_check(*req) == Ok::<Seq<char>, SecretError>(t@),
            Err(e) => new_secret_check(*req) == Err::<Seq<char>, SecretError>(e),
        },
{
    if chars_of(req.key.as_str()).len() == 0 || req.key.as_str().as_bytes().len() > 200 {
        return Err(SecretError::InvalidKey);
    }
    if chars_of(req.value.as_str()).len() == 0 {
        return Err(SecretError::EmptyValue);
    }
    let t = match &req.secret_type {
        Some(t) => String::from_str(t.as_str()),
        None => String::from_str("env"),
    };
    if !(str_eq(t.as_str(), "env") || str_eq(t.as_str(), "api_key") || str_eq(t.as_str(), "password")
        || str_eq(t.as_str(), "certificate") || str_eq(t.as_str(), "custom")) {
        return Err(SecretError::InvalidType);
    }
    Ok(t)
}

/// The version a changed secret gets.
pub fn next_version(current: i32) -> (v: i32)
    requires
        current < i32::MAX,
    ensures
        v == current + 1,
{
    current + 1
}

// ─── Masking ───────────────────────────────────────────────────

/// What a hidden value is shown as.
pub open spec fn bullets() -> Seq<char> {
    "••••••••"@
}

/// Byte 4 of a text's UTF-8 form starts a char (or ends the text).
pub open spec fn fourth_byte_boundary(v: Seq<char>) -> bool {
    exists|k: int| 0 <= k <= v.len() && #[trigger] utf8_len(v.take(k)) == 4
}

/// A masked value: bullets for a value of at most 4 bytes; otherwise its
/// first 4 bytes and the bullets.
pub open spec fn masked_bytes(v: Seq<char>) -> Seq<u8> {
    if utf8_len(v) <= 4 {
        encode_utf8(bullets())
    } else {
        encode_utf8(v).take(4) + encode_utf8(bullets())
    }
}

proof fn lemma_take_step(v: Seq<char>, k: int)
    requires
        0 <= k < v.len(),
    ensures
        utf8_len(v.take(k + 1)) == utf8_len(v.take(k)) + vstd::utf8::encode_scalar(v[k] as u32).len(),
{
    assert(v.take(k + 1) =~= v.take(k) + seq![v[k]]);
    lemma_utf8_concat(v.take(k), seq![v[k]]);
    assert(seq![v[k]].drop_first() =~= Seq::<char>::empty());
    assert(encode_utf8(seq![v[k]]) =~= vstd::utf8::encode_scalar(v[k] as u32) + encode_utf8(Seq::<char>::empty()));
}

proof fn lemma_take_monotone(v: Seq<char>, i: int, j: int)
    requires
        0 <= i <= j <= v.len(),
    ensures
        utf8_len(v.take(i)) + (j - i) <= utf8_len(v.take(j)),
    decreases j - i,
{
    if i < j {
        lemma_take_monotone(v, i, j - 1);
        lemma_take_step(v, j - 1);
        vstd::utf8::char_is_scalar(v[j - 1]);
    }
}

/// Shows a secret value masked. A value longer than 4 bytes must have a
/// char boundary at byte 4 (slicing there would fail otherwise).
pub fn mask_value(value: &str) -> (m: String)
    requires
        utf8_len(value@) > 4 ==> fourth_byte_boundary(value@),
    ensures
        encode_utf8(m@) == masked_bytes(value@),
{
    let n = value.as_bytes().len();
    if n <= 4 {
        return String::from_str("••••••••");
    }
    let cs = chars_of(value);
    let mut head: Vec<char> = Vec::new();
    let mut acc: usize = 0;
    let mut k: usize = 0;
    let ghost v = value@;
    proof {
        assert(v.take(0) =~= Seq::<char>::empty());
    }
    while acc < 4 && k < cs.len()
        invariant
            cs@ == v,
            utf8_len(v) > 4,
            fourth_byte_boundary(v),
            k <= v.len(),
            acc == utf8_len(v.take(k as int)),
            acc <= 4,
            head@ == v.take(k as int),
        decreases v.len() - k,
    {
        let w = utf8_width(cs[k]);
        proof {
            lemma_take_step(v, k as int);
            let k0 = choose|k0: int| 0 <= k0 <= v.len() && #[trigger] utf8_len(v.take(k0)) == 4;
            if k0 <= k {
                lemma_take_monotone(v, k0, k as int);
            } else if k0 > k + 1 {
                lemma_take_monotone(v, k + 1, k0);
            }
        }
        acc = acc + w;
        head.push(cs[k]);
        assert(head@ =~= v.take(k + 1));
        k = k + 1;
    }
    proof {
        if acc < 4 {
            assert(k == v.len());
            assert(v.take(k as int) =~= v);
        }
        assert(v =~= v.take(k as int) + v.skip(k as int));
        lemma_utf8_concat(v.take(k as int), v.skip(k as int));
        assert(encode_utf8(v).take(4) =~= encode_utf8(v.take(k as int)));
    }
    let mut out = string_from_chars(head.as_slice());
    out.append("••••••••");
    proof {
        lemma_utf8_concat(head@, bullets());
    }
    out
}

// ─── The encryption key ────────────────────────────────────────

/// The key derived from the panel's signing secret: the hex SHA-256 of
/// `arcpanel-secrets-encryption:` and the secret.
pub open spec fn derived_key(jwt_secret: Seq<char>) -> Seq<char> {
    hex_lower(sha256_digest(encode_utf8("arcpanel-secrets-encryption:"@) + encode_utf8(jwt_secret)))
}

/// The key the vault values are encrypted with: the configured one
/// (`SECRETS_ENCRYPTION_KEY`, read by the caller) when set, else the one
/// derived from the signing secret.
pub fn encryption_key(configured: Option<String>, jwt_secret: &str) -> (k: String)
    ensures
        k@ == match configured { Some(c) => c@, None => derived_key(jwt_secret@) },
{
    match configured {
        Some(c) => c,
        None => {
            let mut data: Vec<u8> = Vec::new();
            data.extend_from_slice("arcpanel-secrets-encryption:".as_bytes());
            data.extend_from_slice(jwt_secret.as_bytes());
            assert(data@ =~= encode_utf8("arcpanel-secrets-encryption:"@) + encode_utf8(jwt_secret@));
            let d = sha256(data.as_slice());
            hex_encode(d.as_slice())
        },
    }
}

// ─── Import ────────────────────────────────────────────────────

/// One secret of an import, as the caller read it from the uploaded file.
pub struct ImportedSecret {
    pub key: Option<String>,
    pub encrypted_value: Option<String>,
    pub description: Option<String>,
    pub secret_type: Option<String>,
    pub auto_inject: Option<bool>,
}

/// A secret to store from an import.
pub struct SecretImport {
    pub key: String,
    pub encrypted_value: String,
    pub description: Option<String>,
    pub secret_type: String,
    pub auto_inject: bool,
}

pub open spec fn text_or_empty(v: Option<String>) -> Seq<char> {
    match v {
        Some(s) => s@,
        None => Seq::empty(),
    }
}

/// An imported secret is taken when it has a key and an encrypted value;
/// its type defaults to `env`, auto-injection to off.
pub fn import_entry(e: &ImportedSecret) -> (r: Option<SecretImport>)
    ensures
        (text_or_empty(e.key).len() == 0 || text_or_empty(e.encrypted_value).len() == 0) ==> r is None,
        !(text_or_empty(e.key).len() == 0 || text_or_empty(e.encrypted_value).len() == 0) ==> (r matches Some(s)
            && s.key@ == text_or_empty(e.key)
            && s.encrypted_value@ == text_or_empty(e.encrypted_value)
            && s.description.deep_view() == e.description.deep_view()
            && s.secret_type@ == match e.secret_type { Some(t) => t@, None => "env"@ }
            && s.auto_inject == match e.auto_inject { Some(b) => b, None => false }),
{
    let key = match &e.key {
        Some(k) => String::from_str(k.as_str()),
        None => String::new(),
    };
    let value = match &e.encrypted_value {
        Some(v) => String::from_str(v.as_str()),
        None => String::new(),
    };
    proof {
        reveal_strlit("");
    }
    if chars_of(key.as_str()).len() == 0 || chars_of(value.as_str()).len() == 0 {
        return None;
    }
    Some(SecretImport {
        key,
        encrypted_value: value,
        description: match &e.description {
            Some(d) => Some(String::from_str(d.as_str())),
            None => None,
        },
        secret_type: match &e.secret_type {
            Some(t) => String::from_str(t.as_str()),
            None => String::from_str("env"),
        },
        auto_inject: match e.auto_inject { Some(b) => b, None => false },
    })
}

} // verus!

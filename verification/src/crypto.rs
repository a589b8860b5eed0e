//! The calls into outside crates that the library's logic makes: digests,
//! encodings, CBOR decoding, P-256 signature checks, password hashing and
//! random values; and the outside types that requests carry through.  Each result that
//! takes pages to define is given a name; the verified code around the calls
//! is stated over those names.

use vstd::prelude::*;

use base64::Engine;
use p256::ecdsa::signature::Verifier;
use rand::Rng;
use rand::RngCore;
use sha2::Digest;
use subtle::ConstantTimeEq;

verus! {

/// `uuid::Uuid`, which requests carry through as an opaque identifier.
#[verifier::external_type_specification]
#[verifier::external_body]
pub struct ExUuid(uuid::Uuid);

/// `serde_json::Value`, which some requests carry through untouched.
#[verifier::external_type_specification]
#[verifier::external_body]
pub struct ExJsonValue(serde_json::Value);

/// The SHA-256 digest of a byte string.
pub uninterp spec fn sha256_digest(data: Seq<u8>) -> Seq<u8>;

/// The SHA-512 digest of a byte string.
pub uninterp spec fn sha512_digest(data: Seq<u8>) -> Seq<u8>;

/// The lower-case hex digit for a value below 16.
pub open spec fn hex_digit(n: int) -> char {
    if n < 10 { (48 + n) as char } else { (87 + n) as char }
}

/// Hex text has two digits per byte.
pub proof fn lemma_hex_len(data: Seq<u8>)
    ensures
        hex_lower(data).len() == 2 * data.len(),
    decreases data.len(),
{
    if data.len() > 0 {
        lemma_hex_len(data.drop_last());
    }
}

/// Lower-case hexadecimal text of a byte string: two digits per byte,
/// high nibble first.
pub open spec fn hex_lower(data: Seq<u8>) -> Seq<char>
    decreases data.len(),
{
    if data.len() == 0 {
        Seq::empty()
    } else {
        hex_lower(data.drop_last()) + seq![hex_digit(data.last() as int / 16), hex_digit(data.last() as int % 16)]
    }
}

/// The URL-safe base64 digit for a value below 64.
pub open spec fn b64url_digit(v: int) -> char {
    "ABCDEFGHIJKLMNOPQRSTUVWXYZabcdefghijklmnopqrstuvwxyz0123456789-_"@[v]
}

/// Unpadded URL-safe base64 text of a byte string: each three bytes give
/// four digits of six bits, high bits first; a last one or two bytes give
/// two or three digits, the unused low bits zero.
pub open spec fn b64url_text(data: Seq<u8>) -> Seq<char>
    decreases data.len(),
{
    let a = data[0] as int;
    let b = data[1] as int;
    let c = data[2] as int;
    if data.len() == 0 {
        Seq::empty()
    } else if data.len() == 1 {
        seq![b64url_digit(a / 4), b64url_digit((a % 4) * 16)]
    } else if data.len() == 2 {
        seq![b64url_digit(a / 4), b64url_digit((a % 4) * 16 + b / 16), b64url_digit((b % 16) * 4)]
    } else {
        seq![
            b64url_digit(a / 4),
            b64url_digit((a % 4) * 16 + b / 16),
            b64url_digit((b % 16) * 4 + c / 64),
            b64url_digit(c % 64),
        ] + b64url_text(data.skip(3))
    }
}

/// What unpadded URL-safe base64 decoding gives for a text: the bytes
/// whose encoding the text is, and `None` when it is the encoding of no
/// bytes (padding, a stray char, a length of one more than a multiple of
/// four, or unused low bits that are not zero).
pub open spec fn b64url_bytes(text: Seq<char>) -> Option<Seq<u8>> {
    if exists|d: Seq<u8>| b64url_text(d) == text {
        Some(choose|d: Seq<u8>| b64url_text(d) == text)
    } else {
        None
    }
}

/// The top level of a CBOR item: `None` when the bytes are no CBOR item,
/// `Some(None)` when the item is not a map, else the map's entries in order,
/// each as (integer key, text key, byte-string value), a field being `None`
/// where the key or value is of another kind.
pub uninterp spec fn cbor_top_map(
    bytes: Seq<u8>,
) -> Option<Option<Seq<(Option<i128>, Option<Seq<char>>, Option<Seq<u8>>)>>>;

/// The string fields `type`, `challenge` and `origin` of a JSON document
/// given as bytes (`None` for a field that is missing or not a string, or
/// when the document is no object); `None` when the bytes are no JSON
/// document.
pub uninterp spec fn json_client_fields(bytes: Seq<u8>) -> Option<(Option<Seq<char>>, Option<Seq<char>>, Option<Seq<char>>)>;

/// The SEC1 encoding is a point of the P-256 curve.
pub uninterp spec fn p256_point_ok(sec1: Seq<u8>) -> bool;

/// The bytes are a DER-encoded ECDSA/P-256 signature.
pub uninterp spec fn p256_der_ok(der: Seq<u8>) -> bool;

/// The DER signature is valid for the message under the public key.
pub uninterp spec fn p256_signature_valid(sec1: Seq<u8>, msg: Seq<u8>, der: Seq<u8>) -> bool;

/// The host of an absolute URL (`None` when the text is no URL or has no host).
pub uninterp spec fn url_host(text: Seq<char>) -> Option<Seq<char>>;

/// The bytes that percent-encoding keeps: ASCII letters and digits and
/// `-`, `.`, `_`, `~`.
pub open spec fn url_safe_byte(b: u8) -> bool {
    (48 <= b <= 57) || (65 <= b <= 90) || (97 <= b <= 122) || b == 45 || b == 46 || b == 95 || b == 126
}

/// The upper-case hex digit for a value below 16.
pub open spec fn upper_hex_digit(n: int) -> char {
    if n < 10 { (48 + n) as char } else { (55 + n) as char }
}

/// Percent-encoding of bytes: safe bytes as themselves, every other byte
/// as `%` and two upper-case hex digits.
pub open spec fn percent_encoded(bytes: Seq<u8>) -> Seq<char>
    decreases bytes.len(),
{
    if bytes.len() == 0 {
        Seq::empty()
    } else {
        let b = bytes.last();
        percent_encoded(bytes.drop_last()) + if url_safe_byte(b) {
            seq![b as char]
        } else {
            seq!['%', upper_hex_digit(b as int / 16), upper_hex_digit(b as int % 16)]
        }
    }
}

/// Percent-encoding of a text for a URL query value, over its UTF-8 bytes.
pub open spec fn url_encoded(text: Seq<char>) -> Seq<char> {
    percent_encoded(vstd::utf8::encode_utf8(text))
}

/// `sha2::Sha256::digest`: the digest of `data`, 32 bytes long.
#[verifier::external_body]
pub(crate) fn sha256(data: &[u8]) -> (r: Vec<u8>)
    ensures
        r@ == sha256_digest(data@),
        r@.len() == 32,
{
    sha2::Sha256::digest(data).to_vec()
}

/// `sha2::Sha512::digest`: the digest of `data`, 64 bytes long.
#[verifier::external_body]
pub(crate) fn sha512(data: &[u8]) -> (r: Vec<u8>)
    ensures
        r@ == sha512_digest(data@),
        r@.len() == 64,
{
    sha2::Sha512::digest(data).to_vec()
}

/// `hex::encode`: two lower-case hex digits per byte.
#[verifier::external_body]
pub(crate) fn hex_encode(data: &[u8]) -> (r: String)
    ensures
        r@ == hex_lower(data@),
        r@.len() == 2 * data@.len(),
{
    hex::encode(data)
}

/// `base64`'s `URL_SAFE_NO_PAD.encode`: the unpadded URL-safe base64 text
/// of the bytes, as `b64url_text` spells it out.
#[verifier::external_body]
pub(crate) fn b64url_encode(data: &[u8]) -> (r: String)
    ensures
        r@ == b64url_text(data@),
{
    base64::engine::general_purpose::URL_SAFE_NO_PAD.encode(data)
}

/// `base64`'s `URL_SAFE_NO_PAD.decode`: the bytes whose unpadded URL-safe
/// encoding the text is (see `b64url_bytes`), `None` when there are none.
#[verifier::external_body]
pub(crate) fn b64url_decode(text: &str) -> (r: Option<Vec<u8>>)
    ensures
        r.deep_view() == b64url_bytes(text@),
{
    base64::engine::general_purpose::URL_SAFE_NO_PAD.decode(text).ok()
}

/// `ciborium::de::from_reader` into a `ciborium::Value`, with the entries of
/// a top-level map handed out as plain values, as named by `cbor_top_map`.
#[verifier::external_body]
pub(crate) fn cbor_map(bytes: &[u8]) -> (r: Option<Option<Vec<(Option<i128>, Option<String>, Option<Vec<u8>>)>>>)
    ensures
        r.deep_view() == cbor_top_map(bytes@),
{
    match ciborium::de::from_reader::<ciborium::Value, _>(bytes) {
        Err(_) => None,
        Ok(ciborium::Value::Map(m)) => Some(Some(m.into_iter().map(|(k, v)| (
            match &k { ciborium::Value::Integer(i) => Some(i128::from(*i)), _ => None },
            match k { ciborium::Value::Text(t) => Some(t), _ => None },
            match v { ciborium::Value::Bytes(b) => Some(b), _ => None },
        )).collect())),
        Ok(_) => Some(None),
    }
}

/// `serde_json::from_slice` into a JSON value, then its `type`, `challenge`
/// and `origin` fields where they are strings (`Value::get`, then
/// `as_str`), as named by `json_client_fields`.
#[verifier::external_body]
pub(crate) fn client_data_fields(bytes: &[u8]) -> (r: Option<(Option<String>, Option<String>, Option<String>)>)
    ensures
        r.deep_view() == json_client_fields(bytes@),
{
    let v: serde_json::Value = serde_json::from_slice(bytes).ok()?;
    let field = |k: &str| v.get(k).and_then(|x| x.as_str()).map(|s| s.to_string());
    Some((field("type"), field("challenge"), field("origin")))
}

/// Whether `p256::ecdsa::VerifyingKey::from_sec1_bytes` accepts the bytes,
/// as named by `p256_point_ok`.
#[verifier::external_body]
pub(crate) fn p256_key_ok(sec1: &[u8]) -> (r: bool)
    ensures
        r == p256_point_ok(sec1@),
{
    p256::ecdsa::VerifyingKey::from_sec1_bytes(sec1).is_ok()
}

/// Whether `p256::ecdsa::Signature::from_der` accepts the bytes, as named
/// by `p256_der_ok`.
#[verifier::external_body]
pub(crate) fn p256_der_signature_ok(der: &[u8]) -> (r: bool)
    ensures
        r == p256_der_ok(der@),
{
    p256::ecdsa::Signature::from_der(der).is_ok()
}

/// Whether `VerifyingKey::verify` accepts a DER signature over a message
/// (ECDSA with SHA-256), as named by `p256_signature_valid`; the key and the
/// signature must be ones the two checks above accept.
#[verifier::external_body]
pub(crate) fn p256_verify(sec1: &[u8], msg: &[u8], der: &[u8]) -> (r: bool)
    requires
        p256_point_ok(sec1@),
        p256_der_ok(der@),
    ensures
        r == p256_signature_valid(sec1@, msg@, der@),
{
    let key = p256::ecdsa::VerifyingKey::from_sec1_bytes(sec1).unwrap();
    let sig = p256::ecdsa::Signature::from_der(der).unwrap();
    key.verify(msg, &sig).is_ok()
}

/// `url::Url::parse` then `host_str`: the host named by `url_host`, `None`
/// when the text is refused or has no host.
#[verifier::external_body]
pub(crate) fn parse_url_host(text: &str) -> (r: Option<String>)
    ensures
        r.deep_view() == url_host(text@),
{
    url::Url::parse(text).ok().and_then(|u| u.host_str().map(|h| h.to_string()))
}

/// `urlencoding::encode`: every UTF-8 byte percent-encoded but ASCII
/// letters, digits and `-`, `_`, `.`, `~`.
#[verifier::external_body]
pub(crate) fn url_encode(text: &str) -> (r: String)
    ensures
        r@ == url_encoded(text@),
{
    urlencoding::encode(text).into_owned()
}

/// `subtle::ConstantTimeEq::ct_eq` on two byte strings: equal lengths and
/// equal bytes.
#[verifier::external_body]
pub(crate) fn ct_eq(a: &[u8], b: &[u8]) -> (r: bool)
    ensures
        r == (a@ == b@),
{
    a.ct_eq(b).unwrap_u8() == 1
}

/// Random bytes from `rand::rng()`; nothing is known of their values.
#[verifier::external_body]
pub(crate) fn random_bytes(n: usize) -> (r: Vec<u8>)
    ensures
        r@.len() == n,
{
    let mut v = vec![0u8; n];
    rand::rng().fill_bytes(&mut v);
    v
}

/// A random version-4 UUID in its 32-digit lower-case hex form
/// (`Uuid::new_v4().simple()`).
#[verifier::external_body]
pub(crate) fn uuid_v4_simple() -> (r: String)
    ensures
        r@.len() == 32,
        forall|i: int| 0 <= i < 32 ==> crate::text::is_ascii_hex(#[trigger] r@[i]),
{
    uuid::Uuid::new_v4().simple().to_string()
}

/// One sample of rand's `Alphanumeric` distribution from the thread-local
/// generator: an ASCII letter or digit, chosen at random.
#[verifier::external_body]
pub(crate) fn random_alphanumeric_char() -> (c: char)
    ensures
        crate::text::is_ascii_alnum(c),
{
    rand::rng().sample(rand::distr::Alphanumeric) as char
}

/// A random string of `n` ASCII letters and digits.
pub fn random_alphanumeric(n: usize) -> (s: String)
    ensures
        s@.len() == n,
        forall|i: int| 0 <= i < n ==> crate::text::is_ascii_alnum(#[trigger] s@[i]),
{
    let mut v: Vec<char> = Vec::new();
    let mut i: usize = 0;
    while i < n
        invariant
            i <= n,
            v@.len() == i,
            forall|j: int| 0 <= j < i ==> crate::text::is_ascii_alnum(#[trigger] v@[j]),
        decreases n - i,
    {
        v.push(random_alphanumeric_char());
        i = i + 1;
    }
    crate::text::string_from_chars(v.as_slice())
}

/// A number drawn at random below `n` from the thread-local generator
/// (`Rng::random_range(0..n)`, which panics on an empty range).
#[verifier::external_body]
pub(crate) fn random_below(n: usize) -> (r: usize)
    requires
        n > 0,
    ensures
        r < n,
{
    rand::rng().random_range(0..n)
}

/// Whether `Argon2::default().verify_password` accepts a password (its
/// bytes) against a PHC hash string.
pub uninterp spec fn argon2_verifies(phc: Seq<char>, password: Seq<u8>) -> bool;

/// The PHC prefix of a hash made by `Argon2::default()`: Argon2id,
/// version 0x13, 19 MiB of memory, 2 passes, 1 lane.
pub open spec fn argon2_default_prefix() -> Seq<char> {
    "$argon2id$v=19$m=19456,t=2,p=1$"@
}

/// Hashes a password with `Argon2::default()` (Argon2id) and a fresh
/// salt from the operating system (`SaltString::generate(&mut OsRng)`),
/// giving the PHC string. The salt is random and the call can fail; a hash
/// that comes back carries the default parameters in its prefix and is one
/// that `verify_password` accepts for this password. Which salt and which
/// digest it holds is not stated.
#[verifier::external_body]
pub(crate) fn argon2_hash(password: &[u8]) -> (r: Option<String>)
    ensures
        r matches Some(h) ==> crate::text::has_prefix(h@, argon2_default_prefix()) && argon2_verifies(h@, password@),
{
    let salt = argon2::password_hash::SaltString::generate(&mut argon2::password_hash::rand_core::OsRng);
    match argon2::PasswordHasher::hash_password(&argon2::Argon2::default(), password, &salt) {
        Ok(h) => Some(h.to_string()),
        Err(_) => None,
    }
}

/// The compact JWS that `jsonwebtoken::encode` gives for the claims
/// `{"sub": sub, "purpose": purpose, "exp": exp}`, in that order, under the
/// default header (HS256) and an HMAC key; `None` when encoding fails.
pub uninterp spec fn jwt_hs256(sub: Seq<char>, purpose: Seq<char>, exp: u64, key: Seq<u8>) -> Option<Seq<char>>;

/// Signs the claims (subject, purpose, expiry in seconds since the epoch)
/// with `jsonwebtoken::encode`, `Header::default()` (HS256) and
/// `EncodingKey::from_secret(key)`. The claims object keeps the order its
/// keys are inserted in (`serde_json`'s `preserve_order`), as a claims
/// struct with these fields would. The token is named, not restated.
#[verifier::external_body]
pub(crate) fn jwt_encode_hs256(sub: &str, purpose: &str, exp: u64, key: &[u8]) -> (r: Option<String>)
    ensures
        r.deep_view() == jwt_hs256(sub@, purpose@, exp, key@),
{
    let mut c = serde_json::Map::new();
    c.insert("sub".to_string(), serde_json::Value::from(sub));
    c.insert("purpose".to_string(), serde_json::Value::from(purpose));
    c.insert("exp".to_string(), serde_json::Value::from(exp));
    let key = jsonwebtoken::EncodingKey::from_secret(key);
    jsonwebtoken::encode(&jsonwebtoken::Header::default(), &serde_json::Value::Object(c), &key).ok()
}

/// The current time in whole seconds since the Unix epoch
/// (`chrono::Utc::now().timestamp()`); it depends on the clock, so
/// nothing is stated of it.
#[verifier::external_body]
pub(crate) fn unix_now() -> (t: i64)
{
    chrono::Utc::now().timestamp()
}

/// The UUID that `Uuid::parse_str` reads from a text, as its 128-bit
/// number (it takes several spellings of a UUID); `None` when it refuses
/// the text.
pub uninterp spec fn uuid_value(text: Seq<char>) -> Option<u128>;

/// `uuid::Uuid::parse_str`, the result given as `Uuid::as_u128`; which texts
/// it accepts, and what it reads, is named, not restated.
#[verifier::external_body]
pub(crate) fn parse_uuid(text: &str) -> (r: Option<u128>)
    ensures
        r == uuid_value(text@),
{
    uuid::Uuid::parse_str(text).ok().map(|u| u.as_u128())
}

/// What `chrono::NaiveDateTime::parse_from_str` reads from a text in a
/// `strftime`-style format, the time taken as UTC: Unix seconds and the
/// nanoseconds past them; `None` when it does not parse.
pub uninterp spec fn datetime_parsed(text: Seq<char>, format: Seq<char>) -> Option<(i64, u32)>;

/// `chrono::NaiveDateTime::parse_from_str(text, format)`, the time taken
/// as UTC: the seconds and nanoseconds named by `datetime_parsed`.
#[verifier::external_body]
pub(crate) fn parse_datetime_utc(text: &str, format: &str) -> (r: Option<(i64, u32)>)
    ensures
        r == datetime_parsed(text@, format@),
{
    match chrono::NaiveDateTime::parse_from_str(text, format) {
        Ok(dt) => Some((dt.and_utc().timestamp(), dt.and_utc().timestamp_subsec_nanos())),
        Err(_) => None,
    }
}

} // verus!

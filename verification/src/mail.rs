//! The mail server: which domains, accounts and forwarding addresses are
//! accepted, how account passwords are hashed for Dovecot, and the DNS
//! records a mail domain needs.

use vstd::prelude::*;

use crate::text::utf8_len;

use crate::agent_body::{AgentBody, JsonScalar, Scalar};
use crate::crypto::{random_below, sha512, sha512_digest};
use crate::domain::{is_domain, is_valid_domain};
use crate::text::{
    chars_of, concat2, concat3, contains_str, ends_with, has_char, has_infix, has_suffix, join_with,
    normalize, normalized, remove_all, remove_str, split_at_char, split_char, str_eq,
    string_from_chars, trim, trimmed,
};

verus! {

/// A request to add a mail domain.
pub struct CreateDomainRequest {
    pub domain: String,
}

/// A change to a mail domain.
pub struct UpdateDomainRequest {
    pub catch_all: Option<String>,
    pub enabled: Option<bool>,
}

/// A request to add a mailbox.
pub struct CreateAccountRequest {
    pub email: String,
    pub password: String,
    pub display_name: Option<String>,
    pub quota_mb: Option<i32>,
}

/// A change to a mailbox.
pub struct UpdateAccountRequest {
    pub password: Option<String>,
    pub display_name: Option<String>,
    pub quota_mb: Option<i32>,
    pub enabled: Option<bool>,
    pub forward_to: Option<String>,
    pub autoresponder_enabled: Option<bool>,
    pub autoresponder_subject: Option<String>,
    pub autoresponder_body: Option<String>,
}

/// A request to add a mail alias.
pub struct CreateAliasRequest {
    pub source_email: String,
    pub destination_email: String,
}

/// Why a mail request is refused.
#[derive(Debug, Clone, Copy, PartialEq, Eq, Structural)]
pub enum MailError {
    InvalidDomain,
    InvalidCatchAll,
    InvalidForward,
    EmailDomainMismatch,
    PasswordTooShort,
}

impl MailError {
    /// The reply text; for `EmailDomainMismatch` it names the domain.
    pub fn message(&self, domain: &str) -> (s: String)
        ensures
            *self == MailError::EmailDomainMismatch ==> s@ == "Email must end with @"@ + domain@,
    {
        match self {
            MailError::InvalidDomain => String::from_str("Invalid domain name"),
            MailError::InvalidCatchAll => String::from_str("Invalid catch-all email address"),
            MailError::InvalidForward => String::from_str("Invalid forwarding email address"),
            MailError::EmailDomainMismatch => {
                let mut s = String::from_str("Email must end with @");
                s.append(domain);
                s
            },
            MailError::PasswordTooShort => String::from_str("Password must be at least 8 characters"),
        }
    }
}

// ─── Domains and addresses ─────────────────────────────────────

/// A new mail domain: trimmed and lower-cased, and then a valid domain.
pub open spec fn mail_domain_of(raw: Seq<char>) -> Result<Seq<char>, MailError> {
    if is_domain(normalized(raw)) {
        Ok(normalized(raw))
    } else {
        Err(MailError::InvalidDomain)
    }
}

pub fn normalize_mail_domain(raw: &str) -> (r: Result<String, MailError>)
    ensures
        match r {
            Ok(d) => mail_domain_of(raw@) == Ok::<Seq<char>, MailError>(d@),
            Err(e) => mail_domain_of(raw@) == Err::<Seq<char>, MailError>(e),
        },
{
    let d = normalize(raw);
    if is_valid_domain(d.as_str()) {
        Ok(d)
    } else {
        Err(MailError::InvalidDomain)
    }
}

/// An address mail may be passed on to: it has an `@`, is at most 254
/// bytes long and holds no line break, `|` or NUL.
pub open spec fn is_forward_address(a: Seq<char>) -> bool {
    &&& a.contains('@')
    &&& utf8_len(a) <= 254
    &&& !a.contains('\n')
    &&& !a.contains('\r')
    &&& !a.contains('|')
    &&& !a.contains('\0')
}

/// The stored value for a catch-all or forwarding address: `None` for
/// the empty text (which clears it), the address itself when it is one
/// mail may be passed on to, and `err` otherwise.
pub open spec fn forward_value_of(a: Seq<char>, err: MailError) -> Result<Option<Seq<char>>, MailError> {
    if a.len() == 0 {
        Ok(None)
    } else if is_forward_address(a) {
        Ok(Some(a))
    } else {
        Err(err)
    }
}

fn forward_value(a: &str, err: MailError) -> (r: Result<Option<String>, MailError>)
    ensures
        match r {
            Ok(v) => forward_value_of(a@, err) == Ok::<Option<Seq<char>>, MailError>(v.deep_view()),
            Err(e) => forward_value_of(a@, err) == Err::<Option<Seq<char>>, MailError>(e),
        },
{
    let cs = chars_of(a);
    if cs.len() == 0 {
        return Ok(None);
    }
    if !has_char(cs.as_slice(), '@') || a.as_bytes().len() > 254 || has_char(cs.as_slice(), '\n')
        || has_char(cs.as_slice(), '\r') || has_char(cs.as_slice(), '|') || has_char(cs.as_slice(), '\0') {
        return Err(err);
    }
    Ok(Some(String::from_str(a)))
}

/// The catch-all address of a domain as it is to be stored.
pub fn catch_all_value(a: &str) -> (r: Result<Option<String>, MailError>)
    ensures
        match r {
            Ok(v) => forward_value_of(a@, MailError::InvalidCatchAll) == Ok::<Option<Seq<char>>, MailError>(v.deep_view()),
            Err(e) => forward_value_of(a@, MailError::InvalidCatchAll) == Err::<Option<Seq<char>>, MailError>(e),
        },
{
    forward_value(a, MailError::InvalidCatchAll)
}

/// The forwarding address of a mailbox as it is to be stored.
pub fn forward_to_value(a: &str) -> (r: Result<Option<String>, MailError>)
    ensures
        match r {
            Ok(v) => forward_value_of(a@, MailError::InvalidForward) == Ok::<Option<Seq<char>>, MailError>(v.deep_view()),
            Err(e) => forward_value_of(a@, MailError::InvalidForward) == Err::<Option<Seq<char>>, MailError>(e),
        },
{
    forward_value(a, MailError::InvalidForward)
}

/// What a change to a mail domain stores: the catch-all (`Some(None)`
/// clears it) and the enabled flag, each only when given.
pub struct DomainUpdate {
    pub catch_all: Option<Option<String>>,
    pub enabled: Option<bool>,
}

/// Checks a change to a mail domain; a bad catch-all address refuses the
/// whole change.
pub fn plan_domain_update(req: &UpdateDomainRequest) -> (r: Result<DomainUpdate, MailError>)
    ensures
        match req.catch_all {
            Some(a) => match forward_value_of(a@, MailError::InvalidCatchAll) {
                Ok(v) => r matches Ok(u) && u.catch_all.deep_view() == Some(v) && u.enabled == req.enabled,
                Err(e) => r == Err::<DomainUpdate, MailError>(e),
            },
            None => r matches Ok(u) && u.catch_all is None && u.enabled == req.enabled,
        },
{
    let catch_all = match &req.catch_all {
        Some(a) => match catch_all_value(a.as_str()) {
            Ok(v) => Some(v),
            Err(e) => return Err(e),
        },
        None => None,
    };
    Ok(DomainUpdate { catch_all, enabled: req.enabled })
}

/// A new mailbox address: trimmed and lower-cased, with an `@`, ending in
/// `@` and the mailbox's domain.
pub open spec fn account_email_of(raw: Seq<char>, domain: Seq<char>) -> Result<Seq<char>, MailError> {
    let e = normalized(raw);
    if e.contains('@') && has_suffix(e, seq!['@'] + domain) {
        Ok(e)
    } else {
        Err(MailError::EmailDomainMismatch)
    }
}

pub fn check_account_email(raw: &str, domain: &str) -> (r: Result<String, MailError>)
    ensures
        match r {
            Ok(e) => account_email_of(raw@, domain@) == Ok::<Seq<char>, MailError>(e@),
            Err(e) => account_email_of(raw@, domain@) == Err::<Seq<char>, MailError>(e),
        },
{
    let e = normalize(raw);
    let ec = chars_of(e.as_str());
    let mut suffix = String::from_str("@");
    suffix.append(domain);
    proof {
        reveal_strlit("@");
        assert(suffix@ =~= seq!['@'] + domain@);
    }
    if has_char(ec.as_slice(), '@') && ends_with(ec.as_slice(), suffix.as_str()) {
        Ok(e)
    } else {
        Err(MailError::EmailDomainMismatch)
    }
}

/// A mailbox password has at least 8 bytes.
pub fn check_mail_password(password: &str) -> (r: Result<(), MailError>)
    ensures
        r is Ok <==> utf8_len(password@) >= 8,
        r is Err ==> r == Err::<(), MailError>(MailError::PasswordTooShort),
{
    if password.as_bytes().len() < 8 {
        Err(MailError::PasswordTooShort)
    } else {
        Ok(())
    }
}

/// An alias address as it is stored: trimmed and lower-cased.
pub fn alias_address(raw: &str) -> (r: String)
    ensures
        r@ == normalized(raw@),
{
    normalize(raw)
}

// ─── Dovecot password hashes ───────────────────────────────────

/// The chars a SHA512-CRYPT salt is drawn from.
pub open spec fn crypt_salt_alphabet() -> Seq<char> {
    "./0123456789ABCDEFGHIJKLMNOPQRSTUVWXYZabcdefghijklmnopqrstuvwxyz"@
}

/// A salt: 16 chars of the salt alphabet.
pub open spec fn is_crypt_salt(salt: Seq<char>) -> bool {
    salt.len() == 16 && forall|i: int| 0 <= i < 16 ==> crypt_salt_alphabet().contains(#[trigger] salt[i])
}

/// A salt as SHA512-CRYPT takes it here: at most 16 chars of the salt
/// alphabet (so at most 16 bytes, and no `$`).
pub open spec fn is_crypt_salt_text(salt: Seq<char>) -> bool {
    salt.len() <= 16 && forall|i: int| 0 <= i < salt.len() ==> crypt_salt_alphabet().contains(#[trigger] salt[i])
}

/// The first `n` bytes of a 64-byte digest repeated end to end.
pub open spec fn cycled(d: Seq<u8>, n: nat) -> Seq<u8> {
    Seq::new(n, |i: int| d[i % 64])
}

/// `s` written `n` times.
pub open spec fn repeated(s: Seq<u8>, n: nat) -> Seq<u8>
    decreases n,
{
    if n == 0 {
        Seq::empty()
    } else {
        repeated(s, (n - 1) as nat) + s
    }
}

/// For each bit of the password's length, lowest first: the digest `b`
/// for a one, the password for a zero.
pub open spec fn length_bits_part(b: Seq<u8>, p: Seq<u8>, n: nat) -> Seq<u8>
    decreases n,
{
    if n == 0 {
        Seq::empty()
    } else {
        (if n % 2 == 1 { b } else { p }) + length_bits_part(b, p, n / 2)
    }
}

/// Digest A of SHA-crypt: over the password, the salt, as many bytes of
/// the alternate digest B = SHA-512(password, salt, password) as the
/// password is long, and the length's bits.
pub open spec fn sha_crypt_initial(p: Seq<u8>, s: Seq<u8>) -> Seq<u8> {
    let b = sha512_digest(p + s + p);
    sha512_digest(p + s + cycled(b, p.len()) + length_bits_part(b, p, p.len()))
}

/// The sequence P: the digest of the password repeated once per byte of
/// it, cut to the password's length.
pub open spec fn sha_crypt_p(p: Seq<u8>) -> Seq<u8> {
    cycled(sha512_digest(repeated(p, p.len())), p.len())
}

/// The sequence S: the digest of the salt repeated 16 + A[0] times, cut to
/// the salt's length.
pub open spec fn sha_crypt_s(s: Seq<u8>, a: Seq<u8>) -> Seq<u8> {
    cycled(sha512_digest(repeated(s, (16 + a[0]) as nat)), s.len())
}

/// What round `r` digests, from the previous digest `c`.
pub open spec fn sha_crypt_round_input(c: Seq<u8>, pp: Seq<u8>, ss: Seq<u8>, r: nat) -> Seq<u8> {
    (if r % 2 == 1 { pp } else { c }) + (if r % 3 != 0 { ss } else { Seq::empty() })
        + (if r % 7 != 0 { pp } else { Seq::empty() }) + (if r % 2 == 1 { c } else { pp })
}

/// The digest after `n` rounds.
pub open spec fn sha_crypt_rounds(a: Seq<u8>, pp: Seq<u8>, ss: Seq<u8>, n: nat) -> Seq<u8>
    decreases n,
{
    if n == 0 {
        a
    } else {
        sha512_digest(sha_crypt_round_input(sha_crypt_rounds(a, pp, ss, (n - 1) as nat), pp, ss, (n - 1) as nat))
    }
}

/// The final SHA-crypt digest of a password and a salt, with the default
/// 5000 rounds.
pub open spec fn sha_crypt_digest(p: Seq<u8>, s: Seq<u8>) -> Seq<u8> {
    let a = sha_crypt_initial(p, s);
    sha_crypt_rounds(a, sha_crypt_p(p), sha_crypt_s(s, a), 5000)
}

/// The crypt base-64 char of the low six bits of `v`.
pub open spec fn crypt_char(v: int) -> char {
    crypt_salt_alphabet()[v % 64]
}

/// `n` crypt base-64 chars of `w`, low six bits first.
pub open spec fn crypt_enc(w: int, n: nat) -> Seq<char>
    decreases n,
{
    if n == 0 {
        Seq::empty()
    } else {
        seq![crypt_char(w)] + crypt_enc(w / 64, (n - 1) as nat)
    }
}

/// Group `i` of the encoding: the bytes at x, x + 21 and x + 42 (modulo
/// 63), x = 3(i / 3) + 22(i mod 3), as a 24-bit number in four chars.
pub open spec fn crypt_group(d: Seq<u8>, i: int) -> Seq<char> {
    let x = 3 * (i / 3) + 22 * (i % 3);
    crypt_enc(d[x] * 65536 + d[(x + 21) % 63] * 256 + d[(x + 42) % 63], 4)
}

pub open spec fn crypt_groups(d: Seq<u8>, n: nat) -> Seq<char>
    decreases n,
{
    if n == 0 {
        Seq::empty()
    } else {
        crypt_groups(d, (n - 1) as nat) + crypt_group(d, n - 1)
    }
}

/// The 86 chars that stand for a SHA-512 crypt digest: 21 groups of three
/// bytes, then the last byte in two chars.
pub open spec fn crypt_b64(d: Seq<u8>) -> Seq<char> {
    crypt_groups(d, 21) + crypt_enc(d[63] as int, 2)
}

/// The SHA512-CRYPT string of a password with a salt (default 5000
/// rounds): `$6$`, the salt, `$`, and the crypt base-64 digest.
pub open spec fn crypt_of(salt: Seq<char>, password: Seq<char>) -> Seq<char> {
    "$6$"@ + salt + "$"@ + crypt_b64(sha_crypt_digest(vstd::utf8::encode_utf8(password), vstd::utf8::encode_utf8(salt)))
}

fn push_bytes(v: &mut Vec<u8>, s: &[u8])
    ensures
        final(v)@ == old(v)@ + s@,
{
    v.extend_from_slice(s);
    assert(v@ =~= old(v)@ + s@);
}

fn cycle_digest(d: &[u8], n: usize) -> (r: Vec<u8>)
    requires
        d@.len() == 64,
    ensures
        r@ == cycled(d@, n as nat),
{
    let mut r: Vec<u8> = Vec::new();
    let mut i: usize = 0;
    while i < n
        invariant
            d@.len() == 64,
            i <= n,
            r@ =~= cycled(d@, i as nat),
        decreases n - i,
    {
        r.push(d[i % 64]);
        i = i + 1;
    }
    r
}

fn repeat_bytes(s: &[u8], n: usize) -> (r: Vec<u8>)
    ensures
        r@ == repeated(s@, n as nat),
{
    let mut r: Vec<u8> = Vec::new();
    let mut i: usize = 0;
    while i < n
        invariant
            i <= n,
            r@ == repeated(s@, i as nat),
        decreases n - i,
    {
        push_bytes(&mut r, s);
        i = i + 1;
    }
    r
}

fn push_enc(out: &mut Vec<char>, alpha: &Vec<char>, w: u32, n: usize)
    requires
        alpha@ == crypt_salt_alphabet(),
        alpha@.len() == 64,
    ensures
        final(out)@ == old(out)@ + crypt_enc(w as int, n as nat),
    decreases n,
{
    if n > 0 {
        let ghost before = out@;
        out.push(alpha[(w % 64) as usize]);
        push_enc(out, alpha, w / 64, n - 1);
        assert(out@ =~= before + crypt_enc(w as int, n as nat));
    } else {
        assert(out@ =~= old(out)@ + crypt_enc(w as int, n as nat));
    }
}

/// The crypt base-64 text of a 64-byte digest.
fn encode_crypt_digest(d: &[u8]) -> (r: Vec<char>)
    requires
        d@.len() == 64,
    ensures
        r@ == crypt_b64(d@),
{
    let alpha = chars_of("./0123456789ABCDEFGHIJKLMNOPQRSTUVWXYZabcdefghijklmnopqrstuvwxyz");
    proof {
        reveal_strlit("./0123456789ABCDEFGHIJKLMNOPQRSTUVWXYZabcdefghijklmnopqrstuvwxyz");
    }
    assert(alpha@.len() == 64);
    let mut out: Vec<char> = Vec::new();
    let mut i: usize = 0;
    while i < 21
        invariant
            d@.len() == 64,
            alpha@ == crypt_salt_alphabet(),
            alpha@.len() == 64,
            i <= 21,
            out@ == crypt_groups(d@, i as nat),
        decreases 21 - i,
    {
        let x: usize = 3 * (i / 3) + 22 * (i % 3);
        let w: u32 = (d[x] as u32) * 65536 + (d[(x + 21) % 63] as u32) * 256 + (d[(x + 42) % 63] as u32);
        push_enc(&mut out, &alpha, w, 4);
        i = i + 1;
    }
    push_enc(&mut out, &alpha, d[63] as u32, 2);
    out
}

/// The SHA-crypt digest of password and salt bytes, 5000 rounds.
fn sha_crypt(p: &[u8], s: &[u8]) -> (r: Vec<u8>)
    ensures
        r@ == sha_crypt_digest(p@, s@),
        r@.len() == 64,
{
    let mut alt: Vec<u8> = Vec::new();
    push_bytes(&mut alt, p);
    push_bytes(&mut alt, s);
    push_bytes(&mut alt, p);
    let b = sha512(alt.as_slice());

    let mut data: Vec<u8> = Vec::new();
    push_bytes(&mut data, p);
    push_bytes(&mut data, s);
    let bc = cycle_digest(b.as_slice(), p.len());
    push_bytes(&mut data, bc.as_slice());
    let ghost start = data@;
    let mut cnt: usize = p.len();
    while cnt > 0
        invariant
            data@ + length_bits_part(b@, p@, cnt as nat) == start + length_bits_part(b@, p@, p@.len()),
        decreases cnt,
    {
        let ghost d0 = data@;
        if cnt % 2 == 1 {
            push_bytes(&mut data, b.as_slice());
        } else {
            push_bytes(&mut data, p);
        }
        assert(data@ + length_bits_part(b@, p@, (cnt / 2) as nat) =~= d0 + length_bits_part(b@, p@, cnt as nat));
        cnt = cnt / 2;
    }
    assert(data@ =~= data@ + length_bits_part(b@, p@, 0));
    let a = sha512(data.as_slice());

    let dp = repeat_bytes(p, p.len());
    let dp_digest = sha512(dp.as_slice());
    let pp = cycle_digest(dp_digest.as_slice(), p.len());
    let ds = repeat_bytes(s, 16 + a[0] as usize);
    let ds_digest = sha512(ds.as_slice());
    let ss = cycle_digest(ds_digest.as_slice(), s.len());

    let mut c: Vec<u8> = a;
    let ghost a0 = c@;
    let mut r: usize = 0;
    while r < 5000
        invariant
            r <= 5000,
            c@ == sha_crypt_rounds(a0, pp@, ss@, r as nat),
            c@.len() == 64,
        decreases 5000 - r,
    {
        let mut buf: Vec<u8> = Vec::new();
        if r % 2 == 1 {
            push_bytes(&mut buf, pp.as_slice());
        } else {
            push_bytes(&mut buf, c.as_slice());
        }
        if r % 3 != 0 {
            push_bytes(&mut buf, ss.as_slice());
        }
        if r % 7 != 0 {
            push_bytes(&mut buf, pp.as_slice());
        }
        if r % 2 == 1 {
            push_bytes(&mut buf, c.as_slice());
        } else {
            push_bytes(&mut buf, pp.as_slice());
        }
        assert(buf@ =~= sha_crypt_round_input(c@, pp@, ss@, r as nat));
        c = sha512(buf.as_slice());
        r = r + 1;
    }
    c
}

/// Hashes a password with a given salt as SHA512-CRYPT.
pub fn crypt_with_salt(salt: &str, password: &str) -> (h: String)
    requires
        is_crypt_salt_text(salt@),
    ensures
        h@ == crypt_of(salt@, password@),
{
    let digest = sha_crypt(password.as_bytes(), salt.as_bytes());
    let text = encode_crypt_digest(digest.as_slice());
    let enc = string_from_chars(text.as_slice());
    let mut h = String::from_str("$6$");
    h.append(salt);
    h.append("$");
    h.append(enc.as_str());
    proof {
        reveal_strlit("$6$");
        reveal_strlit("$");
    }
    assert(h@ =~= "$6$"@ + salt@ + "$"@ + enc@);
    h
}

/// A random salt for a password hash.
pub fn crypt_salt() -> (salt: String)
    ensures
        is_crypt_salt(salt@),
{
    let alphabet = chars_of("./0123456789ABCDEFGHIJKLMNOPQRSTUVWXYZabcdefghijklmnopqrstuvwxyz");
    proof {
        reveal_strlit("./0123456789ABCDEFGHIJKLMNOPQRSTUVWXYZabcdefghijklmnopqrstuvwxyz");
    }
    assert(alphabet@.len() == 64);
    let mut v: Vec<char> = Vec::new();
    let mut i: usize = 0;
    while i < 16
        invariant
            alphabet@ == crypt_salt_alphabet(),
            alphabet@.len() == 64,
            i <= 16,
            v@.len() == i,
            forall|j: int| 0 <= j < i ==> crypt_salt_alphabet().contains(#[trigger] v@[j]),
        decreases 16 - i,
    {
        let k = random_below(64);
        let c = alphabet[k];
        assert(crypt_salt_alphabet()[k as int] == c);
        v.push(c);
        i = i + 1;
    }
    string_from_chars(v.as_slice())
}

/// Whether `h` is a SHA512-CRYPT hash of `password`, under some salt.
pub open spec fn is_crypt_of(h: Seq<char>, password: Seq<char>) -> bool {
    exists|salt: Seq<char>| is_crypt_salt(salt) && h == crypt_of(salt, password)
}

/// Hashes a password for Dovecot with a fresh random salt.
pub fn sha512_crypt(password: &str) -> (h: String)
    ensures
        is_crypt_of(h@, password@),
{
    let salt = crypt_salt();
    let h = crypt_with_salt(salt.as_str(), password);
    assert(is_crypt_salt(salt@) && h@ == crypt_of(salt@, password@));
    h
}

/// The stored form of a mailbox password: the scheme tag and the hash.
pub open spec fn is_stored_password(stored: Seq<char>, password: Seq<char>) -> bool {
    exists|h: Seq<char>| stored == "{SHA512-CRYPT}"@ + h && is_crypt_of(h, password)
}

pub fn stored_password(password: &str) -> (s: String)
    ensures
        is_stored_password(s@, password@),
{
    let h = sha512_crypt(password);
    let mut s = String::from_str("{SHA512-CRYPT}");
    s.append(h.as_str());
    assert(s@ == "{SHA512-CRYPT}"@ + h@);
    s
}

// ─── Mailboxes ─────────────────────────────────────────────────

/// A mailbox ready to be stored.
pub struct NewMailAccount {
    pub email: String,
    pub password_hash: String,
    pub display_name: Option<String>,
    pub quota_mb: i32,
}

/// Checks a new mailbox of `domain`: its address, then its password. The
/// quota defaults to 1024 MB.
pub fn plan_mail_account(req: &CreateAccountRequest, domain: &str) -> (r: Result<NewMailAccount, MailError>)
    ensures
        account_email_of(req.email@, domain@) is Err ==> r == Err::<NewMailAccount, MailError>(MailError::EmailDomainMismatch),
        account_email_of(req.email@, domain@) is Ok && utf8_len(req.password@) < 8
            ==> r == Err::<NewMailAccount, MailError>(MailError::PasswordTooShort),
        account_email_of(req.email@, domain@) is Ok && utf8_len(req.password@) >= 8 ==> (r matches Ok(a) && {
            &&& account_email_of(req.email@, domain@) == Ok::<Seq<char>, MailError>(a.email@)
            &&& is_stored_password(a.password_hash@, req.password@)
            &&& a.display_name.deep_view() == req.display_name.deep_view()
            &&& a.quota_mb == match req.quota_mb { Some(q) => q, None => 1024 }
        }),
{
    let email = match check_account_email(req.email.as_str(), domain) {
        Ok(e) => e,
        Err(e) => return Err(e),
    };
    if check_mail_password(req.password.as_str()).is_err() {
        return Err(MailError::PasswordTooShort);
    }
    let display_name = match &req.display_name {
        Some(n) => Some(String::from_str(n.as_str())),
        None => None,
    };
    Ok(NewMailAccount {
        email,
        password_hash: stored_password(req.password.as_str()),
        display_name,
        quota_mb: match req.quota_mb { Some(q) => q, None => 1024 },
    })
}

/// A column to set, when its value is given.
pub open spec fn with_opt(b: Seq<(Seq<char>, Scalar)>, key: Seq<char>, v: Option<Scalar>) -> Seq<(Seq<char>, Scalar)> {
    match v {
        Some(x) => b.push((key, x)),
        None => b,
    }
}

pub open spec fn str_scalar(v: Option<String>) -> Option<Scalar> {
    match v {
        Some(s) => Some(Scalar::Str(s@)),
        None => None,
    }
}

/// The changes before the forwarding address: password hash, display
/// name, quota and enabled flag, each when given.
pub open spec fn account_changes_head(req: UpdateAccountRequest, hash: Seq<char>) -> Seq<(Seq<char>, Scalar)> {
    let b0 = if req.password is Some { seq![("password_hash"@, Scalar::Str(hash))] } else { Seq::empty() };
    let b1 = with_opt(b0, "display_name"@, str_scalar(req.display_name));
    let b2 = with_opt(b1, "quota_mb"@, match req.quota_mb { Some(q) => Some(Scalar::Int(q as i64)), None => None });
    with_opt(b2, "enabled"@, match req.enabled { Some(e) => Some(Scalar::Bool(e)), None => None })
}

/// The changes after the forwarding address: the autoresponder.
pub open spec fn account_changes_tail(b: Seq<(Seq<char>, Scalar)>, req: UpdateAccountRequest) -> Seq<(Seq<char>, Scalar)> {
    let b1 = with_opt(b, "autoresponder_enabled"@, match req.autoresponder_enabled { Some(e) => Some(Scalar::Bool(e)), None => None });
    let b2 = with_opt(b1, "autoresponder_subject"@, str_scalar(req.autoresponder_subject));
    with_opt(b2, "autoresponder_body"@, str_scalar(req.autoresponder_body))
}

/// The columns a change to a mailbox sets, in order, and the error it
/// stops at, if any: a short password refuses everything; a bad forwarding
/// address stops after the columns before it.
pub open spec fn account_changes_of(req: UpdateAccountRequest, hash: Seq<char>) -> (Seq<(Seq<char>, Scalar)>, Option<MailError>) {
    if req.password matches Some(pw) && utf8_len(pw@) < 8 {
        (Seq::empty(), Some(MailError::PasswordTooShort))
    } else {
        let head = account_changes_head(req, hash);
        match req.forward_to {
            Some(f) => match forward_value_of(f@, MailError::InvalidForward) {
                Err(e) => (head, Some(e)),
                Ok(v) => (account_changes_tail(head.push(("forward_to"@, crate::agent_body::opt_str(v))), req), None),
            },
            None => (account_changes_tail(head, req), None),
        }
    }
}

/// The columns a change to a mailbox sets and the error it stops at.
pub struct AccountUpdate {
    pub changes: AgentBody,
    pub error: Option<MailError>,
}

fn add_opt_str(b: &mut AgentBody, key: &str, v: &Option<String>)
    ensures
        final(b)@ == with_opt(old(b)@, key@, str_scalar(*v)),
{
    if let Some(x) = v {
        b.set_str(key, x.as_str());
    }
}

fn add_account_tail(b: &mut AgentBody, req: &UpdateAccountRequest)
    ensures
        final(b)@ == account_changes_tail(old(b)@, *req),
{
    if let Some(e) = req.autoresponder_enabled {
        b.set_bool("autoresponder_enabled", e);
    }
    add_opt_str(b, "autoresponder_subject", &req.autoresponder_subject);
    add_opt_str(b, "autoresponder_body", &req.autoresponder_body);
}

/// Works out a change to a mailbox; a new password is hashed with a fresh
/// salt.
pub fn plan_account_update(req: &UpdateAccountRequest) -> (u: AccountUpdate)
    ensures
        match req.password {
            Some(pw) => utf8_len(pw@) >= 8 ==> exists|h: Seq<char>|
                is_stored_password(h, pw@) && (u.changes@, u.error) == account_changes_of(*req, h),
            None => (u.changes@, u.error) == account_changes_of(*req, Seq::empty()),
        },
        req.password matches Some(pw) && utf8_len(pw@) < 8 ==>
            (u.changes@, u.error) == account_changes_of(*req, Seq::empty()),
{
    let mut b = AgentBody::new();
    let ghost mut hash: Seq<char> = Seq::empty();
    if let Some(pw) = &req.password {
        if check_mail_password(pw.as_str()).is_err() {
            return AccountUpdate { changes: b, error: Some(MailError::PasswordTooShort) };
        }
        let stored = stored_password(pw.as_str());
        proof {
            hash = stored@;
        }
        assert(is_stored_password(hash, pw@));
        b.set_str("password_hash", stored.as_str());
    }
    add_opt_str(&mut b, "display_name", &req.display_name);
    if let Some(q) = req.quota_mb {
        b.set_int("quota_mb", q as i64);
    }
    if let Some(e) = req.enabled {
        b.set_bool("enabled", e);
    }
    assert(b@ =~= account_changes_head(*req, hash));
    if let Some(f) = &req.forward_to {
        match forward_to_value(f.as_str()) {
            Err(e) => {
                let u = AccountUpdate { changes: b, error: Some(e) };
                assert((u.changes@, u.error) == account_changes_of(*req, hash));
                return u;
            },
            Ok(v) => {
                b.set_opt_str("forward_to", &v);
            },
        }
    }
    add_account_tail(&mut b, req);
    let u = AccountUpdate { changes: b, error: None };
    assert((u.changes@, u.error) == account_changes_of(*req, hash));
    u
}

// ─── DNS records of a mail domain ──────────────────────────────

/// A DNS record the mail domain needs, with what it is for.
pub struct DnsRecord {
    pub kind: String,
    pub name: String,
    pub content: String,
    pub description: String,
}

impl View for DnsRecord {
    type V = (Seq<char>, Seq<char>, Seq<char>, Seq<char>);

    open spec fn view(&self) -> (Seq<char>, Seq<char>, Seq<char>, Seq<char>) {
        (self.kind@, self.name@, self.content@, self.description@)
    }
}

/// The key data of a PEM public key: the armour lines and line breaks
/// taken out.
pub open spec fn dkim_key_data_of(pem: Seq<char>) -> Seq<char> {
    remove_all(
        remove_all(remove_all(remove_all(pem, "-----BEGIN PUBLIC KEY-----"@), "-----END PUBLIC KEY-----"@), "\n"@),
        "\r"@,
    )
}

/// The DKIM TXT value published for a public key.
pub open spec fn dkim_txt_of(pem: Seq<char>) -> Seq<char> {
    "v=DKIM1; k=rsa; p="@ + dkim_key_data_of(pem)
}

pub fn dkim_txt(pem: &str) -> (t: String)
    ensures
        t@ == dkim_txt_of(pem@),
{
    proof {
        reveal_strlit("-----BEGIN PUBLIC KEY-----");
        reveal_strlit("-----END PUBLIC KEY-----");
        reveal_strlit("\n");
        reveal_strlit("\r");
    }
    let a = chars_of(pem);
    let b = remove_str(a.as_slice(), "-----BEGIN PUBLIC KEY-----");
    let c = remove_str(b.as_slice(), "-----END PUBLIC KEY-----");
    let d = remove_str(c.as_slice(), "\n");
    let e = remove_str(d.as_slice(), "\r");
    let key = string_from_chars(e.as_slice());
    concat2("v=DKIM1; k=rsa; p=", key.as_str())
}

/// The records a mail domain needs: MX, the mail host's A record, SPF,
/// DMARC, and DKIM when the domain has a key.
pub open spec fn mail_dns_records_of(
    domain: Seq<char>,
    selector: Seq<char>,
    dkim: Option<Seq<char>>,
    ip: Seq<char>,
) -> Seq<(Seq<char>, Seq<char>, Seq<char>, Seq<char>)> {
    let base = seq![
        ("MX"@, domain, "10 mail."@ + domain, "Mail exchanger — points to your mail server"@),
        ("A"@, "mail."@ + domain, ip, "Mail server hostname"@),
        ("TXT"@, domain, "v=spf1 a mx ip4:"@ + ip + " ~all"@,
            "SPF — authorizes this server to send mail for this domain"@),
        ("TXT"@, "_dmarc."@ + domain, "v=DMARC1; p=quarantine; rua=mailto:postmaster@"@ + domain,
            "DMARC — tells receiving servers how to handle failed SPF/DKIM"@),
    ];
    match dkim {
        Some(k) => base.push(("TXT"@, selector + "._domainkey."@ + domain, dkim_txt_of(k),
            "DKIM — cryptographic signature for outgoing mail"@)),
        None => base,
    }
}

fn record(kind: &str, name: String, content: String, description: &str) -> (r: DnsRecord)
    ensures
        r@ == (kind@, name@, content@, description@),
{
    DnsRecord {
        kind: String::from_str(kind),
        name,
        content,
        description: String::from_str(description),
    }
}

/// Lists the records a mail domain needs. Without the server's address
/// the records carry the placeholder `your-server-ip`.
pub fn mail_dns_records(
    domain: &str,
    selector: &str,
    dkim_public_key: &Option<String>,
    server_ip: &Option<String>,
) -> (v: Vec<DnsRecord>)
    ensures
        v@.map_values(|r: DnsRecord| r@) == mail_dns_records_of(
            domain@,
            selector@,
            dkim_public_key.deep_view(),
            match server_ip { Some(ip) => ip@, None => "your-server-ip"@ },
        ),
{
    let ip = match server_ip {
        Some(ip) => String::from_str(ip.as_str()),
        None => String::from_str("your-server-ip"),
    };
    let mut v: Vec<DnsRecord> = Vec::new();
    v.push(record("MX", String::from_str(domain), concat2("10 mail.", domain),
        "Mail exchanger — points to your mail server"));
    v.push(record("A", concat2("mail.", domain), String::from_str(ip.as_str()), "Mail server hostname"));
    v.push(record("TXT", String::from_str(domain), concat3("v=spf1 a mx ip4:", ip.as_str(), " ~all"),
        "SPF — authorizes this server to send mail for this domain"));
    v.push(record("TXT", concat2("_dmarc.", domain),
        concat2("v=DMARC1; p=quarantine; rua=mailto:postmaster@", domain),
        "DMARC — tells receiving servers how to handle failed SPF/DKIM"));
    if let Some(k) = dkim_public_key {
        v.push(record("TXT", concat3(selector, "._domainkey.", domain), dkim_txt(k.as_str()),
            "DKIM — cryptographic signature for outgoing mail"));
    }
    assert(v@.map_values(|r: DnsRecord| r@) =~= mail_dns_records_of(
        domain@, selector@, dkim_public_key.deep_view(),
        match server_ip { Some(ip) => ip@, None => "your-server-ip"@ }));
    v
}

// ─── Checking the published records ───────────────────────────

/// The first piece that contains `p`.
pub open spec fn find_piece(pieces: Seq<Seq<char>>, p: Seq<char>) -> Option<Seq<char>>
    decreases pieces.len(),
{
    if pieces.len() == 0 {
        None
    } else if has_infix(pieces[0], p) {
        Some(pieces[0])
    } else {
        find_piece(pieces.skip(1), p)
    }
}

fn find_line(text: &str, p: &str) -> (r: Option<Vec<char>>)
    ensures
        r matches Some(l) ==> find_piece(split_at_char(text@, '\n'), p@) == Some(l@),
        r is None ==> find_piece(split_at_char(text@, '\n'), p@) is None,
{
    let cs = chars_of(text);
    let parts = split_char(cs.as_slice(), '\n');
    let ghost model = parts@.map_values(|v: Vec<char>| v@);
    let mut i: usize = 0;
    assert(model.skip(0) =~= model);
    while i < parts.len()
        invariant
            model == parts@.map_values(|v: Vec<char>| v@),
            model == split_at_char(text@, '\n'),
            i <= parts@.len(),
            find_piece(model.skip(i as int), p@) == find_piece(model, p@),
        decreases parts@.len() - i,
    {
        assert(model.skip(i as int)[0] == parts@[i as int]@);
        assert(model.skip(i as int).skip(1) =~= model.skip(i + 1));
        if contains_str(parts[i].as_slice(), p) {
            let mut line: Vec<char> = Vec::new();
            let mut k: usize = 0;
            while k < parts[i].len()
                invariant
                    i < parts@.len(),
                    k <= parts@[i as int]@.len(),
                    line@ == parts@[i as int]@.take(k as int),
                decreases parts@[i as int]@.len() - k,
            {
                line.push(parts[i][k]);
                assert(parts@[i as int]@.take(k + 1) =~= line@);
                k = k + 1;
            }
            assert(parts@[i as int]@.take(k as int) =~= parts@[i as int]@);
            return Some(line);
        }
        i = i + 1;
    }
    None
}

/// The result of checking one record.
pub struct MailCheck {
    pub kind: String,
    pub pass: bool,
    pub value: String,
    pub host: Option<String>,
}

impl View for MailCheck {
    type V = (Seq<char>, bool, Seq<char>, Option<Seq<char>>);

    open spec fn view(&self) -> (Seq<char>, bool, Seq<char>, Option<Seq<char>>) {
        (self.kind@, self.pass, self.value@, self.host.deep_view())
    }
}

/// What the lookups of a mail domain's records show. Each answer is the
/// text a DNS lookup printed; the MX, DKIM and DMARC answers are read
/// trimmed, the SPF answer line by line.
pub open spec fn mail_checks_of(
    domain: Seq<char>,
    selector: Seq<char>,
    mx: Seq<char>,
    spf: Seq<char>,
    dkim: Seq<char>,
    dmarc: Seq<char>,
) -> Seq<(Seq<char>, bool, Seq<char>, Option<Seq<char>>)> {
    let mx_v = trimmed(mx);
    let has_spf = has_infix(spf, "v=spf1"@);
    let spf_v = match find_piece(split_at_char(spf, '\n'), "v=spf1"@) {
        Some(l) => trimmed(l),
        None => Seq::empty(),
    };
    let dkim_v = trimmed(dkim);
    let has_dkim = has_infix(dkim_v, "v=DKIM1"@) || has_infix(dkim_v, "p="@);
    let dmarc_v = trimmed(dmarc);
    let has_dmarc = has_infix(dmarc_v, "v=DMARC1"@);
    seq![
        ("MX"@, mx_v.len() > 0, mx_v, None),
        ("SPF"@, has_spf, if has_spf { spf_v } else { "Not found"@ }, None),
        ("DKIM"@, has_dkim, if has_dkim { dkim_v.take(if dkim_v.len() < 100 { dkim_v.len() as int } else { 100 }) } else { "Not found"@ },
            Some(selector + "._domainkey."@ + domain)),
        ("DMARC"@, has_dmarc, if has_dmarc { dmarc_v } else { "Not found"@ }, None),
    ]
}

/// The DKIM host of a domain; the selector defaults to `arcpanel`.
pub open spec fn selector_or_default(selector: Option<Seq<char>>) -> Seq<char> {
    match selector {
        Some(s) => s,
        None => "arcpanel"@,
    }
}

fn trimmed_string(s: &str) -> (r: Vec<char>)
    ensures
        r@ == trimmed(s@),
{
    let cs = chars_of(s);
    trim(cs.as_slice())
}

/// Classifies the answers of the four lookups of a mail domain.
pub fn mail_checks(
    domain: &str,
    selector: &Option<String>,
    mx: &str,
    spf: &str,
    dkim: &str,
    dmarc: &str,
) -> (v: Vec<MailCheck>)
    ensures
        v@.map_values(|c: MailCheck| c@) == mail_checks_of(
            domain@, selector_or_default(selector.deep_view()), mx@, spf@, dkim@, dmarc@),
{
    let sel = match selector {
        Some(s) => String::from_str(s.as_str()),
        None => String::from_str("arcpanel"),
    };
    let mut v: Vec<MailCheck> = Vec::new();

    let mx_v = trimmed_string(mx);
    v.push(MailCheck {
        kind: String::from_str("MX"),
        pass: mx_v.len() > 0,
        value: string_from_chars(mx_v.as_slice()),
        host: None,
    });

    let spf_c = chars_of(spf);
    let has_spf = contains_str(spf_c.as_slice(), "v=spf1");
    let spf_value = if has_spf {
        match find_line(spf, "v=spf1") {
            Some(l) => {
                let t = trim(l.as_slice());
                string_from_chars(t.as_slice())
            },
            None => String::new(),
        }
    } else {
        String::from_str("Not found")
    };
    v.push(MailCheck { kind: String::from_str("SPF"), pass: has_spf, value: spf_value, host: None });

    let dkim_v = trimmed_string(dkim);
    let has_dkim = contains_str(dkim_v.as_slice(), "v=DKIM1") || contains_str(dkim_v.as_slice(), "p=");
    let dkim_value = if has_dkim {
        let mut head: Vec<char> = Vec::new();
        let mut k: usize = 0;
        while k < dkim_v.len() && k < 100
            invariant
                k <= dkim_v@.len(),
                k <= 100,
                head@ == dkim_v@.take(k as int),
            decreases 100 - k,
        {
            head.push(dkim_v[k]);
            assert(dkim_v@.take(k + 1) =~= head@);
            k = k + 1;
        }
        string_from_chars(head.as_slice())
    } else {
        String::from_str("Not found")
    };
    v.push(MailCheck {
        kind: String::from_str("DKIM"),
        pass: has_dkim,
        value: dkim_value,
        host: Some(concat3(sel.as_str(), "._domainkey.", domain)),
    });

    let dmarc_v = trimmed_string(dmarc);
    let has_dmarc = contains_str(dmarc_v.as_slice(), "v=DMARC1");
    v.push(MailCheck {
        kind: String::from_str("DMARC"),
        pass: has_dmarc,
        value: if has_dmarc { string_from_chars(dmarc_v.as_slice()) } else { String::from_str("Not found") },
        host: None,
    });
    proof {
        reveal_strlit("");
    }
    assert(v@.map_values(|c: MailCheck| c@) =~= mail_checks_of(
        domain@, selector_or_default(selector.deep_view()), mx@, spf@, dkim@, dmarc@));
    v
}

/// How many checks passed.
pub fn passed_count(checks: &Vec<MailCheck>) -> (n: usize)
    ensures
        n == checks@.filter(|c: MailCheck| c.pass).len(),
{
    let mut n: usize = 0;
    let mut i: usize = 0;
    while i < checks.len()
        invariant
            i <= checks@.len(),
            n == checks@.take(i as int).filter(|c: MailCheck| c.pass).len(),
            n <= i,
        decreases checks@.len() - i,
    {
        assert(checks@.take(i + 1).drop_last() =~= checks@.take(i as int));
        reveal(Seq::filter);
        if checks[i].pass {
            n = n + 1;
        }
        i = i + 1;
    }
    assert(checks@.take(checks@.len() as int) =~= checks@);
    n
}

// ─── Blacklists ────────────────────────────────────────────────

/// An IPv4 address with its parts in reverse order, as DNS blacklists
/// are queried.
pub open spec fn reversed_ip_of(ip: Seq<char>) -> Seq<char> {
    join_with(split_at_char(ip, '.').reverse(), "."@)
}

pub fn reversed_ip(ip: &str) -> (r: String)
    ensures
        r@ == reversed_ip_of(ip@),
{
    let cs = chars_of(ip);
    let parts = split_char(cs.as_slice(), '.');
    let ghost model = parts@.map_values(|v: Vec<char>| v@);
    let ghost rev = model.reverse();
    let n = parts.len();
    let mut out: Vec<char> = Vec::new();
    let mut i: usize = 0;
    proof {
        reveal_strlit(".");
    }
    while i < n
        invariant
            n == parts@.len(),
            model == parts@.map_values(|v: Vec<char>| v@),
            rev == model.reverse(),
            rev == split_at_char(ip@, '.').reverse(),
            i <= n,
            out@ == join_with(rev.take(i as int), "."@),
        decreases n - i,
    {
        let piece = &parts[n - 1 - i];
        assert(rev[i as int] == piece@);
        assert(rev.take(i + 1).drop_last() =~= rev.take(i as int));
        let ghost joined = out@;
        proof {
            reveal_strlit(".");
        }
        if i > 0 {
            out.push('.');
        }
        let ghost before = out@;
        assert(i > 0 ==> before =~= joined + "."@);
        assert(i == 0 ==> before.len() == 0);
        let mut k: usize = 0;
        while k < piece.len()
            invariant
                k <= piece@.len(),
                out@ == before + piece@.take(k as int),
            decreases piece@.len() - k,
        {
            out.push(piece[k]);
            assert(before + piece@.take(k + 1) =~= (before + piece@.take(k as int)).push(piece@[k as int]));
            k = k + 1;
        }
        assert(piece@.take(k as int) =~= piece@);
        assert(rev.take(i + 1).last() == piece@);
        if i == 0 {
            assert(out@ =~= join_with(rev.take(i + 1), "."@));
        } else {
            assert(join_with(rev.take(i + 1), "."@) == join_with(rev.take(i as int), "."@) + "."@ + piece@);
            assert(out@ =~= join_with(rev.take(i + 1), "."@));
        }
        i = i + 1;
    }
    assert(rev.take(n as int) =~= rev);
    string_from_chars(out.as_slice())
}

/// The DNS blacklists a server address is looked up in, with their names.
pub open spec fn blacklist_table() -> Seq<(Seq<char>, Seq<char>)> {
    seq![
        ("zen.spamhaus.org"@, "Spamhaus"@),
        ("bl.spamcop.net"@, "SpamCop"@),
        ("b.barracudacentral.org"@, "Barracuda"@),
        ("dnsbl.sorbs.net"@, "SORBS"@),
        ("spam.dnsbl.sorbs.net"@, "SORBS Spam"@),
        ("cbl.abuseat.org"@, "CBL"@),
        ("dnsbl-1.uceprotect.net"@, "UCEPROTECT L1"@),
        ("psbl.surriel.com"@, "PSBL"@),
    ]
}

pub fn dns_blacklists() -> (v: Vec<(&'static str, &'static str)>)
    ensures
        v@.map_values(|p: (&'static str, &'static str)| (p.0@, p.1@)) == blacklist_table(),
{
    let mut v: Vec<(&'static str, &'static str)> = Vec::new();
    v.push(("zen.spamhaus.org", "Spamhaus"));
    v.push(("bl.spamcop.net", "SpamCop"));
    v.push(("b.barracudacentral.org", "Barracuda"));
    v.push(("dnsbl.sorbs.net", "SORBS"));
    v.push(("spam.dnsbl.sorbs.net", "SORBS Spam"));
    v.push(("cbl.abuseat.org", "CBL"));
    v.push(("dnsbl-1.uceprotect.net", "UCEPROTECT L1"));
    v.push(("psbl.surriel.com", "PSBL"));
    assert(v@.map_values(|p: (&'static str, &'static str)| (p.0@, p.1@)) =~= blacklist_table());
    v
}

/// The name looked up to ask a blacklist about an address.
pub fn blacklist_query(reversed: &str, rbl: &str) -> (q: String)
    ensures
        q@ == reversed@ + "."@ + rbl@,
{
    concat3(reversed, ".", rbl)
}

} // verus!

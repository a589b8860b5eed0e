use arcpanel::passkeys::{
    begin_authentication, begin_registration, finish_registration, login_gate, LoginRefusal, check_assertion_client, check_client_data, counter_regression,
    cose_key_from_entries, parse_auth_data, parse_cose_p256_key, rp_id_from, rp_origin_from, sign_count, verify_assertion,
    AuthDataError, ChallengeData, ChallengeStore, CoseKeyError, LoginAttempts, PasskeyError,
};
use base64::Engine;
use ciborium::value::Value;
use p256::ecdsa::signature::Signer;
use p256::ecdsa::{Signature, SigningKey};
use sha2::{Digest, Sha256};

fn b64(b: &[u8]) -> String {
    base64::engine::general_purpose::URL_SAFE_NO_PAD.encode(b)
}

fn key() -> SigningKey {
    SigningKey::from_bytes(&[7u8; 32].into()).unwrap()
}

fn cose_of(x: &[u8], y: &[u8]) -> Vec<u8> {
    let v = Value::Map(vec![
        (Value::Integer(1.into()), Value::Integer(2.into())),
        (Value::Integer(3.into()), Value::Integer((-7).into())),
        (Value::Integer((-1).into()), Value::Integer(1.into())),
        (Value::Integer((-2).into()), Value::Bytes(x.to_vec())),
        (Value::Integer((-3).into()), Value::Bytes(y.to_vec())),
    ]);
    let mut out = Vec::new();
    ciborium::ser::into_writer(&v, &mut out).unwrap();
    out
}

fn cose_key() -> (Vec<u8>, Vec<u8>) {
    let p = key().verifying_key().to_encoded_point(false);
    let x = p.x().unwrap().to_vec();
    let y = p.y().unwrap().to_vec();
    (cose_of(&x, &y), p.as_bytes().to_vec())
}

fn auth_data(rp_id: &str, flags: u8, count: u32) -> Vec<u8> {
    let mut a = Sha256::digest(rp_id.as_bytes()).to_vec();
    a.push(flags);
    a.extend_from_slice(&count.to_be_bytes());
    a
}

#[test]
fn auth_data_layout() {
    assert_eq!(parse_auth_data(&[0u8; 36]).unwrap_err(), AuthDataError::TooShort);
    let mut a = vec![0u8; 37];
    assert_eq!(parse_auth_data(&a).unwrap_err(), AuthDataError::NoAttestedData);
    a[32] = 0x41;
    assert_eq!(parse_auth_data(&a).unwrap_err(), AuthDataError::TooShortForAttested);
    // AAGUID 37..53, id length 2, id, then the key.
    a.extend((0..16).map(|i| i as u8));
    a.extend([0u8, 2, 0xaa, 0xbb]);
    assert_eq!(parse_auth_data(&a).unwrap_err(), AuthDataError::TooShortForCredentialId);
    a.extend([0xa1, 0x01, 0x02]);
    let (cid, k, aaguid) = parse_auth_data(&a).unwrap();
    assert_eq!(cid, vec![0xaa, 0xbb]);
    assert_eq!(k, vec![0xa1, 0x01, 0x02]);
    assert_eq!(aaguid[15], 15);
    assert_eq!(sign_count(&auth_data("x", 1, 0x01020304)), 0x01020304);
}

#[test]
fn counter_regression_needs_both_counters() {
    assert!(counter_regression(5, 5));
    assert!(counter_regression(5, 3));
    assert!(!counter_regression(5, 6));
    assert!(!counter_regression(0, 0));
    assert!(!counter_regression(5, 0));
}

#[test]
fn cose_keys() {
    let (cose, sec1) = cose_key();
    assert_eq!(parse_cose_p256_key(&cose).unwrap(), sec1);
    assert_eq!(parse_cose_p256_key(&[0xff]).unwrap_err(), CoseKeyError::Cbor);
    let mut not_map = Vec::new();
    ciborium::ser::into_writer(&Value::Integer(3.into()), &mut not_map).unwrap();
    assert_eq!(parse_cose_p256_key(&not_map).unwrap_err(), CoseKeyError::NotMap);
    assert_eq!(parse_cose_p256_key(&cose_of(&[1u8; 31], &[1u8; 32])).unwrap_err(), CoseKeyError::BadCoordinateLength);
    assert_eq!(parse_cose_p256_key(&cose_of(&[1u8; 32], &[1u8; 32])).unwrap_err(), CoseKeyError::InvalidPoint);
    let mut only_x = Vec::new();
    let v = Value::Map(vec![(Value::Integer((-2).into()), Value::Bytes(vec![1u8; 32]))]);
    ciborium::ser::into_writer(&v, &mut only_x).unwrap();
    assert_eq!(parse_cose_p256_key(&only_x).unwrap_err(), CoseKeyError::MissingY);
}

#[test]
fn challenge_store_is_single_use_and_expires() {
    let mut s = ChallengeStore::new();
    s.insert("c1".into(), ChallengeData::Authentication, 100);
    s.insert("c2".into(), ChallengeData::Registration { user_id: 9, user_email: "a@b.c".into() }, 100);
    assert_eq!(s.len(), 2);
    assert!(matches!(s.take("c2"), Some(ChallengeData::Registration { user_id: 9, .. })));
    assert!(s.take("c2").is_none());
    s.insert("c1".into(), ChallengeData::Authentication, 200);
    assert_eq!(s.len(), 1);
    s.purge_expired(499);
    assert_eq!(s.len(), 1);
    s.purge_expired(500);
    assert_eq!(s.len(), 0);
}

#[test]
fn login_attempts_lock_after_five() {
    let mut a = LoginAttempts::new();
    for _ in 0..4 {
        a.record_failure(1000);
    }
    assert!(a.check(1000));
    a.record_failure(1000);
    assert!(!a.check(1000));
    assert!(a.check(1900));
}

#[test]
fn rp_id_and_origin() {
    assert_eq!(rp_id_from("https://panel.example.com/", None, None), "panel.example.com");
    assert_eq!(rp_id_from("", Some("https://o.example.org"), Some("h:8080")), "o.example.org");
    assert_eq!(rp_id_from("", None, Some("h.example:8443")), "h.example");
    assert_eq!(rp_id_from("", None, None), "localhost");
    assert_eq!(rp_origin_from("https://panel.example.com//", None, None), "https://panel.example.com");
    assert_eq!(rp_origin_from("", None, Some("h.example:8443")), "https://h.example");
    assert_eq!(rp_origin_from("", None, None), "https://localhost");
}

#[test]
fn client_data_checks() {
    let cd = br#"{"type":"webauthn.get","challenge":"abc","origin":"https://p.example"}"#;
    let (bytes, chal, origin) = check_client_data(&b64(cd), "webauthn.get").unwrap();
    assert_eq!(bytes, cd.to_vec());
    assert_eq!(chal, "abc");
    assert_eq!(origin, "https://p.example");
    assert_eq!(check_client_data(&b64(cd), "webauthn.create").unwrap_err(), PasskeyError::CeremonyType);
    assert_eq!(check_client_data("!!", "webauthn.get").unwrap_err(), PasskeyError::ClientDataEncoding);
    assert_eq!(check_client_data(&b64(b"nope"), "webauthn.get").unwrap_err(), PasskeyError::ClientDataJson);
}

#[test]
fn full_assertion() {
    let mut store = ChallengeStore::new();
    let mut attempts = LoginAttempts::new();
    let opts = begin_authentication(&mut store, 1000, "p.example".into());
    let cd = format!(r#"{{"type":"webauthn.get","challenge":"{}","origin":"https://p.example"}}"#, opts.challenge);
    let client = check_assertion_client(&mut store, &mut attempts, 1001, "https://p.example", &b64(cd.as_bytes())).unwrap();
    // The challenge is used up.
    assert_eq!(
        check_assertion_client(&mut store, &mut attempts, 1002, "https://p.example", &b64(cd.as_bytes())).unwrap_err(),
        PasskeyError::UnknownChallenge
    );

    let (cose, _) = cose_key();
    let ad = auth_data("p.example", 0x01, 5);
    let mut msg = ad.clone();
    msg.extend_from_slice(&Sha256::digest(&client));
    let sig: Signature = key().sign(&msg);
    let der = sig.to_der();
    let n = verify_assertion(&mut attempts, 1003, "p.example", &cose, 4, &b64(&ad), &client, &b64(der.as_bytes())).unwrap();
    assert_eq!(n, 5);

    assert_eq!(
        verify_assertion(&mut attempts, 1003, "p.example", &cose, 5, &b64(&ad), &client, &b64(der.as_bytes())).unwrap_err(),
        PasskeyError::CredentialCloned
    );
    assert_eq!(
        verify_assertion(&mut attempts, 1003, "q.example", &cose, 4, &b64(&ad), &client, &b64(der.as_bytes())).unwrap_err(),
        PasskeyError::RpIdHashMismatch
    );
    let absent = auth_data("p.example", 0x00, 5);
    assert_eq!(
        verify_assertion(&mut attempts, 1003, "p.example", &cose, 4, &b64(&absent), &client, &b64(der.as_bytes())).unwrap_err(),
        PasskeyError::UserNotPresent
    );
    // A signature over other data is refused and counted as a failure.
    let other: Signature = key().sign(b"other");
    for _ in 0..5 {
        assert_eq!(
            verify_assertion(&mut attempts, 1003, "p.example", &cose, 4, &b64(&ad), &client, &b64(other.to_der().as_bytes())).unwrap_err(),
            PasskeyError::SignatureInvalid
        );
    }
    assert_eq!(
        check_assertion_client(&mut store, &mut attempts, 1004, "https://p.example", &b64(cd.as_bytes())).unwrap_err(),
        PasskeyError::TooManyAttempts
    );
    assert_eq!(
        verify_assertion(&mut attempts, 1003, "p.example", &cose, 4, &b64(&ad), &client, "??").unwrap_err(),
        PasskeyError::SignatureEncoding
    );
    assert_eq!(
        verify_assertion(&mut attempts, 1003, "p.example", &cose, 4, &b64(&ad), &client, &b64(b"xx")).unwrap_err(),
        PasskeyError::SignatureFormat
    );
    assert_eq!(PasskeyError::TooManyAttempts.status(), 429);
}

#[test]
fn full_registration() {
    let mut store = ChallengeStore::new();
    let existing = vec![("cred1".to_string(), Some("usb,nfc".to_string()))];
    let opts = begin_registration(&mut store, 50, "p.example".into(), 0x0102, "a@p.example", &existing);
    assert_eq!(opts.rp_name, "Arcpanel");
    assert_eq!(opts.user_name, "a@p.example");
    assert_eq!(opts.algorithm, -7);
    assert_eq!(opts.exclude_credentials.len(), 1);
    assert_eq!(opts.exclude_credentials[0].id, "cred1");
    assert_eq!(opts.exclude_credentials[0].transports, Some(vec!["usb".to_string(), "nfc".to_string()]));
    let mut uid = vec![0u8; 14];
    uid.extend([1u8, 2]);
    assert_eq!(opts.user_id, b64(&uid));

    let (cose, _) = cose_key();
    let mut ad = auth_data("p.example", 0x41, 9);
    ad.extend([7u8; 16]);
    ad.extend([0u8, 3, 0xc1, 0xc2, 0xc3]);
    ad.extend(&cose);
    let att = Value::Map(vec![
        (Value::Text("fmt".into()), Value::Text("none".into())),
        (Value::Text("attStmt".into()), Value::Map(vec![])),
        (Value::Text("authData".into()), Value::Bytes(ad.clone())),
    ]);
    let mut att_bytes = Vec::new();
    ciborium::ser::into_writer(&att, &mut att_bytes).unwrap();
    let cd = format!(r#"{{"type":"webauthn.create","challenge":"{}","origin":"https://p.example"}}"#, opts.challenge);

    // Another user cannot use the challenge; the try uses it up.
    let mut other = ChallengeStore::new();
    let o2 = begin_registration(&mut other, 50, "p.example".into(), 5, "b@p.example", &vec![]);
    let cd2 = format!(r#"{{"type":"webauthn.create","challenge":"{}","origin":"https://p.example"}}"#, o2.challenge);
    assert_eq!(
        finish_registration(&mut other, 51, 6, "p.example", "https://p.example", &b64(cd2.as_bytes()), &b64(&att_bytes), None, None).unwrap_err(),
        PasskeyError::ChallengeUserMismatch
    );
    assert_eq!(other.len(), 0);

    let pk = finish_registration(
        &mut store, 51, 0x0102, "p.example", "https://p.example", &b64(cd.as_bytes()), &b64(&att_bytes),
        None, Some(vec!["internal".to_string(), "hybrid".to_string()]),
    )
    .unwrap();
    assert_eq!(pk.credential_id, b64(&[0xc1, 0xc2, 0xc3]));
    assert_eq!(pk.credential_id, "wcLD");
    assert_eq!(pk.public_key_cbor, cose);
    assert_eq!(pk.sign_count, 9);
    assert_eq!(pk.aaguid_hex, "07".repeat(16));
    assert_eq!(pk.transports.as_deref(), Some("internal,hybrid"));
    assert_eq!(pk.name, "My Passkey");
    assert_eq!(store.len(), 0);

    assert_eq!(login_gate("suspended", true, false), Err(LoginRefusal::Suspended));
    assert_eq!(login_gate("user", false, false), Err(LoginRefusal::PendingApproval));
    assert_eq!(login_gate("user", true, true), Err(LoginRefusal::LockedDown));
    assert!(login_gate("admin", true, true).is_ok());
    assert_eq!(LoginRefusal::LockedDown.status(), 503);
}

#[test]
fn stored_passkey_requests() {
    use_checks();
}

fn use_checks() {
    assert!(arcpanel::passkeys::check_passkey_count(9).is_ok());
    assert_eq!(arcpanel::passkeys::check_passkey_count(10), Err(arcpanel::passkeys::PasskeyRequestError::TooMany));
    assert_eq!(arcpanel::passkeys::check_passkey_name("  Laptop  ").unwrap(), "Laptop");
    assert_eq!(arcpanel::passkeys::check_passkey_name("   "), Err(arcpanel::passkeys::PasskeyRequestError::InvalidName));
    assert_eq!(arcpanel::passkeys::check_passkey_name(&"é".repeat(128)), Err(arcpanel::passkeys::PasskeyRequestError::InvalidName));
    assert_eq!(arcpanel::passkeys::PasskeyRequestError::TooMany.message(), "Maximum 10 passkeys per account");
}

#[test]
fn cose_entries_give_the_point() {
    let p = key().verifying_key().to_encoded_point(false);
    let x = p.x().unwrap().to_vec();
    let y = p.y().unwrap().to_vec();
    let entries = vec![
        (Some(1i128), None, None),
        (Some(-2i128), None, Some(vec![0u8; 32])),
        (Some(-2i128), None, Some(x.clone())),
        (Some(-3i128), None, Some(y.clone())),
    ];
    assert_eq!(cose_key_from_entries(&entries).unwrap(), p.as_bytes().to_vec());
    assert_eq!(cose_key_from_entries(&vec![(Some(-3i128), None, Some(y.clone()))]), Err(CoseKeyError::MissingX));
    assert_eq!(cose_key_from_entries(&vec![(Some(-2i128), None, Some(x.clone()))]), Err(CoseKeyError::MissingY));
    assert_eq!(
        cose_key_from_entries(&vec![(Some(-2i128), None, Some(x[..31].to_vec())), (Some(-3i128), None, Some(y.clone()))]),
        Err(CoseKeyError::BadCoordinateLength)
    );
    let mut bad_y = y.clone();
    bad_y[31] ^= 1;
    assert_eq!(
        cose_key_from_entries(&vec![(Some(-2i128), None, Some(x)), (Some(-3i128), None, Some(bad_y))]),
        Err(CoseKeyError::InvalidPoint)
    );
}

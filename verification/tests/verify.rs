use rsa::pkcs8::{EncodePrivateKey, EncodePublicKey, LineEnding};
use rsa::RsaPrivateKey;
use wechat_pay::{
    Client, PlatformPubKey, ResponseHeader, VerificationFailure, WeChatPayError,
};

const API_KEY: &str = "0123456789abcdef0123456789abcdef";
const NOW: u64 = 1_700_000_000;

/// A client whose own signing key is also in its trust store under the
/// given serial, so that self-signed responses verify.
fn self_trusting_client(serial: &str) -> Client {
    let mut rng = rand::thread_rng();
    let key = RsaPrivateKey::new(&mut rng, 512).unwrap();
    let private_pem = key.to_pkcs8_pem(LineEnding::LF).unwrap().to_string();
    let public_pem = key.to_public_key().to_public_key_pem(LineEnding::LF).unwrap();
    let platform = PlatformPubKey {
        serial_no: serial.to_string(),
        effective_time: NOW - 1000,
        expire_time: NOW + 1000,
        key: public_pem,
    };
    Client::new("m", &private_pem, "own-serial", API_KEY, vec![platform]).unwrap()
}

/// A signature over `TIMESTAMP\nNONCE\nBODY\n` under the client's own key.
fn sign_response(client: &Client, ts: &str, nonce: &str, body: &str) -> String {
    let message = format!("{}\n{}\n{}\n", ts, nonce, body);
    client.sha256_with_rsa(message.as_bytes()).unwrap()
}

fn fail_reason(r: Result<(), WeChatPayError>) -> VerificationFailure {
    match r {
        Err(WeChatPayError::VerifySignatureFail(f)) => f,
        other => panic!("expected a verification failure, got {:?}", other),
    }
}

#[test]
fn own_public_key_verifies_own_signature() {
    // The derived public half of the signing key, installed in the store,
    // accepts exactly what the private half signed.
    let mut rng = rand::thread_rng();
    let key = RsaPrivateKey::new(&mut rng, 512).unwrap();
    let private_pem = key.to_pkcs8_pem(LineEnding::LF).unwrap().to_string();
    let mut client = Client::new("m", &private_pem, "own-serial", API_KEY, Vec::new()).unwrap();
    let derived = client.public_key_pem().unwrap();
    client.update_public_keys(vec![PlatformPubKey {
        serial_no: "SELF".to_string(),
        effective_time: NOW - 1000,
        expire_time: NOW + 1000,
        key: derived,
    }]);
    let ts = NOW.to_string();
    let sig = sign_response(&client, &ts, "n", "body");
    let r = client.verify_signatrue(Some(&ts), Some("n"), Some("SELF"), Some(&sig), "body", NOW);
    assert!(r.is_ok());
}

#[test]
fn valid_response_verifies() {
    let client = self_trusting_client("PLAT1");
    let ts = NOW.to_string();
    let body = "{\"ok\":true}";
    let sig = sign_response(&client, &ts, "n0nce", body);
    let r = client.verify_signatrue(Some(&ts), Some("n0nce"), Some("PLAT1"), Some(&sig), body, NOW);
    assert!(r.is_ok());
}

#[test]
fn skewed_timestamp_is_rejected_even_with_a_valid_signature() {
    // 301 seconds of skew, on either side, fails as expired; 300 passes.
    let client = self_trusting_client("PLAT1");
    let ts = (NOW - 301).to_string();
    let sig = sign_response(&client, &ts, "n", "body");
    let r = client.verify_signatrue(Some(&ts), Some("n"), Some("PLAT1"), Some(&sig), "body", NOW);
    assert_eq!(fail_reason(r), VerificationFailure::TimestampExpired);

    let ts = (NOW + 301).to_string();
    let sig = sign_response(&client, &ts, "n", "body");
    let r = client.verify_signatrue(Some(&ts), Some("n"), Some("PLAT1"), Some(&sig), "body", NOW);
    assert_eq!(fail_reason(r), VerificationFailure::TimestampExpired);

    let ts = (NOW - 300).to_string();
    let sig = sign_response(&client, &ts, "n", "body");
    let r = client.verify_signatrue(Some(&ts), Some("n"), Some("PLAT1"), Some(&sig), "body", NOW);
    assert!(r.is_ok());
}

#[test]
fn unknown_serial_is_rejected_independent_of_the_signature() {
    let client = self_trusting_client("PLAT1");
    let ts = NOW.to_string();
    let sig = sign_response(&client, &ts, "n", "body");
    let r = client.verify_signatrue(Some(&ts), Some("n"), Some("NOBODY"), Some(&sig), "body", NOW);
    assert_eq!(fail_reason(r), VerificationFailure::UnknownSerial);
}

#[test]
fn missing_headers_are_named() {
    let client = self_trusting_client("PLAT1");
    let ts = NOW.to_string();
    let sig = sign_response(&client, &ts, "n", "body");
    let r = client.verify_signatrue(None, Some("n"), Some("PLAT1"), Some(&sig), "body", NOW);
    assert_eq!(
        fail_reason(r),
        VerificationFailure::MissingHeader(ResponseHeader::Timestamp)
    );
    let r = client.verify_signatrue(Some(&ts), Some("n"), None, Some(&sig), "body", NOW);
    assert_eq!(
        fail_reason(r),
        VerificationFailure::MissingHeader(ResponseHeader::Serial)
    );
    let r = client.verify_signatrue(Some(&ts), Some("n"), Some("PLAT1"), None, "body", NOW);
    assert_eq!(
        fail_reason(r),
        VerificationFailure::MissingHeader(ResponseHeader::Signature)
    );
    let r = client.verify_signatrue(Some(&ts), None, Some("PLAT1"), Some(&sig), "body", NOW);
    assert_eq!(
        fail_reason(r),
        VerificationFailure::MissingHeader(ResponseHeader::Nonce)
    );
}

#[test]
fn non_numeric_timestamp_is_rejected() {
    let client = self_trusting_client("PLAT1");
    let r = client.verify_signatrue(Some("soon"), Some("n"), Some("PLAT1"), Some("sig"), "b", NOW);
    assert_eq!(fail_reason(r), VerificationFailure::InvalidTimestamp);
}

#[test]
fn malformed_base64_fails_distinctly_from_a_bad_signature() {
    let client = self_trusting_client("PLAT1");
    let ts = NOW.to_string();
    let r = client.verify_signatrue(
        Some(&ts),
        Some("n"),
        Some("PLAT1"),
        Some("!!not-base64!!"),
        "body",
        NOW,
    );
    assert_eq!(fail_reason(r), VerificationFailure::MalformedSignature);
}

#[test]
fn wrong_message_fails_as_bad_signature() {
    let client = self_trusting_client("PLAT1");
    let ts = NOW.to_string();
    let sig = sign_response(&client, &ts, "n", "the signed body");
    let r = client.verify_signatrue(
        Some(&ts),
        Some("n"),
        Some("PLAT1"),
        Some(&sig),
        "a different body",
        NOW,
    );
    assert_eq!(fail_reason(r), VerificationFailure::BadSignature);
}

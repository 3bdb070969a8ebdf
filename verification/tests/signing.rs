use base64::engine::general_purpose;
use base64::Engine;
use rsa::pkcs8::{EncodePrivateKey, LineEnding};
use rsa::RsaPrivateKey;
use wechat_pay::crypto::build_path_with_query;
use wechat_pay::{parse_dec_u64, u64_to_string, Client, WeChatPayError};

const API_KEY: &str = "0123456789abcdef0123456789abcdef";

fn fresh_client() -> Client {
    let mut rng = rand::thread_rng();
    let key = RsaPrivateKey::new(&mut rng, 512).unwrap();
    let private_pem = key.to_pkcs8_pem(LineEnding::LF).unwrap().to_string();
    Client::new("1900000001", &private_pem, "MCHSERIAL01", API_KEY, Vec::new()).unwrap()
}

#[test]
fn u64_to_string_exact() {
    assert_eq!(u64_to_string(0), "0");
    assert_eq!(u64_to_string(7), "7");
    assert_eq!(u64_to_string(1700000000), "1700000000");
    assert_eq!(u64_to_string(u64::MAX), "18446744073709551615");
}

#[test]
fn parse_dec_u64_exact() {
    assert_eq!(parse_dec_u64("0"), Some(0));
    assert_eq!(parse_dec_u64("1700000000"), Some(1_700_000_000));
    assert_eq!(parse_dec_u64("18446744073709551615"), Some(u64::MAX));
    assert_eq!(parse_dec_u64("18446744073709551616"), None);
    assert_eq!(parse_dec_u64(""), None);
    assert_eq!(parse_dec_u64("12a"), None);
    assert_eq!(parse_dec_u64("-5"), None);
    assert_eq!(parse_dec_u64("+5"), None);
    assert_eq!(parse_dec_u64("007"), Some(7));
}

#[test]
fn signing_is_deterministic() {
    // Fixed key, method, path, body, timestamp and nonce give a
    // byte-identical header on every invocation.
    let client = fresh_client();
    let h1 = client
        .request_authorization_with("GET", "/v3/certificates", "", 1700000000, "NONCE0123456789")
        .unwrap();
    let h2 = client
        .request_authorization_with("GET", "/v3/certificates", "", 1700000000, "NONCE0123456789")
        .unwrap();
    assert_eq!(h1, h2);
}

#[test]
fn signature_base64_is_deterministic() {
    let client = fresh_client();
    let s1 = client.sha256_with_rsa(b"canonical bytes").unwrap();
    let s2 = client.sha256_with_rsa(b"canonical bytes").unwrap();
    assert_eq!(s1, s2);
    let s3 = client.sha256_with_rsa(b"other bytes").unwrap();
    assert_ne!(s1, s3);
}

#[test]
fn authorization_header_has_the_documented_shape() {
    let client = fresh_client();
    let nonce = "abcdefghijklmnopqrstuvwxyz012345";
    let header = client
        .request_authorization_with("POST", "/v3/pay/transactions/h5", "{}", 1699999999, nonce)
        .unwrap();
    let signature = client
        .sha256_with_rsa(format!("POST\n/v3/pay/transactions/h5\n1699999999\n{}\n{}\n", nonce, "{}").as_bytes())
        .unwrap();
    let expected = format!(
        "WECHATPAY2-SHA256-RSA2048 mchid=\"1900000001\",nonce_str=\"{}\",signature=\"{}\",timestamp=\"1699999999\",serial_no=\"MCHSERIAL01\"",
        nonce, signature
    );
    assert_eq!(header, expected);
}

#[test]
fn request_authorization_draws_a_fresh_nonce() {
    let client = fresh_client();
    let h1 = client.request_authorization("GET", "/v3/certificates", "", 1700000000).unwrap();
    let h2 = client.request_authorization("GET", "/v3/certificates", "", 1700000000).unwrap();
    // The scheme and merchant fields agree; the nonces almost surely differ.
    let prefix = "WECHATPAY2-SHA256-RSA2048 mchid=\"1900000001\",nonce_str=\"";
    assert!(h1.starts_with(prefix));
    assert!(h2.starts_with(prefix));
    assert_ne!(h1, h2);
    // The nonce is 32 alphanumeric characters.
    let nonce1: String = h1[prefix.len()..].chars().take_while(|c| *c != '"').collect();
    assert_eq!(nonce1.len(), 32);
    assert!(nonce1.chars().all(|c| c.is_ascii_alphanumeric()));
}

#[test]
fn signing_with_bad_key_is_a_crypto_error() {
    let client = Client {
        merchant_id: "m".to_string(),
        private_key_pem: "not a key".to_string(),
        merchant_serial_number: "s".to_string(),
        api_key: API_KEY.as_bytes().to_vec(),
        public_keys: Vec::new(),
    };
    let r = client.sha256_with_rsa(b"bytes");
    assert!(matches!(r, Err(WeChatPayError::CryptoError(_))));
}

#[test]
fn oaep_encrypt_needs_a_parsable_public_key() {
    let r = Client::rsa_encrypt_oaep("name", "not a key");
    assert!(matches!(r, Err(WeChatPayError::CryptoError(_))));
}

#[test]
fn oaep_ciphertext_decrypts_to_the_message() {
    let mut rng = rand::thread_rng();
    let key = RsaPrivateKey::new(&mut rng, 512).unwrap();
    let public_pem = rsa::pkcs8::EncodePublicKey::to_public_key_pem(
        &key.to_public_key(),
        LineEnding::LF,
    )
    .unwrap();
    let encrypted = Client::rsa_encrypt_oaep("name", &public_pem).unwrap();
    let ciphertext = general_purpose::STANDARD.decode(&encrypted).unwrap();
    let decrypted = key.decrypt(rsa::Oaep::new::<sha1::Sha1>(), &ciphertext).unwrap();
    assert_eq!(decrypted, b"name");
}

#[test]
fn oaep_rejects_a_message_beyond_the_key_capacity() {
    // A 512-bit key leaves 64 - 2*20 - 2 = 22 bytes of OAEP capacity.
    let mut rng = rand::thread_rng();
    let key = RsaPrivateKey::new(&mut rng, 512).unwrap();
    let public_pem = rsa::pkcs8::EncodePublicKey::to_public_key_pem(
        &key.to_public_key(),
        LineEnding::LF,
    )
    .unwrap();
    assert!(Client::rsa_encrypt_oaep("0123456789012345678901", &public_pem).is_ok());
    let r = Client::rsa_encrypt_oaep("01234567890123456789012", &public_pem);
    assert!(matches!(r, Err(WeChatPayError::CryptoError(_))));
}

#[test]
fn public_key_pem_is_the_key_pair_public_half() {
    let mut rng = rand::thread_rng();
    let key = RsaPrivateKey::new(&mut rng, 512).unwrap();
    let private_pem = key.to_pkcs8_pem(LineEnding::LF).unwrap().to_string();
    let expected = rsa::pkcs8::EncodePublicKey::to_public_key_pem(
        &key.to_public_key(),
        LineEnding::LF,
    )
    .unwrap();
    let client = Client::new("m", &private_pem, "serial", API_KEY, Vec::new()).unwrap();
    assert_eq!(client.public_key_pem().unwrap(), expected);
}

#[test]
fn path_with_query_joins_exactly() {
    assert_eq!(
        build_path_with_query("/v3/pay/transactions/h5", Some("mchid=1900000001&limit=5")),
        "/v3/pay/transactions/h5?mchid=1900000001&limit=5"
    );
    assert_eq!(build_path_with_query("/v3/certificates", None), "/v3/certificates");
}

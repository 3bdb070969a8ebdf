use base64::engine::general_purpose;
use base64::Engine;
use rsa::pkcs8::{EncodePrivateKey, LineEnding};
use rsa::RsaPrivateKey;
use wechat_pay::sdk::cert::EncryptCertificate;
use wechat_pay::sdk::media::sha256_hex;
use wechat_pay::webhook::{Resource, WeChatWebhook};
use wechat_pay::{Client, WeChatPayError};

const API_KEY: &str = "0123456789abcdef0123456789abcdef";
const NONCE: &[u8] = b"0123456789ab";

fn fresh_client() -> Client {
    let mut rng = rand::thread_rng();
    let key = RsaPrivateKey::new(&mut rng, 512).unwrap();
    let private_pem = key.to_pkcs8_pem(LineEnding::LF).unwrap().to_string();
    Client::new("m", &private_pem, "serial", API_KEY, Vec::new()).unwrap()
}

#[test]
fn aead_round_trip_with_aad() {
    let client = fresh_client();
    let plaintext = b"an envelope payload";
    let aad = b"transaction";
    let ct = client.aead_aes_256_gcm_encrypt(NONCE, plaintext, Some(aad)).unwrap();
    let pt = client.aead_aes_256_gcm_decrypt(NONCE, &ct, Some(aad)).unwrap();
    assert_eq!(pt, plaintext);
}

#[test]
fn aead_round_trip_without_aad() {
    let client = fresh_client();
    let plaintext = b"plain resource";
    let ct = client.aead_aes_256_gcm_encrypt(NONCE, plaintext, None).unwrap();
    let pt = client.aead_aes_256_gcm_decrypt(NONCE, &ct, None).unwrap();
    assert_eq!(pt, plaintext);
}

#[test]
fn absent_aad_equals_empty_aad() {
    let client = fresh_client();
    let ct = client.aead_aes_256_gcm_encrypt(NONCE, b"payload", None).unwrap();
    let pt = client.aead_aes_256_gcm_decrypt(NONCE, &ct, Some(b"")).unwrap();
    assert_eq!(pt, b"payload");
}

#[test]
fn flipping_any_ciphertext_bit_fails_authentication() {
    let client = fresh_client();
    let plaintext = b"tamper with me";
    let ct = client.aead_aes_256_gcm_encrypt(NONCE, plaintext, Some(b"ad")).unwrap();
    for byte in 0..ct.len() {
        for bit in 0..8 {
            let mut tampered = ct.clone();
            tampered[byte] ^= 1 << bit;
            let r = client.aead_aes_256_gcm_decrypt(NONCE, &tampered, Some(b"ad"));
            assert!(matches!(r, Err(WeChatPayError::CryptoError(_))));
        }
    }
}

#[test]
fn wrong_nonce_or_aad_fails_authentication() {
    let client = fresh_client();
    let ct = client.aead_aes_256_gcm_encrypt(NONCE, b"payload", Some(b"ad")).unwrap();
    let r = client.aead_aes_256_gcm_decrypt(b"0123456789ac", &ct, Some(b"ad"));
    assert!(matches!(r, Err(WeChatPayError::CryptoError(_))));
    let r = client.aead_aes_256_gcm_decrypt(NONCE, &ct, Some(b"ae"));
    assert!(matches!(r, Err(WeChatPayError::CryptoError(_))));
    let r = client.aead_aes_256_gcm_decrypt(NONCE, &ct, None);
    assert!(matches!(r, Err(WeChatPayError::CryptoError(_))));
}

fn webhook_with(resource: Resource) -> WeChatWebhook {
    WeChatWebhook {
        id: "EV-2018022511223320873".to_string(),
        create_time: "2015-05-20T13:29:35+08:00".to_string(),
        event_type: "TRANSACTION.SUCCESS".to_string(),
        resource_type: "encrypt-resource".to_string(),
        resource,
        summary: "payment succeeded".to_string(),
    }
}

#[test]
fn webhook_parse_recovers_the_plaintext() {
    let client = fresh_client();
    let plaintext = b"{\"mchid\":\"m\"}";
    let ct = client
        .aead_aes_256_gcm_encrypt(NONCE, plaintext, Some(b"transaction"))
        .unwrap();
    let webhook = webhook_with(Resource {
        algorithm: "AEAD_AES_256_GCM".to_string(),
        ciphertext: general_purpose::STANDARD.encode(&ct),
        associated_data: Some("transaction".to_string()),
        original_type: "transaction".to_string(),
        nonce: String::from_utf8(NONCE.to_vec()).unwrap(),
    });
    let pt = webhook.parse(&client).unwrap();
    assert_eq!(pt, plaintext);
}

#[test]
fn webhook_parse_rejects_unsupported_algorithm() {
    let client = fresh_client();
    let webhook = webhook_with(Resource {
        algorithm: "AEAD_CHACHA20_POLY1305".to_string(),
        ciphertext: String::new(),
        associated_data: None,
        original_type: "transaction".to_string(),
        nonce: String::from_utf8(NONCE.to_vec()).unwrap(),
    });
    let r = webhook.parse(&client);
    assert!(matches!(r, Err(WeChatPayError::CryptoError(_))));
}

#[test]
fn webhook_parse_rejects_bad_base64() {
    let client = fresh_client();
    let webhook = webhook_with(Resource {
        algorithm: "AEAD_AES_256_GCM".to_string(),
        ciphertext: "!!!".to_string(),
        associated_data: None,
        original_type: "transaction".to_string(),
        nonce: String::from_utf8(NONCE.to_vec()).unwrap(),
    });
    let r = webhook.parse(&client);
    assert!(matches!(r, Err(WeChatPayError::Unknown(_))));
}

#[test]
fn webhook_parse_rejects_short_nonce() {
    let client = fresh_client();
    let webhook = webhook_with(Resource {
        algorithm: "AEAD_AES_256_GCM".to_string(),
        ciphertext: general_purpose::STANDARD.encode(b"whatever"),
        associated_data: None,
        original_type: "transaction".to_string(),
        nonce: "short".to_string(),
    });
    let r = webhook.parse(&client);
    assert!(matches!(r, Err(WeChatPayError::CryptoError(_))));
}

#[test]
fn certificate_material_decrypts() {
    let client = fresh_client();
    let pem = b"-----BEGIN CERTIFICATE-----";
    let ct = client
        .aead_aes_256_gcm_encrypt(NONCE, pem, Some(b"certificate"))
        .unwrap();
    let sealed = EncryptCertificate {
        algorithm: "AEAD_AES_256_GCM".to_string(),
        nonce: String::from_utf8(NONCE.to_vec()).unwrap(),
        associated_data: "certificate".to_string(),
        ciphertext: general_purpose::STANDARD.encode(&ct),
    };
    assert_eq!(sealed.decrypt(&client).unwrap(), pem);
}

#[test]
fn sha256_hex_matches_the_known_digest_of_empty_input() {
    assert_eq!(
        sha256_hex(b""),
        "e3b0c44298fc1c149afbf4c8996fb92427ae41e4649b934ca495991b7852b855"
    );
    assert_eq!(
        sha256_hex(b"abc"),
        "ba7816bf8f01cfea414140de5dae2223b00361a396177a9cb410ff61f20015ad"
    );
}

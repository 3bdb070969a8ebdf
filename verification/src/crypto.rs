//! The cryptographic face of the library: names for what the outside
//! primitives return, the trusted wrappers that call them, and the verified
//! construction of canonical messages, signatures and authorization headers.

use crate::client::{has_serial, pem_for_serial, Client, PlatformPubKeyInner};
use crate::error::{ResponseHeader, VerificationFailure, WeChatPayError};
use crate::text::{all_digits, dec_chars, dec_val, u64_to_string};
use aes_gcm::aead::{Aead, KeyInit, Nonce, Payload};
use aes_gcm::Aes256Gcm;
use base64::engine::general_purpose;
use base64::Engine;
use rand::distributions::Alphanumeric;
use rand::{thread_rng, Rng};
use rsa::pkcs8::{DecodePrivateKey, DecodePublicKey, EncodePublicKey};
use rsa::sha2::{Digest, Sha256};
use rsa::{Oaep, Pkcs1v15Sign, RsaPrivateKey, RsaPublicKey};
use sha1::Sha1;
use vstd::prelude::*;

verus! {

/// The SHA-256 digest of a byte sequence.
pub uninterp spec fn sha256_of(data: Seq<u8>) -> Seq<u8>;

/// The RSASSA-PKCS1-v1_5 signature over a SHA-256 digest, under the private
/// key that the given PKCS#8 PEM text encodes. The scheme draws no
/// randomness, so the signature is a function of key and digest alone.
pub uninterp spec fn rsa_pkcs1_sha256_sig(key_pem: Seq<char>, digest: Seq<u8>) -> Seq<u8>;

/// Whether a PKCS#8 PEM text parses as an RSA private key.
pub uninterp spec fn rsa_private_key_parses(pem: Seq<char>) -> bool;

/// Whether PKCS#1 v1.5 signing of a 32-byte digest succeeds under the key
/// this PEM text encodes. Parsing and the key's size decide, never the
/// digest, so success is a predicate of the PEM text alone.
pub uninterp spec fn rsa_pkcs1_sha256_signs(key_pem: Seq<char>) -> bool;

/// The SPKI PEM text of the public half of the key a PKCS#8 PEM encodes.
pub uninterp spec fn rsa_public_pem_of(priv_pem: Seq<char>) -> Seq<char>;

/// Whether deriving and encoding that public half succeeds: a predicate of
/// the private PEM text alone.
pub uninterp spec fn rsa_public_pem_derives(priv_pem: Seq<char>) -> bool;

/// Whether RSA-OAEP over SHA-1 can encrypt a message of the given byte
/// length under the key this PEM text encodes: the key's capacity decides,
/// never the message bytes.
pub uninterp spec fn rsa_oaep_sha1_encrypts(pub_pem: Seq<char>, msg_len: nat) -> bool;

/// Whether an SPKI PEM text parses as an RSA public key.
pub uninterp spec fn rsa_public_key_parses(pem: Seq<char>) -> bool;

/// Whether a signature verifies, under RSASSA-PKCS1-v1_5 with SHA-256,
/// against the digest and the public key the PEM text encodes.
pub uninterp spec fn rsa_pkcs1_sha256_verifies(
    pub_pem: Seq<char>,
    digest: Seq<u8>,
    sig: Seq<u8>,
) -> bool;

/// The standard base64 encoding of a byte sequence.
pub uninterp spec fn base64_chars(data: Seq<u8>) -> Seq<char>;

/// What standard base64 decoding yields: `None` on malformed input.
pub uninterp spec fn base64_bytes(s: Seq<char>) -> Option<Seq<u8>>;

/// The AEAD_AES_256_GCM ciphertext (tag appended) for one key, nonce,
/// associated data and plaintext. Encryption under a fixed nonce draws no
/// randomness, so the ciphertext is a function of these four alone.
pub uninterp spec fn aes_256_gcm_cipher(
    key: Seq<u8>,
    nonce: Seq<u8>,
    aad: Seq<u8>,
    plaintext: Seq<u8>,
) -> Seq<u8>;

/// What AEAD_AES_256_GCM decryption yields: `None` when the tag does not
/// authenticate the ciphertext under this key, nonce and associated data.
pub uninterp spec fn aes_256_gcm_plain(
    key: Seq<u8>,
    nonce: Seq<u8>,
    aad: Seq<u8>,
    ciphertext: Seq<u8>,
) -> Option<Seq<u8>>;

/// Absent associated data is the same as empty associated data.
pub open spec fn opt_bytes_view(aad: Option<&[u8]>) -> Seq<u8> {
    match aad {
        Some(a) => a@,
        None => Seq::<u8>::empty(),
    }
}

/// Relies on sha2's `Sha256` (re-exported by the rsa crate): the 32-byte
/// digest is a function of the input alone.
#[verifier::external_body]
pub(crate) fn sha256(data: &[u8]) -> (r: Vec<u8>)
    ensures
        r@ == sha256_of(data@),
        r@.len() == 32,
{
    let mut hasher: Sha256 = Digest::new();
    hasher.update(data);
    hasher.finalize().to_vec()
}

/// Relies on `RsaPrivateKey::from_pkcs8_pem` and `RsaPrivateKey::sign` with
/// `Pkcs1v15Sign` over SHA-256: parsing is a predicate of the PEM text; the
/// signature, drawn without randomness, is a function of key and digest;
/// and with a 32-byte digest, signing fails only on an unparsable PEM or a
/// key too small for the padded digest, so success is a predicate of the
/// PEM text alone.
#[verifier::external_body]
pub(crate) fn rsa_sign_sha256_digest(key_pem: &str, digest: &[u8]) -> (r: Option<Vec<u8>>)
    requires
        digest@.len() == 32,
    ensures
        r matches Some(s) ==> s@ == rsa_pkcs1_sha256_sig(key_pem@, digest@),
        r is Some <==> rsa_pkcs1_sha256_signs(key_pem@),
        r is Some ==> rsa_private_key_parses(key_pem@),
        !rsa_private_key_parses(key_pem@) ==> r is None,
{
    match RsaPrivateKey::from_pkcs8_pem(key_pem) {
        Ok(key) => key.sign(Pkcs1v15Sign::new::<Sha256>(), digest).ok(),
        Err(_) => None,
    }
}

/// Relies on `RsaPrivateKey::from_pkcs8_pem`, `RsaPrivateKey::to_public_key`
/// and `EncodePublicKey::to_public_key_pem`: the public half is a function
/// of the private PEM, it parses back, and PKCS#1 v1.5 verification under
/// it accepts exactly what signing under the private half produces.
#[verifier::external_body]
pub(crate) fn rsa_derive_public_pem(priv_pem: &str) -> (r: Option<String>)
    ensures
        r matches Some(p) ==> p@ == rsa_public_pem_of(priv_pem@),
        r matches Some(p) ==> rsa_public_key_parses(p@),
        r matches Some(p) ==> forall|d: Seq<u8>|
            (d.len() == 32 && rsa_pkcs1_sha256_signs(priv_pem@))
                ==> rsa_pkcs1_sha256_verifies(p@, d, rsa_pkcs1_sha256_sig(priv_pem@, d)),
        r is Some <==> rsa_public_pem_derives(priv_pem@),
        r is Some ==> rsa_private_key_parses(priv_pem@),
        !rsa_private_key_parses(priv_pem@) ==> r is None,
{
    match RsaPrivateKey::from_pkcs8_pem(priv_pem) {
        Ok(key) => key.to_public_key().to_public_key_pem(rsa::pkcs8::LineEnding::LF).ok(),
        Err(_) => None,
    }
}

/// Relies on `RsaPrivateKey::from_pkcs8_pem`: whether PKCS#8 PEM text
/// parses is a predicate of the text alone.
#[verifier::external_body]
pub(crate) fn rsa_private_key_is_valid(pem: &str) -> (r: bool)
    ensures
        r == rsa_private_key_parses(pem@),
{
    RsaPrivateKey::from_pkcs8_pem(pem).is_ok()
}

/// Relies on `RsaPublicKey::from_public_key_pem`: whether SPKI PEM text
/// parses is a predicate of the text alone.
#[verifier::external_body]
pub(crate) fn rsa_public_key_is_valid(pem: &str) -> (r: bool)
    ensures
        r == rsa_public_key_parses(pem@),
{
    RsaPublicKey::from_public_key_pem(pem).is_ok()
}

/// Relies on `RsaPublicKey::from_public_key_pem` and `RsaPublicKey::verify`
/// with `Pkcs1v15Sign` over SHA-256: both are deterministic in the PEM
/// text, the digest and the signature bytes.
#[verifier::external_body]
pub(crate) fn rsa_verify_sha256_digest(pub_pem: &str, digest: &[u8], sig: &[u8]) -> (r: bool)
    ensures
        r == (rsa_public_key_parses(pub_pem@) && rsa_pkcs1_sha256_verifies(pub_pem@, digest@, sig@)),
{
    match RsaPublicKey::from_public_key_pem(pub_pem) {
        Ok(key) => key.verify(Pkcs1v15Sign::new::<Sha256>(), digest, sig).is_ok(),
        Err(_) => false,
    }
}

/// Relies on `RsaPublicKey::encrypt` with OAEP over SHA-1: the ciphertext
/// is randomized, so nothing is stated of its bytes; success depends only
/// on the key parsing and the message length fitting its OAEP capacity.
#[verifier::external_body]
pub(crate) fn rsa_oaep_sha1_encrypt(pub_pem: &str, message: &[u8]) -> (r: Option<Vec<u8>>)
    ensures
        r is Some <==> (rsa_public_key_parses(pub_pem@) && rsa_oaep_sha1_encrypts(
            pub_pem@,
            message@.len(),
        )),
        !rsa_public_key_parses(pub_pem@) ==> r is None,
{
    match RsaPublicKey::from_public_key_pem(pub_pem) {
        Ok(key) => {
            let mut rng = thread_rng();
            key.encrypt(&mut rng, Oaep::new::<Sha1>(), message).ok()
        },
        Err(_) => None,
    }
}

/// Relies on base64's standard engine `encode`: the encoding is a function
/// of the input, and `decode` inverts it.
#[verifier::external_body]
pub(crate) fn base64_encode(data: &[u8]) -> (r: String)
    ensures
        r@ == base64_chars(data@),
        base64_bytes(r@) == Some(data@),
{
    general_purpose::STANDARD.encode(data)
}

/// Relies on base64's standard engine `decode`: success and the decoded
/// bytes are a function of the input text.
#[verifier::external_body]
pub(crate) fn base64_decode(s: &str) -> (r: Option<Vec<u8>>)
    ensures
        r matches Some(v) ==> base64_bytes(s@) == Some(v@),
        r is None ==> base64_bytes(s@) is None,
{
    general_purpose::STANDARD.decode(s).ok()
}

/// The character for one hexadecimal digit, lower case.
pub open spec fn hex_digit(d: int) -> char {
    if d < 10 {
        crate::text::digit_char(d)
    } else if d == 10 {
        'a'
    } else if d == 11 {
        'b'
    } else if d == 12 {
        'c'
    } else if d == 13 {
        'd'
    } else if d == 14 {
        'e'
    } else {
        'f'
    }
}

/// The lower-case hex encoding of a byte sequence, two digits per byte.
pub open spec fn hex_chars(data: Seq<u8>) -> Seq<char>
    decreases data.len(),
{
    if data.len() == 0 {
        Seq::<char>::empty()
    } else {
        seq![
            hex_digit(data.first() as int / 16),
            hex_digit(data.first() as int % 16),
        ] + hex_chars(data.drop_first())
    }
}

/// Relies on `hex::encode`: two lower-case digits per byte, in order.
#[verifier::external_body]
pub(crate) fn hex_encode(data: &[u8]) -> (r: String)
    ensures
        r@ == hex_chars(data@),
{
    hex::encode(data)
}

/// An alphanumeric ASCII character.
pub open spec fn is_alnum_char(c: char) -> bool {
    (48 <= c as u32 && c as u32 <= 57) || (65 <= c as u32 && c as u32 <= 90) || (97 <= c as u32
        && c as u32 <= 122)
}

/// Relies on `rand::thread_rng` and the `Alphanumeric` distribution: each
/// draw is an alphanumeric ASCII character. The result is random, so only
/// its length and alphabet are stated.
#[verifier::external_body]
pub(crate) fn random_alphanumeric_nonce() -> (r: String)
    ensures
        r@.len() == 32,
        forall|i: int| 0 <= i < r@.len() ==> is_alnum_char(#[trigger] r@[i]),
{
    thread_rng().sample_iter(Alphanumeric).take(32).map(char::from).collect::<String>()
}

/// Relies on `Aes256Gcm::new_from_slice` and `Aead::encrypt`: with a fixed
/// nonce the ciphertext is a function of key, nonce, associated data and
/// plaintext, carries the tag appended, and decrypts back to the plaintext.
/// Absent associated data encrypts as empty associated data. Encryption
/// fails exactly when plaintext or associated data exceed the GCM length
/// bound of 2^36 bytes.
#[verifier::external_body]
pub(crate) fn aes_256_gcm_seal(
    key: &[u8],
    nonce: &[u8],
    plaintext: &[u8],
    aad: Option<&[u8]>,
) -> (r: Option<Vec<u8>>)
    requires
        key@.len() == 32,
        nonce@.len() == 12,
    ensures
        r matches Some(c) ==> c@ == aes_256_gcm_cipher(key@, nonce@, opt_bytes_view(aad), plaintext@),
        r matches Some(c) ==> aes_256_gcm_plain(key@, nonce@, opt_bytes_view(aad), c@) == Some(
            plaintext@,
        ),
        r is Some <==> (plaintext@.len() <= 0x10_0000_0000 && opt_bytes_view(aad).len()
            <= 0x10_0000_0000),
{
    let cipher = match Aes256Gcm::new_from_slice(key) {
        Ok(c) => c,
        Err(_) => return None,
    };
    let nonce = Nonce::<Aes256Gcm>::from_slice(nonce);
    match aad {
        Some(aad) => cipher.encrypt(nonce, Payload { msg: plaintext, aad }).ok(),
        None => cipher.encrypt(nonce, plaintext).ok(),
    }
}

/// Relies on `Aes256Gcm::new_from_slice` and `Aead::decrypt`: decryption is
/// deterministic, succeeds exactly when the tag authenticates, recovers the
/// plaintext of a genuine encryption, and a successful result always
/// re-encrypts to the very ciphertext that was opened.
#[verifier::external_body]
pub(crate) fn aes_256_gcm_open(
    key: &[u8],
    nonce: &[u8],
    ciphertext: &[u8],
    aad: Option<&[u8]>,
) -> (r: Option<Vec<u8>>)
    requires
        key@.len() == 32,
        nonce@.len() == 12,
    ensures
        r matches Some(p) ==> aes_256_gcm_plain(key@, nonce@, opt_bytes_view(aad), ciphertext@)
            == Some(p@),
        r is None ==> aes_256_gcm_plain(key@, nonce@, opt_bytes_view(aad), ciphertext@) is None,
        r matches Some(p) ==> ciphertext@ == aes_256_gcm_cipher(
            key@,
            nonce@,
            opt_bytes_view(aad),
            p@,
        ),
        r is None ==> forall|pt: Seq<u8>|
            ciphertext@ != aes_256_gcm_cipher(key@, nonce@, opt_bytes_view(aad), pt),
        r matches Some(p) ==> forall|pt: Seq<u8>|
            ciphertext@ == aes_256_gcm_cipher(key@, nonce@, opt_bytes_view(aad), pt) ==> p@ == pt,
{
    let cipher = match Aes256Gcm::new_from_slice(key) {
        Ok(c) => c,
        Err(_) => return None,
    };
    let nonce = Nonce::<Aes256Gcm>::from_slice(nonce);
    match aad {
        Some(aad) => cipher.decrypt(nonce, Payload { msg: ciphertext, aad }).ok(),
        None => cipher.decrypt(nonce, ciphertext).ok(),
    }
}

/// The canonical signing string of an outbound request:
/// `METHOD\nPATH\nTIMESTAMP\nNONCE\nBODY\n`.
pub open spec fn canonical_request_chars(
    method: Seq<char>,
    path: Seq<char>,
    timestamp: nat,
    nonce: Seq<char>,
    body: Seq<char>,
) -> Seq<char> {
    method + "\n"@ + path + "\n"@ + dec_chars(timestamp) + "\n"@ + nonce + "\n"@ + body + "\n"@
}

/// The canonical message an inbound response is verified against:
/// `TIMESTAMP\nNONCE\nBODY\n`, with the timestamp as the header spelled it.
pub open spec fn verify_message_chars(
    timestamp: Seq<char>,
    nonce: Seq<char>,
    body: Seq<char>,
) -> Seq<char> {
    timestamp + "\n"@ + nonce + "\n"@ + body + "\n"@
}

/// Builds the canonical signing string.
pub fn build_canonical_request(
    method: &str,
    path: &str,
    timestamp: u64,
    nonce: &str,
    body: &str,
) -> (r: String)
    ensures
        r@ == canonical_request_chars(method@, path@, timestamp as nat, nonce@, body@),
{
    let mut s = String::from_str(method);
    s.append("\n");
    s.append(path);
    s.append("\n");
    let ts = u64_to_string(timestamp);
    s.append(ts.as_str());
    s.append("\n");
    s.append(nonce);
    s.append("\n");
    s.append(body);
    s.append("\n");
    proof {
        assert(s@ =~= canonical_request_chars(method@, path@, timestamp as nat, nonce@, body@));
    }
    s
}

/// Builds the canonical verification message.
pub fn build_verify_message(timestamp: &str, nonce: &str, body: &str) -> (r: String)
    ensures
        r@ == verify_message_chars(timestamp@, nonce@, body@),
{
    let mut s = String::from_str(timestamp);
    s.append("\n");
    s.append(nonce);
    s.append("\n");
    s.append(body);
    s.append("\n");
    proof {
        assert(s@ =~= verify_message_chars(timestamp@, nonce@, body@));
    }
    s
}

/// The path with its encoded query joined by `?`: the exact canonical
/// path that is signed and sent on the wire.
pub open spec fn path_with_query_chars(path: Seq<char>, query: Option<Seq<char>>) -> Seq<char> {
    match query {
        None => path,
        Some(q) => path + "?"@ + q,
    }
}

/// Joins a path and an already-encoded query string.
pub fn build_path_with_query(path: &str, query: Option<&str>) -> (r: String)
    ensures
        r@ == path_with_query_chars(path@, opt_view(query)),
{
    match query {
        None => String::from_str(path),
        Some(q) => {
            let mut s = String::from_str(path);
            s.append("?");
            s.append(q);
            proof {
                assert(s@ =~= path_with_query_chars(path@, opt_view(query)));
            }
            s
        },
    }
}

/// The value of the `Authorization` header: the fixed scheme name, then the
/// quoted merchant id, nonce, base64 signature, timestamp and serial.
pub open spec fn authorization_chars(
    mchid: Seq<char>,
    nonce: Seq<char>,
    signature: Seq<char>,
    timestamp: nat,
    serial_no: Seq<char>,
) -> Seq<char> {
    "WECHATPAY2-SHA256-RSA2048 mchid=\""@ + mchid + "\",nonce_str=\""@ + nonce + "\",signature=\""@
        + signature + "\",timestamp=\""@ + dec_chars(timestamp) + "\",serial_no=\""@ + serial_no
        + "\""@
}

/// Builds the `Authorization` header value.
pub fn build_authorization(
    mchid: &str,
    nonce: &str,
    signature: &str,
    timestamp: u64,
    serial_no: &str,
) -> (r: String)
    ensures
        r@ == authorization_chars(mchid@, nonce@, signature@, timestamp as nat, serial_no@),
{
    let mut s = String::from_str("WECHATPAY2-SHA256-RSA2048 mchid=\"");
    s.append(mchid);
    s.append("\",nonce_str=\"");
    s.append(nonce);
    s.append("\",signature=\"");
    s.append(signature);
    s.append("\",timestamp=\"");
    let ts = u64_to_string(timestamp);
    s.append(ts.as_str());
    s.append("\",serial_no=\"");
    s.append(serial_no);
    s.append("\"");
    proof {
        assert(s@ =~= authorization_chars(
            mchid@,
            nonce@,
            signature@,
            timestamp as nat,
            serial_no@,
        ));
    }
    s
}

/// The signature bytes of one outbound request: the PKCS#1 v1.5 signature,
/// under the merchant's key, of the SHA-256 digest of the UTF-8 bytes of
/// the canonical signing string.
pub open spec fn request_signature(
    key_pem: Seq<char>,
    method: Seq<char>,
    path: Seq<char>,
    timestamp: nat,
    nonce: Seq<char>,
    body: Seq<char>,
) -> Seq<u8> {
    rsa_pkcs1_sha256_sig(
        key_pem,
        sha256_of(
            vstd::utf8::encode_utf8(canonical_request_chars(method, path, timestamp, nonce, body)),
        ),
    )
}

/// Signing is deterministic: any two authorization headers built from the
/// same key, method, path, body, timestamp and nonce are identical, because
/// the signature is a function of those inputs alone.
pub proof fn lemma_signing_deterministic(
    h1: Seq<char>,
    h2: Seq<char>,
    mchid: Seq<char>,
    serial_no: Seq<char>,
    key_pem: Seq<char>,
    method: Seq<char>,
    path: Seq<char>,
    timestamp: nat,
    nonce: Seq<char>,
    body: Seq<char>,
)
    requires
        h1 == authorization_chars(
            mchid,
            nonce,
            base64_chars(request_signature(key_pem, method, path, timestamp, nonce, body)),
            timestamp,
            serial_no,
        ),
        h2 == authorization_chars(
            mchid,
            nonce,
            base64_chars(request_signature(key_pem, method, path, timestamp, nonce, body)),
            timestamp,
            serial_no,
        ),
    ensures
        h1 == h2,
{
}

/// A timestamp string parses when it is a non-empty run of decimal digits
/// whose value fits the timestamp type.
pub open spec fn ts_parses(ts: Seq<char>) -> bool {
    ts.len() > 0 && all_digits(ts) && dec_val(ts) <= u64::MAX as nat
}

/// A timestamp is fresh at `now` when it parses and lies within the
/// replay window of 300 seconds, on either side.
pub open spec fn fresh_at(ts: Seq<char>, now: u64) -> bool {
    &&& ts_parses(ts)
    &&& (if now as nat >= dec_val(ts) {
        now as nat - dec_val(ts)
    } else {
        dec_val(ts) - now as nat
    }) <= 300
}

/// The view of an optional header value.
pub open spec fn opt_view(o: Option<&str>) -> Option<Seq<char>> {
    match o {
        Some(s) => Some(s@),
        None => None,
    }
}

/// The first reason, in checking order, for which a response fails
/// verification; `None` when every check passes.
pub open spec fn verify_reason(
    store: Seq<PlatformPubKeyInner>,
    timestamp: Option<Seq<char>>,
    nonce: Option<Seq<char>>,
    serial_no: Option<Seq<char>>,
    signature: Option<Seq<char>>,
    body: Seq<char>,
    now: u64,
) -> Option<VerificationFailure> {
    match timestamp {
        None => Some(VerificationFailure::MissingHeader(ResponseHeader::Timestamp)),
        Some(ts) => if !ts_parses(ts) {
            Some(VerificationFailure::InvalidTimestamp)
        } else if !fresh_at(ts, now) {
            Some(VerificationFailure::TimestampExpired)
        } else {
            match serial_no {
                None => Some(VerificationFailure::MissingHeader(ResponseHeader::Serial)),
                Some(serial) => match signature {
                    None => Some(VerificationFailure::MissingHeader(ResponseHeader::Signature)),
                    Some(sig) => match nonce {
                        None => Some(VerificationFailure::MissingHeader(ResponseHeader::Nonce)),
                        Some(nc) => if !has_serial(store, serial) {
                            Some(VerificationFailure::UnknownSerial)
                        } else {
                            match base64_bytes(sig) {
                                None => Some(VerificationFailure::MalformedSignature),
                                Some(sig_bytes) => {
                                    let pem = pem_for_serial(store, serial);
                                    let digest = sha256_of(
                                        vstd::utf8::encode_utf8(verify_message_chars(ts, nc, body)),
                                    );
                                    if rsa_public_key_parses(pem) && rsa_pkcs1_sha256_verifies(
                                        pem,
                                        digest,
                                        sig_bytes,
                                    ) {
                                        None
                                    } else {
                                        Some(VerificationFailure::BadSignature)
                                    }
                                },
                            }
                        },
                    },
                },
            }
        },
    }
}

/// Freshness rejection: a response whose timestamp lies more than the
/// replay window away from now is rejected, whatever its signature.
pub proof fn lemma_freshness_rejection(
    store: Seq<PlatformPubKeyInner>,
    ts: Seq<char>,
    nonce: Seq<char>,
    serial_no: Seq<char>,
    signature: Seq<char>,
    body: Seq<char>,
    now: u64,
)
    requires
        ts_parses(ts),
        !fresh_at(ts, now),
    ensures
        verify_reason(store, Some(ts), Some(nonce), Some(serial_no), Some(signature), body, now)
            == Some(VerificationFailure::TimestampExpired),
{
}

/// Untrusted serial rejection: a response naming a serial with no match in
/// the store fails with the unknown-serial reason, whatever its signature.
pub proof fn lemma_untrusted_serial_rejection(
    store: Seq<PlatformPubKeyInner>,
    ts: Seq<char>,
    nonce: Seq<char>,
    serial_no: Seq<char>,
    signature: Seq<char>,
    body: Seq<char>,
    now: u64,
)
    requires
        fresh_at(ts, now),
        !has_serial(store, serial_no),
    ensures
        verify_reason(store, Some(ts), Some(nonce), Some(serial_no), Some(signature), body, now)
            == Some(VerificationFailure::UnknownSerial),
{
}

/// The policy on which calls are verified: every response but the
/// certificate-bootstrap endpoint's own is checked against the store,
/// since at bootstrap no certificate yet exists to check against.
pub fn requires_verification(path: &str) -> (r: bool)
    ensures
        r == (path@ != "/v3/certificates"@),
{
    !crate::text::str_eq(path, "/v3/certificates")
}

impl Client {
    /// Base64 of the PKCS#1 v1.5 SHA-256 signature of `content` under the
    /// merchant's private key. Succeeds exactly when the key can sign, a
    /// predicate of the key material alone; decoding the result recovers
    /// the signature bytes.
    pub fn sha256_with_rsa(&self, content: &[u8]) -> (r: Result<String, WeChatPayError>)
        ensures
            r matches Ok(s) ==> s@ == base64_chars(
                rsa_pkcs1_sha256_sig(self.private_key_pem@, sha256_of(content@)),
            ),
            r matches Ok(s) ==> base64_bytes(s@) == Some(
                rsa_pkcs1_sha256_sig(self.private_key_pem@, sha256_of(content@)),
            ),
            r is Ok <==> rsa_pkcs1_sha256_signs(self.private_key_pem@),
            r is Ok ==> rsa_private_key_parses(self.private_key_pem@),
            !rsa_private_key_parses(self.private_key_pem@) ==> r is Err,
            r matches Err(e) ==> e matches WeChatPayError::CryptoError(_),
    {
        let digest = sha256(content);
        match rsa_sign_sha256_digest(self.private_key_pem.as_str(), digest.as_slice()) {
            Some(sig) => Ok(base64_encode(sig.as_slice())),
            None => Err(WeChatPayError::CryptoError(String::from_str("RSA signing failed"))),
        }
    }

    /// The authorization header for one request, with timestamp and nonce
    /// supplied by the caller: a function of its arguments alone, owed
    /// whenever the merchant's key can sign.
    pub fn request_authorization_with(
        &self,
        method: &str,
        path: &str,
        content: &str,
        timestamp: u64,
        nonce: &str,
    ) -> (r: Result<String, WeChatPayError>)
        ensures
            r is Ok <==> rsa_pkcs1_sha256_signs(self.private_key_pem@),
            r matches Ok(h) ==> h@ == authorization_chars(
                self.merchant_id@,
                nonce@,
                base64_chars(
                    request_signature(
                        self.private_key_pem@,
                        method@,
                        path@,
                        timestamp as nat,
                        nonce@,
                        content@,
                    ),
                ),
                timestamp as nat,
                self.merchant_serial_number@,
            ),
            r is Ok ==> rsa_private_key_parses(self.private_key_pem@),
            !rsa_private_key_parses(self.private_key_pem@) ==> r is Err,
            r matches Err(e) ==> e matches WeChatPayError::CryptoError(_),
    {
        let canonical = build_canonical_request(method, path, timestamp, nonce, content);
        match self.sha256_with_rsa(canonical.as_str().as_bytes()) {
            Ok(sig) => Ok(
                build_authorization(
                    self.merchant_id.as_str(),
                    nonce,
                    sig.as_str(),
                    timestamp,
                    self.merchant_serial_number.as_str(),
                ),
            ),
            Err(e) => Err(e),
        }
    }

    /// The authorization header for one request at time `now`, under a
    /// fresh random 32-character alphanumeric nonce; owed whenever the
    /// merchant's key can sign.
    pub fn request_authorization(&self, method: &str, path: &str, content: &str, now: u64) -> (r:
        Result<String, WeChatPayError>)
        ensures
            r is Ok <==> rsa_pkcs1_sha256_signs(self.private_key_pem@),
            r matches Ok(h) ==> exists|nonce: Seq<char>|
                {
                    &&& nonce.len() == 32
                    &&& (forall|i: int| 0 <= i < nonce.len() ==> is_alnum_char(#[trigger] nonce[i]))
                    &&& h@ == authorization_chars(
                        self.merchant_id@,
                        nonce,
                        base64_chars(
                            request_signature(
                                self.private_key_pem@,
                                method@,
                                path@,
                                now as nat,
                                nonce,
                                content@,
                            ),
                        ),
                        now as nat,
                        self.merchant_serial_number@,
                    )
                },
            r is Ok ==> rsa_private_key_parses(self.private_key_pem@),
            !rsa_private_key_parses(self.private_key_pem@) ==> r is Err,
            r matches Err(e) ==> e matches WeChatPayError::CryptoError(_),
    {
        let nonce = random_alphanumeric_nonce();
        match self.request_authorization_with(method, path, content, now, nonce.as_str()) {
            Ok(h) => {
                proof {
                    assert(exists|n: Seq<char>|
                        {
                            &&& n.len() == 32
                            &&& (forall|i: int| 0 <= i < n.len() ==> is_alnum_char(#[trigger] n[i]))
                            &&& h@ == authorization_chars(
                                self.merchant_id@,
                                n,
                                base64_chars(
                                    request_signature(
                                        self.private_key_pem@,
                                        method@,
                                        path@,
                                        now as nat,
                                        n,
                                        content@,
                                    ),
                                ),
                                now as nat,
                                self.merchant_serial_number@,
                            )
                        }) by {
                        assert(nonce@.len() == 32 && (forall|i: int|
                            0 <= i < nonce@.len() ==> is_alnum_char(#[trigger] nonce@[i])));
                    }
                }
                Ok(h)
            },
            Err(e) => Err(e),
        }
    }

    /// Rejects a timestamp header that does not parse, and one that parses
    /// but lies outside the replay window around `now`.
    pub fn verify_timestamp(timestamp: &str, now: u64) -> (r: Result<(), WeChatPayError>)
        ensures
            r is Ok <==> fresh_at(timestamp@, now),
            !ts_parses(timestamp@) ==> r == Err::<(), WeChatPayError>(
                WeChatPayError::VerifySignatureFail(VerificationFailure::InvalidTimestamp),
            ),
            ts_parses(timestamp@) && !fresh_at(timestamp@, now) ==> r == Err::<(), WeChatPayError>(
                WeChatPayError::VerifySignatureFail(VerificationFailure::TimestampExpired),
            ),
    {
        match crate::text::parse_dec_u64(timestamp) {
            None => Err(WeChatPayError::VerifySignatureFail(VerificationFailure::InvalidTimestamp)),
            Some(ts) => {
                let diff = if now >= ts {
                    now - ts
                } else {
                    ts - now
                };
                if diff > 300 {
                    Err(
                        WeChatPayError::VerifySignatureFail(VerificationFailure::TimestampExpired),
                    )
                } else {
                    Ok(())
                }
            },
        }
    }

    /// Verifies one inbound response against the trust store at time
    /// `now`: all four headers present, the timestamp fresh, the serial
    /// known, the signature well-formed base64 and cryptographically valid
    /// over `TIMESTAMP\nNONCE\nBODY\n`. The error names the first check
    /// that failed; on any failure the body must not be trusted.
    pub fn verify_signatrue(
        &self,
        timestamp: Option<&str>,
        nonce: Option<&str>,
        serial_no: Option<&str>,
        signature: Option<&str>,
        body: &str,
        now: u64,
    ) -> (r: Result<(), WeChatPayError>)
        ensures
            r is Ok <==> verify_reason(
                self.public_keys@,
                opt_view(timestamp),
                opt_view(nonce),
                opt_view(serial_no),
                opt_view(signature),
                body@,
                now,
            ) is None,
            verify_reason(
                self.public_keys@,
                opt_view(timestamp),
                opt_view(nonce),
                opt_view(serial_no),
                opt_view(signature),
                body@,
                now,
            ) matches Some(f) ==> r == Err::<(), WeChatPayError>(
                WeChatPayError::VerifySignatureFail(f),
            ),
    {
        let ts = match timestamp {
            Some(t) => t,
            None => {
                return Err(
                    WeChatPayError::VerifySignatureFail(
                        VerificationFailure::MissingHeader(ResponseHeader::Timestamp),
                    ),
                );
            },
        };
        match Self::verify_timestamp(ts, now) {
            Ok(()) => (),
            Err(e) => {
                return Err(e);
            },
        }
        let serial = match serial_no {
            Some(s) => s,
            None => {
                return Err(
                    WeChatPayError::VerifySignatureFail(
                        VerificationFailure::MissingHeader(ResponseHeader::Serial),
                    ),
                );
            },
        };
        let sig = match signature {
            Some(s) => s,
            None => {
                return Err(
                    WeChatPayError::VerifySignatureFail(
                        VerificationFailure::MissingHeader(ResponseHeader::Signature),
                    ),
                );
            },
        };
        let nc = match nonce {
            Some(n) => n,
            None => {
                return Err(
                    WeChatPayError::VerifySignatureFail(
                        VerificationFailure::MissingHeader(ResponseHeader::Nonce),
                    ),
                );
            },
        };
        let key = match self.get_public_key(serial) {
            Some(k) => k,
            None => {
                return Err(
                    WeChatPayError::VerifySignatureFail(VerificationFailure::UnknownSerial),
                );
            },
        };
        let sig_bytes = match base64_decode(sig) {
            Some(v) => v,
            None => {
                return Err(
                    WeChatPayError::VerifySignatureFail(VerificationFailure::MalformedSignature),
                );
            },
        };
        let message = build_verify_message(ts, nc, body);
        let digest = sha256(message.as_str().as_bytes());
        if rsa_verify_sha256_digest(key.key.as_str(), digest.as_slice(), sig_bytes.as_slice()) {
            Ok(())
        } else {
            Err(WeChatPayError::VerifySignatureFail(VerificationFailure::BadSignature))
        }
    }

    /// Encrypts one payload under the APIv3 key with AEAD_AES_256_GCM; the
    /// tag is appended to the ciphertext. Absent associated data encrypts
    /// as empty associated data. Succeeds exactly when plaintext and
    /// associated data are within the GCM length bound of 2^36 bytes.
    pub fn aead_aes_256_gcm_encrypt(
        &self,
        nonce: &[u8],
        plaintext: &[u8],
        associated_data: Option<&[u8]>,
    ) -> (r: Result<Vec<u8>, WeChatPayError>)
        requires
            self.api_key@.len() == 32,
            nonce@.len() == 12,
        ensures
            r is Ok <==> (plaintext@.len() <= 0x10_0000_0000 && opt_bytes_view(
                associated_data,
            ).len() <= 0x10_0000_0000),
            r matches Ok(c) ==> c@ == aes_256_gcm_cipher(
                self.api_key@,
                nonce@,
                opt_bytes_view(associated_data),
                plaintext@,
            ),
            r matches Ok(c) ==> aes_256_gcm_plain(
                self.api_key@,
                nonce@,
                opt_bytes_view(associated_data),
                c@,
            ) == Some(plaintext@),
            r matches Err(e) ==> e matches WeChatPayError::CryptoError(_),
    {
        match aes_256_gcm_seal(self.api_key.as_slice(), nonce, plaintext, associated_data) {
            Some(c) => Ok(c),
            None => Err(WeChatPayError::CryptoError(String::from_str("AEAD_AES_256_GCM error"))),
        }
    }

    /// Decrypts one envelope under the APIv3 key. Succeeds exactly when
    /// the tag authenticates; a success is the plaintext whose encryption,
    /// under this key, nonce and associated data, is byte-identical to the
    /// input, so a tampered envelope can never yield the original
    /// plaintext, and decrypting what `aead_aes_256_gcm_encrypt` produced
    /// returns exactly what was encrypted.
    pub fn aead_aes_256_gcm_decrypt(
        &self,
        nonce: &[u8],
        ciphertext: &[u8],
        associated_data: Option<&[u8]>,
    ) -> (r: Result<Vec<u8>, WeChatPayError>)
        requires
            self.api_key@.len() == 32,
            nonce@.len() == 12,
        ensures
            r matches Ok(p) ==> aes_256_gcm_plain(
                self.api_key@,
                nonce@,
                opt_bytes_view(associated_data),
                ciphertext@,
            ) == Some(p@),
            r is Err ==> aes_256_gcm_plain(
                self.api_key@,
                nonce@,
                opt_bytes_view(associated_data),
                ciphertext@,
            ) is None,
            r matches Ok(p) ==> ciphertext@ == aes_256_gcm_cipher(
                self.api_key@,
                nonce@,
                opt_bytes_view(associated_data),
                p@,
            ),
            r is Err ==> forall|pt: Seq<u8>|
                ciphertext@ != aes_256_gcm_cipher(
                    self.api_key@,
                    nonce@,
                    opt_bytes_view(associated_data),
                    pt,
                ),
            r matches Ok(p) ==> forall|pt: Seq<u8>|
                ciphertext@ == aes_256_gcm_cipher(
                    self.api_key@,
                    nonce@,
                    opt_bytes_view(associated_data),
                    pt,
                ) ==> p@ == pt,
            r matches Err(e) ==> e matches WeChatPayError::CryptoError(_),
    {
        match aes_256_gcm_open(self.api_key.as_slice(), nonce, ciphertext, associated_data) {
            Some(p) => Ok(p),
            None => Err(WeChatPayError::CryptoError(String::from_str("AEAD_AES_256_GCM error"))),
        }
    }

    /// Encrypts a short message to the platform under RSA-OAEP with SHA-1
    /// and returns it base64-encoded. The padding is randomized, so
    /// nothing is stated of the ciphertext bytes; success is owed exactly
    /// when the key parses and the message fits its OAEP capacity.
    pub fn rsa_encrypt_oaep(message: &str, public_key_pem: &str) -> (r: Result<
        String,
        WeChatPayError,
    >)
        ensures
            r is Ok <==> (rsa_public_key_parses(public_key_pem@) && rsa_oaep_sha1_encrypts(
                public_key_pem@,
                vstd::utf8::encode_utf8(message@).len(),
            )),
            r matches Ok(s) ==> exists|ct: Seq<u8>| s@ == base64_chars(ct),
            !rsa_public_key_parses(public_key_pem@) ==> r is Err,
            r matches Err(e) ==> e matches WeChatPayError::CryptoError(_),
    {
        match rsa_oaep_sha1_encrypt(public_key_pem, message.as_bytes()) {
            Some(ct) => {
                let encoded = base64_encode(ct.as_slice());
                proof {
                    assert(exists|c: Seq<u8>| encoded@ == base64_chars(c)) by {
                        assert(encoded@ == base64_chars(ct@));
                    }
                }
                Ok(encoded)
            },
            None => Err(WeChatPayError::CryptoError(String::from_str("RSA-OAEP encrypt failed"))),
        }
    }

    /// The SPKI PEM of the public half of the merchant's signing key.
    /// Whatever this client signs over a 32-byte digest, verification
    /// under the returned key accepts: the signing and verifying
    /// primitives agree across the key pair.
    pub fn public_key_pem(&self) -> (r: Result<String, WeChatPayError>)
        ensures
            r is Ok <==> rsa_public_pem_derives(self.private_key_pem@),
            r matches Ok(p) ==> p@ == rsa_public_pem_of(self.private_key_pem@),
            r matches Ok(p) ==> rsa_public_key_parses(p@),
            r matches Ok(p) ==> forall|d: Seq<u8>|
                (d.len() == 32 && rsa_pkcs1_sha256_signs(self.private_key_pem@))
                    ==> rsa_pkcs1_sha256_verifies(
                    p@,
                    d,
                    rsa_pkcs1_sha256_sig(self.private_key_pem@, d),
                ),
            r matches Err(e) ==> e matches WeChatPayError::CryptoError(_),
    {
        match rsa_derive_public_pem(self.private_key_pem.as_str()) {
            Some(p) => Ok(p),
            None => Err(
                WeChatPayError::CryptoError(String::from_str("public key derivation failed")),
            ),
        }
    }
}

} // verus!

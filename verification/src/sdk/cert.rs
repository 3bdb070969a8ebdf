//! The certificate-download endpoint: the shapes it returns and the
//! verified decryption of the certificate material inside them.

use crate::client::Client;
use crate::crypto::{aes_256_gcm_plain, base64_bytes, base64_decode};
use crate::error::WeChatPayError;
use crate::text::str_eq;
use vstd::prelude::*;

verus! {

/// The encrypted certificate material inside one record.
#[derive(Debug)]
pub struct EncryptCertificate {
    /// The cipher that sealed the material; only AEAD_AES_256_GCM is
    /// supported.
    pub algorithm: String,
    /// The 12-byte nonce the material was sealed under.
    pub nonce: String,
    /// The associated data.
    pub associated_data: String,
    /// The base64-encoded ciphertext, tag appended.
    pub ciphertext: String,
}

/// One certificate record as fetched.
#[derive(Debug)]
pub struct CertificateData {
    /// The serial number of this certificate.
    pub serial_no: String,
    /// When the certificate takes effect, as RFC 3339 text.
    pub effective_time: String,
    /// When the certificate expires, as RFC 3339 text.
    pub expire_time: String,
    /// The sealed certificate material.
    pub encrypt_certificate: EncryptCertificate,
}

/// The response of the certificate-download endpoint.
#[derive(Debug)]
pub struct GetCertificatesResponse {
    /// The currently usable certificates.
    pub data: Vec<CertificateData>,
}

/// What decrypting one certificate record under `key` yields: `None` when
/// the algorithm is unsupported, the nonce is not 12 bytes, the ciphertext
/// is not base64, or the tag does not authenticate.
pub open spec fn certificate_plaintext(c: EncryptCertificate, key: Seq<u8>) -> Option<Seq<u8>> {
    if c.algorithm@ != "AEAD_AES_256_GCM"@ {
        None
    } else if vstd::utf8::encode_utf8(c.nonce@).len() != 12 {
        None
    } else {
        match base64_bytes(c.ciphertext@) {
            None => None,
            Some(ct) => aes_256_gcm_plain(
                key,
                vstd::utf8::encode_utf8(c.nonce@),
                vstd::utf8::encode_utf8(c.associated_data@),
                ct,
            ),
        }
    }
}

impl EncryptCertificate {
    /// Decrypts the sealed certificate material under the client's APIv3
    /// key; the plaintext is the certificate as PEM text bytes.
    pub fn decrypt(&self, cli: &Client) -> (r: Result<Vec<u8>, WeChatPayError>)
        requires
            cli.api_key@.len() == 32,
        ensures
            r matches Ok(p) ==> certificate_plaintext(*self, cli.api_key@) == Some(p@),
            r is Ok <==> certificate_plaintext(*self, cli.api_key@) is Some,
            self.algorithm@ != "AEAD_AES_256_GCM"@ ==> r matches Err(
                WeChatPayError::CryptoError(_),
            ),
            (self.algorithm@ == "AEAD_AES_256_GCM"@ && vstd::utf8::encode_utf8(self.nonce@).len()
                != 12) ==> r matches Err(WeChatPayError::CryptoError(_)),
            (self.algorithm@ == "AEAD_AES_256_GCM"@ && vstd::utf8::encode_utf8(self.nonce@).len()
                == 12 && base64_bytes(self.ciphertext@) is None) ==> r matches Err(
                WeChatPayError::Unknown(_),
            ),
            base64_bytes(self.ciphertext@) matches Some(ct) ==> ((self.algorithm@
                == "AEAD_AES_256_GCM"@ && vstd::utf8::encode_utf8(self.nonce@).len() == 12
                && aes_256_gcm_plain(
                cli.api_key@,
                vstd::utf8::encode_utf8(self.nonce@),
                vstd::utf8::encode_utf8(self.associated_data@),
                ct,
            ) is None) ==> r matches Err(WeChatPayError::CryptoError(_))),
    {
        if !str_eq(self.algorithm.as_str(), "AEAD_AES_256_GCM") {
            return Err(
                WeChatPayError::CryptoError(String::from_str("unsupported envelope algorithm")),
            );
        }
        let nonce_bytes = self.nonce.as_str().as_bytes();
        if nonce_bytes.len() != 12 {
            return Err(
                WeChatPayError::CryptoError(String::from_str("envelope nonce must be 12 bytes")),
            );
        }
        let ct = match base64_decode(self.ciphertext.as_str()) {
            Some(v) => v,
            None => {
                return Err(WeChatPayError::Unknown(String::from_str("Base64 Decode Error")));
            },
        };
        cli.aead_aes_256_gcm_decrypt(
            nonce_bytes,
            ct.as_slice(),
            Some(self.associated_data.as_str().as_bytes()),
        )
    }
}

} // verus!

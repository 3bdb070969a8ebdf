//! Webhook notifications: the envelope the platform posts to the merchant
//! and the verified decryption of its encrypted resource.

pub mod transaction;

use crate::client::Client;
use crate::crypto::{
    aes_256_gcm_plain, base64_bytes, base64_decode, opt_bytes_view,
};
use crate::error::WeChatPayError;
use crate::text::str_eq;
use vstd::prelude::*;

verus! {

/// The encrypted resource inside a webhook notification.
#[derive(Debug)]
pub struct Resource {
    /// The cipher that sealed the resource; only AEAD_AES_256_GCM is
    /// supported.
    pub algorithm: String,
    /// The base64-encoded ciphertext, tag appended.
    pub ciphertext: String,
    /// Associated data, possibly absent; absent reads as empty.
    pub associated_data: Option<String>,
    /// What the plaintext describes, e.g. `transaction`.
    pub original_type: String,
    /// The 12-byte nonce the resource was sealed under.
    pub nonce: String,
}

/// One webhook notification as the platform posts it.
#[derive(Debug)]
pub struct WeChatWebhook {
    /// The unique id of this notification.
    pub id: String,
    /// When the notification was created, as RFC 3339 text.
    pub create_time: String,
    /// The kind of event, e.g. `TRANSACTION.SUCCESS`.
    pub event_type: String,
    /// The kind of resource, e.g. `encrypt-resource`.
    pub resource_type: String,
    /// The encrypted payload.
    pub resource: Resource,
    /// A human-readable summary.
    pub summary: String,
}

/// The associated-data bytes of an envelope; absent is empty.
pub open spec fn resource_aad(r: Resource) -> Seq<u8> {
    match r.associated_data {
        Some(a) => vstd::utf8::encode_utf8(a@),
        None => Seq::<u8>::empty(),
    }
}

/// What decrypting an envelope under `key` yields: `None` when the
/// algorithm is unsupported, the nonce is not 12 bytes, the ciphertext is
/// not base64, or the tag does not authenticate.
pub open spec fn envelope_plaintext(r: Resource, key: Seq<u8>) -> Option<Seq<u8>> {
    if r.algorithm@ != "AEAD_AES_256_GCM"@ {
        None
    } else if vstd::utf8::encode_utf8(r.nonce@).len() != 12 {
        None
    } else {
        match base64_bytes(r.ciphertext@) {
            None => None,
            Some(ct) => aes_256_gcm_plain(
                key,
                vstd::utf8::encode_utf8(r.nonce@),
                resource_aad(r),
                ct,
            ),
        }
    }
}

impl WeChatWebhook {
    /// Decrypts the notification's resource under the client's APIv3 key
    /// and returns the plaintext bytes; deserializing them into a typed
    /// message is the caller's concern.
    pub fn parse(&self, cli: &Client) -> (r: Result<Vec<u8>, WeChatPayError>)
        requires
            cli.api_key@.len() == 32,
        ensures
            r matches Ok(p) ==> envelope_plaintext(self.resource, cli.api_key@) == Some(p@),
            r is Ok <==> envelope_plaintext(self.resource, cli.api_key@) is Some,
            self.resource.algorithm@ != "AEAD_AES_256_GCM"@ ==> r matches Err(
                WeChatPayError::CryptoError(_),
            ),
            (self.resource.algorithm@ == "AEAD_AES_256_GCM"@ && vstd::utf8::encode_utf8(
                self.resource.nonce@,
            ).len() != 12) ==> r matches Err(WeChatPayError::CryptoError(_)),
            (self.resource.algorithm@ == "AEAD_AES_256_GCM"@ && vstd::utf8::encode_utf8(
                self.resource.nonce@,
            ).len() == 12 && base64_bytes(self.resource.ciphertext@) is None) ==> r matches Err(
                WeChatPayError::Unknown(_),
            ),
            base64_bytes(self.resource.ciphertext@) matches Some(ct) ==> ((
            self.resource.algorithm@ == "AEAD_AES_256_GCM"@ && vstd::utf8::encode_utf8(
                self.resource.nonce@,
            ).len() == 12 && aes_256_gcm_plain(
                cli.api_key@,
                vstd::utf8::encode_utf8(self.resource.nonce@),
                resource_aad(self.resource),
                ct,
            ) is None) ==> r matches Err(WeChatPayError::CryptoError(_))),
    {
        if !str_eq(self.resource.algorithm.as_str(), "AEAD_AES_256_GCM") {
            return Err(
                WeChatPayError::CryptoError(String::from_str("unsupported envelope algorithm")),
            );
        }
        let nonce_bytes = self.resource.nonce.as_str().as_bytes();
        if nonce_bytes.len() != 12 {
            return Err(
                WeChatPayError::CryptoError(String::from_str("envelope nonce must be 12 bytes")),
            );
        }
        let ct = match base64_decode(self.resource.ciphertext.as_str()) {
            Some(v) => v,
            None => {
                return Err(WeChatPayError::Unknown(String::from_str("Base64 Decode Error")));
            },
        };
        let aad: Option<&[u8]> = match &self.resource.associated_data {
            Some(a) => Some(a.as_str().as_bytes()),
            None => None,
        };
        proof {
            assert(opt_bytes_view(aad) == resource_aad(self.resource));
        }
        cli.aead_aes_256_gcm_decrypt(nonce_bytes, ct.as_slice(), aad)
    }
}

} // verus!

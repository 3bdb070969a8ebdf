//! The client's credentials and the platform-certificate trust store:
//! construction, exact lookup by serial, selection of the latest valid key,
//! and non-destructive wholesale replacement.

use crate::crypto::{rsa_private_key_is_valid, rsa_public_key_is_valid, rsa_public_key_parses};
use crate::error::WeChatPayError;
use crate::text::str_eq;
use vstd::prelude::*;
use vstd::string::StringSliceAdditionalSpecFns;

verus! {

/// One version of the platform's signing certificate, as fetched: the
/// public key still as PEM text, unchecked.
#[derive(Debug)]
pub struct PlatformPubKey {
    pub serial_no: String,
    pub expire_time: u64,
    pub effective_time: u64,
    pub key: String,
}

/// A trust-store entry: the same fields, admitted only once the PEM text
/// has parsed as an RSA public key.
#[derive(Debug)]
pub struct PlatformPubKeyInner {
    pub serial_no: String,
    pub expire_time: u64,
    pub effective_time: u64,
    pub key: String,
}

/// The store entry a fetched certificate becomes, fields carried over.
pub open spec fn inner_of(k: PlatformPubKey) -> PlatformPubKeyInner {
    PlatformPubKeyInner {
        serial_no: k.serial_no,
        expire_time: k.expire_time,
        effective_time: k.effective_time,
        key: k.key,
    }
}

/// Whether some store entry carries this serial number.
pub open spec fn has_serial(store: Seq<PlatformPubKeyInner>, serial: Seq<char>) -> bool {
    exists|i: int| 0 <= i < store.len() && #[trigger] store[i].serial_no@ == serial
}

/// What `kept` grows into as the rest of a fetched set is admitted: an
/// entry joins when its public key parses and its serial number is not
/// already present.
pub open spec fn admit_rest(
    keys: Seq<PlatformPubKey>,
    kept: Seq<PlatformPubKeyInner>,
) -> Seq<PlatformPubKeyInner>
    decreases keys.len(),
{
    if keys.len() == 0 {
        kept
    } else if rsa_public_key_parses(keys.first().key@) && !has_serial(
        kept,
        keys.first().serial_no@,
    ) {
        admit_rest(keys.drop_first(), kept.push(inner_of(keys.first())))
    } else {
        admit_rest(keys.drop_first(), kept)
    }
}

/// The entries of a fetched set that are admitted into the store, in
/// order: those whose public key parses, the first of each serial number.
pub open spec fn admitted_keys(keys: Seq<PlatformPubKey>) -> Seq<PlatformPubKeyInner> {
    admit_rest(keys, Seq::<PlatformPubKeyInner>::empty())
}

/// The store invariant: no two entries carry one serial number.
pub open spec fn unique_serials(store: Seq<PlatformPubKeyInner>) -> bool {
    forall|i: int, j: int|
        0 <= i < j < store.len() ==> #[trigger] store[i].serial_no@ != #[trigger] store[j].serial_no@
}

proof fn lemma_admit_rest_unique(keys: Seq<PlatformPubKey>, kept: Seq<PlatformPubKeyInner>)
    requires
        unique_serials(kept),
    ensures
        unique_serials(admit_rest(keys, kept)),
    decreases keys.len(),
{
    if keys.len() > 0 {
        let head = keys.first();
        if rsa_public_key_parses(head.key@) && !has_serial(kept, head.serial_no@) {
            let grown = kept.push(inner_of(head));
            assert(unique_serials(grown)) by {
                assert forall|i: int, j: int| 0 <= i < j < grown.len() implies #[trigger] grown[i].serial_no@
                    != #[trigger] grown[j].serial_no@ by {
                    if j == kept.len() as int {
                        assert(grown[i] == kept[i]);
                        assert(grown[j].serial_no@ == head.serial_no@);
                    }
                }
            }
            lemma_admit_rest_unique(keys.drop_first(), grown);
        } else {
            lemma_admit_rest_unique(keys.drop_first(), kept);
        }
    }
}

/// A replacement never installs two entries with one serial number: of
/// duplicate serials in a fetched set, the first usable entry is kept.
pub proof fn lemma_admitted_keys_unique(keys: Seq<PlatformPubKey>)
    ensures
        unique_serials(admitted_keys(keys)),
{
    lemma_admit_rest_unique(keys, Seq::<PlatformPubKeyInner>::empty());
}

/// The PEM text of the first store entry carrying this serial number.
pub open spec fn pem_for_serial(store: Seq<PlatformPubKeyInner>, serial: Seq<char>) -> Seq<char>
    decreases store.len(),
{
    if store.len() == 0 {
        Seq::<char>::empty()
    } else if store.first().serial_no@ == serial {
        store.first().key@
    } else {
        pem_for_serial(store.drop_first(), serial)
    }
}

/// A key is trusted at time `t` strictly inside its validity window.
pub open spec fn key_valid_at(k: PlatformPubKeyInner, now: u64) -> bool {
    k.effective_time < now && k.expire_time > now
}

/// The merchant's immutable credentials and the mutable trust store.
#[derive(Debug)]
pub struct Client {
    /// The merchant id quoted in the authorization header.
    pub merchant_id: String,
    /// The merchant's private signing key, as PKCS#8 PEM text.
    pub private_key_pem: String,
    /// The serial of the merchant's own certificate.
    pub merchant_serial_number: String,
    /// The 32-byte APIv3 symmetric key.
    pub api_key: Vec<u8>,
    /// The trusted platform certificates, keyed by serial number.
    pub public_keys: Vec<PlatformPubKeyInner>,
}

proof fn lemma_pem_for_serial_at(store: Seq<PlatformPubKeyInner>, serial: Seq<char>, i: int)
    requires
        0 <= i < store.len(),
        store[i].serial_no@ == serial,
        forall|j: int| 0 <= j < i ==> #[trigger] store[j].serial_no@ != serial,
    ensures
        pem_for_serial(store, serial) == store[i].key@,
    decreases i,
{
    if i == 0 {
    } else {
        assert(store[0].serial_no@ != serial);
        let rest = store.drop_first();
        assert(rest[i - 1] == store[i]);
        assert forall|j: int| 0 <= j < i - 1 implies #[trigger] rest[j].serial_no@ != serial by {
            assert(rest[j] == store[j + 1]);
        }
        lemma_pem_for_serial_at(rest, serial, i - 1);
    }
}

/// Whether some entry of `entries` carries this serial number.
fn contains_serial(entries: &Vec<PlatformPubKeyInner>, serial_no: &str) -> (r: bool)
    ensures
        r == has_serial(entries@, serial_no@),
{
    let n = entries.len();
    let mut i: usize = 0;
    while i < n
        invariant
            0 <= i <= n,
            n == entries@.len(),
            forall|j: int| 0 <= j < i ==> #[trigger] entries@[j].serial_no@ != serial_no@,
        decreases n - i,
    {
        if str_eq(entries[i].serial_no.as_str(), serial_no) {
            return true;
        }
        i += 1;
    }
    false
}

impl PlatformPubKeyInner {
    /// Admits a fetched certificate into the trust store exactly when its
    /// public key material parses; otherwise it is rejected.
    pub fn try_from(value: PlatformPubKey) -> (r: Result<PlatformPubKeyInner, WeChatPayError>)
        ensures
            r is Ok <==> rsa_public_key_parses(value.key@),
            r matches Ok(k) ==> k == inner_of(value),
            r matches Err(e) ==> e matches WeChatPayError::Unknown(_),
    {
        if rsa_public_key_is_valid(value.key.as_str()) {
            Ok(
                PlatformPubKeyInner {
                    serial_no: value.serial_no,
                    expire_time: value.expire_time,
                    effective_time: value.effective_time,
                    key: value.key,
                },
            )
        } else {
            Err(WeChatPayError::Unknown(String::from_str("public key parse error")))
        }
    }
}

impl Client {
    /// Builds a client from its credentials: the private key as PKCS#8 PEM
    /// text, the 32-byte APIv3 key, and the initial platform certificates,
    /// of which exactly those whose key material parses are admitted.
    pub fn new(
        merchant_id: &str,
        private_key_pem: &str,
        merchant_serial_number: &str,
        api_key: &str,
        platform_pub_keys: Vec<PlatformPubKey>,
    ) -> (r: Result<Client, WeChatPayError>)
        ensures
            r is Ok <==> (crate::crypto::rsa_private_key_parses(private_key_pem@)
                && api_key.spec_bytes().len() == 32),
            r matches Ok(c) ==> c.merchant_id@ == merchant_id@ && c.private_key_pem@
                == private_key_pem@ && c.merchant_serial_number@ == merchant_serial_number@
                && c.api_key@ == api_key.spec_bytes() && c.public_keys@ == admitted_keys(
                platform_pub_keys@,
            ),
            r matches Ok(c) ==> unique_serials(c.public_keys@),
            r matches Err(e) ==> e matches WeChatPayError::CryptoError(_),
    {
        let api_key_bytes = api_key.as_bytes_vec();
        if api_key_bytes.len() != 32 {
            return Err(
                WeChatPayError::CryptoError(String::from_str("APIv3 key must be 32 bytes")),
            );
        }
        if !rsa_private_key_is_valid(private_key_pem) {
            return Err(
                WeChatPayError::CryptoError(String::from_str("private key parse error")),
            );
        }
        let mut client = Client {
            merchant_id: String::from_str(merchant_id),
            private_key_pem: String::from_str(private_key_pem),
            merchant_serial_number: String::from_str(merchant_serial_number),
            api_key: api_key_bytes,
            public_keys: Vec::new(),
        };
        client.update_public_keys(platform_pub_keys);
        proof {
            if admitted_keys(platform_pub_keys@).len() == 0 {
                assert(client.public_keys@ =~= admitted_keys(platform_pub_keys@));
            }
            lemma_admitted_keys_unique(platform_pub_keys@);
        }
        Ok(client)
    }

    /// Exact lookup by serial number: the first entry carrying it, if any.
    pub fn get_public_key(&self, serial_no: &str) -> (r: Option<&PlatformPubKeyInner>)
        ensures
            r is Some <==> has_serial(self.public_keys@, serial_no@),
            r matches Some(k) ==> exists|i: int|
                {
                    &&& 0 <= i < self.public_keys@.len()
                    &&& *k == self.public_keys@[i]
                    &&& #[trigger] self.public_keys@[i].serial_no@ == serial_no@
                    &&& forall|j: int|
                        0 <= j < i ==> #[trigger] self.public_keys@[j].serial_no@ != serial_no@
                },
            r matches Some(k) ==> k.key@ == pem_for_serial(self.public_keys@, serial_no@),
    {
        let n = self.public_keys.len();
        let mut i: usize = 0;
        while i < n
            invariant
                0 <= i <= n,
                n == self.public_keys@.len(),
                forall|j: int| 0 <= j < i ==> #[trigger] self.public_keys@[j].serial_no@
                    != serial_no@,
            decreases n - i,
        {
            if str_eq(self.public_keys[i].serial_no.as_str(), serial_no) {
                proof {
                    lemma_pem_for_serial_at(self.public_keys@, serial_no@, i as int);
                }
                return Some(&self.public_keys[i]);
            }
            i += 1;
        }
        None
    }

    /// Replaces the trust store wholesale with the fetched set, filtered to
    /// the entries whose key material parses and, per serial number, to the
    /// first such entry, so serial numbers stay unique within the store. A
    /// set that yields no usable entry leaves the prior store untouched, so
    /// a transient fetch failure can never wipe the trust anchor.
    pub fn update_public_keys(&mut self, platform_pub_keys: Vec<PlatformPubKey>)
        ensures
            admitted_keys(platform_pub_keys@).len() > 0 ==> final (self).public_keys@
                == admitted_keys(platform_pub_keys@),
            admitted_keys(platform_pub_keys@).len() > 0 ==> unique_serials(
                final (self).public_keys@,
            ),
            admitted_keys(platform_pub_keys@).len() == 0 ==> final (self).public_keys@ == old(
                self,
            ).public_keys@,
            final (self).merchant_id == old(self).merchant_id,
            final (self).private_key_pem == old(self).private_key_pem,
            final (self).merchant_serial_number == old(self).merchant_serial_number,
            final (self).api_key == old(self).api_key,
    {
        let mut incoming = platform_pub_keys;
        let mut parsed: Vec<PlatformPubKeyInner> = Vec::new();
        while incoming.len() > 0
            invariant
                admit_rest(incoming@, parsed@) == admitted_keys(platform_pub_keys@),
            decreases incoming.len(),
        {
            let ghost before_in = incoming@;
            let ghost before_kept = parsed@;
            let head = incoming.remove(0);
            proof {
                assert(before_in.first() == head);
                assert(before_in.drop_first() =~= incoming@);
            }
            if !contains_serial(&parsed, head.serial_no.as_str()) {
                match PlatformPubKeyInner::try_from(head) {
                    Ok(inner) => {
                        parsed.push(inner);
                        proof {
                            assert(parsed@ =~= before_kept.push(inner_of(before_in.first())));
                        }
                    },
                    Err(_) => {},
                }
            }
        }
        proof {
            assert(parsed@ =~= admitted_keys(platform_pub_keys@));
            lemma_admitted_keys_unique(platform_pub_keys@);
        }
        if parsed.len() > 0 {
            self.public_keys = parsed;
        }
    }

    /// Among the keys valid at `now`, the one with the greatest effective
    /// time; with equal effective times the entry seen last wins. `None`
    /// exactly when no key is valid at `now`. Used to pick the best current
    /// certificate, never to verify a specific response.
    pub fn get_latest_public_key(&self, now: u64) -> (r: Option<&PlatformPubKeyInner>)
        ensures
            r is Some <==> exists|i: int|
                0 <= i < self.public_keys@.len() && key_valid_at(#[trigger] self.public_keys@[i], now),
            r matches Some(k) ==> exists|i: int|
                {
                    &&& 0 <= i < self.public_keys@.len()
                    &&& *k == self.public_keys@[i]
                    &&& key_valid_at(#[trigger] self.public_keys@[i], now)
                    &&& forall|j: int|
                        0 <= j < self.public_keys@.len() && key_valid_at(
                            #[trigger] self.public_keys@[j],
                            now,
                        ) ==> self.public_keys@[j].effective_time
                            <= self.public_keys@[i].effective_time
                    &&& forall|j: int|
                        i < j < self.public_keys@.len() && key_valid_at(
                            #[trigger] self.public_keys@[j],
                            now,
                        ) ==> self.public_keys@[j].effective_time
                            < self.public_keys@[i].effective_time
                },
    {
        let n = self.public_keys.len();
        let mut best: Option<usize> = None;
        let mut i: usize = 0;
        while i < n
            invariant
                0 <= i <= n,
                n == self.public_keys@.len(),
                best is None ==> forall|j: int|
                    0 <= j < i ==> !key_valid_at(#[trigger] self.public_keys@[j], now),
                best matches Some(b) ==> {
                    &&& 0 <= b < i
                    &&& key_valid_at(self.public_keys@[b as int], now)
                    &&& forall|j: int|
                        0 <= j < i && key_valid_at(#[trigger] self.public_keys@[j], now)
                            ==> self.public_keys@[j].effective_time
                            <= self.public_keys@[b as int].effective_time
                    &&& forall|j: int|
                        b < j < i && key_valid_at(#[trigger] self.public_keys@[j], now)
                            ==> self.public_keys@[j].effective_time
                            < self.public_keys@[b as int].effective_time
                },
            decreases n - i,
        {
            let k = &self.public_keys[i];
            if k.effective_time < now && k.expire_time > now {
                match best {
                    Some(b) => {
                        if k.effective_time >= self.public_keys[b].effective_time {
                            best = Some(i);
                        }
                    },
                    None => {
                        best = Some(i);
                    },
                }
            }
            i += 1;
        }
        match best {
            Some(b) => Some(&self.public_keys[b]),
            None => None,
        }
    }
}

} // verus!

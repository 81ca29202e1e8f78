//! The operator's key, and the signed, salted, time-bounded attestation
//! that proves control of it.
use vstd::prelude::*;
use crate::config::{expiry_after, expiry_spec, EXPIRY_WINDOW_SECS};
use crate::error::{ConfigField, RegistrationError};
use crate::hex::{decode_hex_array, hex_text_bytes};
use crate::topology::ChainAddress;

verus! {

/// The chain address that controls the secp256k1 key `key`.
pub uninterp spec fn address_of_key(key: Seq<u8>) -> Seq<u8>;

/// The 65-byte recoverable ECDSA signature (`r`, `s`, `v`) of the 32-byte
/// prehash `digest` under `key`, with its deterministic (RFC 6979) nonce;
/// `None` where that nonce yields a zero `r` or `s` and signing fails.
pub uninterp spec fn signature_of(key: Seq<u8>, digest: Seq<u8>) -> Option<Seq<u8>>;

/// Big-endian value of a byte string.
pub open spec fn be_value(bytes: Seq<u8>) -> nat
    decreases bytes.len(),
{
    if bytes.len() == 0 {
        0
    } else {
        be_value(bytes.drop_last()) * 256 + bytes.last() as nat
    }
}

/// Order of the secp256k1 group.
pub open spec fn secp256k1_order() -> nat {
    let high: nat = 0xFFFFFFFFFFFFFFFFFFFFFFFFFFFFFFFE;
    let low: nat = 0xBAAEDCE6AF48A03BBFD25E8CD0364141;
    high * (0xFFFFFFFFFFFFFFFFFFFFFFFFFFFFFFFF + 1) + low
}

/// A secret key is a non-zero scalar below the group order.
pub open spec fn is_valid_secret(key: Seq<u8>) -> bool {
    key.len() == 32 && 0 < be_value(key) < secp256k1_order()
}

/// Whether key text decodes to a usable secret key.
pub open spec fn key_text_valid(text: Seq<char>) -> bool {
    hex_text_bytes(text, 32) matches Some(k) && is_valid_secret(k)
}

/// Relies on alloy's `PrivateKeySigner::from_slice` (k256's
/// `SigningKey::from_slice`), which accepts exactly the non-zero scalars below
/// the group order, and on the signer's `address`.
#[verifier::external_body]
fn derive_address(key: &[u8; 32]) -> (r: Option<[u8; 20]>)
    ensures
        r is Some <==> is_valid_secret(key@),
        r matches Some(a) ==> a@ == address_of_key(key@),
{
    alloy::signers::local::PrivateKeySigner::from_slice(key).ok().map(|s| s.address().0 .0)
}

/// Relies on alloy's `SignerSync::sign_hash_sync` of a local signer: the
/// digest is signed as it is, with no further hashing, and the signature is
/// laid out by `Signature::as_bytes`.
#[verifier::external_body]
fn sign_prehash(key: &[u8; 32], digest: &[u8; 32]) -> (r: Option<[u8; 65]>)
    requires
        is_valid_secret(key@),
    ensures
        r is Some <==> signature_of(key@, digest@) is Some,
        r matches Some(s) ==> signature_of(key@, digest@) == Some(s@),
{
    let signer = alloy::signers::local::PrivateKeySigner::from_slice(key).ok()?;
    let hash = alloy::primitives::B256::new(*digest);
    alloy::signers::SignerSync::sign_hash_sync(&signer, &hash).ok().map(|s| s.as_bytes())
}

/// Relies on rand's `OsRng::try_fill_bytes`: the operating system's secure
/// random source, or `None` where it fails.
#[verifier::external_body]
fn os_random_32() -> (r: Option<[u8; 32]>) {
    let mut bytes = [0u8; 32];
    rand::RngCore::try_fill_bytes(&mut rand::rngs::OsRng, &mut bytes).ok().map(|_| bytes)
}

/// The operator: a secret key and the address it controls. The key is not
/// printable and never leaves the value.
pub struct OperatorIdentity {
    key: [u8; 32],
    address: ChainAddress,
}

impl OperatorIdentity {
    /// The secret key's bytes.
    pub closed spec fn secret(&self) -> Seq<u8> {
        self.key@
    }

    /// The address recorded with the key.
    pub closed spec fn address_spec(&self) -> ChainAddress {
        self.address
    }

    /// The key is a usable secret and the address is the one it controls.
    pub closed spec fn wf(&self) -> bool {
        &&& is_valid_secret(self.key@)
        &&& self.address.bytes@ == address_of_key(self.key@)
    }

    /// A well-formed identity records the address its key controls.
    pub proof fn lemma_address(&self)
        requires
            self.wf(),
        ensures
            self.address_spec().bytes@ == address_of_key(self.secret()),
    {
    }

    /// Loads the operator from hex key text (`0x` optional). Fails with a
    /// signing error exactly when the text is not a usable secret key.
    pub fn from_key_text(text: &str) -> (r: Result<OperatorIdentity, RegistrationError>)
        ensures
            r is Ok <==> key_text_valid(text@),
            r matches Ok(id) ==> id.wf() && hex_text_bytes(text@, 32) == Some(id.secret()),
            r matches Err(e) ==> e == RegistrationError::Signing,
    {
        match decode_hex_array::<32>(text) {
            Some(key) => match derive_address(&key) {
                Some(bytes) => Ok(OperatorIdentity { key, address: ChainAddress { bytes } }),
                None => Err(RegistrationError::Signing),
            },
            None => Err(RegistrationError::Signing),
        }
    }

    /// The address the operator's key controls.
    pub fn address(&self) -> (r: ChainAddress)
        requires
            self.wf(),
        ensures
            r.bytes@ == address_of_key(self.secret()),
            r == self.address_spec(),
    {
        self.address
    }

    /// Signs the exact digest bytes with the operator's key.
    pub fn sign(&self, digest: &[u8; 32]) -> (r: Result<[u8; 65], RegistrationError>)
        requires
            self.wf(),
        ensures
            r is Ok <==> signature_of(self.secret(), digest@) is Some,
            r matches Ok(s) ==> signature_of(self.secret(), digest@) == Some(s@),
            r matches Err(e) ==> e == RegistrationError::Signing,
    {
        match sign_prehash(&self.key, digest) {
            Some(s) => Ok(s),
            None => Err(RegistrationError::Signing),
        }
    }
}

/// The bundle handed to the stake registry: a signature over the
/// registration digest, with the salt and expiry it binds.
#[derive(Clone, Copy, Debug)]
pub struct RegistrationAttestation {
    pub signature: [u8; 65],
    pub salt: [u8; 32],
    pub expiry: u64,
}

/// Builds the attestation for `digest`, the registration digest of this
/// operator, salt and expiry.
pub fn attest(identity: &OperatorIdentity, digest: &[u8; 32], salt: [u8; 32], expiry: u64) -> (r:
    Result<RegistrationAttestation, RegistrationError>)
    requires
        identity.wf(),
    ensures
        r is Ok <==> signature_of(identity.secret(), digest@) is Some,
        r matches Ok(a) ==> signature_of(identity.secret(), digest@) == Some(a.signature@) && a.salt
            == salt && a.expiry == expiry,
        r matches Err(e) ==> e == RegistrationError::Signing,
{
    let signature = identity.sign(digest)?;
    Ok(RegistrationAttestation { signature, salt, expiry })
}

/// A fresh salt: 32 bytes from the operating system's secure random source.
pub fn generate_salt() -> (r: Result<[u8; 32], RegistrationError>)
    ensures
        r matches Err(e) ==> e == RegistrationError::Entropy,
{
    match os_random_32() {
        Some(salt) => Ok(salt),
        None => Err(RegistrationError::Entropy),
    }
}

/// The expiry of an attestation made at Unix time `now`: one window later.
/// Fails with a clock error where `now` is before the epoch or too large.
pub fn expiry_from(now: i64) -> (r: Result<u64, RegistrationError>)
    ensures
        r matches Ok(e) ==> expiry_spec(now as int, EXPIRY_WINDOW_SECS as int) == Some(e as int),
        r matches Err(err) ==> expiry_spec(now as int, EXPIRY_WINDOW_SECS as int) is None && err
            == RegistrationError::Config(ConfigField::Clock),
{
    match expiry_after(now, EXPIRY_WINDOW_SECS) {
        Some(e) => Ok(e),
        None => Err(RegistrationError::Config(ConfigField::Clock)),
    }
}

} // verus!

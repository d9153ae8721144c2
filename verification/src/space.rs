//! Content keys for ML-KEM, delegated inside UCANs.
//!
//! Each blob is encrypted under a fresh 32 byte content key. Rather than
//! escrow that key with a custody service, it is wrapped to the
//! recipient's ML-KEM-1024 key (FIPS 203) and carried in the delegation's
//! `meta` map, so reading a blob needs both the delegation and the
//! decapsulation key. [`SpaceKeyPair`] is the recipient's side.

use vstd::prelude::*;

use aws_lc_rs::error::{KeyRejected, Unspecified};
use aws_lc_rs::kem::{DecapsulationKey, ML_KEM_1024};

use crate::error::Error;

verus! {

/// Length in bytes of the key a blob is encrypted under.
pub const CONTENT_KEY_LEN: usize = 32;

/// Length in bytes of an ML-KEM-1024 encapsulation key.
pub const ENCAPSULATION_KEY_LEN: usize = 1568;

/// Length in bytes of an ML-KEM-1024 decapsulation key.
pub const DECAPSULATION_KEY_LEN: usize = 3168;

/// The registered multicodec code of an ML-KEM-1024 encapsulation key
/// (`mlkem-1024-pub`).
pub const ML_KEM_1024_MULTICODEC: u64 = 0x120d;

/// Algorithm identifier recorded in the wire format.
pub const WRAP_ALGORITHM: &'static str = "ML-KEM-1024+HKDF-SHA256+A256GCM";

/// The `meta` key under which a wrapped content key rides in a UCAN
/// delegation.
pub const META_KEY: &'static str = "space/key";

/// The `did:bio` service type under which an owner publishes their
/// encapsulation key.
pub const SPACE_KEY_SERVICE_TYPE: &'static str = "SpaceEncapsulationKey";

/// An aws-lc-rs ML-KEM `DecapsulationKey`, held as an opaque value: its
/// generic parameter is bound by a sealed trait of aws-lc-rs, so the type
/// is not declared by itself.
#[verifier::external_body]
#[derive(Debug)]
struct MlKemDecapsulationKey {
    key: DecapsulationKey,
}

#[verifier::external_type_specification]
#[verifier::external_body]
pub struct ExUnspecified(Unspecified);

#[verifier::external_type_specification]
#[verifier::external_body]
pub struct ExKeyRejected(KeyRejected);

/// Where the encapsulation key sits inside an ML-KEM-1024 decapsulation
/// key: FIPS 203 encodes `dk` as `dk_pke || ek || H(ek) || z`, with a 1536
/// byte `dk_pke`.
pub open spec fn encapsulation_key_within(dk: Seq<u8>) -> Seq<u8> {
    dk.subrange(1536, 1536 + ENCAPSULATION_KEY_LEN as int)
}

/// aws-lc-rs `DecapsulationKey::generate` for ML-KEM-1024, with the key's
/// bytes (`DecapsulationKey::key_bytes`) and its encapsulation key's bytes
/// (`DecapsulationKey::encapsulation_key`, `EncapsulationKey::key_bytes`)
/// read in the same call. The key is random; of every key it makes, the
/// secret bytes are the 3168 byte FIPS 203 encoding that aws-lc's ML-KEM
/// writes, which holds the 1568 byte public key at offset 1536.
#[verifier::external_body]
fn kem_generate() -> (r: Result<(MlKemDecapsulationKey, Vec<u8>, Vec<u8>), Unspecified>)
    ensures
        r matches Ok(t) ==> t.1@.len() == DECAPSULATION_KEY_LEN,
        r matches Ok(t) ==> t.2@ == encapsulation_key_within(t.1@),
{
    let key = DecapsulationKey::generate(&ML_KEM_1024)?;
    let secret = key.key_bytes()?.as_ref().to_vec();
    let public = key.encapsulation_key()?.key_bytes()?.as_ref().to_vec();
    Ok((MlKemDecapsulationKey { key }, secret, public))
}

/// aws-lc-rs `DecapsulationKey::new` for ML-KEM-1024. Its source refuses
/// every length but the decapsulation key size, and aws-lc copies the
/// bytes of a key of that size without checking them (allocation failure
/// aside).
#[verifier::external_body]
fn kem_decapsulation_key_new(bytes: &[u8]) -> (r: Result<MlKemDecapsulationKey, KeyRejected>)
    ensures
        r is Ok <==> bytes@.len() == DECAPSULATION_KEY_LEN,
{
    Ok(MlKemDecapsulationKey { key: DecapsulationKey::new(&ML_KEM_1024, bytes)? })
}

/// A recipient's ML-KEM-1024 key pair (FIPS 203).
///
/// The decapsulation key stays with its owner; only the encapsulation key
/// is shared. Both byte strings are taken out when the pair is made. A pair
/// restored from its decapsulation key bytes has no encapsulation key:
/// aws-lc-rs does not derive one for a key built from raw bytes.
#[derive(Debug)]
pub struct SpaceKeyPair {
    decapsulation_key: MlKemDecapsulationKey,
    decapsulation_key_bytes: Vec<u8>,
    encapsulation_key_bytes: Option<Vec<u8>>,
}

impl SpaceKeyPair {
    #[verifier::type_invariant]
    spec fn inv(self) -> bool {
        &&& self.decapsulation_key_bytes@.len() == DECAPSULATION_KEY_LEN
        &&& self.encapsulation_key_bytes matches Some(ek) ==> ek@ == encapsulation_key_within(
            self.decapsulation_key_bytes@,
        )
    }

    /// The decapsulation key bytes: secret.
    pub closed spec fn spec_decapsulation_key(self) -> Seq<u8> {
        self.decapsulation_key_bytes@
    }

    /// The encapsulation key bytes, `None` for a pair restored from bytes.
    pub closed spec fn spec_encapsulation_key(self) -> Option<Seq<u8>> {
        match self.encapsulation_key_bytes {
            Some(ek) => Some(ek@),
            None => None,
        }
    }

    /// Generate a fresh ML-KEM-1024 key pair: a 3168 byte decapsulation
    /// key, and the 1568 byte encapsulation key that it holds.
    pub fn generate() -> (r: Result<Self, Error>)
        ensures
            r matches Ok(kp) ==> kp.spec_decapsulation_key().len() == DECAPSULATION_KEY_LEN,
            r matches Ok(kp) ==> kp.spec_encapsulation_key() == Some(
                encapsulation_key_within(kp.spec_decapsulation_key()),
            ),
            r matches Err(e) ==> e is Crypto,
    {
        match kem_generate() {
            Ok((decapsulation_key, decapsulation_key_bytes, encapsulation_key_bytes)) => Ok(
                SpaceKeyPair {
                    decapsulation_key,
                    decapsulation_key_bytes,
                    encapsulation_key_bytes: Some(encapsulation_key_bytes),
                },
            ),
            Err(_) => Err(Error::Crypto),
        }
    }

    /// Reconstruct from [`SpaceKeyPair::decapsulation_key_bytes`]. Every
    /// input of the decapsulation key size is taken and every other length
    /// is refused. The pair gives back exactly these bytes, and has no
    /// encapsulation key.
    pub fn from_decapsulation_key_bytes(bytes: &[u8]) -> (r: Result<Self, Error>)
        ensures
            r is Ok <==> bytes@.len() == DECAPSULATION_KEY_LEN,
            r matches Ok(kp) ==> kp.spec_decapsulation_key() == bytes@,
            r matches Ok(kp) ==> kp.spec_encapsulation_key() is None,
            r matches Err(e) ==> e is Crypto,
    {
        match kem_decapsulation_key_new(bytes) {
            Ok(decapsulation_key) => Ok(
                SpaceKeyPair {
                    decapsulation_key,
                    decapsulation_key_bytes: vstd::slice::slice_to_vec(bytes),
                    encapsulation_key_bytes: None,
                },
            ),
            Err(_) => Err(Error::Crypto),
        }
    }

    /// The raw decapsulation key bytes. Secret, and the only thing that
    /// opens a wrap.
    pub fn decapsulation_key_bytes(&self) -> (r: Result<Vec<u8>, Error>)
        ensures
            r matches Ok(v) && v@ == self.spec_decapsulation_key(),
            r matches Ok(v) ==> v@.len() == DECAPSULATION_KEY_LEN,
    {
        proof {
            use_type_invariant(self);
        }
        Ok(self.decapsulation_key_bytes.clone())
    }

    /// The raw encapsulation key bytes, 1568 of them, for whoever wraps.
    /// A pair restored from bytes has none.
    pub fn encapsulation_key_bytes(&self) -> (r: Result<Vec<u8>, Error>)
        ensures
            match self.spec_encapsulation_key() {
                Some(ek) => r matches Ok(v) && v@ == ek,
                None => r matches Err(e) && e is Crypto,
            },
            r matches Ok(v) ==> v@.len() == ENCAPSULATION_KEY_LEN,
    {
        proof {
            use_type_invariant(self);
        }
        match &self.encapsulation_key_bytes {
            Some(bytes) => Ok(bytes.clone()),
            None => Err(Error::Crypto),
        }
    }
}

} // verus!

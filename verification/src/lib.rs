//! Post-quantum private space primitives for storage built on UCAN.
//!
//! Two pieces travel together in one delegation: `did:bio` principals that
//! sign and resolve inside pq-ucan chains ([`principal`]), and ML-KEM-1024
//! key pairs that receive wrapped content keys ([`space`]). [`did`] holds
//! the DID text that both sides read.

pub mod did;
pub mod error;
pub mod principal;
pub mod space;

pub use did_bio_core;
pub use pq_ucan;

pub use did::Did;
pub use error::Error;
pub use principal::{
    bio_of, did_of, resolution, BioDid, BioResolver, BioSigner, Ed25519Key, Network, Resolution,
};
pub use space::{
    SpaceKeyPair, CONTENT_KEY_LEN, DECAPSULATION_KEY_LEN, ENCAPSULATION_KEY_LEN, META_KEY,
    ML_KEM_1024_MULTICODEC, SPACE_KEY_SERVICE_TYPE, WRAP_ALGORITHM,
};

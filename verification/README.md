# pq_space

Post-quantum private space primitives for storage built on UCAN, as a Verus
library: `did:bio` principals that sign and resolve in pq-ucan chains, and
ML-KEM-1024 key pairs for content key wrapping.

- `src/did.rs`: the text of a DID as pq-ucan reads it, with the syntax that
  `Did::parse` accepts and the `method` and `base` cuts, proved.
- `src/principal.rs`: `Network`, `BioDid`, `did_of`, `bio_of`, the
  resolution rule of `BioResolver`, and `BioSigner`.
- `src/space.rs`: `SpaceKeyPair` over aws-lc-rs ML-KEM-1024.
- `src/error.rs`: the error type.
- `app/lib.rs`: the same error type with thiserror's `Display` and `Error`.

Calls into pq-ucan, did-bio-core and aws-lc-rs sit behind small trusted
wrappers whose contracts say what the outside source shows.

use pq_space::{
    bio_of, did_of, resolution, BioDid, BioResolver, BioSigner, Did, Ed25519Key, Network, Resolution,
};
use pq_ucan::crypto::ed25519::Ed25519Keypair;
use pq_ucan::crypto::Signer;
use pq_ucan::did::{Did as UcanDid, ResolveError, Resolver};

const DEVNET_DID: &str = "did:bio:devnet:2T6zLFvMx7NJac5qQtiKTaPhMwHLkwKETWjUK1yKv4tc";
const MAINNET_DID: &str = "did:bio:2T6zLFvMx7NJac5qQtiKTaPhMwHLkwKETWjUK1yKv4tc";

fn devnet_bio() -> BioDid {
    bio_of(&Did::parse(DEVNET_DID).expect("a DID")).expect("a did:bio identifier")
}

#[test]
fn bio_of_reads_the_network_and_subject() {
    let bio = devnet_bio();
    assert_eq!(bio.network, Network::Devnet);
    let core = did_bio_core::BioDid::parse(DEVNET_DID).expect("did-bio-core parses it");
    assert_eq!(bio.subject, core.subject);
    let mainnet = bio_of(&Did::parse(MAINNET_DID).expect("a DID")).expect("a did:bio identifier");
    assert_eq!(mainnet.network, Network::Mainnet);
    assert_eq!(mainnet.subject, bio.subject);
}

#[test]
fn did_of_writes_the_string_form() {
    let bio = devnet_bio();
    let did = did_of(&bio).expect("every did:bio is a DID");
    assert_eq!(did.as_str(), DEVNET_DID);
    let mainnet = BioDid { network: Network::Mainnet, subject: bio.subject };
    assert_eq!(did_of(&mainnet).expect("a DID").as_str(), MAINNET_DID);
    let testnet = BioDid { network: Network::Testnet, subject: [0u8; 32] };
    assert_eq!(
        did_of(&testnet).expect("a DID").as_str(),
        "did:bio:testnet:11111111111111111111111111111111"
    );
    let localnet = BioDid { network: Network::Localnet, subject: [1u8; 32] };
    let text = did_of(&localnet).expect("a DID");
    assert!(text.as_str().starts_with("did:bio:localnet:"));
}

#[test]
fn did_of_and_bio_of_round_trip() {
    for network in [Network::Mainnet, Network::Devnet, Network::Testnet, Network::Localnet] {
        for fill in [0u8, 1, 7, 0x80, 0xff] {
            let bio = BioDid { network, subject: [fill; 32] };
            let did = did_of(&bio).expect("a DID");
            assert_eq!(bio_of(&did), Some(bio));
            assert_eq!(resolution(&did), Resolution::Subject(bio.subject));
        }
    }
}

#[test]
fn bio_of_refuses_other_methods_and_malformed_identifiers() {
    let key = Did::parse("did:key:z6MkhaXgBZDvotDkL5257faiztiGiC2QtKLGpbnnEGta2doK").expect("a DID");
    assert_eq!(bio_of(&key), None);
    assert_eq!(resolution(&key), Resolution::Other);
    let web = Did::parse("did:web:example.com").expect("a DID");
    assert_eq!(bio_of(&web), None);
    let short = Did::parse("did:bio:devnet:abc").expect("a DID");
    assert_eq!(bio_of(&short), None);
    assert_eq!(resolution(&short), Resolution::Invalid);
    let network =
        Did::parse("did:bio:mainnet:2T6zLFvMx7NJac5qQtiKTaPhMwHLkwKETWjUK1yKv4tc").expect("a DID");
    assert_eq!(bio_of(&network), None);
    assert_eq!(resolution(&network), Resolution::Invalid);
    let bios = Did::parse("did:bios:devnet:2T6zLFvMx7NJac5qQtiKTaPhMwHLkwKETWjUK1yKv4tc").expect("a DID");
    assert_eq!(bio_of(&bios), None);
    assert_eq!(resolution(&bios), Resolution::Other);
}

#[test]
fn bio_of_ignores_a_fragment() {
    let text = format!("{DEVNET_DID}#default");
    let did = Did::parse(&text).expect("a DID URL");
    assert_eq!(did.base(), DEVNET_DID);
    assert_eq!(did.method(), "bio");
    assert_eq!(bio_of(&did), Some(devnet_bio()));
}

#[test]
fn did_parse_follows_pq_ucan() {
    let did = Did::parse("did:example:abc:def/path?q=1#frag").expect("a DID");
    assert_eq!(did.method(), "example");
    assert_eq!(did.base(), "did:example:abc:def");
    assert_eq!(did.as_str(), "did:example:abc:def/path?q=1#frag");
    for bad in [
        "key:z6Mk",
        "did:Key:z6Mk",
        "did::z6Mk",
        "did:key",
        "did:key:",
        "did:key:abc:",
        "did:key:a b",
        "did:key:a%2",
    ] {
        assert!(Did::parse(bad).is_none(), "{bad}");
        assert!(UcanDid::parse(bad).is_err(), "{bad}");
    }
    assert!(Did::parse("did:key:a%2F").is_some());
}

#[test]
fn did_converts_to_and_from_pq_ucan() {
    let ucan = UcanDid::parse(DEVNET_DID).expect("a DID");
    let did = Did::from_ucan(&ucan);
    assert_eq!(did.as_str(), DEVNET_DID);
    assert_eq!(did.to_ucan(), ucan);
}

#[test]
fn signer_names_its_did_bio_and_resolves_to_its_key() {
    let signer = BioSigner::from_seed(Network::Devnet, &[5u8; 32]).expect("a did:bio signer");
    assert_eq!(signer.network(), Network::Devnet);
    assert_eq!(signer.bio().network, Network::Devnet);
    assert_eq!(&signer.bio().subject[..], signer.public_key().as_bytes());
    let did = signer.did();
    assert!(did.as_str().starts_with("did:bio:devnet:"));
    assert_eq!(bio_of(&Did::from_ucan(&did)), Some(*signer.bio()));
    let key = BioResolver.resolve(&did).expect("the subject key");
    assert_eq!(&key, signer.public_key());
    let signature = signer.sign(b"message").expect("a signature");
    key.verify(b"message", &signature).expect("verifies");
}

#[test]
fn signer_from_keypair_matches_seed() {
    let keypair = Ed25519Keypair::from_seed(&[5u8; 32]);
    let public = keypair.public_key().as_bytes().to_vec();
    let signer =
        BioSigner::new(Network::Testnet, Ed25519Key::from_keypair(keypair)).expect("a did:bio signer");
    assert_eq!(signer.bio().subject.to_vec(), public);
    let again = BioSigner::from_seed(Network::Testnet, &[5u8; 32]).expect("a did:bio signer");
    assert_eq!(again.bio(), signer.bio());
}

#[test]
fn signer_generates_fresh_identities() {
    let mut rng = pq_ucan::rng::system();
    let a = BioSigner::generate(Network::Localnet, &mut rng).expect("a did:bio signer");
    let b = BioSigner::generate(Network::Localnet, &mut rng).expect("a did:bio signer");
    assert_eq!(a.network(), Network::Localnet);
    assert_ne!(a.bio().subject, b.bio().subject);
}

#[test]
fn resolver_defers_did_key_to_pq_ucan() {
    let key = Ed25519Keypair::from_seed(&[7u8; 32]);
    let resolved = BioResolver.resolve(&key.did()).expect("did:key resolves");
    assert_eq!(&resolved, key.public_key());
    let web = UcanDid::parse("did:web:example.com").expect("a DID");
    assert_eq!(BioResolver.resolve(&web), Err(ResolveError::UnsupportedMethod));
}

#[test]
fn resolver_refuses_malformed_and_off_curve_subjects() {
    let bogus = UcanDid::parse("did:bio:devnet:abc").expect("a DID");
    assert_eq!(
        BioResolver.resolve(&bogus),
        Err(ResolveError::Failed("not a did:bio identifier".into()))
    );
    let off_curve = (0u8..=255)
        .map(|b| [b; 32])
        .find(|s| !did_bio_core::is_on_curve(s))
        .expect("some subject is off the curve");
    let did = did_of(&BioDid { network: Network::Devnet, subject: off_curve }).expect("a DID");
    assert_eq!(resolution(&did), Resolution::Subject(off_curve));
    assert_eq!(
        BioResolver.resolve(&did.to_ucan()),
        Err(ResolveError::Failed("did:bio subject is not an Ed25519 key".into()))
    );
}

#[test]
fn network_defaults_to_mainnet() {
    assert_eq!(Network::default(), Network::Mainnet);
}

#[test]
fn seeded_signers_agree() {
    let seed = [5u8; 32];
    let a = BioSigner::from_seed(Network::Devnet, &seed).expect("a did:bio signer");
    let b = BioSigner::from_seed(Network::Devnet, &seed).expect("a did:bio signer");
    let c = BioSigner::new(Network::Devnet, Ed25519Key::from_seed(&seed)).expect("a did:bio signer");
    for s in [&b, &c] {
        assert_eq!(a.bio(), s.bio());
        assert_eq!(a.did(), s.did());
        assert_eq!(a.public_key(), s.public_key());
        assert_eq!(a.sign(b"m").expect("signs"), s.sign(b"m").expect("signs"));
    }
    let expected = Ed25519Keypair::from_seed(&seed);
    assert_eq!(BioResolver.resolve(&a.did()), Ok(expected.public_key().clone()));
    assert_eq!(&a.bio().subject[..], expected.public_key().as_bytes());
}

#[test]
fn bio_did_parses_and_writes_its_string_form() {
    let bio = BioDid::parse(DEVNET_DID).expect("a did:bio identifier");
    assert_eq!(bio, devnet_bio());
    assert_eq!(bio.to_string(), DEVNET_DID);
    assert_eq!(BioDid::new(Network::Devnet, bio.subject), bio);
    assert!(bio.is_key_subject());
    assert_eq!(BioDid::parse("did:bio:devnet:0"), None);
    assert_eq!(BioDid::parse("did:bio:mainnet:2T6zLFvMx7NJac5qQtiKTaPhMwHLkwKETWjUK1yKv4tc"), None);
    let off_curve = (0u8..=255)
        .map(|b| [b; 32])
        .find(|s| !did_bio_core::is_on_curve(s))
        .expect("some subject is off the curve");
    assert!(!BioDid::new(Network::Mainnet, off_curve).is_key_subject());
}

#[test]
fn network_segments() {
    assert_eq!(Network::Mainnet.segment(), None);
    assert_eq!(Network::Devnet.segment(), Some("devnet"));
    assert_eq!(Network::Testnet.segment(), Some("testnet"));
    assert_eq!(Network::Localnet.segment(), Some("localnet"));
    for network in [Network::Devnet, Network::Testnet, Network::Localnet] {
        assert_eq!(Network::from_segment(network.segment().expect("a segment")), Some(network));
    }
    assert_eq!(Network::from_segment("mainnet"), None);
    assert_eq!(Network::from_segment("Devnet"), None);
    assert_eq!(Network::from_segment(""), None);
}

#[test]
fn error_messages() {
    assert_eq!(pq_space::Error::Crypto.message(), "cryptographic operation failed");
    assert_eq!(
        pq_space::Error::InvalidPrincipal("subject key is not 32 bytes").message(),
        "invalid principal: subject key is not 32 bytes"
    );
    assert_eq!(pq_space::Error::Encoding("truncated").message(), "invalid encoding: truncated");
}

#[test]
fn resolver_refuses_a_bio_did_that_is_not_an_identifier() {
    let did = Did::parse("did:bio:devnet:0").expect("a DID");
    assert_eq!(resolution(&did), Resolution::Invalid);
    assert_eq!(bio_of(&did), None);
    let failed = Err(ResolveError::Failed("not a did:bio identifier".into()));
    assert_eq!(BioResolver.resolve_did(&did), failed);
    assert_eq!(BioResolver.resolve(&did.to_ucan()), failed);
}

#[test]
fn signer_issuer_resolves_to_its_signing_key() {
    for network in [Network::Mainnet, Network::Devnet, Network::Testnet, Network::Localnet] {
        let signer = BioSigner::from_seed(network, &[5u8; 32]).expect("a did:bio signer");
        assert_eq!(signer.issuer().as_str(), signer.did().as_str());
        assert_eq!(resolution(signer.issuer()), Resolution::Subject(signer.bio().subject));
        let key = BioResolver.resolve_did(signer.issuer()).expect("the subject key");
        assert_eq!(&key, signer.public_key());
        assert_eq!(&key, Ed25519Keypair::from_seed(&[5u8; 32]).public_key());
        let signature = signer.sign(b"payload").expect("a signature");
        key.verify(b"payload", &signature).expect("verifies");
    }
}

#[test]
fn ed25519_key_from_seed_is_the_pq_ucan_key() {
    let seed = [9u8; 32];
    let key = Ed25519Key::from_seed(&seed);
    let keypair = Ed25519Keypair::from_seed(&seed);
    assert_eq!(&key.public_bytes()[..], keypair.public_key().as_bytes());
    assert_eq!(key.public_key(), keypair.public_key());
    assert_eq!(key.sign(b"m").expect("signs"), keypair.sign(b"m").expect("signs"));
    let other = Ed25519Key::from_seed(&[10u8; 32]);
    assert_ne!(other.public_bytes(), key.public_bytes());
    let again = Ed25519Key::from_keypair(Ed25519Keypair::from_seed(&seed));
    assert_eq!(again.public_bytes(), key.public_bytes());
}

#[test]
fn ed25519_key_generate_draws_fresh_keys() {
    let mut rng = pq_ucan::rng::system();
    let a = Ed25519Key::generate(&mut rng);
    let b = Ed25519Key::generate(&mut rng);
    assert_ne!(a.public_bytes(), b.public_bytes());
    assert_eq!(&a.public_bytes()[..], a.public_key().as_bytes());
}

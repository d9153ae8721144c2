//! `did:bio` principals for pq-ucan.
//!
//! pq-ucan carries any DID in any position of a chain and turns an issuer
//! into a key through its `Resolver` trait. A `did:bio` principal needs two
//! pieces: a [`BioSigner`] that signs with the subject key and names the
//! `did:bio` identifier as issuer, and a [`BioResolver`] that turns the
//! identifier back into that key. Ed25519 and ML-DSA-87 `did:key`
//! principals need nothing from this crate.

use vstd::prelude::*;

use did_bio_core::{BioDid as CoreBioDid, Network as CoreNetwork};
use pq_ucan::crypto::ed25519::Ed25519Keypair;
use pq_ucan::crypto::{Algorithm, CryptoError, PublicKey, Signature, Signer};
use pq_ucan::did::{Did as UcanDid, KeyResolver, ResolveError, Resolver};
use pq_ucan::rng::CryptoRng;

use crate::did::{
    did_base, did_method, did_scheme, did_syntax_ok, is_ascii_lower, is_id_char, is_url_delimiter,
    lemma_first_colon, lemma_first_delimiter, Did,
};
use crate::error::Error;

verus! {

#[verifier::external_type_specification]
#[verifier::external_body]
pub struct ExPublicKey(PublicKey);

#[verifier::external_type_specification]
#[verifier::external_body]
pub struct ExSignature(Signature);

#[verifier::external_type_specification]
#[verifier::external_body]
pub struct ExCryptoError(CryptoError);

#[verifier::external_type_specification]
#[verifier::external_body]
pub struct ExResolveError(ResolveError);

#[verifier::external_type_specification]
#[verifier::external_body]
pub struct ExEd25519Keypair(Ed25519Keypair);

/// The Solana cluster a `did:bio` identifier names. A DID without a network
/// segment names mainnet-beta.
#[derive(Debug, Clone, Copy, PartialEq, Eq, Hash, Structural)]
pub enum Network {
    /// Mainnet-beta, written `did:bio:<idstring>` with no network segment.
    Mainnet,
    /// Devnet, written `did:bio:devnet:<idstring>`.
    Devnet,
    /// Testnet, written `did:bio:testnet:<idstring>`.
    Testnet,
    /// A local validator, written `did:bio:localnet:<idstring>`.
    Localnet,
}

impl Default for Network {
    fn default() -> (r: Network)
        ensures
            r == Network::Mainnet,
    {
        Network::Mainnet
    }
}

/// A `did:bio` identifier: a network and a 32 byte subject, an Ed25519
/// public key or the program derived address of an owned subject.
#[derive(Debug, Clone, Copy, PartialEq, Eq, Hash)]
pub struct BioDid {
    /// Cluster selected by the `network` segment.
    pub network: Network,
    /// The 32 byte subject encoded in the identifier.
    pub subject: [u8; 32],
}

/// `did:bio:`
pub open spec fn bio_scheme() -> Seq<char> {
    seq!['d', 'i', 'd', ':', 'b', 'i', 'o', ':']
}

/// The shape `BioDid::parse` checks before it decodes: `did:bio:`, the
/// network segment, and an `idstring` of 32 to 44 base58btc characters.
pub open spec fn bio_did_shape(text: Seq<char>, network: Network) -> bool {
    let head = bio_scheme() + network_prefix(network);
    &&& text.len() >= head.len()
    &&& text.take(head.len() as int) == head
    &&& base58_text_ok(text.skip(head.len() as int))
    &&& 32 <= text.len() - head.len() <= 44
}

/// Whether `text` has the shape of a `did:bio` identifier on some network.
pub open spec fn bio_did_shaped(text: Seq<char>) -> bool {
    ||| bio_did_shape(text, Network::Mainnet)
    ||| bio_did_shape(text, Network::Devnet)
    ||| bio_did_shape(text, Network::Testnet)
    ||| bio_did_shape(text, Network::Localnet)
}

/// `bio`, the method name.
pub open spec fn bio_method() -> Seq<char> {
    seq!['b', 'i', 'o']
}

/// The network segment of a `did:bio` identifier with its trailing `:`,
/// empty for mainnet.
pub open spec fn network_prefix(network: Network) -> Seq<char> {
    match network {
        Network::Mainnet => Seq::empty(),
        Network::Devnet => seq!['d', 'e', 'v', 'n', 'e', 't', ':'],
        Network::Testnet => seq!['t', 'e', 's', 't', 'n', 'e', 't', ':'],
        Network::Localnet => seq!['l', 'o', 'c', 'a', 'l', 'n', 'e', 't', ':'],
    }
}

/// A character of the base58btc alphabet.
pub open spec fn is_base58_char(c: char) -> bool {
    ('1' <= c && c <= '9') || ('A' <= c && c <= 'H') || ('J' <= c && c <= 'N') || ('P' <= c && c
        <= 'Z') || ('a' <= c && c <= 'k') || ('m' <= c && c <= 'z')
}

/// A non-empty text over the base58btc alphabet.
pub open spec fn base58_text_ok(s: Seq<char>) -> bool {
    s.len() > 0 && forall|i: int| 0 <= i < s.len() ==> is_base58_char(#[trigger] s[i])
}

/// The base58btc digit for `d` in `0..58`: `1`-`9`, `A`-`H`, `J`-`N`,
/// `P`-`Z`, `a`-`k`, `m`-`z`.
pub open spec fn base58_digit(d: int) -> char {
    if d < 9 {
        ('1' as int + d) as char
    } else if d < 17 {
        ('A' as int + (d - 9)) as char
    } else if d < 22 {
        ('J' as int + (d - 17)) as char
    } else if d < 33 {
        ('P' as int + (d - 22)) as char
    } else if d < 44 {
        ('a' as int + (d - 33)) as char
    } else {
        ('m' as int + (d - 44)) as char
    }
}

/// The base-58 digits of `n`, most significant first, none for zero.
pub open spec fn base58_digits(n: nat) -> Seq<char>
    decreases n,
{
    if n == 0 {
        Seq::empty()
    } else {
        base58_digits(n / 58).push(base58_digit((n % 58) as int))
    }
}

/// The value of `bytes` read as a big-endian number.
pub open spec fn big_endian(bytes: Seq<u8>) -> nat
    decreases bytes.len(),
{
    if bytes.len() == 0 {
        0
    } else {
        big_endian(bytes.drop_last()) * 256 + bytes.last() as nat
    }
}

/// The number of zero bytes that `bytes` starts with.
pub open spec fn leading_zeros(bytes: Seq<u8>) -> nat
    decreases bytes.len(),
{
    if bytes.len() > 0 && bytes[0] == 0 {
        1 + leading_zeros(bytes.drop_first())
    } else {
        0
    }
}

/// The base58btc form of `bytes`, as bs58 writes it for did-bio-core: a
/// `1` for every leading zero byte, then the base-58 digits of the value.
pub open spec fn base58btc(bytes: Seq<u8>) -> Seq<char> {
    Seq::new(leading_zeros(bytes), |i: int| '1') + base58_digits(big_endian(bytes))
}

proof fn lemma_base58_digits_ok(n: nat)
    ensures
        forall|i: int|
            0 <= i < base58_digits(n).len() ==> is_base58_char(#[trigger] base58_digits(n)[i]),
        n > 0 ==> base58_digits(n).len() > 0,
    decreases n,
{
    if n > 0 {
        lemma_base58_digits_ok(n / 58);
        let d = (n % 58) as int;
        assert(is_base58_char(base58_digit(d)));
        let prev = base58_digits(n / 58);
        assert forall|i: int| 0 <= i < base58_digits(n).len() implies is_base58_char(
            #[trigger] base58_digits(n)[i],
        ) by {
            if i < prev.len() {
                assert(base58_digits(n)[i] == prev[i]);
            }
        }
    }
}

proof fn lemma_big_endian_at_least_first(bytes: Seq<u8>)
    requires
        bytes.len() > 0,
    ensures
        big_endian(bytes) >= bytes[0],
    decreases bytes.len(),
{
    if bytes.len() > 1 {
        let prefix = bytes.drop_last();
        lemma_big_endian_at_least_first(prefix);
        assert(prefix[0] == bytes[0]);
    }
}

/// The base58btc form of a non-empty byte string is a non-empty text over
/// the base58btc alphabet.
proof fn lemma_base58btc_ok(bytes: Seq<u8>)
    requires
        bytes.len() > 0,
    ensures
        base58_text_ok(base58btc(bytes)),
{
    let n = big_endian(bytes);
    lemma_base58_digits_ok(n);
    if bytes[0] != 0 {
        lemma_big_endian_at_least_first(bytes);
    }
    let ones = Seq::new(leading_zeros(bytes), |i: int| '1');
    let t = base58btc(bytes);
    assert forall|i: int| 0 <= i < t.len() implies is_base58_char(#[trigger] t[i]) by {
        if i >= ones.len() {
            assert(t[i] == base58_digits(n)[i - ones.len()]);
        }
    }
}

/// What did-bio-core's `BioDid::parse` gives for a text, carried over to
/// this crate's `BioDid`.
pub uninterp spec fn bio_did_parse(text: Seq<char>) -> Option<BioDid>;

/// The Ed25519 public key of a 32 byte seed, as pq-ucan's
/// `Ed25519Keypair::from_seed` derives it.
pub uninterp spec fn ed25519_public(seed: Seq<u8>) -> Seq<u8>;

/// Whether did-bio-core's `is_on_curve` finds `bytes` on the Ed25519 curve.
pub uninterp spec fn ed25519_on_curve(bytes: Seq<u8>) -> bool;

/// Whether pq-ucan's `PublicKey::new` takes `bytes` as an Ed25519 key.
pub uninterp spec fn ed25519_key_valid(bytes: Seq<u8>) -> bool;

/// The string form of a `did:bio` identifier:
/// `did:bio[:<network>]:<base58btc(subject)>`.
pub open spec fn bio_did_text(bio: BioDid) -> Seq<char> {
    bio_scheme() + network_prefix(bio.network) + base58btc(bio.subject@)
}

/// The `did:bio` identifier inside a DID: `None` unless the method is `bio`
/// and the DID's base parses as a `did:bio` identifier.
pub open spec fn spec_bio_of(did: Seq<char>) -> Option<BioDid> {
    if did_method(did) == bio_method() {
        bio_did_parse(did_base(did))
    } else {
        None
    }
}

/// How [`BioResolver`] treats a DID.
#[derive(Debug, Clone, Copy, PartialEq, Eq)]
pub enum Resolution {
    /// The method is not `bio`: pq-ucan's `KeyResolver` answers.
    Other,
    /// The method is `bio` but the DID is not a `did:bio` identifier.
    Invalid,
    /// A `did:bio` identifier: its subject is the Ed25519 key.
    Subject([u8; 32]),
}

pub open spec fn spec_resolution(did: Seq<char>) -> Resolution {
    if did_method(did) != bio_method() {
        Resolution::Other
    } else {
        match bio_did_parse(did_base(did)) {
            Some(bio) => Resolution::Subject(bio.subject),
            None => Resolution::Invalid,
        }
    }
}

/// did-bio-core's `Display` of a `BioDid`, on the same network and subject.
/// Its documentation gives the string form `did:bio[:<network>]:<idstring>`
/// with the base58btc subject as `idstring`, and `BioDid::parse` reads that
/// form back to the same identifier.
#[verifier::external_body]
fn bio_did_display(bio: &BioDid) -> (r: String)
    ensures
        r@ == bio_scheme() + network_prefix(bio.network) + base58btc(bio.subject@),
        bio_did_parse(r@) == Some(*bio),
{
    let network = match bio.network {
        Network::Mainnet => CoreNetwork::Mainnet,
        Network::Devnet => CoreNetwork::Devnet,
        Network::Testnet => CoreNetwork::Testnet,
        Network::Localnet => CoreNetwork::Localnet,
    };
    CoreBioDid::new(network, bio.subject).to_string()
}

/// did-bio-core's `BioDid::parse`, its result carried over to this crate's
/// `BioDid`. A network that did-bio-core adds after this crate was written
/// comes back as `None`.
#[verifier::external_body]
fn bio_did_parse_text(text: &str) -> (r: Option<BioDid>)
    ensures
        r == bio_did_parse(text@),
        r matches Some(bio) ==> bio_did_shape(text@, bio.network),
{
    let bio = CoreBioDid::parse(text).ok()?;
    let network = match bio.network {
        CoreNetwork::Mainnet => Network::Mainnet,
        CoreNetwork::Devnet => Network::Devnet,
        CoreNetwork::Testnet => Network::Testnet,
        CoreNetwork::Localnet => Network::Localnet,
        _ => return None,
    };
    Some(BioDid { network, subject: bio.subject })
}

/// pq-ucan's `PublicKey::new` for an Ed25519 key. Whether it accepts the
/// bytes is named, not stated: it checks the point encoding.
#[verifier::external_body]
fn ed25519_public_key(subject: &[u8; 32]) -> (r: Result<PublicKey, CryptoError>)
    ensures
        r is Ok <==> ed25519_key_valid(subject@),
{
    PublicKey::new(Algorithm::Ed25519, subject)
}

/// pq-ucan's `KeyResolver::resolve`. Nothing is stated of its answer.
#[verifier::external_body]
fn key_resolver_resolve(did: &UcanDid) -> Result<PublicKey, ResolveError> {
    KeyResolver.resolve(did)
}

/// pq-ucan's `ResolveError::Failed` with `reason` as its text.
#[verifier::external_body]
fn resolve_failed(reason: &str) -> ResolveError {
    ResolveError::Failed(reason.into())
}

/// pq-ucan's `Ed25519Keypair::from_seed`, with the bytes of its public key
/// (`Signer::public_key`, `PublicKey::as_bytes`) read in the same call. The
/// key is a function of the seed alone; its public key is the 32 byte
/// Ed25519 verifying key, a point that `PublicKey::new` accepts (the
/// keypair builds it from the backend's own verifying key).
#[verifier::external_body]
fn keypair_from_seed(seed: &[u8; 32]) -> (r: (Ed25519Keypair, Vec<u8>))
    ensures
        r.1@ == ed25519_public(seed@),
        r.1@.len() == 32,
        ed25519_key_valid(r.1@),
{
    let key = Ed25519Keypair::from_seed(seed);
    let public = key.public_key().as_bytes().to_vec();
    (key, public)
}

/// pq-ucan's `Ed25519Keypair::generate`, which draws from `rng`. Nothing is
/// stated of the key.
#[verifier::external_body]
fn keypair_generate<R: CryptoRng + ?Sized>(rng: &mut R) -> Ed25519Keypair {
    Ed25519Keypair::generate(rng)
}

/// The bytes of pq-ucan's `Signer::public_key` of an `Ed25519Keypair`
/// (`PublicKey::as_bytes`): the 32 byte Ed25519 verifying key, which
/// `PublicKey::new` accepts.
#[verifier::external_body]
fn keypair_public_bytes(key: &Ed25519Keypair) -> (r: Vec<u8>)
    ensures
        r@.len() == 32,
        ed25519_key_valid(r@),
{
    key.public_key().as_bytes().to_vec()
}

/// did-bio-core's `is_on_curve`.
#[verifier::external_body]
fn subject_on_curve(subject: &[u8; 32]) -> (r: bool)
    ensures
        r == ed25519_on_curve(subject@),
{
    did_bio_core::is_on_curve(subject)
}

/// pq-ucan's `Signer::public_key` of an `Ed25519Keypair`.
#[verifier::external_body]
fn keypair_public_key(key: &Ed25519Keypair) -> &PublicKey {
    key.public_key()
}

/// pq-ucan's `Signer::sign` of an `Ed25519Keypair`. It wraps the 64 byte
/// Ed25519 signature with `Signature::new`, which takes every 64 byte
/// Ed25519 signature; nothing more is stated of it.
#[verifier::external_body]
fn keypair_sign(key: &Ed25519Keypair, message: &[u8]) -> (r: Result<Signature, CryptoError>)
    ensures
        r is Ok,
{
    key.sign(message)
}

/// `did:bio:`, a network segment and a base58btc text make a DID that
/// pq-ucan accepts, whose method is `bio` and whose base is the whole text.
proof fn lemma_bio_did_text_is_did(network: Network, b: Seq<char>, t: Seq<char>)
    requires
        base58_text_ok(b),
        t == bio_scheme() + network_prefix(network) + b,
    ensures
        did_syntax_ok(t),
        did_base(t) == t,
        did_method(t) == bio_method(),
{
    let s = bio_scheme();
    let p = network_prefix(network);
    let tail = p + b;
    assert(t =~= s + tail);
    assert(t.skip(8) =~= tail);
    assert(b =~= tail.skip(p.len() as int));
    assert(b == t.skip(s.len() + p.len() as int));
    // Every character after `did:bio:` may stand in a method-specific
    // identifier, and none is a delimiter or an escape.
    assert forall|i: int| 0 <= i < p.len() implies (is_ascii_lower(#[trigger] p[i]) || p[i] == ':')
    by {
        match network {
            Network::Mainnet => {},
            Network::Devnet => {},
            Network::Testnet => {},
            Network::Localnet => {},
        }
    }
    assert forall|i: int| 0 <= i < tail.len() implies {
        &&& is_id_char(#[trigger] tail[i])
        &&& tail[i] != '%'
        &&& !is_url_delimiter(tail[i])
    } by {
        if i < p.len() {
            assert(tail[i] == p[i]);
        } else {
            assert(tail[i] == b[i - p.len()]);
            assert(is_base58_char(b[i - p.len()]));
        }
    }
    assert(tail.last() == b.last());
    assert(is_base58_char(b[b.len() - 1]));
    // `did:bio:` itself.
    assert(t.take(4) =~= did_scheme());
    let rest = t.skip(4);
    assert(rest[0] == 'b' && rest[1] == 'i' && rest[2] == 'o' && rest[3] == ':');
    lemma_first_colon(rest, 3);
    assert(rest.take(3) =~= bio_method());
    assert(rest.skip(4) =~= tail);
    lemma_first_delimiter(tail, tail.len() as int);
    assert(tail.take(tail.len() as int) =~= tail);
    assert forall|i: int| 0 <= i < t.len() implies !is_url_delimiter(#[trigger] t[i]) by {
        if i >= 8 {
            assert(t[i] == tail[i - 8]);
        }
    }
    lemma_first_delimiter(t, t.len() as int);
    assert(t.take(t.len() as int) =~= t);
}

/// The pq-ucan [`Did`](UcanDid) for a `did:bio` identifier, here as this
/// crate's [`Did`]. Every `did:bio` identifier is a DID, and reading it
/// back gives the identifier again.
pub fn did_of(bio: &BioDid) -> (r: Result<Did, Error>)
    ensures
        r matches Ok(d) && d@ == bio_did_text(*bio),
        r matches Ok(d) ==> did_syntax_ok(d@),
        r matches Ok(d) ==> spec_bio_of(d@) == Some(*bio),
        r matches Ok(d) ==> spec_resolution(d@) == Resolution::Subject(bio.subject),
{
    let text = bio_did_display(bio);
    proof {
        lemma_base58btc_ok(bio.subject@);
        lemma_bio_did_text_is_did(bio.network, base58btc(bio.subject@), text@);
    }
    match Did::parse(text.as_str()) {
        Some(did) => Ok(did),
        None => Err(Error::InvalidPrincipal("did:bio identifier is not a DID")),
    }
}

/// Whether a DID's method is `bio`.
fn has_bio_method(did: &Did) -> (r: bool)
    ensures
        r == (did_method(did@) == bio_method()),
{
    let m = did.method();
    if m.unicode_len() != 3 {
        return false;
    }
    let r = m.get_char(0) == 'b' && m.get_char(1) == 'i' && m.get_char(2) == 'o';
    proof {
        if r {
            assert(m@ =~= bio_method());
        }
    }
    r
}

/// The `did:bio` identifier inside a DID, if it is one.
pub fn bio_of(did: &Did) -> (r: Option<BioDid>)
    ensures
        r == spec_bio_of(did@),
        !bio_did_shaped(did_base(did@)) ==> r is None,
{
    if !has_bio_method(did) {
        return None;
    }
    bio_did_parse_text(did.base())
}

/// How [`BioResolver`] treats a DID: `did:bio` identifiers resolve to their
/// subject, other `bio` DIDs fail, and every other method goes to pq-ucan.
pub fn resolution(did: &Did) -> (r: Resolution)
    ensures
        r == spec_resolution(did@),
        did_method(did@) == bio_method() && !bio_did_shaped(did_base(did@)) ==> r
            == Resolution::Invalid,
{
    if !has_bio_method(did) {
        return Resolution::Other;
    }
    match bio_did_parse_text(did.base()) {
        Some(bio) => Resolution::Subject(bio.subject),
        None => Resolution::Invalid,
    }
}

/// The network segment a `did:bio` identifier writes for a network, `None`
/// for mainnet.
pub open spec fn network_segment(network: Network) -> Option<Seq<char>> {
    match network {
        Network::Mainnet => None,
        Network::Devnet => Some("devnet"@),
        Network::Testnet => Some("testnet"@),
        Network::Localnet => Some("localnet"@),
    }
}

/// The network a segment names: exactly `devnet`, `testnet` or `localnet`.
pub open spec fn network_of_segment(segment: Seq<char>) -> Option<Network> {
    if segment == "devnet"@ {
        Some(Network::Devnet)
    } else if segment == "testnet"@ {
        Some(Network::Testnet)
    } else if segment == "localnet"@ {
        Some(Network::Localnet)
    } else {
        None
    }
}

/// A network's segment names that network again, and only mainnet has no
/// segment.
pub proof fn lemma_network_segment_round_trip(network: Network)
    ensures
        network_segment(network) is None <==> network == Network::Mainnet,
        network_segment(network) matches Some(t) ==> network_of_segment(t) == Some(network),
{
    reveal_strlit("devnet");
    reveal_strlit("testnet");
    reveal_strlit("localnet");
    // The three segments differ in length.
    assert("devnet"@.len() == 6 && "testnet"@.len() == 7 && "localnet"@.len() == 8);
    assert("testnet"@ != "devnet"@);
    assert("localnet"@ != "devnet"@ && "localnet"@ != "testnet"@);
}

/// Whether two strings hold the same characters.
fn str_eq(a: &str, b: &str) -> (r: bool)
    ensures
        r == (a@ == b@),
{
    let n: usize = a.unicode_len();
    if n != b.unicode_len() {
        return false;
    }
    let mut i: usize = 0;
    while i < n
        invariant
            n == a@.len(),
            n == b@.len(),
            0 <= i <= n,
            forall|j: int| 0 <= j < i ==> a@[j] == b@[j],
        decreases n - i,
    {
        if a.get_char(i) != b.get_char(i) {
            return false;
        }
        i = i + 1;
    }
    proof {
        assert(a@ =~= b@);
    }
    true
}

impl Network {
    /// The DID `network` segment for this cluster, or `None` for mainnet,
    /// which is expressed by omitting the segment.
    pub fn segment(self) -> (r: Option<&'static str>)
        ensures
            match network_segment(self) {
                None => r is None,
                Some(t) => r matches Some(x) && x@ == t,
            },
    {
        match self {
            Network::Mainnet => None,
            Network::Devnet => Some("devnet"),
            Network::Testnet => Some("testnet"),
            Network::Localnet => Some("localnet"),
        }
    }

    /// Parse a `network` segment: `None` for anything that is not exactly
    /// `devnet`, `testnet` or `localnet`. There is no `mainnet` segment.
    pub fn from_segment(segment: &str) -> (r: Option<Network>)
        ensures
            r == network_of_segment(segment@),
    {
        if str_eq(segment, "devnet") {
            Some(Network::Devnet)
        } else if str_eq(segment, "testnet") {
            Some(Network::Testnet)
        } else if str_eq(segment, "localnet") {
            Some(Network::Localnet)
        } else {
            None
        }
    }
}

impl BioDid {
    /// Build an identifier from a network and a subject.
    pub fn new(network: Network, subject: [u8; 32]) -> (r: BioDid)
        ensures
            r == (BioDid { network, subject }),
    {
        BioDid { network, subject }
    }

    /// Parse and validate a `did:bio` string, as did-bio-core does.
    pub fn parse(text: &str) -> (r: Option<BioDid>)
        ensures
            r == bio_did_parse(text@),
            r matches Some(bio) ==> bio_did_shape(text@, bio.network),
    {
        bio_did_parse_text(text)
    }

    /// The string form `did:bio[:<network>]:<base58btc(subject)>`, which
    /// parses back to this identifier.
    pub fn to_string(&self) -> (r: String)
        ensures
            r@ == bio_did_text(*self),
            bio_did_parse(r@) == Some(*self),
    {
        bio_did_display(self)
    }

    /// True when the subject is a point on the Ed25519 curve, a key subject;
    /// false for an owned subject.
    pub fn is_key_subject(&self) -> (r: bool)
        ensures
            r == ed25519_on_curve(self.subject@),
    {
        subject_on_curve(&self.subject)
    }
}

/// Resolves `did:bio` from the subject key inside the identifier, and
/// `did:key` through pq-ucan.
///
/// Generative resolution answers with the key the identifier was minted
/// from. A registered `did:bio` may have rotated since.
#[derive(Debug, Clone, Copy, Default)]
pub struct BioResolver;

impl BioResolver {
    /// The key for `did`: `did:bio` identifiers answer with their subject
    /// as an Ed25519 key, other `bio` DIDs fail, and every other method goes
    /// to pq-ucan's `KeyResolver`.
    pub fn resolve_did(&self, did: &Did) -> (r: Result<PublicKey, ResolveError>)
        ensures
            spec_resolution(did@) is Invalid ==> r is Err,
            did_method(did@) == bio_method() && !bio_did_shaped(did_base(did@)) ==> r is Err,
            spec_resolution(did@) matches Resolution::Subject(subject) ==> (r is Ok
                <==> ed25519_key_valid(subject@)),
    {
        match resolution(did) {
            Resolution::Other => key_resolver_resolve(&did.to_ucan()),
            Resolution::Invalid => Err(resolve_failed("not a did:bio identifier")),
            Resolution::Subject(subject) => match ed25519_public_key(&subject) {
                Ok(key) => Ok(key),
                Err(_) => Err(resolve_failed("did:bio subject is not an Ed25519 key")),
            },
        }
    }
}

impl Resolver for BioResolver {
    fn resolve(&self, did: &UcanDid) -> Result<PublicKey, ResolveError> {
        self.resolve_did(&Did::from_ucan(did))
    }
}

/// An Ed25519 signing key, known by its public key bytes.
#[derive(Debug)]
pub struct Ed25519Key {
    keypair: Ed25519Keypair,
    public: [u8; 32],
}

impl View for Ed25519Key {
    type V = Seq<u8>;

    /// The public key bytes.
    closed spec fn view(&self) -> Seq<u8> {
        self.public@
    }
}

/// The 32 bytes of `public` as an array.
fn to_array(public: &Vec<u8>) -> (r: [u8; 32])
    requires
        public@.len() == 32,
    ensures
        r@ == public@,
{
    let mut out = [0u8; 32];
    let mut i: usize = 0;
    while i < 32
        invariant
            0 <= i <= 32,
            public@.len() == 32,
            forall|j: int| 0 <= j < i ==> out@[j] == public@[j],
        decreases 32 - i,
    {
        out[i] = public[i];
        i = i + 1;
    }
    assert(out@ =~= public@);
    out
}

impl Ed25519Key {
    #[verifier::type_invariant]
    spec fn inv(self) -> bool {
        ed25519_key_valid(self.public@)
    }

    /// The pq-ucan keypair that signs.
    pub closed spec fn spec_keypair(self) -> Ed25519Keypair {
        self.keypair
    }

    /// The key for a 32 byte seed. Deterministic: its public key is that
    /// of the seed.
    pub fn from_seed(seed: &[u8; 32]) -> (r: Ed25519Key)
        ensures
            r@ == ed25519_public(seed@),
            ed25519_key_valid(r@),
    {
        let (keypair, public) = keypair_from_seed(seed);
        Ed25519Key { keypair, public: to_array(&public) }
    }

    /// A pq-ucan keypair, with its public key. The keypair is kept: it is
    /// the one that signs.
    pub fn from_keypair(keypair: Ed25519Keypair) -> (r: Ed25519Key)
        ensures
            ed25519_key_valid(r@),
            r.spec_keypair() == keypair,
    {
        let public = keypair_public_bytes(&keypair);
        Ed25519Key { keypair, public: to_array(&public) }
    }

    /// A fresh random key.
    pub fn generate<R: CryptoRng + ?Sized>(rng: &mut R) -> (r: Ed25519Key)
        ensures
            ed25519_key_valid(r@),
    {
        Self::from_keypair(keypair_generate(rng))
    }

    /// The public key bytes.
    pub fn public_bytes(&self) -> (r: [u8; 32])
        ensures
            r@ == self@,
            ed25519_key_valid(r@),
    {
        proof {
            use_type_invariant(self);
        }
        self.public
    }

    /// The verifying key, as pq-ucan holds it.
    pub fn public_key(&self) -> &PublicKey {
        keypair_public_key(&self.keypair)
    }

    /// Sign `message`; an Ed25519 signature is always produced.
    pub fn sign(&self, message: &[u8]) -> (r: Result<Signature, CryptoError>)
        ensures
            r is Ok,
    {
        keypair_sign(&self.keypair, message)
    }
}

/// Signs as a `did:bio` identifier with its Ed25519 subject key: the
/// identifier's subject is the public key of the key that signs.
#[derive(Debug)]
pub struct BioSigner {
    bio: BioDid,
    did: Did,
    key: Ed25519Key,
}

impl BioSigner {
    #[verifier::type_invariant]
    spec fn inv(self) -> bool {
        &&& self.bio.subject@ == self.key@
        &&& ed25519_key_valid(self.key@)
        &&& self.did@ == bio_did_text(self.bio)
        &&& spec_bio_of(self.did@) == Some(self.bio)
        &&& spec_resolution(self.did@) == Resolution::Subject(self.bio.subject)
    }

    /// The identifier this signer signs as.
    pub closed spec fn spec_bio(self) -> BioDid {
        self.bio
    }

    /// The text of the DID that tokens carry as issuer.
    pub closed spec fn spec_did(self) -> Seq<char> {
        self.did@
    }

    /// The public key bytes of the key that signs.
    pub closed spec fn spec_key(self) -> Seq<u8> {
        self.key@
    }

    /// The key that signs.
    pub closed spec fn spec_signing_key(self) -> Ed25519Key {
        self.key
    }

    /// What holds of every signer: its subject is the public key of the key
    /// that signs, a key `PublicKey::new` accepts; its issuer DID is its
    /// `did:bio`, reads back as it, and resolves to the subject.
    pub open spec fn well_named(self) -> bool {
        &&& self.spec_bio().subject@ == self.spec_key()
        &&& ed25519_key_valid(self.spec_key())
        &&& self.spec_did() == bio_did_text(self.spec_bio())
        &&& spec_bio_of(self.spec_did()) == Some(self.spec_bio())
        &&& spec_resolution(self.spec_did()) == Resolution::Subject(self.spec_bio().subject)
    }

    /// The identity `key` mints on `network`: the subject is the key's
    /// public key, and the issuer DID resolves back to it.
    pub fn new(network: Network, key: Ed25519Key) -> (r: Result<Self, Error>)
        ensures
            r matches Ok(s) && s.spec_bio().network == network,
            r matches Ok(s) ==> s.spec_key() == key@,
            r matches Ok(s) ==> s.spec_signing_key() == key,
            r matches Ok(s) ==> s.well_named(),
    {
        proof {
            use_type_invariant(&key);
        }
        let bio = BioDid { network, subject: key.public_bytes() };
        let did = did_of(&bio)?;
        Ok(BioSigner { bio, did, key })
    }

    /// From a 32 byte seed. Deterministic: the identity is a function of
    /// the network and the seed.
    pub fn from_seed(network: Network, seed: &[u8; 32]) -> (r: Result<Self, Error>)
        ensures
            r matches Ok(s) && s.spec_bio().network == network,
            r matches Ok(s) ==> s.spec_key() == ed25519_public(seed@),
            r matches Ok(s) ==> s.well_named(),
    {
        Self::new(network, Ed25519Key::from_seed(seed))
    }

    /// A fresh identity on `network`.
    pub fn generate<R: CryptoRng + ?Sized>(network: Network, rng: &mut R) -> (r: Result<Self, Error>)
        ensures
            r matches Ok(s) && s.spec_bio().network == network,
            r matches Ok(s) ==> s.well_named(),
    {
        Self::new(network, Ed25519Key::generate(rng))
    }

    /// The `did:bio` identifier.
    pub fn bio(&self) -> (r: &BioDid)
        ensures
            *r == self.spec_bio(),
            self.well_named(),
    {
        proof {
            use_type_invariant(self);
        }
        &self.bio
    }

    /// The issuer DID, as this crate's [`Did`].
    pub fn issuer(&self) -> (r: &Did)
        ensures
            r@ == self.spec_did(),
            self.well_named(),
    {
        proof {
            use_type_invariant(self);
        }
        &self.did
    }

    /// The network the identifier names.
    pub fn network(&self) -> (r: Network)
        ensures
            r == self.spec_bio().network,
    {
        self.bio.network
    }
}

/// A signer's issuer DID resolves to the key it signs with: the DID is a
/// `did:bio` identifier whose subject is the signing key's public key, a key
/// `PublicKey::new` accepts, so [`BioResolver::resolve_did`] answers `Ok`.
pub proof fn lemma_signer_issuer_resolves_to_its_key(s: BioSigner)
    requires
        s.well_named(),
    ensures
        spec_resolution(s.spec_did()) matches Resolution::Subject(k) && k@ == s.spec_key()
            && ed25519_key_valid(k@),
{
}

/// Two signers on one network with one signing key are the same identity:
/// the same `did:bio` identifier and the same issuer DID.
pub proof fn lemma_signers_with_one_key_agree(a: BioSigner, b: BioSigner)
    requires
        a.well_named(),
        b.well_named(),
        a.spec_bio().network == b.spec_bio().network,
        a.spec_key() == b.spec_key(),
    ensures
        a.spec_bio() == b.spec_bio(),
        a.spec_did() == b.spec_did(),
{
    assert(a.spec_bio().subject =~= b.spec_bio().subject);
}

impl Signer for BioSigner {
    fn public_key(&self) -> &PublicKey {
        self.key.public_key()
    }

    fn sign(&self, message: &[u8]) -> (r: Result<Signature, CryptoError>)
        ensures
            r is Ok,
    {
        self.key.sign(message)
    }

    fn did(&self) -> UcanDid {
        self.did.to_ucan()
    }
}

} // verus!

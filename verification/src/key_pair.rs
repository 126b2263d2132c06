//! The identity and signing adapter: wraps an sr25519 key pair and exposes
//! the derived account identifier together with the raw signing capability
//! that the transport needs to attach a valid signature.

use vstd::prelude::*;

use crate::error::Error;
use crate::primitives::AccountId;

verus! {

#[verifier::external_type_specification]
#[verifier::external_body]
pub struct ExKeypair(subxt_signer::sr25519::Keypair);

/// An alias for the raw key pair type that signs chain transactions.
pub type RawKeyPair = subxt_signer::sr25519::Keypair;

/// Relies on the derived Clone of sr25519::Keypair: cloning yields an
/// independent handle over the same key material.
pub assume_specification[ <subxt_signer::sr25519::Keypair as Clone>::clone ](
    keypair: &subxt_signer::sr25519::Keypair,
) -> subxt_signer::sr25519::Keypair;

/// Whether a secret phrase is a valid seed for the supported sr25519
/// scheme: key construction succeeds exactly on such phrases.
pub uninterp spec fn seed_parses(seed: Seq<char>) -> bool;

/// The 32 account identifier bytes that key derivation assigns to a valid
/// secret phrase. Derivation depends on the characters of the phrase alone.
pub uninterp spec fn account_of(seed: Seq<char>) -> Seq<u8>;

/// Relies on subxt_signer::SecretUri::from_str, sr25519::Keypair::from_uri
/// and sr25519::Keypair::public_key: parsing a secret phrase and deriving
/// its key pair are deterministic functions of the phrase, they fail
/// exactly when the phrase is not a valid secret URI for the scheme, and
/// the public key of the derived pair is the 32-byte account identifier.
#[verifier::external_body]
fn derive_keypair(seed: &str) -> (r: Option<(subxt_signer::sr25519::Keypair, [u8; 32])>)
    ensures
        r is Some <==> seed_parses(seed@),
        r matches Some(p) ==> p.1@ == account_of(seed@),
{
    let uri: subxt_signer::SecretUri = seed.parse().ok()?;
    let pair = subxt_signer::sr25519::Keypair::from_uri(&uri).ok()?;
    let public = pair.public_key().0;
    Some((pair, public))
}

/// Relies on sr25519::Keypair::public_key: the 32 public key bytes of a
/// pair are its account identifier on the ledger.
#[verifier::external_body]
pub fn account_from_keypair(keypair: &RawKeyPair) -> (r: AccountId) {
    AccountId { bytes: keypair.public_key().0 }
}

/// Used for signing transaction payloads. Immutable once constructed;
/// cloning yields an independent handle over the same key material.
#[derive(Clone, Debug)]
pub struct KeyPair {
    inner: RawKeyPair,
    account: AccountId,
}

impl KeyPair {
    /// The bytes of the account identifier this key pair signs for.
    pub closed spec fn view(self) -> Seq<u8> {
        self.account@
    }

    /// The raw key pair this capability wraps.
    pub closed spec fn spec_raw(self) -> RawKeyPair {
        self.inner
    }

    /// Constructs a new KeyPair wrapping exactly the given raw pair,
    /// with the account identifier derived from it. (That the stored
    /// identifier is the pair's derivation rests on
    /// [`account_from_keypair`]; the pair value itself is opaque, so no
    /// contract can restate the derivation.)
    pub fn new(keypair: RawKeyPair) -> (r: KeyPair)
        ensures
            r.spec_raw() == keypair,
    {
        let account = account_from_keypair(&keypair);
        KeyPair { inner: keypair, account }
    }

    /// Returns a reference to the wrapped raw pair, in the shape the
    /// transport consumes when attaching a signature.
    pub fn pair_signer(&self) -> (r: &RawKeyPair)
        ensures
            r == self.spec_raw(),
    {
        &self.inner
    }

    /// Returns a reference to the wrapped raw key pair.
    pub fn raw_key_pair(&self) -> (r: &RawKeyPair)
        ensures
            r == self.spec_raw(),
    {
        &self.inner
    }

    /// Returns the corresponding account identifier.
    pub fn account_id(&self) -> (r: &AccountId)
        ensures
            r@ == self@,
    {
        &self.account
    }
}

/// Converts a secret phrase to an sr25519 [`KeyPair`], or fails with a
/// fatal error when the phrase is not a valid seed for the scheme.
/// * `seed` - a secret URI, e.g. a 12 or 24 word seed phrase
pub fn keypair_from_string(seed: &str) -> (r: Result<KeyPair, Error>)
    ensures
        r is Ok <==> seed_parses(seed@),
        r matches Ok(kp) ==> kp@ == account_of(seed@),
        r matches Err(e) ==> e == Error::InvalidSeed && e.spec_is_fatal(),
{
    match derive_keypair(seed) {
        Some(pair) => {
            let (inner, bytes) = pair;
            Ok(KeyPair { inner, account: AccountId { bytes } })
        },
        None => Err(Error::InvalidSeed),
    }
}

/// Converts a secret phrase to a raw sr25519 key pair, or fails with a
/// fatal error when the phrase is not a valid seed for the scheme.
/// * `seed` - a secret URI, e.g. a 12 or 24 word seed phrase
pub fn raw_keypair_from_string(seed: &str) -> (r: Result<RawKeyPair, Error>)
    ensures
        r is Ok <==> seed_parses(seed@),
        r matches Err(e) ==> e == Error::InvalidSeed && e.spec_is_fatal(),
{
    match derive_keypair(seed) {
        Some(pair) => {
            let (inner, _bytes) = pair;
            Ok(inner)
        },
        None => Err(Error::InvalidSeed),
    }
}

} // verus!

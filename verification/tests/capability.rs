//! Scenarios for the capability model and the signing adapter: every
//! handle steps down to the bare view it embeds, privilege is granted
//! only by an explicit upgrade, and key construction is a deterministic
//! function of the seed phrase.

use subxtxt::connection::{AsConnection, AsSigned, Connection, Session, SignedConnection};
use subxtxt::error::Error;
use subxtxt::key_pair::{KeyPair, account_from_keypair, keypair_from_string, raw_keypair_from_string};

const ENDPOINT: &str = "ws://127.0.0.1:9944";

fn signed() -> SignedConnection {
    let session = Session::new(String::from(ENDPOINT));
    let connection = Connection::new(session);
    let signer = keypair_from_string("//Alice").unwrap();
    SignedConnection::from_connection(connection, signer)
}

#[test]
fn bare_view_of_signed_handle_is_the_embedded_connection() {
    let s = signed();
    assert_eq!(s.as_connection().as_client().endpoint(), ENDPOINT);
}

#[test]
fn bare_view_of_privileged_handle_is_the_embedded_connection() {
    let root = signed().try_as_root(true).unwrap();
    assert_eq!(root.as_connection().as_client().endpoint(), ENDPOINT);
    assert_eq!(
        root.as_signed().account_id(),
        signed().account_id(),
    );
}

#[test]
fn upgrade_without_privilege_fails_explicitly() {
    let err = signed().try_as_root(false).unwrap_err();
    assert_eq!(err, Error::NotPrivileged);
}

#[test]
fn keypair_from_seed_is_deterministic() {
    let first = keypair_from_string("//Alice").unwrap();
    let second = keypair_from_string("//Alice").unwrap();
    assert_eq!(first.account_id(), second.account_id());

    let other = keypair_from_string("//Bob").unwrap();
    assert_ne!(first.account_id(), other.account_id());
}

#[test]
fn keypair_account_matches_the_reference_derivation() {
    let kp = keypair_from_string("//Alice").unwrap();
    let reference = subxt_signer::sr25519::dev::alice().public_key().0;
    assert_eq!(kp.account_id().bytes, reference);
    assert_eq!(account_from_keypair(kp.raw_key_pair()).bytes, reference);
    assert_eq!(account_from_keypair(kp.pair_signer()).bytes, reference);
}

#[test]
fn constructor_round_trips_the_raw_pair() {
    let raw = raw_keypair_from_string("//Alice").unwrap();
    let reference = account_from_keypair(&raw);
    let kp = KeyPair::new(raw);
    assert_eq!(account_from_keypair(kp.pair_signer()), reference);
    assert_eq!(account_from_keypair(kp.raw_key_pair()), reference);
    assert_eq!(*kp.account_id(), reference);
}

#[test]
fn mnemonic_phrase_yields_a_keypair() {
    let phrase = "bottom drive obey lake curtain smoke basket hold race lonely fit walk";
    let kp = keypair_from_string(phrase).unwrap();
    assert_eq!(kp.account_id().bytes.len(), 32);
    let raw = raw_keypair_from_string(phrase).unwrap();
    assert_eq!(account_from_keypair(&raw).bytes, kp.account_id().bytes);
}

#[test]
fn invalid_seed_is_a_fatal_error() {
    let err = keypair_from_string("certainly not a seed phrase").unwrap_err();
    assert_eq!(err, Error::InvalidSeed);
    assert!(err.is_fatal());
    assert!(raw_keypair_from_string("0xnot-hex-key-material").is_err());
}

//! Scenarios for the query facade and the decoding of fetched values:
//! absence handling, idempotence of reads, decode failures, and the
//! little-endian decoders held against the ledger's own codec.

use parity_scale_codec::Encode;
use subxtxt::connection::{Connection, RpcReply, Session, StorageFetched};
use subxtxt::error::Error;
use subxtxt::primitives::{AccountId, Hash256};
use subxtxt::scale::{ScaleDecode, bytes_from_hex};

fn conn() -> Connection {
    Connection::new(Session::new(String::from("ws://127.0.0.1:9944")))
}

#[test]
fn get_optional_on_absent_cell_is_not_an_error() {
    let c = conn();
    let r: Result<Option<u32>, Error> = c.get_storage_entry_maybe(&StorageFetched::Absent);
    assert_eq!(r, Ok(None));
}

#[test]
fn get_required_on_absent_cell_is_fatal() {
    let c = conn();
    let r: Result<u32, Error> = c.get_storage_entry(&StorageFetched::Absent);
    assert_eq!(r, Err(Error::StorageValueMissing));
    assert!(r.unwrap_err().is_fatal());
}

#[test]
fn present_value_is_decoded_by_both_reads() {
    let c = conn();
    let fetched = StorageFetched::Value(vec![0x2a, 0, 0, 0]);
    let required: Result<u32, Error> = c.get_storage_entry(&fetched);
    let optional: Result<Option<u32>, Error> = c.get_storage_entry_maybe(&fetched);
    assert_eq!(required, Ok(42));
    assert_eq!(optional, Ok(Some(42)));
}

#[test]
fn repeated_reads_of_one_cell_agree() {
    let c = conn();
    let fetched = StorageFetched::Value(vec![1, 2, 3, 4, 5, 6, 7, 8, 9, 10, 11, 12, 13, 14, 15, 16]);
    let first: Result<u128, Error> = c.get_storage_entry(&fetched);
    let second: Result<u128, Error> = c.get_storage_entry(&fetched);
    assert_eq!(first, second);
    let m1: Result<Option<u128>, Error> = c.get_storage_entry_maybe(&fetched);
    let m2: Result<Option<u128>, Error> = c.get_storage_entry_maybe(&fetched);
    assert_eq!(m1, m2);
    assert_eq!(first.unwrap(), m1.unwrap().unwrap());
}

#[test]
fn undecodable_value_is_fatal_for_storage_reads() {
    let c = conn();
    let fetched = StorageFetched::Value(vec![1, 2, 3]);
    let r: Result<u32, Error> = c.get_storage_entry(&fetched);
    assert_eq!(r, Err(Error::StorageDecodeFailed));
    assert!(r.unwrap_err().is_fatal());
    let m: Result<Option<u32>, Error> = c.get_storage_entry_maybe(&fetched);
    assert_eq!(m, Err(Error::StorageDecodeFailed));
}

#[test]
fn failed_fetch_is_fatal_for_storage_reads() {
    let c = conn();
    let r: Result<u32, Error> = c.get_storage_entry(&StorageFetched::Failed);
    assert_eq!(r, Err(Error::StorageAccessFailed));
    assert!(r.unwrap_err().is_fatal());
}

#[test]
fn rpc_failures_are_recoverable() {
    let c = conn();
    let r: Result<u32, Error> = c.rpc_call(&RpcReply::TransportFailed);
    assert_eq!(r, Err(Error::RpcTransportFailed));
    assert!(!r.unwrap_err().is_fatal());
    let bad: Result<u32, Error> = c.rpc_call(&RpcReply::Reply(vec![1, 2]));
    assert_eq!(bad, Err(Error::RpcDecodeFailed));
    assert!(!bad.unwrap_err().is_fatal());
    let ok: Result<u32, Error> = c.rpc_call(&RpcReply::Reply(vec![1, 0, 0, 0]));
    assert_eq!(ok, Ok(1));
    assert_eq!(c.rpc_call_no_return(&RpcReply::Reply(vec![])), Ok(()));
    assert_eq!(
        c.rpc_call_no_return(&RpcReply::TransportFailed),
        Err(Error::RpcTransportFailed)
    );
}

#[test]
fn little_endian_decoders_give_exact_values() {
    assert_eq!(u32::decode_from(&[0xff, 0, 0, 0]), Some(255));
    assert_eq!(u32::decode_from(&[0x01, 0x02, 0, 0]), Some(0x0201));
    assert_eq!(u32::decode_from(&[0xff, 0xff, 0xff, 0xff]), Some(u32::MAX));
    assert_eq!(u32::decode_from(&[1, 2, 3]), None);
    assert_eq!(u64::decode_from(&[1, 0, 0, 0, 0, 0, 0, 0x80]), Some(1 + (0x80u64 << 56)));
    assert_eq!(u64::decode_from(&[0; 7]), None);
    assert_eq!(u128::decode_from(&[0xff; 16]), Some(u128::MAX));
    assert_eq!(bool::decode_from(&[0]), Some(false));
    assert_eq!(bool::decode_from(&[1]), Some(true));
    assert_eq!(bool::decode_from(&[2]), None);
    assert_eq!(bool::decode_from(&[]), None);
}

#[test]
fn decoders_match_the_reference_codec() {
    for v in [0u32, 1, 0x2a, 0xdead_beef, u32::MAX] {
        assert_eq!(u32::decode_from(&v.encode()), Some(v));
    }
    for v in [0u64, 7, u64::MAX / 3, u64::MAX] {
        assert_eq!(u64::decode_from(&v.encode()), Some(v));
    }
    for v in [0u128, 1_000_000_000_000u128, u128::MAX] {
        assert_eq!(u128::decode_from(&v.encode()), Some(v));
    }
    for v in [true, false] {
        assert_eq!(bool::decode_from(&v.encode()), Some(v));
    }
}

#[test]
fn hashes_and_accounts_decode_from_their_bytes() {
    let mut raw = [0u8; 32];
    for (i, b) in raw.iter_mut().enumerate() {
        *b = i as u8;
    }
    let h = Hash256::decode_from(&raw).unwrap();
    assert_eq!(h, Hash256::new(raw));
    assert!(!h.is_zero());
    assert!(Hash256::decode_from(&raw[..31]).is_none());
    let a = AccountId::decode_from(&raw).unwrap();
    assert_eq!(a, AccountId::new(raw));
    assert_eq!(Hash256::decode_from(&[0u8; 32]).unwrap(), Hash256::zero());
}

#[test]
fn hex_spellings_decode_to_their_bytes() {
    assert_eq!(bytes_from_hex(b""), Some(vec![]));
    assert_eq!(bytes_from_hex(b"00"), Some(vec![0]));
    assert_eq!(bytes_from_hex(b"2a"), Some(vec![42]));
    assert_eq!(bytes_from_hex(b"DEADbeef"), Some(vec![0xde, 0xad, 0xbe, 0xef]));
    assert_eq!(bytes_from_hex(b"0100000000000000"), Some(1u64.to_le_bytes().to_vec()));
    assert_eq!(bytes_from_hex(b"abc"), None);
    assert_eq!(bytes_from_hex(b"zz"), None);
    assert_eq!(bytes_from_hex(b"0g"), None);
}

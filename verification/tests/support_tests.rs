use gamma_pallets::bytemap::{bytes_equal, copy_bytes, ByteMap};
use gamma_pallets::origin::{ensure_root, ensure_signed, root_or_signed, Origin};
use gamma_pallets::rpc::{answer, block_at, Error as RpcQueryError, Silly, SumStorage, SERVER_ERROR_CODE};
use gamma_pallets::scale::{bytes_needed, push_compact_len, push_encoded_bytes, push_le};
use gamma_pallets::sorted::SortedAccounts;
use parity_scale_codec::{Compact, Encode};
use std::sync::Arc;

#[test]
fn origins() {
    assert_eq!(ensure_signed(Origin::Signed(4)), Some(4));
    assert_eq!(ensure_signed(Origin::Root), None);
    assert!(ensure_root(Origin::Root));
    assert!(!ensure_root(Origin::Unsigned));
    assert_eq!(root_or_signed(Origin::Root), Ok(None));
    assert_eq!(root_or_signed(Origin::Signed(2)), Ok(Some(2)));
    assert_eq!(root_or_signed(Origin::Unsigned), Err(()));
}

#[test]
fn byte_maps_read_back_what_was_written() {
    let mut m: ByteMap<u32> = ByteMap::new();
    assert!(!m.contains_key(b"a"));
    m.insert(b"a".to_vec(), 1);
    m.insert(b"b".to_vec(), 2);
    m.insert(b"a".to_vec(), 3);
    assert_eq!(m.get(b"a"), Some(&3));
    assert_eq!(m.get(b"b"), Some(&2));
    m.remove(b"a");
    assert!(!m.contains_key(b"a"));
    assert_eq!(m.get(b"b"), Some(&2));
    assert!(bytes_equal(b"xy", b"xy"));
    assert!(!bytes_equal(b"xy", b"xz"));
    assert_eq!(copy_bytes(&b"abc".to_vec()), b"abc".to_vec());
}

#[test]
fn scale_encoding_matches_the_codec() {
    for n in [0u64, 1, 63, 64, 16_383, 16_384, 1_073_741_823, 1_073_741_824, u32::MAX as u64, u64::MAX] {
        let mut out = Vec::new();
        push_compact_len(&mut out, n);
        assert_eq!(out, Compact(n).encode(), "compact {}", n);
    }
    let data = vec![7u8; 70];
    let mut out = Vec::new();
    push_encoded_bytes(&mut out, &data);
    assert_eq!(out, data.encode());
    let mut le = Vec::new();
    push_le(&mut le, 0x0102_0304, 4);
    assert_eq!(le, 0x0102_0304u32.encode());
    assert_eq!(bytes_needed(0), 0);
    assert_eq!(bytes_needed(255), 1);
    assert_eq!(bytes_needed(256), 2);
    assert_eq!(bytes_needed(u64::MAX), 8);
}

#[test]
fn sorted_accounts() {
    let mut s = SortedAccounts::from_unsorted(&vec![9, 2, 5, 2]);
    assert_eq!(s.as_vec(), &vec![2, 2, 5, 9]);
    assert_eq!(s.search(5), Ok(2));
    assert_eq!(s.search(2), Ok(0));
    assert_eq!(s.search(6), Err(3));
    assert!(s.contains(9));
    assert!(!s.insert(5));
    assert!(s.insert(7));
    assert_eq!(s.as_vec(), &vec![2, 2, 5, 7, 9]);
    assert!(s.remove(2));
    assert_eq!(s.as_vec(), &vec![2, 5, 7, 9]);
    assert!(!s.remove(4));
    assert_eq!(s.len(), 4);
    assert_eq!(s.get(1), 5);
}

#[test]
fn rpc_answers() {
    assert_eq!(block_at(Some(3u32), 9), 3);
    assert_eq!(block_at(None, 9u32), 9);
    assert_eq!(answer(Ok(12)).unwrap(), 12);
    let e = answer(Err("boom".to_string())).unwrap_err();
    assert_eq!(e.code, SERVER_ERROR_CODE);
    assert_eq!(e.message, "Something wrong");
    assert_eq!(e.data, Some("boom".to_string()));
    let rpc: SumStorage<(), ()> = SumStorage::new(Arc::new(()));
    assert_eq!(rpc.get_sum(Ok(4)).unwrap(), 4);
    assert_eq!(rpc.get_product(Err("x".to_string())).unwrap_err().code, 9876);
}

#[test]
fn rpc_error_codes() {
    assert_eq!(i64::from(RpcQueryError::RuntimeError), 1);
    assert_eq!(i64::from(RpcQueryError::ProductError), 2);
    assert_eq!(i64::from(RpcQueryError::SumError), 3);
}

#[test]
fn silly_doubles() {
    assert_eq!(Silly.monkey_double(21).unwrap(), 42);
    assert_eq!(Silly.monkey_double(0).unwrap(), 0);
}

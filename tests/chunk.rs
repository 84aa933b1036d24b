use std::io::Read;

use flate2::read::GzDecoder;
use td_client::table_import::{TableImportChunkError, TableImportWritableChunk, UnmatchElementNumsError};

fn unzip(data: &[u8]) -> Vec<u8> {
    let mut out = Vec::new();
    GzDecoder::new(data).read_to_end(&mut out).unwrap();
    out
}

fn arity_error(r: Result<(), TableImportChunkError>) -> UnmatchElementNumsError {
    match r {
        Err(TableImportChunkError::UnmatchElementNums(e)) => e,
        _ => panic!("expected an arity mismatch"),
    }
}

/// One row holding one field written by `f`; returns the decompressed stream.
fn one_field<F: FnOnce(&mut TableImportWritableChunk) -> Result<(), TableImportChunkError>>(f: F) -> Vec<u8> {
    let mut w = TableImportWritableChunk::new();
    w.next_row(1).unwrap();
    f(&mut w).unwrap();
    let chunk = w.close().unwrap();
    unzip(chunk.data())
}

fn field_value(f: fn(&mut TableImportWritableChunk) -> Result<(), TableImportChunkError>) -> Vec<u8> {
    let bytes = one_field(f);
    assert_eq!(&bytes[..3], &[0x81, 0xa1, b'k']);
    bytes[3..].to_vec()
}

#[test]
fn two_fields_decode_to_one_map() {
    let mut w = TableImportWritableChunk::new();
    w.next_row(2).unwrap();
    w.write_key_and_i32("a", 5).unwrap();
    w.write_key_and_str("b", "x").unwrap();
    let chunk = w.close().unwrap();
    let bytes = unzip(chunk.data());
    assert_eq!(bytes, vec![0x82, 0xa1, b'a', 0xd2, 0, 0, 0, 5, 0xa1, b'b', 0xa1, b'x']);

    let mut rd: &[u8] = &bytes;
    assert_eq!(rmp::decode::read_map_len(&mut rd).unwrap(), 2);
    let mut buf = [0u8; 8];
    assert_eq!(rmp::decode::read_str(&mut rd, &mut buf).unwrap(), "a");
    assert_eq!(rmp::decode::read_i32(&mut rd).unwrap(), 5);
    assert_eq!(rmp::decode::read_str(&mut rd, &mut buf).unwrap(), "b");
    assert_eq!(rmp::decode::read_str(&mut rd, &mut buf).unwrap(), "x");
    assert!(rd.is_empty());
}

#[test]
fn close_with_missing_field_fails() {
    let mut w = TableImportWritableChunk::new();
    w.next_row(1).unwrap();
    match w.close() {
        Err(TableImportChunkError::UnmatchElementNums(e)) => assert_eq!(e, UnmatchElementNumsError(Some((1, 0)))),
        _ => panic!("expected an arity mismatch"),
    }
}

#[test]
fn field_before_any_row_fails() {
    let mut w = TableImportWritableChunk::new();
    assert_eq!(arity_error(w.write_key_and_u8("a", 1)), UnmatchElementNumsError(None));
    assert_eq!(arity_error(w.write_key_and_nil("a")), UnmatchElementNumsError(None));
    let chunk = w.close().unwrap();
    assert!(unzip(chunk.data()).is_empty());
}

#[test]
fn extra_field_fails_at_once() {
    let mut w = TableImportWritableChunk::new();
    w.next_row(2).unwrap();
    w.write_key_and_bool("a", true).unwrap();
    w.write_key_and_bool("b", false).unwrap();
    assert_eq!(arity_error(w.write_key_and_bool("c", true)), UnmatchElementNumsError(Some((2, 3))));
    // the rejected field left the writer as it was
    let chunk = w.close().unwrap();
    assert_eq!(unzip(chunk.data()), vec![0x82, 0xa1, b'a', 0xc3, 0xa1, b'b', 0xc2]);
}

#[test]
fn short_row_fails_at_next_row() {
    let mut w = TableImportWritableChunk::new();
    w.next_row(3).unwrap();
    w.write_key_and_u8("a", 1).unwrap();
    assert_eq!(arity_error(w.next_row(1)), UnmatchElementNumsError(Some((3, 1))));
    w.write_key_and_u8("b", 2).unwrap();
    assert_eq!(arity_error(w.next_row(1)), UnmatchElementNumsError(Some((3, 2))));
}

#[test]
fn complete_rows_close() {
    let mut w = TableImportWritableChunk::new();
    for n in 0..4u32 {
        w.next_row(n).unwrap();
        for i in 0..n {
            w.write_key_and_uint("k", i as u64).unwrap();
        }
    }
    let chunk = w.close().unwrap();
    let bytes = unzip(chunk.data());
    assert_eq!(
        bytes,
        vec![
            0x80, 0x81, 0xa1, b'k', 0x00, 0x82, 0xa1, b'k', 0x00, 0xa1, b'k', 0x01, 0x83, 0xa1, b'k', 0x00, 0xa1,
            b'k', 0x01, 0xa1, b'k', 0x02,
        ]
    );
}

#[test]
fn empty_chunk_closes() {
    let chunk = TableImportWritableChunk::new().close().unwrap();
    assert!(!chunk.data().is_empty());
    assert!(unzip(&chunk.into_bytes()).is_empty());
}

#[test]
fn row_of_zero_fields() {
    let mut w = TableImportWritableChunk::new();
    w.next_row(0).unwrap();
    assert_eq!(arity_error(w.write_key_and_nil("a")), UnmatchElementNumsError(Some((0, 1))));
    w.next_row(0).unwrap();
    let chunk = w.close().unwrap();
    assert_eq!(unzip(chunk.data()), vec![0x80, 0x80]);
}

#[test]
fn large_row_header() {
    let mut w = TableImportWritableChunk::new();
    w.next_row(20).unwrap();
    for _ in 0..20 {
        w.write_key_and_pfix("k", 1).unwrap();
    }
    let bytes = unzip(w.close().unwrap().data());
    assert_eq!(&bytes[..3], &[0xde, 0x00, 0x14]);
    assert_eq!(bytes.len(), 3 + 20 * 3);
    w_huge_header();
}

fn w_huge_header() {
    let mut w = TableImportWritableChunk::new();
    w.next_row(70000).unwrap();
    match w.close() {
        Err(TableImportChunkError::UnmatchElementNums(e)) => assert_eq!(e, UnmatchElementNumsError(Some((70000, 0)))),
        _ => panic!("expected an arity mismatch"),
    }
}

#[test]
fn unsigned_fixed_widths() {
    assert_eq!(field_value(|w| w.write_key_and_u8("k", 200)), vec![0xcc, 200]);
    assert_eq!(field_value(|w| w.write_key_and_u16("k", 0x1234)), vec![0xcd, 0x12, 0x34]);
    assert_eq!(field_value(|w| w.write_key_and_u32("k", 0x01020304)), vec![0xce, 1, 2, 3, 4]);
    assert_eq!(field_value(|w| w.write_key_and_u64("k", 1)), vec![0xcf, 0, 0, 0, 0, 0, 0, 0, 1]);
}

#[test]
fn signed_fixed_widths() {
    assert_eq!(field_value(|w| w.write_key_and_i8("k", -2)), vec![0xd0, 0xfe]);
    assert_eq!(field_value(|w| w.write_key_and_i16("k", -2)), vec![0xd1, 0xff, 0xfe]);
    assert_eq!(field_value(|w| w.write_key_and_i32("k", 5)), vec![0xd2, 0, 0, 0, 5]);
    assert_eq!(
        field_value(|w| w.write_key_and_i64("k", -1)),
        vec![0xd3, 0xff, 0xff, 0xff, 0xff, 0xff, 0xff, 0xff, 0xff]
    );
}

#[test]
fn compact_integers() {
    assert_eq!(field_value(|w| w.write_key_and_uint("k", 5)), vec![0x05]);
    assert_eq!(field_value(|w| w.write_key_and_uint("k", 300)), vec![0xcd, 0x01, 0x2c]);
    assert_eq!(field_value(|w| w.write_key_and_uint("k", 1 << 40)), vec![0xcf, 0, 0, 1, 0, 0, 0, 0, 0]);
    assert_eq!(field_value(|w| w.write_key_and_sint("k", -1)), vec![0xff]);
    assert_eq!(field_value(|w| w.write_key_and_sint("k", -200)), vec![0xd1, 0xff, 0x38]);
    assert_eq!(field_value(|w| w.write_key_and_sint("k", 200)), vec![0xcc, 200]);
    assert_eq!(field_value(|w| w.write_key_and_sint_eff("k", -100)), vec![0xd0, 0x9c]);
    assert_eq!(field_value(|w| w.write_key_and_sint_eff("k", 7)), vec![0x07]);
}

#[test]
fn fixints_nil_and_bool() {
    assert_eq!(field_value(|w| w.write_key_and_pfix("k", 127)), vec![0x7f]);
    assert_eq!(field_value(|w| w.write_key_and_nfix("k", -32)), vec![0xe0]);
    assert_eq!(field_value(|w| w.write_key_and_nil("k")), vec![0xc0]);
    assert_eq!(field_value(|w| w.write_key_and_bool("k", true)), vec![0xc3]);
}

#[test]
fn float_bit_patterns() {
    assert_eq!(field_value(|w| w.write_key_and_f32_bits("k", 1.5f32.to_bits())), vec![0xca, 0x3f, 0xc0, 0, 0]);
    assert_eq!(
        field_value(|w| w.write_key_and_f64_bits("k", 1.5f64.to_bits())),
        vec![0xcb, 0x3f, 0xf8, 0, 0, 0, 0, 0, 0]
    );
}

#[test]
fn strings_and_blobs() {
    assert_eq!(field_value(|w| w.write_key_and_str("k", "")), vec![0xa0]);
    let long = "y".repeat(40);
    let bytes = one_field(|w| w.write_key_and_str("k", &long));
    assert_eq!(&bytes[3..5], &[0xd9, 40]);
    assert_eq!(bytes.len(), 5 + 40);
    assert_eq!(field_value(|w| w.write_key_and_bin("k", &[1, 2])), vec![0xc4, 2, 1, 2]);
    let key = "z".repeat(300);
    let bytes = one_field(|w| w.write_key_and_nil(&key));
    assert_eq!(&bytes[..4], &[0x81, 0xda, 0x01, 0x2c]);
    assert_eq!(bytes[4 + 300], 0xc0);
}

#[test]
fn nested_headers() {
    assert_eq!(field_value(|w| w.write_key_and_array_header("k", 3)), vec![0x93]);
    assert_eq!(field_value(|w| w.write_key_and_array_header("k", 20)), vec![0xdc, 0, 20]);
    assert_eq!(field_value(|w| w.write_key_and_map_len("k", 2)), vec![0x82]);
    assert_eq!(field_value(|w| w.write_key_and_map_len("k", 70000)), vec![0xdf, 0, 1, 0x11, 0x70]);
    assert_eq!(field_value(|w| w.write_key_and_ext_meta("k", 4, 7)), vec![0xd6, 7]);
    assert_eq!(field_value(|w| w.write_key_and_ext_meta("k", 3, -1)), vec![0xc7, 3, 0xff]);
}

#[test]
fn errors_convert_into_chunk_errors() {
    let e = TableImportChunkError::from(UnmatchElementNumsError(Some((4, 2))));
    assert!(matches!(e, TableImportChunkError::UnmatchElementNums(UnmatchElementNumsError(Some((4, 2))))));
    let e = TableImportChunkError::from(std::io::Error::new(std::io::ErrorKind::Other, "disk"));
    assert!(matches!(e, TableImportChunkError::IOError(_)));
}

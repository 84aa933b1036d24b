//! The msgpack encodings that a chunk is made of, and the encoder calls that
//! produce them. Every call writes into a `Vec<u8>`, whose `write_all` never
//! fails, so rmp's calls always succeed here.

use vstd::prelude::*;
use vstd::string::StringSliceAdditionalSpecFns;

verus! {

#[verifier::external_type_specification]
#[verifier::external_body]
pub struct ExIoError(std::io::Error);

/// `v` as two bytes, most significant first.
pub open spec fn be16(v: int) -> Seq<u8> {
    seq![((v / 256) % 256) as u8, (v % 256) as u8]
}

/// `v` as four bytes, most significant first.
pub open spec fn be32(v: int) -> Seq<u8> {
    be16(v / 65536) + be16(v % 65536)
}

/// `v` as eight bytes, most significant first.
pub open spec fn be64(v: int) -> Seq<u8> {
    be32(v / 4294967296) + be32(v % 4294967296)
}

/// The two's complement bit pattern of a signed value of `bits` bits.
pub open spec fn twos(v: int, bits: nat) -> int {
    if v < 0 { v + pow2(bits) } else { v }
}

pub open spec fn pow2(bits: nat) -> int
    decreases bits,
{
    if bits == 0 { 1 } else { 2 * pow2((bits - 1) as nat) }
}

/// Header of a map of `len` entries: fixmap, map16 or map32.
pub open spec fn map_header(len: u32) -> Seq<u8> {
    if len < 16 {
        seq![(0x80 + len) as u8]
    } else if len < 65536 {
        seq![0xdeu8] + be16(len as int)
    } else {
        seq![0xdfu8] + be32(len as int)
    }
}

/// Header of an array of `len` elements: fixarray, array16 or array32.
pub open spec fn array_header(len: u32) -> Seq<u8> {
    if len < 16 {
        seq![(0x90 + len) as u8]
    } else if len < 65536 {
        seq![0xdcu8] + be16(len as int)
    } else {
        seq![0xddu8] + be32(len as int)
    }
}

/// A string whose UTF-8 bytes are `b`: fixstr, str8, str16 or str32 header, then the bytes.
pub open spec fn str_enc(b: Seq<u8>) -> Seq<u8> {
    let len = b.len();
    let header = if len < 32 {
        seq![(0xa0 + len) as u8]
    } else if len < 256 {
        seq![0xd9u8, len as u8]
    } else if len < 65536 {
        seq![0xdau8] + be16(len as int)
    } else {
        seq![0xdbu8] + be32(len as int)
    };
    header + b
}

/// A binary blob: bin8, bin16 or bin32 header, then the bytes.
pub open spec fn bin_enc(b: Seq<u8>) -> Seq<u8> {
    let len = b.len();
    let header = if len < 256 {
        seq![0xc4u8, len as u8]
    } else if len < 65536 {
        seq![0xc5u8] + be16(len as int)
    } else {
        seq![0xc6u8] + be32(len as int)
    };
    header + b
}

/// Header of an extension value of `len` data bytes and type `ty`.
pub open spec fn ext_header(len: u32, ty: i8) -> Seq<u8> {
    let head = if len == 1 {
        seq![0xd4u8]
    } else if len == 2 {
        seq![0xd5u8]
    } else if len == 4 {
        seq![0xd6u8]
    } else if len == 8 {
        seq![0xd7u8]
    } else if len == 16 {
        seq![0xd8u8]
    } else if len < 256 {
        seq![0xc7u8, len as u8]
    } else if len < 65536 {
        seq![0xc8u8] + be16(len as int)
    } else {
        seq![0xc9u8] + be32(len as int)
    };
    head + seq![twos(ty as int, 8) as u8]
}

pub open spec fn nil_enc() -> Seq<u8> {
    seq![0xc0u8]
}

pub open spec fn bool_enc(v: bool) -> Seq<u8> {
    if v { seq![0xc3u8] } else { seq![0xc2u8] }
}

/// Positive fixint: the value itself, below 128.
pub open spec fn pfix_enc(v: u8) -> Seq<u8> {
    seq![v]
}

/// Negative fixint: the value's bit pattern, from -32 to -1.
pub open spec fn nfix_enc(v: i8) -> Seq<u8> {
    seq![twos(v as int, 8) as u8]
}

pub open spec fn u8_enc(v: u8) -> Seq<u8> {
    seq![0xccu8, v]
}

pub open spec fn u16_enc(v: u16) -> Seq<u8> {
    seq![0xcdu8] + be16(v as int)
}

pub open spec fn u32_enc(v: u32) -> Seq<u8> {
    seq![0xceu8] + be32(v as int)
}

pub open spec fn u64_enc(v: u64) -> Seq<u8> {
    seq![0xcfu8] + be64(v as int)
}

pub open spec fn i8_enc(v: i8) -> Seq<u8> {
    seq![0xd0u8, twos(v as int, 8) as u8]
}

pub open spec fn i16_enc(v: i16) -> Seq<u8> {
    seq![0xd1u8] + be16(twos(v as int, 16))
}

pub open spec fn i32_enc(v: i32) -> Seq<u8> {
    seq![0xd2u8] + be32(twos(v as int, 32))
}

pub open spec fn i64_enc(v: i64) -> Seq<u8> {
    seq![0xd3u8] + be64(twos(v as int, 64))
}

/// The shortest encoding of an unsigned integer.
pub open spec fn uint_enc(v: u64) -> Seq<u8> {
    if v < 128 {
        pfix_enc(v as u8)
    } else if v < 256 {
        u8_enc(v as u8)
    } else if v < 65536 {
        u16_enc(v as u16)
    } else if v < 4294967296 {
        u32_enc(v as u32)
    } else {
        u64_enc(v)
    }
}

/// The shortest encoding of a signed integer; non-negative values take the
/// unsigned forms.
pub open spec fn sint_enc(v: i64) -> Seq<u8> {
    if -32 <= v < 0 {
        nfix_enc(v as i8)
    } else if -128 <= v < -32 {
        i8_enc(v as i8)
    } else if -32768 <= v < -128 {
        i16_enc(v as i16)
    } else if -2147483648 <= v < -32768 {
        i32_enc(v as i32)
    } else if v < -2147483648 {
        i64_enc(v)
    } else {
        uint_enc(v as u64)
    }
}

/// A 32-bit float, by its bit pattern.
pub open spec fn f32_enc(bits: u32) -> Seq<u8> {
    seq![0xcau8] + be32(bits as int)
}

/// A 64-bit float, by its bit pattern.
pub open spec fn f64_enc(bits: u64) -> Seq<u8> {
    seq![0xcbu8] + be64(bits as int)
}

fn push_be16(buf: &mut Vec<u8>, v: u32)
    requires
        v < 65536,
    ensures
        final(buf)@ == old(buf)@ + be16(v as int),
{
    buf.push(((v / 256) % 256) as u8);
    buf.push((v % 256) as u8);
    assert(final(buf)@ =~= old(buf)@ + be16(v as int));
}

fn push_be32(buf: &mut Vec<u8>, v: u32)
    ensures
        final(buf)@ == old(buf)@ + be32(v as int),
{
    push_be16(buf, v / 65536);
    push_be16(buf, v % 65536);
    assert(final(buf)@ =~= old(buf)@ + be32(v as int));
}

fn push_be64(buf: &mut Vec<u8>, v: u64)
    ensures
        final(buf)@ == old(buf)@ + be64(v as int),
{
    push_be32(buf, (v / 4294967296) as u32);
    push_be32(buf, (v % 4294967296) as u32);
    assert(final(buf)@ =~= old(buf)@ + be64(v as int));
}

/// The float32 marker, then the bit pattern big-endian, as msgpack lays out a
/// 32-bit float.
pub(crate) fn put_f32_bits(buf: &mut Vec<u8>, bits: u32)
    ensures
        final(buf)@ == old(buf)@ + f32_enc(bits),
{
    buf.push(0xca);
    push_be32(buf, bits);
    assert(final(buf)@ =~= old(buf)@ + f32_enc(bits));
}

/// The float64 marker, then the bit pattern big-endian, as msgpack lays out a
/// 64-bit float.
pub(crate) fn put_f64_bits(buf: &mut Vec<u8>, bits: u64)
    ensures
        final(buf)@ == old(buf)@ + f64_enc(bits),
{
    buf.push(0xcb);
    push_be64(buf, bits);
    assert(final(buf)@ =~= old(buf)@ + f64_enc(bits));
}

/// Relies on rmp::encode::write_str: a header for the UTF-8 length, then the bytes; the length is
/// cast to u32, hence the bound.
#[verifier::external_body]
pub(crate) fn put_str(buf: &mut Vec<u8>, s: &str) -> (r: Result<(), std::io::Error>)
    requires
        s.spec_bytes().len() <= u32::MAX,
    ensures
        r is Ok,
        final(buf)@ == old(buf)@ + str_enc(s.spec_bytes()),
{
    rmp::encode::write_str(buf, s).map_err(std::io::Error::from)
}

/// Relies on rmp::encode::write_bin: a header for the length, then the bytes; the length is cast to
/// u32, hence the bound.
#[verifier::external_body]
pub(crate) fn put_bin(buf: &mut Vec<u8>, data: &[u8]) -> (r: Result<(), std::io::Error>)
    requires
        data@.len() <= u32::MAX,
    ensures
        r is Ok,
        final(buf)@ == old(buf)@ + bin_enc(data@),
{
    rmp::encode::write_bin(buf, data).map_err(std::io::Error::from)
}

/// Relies on rmp::encode::write_map_len: the map header for `len`.
#[verifier::external_body]
pub(crate) fn put_map_len(buf: &mut Vec<u8>, len: u32) -> (r: Result<(), std::io::Error>)
    ensures
        r is Ok,
        final(buf)@ == old(buf)@ + map_header(len),
{
    rmp::encode::write_map_len(buf, len).map(|_| ()).map_err(std::io::Error::from)
}

/// Relies on rmp::encode::write_array_len: the array header for `len`.
#[verifier::external_body]
pub(crate) fn put_array_len(buf: &mut Vec<u8>, len: u32) -> (r: Result<(), std::io::Error>)
    ensures
        r is Ok,
        final(buf)@ == old(buf)@ + array_header(len),
{
    rmp::encode::write_array_len(buf, len).map(|_| ()).map_err(std::io::Error::from)
}

/// Relies on rmp::encode::write_ext_meta: the extension header for `len` and type `ty`.
#[verifier::external_body]
pub(crate) fn put_ext_meta(buf: &mut Vec<u8>, len: u32, ty: i8) -> (r: Result<(), std::io::Error>)
    ensures
        r is Ok,
        final(buf)@ == old(buf)@ + ext_header(len, ty),
{
    rmp::encode::write_ext_meta(buf, len, ty).map(|_| ()).map_err(std::io::Error::from)
}

/// Relies on rmp::encode::write_nil: the nil marker.
#[verifier::external_body]
pub(crate) fn put_nil(buf: &mut Vec<u8>) -> (r: Result<(), std::io::Error>)
    ensures
        r is Ok,
        final(buf)@ == old(buf)@ + nil_enc(),
{
    rmp::encode::write_nil(buf)
}

/// Relies on rmp::encode::write_bool: the true or false marker.
#[verifier::external_body]
pub(crate) fn put_bool(buf: &mut Vec<u8>, v: bool) -> (r: Result<(), std::io::Error>)
    ensures
        r is Ok,
        final(buf)@ == old(buf)@ + bool_enc(v),
{
    rmp::encode::write_bool(buf, v)
}

/// Relies on rmp::encode::write_pfix: the value as a positive fixint; it panics from 128 on.
#[verifier::external_body]
pub(crate) fn put_pfix(buf: &mut Vec<u8>, v: u8) -> (r: Result<(), std::io::Error>)
    requires
        v < 128,
    ensures
        r is Ok,
        final(buf)@ == old(buf)@ + pfix_enc(v),
{
    rmp::encode::write_pfix(buf, v)
}

/// Relies on rmp::encode::write_nfix: the value as a negative fixint; it panics outside -32 to -1.
#[verifier::external_body]
pub(crate) fn put_nfix(buf: &mut Vec<u8>, v: i8) -> (r: Result<(), std::io::Error>)
    requires
        -32 <= v < 0,
    ensures
        r is Ok,
        final(buf)@ == old(buf)@ + nfix_enc(v),
{
    rmp::encode::write_nfix(buf, v)
}

/// Relies on rmp::encode::write_u8: the u8 marker, then the value big-endian.
#[verifier::external_body]
pub(crate) fn put_u8(buf: &mut Vec<u8>, v: u8) -> (r: Result<(), std::io::Error>)
    ensures
        r is Ok,
        final(buf)@ == old(buf)@ + u8_enc(v),
{
    rmp::encode::write_u8(buf, v).map_err(std::io::Error::from)
}

/// Relies on rmp::encode::write_u16: the u16 marker, then the value big-endian.
#[verifier::external_body]
pub(crate) fn put_u16(buf: &mut Vec<u8>, v: u16) -> (r: Result<(), std::io::Error>)
    ensures
        r is Ok,
        final(buf)@ == old(buf)@ + u16_enc(v),
{
    rmp::encode::write_u16(buf, v).map_err(std::io::Error::from)
}

/// Relies on rmp::encode::write_u32: the u32 marker, then the value big-endian.
#[verifier::external_body]
pub(crate) fn put_u32(buf: &mut Vec<u8>, v: u32) -> (r: Result<(), std::io::Error>)
    ensures
        r is Ok,
        final(buf)@ == old(buf)@ + u32_enc(v),
{
    rmp::encode::write_u32(buf, v).map_err(std::io::Error::from)
}

/// Relies on rmp::encode::write_u64: the u64 marker, then the value big-endian.
#[verifier::external_body]
pub(crate) fn put_u64(buf: &mut Vec<u8>, v: u64) -> (r: Result<(), std::io::Error>)
    ensures
        r is Ok,
        final(buf)@ == old(buf)@ + u64_enc(v),
{
    rmp::encode::write_u64(buf, v).map_err(std::io::Error::from)
}

/// Relies on rmp::encode::write_i8: the i8 marker, then the value big-endian.
#[verifier::external_body]
pub(crate) fn put_i8(buf: &mut Vec<u8>, v: i8) -> (r: Result<(), std::io::Error>)
    ensures
        r is Ok,
        final(buf)@ == old(buf)@ + i8_enc(v),
{
    rmp::encode::write_i8(buf, v).map_err(std::io::Error::from)
}

/// Relies on rmp::encode::write_i16: the i16 marker, then the value big-endian.
#[verifier::external_body]
pub(crate) fn put_i16(buf: &mut Vec<u8>, v: i16) -> (r: Result<(), std::io::Error>)
    ensures
        r is Ok,
        final(buf)@ == old(buf)@ + i16_enc(v),
{
    rmp::encode::write_i16(buf, v).map_err(std::io::Error::from)
}

/// Relies on rmp::encode::write_i32: the i32 marker, then the value big-endian.
#[verifier::external_body]
pub(crate) fn put_i32(buf: &mut Vec<u8>, v: i32) -> (r: Result<(), std::io::Error>)
    ensures
        r is Ok,
        final(buf)@ == old(buf)@ + i32_enc(v),
{
    rmp::encode::write_i32(buf, v).map_err(std::io::Error::from)
}

/// Relies on rmp::encode::write_i64: the i64 marker, then the value big-endian.
#[verifier::external_body]
pub(crate) fn put_i64(buf: &mut Vec<u8>, v: i64) -> (r: Result<(), std::io::Error>)
    ensures
        r is Ok,
        final(buf)@ == old(buf)@ + i64_enc(v),
{
    rmp::encode::write_i64(buf, v).map_err(std::io::Error::from)
}

/// Relies on rmp::encode::write_uint: the shortest unsigned form of the value.
#[verifier::external_body]
pub(crate) fn put_uint(buf: &mut Vec<u8>, v: u64) -> (r: Result<(), std::io::Error>)
    ensures
        r is Ok,
        final(buf)@ == old(buf)@ + uint_enc(v),
{
    rmp::encode::write_uint(buf, v).map(|_| ()).map_err(std::io::Error::from)
}

/// Relies on rmp::encode::write_sint: the shortest form of the value, unsigned forms for non-
/// negative values.
#[verifier::external_body]
pub(crate) fn put_sint(buf: &mut Vec<u8>, v: i64) -> (r: Result<(), std::io::Error>)
    ensures
        r is Ok,
        final(buf)@ == old(buf)@ + sint_enc(v),
{
    rmp::encode::write_sint(buf, v).map(|_| ()).map_err(std::io::Error::from)
}

} // verus!

//! Storage encoding of sorted index pages: a compact self-describing
//! serialization, optionally wrapped in a stream compressor. Readers
//! tolerate both compressed and uncompressed artifacts.

use vstd::prelude::*;

use std::io::Read;
use std::io::Write;

verus! {

/// The MessagePack encoding of an id list.
pub uninterp spec fn msgpack_ids_of(ids: Seq<i64>) -> Seq<u8>;

/// What MessagePack decoding reads out of a byte string, if anything.
pub uninterp spec fn msgpack_ids_decoded(bytes: Seq<u8>) -> Option<Seq<i64>>;

/// The zlib stream of a byte string at the default compression level.
pub uninterp spec fn zlib_of(bytes: Seq<u8>) -> Seq<u8>;

/// What zlib decompression reads out of a byte string, if anything.
pub uninterp spec fn zlib_decoded(bytes: Seq<u8>) -> Option<Seq<u8>>;

/// Relies on rmp_serde::to_vec: the MessagePack encoding of an id list
/// depends on the list alone, and rmp_serde::from_slice reads it back.
/// The length header of a sequence is written as 32 bits, so the
/// round trip is only promised for lists the header can count.
/// Writing into a fresh in-memory buffer cannot fail.
#[verifier::external_body]
fn encode_ids(ids: &Vec<i64>) -> (r: Vec<u8>)
    requires
        ids@.len() <= u32::MAX,
    ensures
        r@ == msgpack_ids_of(ids@),
        msgpack_ids_decoded(r@) == Some(ids@),
{
    rmp_serde::to_vec(ids).unwrap()
}

/// Relies on rmp_serde::from_slice: what a byte string decodes to depends
/// on the bytes alone.
#[verifier::external_body]
fn decode_ids(bytes: &[u8]) -> (r: Option<Vec<i64>>)
    ensures
        match r {
            Some(v) => msgpack_ids_decoded(bytes@) == Some(v@),
            None => msgpack_ids_decoded(bytes@) is None,
        },
{
    rmp_serde::from_slice::<Vec<i64>>(bytes).ok()
}

/// Relies on flate2's ZlibEncoder at the default level: the compressed
/// stream depends on the input alone, and ZlibDecoder reads it back.
/// Writing into a fresh in-memory buffer cannot fail.
#[verifier::external_body]
fn zlib_compress(bytes: &[u8]) -> (r: Vec<u8>)
    ensures
        r@ == zlib_of(bytes@),
        zlib_decoded(r@) == Some(bytes@),
{
    let mut enc = flate2::write::ZlibEncoder::new(Vec::new(), flate2::Compression::default());
    enc.write_all(bytes).unwrap();
    enc.finish().unwrap()
}

/// Relies on flate2's ZlibDecoder: what a byte string inflates to depends
/// on the bytes alone.
#[verifier::external_body]
fn zlib_decompress(bytes: &[u8]) -> (r: Option<Vec<u8>>)
    ensures
        match r {
            Some(v) => zlib_decoded(bytes@) == Some(v@),
            None => zlib_decoded(bytes@) is None,
        },
{
    let mut dec = flate2::read::ZlibDecoder::new(bytes);
    let mut out = Vec::new();
    match dec.read_to_end(&mut out) {
        Ok(_) => Some(out),
        Err(_) => None,
    }
}

/// Serializes one sorted index page, uncompressed. The bytes depend on
/// the ids alone, and decoding reads the ids back. A page never holds
/// more ids than the serialization's 32-bit length header can count.
pub fn encode_index_page(ids: &Vec<i64>) -> (r: Vec<u8>)
    requires
        ids@.len() <= u32::MAX,
    ensures
        r@ == msgpack_ids_of(ids@),
        msgpack_ids_decoded(r@) == Some(ids@),
{
    encode_ids(ids)
}

/// Serializes one sorted index page wrapped in the stream compressor.
/// The bytes depend on the ids alone, and inflating yields the
/// uncompressed serialization of the same ids. A page never holds more
/// ids than the serialization's 32-bit length header can count.
pub fn encode_index_page_compressed(ids: &Vec<i64>) -> (r: Vec<u8>)
    requires
        ids@.len() <= u32::MAX,
    ensures
        r@ == zlib_of(msgpack_ids_of(ids@)),
        zlib_decoded(r@) == Some(msgpack_ids_of(ids@)),
        msgpack_ids_decoded(msgpack_ids_of(ids@)) == Some(ids@),
{
    let plain = encode_ids(ids);
    zlib_compress(plain.as_slice())
}

/// Reads an index page back, tolerating both artifact forms: plain
/// decoding is tried first, inflating the bytes and decoding second.
pub fn parse_index_page(bytes: &Vec<u8>) -> (r: Option<Vec<i64>>)
    ensures
        match msgpack_ids_decoded(bytes@) {
            Some(ids) => r matches Some(v) && v@ == ids,
            None => match zlib_decoded(bytes@) {
                Some(m) => match msgpack_ids_decoded(m) {
                    Some(ids) => r matches Some(v) && v@ == ids,
                    None => r is None,
                },
                None => r is None,
            },
        },
{
    match decode_ids(bytes.as_slice()) {
        Some(v) => Some(v),
        None => match zlib_decompress(bytes.as_slice()) {
            Some(m) => decode_ids(m.as_slice()),
            None => None,
        },
    }
}

/// Emitting the same index page twice with identical input produces
/// byte-identical artifacts: the artifact bytes are a function of the ids
/// alone, in both the plain and the compressed form.
pub proof fn lemma_emit_deterministic(ids: Seq<i64>, compressed: bool, b1: Seq<u8>, b2: Seq<u8>)
    requires
        b1 == (if compressed {
            zlib_of(msgpack_ids_of(ids))
        } else {
            msgpack_ids_of(ids)
        }),
        b2 == (if compressed {
            zlib_of(msgpack_ids_of(ids))
        } else {
            msgpack_ids_of(ids)
        }),
    ensures
        b1 == b2,
{
}

} // verus!

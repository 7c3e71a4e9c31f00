//! The outside codecs that the recovery format is built on: CRC32, zstd and bincode.
//!
//! CRC32 is computed here and proved against its definition; each zstd and bincode
//! function makes one outside call, whose result the spec functions below name or
//! state, so that the format code can be stated exactly over them.

use std::io::Read;
use vstd::prelude::*;
use vstd::bytes::{
    lemma_auto_spec_u16_to_from_le_bytes, lemma_auto_spec_u32_to_from_le_bytes,
    lemma_auto_spec_u64_to_from_le_bytes, spec_u16_from_le_bytes, spec_u16_to_le_bytes,
    spec_u32_from_le_bytes, spec_u32_to_le_bytes, spec_u64_from_le_bytes, spec_u64_to_le_bytes,
};

verus! {

/// One step of the reflected CRC-32 shift register (polynomial 0xEDB88320): shift
/// right, folding in the polynomial when the bit shifted out is set.
pub open spec fn crc32_bit_step(register: u32) -> u32 {
    if register & 1 == 1 {
        (register >> 1) ^ 0xEDB88320u32
    } else {
        register >> 1
    }
}

/// `n` more steps of the shift register.
pub open spec fn crc32_shift(register: u32, n: nat) -> u32
    decreases n,
{
    if n == 0 {
        register
    } else {
        crc32_shift(crc32_bit_step(register), (n - 1) as nat)
    }
}

/// The CRC-32 register after `bytes`, starting from all ones.
pub open spec fn crc32_register(bytes: Seq<u8>) -> u32
    decreases bytes.len(),
{
    if bytes.len() == 0 {
        0xFFFF_FFFFu32
    } else {
        crc32_shift(crc32_register(bytes.drop_last()) ^ (bytes.last() as u32), 8)
    }
}

/// The IEEE CRC-32 checksum of `bytes`: the register after all bytes, inverted.
pub open spec fn crc32_checksum(bytes: Seq<u8>) -> u32 {
    crc32_register(bytes) ^ 0xFFFF_FFFFu32
}

/// What `zstd::stream::encode_all` gives for an in-memory `payload` at `level`: the
/// zstd frame, or `None` where the call reports an error.
pub uninterp spec fn zstd_compression(payload: Seq<u8>, level: i32) -> Option<Seq<u8>>;

/// The frame of a compression that succeeds (empty where it fails).
pub open spec fn zstd_compressed(payload: Seq<u8>, level: i32) -> Seq<u8> {
    match zstd_compression(payload, level) {
        Some(frame) => frame,
        None => Seq::empty(),
    }
}

/// What a `zstd::stream::read::Decoder` yields when it reads `stream` to its end:
/// the decompressed bytes, or `None` when the stream is not valid zstd data.
pub uninterp spec fn zstd_stream_content(stream: Seq<u8>) -> Option<Seq<u8>>;

/// The variable-length integer of bincode's standard configuration: one byte
/// below 251, else a marker (251, 252, 253) and the value in two, four or eight
/// little-endian bytes.
pub open spec fn bincode_varint(value: u64) -> Seq<u8> {
    if value < 251 {
        seq![value as u8]
    } else if value <= 0xFFFF {
        seq![251u8] + spec_u16_to_le_bytes(value as u16)
    } else if value <= 0xFFFF_FFFF {
        seq![252u8] + spec_u32_to_le_bytes(value as u32)
    } else {
        seq![253u8] + spec_u64_to_le_bytes(value)
    }
}

/// The bytes that `bincode::serde::encode_to_vec` writes, with the standard
/// configuration, for the triple `(prefix_len, removed_len, replacement)`: the two
/// numbers, the byte vector's length, then its bytes.
pub open spec fn bincode_delta_encoding(
    prefix_len: u64,
    removed_len: u64,
    replacement: Seq<u8>,
) -> Seq<u8> {
    bincode_varint(prefix_len) + bincode_varint(removed_len) + bincode_varint(
        replacement.len() as u64,
    ) + replacement
}

/// A variable-length integer read from the start of `bytes`, with the number of
/// bytes it took: the inverse of `bincode_varint`. The markers 254 and 255, and
/// input that ends early, are errors.
pub open spec fn bincode_varint_read(bytes: Seq<u8>) -> Option<(u64, nat)> {
    if bytes.len() == 0 {
        None
    } else if bytes[0] <= 250 {
        Some((bytes[0] as u64, 1))
    } else if bytes[0] == 251 {
        if bytes.len() >= 3 {
            Some((spec_u16_from_le_bytes(bytes.subrange(1, 3)) as u64, 3))
        } else {
            None
        }
    } else if bytes[0] == 252 {
        if bytes.len() >= 5 {
            Some((spec_u32_from_le_bytes(bytes.subrange(1, 5)) as u64, 5))
        } else {
            None
        }
    } else if bytes[0] == 253 {
        if bytes.len() >= 9 {
            Some((spec_u64_from_le_bytes(bytes.subrange(1, 9)), 9))
        } else {
            None
        }
    } else {
        None
    }
}

/// What `bincode::serde::decode_from_slice`, with the standard configuration, reads
/// from `bytes` as a `(u64, u64, Vec<u8>)` triple, with the number of bytes it
/// consumed: two integers, a length (taken as a `usize`), then that many bytes;
/// `None` when it reports an error. Bytes after the triple are left unread.
pub open spec fn bincode_delta_decoding(bytes: Seq<u8>) -> Option<(u64, u64, Seq<u8>, nat)> {
    match bincode_varint_read(bytes) {
        None => None,
        Some((prefix_len, a)) => match bincode_varint_read(bytes.skip(a as int)) {
            None => None,
            Some((removed_len, b)) => match bincode_varint_read(bytes.skip((a + b) as int)) {
                None => None,
                Some((length, c)) => {
                    let start = a + b + c;
                    let n = (length as usize) as nat;
                    if start + n <= bytes.len() {
                        Some((prefix_len, removed_len, bytes.subrange(start as int, (start + n) as int), start + n))
                    } else {
                        None
                    }
                },
            },
        },
    }
}

/// Reading a variable-length integer back gives it, whatever follows it.
proof fn lemma_varint_read_back(value: u64, rest: Seq<u8>)
    ensures
        bincode_varint_read(bincode_varint(value) + rest) == Some((value, bincode_varint(value).len())),
{
    lemma_auto_spec_u16_to_from_le_bytes();
    lemma_auto_spec_u32_to_from_le_bytes();
    lemma_auto_spec_u64_to_from_le_bytes();
    let bytes = bincode_varint(value) + rest;
    if value < 251 {
    } else if value <= 0xFFFF {
        assert(bytes.subrange(1, 3) =~= spec_u16_to_le_bytes(value as u16));
    } else if value <= 0xFFFF_FFFF {
        assert(bytes.subrange(1, 5) =~= spec_u32_to_le_bytes(value as u32));
    } else {
        assert(bytes.subrange(1, 9) =~= spec_u64_to_le_bytes(value));
    }
}

/// Decoding what the encoder wrote gives the triple back and consumes all of it.
pub proof fn lemma_delta_encoding_round_trip(prefix_len: u64, removed_len: u64, replacement: Seq<u8>)
    requires
        replacement.len() <= usize::MAX,
    ensures
        ({
            let bytes = bincode_delta_encoding(prefix_len, removed_len, replacement);
            bincode_delta_decoding(bytes) == Some((prefix_len, removed_len, replacement, bytes.len()))
        }),
{
    let p = bincode_varint(prefix_len);
    let r = bincode_varint(removed_len);
    let l = bincode_varint(replacement.len() as u64);
    let bytes = bincode_delta_encoding(prefix_len, removed_len, replacement);
    assert(bytes =~= p + (r + l + replacement));
    lemma_varint_read_back(prefix_len, r + l + replacement);
    assert(bytes.skip(p.len() as int) =~= r + (l + replacement));
    lemma_varint_read_back(removed_len, l + replacement);
    assert(bytes.skip((p.len() + r.len()) as int) =~= l + replacement);
    lemma_varint_read_back(replacement.len() as u64, replacement);
    let start = p.len() + r.len() + l.len();
    assert(bytes.subrange(start as int, (start + replacement.len()) as int) =~= replacement);
}

/// The stream decodes, and to at most `limit` bytes.
pub open spec fn zstd_content_fits(stream: Seq<u8>, limit: nat) -> bool {
    zstd_stream_content(stream) matches Some(content) && content.len() <= limit
}

/// One step of the shift register.
fn crc32_step(register: u32) -> (next: u32)
    ensures
        next == crc32_bit_step(register),
{
    if register & 1 == 1 {
        (register >> 1) ^ 0xEDB88320u32
    } else {
        register >> 1
    }
}

/// The IEEE CRC-32 checksum of `bytes`, as `crc32fast::hash` computes it, a byte and
/// then a bit at a time.
pub fn crc32(bytes: &[u8]) -> (checksum: u32)
    ensures
        checksum == crc32_checksum(bytes@),
{
    let mut register: u32 = 0xFFFF_FFFFu32;
    let mut i: usize = 0;
    while i < bytes.len()
        invariant
            i <= bytes@.len(),
            register == crc32_register(bytes@.take(i as int)),
        decreases bytes@.len() - i,
    {
        let ghost start = register ^ (bytes@[i as int] as u32);
        register = register ^ (bytes[i] as u32);
        let mut k: usize = 0;
        while k < 8
            invariant
                k <= 8,
                crc32_shift(register, (8 - k) as nat) == crc32_shift(start, 8),
            decreases 8 - k,
        {
            let next = crc32_step(register);
            assert(crc32_shift(register, (8 - k) as nat) == crc32_shift(next, (8 - k - 1) as nat));
            register = next;
            k = k + 1;
        }
        assert(bytes@.take(i as int + 1).drop_last() =~= bytes@.take(i as int));
        i = i + 1;
    }
    assert(bytes@.take(i as int) =~= bytes@);
    register ^ 0xFFFF_FFFFu32
}

/// Calls `zstd::stream::encode_all` on an in-memory payload.
///
/// The contract names the whole outcome, frame or failure, as a function of the
/// payload and the level: the call reads a byte slice and writes into a growing
/// `Vec`, so neither side brings an error of its own, and whether the library
/// reports one depends on what it is given. It also states the one fact that the
/// crate documents about the frame: decoding it gives the payload back. The text of
/// a reported error is not stated.
#[verifier::external_body]
pub(crate) fn zstd_compress(payload: &[u8], level: i32) -> (res: Result<Vec<u8>, String>)
    ensures
        match zstd_compression(payload@, level) {
            Some(frame) => res matches Ok(out) && out@ == frame,
            None => res is Err,
        },
        res matches Ok(frame) ==> zstd_stream_content(frame@) == Some(payload@),
{
    zstd::stream::encode_all(payload, level).map_err(|error| format!("{error}"))
}

/// Reads at most `read_limit` decompressed bytes from a `zstd::stream::read::Decoder`
/// over `stream`.
///
/// When fewer than `read_limit` bytes come out, they are the whole content of the
/// stream; when the whole content is shorter than `read_limit`, exactly it comes out.
/// Which error, or which prefix, comes out of an invalid or longer stream is not stated.
#[verifier::external_body]
pub(crate) fn zstd_decompress_bounded(stream: &[u8], read_limit: u64) -> (res: Result<Vec<u8>, String>)
    requires
        0 < read_limit,
    ensures
        res matches Ok(out) ==> out@.len() <= read_limit,
        res matches Ok(out) ==> (out@.len() < read_limit ==> zstd_stream_content(stream@) == Some(
            out@,
        )),
        res matches Ok(out) ==> (out@.len() == read_limit ==> !zstd_content_fits(
            stream@,
            (read_limit - 1) as nat,
        )),
        res is Err ==> !zstd_content_fits(stream@, (read_limit - 1) as nat),
{
    let decoder = zstd::stream::read::Decoder::new(stream).map_err(|error| format!("{error}"))?;
    let mut out = Vec::new();
    decoder.take(read_limit).read_to_end(&mut out).map_err(|error| format!("{error}"))?;
    Ok(out)
}

/// Calls `bincode::serde::encode_to_vec` with the standard configuration on the
/// triple that makes up a binary delta.
///
/// The call succeeds: the
/// standard configuration has no size limit, the writer is a growing `Vec`, and two
/// integers and a byte vector of known length serialize without error.
#[verifier::external_body]
pub(crate) fn bincode_encode_delta(prefix_len: u64, removed_len: u64, replacement: &Vec<u8>) -> (res:
    Result<Vec<u8>, String>)
    ensures
        res is Ok,
        res matches Ok(bytes) ==> bytes@ == bincode_delta_encoding(prefix_len, removed_len, replacement@),
{
    bincode::serde::encode_to_vec(&(prefix_len, removed_len, replacement), bincode::config::standard())
        .map_err(|error| format!("{error}"))
}

/// Calls `bincode::serde::decode_from_slice` with the standard configuration,
/// reading a `(u64, u64, Vec<u8>)` triple and the number of bytes consumed.
#[verifier::external_body]
pub(crate) fn bincode_decode_delta(bytes: &[u8]) -> (res: Result<(u64, u64, Vec<u8>, usize), String>)
    ensures
        res matches Ok((prefix_len, removed_len, replacement, consumed)) ==> bincode_delta_decoding(
            bytes@,
        ) == Some((prefix_len, removed_len, replacement@, consumed as nat)),
        res is Err ==> bincode_delta_decoding(bytes@) is None,
{
    let ((prefix_len, removed_len, replacement), consumed): ((u64, u64, Vec<u8>), usize) =
        bincode::serde::decode_from_slice(bytes, bincode::config::standard())
        .map_err(|error| format!("{error}"))?;
    Ok((prefix_len, removed_len, replacement, consumed))
}

} // verus!

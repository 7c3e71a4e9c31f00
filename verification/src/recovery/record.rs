//! Recovery records: a fixed 40-byte header (magic, version, kind, sequence, lengths,
//! CRC32 of the payload) followed by the zstd-compressed payload.

use vstd::prelude::*;
use vstd::bytes::*;
use vstd::slice::{slice_subrange, slice_to_vec};
use super::codec::{
    crc32, crc32_checksum, zstd_compress, zstd_compressed, zstd_compression,
    zstd_decompress_bounded, zstd_stream_content,
};
use crate::text::{decimal, push_decimal, push_str, string_from_chars};

verus! {

/// Format version written into, and required of, every record header.
pub const FORMAT_VERSION: u16 = 1;
/// Length of the fixed record header.
pub const HEADER_SIZE: usize = 40;
/// Upper bound on a record's uncompressed payload and on a delta's result.
pub const MAX_UNCOMPRESSED_BYTES: usize = 67108864;
/// Upper bound on a record's compressed payload.
pub const MAX_COMPRESSED_BYTES: usize = 67108864;
/// zstd level used for record payloads.
pub const ZSTD_LEVEL: i32 = 3;

/// Everything that the recovery format can reject, and the outside failures it reports.
#[derive(Debug, Clone, PartialEq, Eq)]
pub enum RecoveryError {
    PayloadTooLarge,
    Compression(String),
    CompressedTooLarge,
    RecordTooShort,
    BadMagic,
    UnsupportedVersion(u16),
    UnknownRecordKind(u8),
    PayloadLengthOutOfRange,
    CompressedLengthOutOfRange,
    RecordTooLarge,
    RecordSizeMismatch,
    Decompression(String),
    PayloadLengthMismatch,
    ChecksumMismatch,
    DeltaPrefixOutOfRange,
    DeltaRemovedOutOfRange,
    DeltaOutOfBounds,
    DeltaTooLarge,
    Serialization(String),
    Deserialization(String),
    TrailingData,
    NotADelta,
    SequenceGap { expected: u64, actual: u64 },
    MissingBase,
    JournalRecordTooLong,
    JournalLengthOverflow,
    SequenceExhausted,
    InvalidState(String),
    Io(String),
}

/// The diagnostic text of a recovery failure.
pub open spec fn recovery_error_text(error: RecoveryError) -> Seq<char> {
    match error {
        RecoveryError::PayloadTooLarge => "恢复 payload 超过 64MB 上限"@,
        RecoveryError::Compression(detail) => "zstd 压缩恢复数据失败: "@ + detail@,
        RecoveryError::CompressedTooLarge => "压缩恢复 payload 超过 64MB 上限"@,
        RecoveryError::RecordTooShort => "恢复记录短于固定头"@,
        RecoveryError::BadMagic => "恢复记录魔数不匹配"@,
        RecoveryError::UnsupportedVersion(version) => "恢复格式版本 "@ + decimal(version as nat)
            + " 不受支持，当前版本为 "@ + decimal(FORMAT_VERSION as nat),
        RecoveryError::UnknownRecordKind(kind) => "恢复记录类型 "@ + decimal(kind as nat)
            + " 不受支持"@,
        RecoveryError::PayloadLengthOutOfRange => "恢复原始长度超出平台范围"@,
        RecoveryError::CompressedLengthOutOfRange => "恢复压缩长度超出平台范围"@,
        RecoveryError::RecordTooLarge => "恢复记录长度超过 64MB 上限"@,
        RecoveryError::RecordSizeMismatch => "恢复记录压缩长度与文件大小不一致"@,
        RecoveryError::Decompression(detail) => "zstd 解压恢复数据失败: "@ + detail@,
        RecoveryError::PayloadLengthMismatch => "恢复记录解压长度不匹配"@,
        RecoveryError::ChecksumMismatch => "恢复记录 CRC32 校验失败"@,
        RecoveryError::DeltaPrefixOutOfRange => "恢复增量 prefix 超出平台范围"@,
        RecoveryError::DeltaRemovedOutOfRange => "恢复增量 removed length 超出平台范围"@,
        RecoveryError::DeltaOutOfBounds => "恢复增量引用了状态边界之外的字节"@,
        RecoveryError::DeltaTooLarge => "恢复增量结果超过 64MB 上限"@,
        RecoveryError::Serialization(detail) => "序列化恢复数据失败: "@ + detail@,
        RecoveryError::Deserialization(detail) => "反序列化恢复数据失败: "@ + detail@,
        RecoveryError::TrailingData => "恢复 payload 含有尾随数据"@,
        RecoveryError::NotADelta => "journal 中出现非增量记录"@,
        RecoveryError::SequenceGap { expected, actual } => "journal 序号不连续: 期望 "@ + decimal(
            expected as nat,
        ) + ", 实际 "@ + decimal(actual as nat),
        RecoveryError::MissingBase => "增量记录缺少基础检查点"@,
        RecoveryError::JournalRecordTooLong => "journal record 长度超过上限"@,
        RecoveryError::JournalLengthOverflow => "journal record 长度溢出"@,
        RecoveryError::SequenceExhausted => "恢复记录序号耗尽"@,
        RecoveryError::InvalidState(detail) => detail@,
        RecoveryError::Io(detail) => detail@,
    }
}

impl RecoveryError {
    /// The failure as diagnostic text.
    pub fn message(&self) -> (text: String)
        ensures
            text@ == recovery_error_text(*self),
    {
        let mut chars: Vec<char> = Vec::new();
        match self {
            RecoveryError::PayloadTooLarge => push_str(&mut chars, "恢复 payload 超过 64MB 上限"),
            RecoveryError::Compression(detail) => {
                push_str(&mut chars, "zstd 压缩恢复数据失败: ");
                push_str(&mut chars, detail.as_str());
            },
            RecoveryError::CompressedTooLarge => push_str(&mut chars, "压缩恢复 payload 超过 64MB 上限"),
            RecoveryError::RecordTooShort => push_str(&mut chars, "恢复记录短于固定头"),
            RecoveryError::BadMagic => push_str(&mut chars, "恢复记录魔数不匹配"),
            RecoveryError::UnsupportedVersion(version) => {
                push_str(&mut chars, "恢复格式版本 ");
                push_decimal(&mut chars, *version as u128);
                push_str(&mut chars, " 不受支持，当前版本为 ");
                push_decimal(&mut chars, FORMAT_VERSION as u128);
            },
            RecoveryError::UnknownRecordKind(kind) => {
                push_str(&mut chars, "恢复记录类型 ");
                push_decimal(&mut chars, *kind as u128);
                push_str(&mut chars, " 不受支持");
            },
            RecoveryError::PayloadLengthOutOfRange => push_str(&mut chars, "恢复原始长度超出平台范围"),
            RecoveryError::CompressedLengthOutOfRange => push_str(&mut chars, "恢复压缩长度超出平台范围"),
            RecoveryError::RecordTooLarge => push_str(&mut chars, "恢复记录长度超过 64MB 上限"),
            RecoveryError::RecordSizeMismatch => push_str(&mut chars, "恢复记录压缩长度与文件大小不一致"),
            RecoveryError::Decompression(detail) => {
                push_str(&mut chars, "zstd 解压恢复数据失败: ");
                push_str(&mut chars, detail.as_str());
            },
            RecoveryError::PayloadLengthMismatch => push_str(&mut chars, "恢复记录解压长度不匹配"),
            RecoveryError::ChecksumMismatch => push_str(&mut chars, "恢复记录 CRC32 校验失败"),
            RecoveryError::DeltaPrefixOutOfRange => push_str(&mut chars, "恢复增量 prefix 超出平台范围"),
            RecoveryError::DeltaRemovedOutOfRange => push_str(
                &mut chars,
                "恢复增量 removed length 超出平台范围",
            ),
            RecoveryError::DeltaOutOfBounds => push_str(&mut chars, "恢复增量引用了状态边界之外的字节"),
            RecoveryError::DeltaTooLarge => push_str(&mut chars, "恢复增量结果超过 64MB 上限"),
            RecoveryError::Serialization(detail) => {
                push_str(&mut chars, "序列化恢复数据失败: ");
                push_str(&mut chars, detail.as_str());
            },
            RecoveryError::Deserialization(detail) => {
                push_str(&mut chars, "反序列化恢复数据失败: ");
                push_str(&mut chars, detail.as_str());
            },
            RecoveryError::TrailingData => push_str(&mut chars, "恢复 payload 含有尾随数据"),
            RecoveryError::NotADelta => push_str(&mut chars, "journal 中出现非增量记录"),
            RecoveryError::SequenceGap { expected, actual } => {
                push_str(&mut chars, "journal 序号不连续: 期望 ");
                push_decimal(&mut chars, *expected as u128);
                push_str(&mut chars, ", 实际 ");
                push_decimal(&mut chars, *actual as u128);
            },
            RecoveryError::MissingBase => push_str(&mut chars, "增量记录缺少基础检查点"),
            RecoveryError::JournalRecordTooLong => push_str(&mut chars, "journal record 长度超过上限"),
            RecoveryError::JournalLengthOverflow => push_str(&mut chars, "journal record 长度溢出"),
            RecoveryError::SequenceExhausted => push_str(&mut chars, "恢复记录序号耗尽"),
            RecoveryError::InvalidState(detail) => push_str(&mut chars, detail.as_str()),
            RecoveryError::Io(detail) => push_str(&mut chars, detail.as_str()),
        }
        assert(chars@ =~= recovery_error_text(*self));
        string_from_chars(&chars)
    }
}

/// The two kinds of records: full checkpoints and journal deltas.
#[derive(Debug, Clone, Copy, PartialEq, Eq, Structural)]
pub enum RecordKind {
    Checkpoint,
    Delta,
}

/// The tag byte that stands for a record kind on disk.
pub open spec fn kind_byte(kind: RecordKind) -> u8 {
    match kind {
        RecordKind::Checkpoint => 1u8,
        RecordKind::Delta => 2u8,
    }
}

/// The record kind a tag byte stands for.
pub open spec fn spec_kind_from_byte(value: u8) -> Result<RecordKind, RecoveryError> {
    if value == 1 {
        Ok(RecordKind::Checkpoint)
    } else if value == 2 {
        Ok(RecordKind::Delta)
    } else {
        Err(RecoveryError::UnknownRecordKind(value))
    }
}

impl RecordKind {
    /// Restores a supported record kind from its on-disk tag.
    pub fn from_byte(value: u8) -> (res: Result<RecordKind, RecoveryError>)
        ensures
            res == spec_kind_from_byte(value),
    {
        match value {
            1 => Ok(RecordKind::Checkpoint),
            2 => Ok(RecordKind::Delta),
            _ => Err(RecoveryError::UnknownRecordKind(value)),
        }
    }

    /// Returns the on-disk tag of the kind.
    pub fn to_byte(self) -> (value: u8)
        ensures
            value == kind_byte(self),
    {
        match self {
            RecordKind::Checkpoint => 1,
            RecordKind::Delta => 2,
        }
    }
}

/// A record whose header, length, payload and checksum all checked out.
#[derive(Debug, Clone, PartialEq, Eq)]
pub struct DecodedRecord {
    pub kind: RecordKind,
    pub sequence: u64,
    pub payload: Vec<u8>,
}

/// The record magic `SINKREC\0`.
pub open spec fn record_magic() -> Seq<u8> {
    seq![0x53u8, 0x49u8, 0x4Eu8, 0x4Bu8, 0x52u8, 0x45u8, 0x43u8, 0x00u8]
}

/// The 40 header bytes of a record.
pub open spec fn spec_record_header(
    kind: RecordKind,
    sequence: u64,
    payload_len: u64,
    compressed_len: u64,
    checksum: u32,
) -> Seq<u8> {
    record_magic() + spec_u16_to_le_bytes(FORMAT_VERSION) + seq![kind_byte(kind), 0u8]
        + spec_u64_to_le_bytes(sequence) + spec_u64_to_le_bytes(payload_len)
        + spec_u64_to_le_bytes(compressed_len) + spec_u32_to_le_bytes(checksum)
}

/// The complete bytes of the record that holds `payload`.
pub open spec fn spec_record_bytes(kind: RecordKind, sequence: u64, payload: Seq<u8>) -> Seq<u8> {
    let compressed = zstd_compressed(payload, ZSTD_LEVEL);
    spec_record_header(
        kind,
        sequence,
        payload.len() as u64,
        compressed.len() as u64,
        crc32_checksum(payload),
    ) + compressed
}

/// What reading `record` yields: the kind, sequence and payload, or the first check
/// that fails. A payload that cannot be decompressed to the announced length counts
/// as `PayloadLengthMismatch`.
pub open spec fn spec_decode_record(record: Seq<u8>) -> Result<
    (RecordKind, u64, Seq<u8>),
    RecoveryError,
> {
    if record.len() < HEADER_SIZE {
        Err(RecoveryError::RecordTooShort)
    } else if record.subrange(0, 8) != record_magic() {
        Err(RecoveryError::BadMagic)
    } else if spec_u16_from_le_bytes(record.subrange(8, 10)) != FORMAT_VERSION {
        Err(RecoveryError::UnsupportedVersion(spec_u16_from_le_bytes(record.subrange(8, 10))))
    } else if spec_kind_from_byte(record[10]) is Err {
        Err(RecoveryError::UnknownRecordKind(record[10]))
    } else {
        let kind = spec_kind_from_byte(record[10])->Ok_0;
        let sequence = spec_u64_from_le_bytes(record.subrange(12, 20));
        let payload_len = spec_u64_from_le_bytes(record.subrange(20, 28));
        let compressed_len = spec_u64_from_le_bytes(record.subrange(28, 36));
        let checksum = spec_u32_from_le_bytes(record.subrange(36, 40));
        if payload_len > usize::MAX {
            Err(RecoveryError::PayloadLengthOutOfRange)
        } else if compressed_len > usize::MAX {
            Err(RecoveryError::CompressedLengthOutOfRange)
        } else if payload_len > MAX_UNCOMPRESSED_BYTES || compressed_len > MAX_COMPRESSED_BYTES {
            Err(RecoveryError::RecordTooLarge)
        } else if record.len() != HEADER_SIZE + compressed_len {
            Err(RecoveryError::RecordSizeMismatch)
        } else {
            match zstd_stream_content(record.subrange(HEADER_SIZE as int, record.len() as int)) {
                Some(payload) => if payload.len() != payload_len {
                    Err(RecoveryError::PayloadLengthMismatch)
                } else if crc32_checksum(payload) != checksum {
                    Err(RecoveryError::ChecksumMismatch)
                } else {
                    Ok((kind, sequence, payload))
                },
                None => Err(RecoveryError::PayloadLengthMismatch),
            }
        }
    }
}

/// `actual` is the error that a check reports where the specification expects
/// `expected`: equal, except where the text of an outside error takes part.
pub open spec fn fault_matches(actual: RecoveryError, expected: RecoveryError) -> bool {
    match expected {
        RecoveryError::Deserialization(_) => actual is Deserialization,
        RecoveryError::PayloadLengthMismatch => actual is PayloadLengthMismatch
            || actual is Decompression,
        RecoveryError::Compression(_) => actual is Compression,
        _ => actual == expected,
    }
}

/// Appends `bytes` to `out`.
fn append_bytes(out: &mut Vec<u8>, bytes: &[u8])
    ensures
        final(out)@ == old(out)@ + bytes@,
{
    let mut tail = slice_to_vec(bytes);
    out.append(&mut tail);
}

/// What encoding `payload` as a record gives: the payload limit first, then a
/// failed compression (`Compression`, whose text is the zstd library's), then the
/// compressed limit, and otherwise the record bytes.
pub open spec fn spec_encode_record(kind: RecordKind, sequence: u64, payload: Seq<u8>) -> Result<
    Seq<u8>,
    RecoveryError,
> {
    if payload.len() > MAX_UNCOMPRESSED_BYTES {
        Err(RecoveryError::PayloadTooLarge)
    } else {
        match zstd_compression(payload, ZSTD_LEVEL) {
            None => Err(RecoveryError::Compression(vstd::pervasive::arbitrary())),
            Some(frame) => if frame.len() > MAX_COMPRESSED_BYTES {
                Err(RecoveryError::CompressedTooLarge)
            } else {
                Ok(spec_record_bytes(kind, sequence, payload))
            },
        }
    }
}

/// The record bytes around an already compressed payload.
pub open spec fn spec_framed_record(
    kind: RecordKind,
    sequence: u64,
    payload: Seq<u8>,
    compressed: Seq<u8>,
) -> Seq<u8> {
    spec_record_header(
        kind,
        sequence,
        payload.len() as u64,
        compressed.len() as u64,
        crc32_checksum(payload),
    ) + compressed
}

/// Frames a payload and the outcome of compressing it as a record: the payload
/// limit first, then a failed compression as `Compression`, then the compressed
/// limit, and otherwise the header, CRC32 and compressed bytes.
pub fn frame_record(
    kind: RecordKind,
    sequence: u64,
    payload: &[u8],
    compressed: Result<Vec<u8>, String>,
) -> (res: Result<Vec<u8>, RecoveryError>)
    ensures
        payload@.len() > MAX_UNCOMPRESSED_BYTES ==> res == Err::<Vec<u8>, RecoveryError>(
            RecoveryError::PayloadTooLarge,
        ),
        payload@.len() <= MAX_UNCOMPRESSED_BYTES ==> match compressed {
            Err(message) => res == Err::<Vec<u8>, RecoveryError>(
                RecoveryError::Compression(message),
            ),
            Ok(frame) => if frame@.len() > MAX_COMPRESSED_BYTES {
                res == Err::<Vec<u8>, RecoveryError>(RecoveryError::CompressedTooLarge)
            } else {
                res matches Ok(record) && record@ == spec_framed_record(
                    kind,
                    sequence,
                    payload@,
                    frame@,
                )
            },
        },
{
    if payload.len() > MAX_UNCOMPRESSED_BYTES {
        return Err(RecoveryError::PayloadTooLarge);
    }
    let compressed = match compressed {
        Ok(compressed) => compressed,
        Err(message) => return Err(RecoveryError::Compression(message)),
    };
    if compressed.len() > MAX_COMPRESSED_BYTES {
        return Err(RecoveryError::CompressedTooLarge);
    }
    let checksum = crc32(payload);
    let mut record: Vec<u8> = vec![0x53u8, 0x49u8, 0x4Eu8, 0x4Bu8, 0x52u8, 0x45u8, 0x43u8, 0x00u8];
    let version = u16_to_le_bytes(FORMAT_VERSION);
    append_bytes(&mut record, version.as_slice());
    record.push(kind.to_byte());
    record.push(0u8);
    let sequence_bytes = u64_to_le_bytes(sequence);
    append_bytes(&mut record, sequence_bytes.as_slice());
    let payload_len_bytes = u64_to_le_bytes(payload.len() as u64);
    append_bytes(&mut record, payload_len_bytes.as_slice());
    let compressed_len_bytes = u64_to_le_bytes(compressed.len() as u64);
    append_bytes(&mut record, compressed_len_bytes.as_slice());
    let checksum_bytes = u32_to_le_bytes(checksum);
    append_bytes(&mut record, checksum_bytes.as_slice());
    append_bytes(&mut record, compressed.as_slice());
    assert(record@ =~= spec_framed_record(kind, sequence, payload@, compressed@));
    Ok(record)
}

/// Encodes a payload as a record with the fixed header, CRC32 and zstd: exactly
/// `spec_encode_record`, a failed compression carrying the library's message.
pub fn encode_record(kind: RecordKind, sequence: u64, payload: &[u8]) -> (res: Result<
    Vec<u8>,
    RecoveryError,
>)
    ensures
        match res {
            Ok(record) => {
                &&& spec_encode_record(kind, sequence, payload@) == Ok::<Seq<u8>, RecoveryError>(
                    record@,
                )
                &&& zstd_stream_content(zstd_compressed(payload@, ZSTD_LEVEL)) == Some(payload@)
            },
            Err(e) => spec_encode_record(kind, sequence, payload@) matches Err(expected)
                && fault_matches(e, expected),
        },
{
    if payload.len() > MAX_UNCOMPRESSED_BYTES {
        return Err(RecoveryError::PayloadTooLarge);
    }
    let compressed = zstd_compress(payload, ZSTD_LEVEL);
    frame_record(kind, sequence, payload, compressed)
}

/// Checks a record's header, version, lengths, zstd payload and CRC32, and returns
/// its kind, sequence and payload.
pub fn decode_record(record: &[u8]) -> (res: Result<DecodedRecord, RecoveryError>)
    ensures
        match res {
            Ok(decoded) => spec_decode_record(record@) == Ok::<
                (RecordKind, u64, Seq<u8>),
                RecoveryError,
            >((decoded.kind, decoded.sequence, decoded.payload@)),
            Err(e) => spec_decode_record(record@) matches Err(expected) && fault_matches(
                e,
                expected,
            ),
        },
{
    if record.len() < HEADER_SIZE {
        return Err(RecoveryError::RecordTooShort);
    }
    let magic: Vec<u8> = vec![0x53u8, 0x49u8, 0x4Eu8, 0x4Bu8, 0x52u8, 0x45u8, 0x43u8, 0x00u8];
    let mut index: usize = 0;
    while index < 8
        invariant
            record@.len() >= HEADER_SIZE,
            magic@ == record_magic(),
            0 <= index <= 8,
            forall|i: int| 0 <= i < index ==> record@[i] == magic@[i],
        decreases 8 - index,
    {
        if record[index] != magic[index] {
            assert(record@.subrange(0, 8)[index as int] != record_magic()[index as int]);
            return Err(RecoveryError::BadMagic);
        }
        index = index + 1;
    }
    assert(record@.subrange(0, 8) =~= record_magic());
    let version = u16_from_le_bytes(slice_subrange(record, 8, 10));
    if version != FORMAT_VERSION {
        return Err(RecoveryError::UnsupportedVersion(version));
    }
    let kind = match RecordKind::from_byte(record[10]) {
        Ok(kind) => kind,
        Err(error) => return Err(error),
    };
    let sequence = u64_from_le_bytes(slice_subrange(record, 12, 20));
    let payload_len = u64_from_le_bytes(slice_subrange(record, 20, 28));
    let compressed_len = u64_from_le_bytes(slice_subrange(record, 28, 36));
    let checksum = u32_from_le_bytes(slice_subrange(record, 36, 40));
    if payload_len > usize::MAX as u64 {
        return Err(RecoveryError::PayloadLengthOutOfRange);
    }
    if compressed_len > usize::MAX as u64 {
        return Err(RecoveryError::CompressedLengthOutOfRange);
    }
    if payload_len > MAX_UNCOMPRESSED_BYTES as u64 || compressed_len > MAX_COMPRESSED_BYTES as u64 {
        return Err(RecoveryError::RecordTooLarge);
    }
    if record.len() != HEADER_SIZE + compressed_len as usize {
        return Err(RecoveryError::RecordSizeMismatch);
    }
    let stream = slice_subrange(record, HEADER_SIZE, record.len());
    let read_limit: u64 = MAX_UNCOMPRESSED_BYTES as u64 + 1;
    let payload = match zstd_decompress_bounded(stream, read_limit) {
        Ok(payload) => payload,
        Err(message) => return Err(RecoveryError::Decompression(message)),
    };
    if payload.len() as u64 != payload_len {
        return Err(RecoveryError::PayloadLengthMismatch);
    }
    if crc32(payload.as_slice()) != checksum {
        return Err(RecoveryError::ChecksumMismatch);
    }
    Ok(DecodedRecord { kind, sequence, payload })
}

/// A record decodes to exactly the kind, sequence and payload it was encoded with.
pub proof fn lemma_record_round_trip(kind: RecordKind, sequence: u64, payload: Seq<u8>)
    requires
        payload.len() <= MAX_UNCOMPRESSED_BYTES,
        zstd_compressed(payload, ZSTD_LEVEL).len() <= MAX_COMPRESSED_BYTES,
        zstd_stream_content(zstd_compressed(payload, ZSTD_LEVEL)) == Some(payload),
    ensures
        spec_decode_record(spec_record_bytes(kind, sequence, payload)) == Ok::<
            (RecordKind, u64, Seq<u8>),
            RecoveryError,
        >((kind, sequence, payload)),
{
    lemma_auto_spec_u16_to_from_le_bytes();
    lemma_auto_spec_u32_to_from_le_bytes();
    lemma_auto_spec_u64_to_from_le_bytes();
    let compressed = zstd_compressed(payload, ZSTD_LEVEL);
    let r = spec_record_bytes(kind, sequence, payload);
    let v = spec_u16_to_le_bytes(FORMAT_VERSION);
    let s = spec_u64_to_le_bytes(sequence);
    let pl = spec_u64_to_le_bytes(payload.len() as u64);
    let cl = spec_u64_to_le_bytes(compressed.len() as u64);
    let c = spec_u32_to_le_bytes(crc32_checksum(payload));
    assert(r.subrange(0, 8) =~= record_magic());
    assert(r.subrange(8, 10) =~= v);
    assert(r[10] == kind_byte(kind));
    assert(r.subrange(12, 20) =~= s);
    assert(r.subrange(20, 28) =~= pl);
    assert(r.subrange(28, 36) =~= cl);
    assert(r.subrange(36, 40) =~= c);
    assert(r.subrange(40, r.len() as int) =~= compressed);
}

} // verus!

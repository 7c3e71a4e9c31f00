//! The recovery store's state machine: which bytes the last persisted state has,
//! under which sequence number, and how checkpoint and journal bytes restore it.
//!
//! The store decides what to write and checks what it reads; the files themselves
//! are read and written by the caller.

use vstd::prelude::*;
use vstd::bytes::{spec_u64_from_le_bytes, spec_u64_to_le_bytes, u64_from_le_bytes, u64_to_le_bytes, lemma_auto_spec_u64_to_from_le_bytes};
use vstd::slice::{slice_subrange, slice_to_vec};
use super::codec::{
    lemma_delta_encoding_round_trip,
    bincode_decode_delta, bincode_delta_decoding, bincode_delta_encoding, bincode_encode_delta,
    zstd_compressed, zstd_compression, zstd_stream_content,
};
use super::delta::{spec_apply_delta, spec_minimal_delta, BinaryDelta, lemma_delta_round_trip};
use super::record::{
    decode_record, encode_record, fault_matches, spec_encode_record, lemma_record_round_trip, spec_decode_record,
    spec_record_bytes, DecodedRecord, RecordKind, RecoveryError, HEADER_SIZE, MAX_COMPRESSED_BYTES,
    MAX_UNCOMPRESSED_BYTES, ZSTD_LEVEL,
};

verus! {

/// Length of the little-endian length prefix in front of each journal record.
pub const JOURNAL_LENGTH_SIZE: usize = 8;
/// Number of journal deltas after which the next persisted state is a checkpoint.
pub const CHECKPOINT_INTERVAL: usize = 32;

/// The abstract state of a recovery store.
pub struct StoreView {
    pub state: Option<Seq<u8>>,
    pub sequence: u64,
    pub deltas_since_checkpoint: usize,
}

/// The recovery file state machine, used by the background saving thread only.
pub struct RecoveryStore {
    state_bytes: Option<Vec<u8>>,
    sequence: u64,
    deltas_since_checkpoint: usize,
}

impl View for RecoveryStore {
    type V = StoreView;

    closed spec fn view(&self) -> StoreView {
        StoreView {
            state: match self.state_bytes {
                Some(bytes) => Some(bytes@),
                None => None,
            },
            sequence: self.sequence,
            deltas_since_checkpoint: self.deltas_since_checkpoint,
        }
    }
}

/// The empty store: no state, sequence zero.
pub open spec fn empty_view() -> StoreView {
    StoreView { state: None, sequence: 0, deltas_since_checkpoint: 0 }
}

/// The delta counter after one more delta.
pub open spec fn bump(count: usize) -> usize {
    if count < usize::MAX {
        (count + 1) as usize
    } else {
        count
    }
}

/// What applying one complete journal record to the store yields.
pub open spec fn spec_apply_journal_record(st: StoreView, bytes: Seq<u8>) -> Result<
    StoreView,
    RecoveryError,
> {
    match spec_decode_record(bytes) {
        Err(e) => Err(e),
        Ok((kind, sequence, payload)) => if kind != RecordKind::Delta {
            Err(RecoveryError::NotADelta)
        } else if sequence <= st.sequence {
            Ok(st)
        } else if sequence != st.sequence + 1 {
            Err(RecoveryError::SequenceGap { expected: (st.sequence + 1) as u64, actual: sequence })
        } else {
            match bincode_delta_decoding(payload) {
                None => Err(RecoveryError::Deserialization(arbitrary())),
                Some((prefix_len, removed_len, replacement, consumed)) => if consumed
                    != payload.len() {
                    Err(RecoveryError::TrailingData)
                } else {
                    match st.state {
                        None => Err(RecoveryError::MissingBase),
                        Some(old) => match spec_apply_delta(
                            prefix_len,
                            removed_len,
                            replacement,
                            old,
                        ) {
                            Err(e) => Err(e),
                            Ok(next) => Ok(
                                StoreView {
                                    state: Some(next),
                                    sequence,
                                    deltas_since_checkpoint: bump(st.deltas_since_checkpoint),
                                },
                            ),
                        },
                    }
                },
            }
        },
    }
}

/// How replaying a journal ended.
#[derive(Debug, Clone, PartialEq, Eq)]
pub enum JournalOutcome {
    /// Every record applied.
    Complete,
    /// A crash cut the last record short; the valid records end at `valid_end`.
    IncompleteTail { valid_end: usize },
    /// A complete record failed its checks; the records before it were applied.
    Corrupt { error: RecoveryError },
}

/// Replays the journal from byte `cursor` on: the resulting store and how it ended.
pub open spec fn spec_replay(st: StoreView, journal: Seq<u8>, cursor: nat) -> (
    StoreView,
    JournalOutcome,
)
    decreases journal.len() - cursor,
{
    if cursor >= journal.len() {
        (st, JournalOutcome::Complete)
    } else if journal.len() - cursor < JOURNAL_LENGTH_SIZE {
        (st, JournalOutcome::IncompleteTail { valid_end: cursor as usize })
    } else {
        let length = spec_u64_from_le_bytes(journal.subrange(cursor as int, (cursor + 8) as int));
        let body = cursor + 8;
        if length > usize::MAX || length > HEADER_SIZE + MAX_COMPRESSED_BYTES {
            (st, JournalOutcome::Corrupt { error: RecoveryError::JournalRecordTooLong })
        } else if body + length > usize::MAX {
            (st, JournalOutcome::Corrupt { error: RecoveryError::JournalLengthOverflow })
        } else if body + length > journal.len() {
            (st, JournalOutcome::IncompleteTail { valid_end: cursor as usize })
        } else {
            match spec_apply_journal_record(
                st,
                journal.subrange(body as int, (body + length) as int),
            ) {
                Err(e) => (st, JournalOutcome::Corrupt { error: e }),
                Ok(next) => spec_replay(next, journal, (body + length) as nat),
            }
        }
    }
}

/// `actual` is the outcome that the replay reports where the specification expects
/// `expected`.
pub open spec fn outcome_matches(actual: JournalOutcome, expected: JournalOutcome) -> bool {
    match (actual, expected) {
        (JournalOutcome::Corrupt { error: a }, JournalOutcome::Corrupt { error: e }) => fault_matches(
            a,
            e,
        ),
        _ => actual == expected,
    }
}

/// What replaying the journal on top of the checkpoint gives: the store and how the
/// replay ended, or `None` when the checkpoint is not an intact checkpoint record.
pub open spec fn spec_load_replay(checkpoint: Seq<u8>, journal: Seq<u8>) -> Option<
    (StoreView, JournalOutcome),
> {
    match spec_decode_record(checkpoint) {
        Ok((RecordKind::Checkpoint, sequence, payload)) => Some(
            spec_replay(
                StoreView { state: Some(payload), sequence, deltas_since_checkpoint: 0 },
                journal,
                0,
            ),
        ),
        _ => None,
    }
}

/// What loading a checkpoint file and journal file restores, when both are intact.
pub open spec fn spec_load(checkpoint: Seq<u8>, journal: Seq<u8>) -> Option<StoreView> {
    match spec_load_replay(checkpoint, journal) {
        Some((st, JournalOutcome::Complete)) => Some(st),
        _ => None,
    }
}

/// How the checkpoint file was found at start-up.
#[derive(Debug, Clone, PartialEq, Eq)]
pub enum CheckpointLoad {
    /// Neither a checkpoint nor a journal exists.
    Empty,
    /// A journal exists without a checkpoint; it is to be quarantined.
    OrphanJournal,
    /// The checkpoint file holds a record of another kind; all files are to be quarantined.
    WrongKind,
    /// The checkpoint could not be read or failed its checks; all files are to be quarantined.
    Corrupt { error: RecoveryError },
    /// The checkpoint was restored.
    Loaded,
}

/// Which recovery files a start-up load moves aside.
#[derive(Debug, Clone, Copy, PartialEq, Eq, Structural)]
pub enum QuarantineScope {
    /// None: nothing to recover, or the checkpoint was restored.
    Nothing,
    /// Only the journal, which has no checkpoint to apply to.
    Journal,
    /// The checkpoint and the journal, which cannot be trusted.
    All,
}

impl CheckpointLoad {
    /// The files that this outcome of loading the checkpoint moves aside: the
    /// orphan journal alone, everything after a wrong or corrupt checkpoint, and
    /// nothing otherwise.
    pub fn quarantine_scope(&self) -> (scope: QuarantineScope)
        ensures
            (*self is Empty || *self is Loaded) ==> scope is Nothing,
            *self is OrphanJournal ==> scope is Journal,
            (*self is WrongKind || *self is Corrupt) ==> scope is All,
    {
        match self {
            CheckpointLoad::Empty | CheckpointLoad::Loaded => QuarantineScope::Nothing,
            CheckpointLoad::OrphanJournal => QuarantineScope::Journal,
            CheckpointLoad::WrongKind | CheckpointLoad::Corrupt { .. } => QuarantineScope::All,
        }
    }
}

/// What the next persisted state requires of the files.
#[derive(Debug, Clone, PartialEq, Eq)]
pub enum PersistPlan {
    /// The state equals the last persisted one: nothing to write.
    Unchanged,
    /// Replace the checkpoint with `record` and empty the journal.
    Checkpoint { sequence: u64, record: Vec<u8> },
    /// Append `frame` (a length prefix and a delta record) to the journal.
    Delta { sequence: u64, frame: Vec<u8> },
}

/// The bincode payload of the minimal delta from the stored state to `next`.
pub open spec fn spec_delta_payload(old: Seq<u8>, next: Seq<u8>) -> Seq<u8> {
    let (p, r, replacement) = spec_minimal_delta(old, next);
    bincode_delta_encoding(p as u64, r as u64, replacement)
}

/// The journal frame that carries the delta from the store's state to `next`.
pub open spec fn spec_delta_frame(old: Seq<u8>, sequence: u64, next: Seq<u8>) -> Seq<u8> {
    let record = spec_record_bytes(RecordKind::Delta, sequence, spec_delta_payload(old, next));
    spec_u64_to_le_bytes(record.len() as u64) + record
}

/// The facts that the outside codecs established when a record holding `payload` was made.
pub open spec fn record_codec_facts(payload: Seq<u8>) -> bool {
    &&& payload.len() <= MAX_UNCOMPRESSED_BYTES
    &&& zstd_compression(payload, ZSTD_LEVEL) is Some
    &&& zstd_compressed(payload, ZSTD_LEVEL).len() <= MAX_COMPRESSED_BYTES
    &&& zstd_stream_content(zstd_compressed(payload, ZSTD_LEVEL)) == Some(payload)
}

/// The facts that the outside codecs established when the delta frame to `next` was made.
pub open spec fn delta_codec_facts(old: Seq<u8>, next: Seq<u8>) -> bool {
    let (p, r, replacement) = spec_minimal_delta(old, next);
    let payload = spec_delta_payload(old, next);
    &&& record_codec_facts(payload)
    &&& bincode_delta_decoding(payload) == Some((p as u64, r as u64, replacement, payload.len()))
}

/// What planning to persist `next` from the store state `st` gives: nothing for
/// unchanged bytes; `SequenceExhausted` at the last sequence number; else a
/// checkpoint (no state yet, or enough deltas since the last one) or a delta record,
/// each failing exactly as encoding its record does.
pub open spec fn persist_planned(
    st: StoreView,
    next: Seq<u8>,
    res: Result<PersistPlan, RecoveryError>,
) -> bool {
    &&& st.state == Some(next) ==> res == Ok::<PersistPlan, RecoveryError>(PersistPlan::Unchanged)
    &&& st.state != Some(next) && st.sequence == u64::MAX ==> res == Err::<
        PersistPlan,
        RecoveryError,
    >(RecoveryError::SequenceExhausted)
    &&& st.state != Some(next) && st.sequence < u64::MAX && (st.state is None
        || st.deltas_since_checkpoint >= CHECKPOINT_INTERVAL) ==> match res {
        Ok(plan) => plan is Checkpoint && plan_is_valid(st, next, plan),
        Err(e) => spec_encode_record(RecordKind::Checkpoint, (st.sequence + 1) as u64, next)
            matches Err(expected) && fault_matches(e, expected),
    }
    &&& st.state != Some(next) && st.sequence < u64::MAX && st.state is Some
        && st.deltas_since_checkpoint < CHECKPOINT_INTERVAL ==> match res {
        Ok(plan) => plan is Delta && plan_is_valid(st, next, plan),
        Err(e) => spec_encode_record(
            RecordKind::Delta,
            (st.sequence + 1) as u64,
            spec_delta_payload(st.state->Some_0, next),
        ) matches Err(expected) && fault_matches(e, expected),
    }
    &&& res matches Ok(plan) ==> plan_is_valid(st, next, plan)
    &&& res matches Err(e) ==> (e is SequenceExhausted || e is PayloadTooLarge
        || e is Compression || e is CompressedTooLarge)
}

/// The plan persists `next` from the store state `st`.
pub open spec fn plan_is_valid(st: StoreView, next: Seq<u8>, plan: PersistPlan) -> bool {
    match plan {
        PersistPlan::Unchanged => st.state == Some(next),
        PersistPlan::Checkpoint { sequence, record } => {
            &&& st.state != Some(next)
            &&& st.sequence < u64::MAX
            &&& sequence == st.sequence + 1
            &&& (st.state is None || st.deltas_since_checkpoint >= CHECKPOINT_INTERVAL)
            &&& record_codec_facts(next)
            &&& record@ == spec_record_bytes(RecordKind::Checkpoint, sequence, next)
        },
        PersistPlan::Delta { sequence, frame } => {
            &&& st.state matches Some(old) && old != next
            &&& st.deltas_since_checkpoint < CHECKPOINT_INTERVAL
            &&& st.sequence < u64::MAX
            &&& sequence == st.sequence + 1
            &&& delta_codec_facts(st.state->Some_0, next)
            &&& frame@ == spec_delta_frame(st.state->Some_0, sequence, next)
        },
    }
}

/// The store state once the plan for `next` has been written.
pub open spec fn state_after_persist(st: StoreView, next: Seq<u8>, plan: PersistPlan) -> StoreView {
    match plan {
        PersistPlan::Unchanged => st,
        PersistPlan::Checkpoint { sequence, .. } => StoreView {
            state: Some(next),
            sequence,
            deltas_since_checkpoint: 0,
        },
        PersistPlan::Delta { sequence, .. } => StoreView {
            state: Some(next),
            sequence,
            deltas_since_checkpoint: (st.deltas_since_checkpoint + 1) as usize,
        },
    }
}

/// The checkpoint and journal contents once the plan has been written.
pub open spec fn files_after_persist(plan: PersistPlan, checkpoint: Seq<u8>, journal: Seq<u8>) -> (
    Seq<u8>,
    Seq<u8>,
) {
    match plan {
        PersistPlan::Unchanged => (checkpoint, journal),
        PersistPlan::Checkpoint { record, .. } => (record@, Seq::empty()),
        PersistPlan::Delta { frame, .. } => (checkpoint, journal + frame@),
    }
}

/// Compares two byte strings.
fn bytes_equal(a: &[u8], b: &[u8]) -> (equal: bool)
    ensures
        equal == (a@ == b@),
{
    if a.len() != b.len() {
        return false;
    }
    let mut index: usize = 0;
    while index < a.len()
        invariant
            a@.len() == b@.len(),
            0 <= index <= a@.len(),
            forall|i: int| 0 <= i < index ==> a@[i] == b@[i],
        decreases a@.len() - index,
    {
        if a[index] != b[index] {
            return false;
        }
        index = index + 1;
    }
    assert(a@ =~= b@);
    true
}

impl RecoveryStore {
    /// An empty store: no persisted state yet.
    pub fn new() -> (store: RecoveryStore)
        ensures
            store@ == empty_view(),
    {
        RecoveryStore { state_bytes: None, sequence: 0, deltas_since_checkpoint: 0 }
    }

    /// Returns the bytes of the last persisted or recovered state.
    pub fn state_bytes(&self) -> (bytes: Option<&Vec<u8>>)
        ensures
            match bytes {
                Some(b) => self@.state == Some(b@),
                None => self@.state is None,
            },
    {
        self.state_bytes.as_ref()
    }

    /// Returns the sequence number of the last persisted or recovered record.
    pub fn sequence(&self) -> (sequence: u64)
        ensures
            sequence == self@.sequence,
    {
        self.sequence
    }

    /// Returns how many deltas follow the current checkpoint.
    pub fn deltas_since_checkpoint(&self) -> (count: usize)
        ensures
            count == self@.deltas_since_checkpoint,
    {
        self.deltas_since_checkpoint
    }

    /// Forgets the stored state, once the active files are gone or quarantined.
    pub fn reset(&mut self)
        ensures
            final(self)@ == empty_view(),
    {
        self.state_bytes = None;
        self.sequence = 0;
        self.deltas_since_checkpoint = 0;
    }

    /// Restores the store from the checkpoint file: `None` when it does not exist,
    /// else its bytes or the error that reading it gave.
    pub fn from_checkpoint(checkpoint: Option<Result<Vec<u8>, String>>, journal_exists: bool) -> (res: (
        RecoveryStore,
        CheckpointLoad,
    ))
        ensures
            match checkpoint {
                None => res.0@ == empty_view() && res.1 == (if journal_exists {
                    CheckpointLoad::OrphanJournal
                } else {
                    CheckpointLoad::Empty
                }),
                Some(Err(message)) => res.0@ == empty_view() && res.1 == CheckpointLoad::Corrupt {
                    error: RecoveryError::Io(message),
                },
                Some(Ok(bytes)) => match spec_decode_record(bytes@) {
                    Ok((RecordKind::Checkpoint, sequence, payload)) => res.1
                        == CheckpointLoad::Loaded && res.0@ == StoreView {
                        state: Some(payload),
                        sequence,
                        deltas_since_checkpoint: 0,
                    },
                    Ok(_) => res.0@ == empty_view() && res.1 == CheckpointLoad::WrongKind,
                    Err(expected) => res.0@ == empty_view() && (res.1 matches CheckpointLoad::Corrupt {
                        error,
                    } && fault_matches(error, expected)),
                },
            },
    {
        let store = RecoveryStore::new();
        match checkpoint {
            None => if journal_exists {
                (store, CheckpointLoad::OrphanJournal)
            } else {
                (store, CheckpointLoad::Empty)
            },
            Some(Err(message)) => (store, CheckpointLoad::Corrupt { error: RecoveryError::Io(message) }),
            Some(Ok(bytes)) => match decode_record(bytes.as_slice()) {
                Ok(record) => match record.kind {
                    RecordKind::Checkpoint => (
                        RecoveryStore {
                            state_bytes: Some(record.payload),
                            sequence: record.sequence,
                            deltas_since_checkpoint: 0,
                        },
                        CheckpointLoad::Loaded,
                    ),
                    RecordKind::Delta => (store, CheckpointLoad::WrongKind),
                },
                Err(error) => (store, CheckpointLoad::Corrupt { error }),
            },
        }
    }

    /// Checks and applies one complete journal record.
    pub fn apply_journal_record(&mut self, bytes: &[u8]) -> (res: Result<(), RecoveryError>)
        ensures
            match spec_apply_journal_record(old(self)@, bytes@) {
                Ok(next) => res is Ok && final(self)@ == next,
                Err(expected) => (res matches Err(error) && fault_matches(error, expected))
                    && final(self)@ == old(self)@,
            },
    {
        let record = match decode_record(bytes) {
            Ok(record) => record,
            Err(error) => return Err(error),
        };
        match record.kind {
            RecordKind::Delta => {},
            RecordKind::Checkpoint => return Err(RecoveryError::NotADelta),
        }
        if record.sequence <= self.sequence {
            return Ok(());
        }
        if record.sequence != self.sequence + 1 {
            return Err(
                RecoveryError::SequenceGap { expected: self.sequence + 1, actual: record.sequence },
            );
        }
        let (prefix_len, removed_len, replacement, consumed) = match bincode_decode_delta(
            record.payload.as_slice(),
        ) {
            Ok(fields) => fields,
            Err(message) => return Err(RecoveryError::Deserialization(message)),
        };
        if consumed != record.payload.len() {
            return Err(RecoveryError::TrailingData);
        }
        let delta = BinaryDelta { prefix_len, removed_len, replacement };
        let next = match &self.state_bytes {
            None => return Err(RecoveryError::MissingBase),
            Some(old_bytes) => match delta.apply(old_bytes.as_slice()) {
                Ok(next) => next,
                Err(error) => return Err(error),
            },
        };
        self.state_bytes = Some(next);
        self.sequence = record.sequence;
        if self.deltas_since_checkpoint < usize::MAX {
            self.deltas_since_checkpoint = self.deltas_since_checkpoint + 1;
        }
        Ok(())
    }

    /// Replays a journal: applies its length-prefixed records in order until the
    /// end, a record that a crash cut short, or a record that fails its checks.
    pub fn replay_journal(&mut self, journal: &[u8]) -> (outcome: JournalOutcome)
        ensures
            final(self)@ == spec_replay(old(self)@, journal@, 0).0,
            outcome_matches(outcome, spec_replay(old(self)@, journal@, 0).1),
    {
        let ghost start = self@;
        let mut cursor: usize = 0;
        while cursor < journal.len()
            invariant
                0 <= cursor <= journal@.len(),
                start == old(self)@,
                spec_replay(start, journal@, 0) == spec_replay(self@, journal@, cursor as nat),
            decreases journal@.len() - cursor,
        {
            if journal.len() - cursor < JOURNAL_LENGTH_SIZE {
                assert(spec_replay(self@, journal@, cursor as nat) == (
                    self@,
                    JournalOutcome::IncompleteTail { valid_end: cursor },
                ));
                return JournalOutcome::IncompleteTail { valid_end: cursor };
            }
            let length = u64_from_le_bytes(slice_subrange(journal, cursor, cursor + 8));
            let body = cursor + JOURNAL_LENGTH_SIZE;
            if length > usize::MAX as u64 || length > (HEADER_SIZE + MAX_COMPRESSED_BYTES) as u64 {
                return JournalOutcome::Corrupt { error: RecoveryError::JournalRecordTooLong };
            }
            let length = length as usize;
            if body > usize::MAX - length {
                return JournalOutcome::Corrupt { error: RecoveryError::JournalLengthOverflow };
            }
            let end = body + length;
            if end > journal.len() {
                return JournalOutcome::IncompleteTail { valid_end: cursor };
            }
            match self.apply_journal_record(slice_subrange(journal, body, end)) {
                Ok(()) => {
                    cursor = end;
                },
                Err(error) => {
                    return JournalOutcome::Corrupt { error };
                },
            }
        }
        JournalOutcome::Complete
    }

    /// The checkpoint record that rewrites the current state after a corrupt
    /// journal was quarantined; the delta count starts over.
    pub fn rewrite_checkpoint(&mut self) -> (res: Result<Vec<u8>, RecoveryError>)
        ensures
            match old(self)@.state {
                None => res == Err::<Vec<u8>, RecoveryError>(RecoveryError::MissingBase)
                    && final(self)@ == old(self)@,
                Some(bytes) => match res {
                    Ok(record) => {
                        &&& spec_encode_record(RecordKind::Checkpoint, old(self)@.sequence, bytes)
                            == Ok::<Seq<u8>, RecoveryError>(record@)
                        &&& record_codec_facts(bytes)
                        &&& final(self)@ == StoreView {
                            deltas_since_checkpoint: 0,
                            ..old(self)@
                        }
                    },
                    Err(e) => {
                        &&& final(self)@ == old(self)@
                        &&& spec_encode_record(RecordKind::Checkpoint, old(self)@.sequence, bytes)
                            matches Err(expected)
                        &&& fault_matches(e, expected)
                    },
                },
            },
    {
        let record = match &self.state_bytes {
            None => return Err(RecoveryError::MissingBase),
            Some(bytes) => match encode_record(RecordKind::Checkpoint, self.sequence, bytes.as_slice()) {
                Ok(record) => record,
                Err(error) => return Err(error),
            },
        };
        self.deltas_since_checkpoint = 0;
        Ok(record)
    }

    /// Decides how to persist the serialized state `next`: nothing when it equals
    /// the stored state, a checkpoint when there is none or enough deltas have
    /// accumulated, else a delta record appended to the journal.
    pub fn plan_persist(&self, next: &[u8]) -> (res: Result<PersistPlan, RecoveryError>)
        ensures
            persist_planned(self@, next@, res),
    {
        if let Some(current) = &self.state_bytes {
            if bytes_equal(current.as_slice(), next) {
                return Ok(PersistPlan::Unchanged);
            }
        }
        if self.sequence == u64::MAX {
            return Err(RecoveryError::SequenceExhausted);
        }
        let sequence = self.sequence + 1;
        match &self.state_bytes {
            Some(current) if self.deltas_since_checkpoint < CHECKPOINT_INTERVAL => {
                let delta = BinaryDelta::between(current.as_slice(), next);
                let payload = match bincode_encode_delta(
                    delta.prefix_len,
                    delta.removed_len,
                    &delta.replacement,
                ) {
                    Ok(payload) => payload,
                    Err(message) => return Err(RecoveryError::Serialization(message)),
                };
                let replacement_len = delta.replacement.len();
                proof {
                    assert(delta.replacement@.len() == replacement_len);
                    lemma_delta_encoding_round_trip(
                        delta.prefix_len,
                        delta.removed_len,
                        delta.replacement@,
                    );
                }
                let record = match encode_record(RecordKind::Delta, sequence, payload.as_slice()) {
                    Ok(record) => record,
                    Err(error) => return Err(error),
                };
                let mut frame = u64_to_le_bytes(record.len() as u64);
                let mut body = record;
                frame.append(&mut body);
                Ok(PersistPlan::Delta { sequence, frame })
            },
            _ => {
                let record = match encode_record(RecordKind::Checkpoint, sequence, next) {
                    Ok(record) => record,
                    Err(error) => return Err(error),
                };
                Ok(PersistPlan::Checkpoint { sequence, record })
            },
        }
    }

    /// Persists only a state that passed its recovery check (`validation`, see
    /// `AppState::validate_recovery`): a refused state plans nothing and is
    /// reported with the check's message; otherwise as `plan_persist`.
    pub fn plan_persist_validated(&self, validation: Result<(), String>, next: &[u8]) -> (res:
        Result<PersistPlan, RecoveryError>)
        ensures
            match validation {
                Err(message) => res == Err::<PersistPlan, RecoveryError>(
                    RecoveryError::InvalidState(message),
                ),
                Ok(()) => persist_planned(self@, next@, res),
            },
    {
        match validation {
            Err(message) => Err(RecoveryError::InvalidState(message)),
            Ok(()) => self.plan_persist(next),
        }
    }

    /// Records that the plan for `next` has been written to the files.
    pub fn commit_persist(&mut self, next: Vec<u8>, plan: &PersistPlan)
        requires
            plan_is_valid(old(self)@, next@, *plan),
        ensures
            final(self)@ == state_after_persist(old(self)@, next@, *plan),
    {
        match plan {
            PersistPlan::Unchanged => {},
            PersistPlan::Checkpoint { sequence, .. } => {
                self.state_bytes = Some(next);
                self.sequence = *sequence;
                self.deltas_since_checkpoint = 0;
            },
            PersistPlan::Delta { sequence, .. } => {
                self.state_bytes = Some(next);
                self.sequence = *sequence;
                self.deltas_since_checkpoint = self.deltas_since_checkpoint + 1;
            },
        }
    }
}

} // verus!

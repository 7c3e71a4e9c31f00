//! What the recovery format promises across calls: a persisted state is what the
//! next start-up restores, and a crash that cuts the journal short loses nothing
//! that was completely written before it.

use vstd::prelude::*;
use vstd::bytes::{
    lemma_auto_spec_u16_to_from_le_bytes, lemma_auto_spec_u32_to_from_le_bytes,
    lemma_auto_spec_u64_to_from_le_bytes, spec_u64_from_le_bytes, spec_u64_to_le_bytes,
};
use super::delta::{lemma_delta_round_trip, spec_minimal_delta};
use super::record::{
    lemma_record_round_trip, spec_record_bytes, RecordKind, RecoveryError, HEADER_SIZE,
    MAX_COMPRESSED_BYTES, MAX_UNCOMPRESSED_BYTES, ZSTD_LEVEL,
};
use super::codec::zstd_compressed;
use super::store::{
    bump, delta_codec_facts, files_after_persist, plan_is_valid, record_codec_facts,
    spec_apply_journal_record, spec_delta_frame, spec_delta_payload, spec_load, spec_load_replay,
    spec_replay, state_after_persist, JournalOutcome, PersistPlan, StoreView, JOURNAL_LENGTH_SIZE,
};

verus! {

/// Replaying a journal that replays completely, with bytes appended to it, first
/// replays the first journal and then goes on from its end.
pub proof fn lemma_replay_extends(st: StoreView, journal: Seq<u8>, extra: Seq<u8>, cursor: nat)
    requires
        cursor <= journal.len(),
        spec_replay(st, journal, cursor).1 is Complete,
    ensures
        spec_replay(st, journal + extra, cursor) == spec_replay(
            spec_replay(st, journal, cursor).0,
            journal + extra,
            journal.len(),
        ),
    decreases journal.len() - cursor,
{
    let whole = journal + extra;
    if cursor >= journal.len() {
    } else {
        assert(journal.len() - cursor >= JOURNAL_LENGTH_SIZE);
        assert(whole.subrange(cursor as int, (cursor + 8) as int) =~= journal.subrange(
            cursor as int,
            (cursor + 8) as int,
        ));
        let length = spec_u64_from_le_bytes(journal.subrange(cursor as int, (cursor + 8) as int));
        let body = cursor + 8;
        assert(body + length <= journal.len());
        assert(whole.subrange(body as int, (body + length) as int) =~= journal.subrange(
            body as int,
            (body + length) as int,
        ));
        let next = spec_apply_journal_record(
            st,
            journal.subrange(body as int, (body + length) as int),
        )->Ok_0;
        lemma_replay_extends(next, journal, extra, (body + length) as nat);
    }
}

/// A checkpoint record, read back with an empty journal, restores exactly the state
/// and sequence it was written with.
pub proof fn lemma_checkpoint_is_recovered(sequence: u64, state: Seq<u8>)
    requires
        record_codec_facts(state),
    ensures
        spec_load(spec_record_bytes(RecordKind::Checkpoint, sequence, state), Seq::empty())
            == Some(StoreView { state: Some(state), sequence, deltas_since_checkpoint: 0 }),
{
    lemma_record_round_trip(RecordKind::Checkpoint, sequence, state);
}

/// Appending the delta frame that persists `next` to a journal that restores `before`
/// makes the files restore `next`, under the following sequence number.
pub proof fn lemma_delta_is_recovered(
    checkpoint: Seq<u8>,
    journal: Seq<u8>,
    before: StoreView,
    next: Seq<u8>,
)
    requires
        spec_load(checkpoint, journal) == Some(before),
        before.state is Some,
        before.sequence < u64::MAX,
        before.deltas_since_checkpoint < usize::MAX,
        delta_codec_facts(before.state->Some_0, next),
        next.len() <= MAX_UNCOMPRESSED_BYTES,
        before.state->Some_0.len() <= usize::MAX,
        journal.len() + spec_delta_frame(before.state->Some_0, (before.sequence + 1) as u64, next).len()
            <= usize::MAX,
    ensures
        spec_load(
            checkpoint,
            journal + spec_delta_frame(before.state->Some_0, (before.sequence + 1) as u64, next),
        ) == Some(
            StoreView {
                state: Some(next),
                sequence: (before.sequence + 1) as u64,
                deltas_since_checkpoint: (before.deltas_since_checkpoint + 1) as usize,
            },
        ),
{
    lemma_auto_spec_u16_to_from_le_bytes();
    lemma_auto_spec_u32_to_from_le_bytes();
    lemma_auto_spec_u64_to_from_le_bytes();
    let old = before.state->Some_0;
    let sequence = (before.sequence + 1) as u64;
    let payload = spec_delta_payload(old, next);
    let record = spec_record_bytes(RecordKind::Delta, sequence, payload);
    let frame = spec_delta_frame(old, sequence, next);
    let (_, checkpoint_sequence, checkpoint_payload) = super::record::spec_decode_record(
        checkpoint,
    )->Ok_0;
    let initial = StoreView {
        state: Some(checkpoint_payload),
        sequence: checkpoint_sequence,
        deltas_since_checkpoint: 0,
    };
    lemma_replay_extends(initial, journal, frame, 0);
    let whole = journal + frame;
    let cursor = journal.len();
    assert(record.len() == HEADER_SIZE + zstd_compressed(payload, ZSTD_LEVEL).len());
    assert(whole.subrange(cursor as int, (cursor + 8) as int) =~= spec_u64_to_le_bytes(
        record.len() as u64,
    ));
    assert(whole.subrange((cursor + 8) as int, whole.len() as int) =~= record);
    lemma_record_round_trip(RecordKind::Delta, sequence, payload);
    lemma_delta_round_trip(old, next);
    let after = StoreView {
        state: Some(next),
        sequence,
        deltas_since_checkpoint: bump(before.deltas_since_checkpoint),
    };
    assert(spec_apply_journal_record(before, record) == Ok::<StoreView, RecoveryError>(after));
    assert(spec_replay(after, whole, whole.len()) == (after, JournalOutcome::Complete));
}

/// Writing any plan that `plan_persist` returns for `next`, and then reading the
/// files back, restores the state that `commit_persist` records: `next`, under the
/// plan's sequence number.
pub proof fn lemma_persisted_state_is_recovered(
    checkpoint: Seq<u8>,
    journal: Seq<u8>,
    before: StoreView,
    next: Seq<u8>,
    plan: PersistPlan,
)
    requires
        plan_is_valid(before, next, plan),
        plan is Checkpoint || spec_load(checkpoint, journal) == Some(before),
        next.len() <= MAX_UNCOMPRESSED_BYTES,
        before.state matches Some(old) ==> old.len() <= usize::MAX,
        plan matches PersistPlan::Delta { frame, .. } ==> journal.len() + frame@.len() <= usize::MAX,
    ensures
        ({
            let (checkpoint_after, journal_after) = files_after_persist(plan, checkpoint, journal);
            spec_load(checkpoint_after, journal_after) == Some(
                state_after_persist(before, next, plan),
            )
        }),
{
    match plan {
        PersistPlan::Unchanged => {},
        PersistPlan::Checkpoint { sequence, record } => {
            lemma_checkpoint_is_recovered(sequence, next);
        },
        PersistPlan::Delta { sequence, frame } => {
            lemma_delta_is_recovered(checkpoint, journal, before, next);
        },
    }
}

/// A journal whose last record a crash cut short replays every complete record
/// before it, and reports where the valid records end.
pub proof fn lemma_truncated_tail_is_ignored(
    checkpoint: Seq<u8>,
    journal: Seq<u8>,
    before: StoreView,
    tail: Seq<u8>,
)
    requires
        spec_load(checkpoint, journal) == Some(before),
        tail.len() > 0,
        journal.len() + 8 + HEADER_SIZE + MAX_COMPRESSED_BYTES <= usize::MAX,
        tail.len() < JOURNAL_LENGTH_SIZE || ({
            let length = spec_u64_from_le_bytes(tail.subrange(0, 8));
            length <= HEADER_SIZE + MAX_COMPRESSED_BYTES && 8 + length > tail.len()
        }),
    ensures
        spec_load_replay(checkpoint, journal + tail) == Some(
            (before, JournalOutcome::IncompleteTail { valid_end: journal.len() as usize }),
        ),
{
    let (_, checkpoint_sequence, checkpoint_payload) = super::record::spec_decode_record(
        checkpoint,
    )->Ok_0;
    let initial = StoreView {
        state: Some(checkpoint_payload),
        sequence: checkpoint_sequence,
        deltas_since_checkpoint: 0,
    };
    lemma_replay_extends(initial, journal, tail, 0);
    let whole = journal + tail;
    let cursor = journal.len();
    if tail.len() >= JOURNAL_LENGTH_SIZE {
        assert(whole.subrange(cursor as int, (cursor + 8) as int) =~= tail.subrange(0, 8));
    }
}

/// A complete journal record that fails its checks stops the replay: every record
/// before it stays applied, and the replay reports the failure.
pub proof fn lemma_corrupt_record_keeps_valid_prefix(
    checkpoint: Seq<u8>,
    journal: Seq<u8>,
    before: StoreView,
    record: Seq<u8>,
    rest: Seq<u8>,
)
    requires
        spec_load(checkpoint, journal) == Some(before),
        record.len() <= HEADER_SIZE + MAX_COMPRESSED_BYTES,
        spec_apply_journal_record(before, record) is Err,
        journal.len() + 8 + record.len() + rest.len() <= usize::MAX,
    ensures
        spec_load_replay(checkpoint, journal + (spec_u64_to_le_bytes(record.len() as u64) + record + rest))
            == Some(
            (
                before,
                JournalOutcome::Corrupt {
                    error: spec_apply_journal_record(before, record)->Err_0,
                },
            ),
        ),
{
    lemma_auto_spec_u64_to_from_le_bytes();
    let (_, checkpoint_sequence, checkpoint_payload) = super::record::spec_decode_record(
        checkpoint,
    )->Ok_0;
    let initial = StoreView {
        state: Some(checkpoint_payload),
        sequence: checkpoint_sequence,
        deltas_since_checkpoint: 0,
    };
    let tail = spec_u64_to_le_bytes(record.len() as u64) + record + rest;
    lemma_replay_extends(initial, journal, tail, 0);
    let whole = journal + tail;
    let cursor = journal.len();
    assert(whole.subrange(cursor as int, (cursor + 8) as int) =~= spec_u64_to_le_bytes(
        record.len() as u64,
    ));
    assert(whole.subrange((cursor + 8) as int, (cursor + 8 + record.len()) as int) =~= record);
}

} // verus!

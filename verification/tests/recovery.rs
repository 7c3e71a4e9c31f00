use steady_ink::recovery::codec::crc32;
use steady_ink::recovery::delta::BinaryDelta;
use steady_ink::recovery::files::{
    checkpoint_diagnostic, journal_diagnostic, quarantine_summary, quarantine_target_name,
    CHECKPOINT_FILE, CHECKPOINT_TEMP_FILE, JOURNAL_FILE,
};
use steady_ink::recovery::record::{
    decode_record, encode_record, frame_record, RecordKind, RecoveryError, FORMAT_VERSION,
    HEADER_SIZE, MAX_COMPRESSED_BYTES,
};
use steady_ink::recovery::store::{
    CheckpointLoad, JournalOutcome, PersistPlan, QuarantineScope, RecoveryStore, CHECKPOINT_INTERVAL,
};
use steady_ink::recovery::worker::{FlushStatus, RecoveryEvent, ShutdownMode, WorkerState};

#[test]
fn binary_delta_round_trips_changed_middle() {
    for (old, new) in [
        (b"prefix-old-suffix".as_slice(), b"prefix-new-suffix".as_slice()),
        (b"short".as_slice(), b"shorter-tail".as_slice()),
        (b"remove-tail".as_slice(), b"remove".as_slice()),
        (b"same".as_slice(), b"same".as_slice()),
    ] {
        assert_eq!(BinaryDelta::between(old, new).apply(old), Ok(new.to_vec()));
    }
}

#[test]
fn binary_delta_is_minimal_and_checks_its_bounds() {
    let delta = BinaryDelta::between(b"prefix-old-suffix", b"prefix-new-suffix");
    assert_eq!(delta.prefix_len, 7);
    assert_eq!(delta.removed_len, 3);
    assert_eq!(delta.replacement, b"new".to_vec());
    let same = BinaryDelta::between(b"same", b"same");
    assert_eq!((same.prefix_len, same.removed_len, same.replacement.len()), (4, 0, 0));
    let out_of_bounds = BinaryDelta {
        prefix_len: 3,
        removed_len: 5,
        replacement: Vec::new(),
    };
    assert_eq!(out_of_bounds.apply(b"abcd"), Err(RecoveryError::DeltaOutOfBounds));
}

#[test]
fn envelope_round_trips_and_rejects_corruption() {
    let encoded = encode_record(RecordKind::Checkpoint, 7, b"steady ink").expect("a valid payload encodes");
    let decoded = decode_record(&encoded).expect("a valid envelope decodes");
    assert_eq!(decoded.kind, RecordKind::Checkpoint);
    assert_eq!(decoded.sequence, 7);
    assert_eq!(decoded.payload, b"steady ink");

    let mut corrupted = encoded;
    let last = corrupted.last_mut().expect("the record has a compressed payload");
    *last ^= 0x5a;
    assert!(decode_record(&corrupted).is_err());
}

#[test]
fn envelope_header_faults_are_named() {
    let encoded = encode_record(RecordKind::Delta, 1, b"x").expect("encodes");
    assert_eq!(decode_record(&encoded[..HEADER_SIZE - 1]), Err(RecoveryError::RecordTooShort));
    let mut magic = encoded.clone();
    magic[0] = b'X';
    assert_eq!(decode_record(&magic), Err(RecoveryError::BadMagic));
    let mut version = encoded.clone();
    version[8..10].copy_from_slice(&u16::MAX.to_le_bytes());
    assert_eq!(decode_record(&version), Err(RecoveryError::UnsupportedVersion(u16::MAX)));
    let mut kind = encoded.clone();
    kind[10] = 9;
    assert_eq!(decode_record(&kind), Err(RecoveryError::UnknownRecordKind(9)));
    let mut size = encoded.clone();
    size.push(0);
    assert_eq!(decode_record(&size), Err(RecoveryError::RecordSizeMismatch));
    assert_eq!(RecordKind::from_byte(2), Ok(RecordKind::Delta));
    assert_eq!(RecordKind::Checkpoint.to_byte(), 1);
    assert_eq!(FORMAT_VERSION, 1);
}

#[test]
fn oversized_payloads_are_refused() {
    let payload = vec![0u8; 64 * 1024 * 1024 + 1];
    assert_eq!(
        encode_record(RecordKind::Checkpoint, 1, &payload),
        Err(RecoveryError::PayloadTooLarge)
    );
}

/// The two active recovery files, held in memory.
#[derive(Default, Clone)]
struct Files {
    checkpoint: Option<Vec<u8>>,
    journal: Option<Vec<u8>>,
}

fn persist(store: &mut RecoveryStore, files: &mut Files, state: &[u8]) -> Result<bool, RecoveryError> {
    let plan = store.plan_persist(state)?;
    match &plan {
        PersistPlan::Unchanged => return Ok(false),
        PersistPlan::Checkpoint { record, .. } => {
            files.checkpoint = Some(record.clone());
            files.journal = Some(Vec::new());
        }
        PersistPlan::Delta { frame, .. } => {
            files.journal.get_or_insert_with(Vec::new).extend_from_slice(frame);
        }
    }
    store.commit_persist(state.to_vec(), &plan);
    Ok(true)
}

fn load(files: &Files) -> (RecoveryStore, Option<String>) {
    let (mut store, found) =
        RecoveryStore::from_checkpoint(files.checkpoint.clone().map(Ok), files.journal.is_some());
    if found != CheckpointLoad::Loaded {
        return (store, checkpoint_diagnostic(&found, "isolated"));
    }
    let notice = match &files.journal {
        Some(journal) => {
            let outcome = store.replay_journal(journal);
            journal_diagnostic(&outcome, "isolated")
        }
        None => None,
    };
    (store, notice)
}

#[test]
fn persisted_states_are_recovered() {
    let mut store = RecoveryStore::new();
    let mut files = Files::default();
    assert_eq!(persist(&mut store, &mut files, b"first state"), Ok(true));
    assert_eq!(persist(&mut store, &mut files, b"first state"), Ok(false));
    assert_eq!(persist(&mut store, &mut files, b"second state"), Ok(true));
    assert_eq!(store.sequence(), 2);
    assert_eq!(store.deltas_since_checkpoint(), 1);

    let (recovered, notice) = load(&files);
    assert_eq!(notice, None);
    assert_eq!(recovered.state_bytes(), Some(&b"second state".to_vec()));
    assert_eq!(recovered.sequence(), 2);
}

#[test]
fn checkpoint_is_rewritten_after_the_delta_interval() {
    let mut store = RecoveryStore::new();
    let mut files = Files::default();
    for index in 0..=CHECKPOINT_INTERVAL + 2 {
        let state = format!("state number {index}");
        assert_eq!(persist(&mut store, &mut files, state.as_bytes()), Ok(true));
    }
    assert_eq!(store.deltas_since_checkpoint(), 1);
    let (recovered, _) = load(&files);
    assert_eq!(
        recovered.state_bytes(),
        Some(&format!("state number {}", CHECKPOINT_INTERVAL + 2).into_bytes())
    );
}

#[test]
fn truncated_journal_tail_recovers_all_valid_records() {
    let mut store = RecoveryStore::new();
    let mut files = Files::default();
    persist(&mut store, &mut files, b"one stroke").expect("the checkpoint is written");
    persist(&mut store, &mut files, b"two strokes").expect("the delta is written");
    files.journal.as_mut().expect("journal exists").extend_from_slice(&[8, 0, 0]);

    let (recovered, notice) = load(&files);
    assert_eq!(recovered.state_bytes(), Some(&b"two strokes".to_vec()));
    assert!(notice.is_some_and(|detail| detail.contains("不完整 journal 尾部")));
}

#[test]
fn corrupted_journal_is_quarantined_after_valid_prefix() {
    let mut store = RecoveryStore::new();
    let mut files = Files::default();
    persist(&mut store, &mut files, b"checkpoint state").expect("the checkpoint is written");
    persist(&mut store, &mut files, b"latest state").expect("the delta is written");
    *files.journal.as_mut().and_then(|journal| journal.last_mut()).expect("a full record") ^= 0x5a;

    let (mut recovered, notice) = load(&files);
    assert_eq!(recovered.state_bytes(), Some(&b"checkpoint state".to_vec()));
    assert!(notice.is_some_and(|detail| detail.contains("journal 损坏")));
    let rewritten = recovered.rewrite_checkpoint().expect("the valid prefix is checkpointed again");
    let decoded = decode_record(&rewritten).expect("the new checkpoint decodes");
    assert_eq!(decoded.payload, b"checkpoint state");
    assert_eq!(decoded.sequence, 1);
}

#[test]
fn unknown_checkpoint_version_is_quarantined() {
    let mut store = RecoveryStore::new();
    let mut files = Files::default();
    persist(&mut store, &mut files, b"state").expect("the checkpoint is written");
    let checkpoint = files.checkpoint.as_mut().expect("checkpoint exists");
    checkpoint[8..10].copy_from_slice(&u16::MAX.to_le_bytes());

    let (recovered, notice) = load(&files);
    assert!(recovered.state_bytes().is_none());
    assert!(notice.is_some_and(|detail| detail.contains("版本")));
}

#[test]
fn orphan_journal_and_wrong_kind_are_reported() {
    let orphan = Files {
        checkpoint: None,
        journal: Some(vec![1, 2, 3]),
    };
    let (store, notice) = load(&orphan);
    assert!(store.state_bytes().is_none());
    assert_eq!(notice, Some("缺少恢复检查点，已隔离 journal: isolated".to_owned()));
    let wrong = Files {
        checkpoint: Some(encode_record(RecordKind::Delta, 1, b"x").expect("encodes")),
        journal: None,
    };
    assert_eq!(load(&wrong).1, Some("检查点记录类型无效，已隔离: isolated".to_owned()));
    assert_eq!(load(&Files::default()).1, None);
    let (_, unreadable) = RecoveryStore::from_checkpoint(Some(Err("denied".to_owned())), false);
    assert_eq!(
        checkpoint_diagnostic(&unreadable, "none"),
        Some("检查点损坏，已隔离: denied; none".to_owned())
    );
}

#[test]
fn journal_sequence_gaps_and_checkpoints_are_corruption() {
    let (mut store, _) = RecoveryStore::from_checkpoint(
        Some(Ok(encode_record(RecordKind::Checkpoint, 4, b"base").expect("encodes"))),
        false,
    );
    let checkpoint = encode_record(RecordKind::Checkpoint, 5, b"x").expect("encodes");
    assert_eq!(store.apply_journal_record(&checkpoint), Err(RecoveryError::NotADelta));
    let gap = encode_record(RecordKind::Delta, 9, b"x").expect("encodes");
    assert_eq!(
        store.apply_journal_record(&gap),
        Err(RecoveryError::SequenceGap { expected: 5, actual: 9 })
    );
    let stale = encode_record(RecordKind::Delta, 3, b"x").expect("encodes");
    assert_eq!(store.apply_journal_record(&stale), Ok(()));
    assert_eq!(store.sequence(), 4);
    let mut journal = 100u64.to_le_bytes().to_vec();
    journal.extend_from_slice(&[0; 10]);
    assert_eq!(store.replay_journal(&journal), JournalOutcome::IncompleteTail { valid_end: 0 });
    let huge = u64::MAX.to_le_bytes().to_vec();
    assert_eq!(
        store.replay_journal(&huge),
        JournalOutcome::Corrupt { error: RecoveryError::JournalRecordTooLong }
    );
}

#[test]
fn reset_forgets_the_recovered_state() {
    let mut store = RecoveryStore::new();
    let mut files = Files::default();
    persist(&mut store, &mut files, b"state").expect("written");
    store.reset();
    assert!(store.state_bytes().is_none());
    assert_eq!(store.sequence(), 0);
    assert_eq!(store.deltas_since_checkpoint(), 0);
}

#[test]
fn quarantine_names_and_report() {
    assert_eq!(
        quarantine_target_name(JOURNAL_FILE, 1_700_000_000_123),
        "journal.sink.corrupt-1700000000123"
    );
    assert_eq!(quarantine_summary(&Vec::new()), "没有需要隔离的文件");
    assert_eq!(
        quarantine_summary(&vec!["a".to_owned(), "b".to_owned(), "c".to_owned()]),
        "a, b, c"
    );
    assert_eq!(CHECKPOINT_FILE, "checkpoint.sink");
    assert_eq!(CHECKPOINT_TEMP_FILE, "checkpoint.sink.tmp");
}

#[test]
fn recovery_error_texts() {
    assert_eq!(
        RecoveryError::UnsupportedVersion(65535).message(),
        "恢复格式版本 65535 不受支持，当前版本为 1"
    );
    assert_eq!(
        RecoveryError::SequenceGap { expected: 5, actual: 9 }.message(),
        "journal 序号不连续: 期望 5, 实际 9"
    );
    assert_eq!(RecoveryError::ChecksumMismatch.message(), "恢复记录 CRC32 校验失败");
    assert_eq!(RecoveryError::Io("读取失败".to_owned()).message(), "读取失败");
    assert_eq!(
        journal_diagnostic(&JournalOutcome::Corrupt { error: RecoveryError::MissingBase }, "x"),
        Some("journal 损坏，已保留有效前缀并隔离: 增量记录缺少基础检查点; x".to_owned())
    );
    assert_eq!(journal_diagnostic(&JournalOutcome::Complete, "x"), None);
}

#[test]
fn worker_mailbox_keeps_only_the_latest_state() {
    let mut worker: WorkerState<&str> = WorkerState::new();
    assert!(worker.submit("first"));
    assert!(worker.submit("second"));
    let target = worker.flush_target();
    assert_eq!(target, 2);
    assert_eq!(worker.flush_status(target), FlushStatus::Pending);
    let (request, shutdown) = worker.take_request().expect("a request is waiting");
    assert_eq!(request, Some((2, "second")));
    assert_eq!(shutdown, None);
    worker.mark_processed(2);
    assert_eq!(worker.flush_status(target), FlushStatus::Done);
    worker.request_shutdown(ShutdownMode::Clean);
    assert!(!worker.submit("late"));
    let (request, shutdown) = worker.take_request().expect("the shutdown is waiting");
    assert_eq!(request, None);
    assert_eq!(shutdown, Some(ShutdownMode::Clean));
    worker.mark_stopped();
    assert_eq!(worker.flush_status(3), FlushStatus::Exited);
}

#[test]
fn worker_failure_is_reported_to_flush() {
    let mut worker: WorkerState<u8> = WorkerState::new();
    assert!(worker.submit(1));
    let _ = worker.take_request();
    worker.mark_failed("disk full".to_owned());
    assert_eq!(worker.error(), Some("disk full".to_owned()));
    assert_eq!(worker.flush_status(1), FlushStatus::Failed("disk full".to_owned()));
    assert!(!worker.submit(2));
    assert_eq!(
        RecoveryEvent::Error("disk full".to_owned()),
        RecoveryEvent::Error(worker.error().unwrap_or_default())
    );
}

#[test]
fn framing_follows_the_compression_outcome() {
    assert_eq!(
        frame_record(RecordKind::Checkpoint, 1, b"x", Err("no memory".to_owned())),
        Err(RecoveryError::Compression("no memory".to_owned()))
    );
    assert_eq!(
        frame_record(RecordKind::Checkpoint, 1, b"x", Ok(vec![0; MAX_COMPRESSED_BYTES + 1])),
        Err(RecoveryError::CompressedTooLarge)
    );
    let compressed = zstd::stream::encode_all(&b"steady ink"[..], 3).unwrap();
    let framed = frame_record(RecordKind::Delta, 9, b"steady ink", Ok(compressed.clone())).unwrap();
    assert_eq!(framed.len(), HEADER_SIZE + compressed.len());
    assert_eq!(framed, encode_record(RecordKind::Delta, 9, b"steady ink").unwrap());
    let decoded = decode_record(&framed).unwrap();
    assert_eq!((decoded.kind, decoded.sequence, decoded.payload), (RecordKind::Delta, 9, b"steady ink".to_vec()));
}

#[test]
fn start_up_quarantines_only_what_cannot_be_trusted() {
    let (_, empty) = RecoveryStore::from_checkpoint(None, false);
    assert_eq!(empty.quarantine_scope(), QuarantineScope::Nothing);
    let (_, orphan) = RecoveryStore::from_checkpoint(None, true);
    assert_eq!(orphan, CheckpointLoad::OrphanJournal);
    assert_eq!(orphan.quarantine_scope(), QuarantineScope::Journal);
    let (_, corrupt) = RecoveryStore::from_checkpoint(Some(Ok(vec![1, 2, 3])), true);
    assert_eq!(corrupt.quarantine_scope(), QuarantineScope::All);
    let record = encode_record(RecordKind::Checkpoint, 1, b"state").expect("encodes");
    let (_, loaded) = RecoveryStore::from_checkpoint(Some(Ok(record)), true);
    assert_eq!(loaded.quarantine_scope(), QuarantineScope::Nothing);
}

#[test]
fn persisting_refuses_a_state_that_fails_its_check() {
    let mut store = RecoveryStore::new();
    let refused = store.plan_persist_validated(Err("应用模式与放映会话存在状态不一致".to_owned()), b"state");
    assert_eq!(
        refused,
        Err(RecoveryError::InvalidState("应用模式与放映会话存在状态不一致".to_owned()))
    );
    assert_eq!(
        refused.unwrap_err().message(),
        "应用模式与放映会话存在状态不一致"
    );
    assert!(store.state_bytes().is_none());

    let plan = store.plan_persist_validated(Ok(()), b"state").expect("a valid state is planned");
    assert!(matches!(plan, PersistPlan::Checkpoint { sequence: 1, .. }));
    store.commit_persist(b"state".to_vec(), &plan);
    assert_eq!(
        store.plan_persist_validated(Ok(()), b"state"),
        Ok(PersistPlan::Unchanged)
    );
}

#[test]
fn an_empty_payload_still_compresses_into_a_record() {
    let record = encode_record(RecordKind::Checkpoint, 2, b"").expect("an empty payload encodes");
    let decoded = decode_record(&record).expect("and decodes");
    assert_eq!(decoded.sequence, 2);
    assert!(decoded.payload.is_empty());
    assert!(record.len() > HEADER_SIZE);
}

#[test]
fn crc32_matches_the_ieee_check_value_and_crc32fast() {
    assert_eq!(crc32(b"123456789"), 0xCBF4_3926);
    assert_eq!(crc32(b""), 0);
    let bytes: Vec<u8> = (0..=255u8).cycle().take(4099).collect();
    assert_eq!(crc32(&bytes), crc32fast::hash(&bytes));
    assert_eq!(crc32(b"steady ink"), crc32fast::hash(b"steady ink"));
}

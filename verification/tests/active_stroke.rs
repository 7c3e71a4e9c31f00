use steady_ink::ink::active_stroke::{
    active_stroke_delta_step, sequence_after, ActiveStrokeSequenceError, DeltaHeader, DeltaPlan,
    StrokeSequence,
};

fn delta(gesture_id: u64, revision: u64, from_sample: usize, sample_count: usize) -> DeltaHeader {
    DeltaHeader {
        gesture_id,
        revision,
        from_sample,
        sample_count,
        full_resync: false,
        samples_finite: true,
        style_matches: true,
        overlap_matches: true,
    }
}

#[test]
fn continuous_updates_append_and_repeats_are_ignored() {
    let empty = StrokeSequence { gesture_id: None, revision: 0, sample_count: 0 };
    let first = delta(7, 1, 0, 3);
    let plan = active_stroke_delta_step(empty, first).unwrap();
    assert_eq!(plan, DeltaPlan::Restart { full_redraw: false });
    let held = sequence_after(empty, first, plan);
    assert_eq!(held, StrokeSequence { gesture_id: Some(7), revision: 1, sample_count: 3 });

    let next = delta(7, 2, 3, 2);
    let plan = active_stroke_delta_step(held, next).unwrap();
    assert_eq!(plan, DeltaPlan::Append { skip: 0, revision: 2 });
    let held = sequence_after(held, next, plan);
    assert_eq!(held.sample_count, 5);

    let overlapping = delta(7, 3, 4, 3);
    assert_eq!(active_stroke_delta_step(held, overlapping), Ok(DeltaPlan::Append { skip: 1, revision: 3 }));
    let repeated = delta(7, 1, 2, 3);
    assert_eq!(active_stroke_delta_step(held, repeated), Ok(DeltaPlan::AlreadyPresent { revision: 2 }));
}

#[test]
fn broken_sequences_are_refused_or_restarted() {
    let held = StrokeSequence { gesture_id: Some(7), revision: 4, sample_count: 5 };
    assert_eq!(active_stroke_delta_step(held, delta(7, 5, 9, 1)), Err(ActiveStrokeSequenceError::Discontinuous));
    assert_eq!(active_stroke_delta_step(held, delta(8, 1, 0, 2)), Ok(DeltaPlan::Restart { full_redraw: true }));
    let mut mismatched = delta(7, 5, 3, 4);
    mismatched.overlap_matches = false;
    assert_eq!(active_stroke_delta_step(held, mismatched), Err(ActiveStrokeSequenceError::Discontinuous));
    let mut resync = delta(7, 6, 0, 8);
    resync.full_resync = true;
    assert_eq!(active_stroke_delta_step(held, resync), Ok(DeltaPlan::FullResync));
    resync.from_sample = 1;
    assert_eq!(active_stroke_delta_step(held, resync), Err(ActiveStrokeSequenceError::Discontinuous));
    let mut bad = delta(7, 5, 5, 1);
    bad.samples_finite = false;
    assert_eq!(active_stroke_delta_step(held, bad), Err(ActiveStrokeSequenceError::NonFiniteSample));
}

//! How the render thread sequences the incremental updates of the stroke being
//! drawn: which update extends the retained geometry, which repeats what it
//! already holds, which starts it over, and which breaks the sequence.
//!
//! The geometry itself (filtering, curves, bounds) works on float samples; the
//! comparisons of samples and styles that need them are made by the caller and
//! handed in as facts.

use vstd::prelude::*;

verus! {

/// Why an update cannot be applied; the sender must then resend the whole
/// stroke from its first sample.
#[derive(Debug, Clone, Copy, PartialEq, Eq, Structural)]
pub enum ActiveStrokeSequenceError {
    /// The update does not continue what the cache holds.
    Discontinuous,
    /// A sample is not a finite point.
    NonFiniteSample,
}

/// What the cache holds of the stroke in progress.
#[derive(Debug, Clone, Copy, PartialEq, Eq, Structural)]
pub struct StrokeSequence {
    /// The gesture whose geometry is retained, if any.
    pub gesture_id: Option<u64>,
    /// The last revision applied.
    pub revision: u64,
    /// The raw samples retained.
    pub sample_count: usize,
}

/// An incremental update, with the facts about its samples that the caller found.
#[derive(Debug, Clone, Copy, PartialEq, Eq, Structural)]
pub struct DeltaHeader {
    pub gesture_id: u64,
    pub revision: u64,
    /// The index of the update's first sample within the stroke.
    pub from_sample: usize,
    pub sample_count: usize,
    /// The update carries the whole stroke and replaces what is retained.
    pub full_resync: bool,
    /// Every sample is a finite point.
    pub samples_finite: bool,
    /// The update's style is the one that the retained gesture began with.
    pub style_matches: bool,
    /// The update's samples that overlap retained ones equal them.
    pub overlap_matches: bool,
}

/// What to do with an update.
#[derive(Debug, Clone, Copy, PartialEq, Eq, Structural)]
pub enum DeltaPlan {
    /// All its samples are retained already: only the revision moves, to the later one.
    AlreadyPresent { revision: u64 },
    /// Append its samples from index `skip` on (the ones before are retained) and
    /// rebuild the tail of the geometry.
    Append { skip: usize, revision: u64 },
    /// Drop what is retained and start the gesture over with these samples; the
    /// whole surface is redrawn when another gesture's geometry was retained.
    Restart { full_redraw: bool },
    /// Drop what is retained and rebuild from the complete stroke, redrawing all.
    FullResync,
}

/// The plan for an update, or why it is refused.
pub open spec fn spec_delta_plan(state: StrokeSequence, delta: DeltaHeader) -> Result<DeltaPlan, ActiveStrokeSequenceError> {
    if !delta.samples_finite {
        Err(ActiveStrokeSequenceError::NonFiniteSample)
    } else if delta.full_resync {
        if delta.from_sample != 0 {
            Err(ActiveStrokeSequenceError::Discontinuous)
        } else {
            Ok(DeltaPlan::FullResync)
        }
    } else {
        let same_gesture = state.gesture_id == Some(delta.gesture_id) && delta.style_matches;
        let sequence_matches = same_gesture && delta.from_sample == state.sample_count && delta.revision
            > state.revision;
        if same_gesture && delta.from_sample <= state.sample_count && delta.overlap_matches {
            let already = (state.sample_count - delta.from_sample) as usize;
            if already >= delta.sample_count {
                Ok(DeltaPlan::AlreadyPresent {
                    revision: if state.revision >= delta.revision { state.revision } else { delta.revision },
                })
            } else {
                Ok(DeltaPlan::Append { skip: already, revision: delta.revision })
            }
        } else if !sequence_matches {
            if delta.from_sample != 0 {
                Err(ActiveStrokeSequenceError::Discontinuous)
            } else {
                Ok(DeltaPlan::Restart { full_redraw: state.gesture_id is Some })
            }
        } else {
            Ok(DeltaPlan::Append { skip: 0, revision: delta.revision })
        }
    }
}

/// What the cache holds once a plan is carried out.
pub open spec fn spec_sequence_after(state: StrokeSequence, delta: DeltaHeader, plan: DeltaPlan) -> StrokeSequence {
    match plan {
        DeltaPlan::AlreadyPresent { revision } => StrokeSequence { revision, ..state },
        DeltaPlan::Append { skip, revision } => StrokeSequence {
            gesture_id: Some(delta.gesture_id),
            revision,
            sample_count: (state.sample_count + (delta.sample_count - skip)) as usize,
        },
        DeltaPlan::Restart { .. } | DeltaPlan::FullResync => StrokeSequence {
            gesture_id: Some(delta.gesture_id),
            revision: delta.revision,
            sample_count: delta.sample_count,
        },
    }
}

/// Decides how an incremental update applies to the retained stroke: a finite
/// full resync from the first sample rebuilds everything; an update of the same
/// gesture and style whose overlap matches appends what is new (or, when nothing
/// is new, only keeps the later revision); any other update must start at the
/// first sample and starts the gesture over; everything else breaks the sequence.
pub fn active_stroke_delta_step(state: StrokeSequence, delta: DeltaHeader) -> (res: Result<DeltaPlan, ActiveStrokeSequenceError>)
    ensures
        res == spec_delta_plan(state, delta),
{
    if !delta.samples_finite {
        return Err(ActiveStrokeSequenceError::NonFiniteSample);
    }
    if delta.full_resync {
        if delta.from_sample != 0 {
            return Err(ActiveStrokeSequenceError::Discontinuous);
        }
        return Ok(DeltaPlan::FullResync);
    }
    let same_gesture = match state.gesture_id {
        Some(id) => id == delta.gesture_id && delta.style_matches,
        None => false,
    };
    let sequence_matches = same_gesture && delta.from_sample == state.sample_count && delta.revision
        > state.revision;
    if same_gesture && delta.from_sample <= state.sample_count && delta.overlap_matches {
        let already = state.sample_count - delta.from_sample;
        if already >= delta.sample_count {
            let revision = if state.revision >= delta.revision {
                state.revision
            } else {
                delta.revision
            };
            return Ok(DeltaPlan::AlreadyPresent { revision });
        }
        return Ok(DeltaPlan::Append { skip: already, revision: delta.revision });
    }
    if !sequence_matches {
        if delta.from_sample != 0 {
            return Err(ActiveStrokeSequenceError::Discontinuous);
        }
        return Ok(DeltaPlan::Restart { full_redraw: state.gesture_id.is_some() });
    }
    Ok(DeltaPlan::Append { skip: 0, revision: delta.revision })
}

/// The retained sequence once a plan is carried out; the retained samples must
/// fit in memory.
pub fn sequence_after(state: StrokeSequence, delta: DeltaHeader, plan: DeltaPlan) -> (next: StrokeSequence)
    requires
        plan matches DeltaPlan::Append { skip, .. } ==> skip <= delta.sample_count && state.sample_count
            + (delta.sample_count - skip) <= usize::MAX,
    ensures
        next == spec_sequence_after(state, delta, plan),
{
    match plan {
        DeltaPlan::AlreadyPresent { revision } => StrokeSequence { revision, ..state },
        DeltaPlan::Append { skip, revision } => StrokeSequence {
            gesture_id: Some(delta.gesture_id),
            revision,
            sample_count: state.sample_count + (delta.sample_count - skip),
        },
        DeltaPlan::Restart { .. } | DeltaPlan::FullResync => StrokeSequence {
            gesture_id: Some(delta.gesture_id),
            revision: delta.revision,
            sample_count: delta.sample_count,
        },
    }
}

/// An accepted update leaves the cache on the update's gesture, and an update
/// that adds nothing never moves its revision back; only an update that does not
/// start at the first sample can break the sequence.
pub proof fn lemma_accepted_update_keeps_sequence(state: StrokeSequence, delta: DeltaHeader)
    ensures
        spec_delta_plan(state, delta) matches Ok(plan) ==> ({
            let next = spec_sequence_after(state, delta, plan);
            &&& next.gesture_id == Some(delta.gesture_id)
            &&& (plan matches DeltaPlan::Append { skip, .. } ==> skip <= delta.sample_count)
            &&& (plan is AlreadyPresent ==> next.revision >= state.revision && next.revision
                >= delta.revision)
        }),
        spec_delta_plan(state, delta) == Err::<DeltaPlan, ActiveStrokeSequenceError>(
            ActiveStrokeSequenceError::Discontinuous,
        ) ==> delta.from_sample != 0,
{
}

} // verus!

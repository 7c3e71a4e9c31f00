//! The native pen's state in the message hook: which pens are in range,
//! which touch the screen, each contact's phase, and a monotonic timestamp per
//! contact from the best time source the driver offers.

use std::collections::{HashMap, HashSet};
use vstd::prelude::*;

use crate::input::windows_pointer::{
    pen_phase_for_message, spec_pen_phase, PenPhase, WM_POINTERCAPTURECHANGED, WM_POINTERLEAVE,
};

verus! {

broadcast use vstd::std_specs::hash::group_hash_axioms;

/// What the system reports of a pen pointer with its message.
#[derive(Debug, Clone, Copy, PartialEq, Eq, Structural)]
pub struct PenInfo {
    /// `POINTER_FLAG_INRANGE` is set.
    pub in_range: bool,
    /// `POINTER_FLAG_INCONTACT` is set.
    pub in_contact: bool,
    /// The high-resolution counter value; zero when absent.
    pub performance_count: u64,
    /// The message time in milliseconds; zero when absent.
    pub dw_time: u32,
}

/// The time source a pen contact keeps from its first sample on.
#[derive(Debug, Clone, Copy, PartialEq, Eq, Structural)]
pub enum PenTimeSource {
    /// The high-resolution performance counter.
    Qpc,
    /// The message time, unwrapped across its 32-bit wrap-around.
    DwTime { last_raw: Option<u32>, unwrapped_millis: u64 },
    /// The arrival time at the hook.
    Arrival,
}

/// A contact's time source and the last timestamp it gave.
#[derive(Debug, Clone, Copy, PartialEq, Eq, Structural)]
pub struct PenTimeState {
    pub source: PenTimeSource,
    pub last_micros: u64,
}

/// The source a new contact uses: the performance counter when it reports one
/// and the counter works, else the message time when it reports one, else the
/// arrival time.
pub open spec fn chosen_source(info: Option<PenInfo>, qpc_available: bool) -> PenTimeSource {
    match info {
        Some(i) => if i.performance_count > 0 && qpc_available {
            PenTimeSource::Qpc
        } else if i.dw_time > 0 {
            PenTimeSource::DwTime { last_raw: None, unwrapped_millis: 0 }
        } else {
            PenTimeSource::Arrival
        },
        None => PenTimeSource::Arrival,
    }
}

/// Chooses a new contact's time source.
pub fn begin_pen_time_source(info: Option<PenInfo>, qpc_available: bool) -> (state: PenTimeState)
    ensures
        state == (PenTimeState { source: chosen_source(info, qpc_available), last_micros: 0 }),
{
    let source = match info {
        Some(i) => if i.performance_count > 0 && qpc_available {
            PenTimeSource::Qpc
        } else if i.dw_time > 0 {
            PenTimeSource::DwTime { last_raw: None, unwrapped_millis: 0 }
        } else {
            PenTimeSource::Arrival
        },
        None => PenTimeSource::Arrival,
    };
    PenTimeState { source, last_micros: 0 }
}

/// `a * b`, saturating at the largest `u64`.
pub open spec fn saturating_product(a: u64, b: u64) -> u64 {
    if a * b > u64::MAX {
        u64::MAX
    } else {
        (a * b) as u64
    }
}

/// The message time unwrapped: the first time counts from zero; after that a
/// step of at most half the 32-bit range forward is added, a larger one (a
/// step backwards) is ignored.
pub open spec fn unwrapped_after(last_raw: Option<u32>, unwrapped_millis: u64, raw: u32) -> u64 {
    match last_raw {
        None => raw as u64,
        Some(previous) => {
            let delta = if raw >= previous {
                (raw - previous) as int
            } else {
                raw + 0x1_0000_0000 - previous
            };
            if delta <= u32::MAX / 2 {
                if unwrapped_millis + delta > u64::MAX {
                    u64::MAX
                } else {
                    (unwrapped_millis + delta) as u64
                }
            } else {
                unwrapped_millis
            }
        },
    }
}

/// The time source after a sample, and the raw timestamp it gives before the
/// monotonic clamp.
pub open spec fn sampled(
    source: PenTimeSource,
    info: PenInfo,
    qpc_micros: Option<u64>,
    arrival_micros: u64,
) -> (PenTimeSource, u64) {
    match source {
        PenTimeSource::Qpc => if info.performance_count > 0 {
            (
                source,
                match qpc_micros {
                    Some(micros) => micros,
                    None => arrival_micros,
                },
            )
        } else {
            (source, arrival_micros)
        },
        PenTimeSource::DwTime { last_raw, unwrapped_millis } => if info.dw_time > 0 {
            let unwrapped = unwrapped_after(last_raw, unwrapped_millis, info.dw_time);
            (
                PenTimeSource::DwTime { last_raw: Some(info.dw_time), unwrapped_millis: unwrapped },
                saturating_product(unwrapped, 1000),
            )
        } else {
            (source, arrival_micros)
        },
        PenTimeSource::Arrival => (source, arrival_micros),
    }
}

impl PenTimeState {
    /// The contact's timestamp for a sample, never earlier than the one before:
    /// `qpc_micros` is the performance counter converted to microseconds, if
    /// that worked, and `arrival_micros` the hook's own clock.
    pub fn timestamp(&mut self, info: PenInfo, qpc_micros: Option<u64>, arrival_micros: u64) -> (micros: u64)
        ensures
            ({
                let (source, raw) = sampled(old(self).source, info, qpc_micros, arrival_micros);
                &&& final(self).source == source
                &&& micros == (if raw > old(self).last_micros {
                    raw
                } else {
                    old(self).last_micros
                })
                &&& final(self).last_micros == micros
            }),
            micros >= old(self).last_micros,
    {
        let raw = match self.source {
            PenTimeSource::Qpc => {
                if info.performance_count > 0 {
                    match qpc_micros {
                        Some(micros) => micros,
                        None => arrival_micros,
                    }
                } else {
                    arrival_micros
                }
            },
            PenTimeSource::DwTime { last_raw, unwrapped_millis } => {
                if info.dw_time > 0 {
                    let raw_time = info.dw_time;
                    let unwrapped = match last_raw {
                        Some(previous) => {
                            let delta = raw_time.wrapping_sub(previous);
                            if delta <= u32::MAX / 2 {
                                unwrapped_millis.saturating_add(delta as u64)
                            } else {
                                unwrapped_millis
                            }
                        },
                        None => raw_time as u64,
                    };
                    self.source = PenTimeSource::DwTime {
                        last_raw: Some(raw_time),
                        unwrapped_millis: unwrapped,
                    };
                    match unwrapped.checked_mul(1000) {
                        Some(micros) => micros,
                        None => u64::MAX,
                    }
                } else {
                    arrival_micros
                }
            },
            PenTimeSource::Arrival => arrival_micros,
        };
        if raw > self.last_micros {
            self.last_micros = raw;
        }
        self.last_micros
    }
}

/// What a pen message means.
#[derive(Debug, Clone, Copy, PartialEq, Eq, Structural)]
pub struct PenMessageOutcome {
    /// The contact's phase, if the message changes or continues a contact.
    pub phase: Option<PenPhase>,
    /// Without a phase: whether some pen is now in range, when that changed.
    pub activity: Option<bool>,
    /// Some pen is in range, so every palm classification is dropped.
    pub palm_reset: bool,
}

/// The pens in range, the pens in contact, and each contact's time source.
#[derive(Debug)]
pub struct PenTracker {
    pen_ids: HashSet<u32>,
    pen_contact_ids: HashSet<u32>,
    time_sources: HashMap<u32, PenTimeState>,
}

impl PenTracker {
    /// The pens in range.
    pub closed spec fn pens(&self) -> Set<u32> {
        self.pen_ids@
    }

    /// The pens touching the screen.
    pub closed spec fn contacts(&self) -> Set<u32> {
        self.pen_contact_ids@
    }

    /// Each contact's time source.
    pub closed spec fn sources(&self) -> Map<u32, PenTimeState> {
        self.time_sources@
    }

    /// No pen seen yet.
    pub fn new() -> (tracker: PenTracker)
        ensures
            tracker.pens() == Set::<u32>::empty(),
            tracker.contacts() == Set::<u32>::empty(),
            tracker.sources() == Map::<u32, PenTimeState>::empty(),
    {
        PenTracker { pen_ids: HashSet::new(), pen_contact_ids: HashSet::new(), time_sources: HashMap::new() }
    }

    /// Whether some pen touches the screen.
    pub fn pen_contact_active(&self) -> (active: bool)
        ensures
            active == !self.contacts().is_empty(),
    {
        !self.pen_contact_ids.is_empty()
    }

    /// Whether some pen is in range.
    pub fn pen_active(&self) -> (active: bool)
        ensures
            active == !self.pens().is_empty(),
    {
        !self.pen_ids.is_empty()
    }

    /// Whether `pointer_id` is a pen in range, for a leave message whose
    /// pointer can no longer be queried.
    pub fn is_known_pen(&self, pointer_id: u32) -> (known: bool)
        ensures
            known == self.pens().contains(pointer_id),
    {
        self.pen_ids.contains(&pointer_id)
    }

    /// Updates the range and contact sets for a pen message and gives its
    /// phase; a contact that begins gets its time source.
    pub fn handle_pen_message(
        &mut self,
        pointer_id: u32,
        message: u32,
        info: Option<PenInfo>,
        qpc_available: bool,
    ) -> (outcome: PenMessageOutcome)
        ensures
            ({
                let in_range = info matches Some(i) && i.in_range;
                let leaving = message == WM_POINTERLEAVE || message == WM_POINTERCAPTURECHANGED
                    || !in_range;
                let pens = if leaving {
                    old(self).pens().remove(pointer_id)
                } else {
                    old(self).pens().insert(pointer_id)
                };
                let was_active = !old(self).pens().is_empty();
                let is_active = !pens.is_empty();
                let phase = spec_pen_phase(
                    message,
                    old(self).contacts().contains(pointer_id),
                    info matches Some(i) && i.in_contact,
                );
                &&& final(self).pens() == pens
                &&& final(self).contacts() == match phase {
                    Some(PenPhase::Begin) | Some(PenPhase::Move) => old(self).contacts().insert(
                        pointer_id,
                    ),
                    Some(PenPhase::End) | Some(PenPhase::Cancel) => old(self).contacts().remove(
                        pointer_id,
                    ),
                    None => old(self).contacts(),
                }
                &&& final(self).sources() == (if phase == Some(PenPhase::Begin) {
                    old(self).sources().insert(
                        pointer_id,
                        PenTimeState { source: chosen_source(info, qpc_available), last_micros: 0 },
                    )
                } else {
                    old(self).sources()
                })
                &&& outcome.phase == phase
                &&& outcome.palm_reset == is_active
                &&& outcome.activity == (if phase is None && was_active != is_active {
                    Some(is_active)
                } else {
                    None
                })
            }),
    {
        let was_active = !self.pen_ids.is_empty();
        let in_range = match info {
            Some(i) => i.in_range,
            None => false,
        };
        if message == WM_POINTERLEAVE || message == WM_POINTERCAPTURECHANGED || !in_range {
            self.pen_ids.remove(&pointer_id);
        } else {
            self.pen_ids.insert(pointer_id);
        }
        let is_active = !self.pen_ids.is_empty();
        let was_in_contact = self.pen_contact_ids.contains(&pointer_id);
        let is_in_contact = match info {
            Some(i) => i.in_contact,
            None => false,
        };
        let phase = pen_phase_for_message(message, was_in_contact, is_in_contact);
        match phase {
            Some(PenPhase::Begin) | Some(PenPhase::Move) => {
                self.pen_contact_ids.insert(pointer_id);
            },
            Some(PenPhase::End) | Some(PenPhase::Cancel) => {
                self.pen_contact_ids.remove(&pointer_id);
            },
            None => {},
        }
        if phase == Some(PenPhase::Begin) {
            self.time_sources.insert(pointer_id, begin_pen_time_source(info, qpc_available));
        }
        let activity = if phase.is_none() && was_active != is_active {
            Some(is_active)
        } else {
            None
        };
        PenMessageOutcome { phase, activity, palm_reset: is_active }
    }

    /// The timestamp of a pen sample of `pointer_id`; a contact without a time
    /// source gets one from this sample first.
    pub fn pen_timestamp(
        &mut self,
        pointer_id: u32,
        info: PenInfo,
        qpc_available: bool,
        qpc_micros: Option<u64>,
        arrival_micros: u64,
    ) -> (micros: u64)
        ensures
            ({
                let state = if old(self).sources().contains_key(pointer_id) {
                    old(self).sources()[pointer_id]
                } else {
                    PenTimeState { source: chosen_source(Some(info), qpc_available), last_micros: 0 }
                };
                let (source, raw) = sampled(state.source, info, qpc_micros, arrival_micros);
                let next = PenTimeState {
                    source,
                    last_micros: if raw > state.last_micros {
                        raw
                    } else {
                        state.last_micros
                    },
                };
                &&& micros == next.last_micros
                &&& micros >= state.last_micros
                &&& final(self).sources() == old(self).sources().insert(pointer_id, next)
            }),
            final(self).pens() == old(self).pens(),
            final(self).contacts() == old(self).contacts(),
    {
        let mut state = match self.time_sources.get(&pointer_id) {
            Some(state) => *state,
            None => begin_pen_time_source(Some(info), qpc_available),
        };
        let micros = state.timestamp(info, qpc_micros, arrival_micros);
        self.time_sources.insert(pointer_id, state);
        micros
    }

    /// Forgets the time source of a contact that ended or was cancelled.
    pub fn release_time_source(&mut self, pointer_id: u32)
        ensures
            final(self).sources() == old(self).sources().remove(pointer_id),
            final(self).pens() == old(self).pens(),
            final(self).contacts() == old(self).contacts(),
    {
        self.time_sources.remove(&pointer_id);
    }
}

/// A contact's timestamps never go back: each is at least the one before.
pub proof fn lemma_timestamps_are_monotonic(
    state: PenTimeState,
    info: PenInfo,
    qpc_micros: Option<u64>,
    arrival_micros: u64,
)
    ensures
        ({
            let (_, raw) = sampled(state.source, info, qpc_micros, arrival_micros);
            (if raw > state.last_micros {
                raw
            } else {
                state.last_micros
            }) >= state.last_micros
        }),
{
}

/// The message time keeps counting across its 32-bit wrap-around: a step
/// forward past the wrap adds the real elapsed milliseconds.
pub proof fn lemma_message_time_unwraps(previous: u32, raw: u32, unwrapped_millis: u64)
    requires
        raw < previous,
        raw + 0x1_0000_0000 - previous <= u32::MAX / 2,
        unwrapped_millis + (raw + 0x1_0000_0000 - previous) <= u64::MAX,
    ensures
        unwrapped_after(Some(previous), unwrapped_millis, raw) == unwrapped_millis + (raw
            + 0x1_0000_0000 - previous),
{
}

} // verus!

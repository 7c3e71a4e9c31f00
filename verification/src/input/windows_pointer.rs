//! The pure decisions of the native Pointer Input hook.

use std::sync::Arc;
use std::sync::atomic::AtomicU8;
use vstd::prelude::*;

verus! {

/// `WM_TOUCH`.
pub const WM_TOUCH: u32 = 0x0240;
/// `WM_POINTERUPDATE`.
pub const WM_POINTERUPDATE: u32 = 0x0245;
/// `WM_POINTERDOWN`.
pub const WM_POINTERDOWN: u32 = 0x0246;
/// `WM_POINTERUP`.
pub const WM_POINTERUP: u32 = 0x0247;
/// `WM_POINTERENTER`.
pub const WM_POINTERENTER: u32 = 0x0249;
/// `WM_POINTERLEAVE`.
pub const WM_POINTERLEAVE: u32 = 0x024A;
/// `WM_POINTERCAPTURECHANGED`.
pub const WM_POINTERCAPTURECHANGED: u32 = 0x024C;
/// `POINTER_FLAG_INRANGE`.
pub const POINTER_FLAG_INRANGE: u32 = 0x0002;
/// `POINTER_FLAG_INCONTACT`.
pub const POINTER_FLAG_INCONTACT: u32 = 0x0004;
/// `POINTER_FLAG_CONFIDENCE`.
pub const POINTER_FLAG_CONFIDENCE: u32 = 0x4000;
/// `TOUCHEVENTF_PALM`.
pub const TOUCHEVENTF_PALM: u32 = 0x0080;

/// The palm size preset that classifies touch contacts as palms.
#[derive(Debug, Clone, Copy, PartialEq, Eq, Structural)]
pub enum PalmSizePreset {
    Small,
    Standard,
    Large,
}

/// The stable small integer that stands for each preset in the shared atomic.
pub open spec fn spec_palm_size_code(preset: PalmSizePreset) -> u8 {
    match preset {
        PalmSizePreset::Small => 0,
        PalmSizePreset::Standard => 1,
        PalmSizePreset::Large => 2,
    }
}

/// The preset that a shared code stands for; unknown codes fall back to the standard size.
pub open spec fn spec_palm_size_from_code(code: u8) -> PalmSizePreset {
    if code == 0 {
        PalmSizePreset::Small
    } else if code == 2 {
        PalmSizePreset::Large
    } else {
        PalmSizePreset::Standard
    }
}

/// Encodes a preset for the shared atomic.
pub fn palm_size_code(preset: PalmSizePreset) -> (code: u8)
    ensures
        code == spec_palm_size_code(preset),
{
    match preset {
        PalmSizePreset::Small => 0,
        PalmSizePreset::Standard => 1,
        PalmSizePreset::Large => 2,
    }
}

/// Decodes a shared code; unknown codes fall back to the standard size.
pub fn palm_size_from_code(code: u8) -> (preset: PalmSizePreset)
    ensures
        preset == spec_palm_size_from_code(code),
{
    match code {
        0 => PalmSizePreset::Small,
        2 => PalmSizePreset::Large,
        _ => PalmSizePreset::Standard,
    }
}

/// Decoding the code of a preset gives the preset back.
pub proof fn lemma_palm_size_code_round_trip(preset: PalmSizePreset)
    ensures
        spec_palm_size_from_code(spec_palm_size_code(preset)) == preset,
{
}

/// The palm size preset shared between the native message hook and the settings.
#[derive(Clone)]
pub struct SharedPalmSizePreset(Arc<AtomicU8>);

impl SharedPalmSizePreset {
    /// A shared preset that starts at the standard size.
    pub fn new() -> (shared: SharedPalmSizePreset) {
        SharedPalmSizePreset(Arc::new(AtomicU8::new(palm_size_code(PalmSizePreset::Standard))))
    }

    /// Publishes the preset that the next touch message uses.
    pub fn store(&self, preset: PalmSizePreset) {
        self.0.store(palm_size_code(preset), std::sync::atomic::Ordering::Release);
    }

    /// Reads the current preset; an unknown code reads as the standard size.
    pub fn load(&self) -> (preset: PalmSizePreset) {
        let code = self.0.load(std::sync::atomic::Ordering::Acquire);
        palm_size_from_code(code)
    }
}

/// One native pen contact's phase.
#[derive(Debug, Clone, Copy, PartialEq, Eq, Structural)]
pub enum PenPhase {
    Begin,
    Move,
    End,
    Cancel,
}

/// One palm-erase session's phase.
#[derive(Debug, Clone, Copy, PartialEq, Eq, Structural)]
pub enum PalmErasePhase {
    Begin,
    Move,
    End,
}

/// The pen contact phase that a pointer message and its contact flags stand for.
pub open spec fn spec_pen_phase(message: u32, was_in_contact: bool, is_in_contact: bool) -> Option<PenPhase> {
    if message == WM_POINTERDOWN {
        Some(PenPhase::Begin)
    } else if message == WM_POINTERUPDATE && is_in_contact {
        Some(PenPhase::Move)
    } else if message == WM_POINTERUPDATE && was_in_contact {
        Some(PenPhase::Cancel)
    } else if message == WM_POINTERUP {
        Some(PenPhase::End)
    } else if (message == WM_POINTERLEAVE || message == WM_POINTERCAPTURECHANGED)
        && was_in_contact {
        Some(PenPhase::Cancel)
    } else {
        None
    }
}

/// Normalises a pen message and its contact flags into the phase of one contact: an
/// update that lost contact cancels the stroke.
pub fn pen_phase_for_message(message: u32, was_in_contact: bool, is_in_contact: bool) -> (phase: Option<PenPhase>)
    ensures
        phase == spec_pen_phase(message, was_in_contact, is_in_contact),
{
    if message == WM_POINTERDOWN {
        Some(PenPhase::Begin)
    } else if message == WM_POINTERUPDATE && is_in_contact {
        Some(PenPhase::Move)
    } else if message == WM_POINTERUPDATE && was_in_contact {
        Some(PenPhase::Cancel)
    } else if message == WM_POINTERUP {
        Some(PenPhase::End)
    } else if (message == WM_POINTERLEAVE || message == WM_POINTERCAPTURECHANGED)
        && was_in_contact {
        Some(PenPhase::Cancel)
    } else {
        None
    }
}

/// Whether the message is one of the pointer messages the hook observes.
pub fn is_pointer_message(message: u32) -> (observed: bool)
    ensures
        observed == (message == WM_POINTERDOWN || message == WM_POINTERUPDATE || message
            == WM_POINTERUP || message == WM_POINTERENTER || message == WM_POINTERLEAVE || message
            == WM_POINTERCAPTURECHANGED),
{
    message == WM_POINTERDOWN || message == WM_POINTERUPDATE || message == WM_POINTERUP
        || message == WM_POINTERENTER || message == WM_POINTERLEAVE || message
        == WM_POINTERCAPTURECHANGED
}

/// Whether the pointer flags hold `flag`.
pub fn has_pointer_flag(pointer_flags: u32, flag: u32) -> (set: bool)
    ensures
        set == (pointer_flags & flag != 0),
{
    pointer_flags & flag != 0
}

/// Whether the palm branch owns a WM_TOUCH contact: a system palm, or a contact that
/// it already tracks, up to its end.
pub fn wm_touch_input_is_claimed(touch_flags: u32, already_owned: bool) -> (claimed: bool)
    ensures
        claimed == (already_owned || touch_flags & TOUCHEVENTF_PALM != 0),
{
    already_owned || touch_flags & TOUCHEVENTF_PALM != 0
}

/// Whether a touch frame is newer than the current one: by frame id, modulo its
/// wrap-around, or by timestamp when the driver reports no frame ids.
pub open spec fn spec_touch_frame_is_newer(
    next_frame_id: u32,
    current_frame_id: u32,
    next_timestamp_micros: u64,
    current_timestamp_micros: u64,
) -> bool {
    if next_frame_id == 0 || current_frame_id == 0 {
        next_timestamp_micros > current_timestamp_micros
    } else {
        let delta = if next_frame_id >= current_frame_id {
            next_frame_id - current_frame_id
        } else {
            next_frame_id + 0x1_0000_0000 - current_frame_id
        };
        delta != 0 && delta <= 0x7fff_ffff
    }
}

/// Decides whether a touch frame is newer than the current one.
pub fn touch_frame_is_newer(
    next_frame_id: u32,
    current_frame_id: u32,
    next_timestamp_micros: u64,
    current_timestamp_micros: u64,
) -> (newer: bool)
    ensures
        newer == spec_touch_frame_is_newer(
            next_frame_id,
            current_frame_id,
            next_timestamp_micros,
            current_timestamp_micros,
        ),
{
    if next_frame_id == 0 || current_frame_id == 0 {
        return next_timestamp_micros > current_timestamp_micros;
    }
    let delta = next_frame_id.wrapping_sub(current_frame_id);
    delta != 0 && delta <= u32::MAX / 2
}

/// The first `count` history entries that Windows returned newest first, oldest first.
pub open spec fn spec_chronological_history<T>(history: Seq<T>, count: nat) -> Seq<T> {
    let n = if count < history.len() {
        count
    } else {
        history.len()
    };
    history.take(n as int).reverse()
}

/// Returns the initialised history entries, at most `count` of them, oldest first.
pub fn chronological_pointer_history<T: Copy>(history: &[T], count: usize) -> (ordered: Vec<T>)
    ensures
        ordered@ == spec_chronological_history(history@, count as nat),
{
    let n = if count < history.len() {
        count
    } else {
        history.len()
    };
    let mut ordered: Vec<T> = Vec::new();
    let mut i: usize = n;
    while i > 0
        invariant
            n <= history@.len(),
            i <= n,
            ordered@ == history@.take(n as int).reverse().take(n - i),
        decreases i,
    {
        i = i - 1;
        ordered.push(history[i]);
        assert(ordered@ =~= history@.take(n as int).reverse().take(n - i));
    }
    assert(history@.take(n as int).reverse().take(n as int) =~= history@.take(n as int).reverse());
    ordered
}

/// How many complete frames of `pointer_count` contacts the history holds, at most
/// `entries_count`.
pub open spec fn touch_frames(len: nat, entries_count: nat, pointer_count: nat) -> nat {
    if pointer_count == 0 {
        0
    } else if entries_count < len / pointer_count {
        entries_count
    } else {
        len / pointer_count
    }
}

/// The touch history matrix in time order: the frames, each `pointer_count` wide,
/// that Windows returned newest first are reversed; the contacts inside a frame keep
/// their order.
pub open spec fn spec_chronological_touch_history<T>(
    history: Seq<T>,
    entries_count: nat,
    pointer_count: nat,
) -> Seq<T> {
    let frames = touch_frames(history.len(), entries_count, pointer_count);
    Seq::new(
        frames * pointer_count,
        |k: int| history[(frames - 1 - k / (pointer_count as int)) * pointer_count + k % (
        pointer_count as int)],
    )
}

/// Returns the touch history frames oldest first, each frame's contacts in order.
pub fn chronological_touch_history<T: Copy>(
    history: &[T],
    entries_count: usize,
    pointer_count: usize,
) -> (ordered: Vec<T>)
    ensures
        ordered@ == spec_chronological_touch_history(
            history@,
            entries_count as nat,
            pointer_count as nat,
        ),
{
    let frames = if pointer_count == 0 {
        0
    } else if entries_count < history.len() / pointer_count {
        entries_count
    } else {
        history.len() / pointer_count
    };
    let ghost target = spec_chronological_touch_history(
        history@,
        entries_count as nat,
        pointer_count as nat,
    );
    let mut ordered: Vec<T> = Vec::new();
    let history_len = history.len();
    if pointer_count == 0 {
        assert(ordered@ =~= target);
        return ordered;
    }
    proof {
        let len = history@.len() as int;
        let pc = pointer_count as int;
        assert(frames * pc <= len) by (nonlinear_arith)
            requires
                frames <= len / pc,
                pc > 0,
                len >= 0,
        ;
    }
    let mut entry: usize = frames;
    while entry > 0
        invariant
            pointer_count > 0,
            history_len == history@.len(),
            frames == touch_frames(history@.len(), entries_count as nat, pointer_count as nat),
            frames * pointer_count <= history@.len(),
            entry <= frames,
            target == spec_chronological_touch_history(
                history@,
                entries_count as nat,
                pointer_count as nat,
            ),
            target.len() == frames * pointer_count,
            ordered@ == target.take((frames - entry) * pointer_count),
        decreases entry,
    {
        entry = entry - 1;
        proof {
            assert((entry + 1) * pointer_count <= frames * pointer_count) by (nonlinear_arith)
                requires
                    entry + 1 <= frames,
            ;
            assert((entry + 1) * pointer_count == entry * pointer_count + pointer_count) by (nonlinear_arith);
            assert(entry * pointer_count + pointer_count <= history@.len());
        }
        let start = entry * pointer_count;
        let mut j: usize = 0;
        while j < pointer_count
            invariant
                pointer_count > 0,
                history_len == history@.len(),
                frames == touch_frames(history@.len(), entries_count as nat, pointer_count as nat),
                frames * pointer_count <= history@.len(),
                entry < frames,
                start == entry * pointer_count,
                start + pointer_count <= history@.len(),
                target == spec_chronological_touch_history(
                    history@,
                    entries_count as nat,
                    pointer_count as nat,
                ),
                target.len() == frames * pointer_count,
                j <= pointer_count,
                ordered@ == target.take((frames - 1 - entry) * pointer_count + j),
            decreases pointer_count - j,
        {
            let ghost k = (frames - 1 - entry) * pointer_count + j;
            proof {
                assert(k / (pointer_count as int) == frames - 1 - entry && k % (pointer_count as int) == j) by {
                    vstd::arithmetic::div_mod::lemma_fundamental_div_mod_converse(
                        k,
                        pointer_count as int,
                        (frames - 1 - entry) as int,
                        j as int,
                    );
                }
                assert(k < frames * pointer_count) by (nonlinear_arith)
                    requires
                        k == (frames - 1 - entry) * pointer_count + j,
                        j < pointer_count,
                        entry < frames,
                ;
            }
            proof {
                let q = k / (pointer_count as int);
                assert(q == frames - 1 - entry);
                let a = frames - 1 - q;
                assert(a == entry);
                assert(a * pointer_count == entry * pointer_count);
                assert(target[k] == history@[a * pointer_count + j]);
            }
            assert(target[k] == history@[start + j]);
            ordered.push(history[start + j]);
            j = j + 1;
            assert(ordered@ =~= target.take((frames - 1 - entry) * pointer_count + j));
        }
        proof {
            assert((frames - 1 - entry) * pointer_count + pointer_count == (frames - entry) * pointer_count) by (nonlinear_arith);
        }
    }
    assert(ordered@ =~= target);
    ordered
}

} // verus!

use steady_ink::input::windows_pointer::{
    chronological_pointer_history, chronological_touch_history, has_pointer_flag,
    is_pointer_message, palm_size_code, palm_size_from_code, pen_phase_for_message,
    touch_frame_is_newer, wm_touch_input_is_claimed, PalmSizePreset, PenPhase,
    SharedPalmSizePreset, POINTER_FLAG_INCONTACT, POINTER_FLAG_INRANGE, TOUCHEVENTF_PALM, WM_POINTERCAPTURECHANGED,
    WM_POINTERDOWN, WM_POINTERENTER, WM_POINTERLEAVE, WM_POINTERUP, WM_POINTERUPDATE, WM_TOUCH,
};

/// `TOUCHEVENTF_DOWN` of the Win32 touch API.
const TOUCHEVENTF_DOWN: u32 = 0x0002;

#[test]
fn wm_touch_claims_only_system_or_tracked_palms() {
    let ordinary = 0;
    let system_palm = TOUCHEVENTF_DOWN | TOUCHEVENTF_PALM;

    assert!(!wm_touch_input_is_claimed(ordinary, false));
    assert!(wm_touch_input_is_claimed(system_palm, false));
    assert!(wm_touch_input_is_claimed(ordinary, true));
}

#[test]
fn pen_update_without_contact_cancels_active_session() {
    assert_eq!(
        pen_phase_for_message(WM_POINTERUPDATE, true, false),
        Some(PenPhase::Cancel)
    );
    assert_eq!(pen_phase_for_message(WM_POINTERUPDATE, false, false), None);
}

#[test]
fn pointer_history_is_chronological_and_bounded() {
    let history: [u32; 3] = [3, 2, 1];

    let frame_ids: Vec<u32> = chronological_pointer_history(&history, usize::MAX);

    assert_eq!(frame_ids, vec![1, 2, 3]);
}

#[test]
fn touch_history_is_chronological_and_bounded() {
    let history: [(u32, u32); 4] = [(3, 31), (3, 32), (2, 21), (2, 22)];

    let identifiers = chronological_touch_history(&history, usize::MAX, 2);

    assert_eq!(identifiers, vec![(2, 21), (2, 22), (3, 31), (3, 32)]);
    assert_eq!(chronological_touch_history(&history, 2, 0).len(), 0);
}

#[test]
fn history_keeps_only_the_reported_entries() {
    let history: [u32; 4] = [4, 3, 2, 1];
    assert_eq!(chronological_pointer_history(&history, 2), vec![3, 4]);
    assert_eq!(chronological_pointer_history(&history, 0), Vec::<u32>::new());
    let touches: [(u32, u32); 6] = [(3, 1), (3, 2), (2, 1), (2, 2), (1, 1), (1, 2)];
    assert_eq!(
        chronological_touch_history(&touches, 2, 2),
        vec![(2, 1), (2, 2), (3, 1), (3, 2)]
    );
}

#[test]
fn pen_messages_map_to_contact_phases() {
    assert_eq!(pen_phase_for_message(WM_POINTERDOWN, false, true), Some(PenPhase::Begin));
    assert_eq!(pen_phase_for_message(WM_POINTERUPDATE, true, true), Some(PenPhase::Move));
    assert_eq!(pen_phase_for_message(WM_POINTERUP, true, false), Some(PenPhase::End));
    assert_eq!(pen_phase_for_message(WM_POINTERLEAVE, true, false), Some(PenPhase::Cancel));
    assert_eq!(
        pen_phase_for_message(WM_POINTERCAPTURECHANGED, true, false),
        Some(PenPhase::Cancel)
    );
    assert_eq!(pen_phase_for_message(WM_POINTERLEAVE, false, false), None);
    assert!(is_pointer_message(WM_POINTERENTER));
    assert!(!is_pointer_message(WM_TOUCH));
    assert!(has_pointer_flag(POINTER_FLAG_INRANGE | POINTER_FLAG_INCONTACT, POINTER_FLAG_INCONTACT));
    assert!(!has_pointer_flag(POINTER_FLAG_INRANGE, POINTER_FLAG_INCONTACT));
}

#[test]
fn touch_frames_order_by_id_with_wraparound() {
    assert!(touch_frame_is_newer(5, 4, 0, 0));
    assert!(!touch_frame_is_newer(4, 4, 10, 0));
    assert!(touch_frame_is_newer(1, u32::MAX, 0, 0));
    assert!(!touch_frame_is_newer(4, 5, 0, 0));
    assert!(touch_frame_is_newer(0, 7, 11, 10));
    assert!(!touch_frame_is_newer(0, 7, 10, 10));
}

#[test]
fn palm_presets_round_trip_through_the_shared_code() {
    for preset in [PalmSizePreset::Small, PalmSizePreset::Standard, PalmSizePreset::Large] {
        assert_eq!(palm_size_from_code(palm_size_code(preset)), preset);
    }
    assert_eq!(palm_size_from_code(200), PalmSizePreset::Standard);
    let shared = SharedPalmSizePreset::new();
    assert_eq!(shared.load(), PalmSizePreset::Standard);
    shared.store(PalmSizePreset::Large);
    assert_eq!(shared.clone().load(), PalmSizePreset::Large);
}

use steady_ink::input::pen_tracker::{
    begin_pen_time_source, PenInfo, PenTimeSource, PenTimeState, PenTracker,
};

fn info(in_range: bool, in_contact: bool, performance_count: u64, dw_time: u32) -> PenInfo {
    PenInfo {
        in_range,
        in_contact,
        performance_count,
        dw_time,
    }
}

#[test]
fn pen_contact_lifecycle_tracks_range_and_contact() {
    let mut tracker = PenTracker::new();
    let hover = tracker.handle_pen_message(7, WM_POINTERUPDATE, Some(info(true, false, 0, 0)), false);
    assert_eq!(hover.phase, None);
    assert_eq!(hover.activity, Some(true));
    assert!(hover.palm_reset);
    assert!(tracker.pen_active());
    assert!(tracker.is_known_pen(7));

    let down = tracker.handle_pen_message(7, WM_POINTERDOWN, Some(info(true, true, 0, 10)), false);
    assert_eq!(down.phase, Some(PenPhase::Begin));
    assert_eq!(down.activity, None);
    assert!(tracker.pen_contact_active());

    let up = tracker.handle_pen_message(7, WM_POINTERUP, Some(info(true, false, 0, 20)), false);
    assert_eq!(up.phase, Some(PenPhase::End));
    assert!(!tracker.pen_contact_active());
    tracker.release_time_source(7);

    let leave = tracker.handle_pen_message(7, WM_POINTERLEAVE, None, false);
    assert_eq!(leave.phase, None);
    assert_eq!(leave.activity, Some(false));
    assert!(!leave.palm_reset);
    assert!(!tracker.pen_active());
}

#[test]
fn pen_time_source_prefers_the_performance_counter() {
    assert_eq!(
        begin_pen_time_source(Some(info(true, true, 5, 9)), true).source,
        PenTimeSource::Qpc
    );
    assert_eq!(
        begin_pen_time_source(Some(info(true, true, 5, 9)), false).source,
        PenTimeSource::DwTime {
            last_raw: None,
            unwrapped_millis: 0
        }
    );
    assert_eq!(
        begin_pen_time_source(Some(info(true, true, 0, 0)), true).source,
        PenTimeSource::Arrival
    );
    assert_eq!(begin_pen_time_source(None, true).source, PenTimeSource::Arrival);
}

#[test]
fn message_time_unwraps_and_stays_monotonic() {
    let mut state = PenTimeState {
        source: PenTimeSource::DwTime {
            last_raw: None,
            unwrapped_millis: 0,
        },
        last_micros: 0,
    };
    let sample = |dw_time| info(true, true, 0, dw_time);
    assert_eq!(state.timestamp(sample(u32::MAX - 1), None, 0), (u32::MAX as u64 - 1) * 1000);
    assert_eq!(state.timestamp(sample(3), None, 0), (u32::MAX as u64 + 4) * 1000);
    assert_eq!(state.timestamp(sample(1), None, 0), (u32::MAX as u64 + 4) * 1000);
    assert_eq!(state.timestamp(sample(0), None, 5), (u32::MAX as u64 + 4) * 1000);
}

#[test]
fn performance_counter_falls_back_to_arrival_time() {
    let mut tracker = PenTracker::new();
    let sample = info(true, true, 100, 0);
    assert_eq!(tracker.pen_timestamp(3, sample, true, Some(500), 40), 500);
    assert_eq!(tracker.pen_timestamp(3, sample, true, None, 700), 700);
    assert_eq!(tracker.pen_timestamp(3, sample, true, Some(600), 800), 700);
    assert_eq!(tracker.pen_timestamp(4, info(true, true, 0, 0), true, None, 9), 9);
}

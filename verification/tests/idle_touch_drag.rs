use steady_ink::app::idle_touch_drag::{
    translated_axis, translated_outer_position, IdleDragStart, IdleTouchDragState, IdleTouchEnd,
    PhysicalPosition,
};

fn point(x: i32, y: i32) -> PhysicalPosition {
    PhysicalPosition::new(x, y)
}

fn pending_state() -> IdleTouchDragState {
    let mut state = IdleTouchDragState::default();
    assert!(state.start_touch(7, point(400, 300), point(1_800, 200)));
    state
}

#[test]
fn start_selects_one_primary_touch() {
    let mut state = IdleTouchDragState::default();
    assert!(state.start_touch(7, point(400, 300), point(1_800, 200)));
    assert!(!state.start_touch(8, point(500, 400), point(1_800, 200)));
    assert!(state.tracks_touch(7));
    assert!(!state.tracks_touch(8));
}

#[test]
fn promotion_applies_accumulated_touch_delta() {
    let mut state = pending_state();
    assert_eq!(state.move_touch(7, point(436, 324)), None);
    assert_eq!(
        state.promote_or_start_mouse(),
        IdleDragStart::ManualTouch {
            touch_id: 7,
            target_outer: point(1_836, 224),
        }
    );
}

#[test]
fn movement_ignores_secondary_touch() {
    let mut state = pending_state();
    let _ = state.promote_or_start_mouse();
    assert_eq!(state.move_touch(8, point(900, 900)), None);
    assert_eq!(state.move_touch(7, point(445, 280)), Some(point(1_845, 180)));
    assert_eq!(state.move_touch(7, point(470, 350)), Some(point(1_870, 250)));
}

#[test]
fn tap_below_drag_threshold_does_not_finish_drag() {
    let mut state = pending_state();
    assert_eq!(state.end_touch(7), IdleTouchEnd::PendingCleared);
    assert!(state.is_idle());
}

#[test]
fn matching_end_finishes_once() {
    let mut state = pending_state();
    let _ = state.promote_or_start_mouse();
    assert_eq!(state.end_touch(8), IdleTouchEnd::Ignored);
    assert_eq!(state.move_touch(7, point(430, 320)), Some(point(1_830, 220)));
    assert_eq!(
        state.end_touch(7),
        IdleTouchEnd::FinishDrag {
            last_outer: point(1_830, 220)
        }
    );
    assert_eq!(state.end_touch(7), IdleTouchEnd::Ignored);
}

#[test]
fn matching_cancel_finishes_manual_drag() {
    let mut state = pending_state();
    let _ = state.promote_or_start_mouse();
    assert_eq!(
        state.end_touch(7),
        IdleTouchEnd::FinishDrag {
            last_outer: point(1_800, 200)
        }
    );
    assert!(state.is_idle());
}

#[test]
fn focus_loss_cleanup_clears_pending_touch() {
    let mut pending = pending_state();
    assert!(pending.clear());
    assert!(!pending.clear());
}

#[test]
fn mode_or_geometry_cleanup_clears_active_touch() {
    let mut active = pending_state();
    let _ = active.promote_or_start_mouse();
    assert!(active.clear());
    assert!(active.is_idle());
}

#[test]
fn command_without_touch_uses_native_mouse_fallback() {
    let mut state = IdleTouchDragState::default();
    assert_eq!(state.promote_or_start_mouse(), IdleDragStart::NativeMouse);
    assert!(state.end_mouse());
    assert!(!state.end_mouse());
}

#[test]
fn physical_delta_is_not_scaled_again() {
    for scale in [1.0_f32, 1.5, 2.0] {
        let start = point((200.0 * scale) as i32, (100.0 * scale) as i32);
        let delta = point((24.0 * scale) as i32, (-12.0 * scale) as i32);
        let current = point(start.x + delta.x, start.y + delta.y);
        assert_eq!(
            translated_outer_position(point(1_000, 300), start, current),
            point(1_000 + delta.x, 300 + delta.y)
        );
    }
}

#[test]
fn physical_delta_clamps_to_i32_range() {
    assert_eq!(
        translated_outer_position(
            point(i32::MAX, i32::MIN),
            point(i32::MIN, i32::MAX),
            point(i32::MAX, i32::MIN),
        ),
        point(i32::MAX, i32::MIN)
    );
}

#[test]
fn translated_axis_follows_the_screen_displacement() {
    assert_eq!(translated_axis(100, 10, 35), 125);
    assert_eq!(translated_axis(-50, 0, -20), -70);
    assert_eq!(translated_axis(i32::MIN, 5, 0), i32::MIN);
}

#[test]
fn running_drag_ignores_a_second_promotion_and_new_touches() {
    let mut state = pending_state();
    let _ = state.promote_or_start_mouse();
    assert_eq!(state.promote_or_start_mouse(), IdleDragStart::Ignored);
    assert!(!state.start_touch(9, point(0, 0), point(0, 0)));
    assert!(!state.end_mouse());
    assert!(state.tracks_touch(7));
}

#[test]
fn native_mouse_drag_ignores_touch_ends() {
    let mut state = IdleTouchDragState::new();
    assert_eq!(state.promote_or_start_mouse(), IdleDragStart::NativeMouse);
    assert_eq!(state.end_touch(7), IdleTouchEnd::Ignored);
    assert_eq!(state.move_touch(7, point(1, 1)), None);
    assert!(state.clear());
    assert!(state.is_idle());
}

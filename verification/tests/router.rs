use steady_ink::input::router::{
    ActivePointer, ButtonState, CanvasEvent, InputRouter, PointerAction, PointerSample, TouchPhase,
    WindowsPointerEvent,
};
use steady_ink::input::windows_pointer::{PalmErasePhase, PenPhase};

/// A canvas point in physical pixels.
type Point = (f32, f32);

/// A circular palm erase sample: its centre and diameter.
#[derive(Debug, Clone, Copy, PartialEq)]
struct EraseSample {
    center: Point,
    diameter: f32,
}

type Action = PointerAction<Point, EraseSample>;
type Event = WindowsPointerEvent<Point, EraseSample>;

fn palm_sample() -> EraseSample {
    EraseSample {
        center: (32.0, 48.0),
        diameter: 48.0,
    }
}

fn pen_points() -> Vec<PointerSample<Point>> {
    vec![
        PointerSample::new((12.0, 16.0), 100),
        PointerSample::new((20.0, 24.0), 200),
    ]
}

fn buffered_sample(point: Point) -> PointerSample<Point> {
    PointerSample::new(point, 100)
}

#[test]
fn promoted_pen_mouse_events_are_suppressed() {
    let mut router: InputRouter<Point> = InputRouter::new();
    let pressed = CanvasEvent::MouseInput {
        left_button: true,
        state: ButtonState::Pressed,
    };
    let moved = CanvasEvent::CursorMoved((24.0, 32.0));

    assert_eq!(router.route::<EraseSample>(pressed, false, true, true, 0), None);
    assert_eq!(router.route::<EraseSample>(moved, false, true, true, 0), None);
    assert_eq!(router.active_pointer(), None);
    assert_eq!(router.last_cursor_position(), None);
}

#[test]
fn native_pen_routes_batches_until_end() {
    let mut router: InputRouter<Point> = InputRouter::new();

    assert_eq!(
        router.route_windows_pointer(
            Event::Pen {
                phase: PenPhase::Begin,
                points: pen_points(),
            },
            false,
            true,
        ),
        Some(Action::BeginBatch(pen_points()))
    );
    assert_eq!(
        router.route_windows_pointer(
            Event::Pen {
                phase: PenPhase::Move,
                points: pen_points(),
            },
            true,
            true,
        ),
        Some(Action::MoveBatch(pen_points()))
    );
    assert_eq!(
        router.route_windows_pointer(
            Event::Pen {
                phase: PenPhase::End,
                points: Vec::new(),
            },
            true,
            true,
        ),
        Some(Action::EndBatch(Vec::new()))
    );
}

#[test]
fn disabled_canvas_cancels_native_pen_session() {
    let mut router: InputRouter<Point> = InputRouter::new();
    router.route_windows_pointer(
        Event::Pen {
            phase: PenPhase::Begin,
            points: pen_points(),
        },
        false,
        true,
    );

    assert_eq!(
        router.route_windows_pointer(
            Event::Pen {
                phase: PenPhase::Move,
                points: pen_points(),
            },
            false,
            false,
        ),
        Some(Action::Cancel)
    );
    assert!(!router.native_pen_drawing());
}

#[test]
fn native_pen_started_over_ui_stays_blocked() {
    let mut router: InputRouter<Point> = InputRouter::new();

    assert_eq!(
        router.route_windows_pointer(
            Event::Pen {
                phase: PenPhase::Begin,
                points: pen_points(),
            },
            true,
            true,
        ),
        None
    );
    assert_eq!(
        router.route_windows_pointer(
            Event::Pen {
                phase: PenPhase::Move,
                points: pen_points(),
            },
            false,
            true,
        ),
        None
    );
    assert_eq!(
        router.route_windows_pointer(
            Event::Pen {
                phase: PenPhase::End,
                points: pen_points(),
            },
            false,
            true,
        ),
        None
    );
}

#[test]
fn palm_started_over_ui_stays_blocked() {
    let sample = palm_sample();
    let mut router: InputRouter<Point> = InputRouter::new();

    assert_eq!(
        router.route_windows_pointer(
            Event::PalmCandidate {
                point: sample.center,
            },
            true,
            true,
        ),
        None
    );
    for phase in [PalmErasePhase::Begin, PalmErasePhase::Move, PalmErasePhase::End] {
        assert_eq!(
            router.route_windows_pointer(Event::PalmErase { phase, sample }, false, true),
            None
        );
    }
}

#[test]
fn palm_started_over_canvas_ignores_later_ui_hit() {
    let sample = palm_sample();
    let mut router: InputRouter<Point> = InputRouter::new();

    router.route_windows_pointer(
        Event::PalmCandidate {
            point: sample.center,
        },
        false,
        true,
    );
    assert_eq!(
        router.route_windows_pointer(
            Event::PalmErase {
                phase: PalmErasePhase::Begin,
                sample,
            },
            true,
            true,
        ),
        Some(Action::BeginPalmErase(sample))
    );
    assert_eq!(
        router.route_windows_pointer(
            Event::PalmErase {
                phase: PalmErasePhase::End,
                sample,
            },
            true,
            true,
        ),
        Some(Action::EndPalmErase(sample))
    );
}

#[test]
fn cancelled_candidate_drops_ui_state() {
    let sample = palm_sample();
    let mut router: InputRouter<Point> = InputRouter::new();

    router.route_windows_pointer(
        Event::PalmCandidate {
            point: sample.center,
        },
        true,
        true,
    );
    assert_eq!(
        router.route_windows_pointer(
            Event::CandidateCancelled {
                session_ended: true,
            },
            false,
            true,
        ),
        None
    );
    router.route_windows_pointer(
        Event::PalmCandidate {
            point: sample.center,
        },
        false,
        true,
    );
    assert_eq!(
        router.route_windows_pointer(
            Event::PalmErase {
                phase: PalmErasePhase::Begin,
                sample,
            },
            true,
            true,
        ),
        Some(Action::BeginPalmErase(sample))
    );
}

#[test]
fn unfinished_candidate_session_keeps_original_ui_origin() {
    let sample = palm_sample();
    let mut router: InputRouter<Point> = InputRouter::new();

    router.route_windows_pointer(
        Event::PalmCandidate {
            point: sample.center,
        },
        true,
        true,
    );
    assert_eq!(
        router.route_windows_pointer(
            Event::CandidateRejected {
                points: vec![buffered_sample(sample.center)],
                session_ended: false,
            },
            false,
            true,
        ),
        None
    );
    assert_eq!(
        router.route_windows_pointer(
            Event::PalmErase {
                phase: PalmErasePhase::Begin,
                sample,
            },
            false,
            true,
        ),
        None
    );
}

#[test]
fn rejected_canvas_candidate_commits_and_ends_session() {
    let sample = palm_sample();
    let mut router: InputRouter<Point> = InputRouter::new();

    router.route_windows_pointer(
        Event::PalmCandidate {
            point: sample.center,
        },
        false,
        true,
    );
    assert_eq!(
        router.route_windows_pointer(
            Event::CandidateRejected {
                points: vec![buffered_sample(sample.center)],
                session_ended: true,
            },
            true,
            true,
        ),
        Some(Action::CommitBuffered(vec![buffered_sample(sample.center)]))
    );
    router.route_windows_pointer(
        Event::PalmCandidate {
            point: sample.center,
        },
        true,
        true,
    );
    assert_eq!(
        router.route_windows_pointer(
            Event::PalmErase {
                phase: PalmErasePhase::Begin,
                sample,
            },
            false,
            true,
        ),
        None
    );
}

#[test]
fn pen_activity_clears_palm_session_state() {
    let sample = palm_sample();
    let mut router: InputRouter<Point> = InputRouter::new();

    router.route_windows_pointer(
        Event::PalmCandidate {
            point: sample.center,
        },
        true,
        true,
    );
    assert_eq!(
        router.route_windows_pointer(Event::PenActivityChanged(true), false, true),
        None
    );
    router.route_windows_pointer(
        Event::PalmCandidate {
            point: sample.center,
        },
        false,
        true,
    );
    assert_eq!(
        router.route_windows_pointer(
            Event::PalmErase {
                phase: PalmErasePhase::Begin,
                sample,
            },
            true,
            true,
        ),
        Some(Action::BeginPalmErase(sample))
    );
}

#[test]
fn mouse_gesture_needs_a_cursor_position_and_the_canvas() {
    let mut router: InputRouter<Point> = InputRouter::new();
    let press = CanvasEvent::MouseInput {
        left_button: true,
        state: ButtonState::Pressed,
    };
    let release = CanvasEvent::MouseInput {
        left_button: true,
        state: ButtonState::Released,
    };
    assert_eq!(router.route::<EraseSample>(press, false, true, false, 1), None);
    assert_eq!(
        router.route::<EraseSample>(CanvasEvent::CursorMoved((1.0, 2.0)), false, true, false, 2),
        None
    );
    assert_eq!(
        router.route::<EraseSample>(press, false, true, false, 3),
        Some(Action::Begin(PointerSample::new((1.0, 2.0), 3)))
    );
    assert_eq!(router.active_pointer(), Some(ActivePointer::Mouse));
    assert_eq!(
        router.route::<EraseSample>(CanvasEvent::CursorMoved((5.0, 6.0)), false, true, false, 4),
        Some(Action::Move(PointerSample::new((5.0, 6.0), 4)))
    );
    assert_eq!(
        router.route::<EraseSample>(release, false, true, false, 5),
        Some(Action::End(PointerSample::new((5.0, 6.0), 5)))
    );
    assert_eq!(router.route::<EraseSample>(press, true, true, false, 6), None);
}

#[test]
fn one_touch_owns_the_canvas_and_focus_loss_cancels_it() {
    let mut router: InputRouter<Point> = InputRouter::new();
    let touch = |id, phase| CanvasEvent::Touch {
        id,
        phase,
        location: (7.0, 8.0),
    };
    assert_eq!(
        router.route::<EraseSample>(touch(1, TouchPhase::Started), false, true, false, 1),
        Some(Action::Begin(PointerSample::new((7.0, 8.0), 1)))
    );
    assert_eq!(router.route::<EraseSample>(touch(2, TouchPhase::Started), false, true, false, 2), None);
    assert_eq!(router.route::<EraseSample>(touch(2, TouchPhase::Moved), false, true, false, 3), None);
    let press = CanvasEvent::CursorMoved((1.0, 1.0));
    router.route::<EraseSample>(press, false, true, false, 4);
    assert_eq!(
        router.route::<EraseSample>(
            CanvasEvent::MouseInput {
                left_button: true,
                state: ButtonState::Pressed
            },
            false,
            true,
            false,
            5
        ),
        None
    );
    assert_eq!(
        router.route::<EraseSample>(CanvasEvent::Focused(false), false, true, false, 6),
        Some(Action::Cancel)
    );
    assert_eq!(router.active_pointer(), None);
    assert_eq!(
        router.route::<EraseSample>(CanvasEvent::Focused(false), false, true, false, 7),
        None
    );
    router.route::<EraseSample>(touch(3, TouchPhase::Started), false, true, false, 8);
    assert_eq!(
        router.route::<EraseSample>(touch(3, TouchPhase::Cancelled), false, true, false, 9),
        Some(Action::Cancel)
    );
}

#[test]
fn disabled_canvas_and_cancel_clear_everything() {
    let mut router: InputRouter<Point> = InputRouter::new();
    router.route::<EraseSample>(
        CanvasEvent::Touch {
            id: 1,
            phase: TouchPhase::Started,
            location: (0.0, 0.0),
        },
        false,
        true,
        false,
        0,
    );
    assert_eq!(
        router.route::<EraseSample>(CanvasEvent::Other, false, false, false, 1),
        Some(Action::Cancel)
    );
    assert_eq!(router.route::<EraseSample>(CanvasEvent::Other, false, false, false, 2), None);
    router.route_windows_pointer::<EraseSample>(
        Event::Pen {
            phase: PenPhase::Begin,
            points: pen_points(),
        },
        false,
        true,
    );
    router.cancel();
    assert!(!router.native_pen_drawing());
    assert!(router.pen_active());
    assert_eq!(
        router.route_windows_pointer::<EraseSample>(Event::PalmSupport { point: None }, false, true),
        None
    );
}

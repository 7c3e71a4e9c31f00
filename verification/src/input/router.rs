//! The canvas input router: turns window events and the native pointer hook's
//! events into pointer actions for the ink session, keeping one active pointer
//! at a time, blocking contacts that started over the interface, and cancelling
//! what is active when the canvas is disabled.
//!
//! Points and erase samples pass through unread, so the router is generic over
//! them; timestamps are microseconds on the caller's monotonic clock.

use vstd::prelude::*;

use crate::input::windows_pointer::{PalmErasePhase, PenPhase};

verus! {

/// A point with the time it was sampled.
#[derive(Debug, Clone, Copy, PartialEq)]
pub struct PointerSample<P> {
    pub point: P,
    pub timestamp_micros: u64,
}

impl<P> PointerSample<P> {
    /// A sample of `point` at `timestamp_micros`.
    pub fn new(point: P, timestamp_micros: u64) -> (sample: PointerSample<P>)
        ensures
            sample.point == point,
            sample.timestamp_micros == timestamp_micros,
    {
        PointerSample { point, timestamp_micros }
    }
}

/// What the router asks of the ink session.
#[derive(Debug, Clone, PartialEq)]
pub enum PointerAction<P, E> {
    Begin(PointerSample<P>),
    Move(PointerSample<P>),
    End(PointerSample<P>),
    BeginBatch(Vec<PointerSample<P>>),
    MoveBatch(Vec<PointerSample<P>>),
    EndBatch(Vec<PointerSample<P>>),
    BeginPalmErase(E),
    MovePalmErase(E),
    EndPalmErase(E),
    CommitBuffered(Vec<PointerSample<P>>),
    Cancel,
}

/// What the native pointer hook reports.
#[derive(Debug)]
pub enum WindowsPointerEvent<P, E> {
    PenActivityChanged(bool),
    Pen { phase: PenPhase, points: Vec<PointerSample<P>> },
    PalmCandidate { point: P },
    PalmSupport { point: Option<P> },
    PalmErase { phase: PalmErasePhase, sample: E },
    CandidateRejected { points: Vec<PointerSample<P>>, session_ended: bool },
    CandidateCancelled { session_ended: bool },
}

impl<P, E> WindowsPointerEvent<P, E> {
    /// Whether the classification withdraws a touch that the interface toolkit
    /// already received: a palm candidate, a supporting palm, or a palm erase
    /// that begins.
    pub fn cancels_ui_pointer(&self) -> (cancels: bool)
        ensures
            cancels == (*self is PalmCandidate || *self is PalmSupport || (*self matches WindowsPointerEvent::PalmErase {
                phase,
                ..
            } && phase is Begin)),
    {
        match self {
            WindowsPointerEvent::PalmCandidate { .. } | WindowsPointerEvent::PalmSupport { .. } => true,
            WindowsPointerEvent::PalmErase { phase, .. } => match phase {
                PalmErasePhase::Begin => true,
                _ => false,
            },
            _ => false,
        }
    }
}

/// A mouse button's new state.
#[derive(Debug, Clone, Copy, PartialEq, Eq, Structural)]
pub enum ButtonState {
    Pressed,
    Released,
}

/// A touch contact's phase.
#[derive(Debug, Clone, Copy, PartialEq, Eq, Structural)]
pub enum TouchPhase {
    Started,
    Moved,
    Ended,
    Cancelled,
}

/// The window events the router reads.
#[derive(Debug, Clone, Copy, PartialEq)]
pub enum CanvasEvent<P> {
    CursorMoved(P),
    MouseInput { left_button: bool, state: ButtonState },
    Touch { id: u64, phase: TouchPhase, location: P },
    Focused(bool),
    Other,
}

/// The pointer that owns the canvas gesture.
#[derive(Debug, Clone, Copy, PartialEq, Eq, Structural)]
pub enum ActivePointer {
    Mouse,
    Touch(u64),
}

/// The router's state.
pub struct RouterView<P> {
    pub last_cursor_position: Option<P>,
    pub active_pointer: Option<ActivePointer>,
    pub pen_active: bool,
    pub palm_candidate_over_ui: Option<bool>,
    pub palm_erase_blocked: bool,
    pub palm_erasing: bool,
    pub native_pen_blocked: bool,
    pub native_pen_drawing: bool,
}

/// Some gesture, palm erase or pen stroke is running.
pub open spec fn has_active_input<P>(v: RouterView<P>) -> bool {
    v.active_pointer is Some || v.palm_erasing || v.native_pen_drawing
}

/// `Cancel` when something was running, else nothing.
pub open spec fn cancel_if<P, E>(active: bool) -> Option<PointerAction<P, E>> {
    if active {
        Some(PointerAction::Cancel)
    } else {
        None
    }
}

/// The state with no palm session.
pub open spec fn without_palm<P>(v: RouterView<P>) -> RouterView<P> {
    RouterView { palm_candidate_over_ui: None, palm_erase_blocked: false, palm_erasing: false, ..v }
}

/// The state with no pen session.
pub open spec fn without_pen<P>(v: RouterView<P>) -> RouterView<P> {
    RouterView { native_pen_blocked: false, native_pen_drawing: false, ..v }
}

/// The state after cancelling every gesture, palm and pen session.
pub open spec fn all_cancelled<P>(v: RouterView<P>) -> RouterView<P> {
    without_pen(without_palm(RouterView { active_pointer: None, ..v }))
}

/// The state after cancelling the active gesture, keeping the palm candidate's origin.
pub open spec fn pointer_cancelled<P>(v: RouterView<P>) -> RouterView<P> {
    without_pen(RouterView { active_pointer: None, palm_erasing: false, ..v })
}

/// How a mouse button event is routed: a press off the interface starts a
/// gesture when none runs; the release ends the mouse's own gesture.
pub open spec fn mouse_step<P, E>(
    v: RouterView<P>,
    state: ButtonState,
    ui_consumed: bool,
    now: u64,
) -> (RouterView<P>, Option<PointerAction<P, E>>) {
    match v.last_cursor_position {
        None => (v, None),
        Some(point) => match state {
            ButtonState::Pressed => if !ui_consumed && v.active_pointer is None {
                (
                    RouterView { active_pointer: Some(ActivePointer::Mouse), ..v },
                    Some(PointerAction::Begin(PointerSample { point, timestamp_micros: now })),
                )
            } else {
                (v, None)
            },
            ButtonState::Released => if v.active_pointer == Some(ActivePointer::Mouse) {
                (
                    RouterView { active_pointer: None, ..v },
                    Some(PointerAction::End(PointerSample { point, timestamp_micros: now })),
                )
            } else {
                (v, None)
            },
        },
    }
}

/// How a touch contact is routed: a touch off the interface starts a gesture
/// when none runs; only the owning touch moves, ends or cancels it.
pub open spec fn touch_step<P, E>(
    v: RouterView<P>,
    id: u64,
    phase: TouchPhase,
    point: P,
    ui_consumed: bool,
    now: u64,
) -> (RouterView<P>, Option<PointerAction<P, E>>) {
    let sample = PointerSample { point, timestamp_micros: now };
    let owns = v.active_pointer == Some(ActivePointer::Touch(id));
    match phase {
        TouchPhase::Started => if !ui_consumed && v.active_pointer is None {
            (
                RouterView { active_pointer: Some(ActivePointer::Touch(id)), ..v },
                Some(PointerAction::Begin(sample)),
            )
        } else {
            (v, None)
        },
        TouchPhase::Moved => if owns {
            (v, Some(PointerAction::Move(sample)))
        } else {
            (v, None)
        },
        TouchPhase::Ended => if owns {
            (RouterView { active_pointer: None, ..v }, Some(PointerAction::End(sample)))
        } else {
            (v, None)
        },
        TouchPhase::Cancelled => if owns {
            (RouterView { active_pointer: None, ..v }, Some(PointerAction::Cancel))
        } else {
            (v, None)
        },
    }
}

/// How a window event is routed.
pub open spec fn route_step<P, E>(
    v: RouterView<P>,
    event: CanvasEvent<P>,
    ui_consumed: bool,
    canvas_enabled: bool,
    promoted_pen_contact: bool,
    now: u64,
) -> (RouterView<P>, Option<PointerAction<P, E>>) {
    if !canvas_enabled {
        (all_cancelled(v), cancel_if(has_active_input(v)))
    } else if promoted_pen_contact && (event is CursorMoved || (event matches CanvasEvent::MouseInput {
        left_button,
        ..
    } && left_button)) {
        (v, None)
    } else {
        match event {
            CanvasEvent::CursorMoved(point) => (
                RouterView { last_cursor_position: Some(point), ..v },
                if v.active_pointer == Some(ActivePointer::Mouse) {
                    Some(PointerAction::Move(PointerSample { point, timestamp_micros: now }))
                } else {
                    None
                },
            ),
            CanvasEvent::MouseInput { left_button, state } => if left_button
                && !(v.active_pointer matches Some(ActivePointer::Touch(_))) {
                mouse_step(v, state, ui_consumed, now)
            } else {
                (v, None)
            },
            CanvasEvent::Touch { id, phase, location } => touch_step(
                v,
                id,
                phase,
                location,
                ui_consumed,
                now,
            ),
            CanvasEvent::Focused(focused) => if !focused {
                (pointer_cancelled(v), cancel_if(has_active_input(v)))
            } else {
                (v, None)
            },
            CanvasEvent::Other => (v, None),
        }
    }
}

/// How a native pen batch is routed: a stroke starts only off the interface and
/// with points, keeps drawing until its end, and is cancelled when the canvas
/// is disabled.
pub open spec fn pen_step<P, E>(
    v: RouterView<P>,
    phase: PenPhase,
    points: Vec<PointerSample<P>>,
    ui_hit: bool,
    canvas_enabled: bool,
) -> (RouterView<P>, Option<PointerAction<P, E>>) {
    if !canvas_enabled {
        (all_cancelled(v), cancel_if(has_active_input(v)))
    } else {
        match phase {
            PenPhase::Begin => {
                let cancelled_other = v.active_pointer is Some || v.palm_erasing;
                let blocked = ui_hit || points@.len() == 0;
                let next = RouterView {
                    active_pointer: None,
                    palm_erasing: false,
                    native_pen_blocked: blocked,
                    native_pen_drawing: !blocked,
                    ..v
                };
                if !blocked {
                    (next, Some(PointerAction::BeginBatch(points)))
                } else {
                    (next, cancel_if(cancelled_other))
                }
            },
            PenPhase::Move => if v.native_pen_drawing && points@.len() > 0 {
                (v, Some(PointerAction::MoveBatch(points)))
            } else {
                (v, None)
            },
            PenPhase::End => (
                without_pen(v),
                if v.native_pen_drawing {
                    Some(PointerAction::EndBatch(points))
                } else {
                    None
                },
            ),
            PenPhase::Cancel => (without_pen(v), cancel_if(v.native_pen_drawing)),
        }
    }
}

/// How a palm-erase sample is routed: the erase starts only when the palm
/// session did not begin over the interface, and once blocked stays blocked
/// until the palm lifts.
pub open spec fn palm_erase_step<P, E>(
    v: RouterView<P>,
    phase: PalmErasePhase,
    sample: E,
    ui_hit: bool,
    canvas_enabled: bool,
) -> (RouterView<P>, Option<PointerAction<P, E>>) {
    if !canvas_enabled {
        (all_cancelled(v), cancel_if(has_active_input(v)))
    } else {
        let started_over_ui = match v.palm_candidate_over_ui {
            Some(over_ui) => over_ui,
            None => ui_hit,
        };
        match phase {
            PalmErasePhase::End => (
                RouterView {
                    palm_candidate_over_ui: None,
                    palm_erase_blocked: false,
                    palm_erasing: false,
                    ..v
                },
                if v.palm_erasing {
                    Some(PointerAction::EndPalmErase(sample))
                } else {
                    None
                },
            ),
            _ => if v.palm_erase_blocked {
                (v, None)
            } else if !v.palm_erasing {
                if started_over_ui {
                    (RouterView { palm_erase_blocked: true, ..v }, None)
                } else {
                    (
                        RouterView { palm_erasing: true, ..v },
                        Some(PointerAction::BeginPalmErase(sample)),
                    )
                }
            } else {
                (v, Some(PointerAction::MovePalmErase(sample)))
            },
        }
    }
}

/// How an event of the native pointer hook is routed.
pub open spec fn windows_pointer_step<P, E>(
    v: RouterView<P>,
    event: WindowsPointerEvent<P, E>,
    ui_hit: bool,
    canvas_enabled: bool,
) -> (RouterView<P>, Option<PointerAction<P, E>>) {
    match event {
        WindowsPointerEvent::PenActivityChanged(active) => if active {
            (
                all_cancelled(RouterView { pen_active: true, ..v }),
                cancel_if(has_active_input(v)),
            )
        } else {
            (RouterView { pen_active: false, ..v }, None)
        },
        WindowsPointerEvent::Pen { phase, points } => pen_step(
            without_palm(RouterView { pen_active: true, ..v }),
            phase,
            points,
            ui_hit,
            canvas_enabled,
        ),
        WindowsPointerEvent::PalmCandidate { .. } => {
            let seeded = if v.palm_candidate_over_ui is None {
                RouterView { palm_candidate_over_ui: Some(ui_hit), palm_erase_blocked: false, ..v }
            } else {
                v
            };
            (pointer_cancelled(seeded), cancel_if(has_active_input(v)))
        },
        WindowsPointerEvent::PalmSupport { .. } => (all_cancelled(v), cancel_if(has_active_input(v))),
        WindowsPointerEvent::CandidateRejected { points, session_ended } => {
            let started_over_ui = match v.palm_candidate_over_ui {
                Some(over_ui) => over_ui,
                None => ui_hit,
            };
            (
                if session_ended {
                    without_palm(v)
                } else {
                    v
                },
                if canvas_enabled && !started_over_ui && points@.len() > 0 {
                    Some(PointerAction::CommitBuffered(points))
                } else {
                    None
                },
            )
        },
        WindowsPointerEvent::CandidateCancelled { session_ended } => if session_ended {
            (all_cancelled(v), cancel_if(has_active_input(v)))
        } else {
            (v, None)
        },
        WindowsPointerEvent::PalmErase { phase, sample } => palm_erase_step(
            v,
            phase,
            sample,
            ui_hit,
            canvas_enabled,
        ),
    }
}

/// Routes mouse, touch and native pen input to the canvas.
#[derive(Debug)]
pub struct InputRouter<P> {
    last_cursor_position: Option<P>,
    active_pointer: Option<ActivePointer>,
    pen_active: bool,
    palm_candidate_over_ui: Option<bool>,
    palm_erase_blocked: bool,
    palm_erasing: bool,
    native_pen_blocked: bool,
    native_pen_drawing: bool,
}

impl<P: Copy> InputRouter<P> {
    /// The router's state.
    pub closed spec fn view(&self) -> RouterView<P> {
        RouterView {
            last_cursor_position: self.last_cursor_position,
            active_pointer: self.active_pointer,
            pen_active: self.pen_active,
            palm_candidate_over_ui: self.palm_candidate_over_ui,
            palm_erase_blocked: self.palm_erase_blocked,
            palm_erasing: self.palm_erasing,
            native_pen_blocked: self.native_pen_blocked,
            native_pen_drawing: self.native_pen_drawing,
        }
    }

    /// A router with no cursor position and nothing active.
    pub fn new() -> (router: InputRouter<P>)
        ensures
            router.view() == (RouterView::<P> {
                last_cursor_position: None,
                active_pointer: None,
                pen_active: false,
                palm_candidate_over_ui: None,
                palm_erase_blocked: false,
                palm_erasing: false,
                native_pen_blocked: false,
                native_pen_drawing: false,
            }),
    {
        InputRouter {
            last_cursor_position: None,
            active_pointer: None,
            pen_active: false,
            palm_candidate_over_ui: None,
            palm_erase_blocked: false,
            palm_erasing: false,
            native_pen_blocked: false,
            native_pen_drawing: false,
        }
    }

    /// The gesture owner, for diagnostics.
    pub fn active_pointer(&self) -> (pointer: Option<ActivePointer>)
        ensures
            pointer == self.view().active_pointer,
    {
        self.active_pointer
    }

    /// The last cursor position seen.
    pub fn last_cursor_position(&self) -> (position: Option<P>)
        ensures
            position == self.view().last_cursor_position,
    {
        self.last_cursor_position
    }

    /// Whether a native pen stroke is being drawn.
    pub fn native_pen_drawing(&self) -> (drawing: bool)
        ensures
            drawing == self.view().native_pen_drawing,
    {
        self.native_pen_drawing
    }

    /// Whether the pen is in range, as the hook last reported.
    pub fn pen_active(&self) -> (active: bool)
        ensures
            active == self.view().pen_active,
    {
        self.pen_active
    }

    /// Routes a window event at time `now`.
    pub fn route<E>(
        &mut self,
        event: CanvasEvent<P>,
        ui_consumed: bool,
        canvas_enabled: bool,
        promoted_pen_contact: bool,
        now: u64,
    ) -> (action: Option<PointerAction<P, E>>)
        ensures
            (final(self).view(), action) == route_step::<P, E>(
                old(self).view(),
                event,
                ui_consumed,
                canvas_enabled,
                promoted_pen_contact,
                now,
            ),
    {
        if !canvas_enabled {
            return self.cancel_all_input();
        }
        let promoted_event = match event {
            CanvasEvent::CursorMoved(_) => true,
            CanvasEvent::MouseInput { left_button, .. } => left_button,
            _ => false,
        };
        if promoted_pen_contact && promoted_event {
            return None;
        }
        match event {
            CanvasEvent::CursorMoved(point) => {
                self.last_cursor_position = Some(point);
                if self.active_pointer == Some(ActivePointer::Mouse) {
                    Some(PointerAction::Move(PointerSample::new(point, now)))
                } else {
                    None
                }
            },
            CanvasEvent::MouseInput { left_button, state } => {
                if left_button && !self.has_active_touch() {
                    self.route_mouse_button(state, ui_consumed, now)
                } else {
                    None
                }
            },
            CanvasEvent::Touch { id, phase, location } => self.route_touch(
                id,
                phase,
                location,
                ui_consumed,
                now,
            ),
            CanvasEvent::Focused(focused) => {
                if !focused {
                    self.cancel_active_pointer()
                } else {
                    None
                }
            },
            CanvasEvent::Other => None,
        }
    }

    /// Cancels the current gesture and every palm and pen session, as a mode
    /// change or a lost focus does.
    pub fn cancel(&mut self)
        ensures
            final(self).view() == all_cancelled(old(self).view()),
    {
        self.active_pointer = None;
        self.clear_palm_session();
        self.clear_pen_session();
    }

    /// Routes an event of the native pointer hook.
    pub fn route_windows_pointer<E>(
        &mut self,
        event: WindowsPointerEvent<P, E>,
        ui_hit: bool,
        canvas_enabled: bool,
    ) -> (action: Option<PointerAction<P, E>>)
        ensures
            (final(self).view(), action) == windows_pointer_step(
                old(self).view(),
                event,
                ui_hit,
                canvas_enabled,
            ),
    {
        match event {
            WindowsPointerEvent::PenActivityChanged(active) => {
                self.pen_active = active;
                if active {
                    self.cancel_all_input()
                } else {
                    None
                }
            },
            WindowsPointerEvent::Pen { phase, points } => {
                self.pen_active = true;
                self.clear_palm_session();
                self.route_pen(phase, points, ui_hit, canvas_enabled)
            },
            WindowsPointerEvent::PalmCandidate { .. } => {
                if self.palm_candidate_over_ui.is_none() {
                    self.palm_candidate_over_ui = Some(ui_hit);
                    self.palm_erase_blocked = false;
                }
                self.cancel_active_pointer()
            },
            WindowsPointerEvent::PalmSupport { .. } => self.cancel_all_input(),
            WindowsPointerEvent::CandidateRejected { points, session_ended } => {
                let started_over_ui = match self.palm_candidate_over_ui {
                    Some(over_ui) => over_ui,
                    None => ui_hit,
                };
                if session_ended {
                    self.palm_candidate_over_ui = None;
                    self.palm_erase_blocked = false;
                    self.palm_erasing = false;
                }
                if canvas_enabled && !started_over_ui && points.len() > 0 {
                    Some(PointerAction::CommitBuffered(points))
                } else {
                    None
                }
            },
            WindowsPointerEvent::CandidateCancelled { session_ended } => {
                if session_ended {
                    self.cancel_all_input()
                } else {
                    None
                }
            },
            WindowsPointerEvent::PalmErase { phase, sample } => {
                if !canvas_enabled {
                    return self.cancel_all_input();
                }
                let started_over_ui = match self.palm_candidate_over_ui {
                    Some(over_ui) => over_ui,
                    None => ui_hit,
                };
                match phase {
                    PalmErasePhase::End => {
                        self.palm_candidate_over_ui = None;
                        self.palm_erase_blocked = false;
                        if self.palm_erasing {
                            self.palm_erasing = false;
                            Some(PointerAction::EndPalmErase(sample))
                        } else {
                            None
                        }
                    },
                    _ => {
                        if self.palm_erase_blocked {
                            None
                        } else if !self.palm_erasing {
                            if started_over_ui {
                                self.palm_erase_blocked = true;
                                None
                            } else {
                                self.palm_erasing = true;
                                Some(PointerAction::BeginPalmErase(sample))
                            }
                        } else {
                            Some(PointerAction::MovePalmErase(sample))
                        }
                    },
                }
            },
        }
    }

    /// Turns a native pen batch into one canvas gesture action.
    fn route_pen<E>(
        &mut self,
        phase: PenPhase,
        points: Vec<PointerSample<P>>,
        ui_hit: bool,
        canvas_enabled: bool,
    ) -> (action: Option<PointerAction<P, E>>)
        ensures
            (final(self).view(), action) == pen_step::<P, E>(
                old(self).view(),
                phase,
                points,
                ui_hit,
                canvas_enabled,
            ),
    {
        if !canvas_enabled {
            return self.cancel_all_input();
        }
        match phase {
            PenPhase::Begin => {
                let cancelled_other = self.active_pointer.is_some() || self.palm_erasing;
                self.active_pointer = None;
                self.palm_erasing = false;
                self.native_pen_blocked = ui_hit || points.len() == 0;
                self.native_pen_drawing = !self.native_pen_blocked;
                if self.native_pen_drawing {
                    Some(PointerAction::BeginBatch(points))
                } else if cancelled_other {
                    Some(PointerAction::Cancel)
                } else {
                    None
                }
            },
            PenPhase::Move => {
                if self.native_pen_drawing && points.len() > 0 {
                    Some(PointerAction::MoveBatch(points))
                } else {
                    None
                }
            },
            PenPhase::End => {
                let was_drawing = self.native_pen_drawing;
                self.clear_pen_session();
                if was_drawing {
                    Some(PointerAction::EndBatch(points))
                } else {
                    None
                }
            },
            PenPhase::Cancel => {
                let was_drawing = self.native_pen_drawing;
                self.clear_pen_session();
                if was_drawing {
                    Some(PointerAction::Cancel)
                } else {
                    None
                }
            },
        }
    }

    /// Turns the left button's state into a canvas gesture action.
    fn route_mouse_button<E>(&mut self, state: ButtonState, ui_consumed: bool, now: u64) -> (action:
        Option<PointerAction<P, E>>)
        ensures
            (final(self).view(), action) == mouse_step::<P, E>(old(self).view(), state, ui_consumed, now),
    {
        let point = match self.last_cursor_position {
            Some(point) => point,
            None => return None,
        };
        match state {
            ButtonState::Pressed => {
                if !ui_consumed && self.active_pointer.is_none() {
                    self.active_pointer = Some(ActivePointer::Mouse);
                    Some(PointerAction::Begin(PointerSample::new(point, now)))
                } else {
                    None
                }
            },
            ButtonState::Released => {
                if self.active_pointer == Some(ActivePointer::Mouse) {
                    self.active_pointer = None;
                    Some(PointerAction::End(PointerSample::new(point, now)))
                } else {
                    None
                }
            },
        }
    }

    /// Turns one touch contact into a canvas gesture action.
    fn route_touch<E>(
        &mut self,
        touch_id: u64,
        phase: TouchPhase,
        point: P,
        ui_consumed: bool,
        now: u64,
    ) -> (action: Option<PointerAction<P, E>>)
        ensures
            (final(self).view(), action) == touch_step::<P, E>(
                old(self).view(),
                touch_id,
                phase,
                point,
                ui_consumed,
                now,
            ),
    {
        let pointer = ActivePointer::Touch(touch_id);
        let owns = self.active_pointer == Some(pointer);
        match phase {
            TouchPhase::Started => {
                if !ui_consumed && self.active_pointer.is_none() {
                    self.active_pointer = Some(pointer);
                    Some(PointerAction::Begin(PointerSample::new(point, now)))
                } else {
                    None
                }
            },
            TouchPhase::Moved => {
                if owns {
                    Some(PointerAction::Move(PointerSample::new(point, now)))
                } else {
                    None
                }
            },
            TouchPhase::Ended => {
                if owns {
                    self.active_pointer = None;
                    Some(PointerAction::End(PointerSample::new(point, now)))
                } else {
                    None
                }
            },
            TouchPhase::Cancelled => {
                if owns {
                    self.active_pointer = None;
                    Some(PointerAction::Cancel)
                } else {
                    None
                }
            },
        }
    }

    /// Whether a touch contact owns the canvas gesture.
    fn has_active_touch(&self) -> (touch: bool)
        ensures
            touch == (self.view().active_pointer matches Some(ActivePointer::Touch(_))),
    {
        match self.active_pointer {
            Some(ActivePointer::Touch(_)) => true,
            _ => false,
        }
    }

    /// Cancels the active gesture, erase and pen stroke, keeping the palm
    /// candidate's origin.
    fn cancel_active_pointer<E>(&mut self) -> (action: Option<PointerAction<P, E>>)
        ensures
            final(self).view() == pointer_cancelled(old(self).view()),
            action == cancel_if::<P, E>(has_active_input(old(self).view())),
    {
        let had_active_input = self.active_pointer.is_some() || self.palm_erasing
            || self.native_pen_drawing;
        self.active_pointer = None;
        self.palm_erasing = false;
        self.clear_pen_session();
        if had_active_input {
            Some(PointerAction::Cancel)
        } else {
            None
        }
    }

    /// Cancels the active gesture and every palm and pen session.
    fn cancel_all_input<E>(&mut self) -> (action: Option<PointerAction<P, E>>)
        ensures
            final(self).view() == all_cancelled(old(self).view()),
            action == cancel_if::<P, E>(has_active_input(old(self).view())),
    {
        let had_active_input = self.active_pointer.is_some() || self.palm_erasing
            || self.native_pen_drawing;
        self.active_pointer = None;
        self.clear_palm_session();
        self.clear_pen_session();
        if had_active_input {
            Some(PointerAction::Cancel)
        } else {
            None
        }
    }

    /// Forgets the palm candidate's origin, the block and the running erase.
    fn clear_palm_session(&mut self)
        ensures
            final(self).view() == without_palm(old(self).view()),
    {
        self.palm_candidate_over_ui = None;
        self.palm_erase_blocked = false;
        self.palm_erasing = false;
    }

    /// Forgets the native pen contact's block and drawing marks.
    fn clear_pen_session(&mut self)
        ensures
            final(self).view() == without_pen(old(self).view()),
    {
        self.native_pen_blocked = false;
        self.native_pen_drawing = false;
    }
}

/// With the canvas disabled, any window event cancels whatever was running and
/// leaves nothing active.
pub proof fn lemma_disabled_canvas_cancels<P, E>(
    v: RouterView<P>,
    event: CanvasEvent<P>,
    ui_consumed: bool,
    promoted_pen_contact: bool,
    now: u64,
)
    ensures
        ({
            let (next, action) = route_step::<P, E>(v, event, ui_consumed, false, promoted_pen_contact, now);
            &&& !has_active_input(next)
            &&& action == cancel_if::<P, E>(has_active_input(v))
        }),
{
}

/// A palm session that began over the interface never erases: once a begin or
/// move was blocked, later begins and moves give nothing until the palm lifts.
pub proof fn lemma_palm_over_ui_stays_blocked<P, E>(
    v: RouterView<P>,
    phase: PalmErasePhase,
    sample: E,
    ui_hit: bool,
)
    requires
        v.palm_erase_blocked,
        !(phase is End),
    ensures
        palm_erase_step::<P, E>(v, phase, sample, ui_hit, true) == (v, None::<PointerAction<P, E>>),
{
}

/// A pen contact that began over the interface draws nothing: its moves give no
/// action and its end gives none either.
pub proof fn lemma_pen_over_ui_draws_nothing<P, E>(
    v: RouterView<P>,
    points: Vec<PointerSample<P>>,
    ui_hit: bool,
)
    requires
        v.native_pen_blocked,
        !v.native_pen_drawing,
    ensures
        pen_step::<P, E>(v, PenPhase::Move, points, ui_hit, true).1 is None,
        pen_step::<P, E>(v, PenPhase::End, points, ui_hit, true).1 is None,
        pen_step::<P, E>(v, PenPhase::Cancel, points, ui_hit, true).1 is None,
{
}

/// The touch that owns the gesture drives it to its end: on an enabled canvas its
/// moves continue the stroke and its lift finishes it with the lift's point and
/// time, and frees the canvas; a cancel discards the stroke. A touch that does not
/// own the gesture changes nothing.
pub proof fn lemma_owning_touch_finishes_its_stroke<P, E>(
    v: RouterView<P>,
    id: u64,
    point: P,
    ui_consumed: bool,
    promoted_pen_contact: bool,
    now: u64,
)
    ensures
        v.active_pointer == Some(ActivePointer::Touch(id)) ==> {
            let sample = PointerSample { point, timestamp_micros: now };
            let ended = route_step::<P, E>(
                v,
                CanvasEvent::Touch { id, phase: TouchPhase::Ended, location: point },
                ui_consumed,
                true,
                promoted_pen_contact,
                now,
            );
            let moved = route_step::<P, E>(
                v,
                CanvasEvent::Touch { id, phase: TouchPhase::Moved, location: point },
                ui_consumed,
                true,
                promoted_pen_contact,
                now,
            );
            let cancelled = route_step::<P, E>(
                v,
                CanvasEvent::Touch { id, phase: TouchPhase::Cancelled, location: point },
                ui_consumed,
                true,
                promoted_pen_contact,
                now,
            );
            &&& ended.1 == Some(PointerAction::<P, E>::End(sample))
            &&& ended.0.active_pointer is None
            &&& moved.1 == Some(PointerAction::<P, E>::Move(sample))
            &&& moved.0.active_pointer == v.active_pointer
            &&& cancelled.1 == Some(PointerAction::<P, E>::Cancel)
            &&& cancelled.0.active_pointer is None
        },
        v.active_pointer != Some(ActivePointer::Touch(id)) ==> {
            &&& touch_step::<P, E>(v, id, TouchPhase::Ended, point, ui_consumed, now) == (v, None::<PointerAction<P, E>>)
            &&& touch_step::<P, E>(v, id, TouchPhase::Moved, point, ui_consumed, now) == (v, None::<PointerAction<P, E>>)
            &&& touch_step::<P, E>(v, id, TouchPhase::Cancelled, point, ui_consumed, now) == (v, None::<PointerAction<P, E>>)
        },
{
}

/// Only one pointer owns the canvas: while a gesture runs, another mouse press
/// or touch start is ignored and changes nothing.
pub proof fn lemma_one_active_pointer<P, E>(
    v: RouterView<P>,
    id: u64,
    point: P,
    ui_consumed: bool,
    now: u64,
)
    requires
        v.active_pointer is Some,
    ensures
        touch_step::<P, E>(v, id, TouchPhase::Started, point, ui_consumed, now) == (
            v,
            None::<PointerAction<P, E>>,
        ),
        mouse_step::<P, E>(v, ButtonState::Pressed, ui_consumed, now) == (
            v,
            None::<PointerAction<P, E>>,
        ),
{
}

/// One routing step keeps the palm erase bracketed: a move or an end of a palm
/// erase is only given while one is open; a begin only opens one that was not
/// open; an erase becomes open only by its begin; a move leaves it open and an
/// end closes it.
pub open spec fn palm_erase_bracketed<P, E>(
    before: RouterView<P>,
    after: RouterView<P>,
    action: Option<PointerAction<P, E>>,
) -> bool {
    &&& (action matches Some(PointerAction::MovePalmErase(_)) ==> before.palm_erasing && after.palm_erasing)
    &&& (action matches Some(PointerAction::EndPalmErase(_)) ==> before.palm_erasing && !after.palm_erasing)
    &&& (action matches Some(PointerAction::BeginPalmErase(_)) ==> !before.palm_erasing && after.palm_erasing)
    &&& (after.palm_erasing && !before.palm_erasing ==> action matches Some(PointerAction::BeginPalmErase(_)))
}

/// Every event of the native pointer hook keeps the palm erase bracketed, so
/// that over any run of events each palm-erase move or end follows a begin that
/// no end has closed yet.
pub proof fn lemma_pointer_hook_brackets_palm_erase<P, E>(
    v: RouterView<P>,
    event: WindowsPointerEvent<P, E>,
    ui_hit: bool,
    canvas_enabled: bool,
)
    ensures
        ({
            let (next, action) = windows_pointer_step::<P, E>(v, event, ui_hit, canvas_enabled);
            palm_erase_bracketed(v, next, action)
        }),
{
}

/// Window events and cancellation never open a palm erase nor give one of its
/// actions; they may only close it.
pub proof fn lemma_canvas_events_keep_palm_erase_closed<P, E>(
    v: RouterView<P>,
    event: CanvasEvent<P>,
    ui_consumed: bool,
    canvas_enabled: bool,
    promoted_pen_contact: bool,
    now: u64,
)
    ensures
        ({
            let (next, action) = route_step::<P, E>(v, event, ui_consumed, canvas_enabled, promoted_pen_contact, now);
            &&& palm_erase_bracketed(v, next, action)
            &&& !(action matches Some(PointerAction::BeginPalmErase(_)))
            &&& !(action matches Some(PointerAction::MovePalmErase(_)))
            &&& !(action matches Some(PointerAction::EndPalmErase(_)))
        }),
        !all_cancelled(v).palm_erasing,
{
}

/// One call on the router: a window event, an event of the native pointer hook,
/// or a cancellation.
pub enum RouterCall<P, E> {
    Route { event: CanvasEvent<P>, ui_consumed: bool, canvas_enabled: bool, promoted_pen_contact: bool, now: u64 },
    PointerHook { event: WindowsPointerEvent<P, E>, ui_hit: bool, canvas_enabled: bool },
    Cancel,
}

/// What one call does: `route`, `route_windows_pointer` or `cancel`.
pub open spec fn router_call<P, E>(v: RouterView<P>, call: RouterCall<P, E>) -> (RouterView<P>, Option<PointerAction<P, E>>) {
    match call {
        RouterCall::Route { event, ui_consumed, canvas_enabled, promoted_pen_contact, now } => route_step::<P, E>(
            v,
            event,
            ui_consumed,
            canvas_enabled,
            promoted_pen_contact,
            now,
        ),
        RouterCall::PointerHook { event, ui_hit, canvas_enabled } => windows_pointer_step(v, event, ui_hit, canvas_enabled),
        RouterCall::Cancel => (all_cancelled(v), None),
    }
}

/// The actions that a run of calls gives, in order, from the router state `v`.
pub open spec fn trace_actions<P, E>(v: RouterView<P>, calls: Seq<RouterCall<P, E>>) -> Seq<Option<PointerAction<P, E>>>
    decreases calls.len(),
{
    if calls.len() == 0 {
        Seq::empty()
    } else {
        let (next, action) = router_call(v, calls[0]);
        seq![action] + trace_actions(next, calls.drop_first())
    }
}

/// The action is a palm-erase move or end.
pub open spec fn continues_palm_erase<P, E>(action: Option<PointerAction<P, E>>) -> bool {
    action matches Some(PointerAction::MovePalmErase(_)) || action matches Some(PointerAction::EndPalmErase(_))
}

/// No action in `actions[from..to]` ends a palm erase.
pub open spec fn no_palm_end_between<P, E>(actions: Seq<Option<PointerAction<P, E>>>, from: int, to: int) -> bool {
    forall|m: int| from <= m < to ==> !(#[trigger] actions[m] matches Some(PointerAction::EndPalmErase(_)))
}

/// Before index `i`, some action began a palm erase that no later action before
/// `i` ended.
pub open spec fn palm_erase_open_at<P, E>(actions: Seq<Option<PointerAction<P, E>>>, i: int) -> bool {
    exists|j: int|
        0 <= j < i && (#[trigger] actions[j] matches Some(PointerAction::BeginPalmErase(_)))
            && no_palm_end_between(actions, j + 1, i)
}

/// Every call keeps the palm erase bracketed.
pub proof fn lemma_router_call_brackets_palm_erase<P, E>(v: RouterView<P>, call: RouterCall<P, E>)
    ensures
        ({
            let (next, action) = router_call(v, call);
            palm_erase_bracketed(v, next, action)
        }),
{
    match call {
        RouterCall::Route { event, ui_consumed, canvas_enabled, promoted_pen_contact, now } => {
            lemma_canvas_events_keep_palm_erase_closed::<P, E>(v, event, ui_consumed, canvas_enabled, promoted_pen_contact, now);
        },
        RouterCall::PointerHook { event, ui_hit, canvas_enabled } => {
            lemma_pointer_hook_brackets_palm_erase(v, event, ui_hit, canvas_enabled);
        },
        RouterCall::Cancel => {},
    }
}

/// A run gives one action per call.
proof fn lemma_trace_len<P, E>(v: RouterView<P>, calls: Seq<RouterCall<P, E>>)
    ensures
        trace_actions(v, calls).len() == calls.len(),
    decreases calls.len(),
{
    if calls.len() > 0 {
        lemma_trace_len(router_call(v, calls[0]).0, calls.drop_first());
    }
}

/// The bracketing over a run: each palm-erase move or end either follows an open
/// begin of the run, or the run started inside a palm erase that nothing in it
/// has ended yet.
proof fn lemma_trace_brackets<P, E>(v: RouterView<P>, calls: Seq<RouterCall<P, E>>, i: int)
    requires
        0 <= i < calls.len(),
        continues_palm_erase(trace_actions(v, calls)[i]),
    ensures
        palm_erase_open_at(trace_actions(v, calls), i) || (v.palm_erasing && no_palm_end_between(
            trace_actions(v, calls),
            0,
            i,
        )),
    decreases calls.len(),
{
    let actions = trace_actions(v, calls);
    let (next, first) = router_call(v, calls[0]);
    let rest = trace_actions(next, calls.drop_first());
    lemma_trace_len(next, calls.drop_first());
    assert(actions == seq![first] + rest);
    lemma_router_call_brackets_palm_erase(v, calls[0]);
    if i > 0 {
        lemma_trace_brackets(next, calls.drop_first(), i - 1);
        assert(actions[i] == rest[i - 1]);
        if palm_erase_open_at(rest, i - 1) {
            let j = choose|j: int|
                0 <= j < i - 1 && (#[trigger] rest[j] matches Some(PointerAction::BeginPalmErase(_)))
                    && no_palm_end_between(rest, j + 1, i - 1);
            assert(actions[j + 1] == rest[j]);
            assert forall|m: int| j + 2 <= m < i implies !(#[trigger] actions[m] matches Some(
                PointerAction::EndPalmErase(_),
            )) by {
                assert(actions[m] == rest[m - 1]);
            }
            assert(palm_erase_open_at(actions, i));
        } else {
            assert(next.palm_erasing && no_palm_end_between(rest, 0, i - 1));
            assert forall|m: int| 1 <= m < i implies !(#[trigger] actions[m] matches Some(
                PointerAction::EndPalmErase(_),
            )) by {
                assert(actions[m] == rest[m - 1]);
            }
            if first matches Some(PointerAction::BeginPalmErase(_)) {
                assert(actions[0] == first);
                assert(palm_erase_open_at(actions, i));
            } else {
                assert(v.palm_erasing);
                assert(!(actions[0] matches Some(PointerAction::EndPalmErase(_))));
            }
        }
    } else {
        assert(actions[0] == first);
    }
}

/// Over any run of calls on a router that is not erasing (such as a new one), a
/// palm-erase move or end is only ever given after a palm-erase begin that no end
/// has closed since.
pub proof fn lemma_palm_erase_moves_follow_an_open_begin<P, E>(v: RouterView<P>, calls: Seq<RouterCall<P, E>>)
    requires
        !v.palm_erasing,
    ensures
        forall|i: int|
            0 <= i < calls.len() && continues_palm_erase(#[trigger] trace_actions(v, calls)[i])
                ==> palm_erase_open_at(trace_actions(v, calls), i),
{
    assert forall|i: int|
        0 <= i < calls.len() && continues_palm_erase(#[trigger] trace_actions(v, calls)[i]) implies palm_erase_open_at(
        trace_actions(v, calls),
        i,
    ) by {
        lemma_trace_brackets(v, calls, i);
    }
}

} // verus!

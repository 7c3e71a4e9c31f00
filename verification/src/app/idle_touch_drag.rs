//! The idle toolbar's window drag: the first touch is held as pending until the
//! toolkit confirms a drag, then the window follows that touch's physical
//! screen displacement; without a touch the native mouse drag is used.

use vstd::prelude::*;

verus! {

/// A position in physical screen pixels.
#[derive(Debug, Clone, Copy, PartialEq, Eq, Structural)]
pub struct PhysicalPosition {
    pub x: i32,
    pub y: i32,
}

impl PhysicalPosition {
    /// Makes the position `(x, y)`.
    pub fn new(x: i32, y: i32) -> (position: PhysicalPosition)
        ensures
            position == (PhysicalPosition { x, y }),
    {
        PhysicalPosition { x, y }
    }
}

/// The path a confirmed toolbar drag takes.
#[derive(Debug, Clone, Copy, PartialEq, Eq, Structural)]
pub enum IdleDragStart {
    /// The pending touch becomes a manual drag; the window moves to `target_outer` at once.
    ManualTouch { touch_id: u64, target_outer: PhysicalPosition },
    /// No touch is pending: the native mouse drag is started.
    NativeMouse,
    /// A drag is already running.
    Ignored,
}

/// What ending a touch does to the drag.
#[derive(Debug, Clone, Copy, PartialEq, Eq, Structural)]
pub enum IdleTouchEnd {
    /// The touch is not the tracked one.
    Ignored,
    /// The tracked touch ended before a drag was confirmed: nothing to snap.
    PendingCleared,
    /// The manual drag ended; the window snaps from its last position.
    FinishDrag { last_outer: PhysicalPosition },
}

/// The first touch, held until the toolkit confirms a drag.
#[derive(Debug, Clone, Copy, PartialEq, Eq, Structural)]
pub struct PendingTouch {
    pub id: u64,
    pub start_screen: PhysicalPosition,
    pub latest_screen: PhysicalPosition,
    pub start_outer: PhysicalPosition,
}

/// The touch that drives a confirmed drag.
#[derive(Debug, Clone, Copy, PartialEq, Eq, Structural)]
pub struct ManualTouch {
    pub id: u64,
    pub start_screen: PhysicalPosition,
    pub start_outer: PhysicalPosition,
    pub last_outer: PhysicalPosition,
}

/// The mutually exclusive phases of a toolbar window drag.
#[derive(Debug, Clone, Copy, PartialEq, Eq, Structural)]
pub enum IdleWindowDragPhase {
    Idle,
    PendingTouch(PendingTouch),
    NativeMouse,
    ManualTouch(ManualTouch),
}

/// One axis of the window position: the start position moved by the screen
/// displacement, clamped to the `i32` coordinate range.
pub open spec fn translated_axis_value(start_outer: i32, start_screen: i32, current_screen: i32) -> i32 {
    let moved = start_outer + current_screen - start_screen;
    if moved < i32::MIN {
        i32::MIN
    } else if moved > i32::MAX {
        i32::MAX
    } else {
        moved as i32
    }
}

/// The window position for a touch that moved from `start_screen` to `current_screen`.
pub open spec fn translated_position(
    start_outer: PhysicalPosition,
    start_screen: PhysicalPosition,
    current_screen: PhysicalPosition,
) -> PhysicalPosition {
    PhysicalPosition {
        x: translated_axis_value(start_outer.x, start_screen.x, current_screen.x),
        y: translated_axis_value(start_outer.y, start_screen.y, current_screen.y),
    }
}

/// Whether the phase follows the touch `touch_id`.
pub open spec fn phase_tracks(phase: IdleWindowDragPhase, touch_id: u64) -> bool {
    match phase {
        IdleWindowDragPhase::PendingTouch(pending) => pending.id == touch_id,
        IdleWindowDragPhase::ManualTouch(manual) => manual.id == touch_id,
        _ => false,
    }
}

/// The phase after the touch `touch_id` moved to `screen`.
pub open spec fn phase_after_move(
    phase: IdleWindowDragPhase,
    touch_id: u64,
    screen: PhysicalPosition,
) -> IdleWindowDragPhase {
    match phase {
        IdleWindowDragPhase::PendingTouch(pending) => if pending.id == touch_id {
            IdleWindowDragPhase::PendingTouch(PendingTouch { latest_screen: screen, ..pending })
        } else {
            phase
        },
        IdleWindowDragPhase::ManualTouch(manual) => if manual.id == touch_id {
            IdleWindowDragPhase::ManualTouch(
                ManualTouch {
                    last_outer: translated_position(manual.start_outer, manual.start_screen, screen),
                    ..manual
                },
            )
        } else {
            phase
        },
        _ => phase,
    }
}

/// The window position that moving the touch `touch_id` to `screen` asks for.
pub open spec fn move_target(
    phase: IdleWindowDragPhase,
    touch_id: u64,
    screen: PhysicalPosition,
) -> Option<PhysicalPosition> {
    match phase {
        IdleWindowDragPhase::ManualTouch(manual) => if manual.id == touch_id {
            Some(translated_position(manual.start_outer, manual.start_screen, screen))
        } else {
            None
        },
        _ => None,
    }
}

/// The phase and answer when the toolkit confirms a drag.
pub open spec fn promotion(phase: IdleWindowDragPhase) -> (IdleWindowDragPhase, IdleDragStart) {
    match phase {
        IdleWindowDragPhase::Idle => (IdleWindowDragPhase::NativeMouse, IdleDragStart::NativeMouse),
        IdleWindowDragPhase::PendingTouch(pending) => {
            let target = translated_position(
                pending.start_outer,
                pending.start_screen,
                pending.latest_screen,
            );
            (
                IdleWindowDragPhase::ManualTouch(
                    ManualTouch {
                        id: pending.id,
                        start_screen: pending.start_screen,
                        start_outer: pending.start_outer,
                        last_outer: target,
                    },
                ),
                IdleDragStart::ManualTouch { touch_id: pending.id, target_outer: target },
            )
        },
        _ => (phase, IdleDragStart::Ignored),
    }
}

/// The phase and answer when the touch `touch_id` ends or is cancelled.
pub open spec fn touch_ending(phase: IdleWindowDragPhase, touch_id: u64) -> (
    IdleWindowDragPhase,
    IdleTouchEnd,
) {
    match phase {
        IdleWindowDragPhase::PendingTouch(pending) => if pending.id == touch_id {
            (IdleWindowDragPhase::Idle, IdleTouchEnd::PendingCleared)
        } else {
            (phase, IdleTouchEnd::Ignored)
        },
        IdleWindowDragPhase::ManualTouch(manual) => if manual.id == touch_id {
            (IdleWindowDragPhase::Idle, IdleTouchEnd::FinishDrag { last_outer: manual.last_outer })
        } else {
            (phase, IdleTouchEnd::Ignored)
        },
        _ => (phase, IdleTouchEnd::Ignored),
    }
}

/// Tracks the first touch and, once the toolkit confirms a drag, the physical
/// window position that follows it.
#[derive(Debug)]
pub struct IdleTouchDragState {
    phase: IdleWindowDragPhase,
}

impl Default for IdleTouchDragState {
    /// A state with no drag.
    fn default() -> (state: IdleTouchDragState)
        ensures
            state.phase() is Idle,
    {
        IdleTouchDragState { phase: IdleWindowDragPhase::Idle }
    }
}

impl IdleTouchDragState {
    /// The current drag phase.
    pub closed spec fn phase(self) -> IdleWindowDragPhase {
        self.phase
    }

    /// A state with no drag.
    pub fn new() -> (state: IdleTouchDragState)
        ensures
            state.phase() is Idle,
    {
        IdleTouchDragState { phase: IdleWindowDragPhase::Idle }
    }

    /// Whether a new primary touch can be chosen.
    pub fn is_idle(&self) -> (idle: bool)
        ensures
            idle == (self.phase() is Idle),
    {
        match self.phase {
            IdleWindowDragPhase::Idle => true,
            _ => false,
        }
    }

    /// Whether `touch_id` is the pending or the dragging touch.
    pub fn tracks_touch(&self, touch_id: u64) -> (tracked_touch: bool)
        ensures
            tracked_touch == phase_tracks(self.phase(), touch_id),
    {
        match self.phase {
            IdleWindowDragPhase::PendingTouch(pending) => pending.id == touch_id,
            IdleWindowDragPhase::ManualTouch(manual) => manual.id == touch_id,
            _ => false,
        }
    }

    /// Chooses the first touch and keeps the window position from before it moved.
    pub fn start_touch(
        &mut self,
        touch_id: u64,
        screen_position: PhysicalPosition,
        window_outer: PhysicalPosition,
    ) -> (started: bool)
        ensures
            started == (old(self).phase() is Idle),
            started ==> final(self).phase() == IdleWindowDragPhase::PendingTouch(
                PendingTouch {
                    id: touch_id,
                    start_screen: screen_position,
                    latest_screen: screen_position,
                    start_outer: window_outer,
                },
            ),
            !started ==> final(self).phase() == old(self).phase(),
    {
        if !self.is_idle() {
            return false;
        }
        self.phase = IdleWindowDragPhase::PendingTouch(
            PendingTouch {
                id: touch_id,
                start_screen: screen_position,
                latest_screen: screen_position,
                start_outer: window_outer,
            },
        );
        true
    }

    /// Records where the tracked touch now is; during a manual drag, returns
    /// the window position that follows it.
    pub fn move_touch(&mut self, touch_id: u64, screen_position: PhysicalPosition) -> (target:
        Option<PhysicalPosition>)
        ensures
            final(self).phase() == phase_after_move(old(self).phase(), touch_id, screen_position),
            target == move_target(old(self).phase(), touch_id, screen_position),
    {
        match self.phase {
            IdleWindowDragPhase::PendingTouch(pending) => {
                if pending.id == touch_id {
                    self.phase = IdleWindowDragPhase::PendingTouch(
                        PendingTouch { latest_screen: screen_position, ..pending },
                    );
                }
                None
            },
            IdleWindowDragPhase::ManualTouch(manual) => {
                if manual.id == touch_id {
                    let target = translated_outer_position(
                        manual.start_outer,
                        manual.start_screen,
                        screen_position,
                    );
                    self.phase = IdleWindowDragPhase::ManualTouch(
                        ManualTouch { last_outer: target, ..manual },
                    );
                    Some(target)
                } else {
                    None
                }
            },
            _ => None,
        }
    }

    /// Answers the toolkit's drag command: a pending touch becomes a manual
    /// drag, no touch starts the native mouse drag, a running drag is kept.
    pub fn promote_or_start_mouse(&mut self) -> (start: IdleDragStart)
        ensures
            (final(self).phase(), start) == promotion(old(self).phase()),
    {
        match self.phase {
            IdleWindowDragPhase::Idle => {
                self.phase = IdleWindowDragPhase::NativeMouse;
                IdleDragStart::NativeMouse
            },
            IdleWindowDragPhase::PendingTouch(pending) => {
                let target = translated_outer_position(
                    pending.start_outer,
                    pending.start_screen,
                    pending.latest_screen,
                );
                self.phase = IdleWindowDragPhase::ManualTouch(
                    ManualTouch {
                        id: pending.id,
                        start_screen: pending.start_screen,
                        start_outer: pending.start_outer,
                        last_outer: target,
                    },
                );
                IdleDragStart::ManualTouch { touch_id: pending.id, target_outer: target }
            },
            _ => IdleDragStart::Ignored,
        }
    }

    /// Ends the tracked touch; only a confirmed manual drag asks for a snap.
    pub fn end_touch(&mut self, touch_id: u64) -> (end: IdleTouchEnd)
        ensures
            (final(self).phase(), end) == touch_ending(old(self).phase(), touch_id),
    {
        match self.phase {
            IdleWindowDragPhase::PendingTouch(pending) => {
                if pending.id == touch_id {
                    self.phase = IdleWindowDragPhase::Idle;
                    IdleTouchEnd::PendingCleared
                } else {
                    IdleTouchEnd::Ignored
                }
            },
            IdleWindowDragPhase::ManualTouch(manual) => {
                if manual.id == touch_id {
                    self.phase = IdleWindowDragPhase::Idle;
                    IdleTouchEnd::FinishDrag { last_outer: manual.last_outer }
                } else {
                    IdleTouchEnd::Ignored
                }
            },
            _ => IdleTouchEnd::Ignored,
        }
    }

    /// Ends the native mouse drag and reports whether a snap is due.
    pub fn end_mouse(&mut self) -> (finished: bool)
        ensures
            finished == (old(self).phase() is NativeMouse),
            finished ==> final(self).phase() is Idle,
            !finished ==> final(self).phase() == old(self).phase(),
    {
        match self.phase {
            IdleWindowDragPhase::NativeMouse => {
                self.phase = IdleWindowDragPhase::Idle;
                true
            },
            _ => false,
        }
    }

    /// Drops any pending or running drag without a snap; reports whether there was one.
    pub fn clear(&mut self) -> (cleared: bool)
        ensures
            cleared == !(old(self).phase() is Idle),
            final(self).phase() is Idle,
    {
        let cleared = !self.is_idle();
        self.phase = IdleWindowDragPhase::Idle;
        cleared
    }
}

/// The window position that follows a touch's physical screen displacement.
pub fn translated_outer_position(
    start_outer: PhysicalPosition,
    start_screen: PhysicalPosition,
    current_screen: PhysicalPosition,
) -> (position: PhysicalPosition)
    ensures
        position == translated_position(start_outer, start_screen, current_screen),
{
    PhysicalPosition {
        x: translated_axis(start_outer.x, start_screen.x, current_screen.x),
        y: translated_axis(start_outer.y, start_screen.y, current_screen.y),
    }
}

/// One axis of the window position, computed in a wider integer and clamped to `i32`.
pub fn translated_axis(start_outer: i32, start_screen: i32, current_screen: i32) -> (axis: i32)
    ensures
        axis == translated_axis_value(start_outer, start_screen, current_screen),
{
    let moved: i64 = start_outer as i64 + current_screen as i64 - start_screen as i64;
    if moved < i32::MIN as i64 {
        i32::MIN
    } else if moved > i32::MAX as i64 {
        i32::MAX
    } else {
        moved as i32
    }
}

/// A finished manual drag is reported once: after a matching end the state is
/// idle, so a second end of the same touch is ignored.
pub proof fn lemma_drag_finishes_once(phase: IdleWindowDragPhase, touch_id: u64)
    ensures
        ({
            let (after, end) = touch_ending(phase, touch_id);
            phase_tracks(phase, touch_id) ==> after is Idle && !(end is Ignored)
                && touch_ending(after, touch_id).1 is Ignored
        }),
        !phase_tracks(phase, touch_id) ==> touch_ending(phase, touch_id) == (
            phase,
            IdleTouchEnd::Ignored,
        ),
{
}

/// Within the coordinate range the window moves by exactly the touch's
/// physical displacement, with no scaling.
pub proof fn lemma_displacement_is_unscaled(
    start_outer: PhysicalPosition,
    start_screen: PhysicalPosition,
    current_screen: PhysicalPosition,
)
    requires
        i32::MIN <= start_outer.x + current_screen.x - start_screen.x <= i32::MAX,
        i32::MIN <= start_outer.y + current_screen.y - start_screen.y <= i32::MAX,
    ensures
        translated_position(start_outer, start_screen, current_screen).x - start_outer.x
            == current_screen.x - start_screen.x,
        translated_position(start_outer, start_screen, current_screen).y - start_outer.y
            == current_screen.y - start_screen.y,
{
}

} // verus!

//! The touch side of the native pointer hook: which contacts are followed, which
//! are palm candidates, which are confirmed palms, and what each touch message
//! reports. Reading contacts from the system, timing the confirmation and
//! classifying contacts by their size are done by the caller; this state machine
//! takes their results.

use vstd::prelude::*;

use crate::input::windows_pointer::PalmErasePhase;

verus! {

/// A set of touch pointer identifiers.
pub struct IdSet {
    ids: Vec<u32>,
}

impl IdSet {
    /// The identifiers.
    pub closed spec fn view(&self) -> Set<u32> {
        self.ids@.to_set()
    }

    /// No identifier.
    pub fn new() -> (set: IdSet)
        ensures
            set@ == Set::<u32>::empty(),
    {
        let set = IdSet { ids: Vec::new() };
        assert(set@ =~= Set::<u32>::empty());
        set
    }

    /// Whether `id` is in the set.
    pub fn contains(&self, id: u32) -> (found: bool)
        ensures
            found == self@.contains(id),
    {
        let mut i: usize = 0;
        while i < self.ids.len()
            invariant
                i <= self.ids@.len(),
                forall|k: int| 0 <= k < i ==> self.ids@[k] != id,
            decreases self.ids@.len() - i,
        {
            if self.ids[i] == id {
                assert(self.ids@[i as int] == id);
                return true;
            }
            i = i + 1;
        }
        false
    }

    /// Whether the set is empty.
    pub fn is_empty(&self) -> (empty: bool)
        ensures
            empty == (self@ == Set::<u32>::empty()),
    {
        if self.ids.len() == 0 {
            assert(self@ =~= Set::<u32>::empty());
            true
        } else {
            assert(self@.contains(self.ids@[0]));
            false
        }
    }

    /// Adds `id`.
    pub fn insert(&mut self, id: u32)
        ensures
            final(self)@ == old(self)@.insert(id),
    {
        if !self.contains(id) {
            proof {
                lemma_push_contains(self.ids@, id);
            }
            self.ids.push(id);
        }
        assert(self@ =~= old(self)@.insert(id));
    }

    /// Removes `id`.
    pub fn remove(&mut self, id: u32)
        ensures
            final(self)@ == old(self)@.remove(id),
    {
        let mut kept: Vec<u32> = Vec::new();
        let mut i: usize = 0;
        while i < self.ids.len()
            invariant
                i <= self.ids@.len(),
                forall|x: u32| #[trigger] kept@.contains(x) <==> (self.ids@.subrange(0, i as int).contains(x) && x != id),
            decreases self.ids@.len() - i,
        {
            let current = self.ids[i];
            proof {
                assert(self.ids@.subrange(0, i + 1) =~= self.ids@.subrange(0, i as int).push(current));
                lemma_push_contains(self.ids@.subrange(0, i as int), current);
                lemma_push_contains(kept@, current);
            }
            if current != id {
                kept.push(current);
            }
            i = i + 1;
        }
        assert(self.ids@.subrange(0, i as int) =~= self.ids@);
        self.ids = kept;
        assert(self@ =~= old(self)@.remove(id));
    }

    /// Empties the set.
    pub fn clear(&mut self)
        ensures
            final(self)@ == Set::<u32>::empty(),
    {
        self.ids = Vec::new();
        assert(self@ =~= Set::<u32>::empty());
    }

    /// Adds every identifier of `other` that `allowed` holds.
    pub fn insert_all_within(&mut self, other: &Vec<u32>, allowed: &IdSet)
        ensures
            final(self)@ == old(self)@.union(other@.to_set().intersect(allowed@)),
    {
        let mut i: usize = 0;
        while i < other.len()
            invariant
                i <= other@.len(),
                self@ == old(self)@.union(other@.subrange(0, i as int).to_set().intersect(allowed@)),
            decreases other@.len() - i,
        {
            let id = other[i];
            proof {
                assert(other@.subrange(0, i + 1) =~= other@.subrange(0, i as int).push(id));
                lemma_push_contains(other@.subrange(0, i as int), id);
            }
            if allowed.contains(id) {
                self.insert(id);
            }
            i = i + 1;
            assert(self@ =~= old(self)@.union(other@.subrange(0, i as int).to_set().intersect(allowed@)));
        }
        assert(other@.subrange(0, i as int) =~= other@);
    }

    /// Adds every identifier of `other`.
    pub fn insert_set(&mut self, other: &IdSet)
        ensures
            final(self)@ == old(self)@.union(other@),
    {
        let mut i: usize = 0;
        while i < other.ids.len()
            invariant
                i <= other.ids@.len(),
                self@ == old(self)@.union(other.ids@.subrange(0, i as int).to_set()),
            decreases other.ids@.len() - i,
        {
            let id = other.ids[i];
            proof {
                assert(other.ids@.subrange(0, i + 1) =~= other.ids@.subrange(0, i as int).push(id));
                lemma_push_contains(other.ids@.subrange(0, i as int), id);
            }
            self.insert(id);
            i = i + 1;
            assert(self@ =~= old(self)@.union(other.ids@.subrange(0, i as int).to_set()));
        }
        assert(other.ids@.subrange(0, i as int) =~= other.ids@);
    }
}

/// A sequence with `a` pushed holds what it held and `a`.
proof fn lemma_push_contains(s: Seq<u32>, a: u32)
    ensures
        forall|x: u32| #[trigger] s.push(a).contains(x) <==> (s.contains(x) || x == a),
{
    assert forall|x: u32| #[trigger] s.push(a).contains(x) <==> (s.contains(x) || x == a) by {
        if s.push(a).contains(x) {
            let k = choose|k: int| 0 <= k < s.len() + 1 && #[trigger] s.push(a)[k] == x;
            if k < s.len() {
                assert(s[k] == x);
            }
        }
        if s.contains(x) {
            let k = choose|k: int| 0 <= k < s.len() && #[trigger] s[k] == x;
            assert(s.push(a)[k] == x);
        }
        if x == a {
            assert(s.push(a)[s.len() as int] == a);
        }
    }
}

/// The kind of touch message that the hook received.
#[derive(Debug, Clone, Copy, PartialEq, Eq, Structural)]
pub enum TouchMessageKind {
    /// A contact was reported down or moved.
    Update,
    /// The contact lifted, or the window lost its capture.
    Release,
    /// The contact left the window.
    Leave,
}

/// What a touch message reports to the router. The caller fills in the points
/// and the palm's erase sample from its contacts.
#[derive(Debug, Clone, Copy, PartialEq, Eq, Structural)]
pub enum TouchReport {
    /// Ordinary touch input for the window.
    PassThrough,
    /// A touch while the pen is active rests the hand; `still_held` says whether its
    /// contact is still followed (its point is reported).
    PalmSupport { still_held: bool },
    /// The contact may belong to a palm.
    PalmCandidate,
    /// The confirmed palm erases.
    PalmErase(PalmErasePhase),
    /// A candidate lifted without becoming a palm; its points are handed back.
    CandidateRejected { session_ended: bool },
    /// A candidate left the window.
    CandidateCancelled { session_ended: bool },
}

/// The abstract touch session.
pub struct PalmSessionView {
    pub touches: Set<u32>,
    pub candidates: Set<u32>,
    pub palms: Set<u32>,
    pub palm_started: bool,
}

/// The touch session of the native pointer hook.
pub struct PalmSession {
    touches: IdSet,
    candidates: IdSet,
    palms: IdSet,
    palm_started: bool,
}

/// Candidates and palms are followed contacts, and a palm erase runs while any
/// palm contact remains.
pub open spec fn session_wf(v: PalmSessionView) -> bool {
    &&& v.candidates.subset_of(v.touches)
    &&& v.palms.subset_of(v.touches)
    &&& (v.palms != Set::<u32>::empty() ==> v.palm_started)
}

/// A contact stops being followed.
pub open spec fn without_touch(v: PalmSessionView, id: u32) -> PalmSessionView {
    PalmSessionView {
        touches: v.touches.remove(id),
        candidates: v.candidates.remove(id),
        palms: v.palms.remove(id),
        ..v
    }
}

/// A palm contact lifts or leaves: the erase moves on, or ends with the last one.
pub open spec fn spec_finish_palm_touch(v: PalmSessionView, id: u32) -> (PalmSessionView, TouchReport) {
    let removed = without_touch(v, id);
    if removed.palms == Set::<u32>::empty() {
        (
            PalmSessionView { candidates: Set::empty(), palm_started: false, ..removed },
            TouchReport::PalmErase(PalmErasePhase::End),
        )
    } else {
        (removed, TouchReport::PalmErase(PalmErasePhase::Move))
    }
}

/// What a touch message does to the session and what it reports. `classified`
/// holds the contacts that the size classification marks as candidates, and
/// `confirmed` whether the earliest candidate has lasted the confirmation delay.
pub open spec fn spec_touch_message(
    v: PalmSessionView,
    id: u32,
    kind: TouchMessageKind,
    pen_active: bool,
    classified: Set<u32>,
    confirmed: bool,
) -> (PalmSessionView, TouchReport) {
    match kind {
        TouchMessageKind::Leave => if v.palms.contains(id) {
            spec_finish_palm_touch(v, id)
        } else if v.candidates.contains(id) {
            let removed = without_touch(v, id);
            (removed, TouchReport::CandidateCancelled { session_ended: removed.candidates == Set::<u32>::empty() })
        } else {
            (without_touch(v, id), TouchReport::PassThrough)
        },
        _ => if pen_active {
            let next = if kind is Release {
                without_touch(v, id)
            } else {
                v
            };
            (next, TouchReport::PalmSupport { still_held: next.touches.contains(id) })
        } else if kind is Release {
            if v.palms.contains(id) {
                spec_finish_palm_touch(v, id)
            } else if v.candidates.contains(id) {
                let removed = without_touch(v, id);
                (removed, TouchReport::CandidateRejected { session_ended: removed.candidates == Set::<u32>::empty() })
            } else {
                (without_touch(v, id), TouchReport::PassThrough)
            }
        } else {
            let candidates = v.candidates.union(classified.intersect(v.touches));
            if candidates.contains(id) {
                if confirmed {
                    let palms = v.palms.union(candidates);
                    (
                        PalmSessionView { candidates, palms, palm_started: true, ..v },
                        TouchReport::PalmErase(
                            if v.palm_started {
                                PalmErasePhase::Move
                            } else {
                                PalmErasePhase::Begin
                            },
                        ),
                    )
                } else {
                    (PalmSessionView { candidates, ..v }, TouchReport::PalmCandidate)
                }
            } else {
                (PalmSessionView { candidates, ..v }, TouchReport::PassThrough)
            }
        },
    }
}

/// Every touch message keeps the session consistent, and the palm erase it
/// reports is bracketed: a begin only starts an erase that was not running, a
/// move or an end only continues a running one, and an end stops it.
pub proof fn lemma_touch_message_brackets_palm_erase(
    v: PalmSessionView,
    id: u32,
    kind: TouchMessageKind,
    pen_active: bool,
    classified: Set<u32>,
    confirmed: bool,
)
    requires
        session_wf(v),
    ensures
        ({
            let (next, report) = spec_touch_message(v, id, kind, pen_active, classified, confirmed);
            &&& session_wf(next)
            &&& (report == TouchReport::PalmErase(PalmErasePhase::Begin) ==> !v.palm_started && next.palm_started)
            &&& (report == TouchReport::PalmErase(PalmErasePhase::Move) ==> v.palm_started && next.palm_started)
            &&& (report == TouchReport::PalmErase(PalmErasePhase::End) ==> v.palm_started && !next.palm_started)
        }),
{
    let (next, report) = spec_touch_message(v, id, kind, pen_active, classified, confirmed);
    if v.palms.contains(id) {
        assert(v.palms != Set::<u32>::empty());
    }
    let removed = without_touch(v, id);
    assert(removed.candidates.subset_of(removed.touches));
    assert(removed.palms.subset_of(removed.touches));
    if v.palms == Set::<u32>::empty() {
        assert(removed.palms =~= Set::<u32>::empty());
    }
    if kind is Update && !pen_active {
        let candidates = v.candidates.union(classified.intersect(v.touches));
        assert(candidates.subset_of(v.touches));
        if candidates.contains(id) && confirmed {
            assert(v.palms.union(candidates).subset_of(v.touches));
        }
    }
}

/// Confirming the palm makes every candidate a palm: after an update that reports a
/// palm erase, the earlier palms, the earlier candidates, the contact itself and
/// every candidate the session now holds all belong to the palm.
pub proof fn lemma_confirmation_makes_every_candidate_a_palm(
    v: PalmSessionView,
    id: u32,
    classified: Set<u32>,
    confirmed: bool,
)
    ensures
        ({
            let (next, report) = spec_touch_message(v, id, TouchMessageKind::Update, false, classified, confirmed);
            report is PalmErase ==> {
                &&& next.candidates.subset_of(next.palms)
                &&& v.candidates.subset_of(next.palms)
                &&& v.palms.subset_of(next.palms)
                &&& next.palms.contains(id)
            }
        }),
{
}

/// A palm erase lasts while any palm contact rests: lifting or losing one palm
/// contact while another palm contact is down continues the erase (a move), and
/// only the last one ends it.
pub proof fn lemma_palm_erase_lasts_while_a_palm_rests(
    v: PalmSessionView,
    id: u32,
    other: u32,
    kind: TouchMessageKind,
    classified: Set<u32>,
    confirmed: bool,
)
    requires
        v.palms.contains(id),
        kind is Release || kind is Leave,
        other != id,
        v.palms.contains(other),
    ensures
        ({
            let (next, report) = spec_touch_message(v, id, kind, false, classified, confirmed);
            &&& report == TouchReport::PalmErase(PalmErasePhase::Move)
            &&& next.palms.contains(other)
            &&& !next.palms.contains(id)
        }),
{
    assert(v.palms.remove(id).contains(other));
}

impl PalmSession {
    /// The abstract session.
    pub closed spec fn view(&self) -> PalmSessionView {
        PalmSessionView {
            touches: self.touches@,
            candidates: self.candidates@,
            palms: self.palms@,
            palm_started: self.palm_started,
        }
    }

    /// No contact followed.
    pub fn new() -> (session: PalmSession)
        ensures
            session@ == (PalmSessionView {
                touches: Set::empty(),
                candidates: Set::empty(),
                palms: Set::empty(),
                palm_started: false,
            }),
            session_wf(session@),
    {
        PalmSession { touches: IdSet::new(), candidates: IdSet::new(), palms: IdSet::new(), palm_started: false }
    }

    /// Records that the contact `id` was read from the current touch frame.
    pub fn record_contact(&mut self, id: u32)
        requires
            session_wf(old(self)@),
        ensures
            final(self)@ == (PalmSessionView { touches: old(self)@.touches.insert(id), ..old(self)@ }),
            session_wf(final(self)@),
    {
        self.touches.insert(id);
    }

    /// Whether the contact `id` is followed.
    pub fn follows(&self, id: u32) -> (followed: bool)
        ensures
            followed == self@.touches.contains(id),
    {
        self.touches.contains(id)
    }

    /// Whether the contact `id` is a palm candidate.
    pub fn is_candidate(&self, id: u32) -> (candidate: bool)
        ensures
            candidate == self@.candidates.contains(id),
    {
        self.candidates.contains(id)
    }

    /// Whether the contact `id` belongs to the confirmed palm.
    pub fn is_palm(&self, id: u32) -> (palm: bool)
        ensures
            palm == self@.palms.contains(id),
    {
        self.palms.contains(id)
    }

    /// Whether a palm erase is running.
    pub fn palm_erasing(&self) -> (erasing: bool)
        ensures
            erasing == self@.palm_started,
    {
        self.palm_started
    }

    /// Whether no contact is followed, no candidate or palm is held and no erase runs.
    pub fn is_idle(&self) -> (idle: bool)
        ensures
            idle == (self@.touches == Set::<u32>::empty() && self@.candidates == Set::<u32>::empty()
                && self@.palms == Set::<u32>::empty() && !self@.palm_started),
    {
        self.touches.is_empty() && self.candidates.is_empty() && self.palms.is_empty() && !self.palm_started
    }

    /// Stops tracking the contact `id` everywhere.
    fn remove_touch(&mut self, id: u32)
        ensures
            final(self)@ == without_touch(old(self)@, id),
    {
        self.touches.remove(id);
        self.candidates.remove(id);
        self.palms.remove(id);
    }

    /// A palm contact lifts or leaves.
    fn finish_palm_touch(&mut self, id: u32) -> (report: TouchReport)
        ensures
            (final(self)@, report) == spec_finish_palm_touch(old(self)@, id),
    {
        self.remove_touch(id);
        if self.palms.is_empty() {
            self.palm_started = false;
            self.candidates.clear();
            TouchReport::PalmErase(PalmErasePhase::End)
        } else {
            TouchReport::PalmErase(PalmErasePhase::Move)
        }
    }

    /// Handles a touch message: see `spec_touch_message`.
    pub fn handle_touch_message(
        &mut self,
        id: u32,
        kind: TouchMessageKind,
        pen_active: bool,
        classified: &Vec<u32>,
        confirmed: bool,
    ) -> (report: TouchReport)
        requires
            session_wf(old(self)@),
        ensures
            (final(self)@, report) == spec_touch_message(old(self)@, id, kind, pen_active, classified@.to_set(), confirmed),
            session_wf(final(self)@),
    {
        proof {
            lemma_touch_message_brackets_palm_erase(old(self)@, id, kind, pen_active, classified@.to_set(), confirmed);
        }
        match kind {
            TouchMessageKind::Leave => {
                if self.palms.contains(id) {
                    return self.finish_palm_touch(id);
                }
                if self.candidates.contains(id) {
                    self.remove_touch(id);
                    return TouchReport::CandidateCancelled { session_ended: self.candidates.is_empty() };
                }
                self.remove_touch(id);
                return TouchReport::PassThrough;
            },
            _ => {},
        }
        let release = match kind {
            TouchMessageKind::Release => true,
            _ => false,
        };
        if pen_active {
            if release {
                self.remove_touch(id);
            }
            return TouchReport::PalmSupport { still_held: self.touches.contains(id) };
        }
        if release {
            if self.palms.contains(id) {
                return self.finish_palm_touch(id);
            }
            if self.candidates.contains(id) {
                self.remove_touch(id);
                return TouchReport::CandidateRejected { session_ended: self.candidates.is_empty() };
            }
            self.remove_touch(id);
            return TouchReport::PassThrough;
        }
        self.candidates.insert_all_within(classified, &self.touches);
        if self.candidates.contains(id) {
            if confirmed {
                self.palms.insert_set(&self.candidates);
                let phase = if self.palm_started {
                    PalmErasePhase::Move
                } else {
                    PalmErasePhase::Begin
                };
                self.palm_started = true;
                return TouchReport::PalmErase(phase);
            }
            return TouchReport::PalmCandidate;
        }
        TouchReport::PassThrough
    }
}

} // verus!

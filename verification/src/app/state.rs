//! The top-level application modes and the state machine that keeps the normal
//! ink, the slideshow session and the suppression of a dismissed show together.

use vstd::prelude::*;
use vstd::std_specs::cmp::PartialEqSpec;
use vstd::string::StringExecFns;

use crate::ink::document::{
    recovery_check, recovery_error_text, GeometryFault, InkDocument, InkOperation, RecoveryCheck,
};

verus! {

/// The application mode that decides the interface and the input routing.
#[derive(Debug, Clone, Copy, PartialEq, Eq, Structural)]
pub enum AppMode {
    IdleFloatingToolbar,
    NormalAnnotating,
    SlideShowAnnotatingExpanded,
    SlideShowAnnotatingCollapsed,
    SlideShowConnectionLost,
}

/// The mode belongs to an established slideshow annotation session.
pub open spec fn mode_is_slideshow(mode: AppMode) -> bool {
    mode is SlideShowAnnotatingExpanded || mode is SlideShowAnnotatingCollapsed
        || mode is SlideShowConnectionLost
}

impl AppMode {
    /// Whether the transparent canvas takes pen and eraser input in this mode.
    pub fn accepts_ink_input(self) -> (accepts: bool)
        ensures
            accepts == !(self is IdleFloatingToolbar),
    {
        match self {
            AppMode::NormalAnnotating | AppMode::SlideShowAnnotatingExpanded
            | AppMode::SlideShowAnnotatingCollapsed | AppMode::SlideShowConnectionLost => true,
            AppMode::IdleFloatingToolbar => false,
        }
    }

    /// Whether the mode belongs to an established slideshow annotation session.
    pub fn is_slideshow(self) -> (slideshow: bool)
        ensures
            slideshow == mode_is_slideshow(self),
    {
        match self {
            AppMode::SlideShowAnnotatingExpanded | AppMode::SlideShowAnnotatingCollapsed
            | AppMode::SlideShowConnectionLost => true,
            _ => false,
        }
    }
}

/// The slideshow canvas's momentary input mode; it is neither recovered nor saved.
#[derive(Debug, Clone, Copy, PartialEq, Eq, Structural)]
pub enum SlideshowInputMode {
    Ink,
    Mouse,
}

impl SlideshowInputMode {
    /// The mode a slideshow session starts in: ink.
    pub fn default_mode() -> (mode: SlideshowInputMode)
        ensures
            mode is Ink,
    {
        SlideshowInputMode::Ink
    }

    /// Whether the slideshow canvas creates or erases software ink in this mode.
    pub fn accepts_ink_input(self) -> (accepts: bool)
        ensures
            accepts == (self is Ink),
    {
        match self {
            SlideshowInputMode::Ink => true,
            SlideshowInputMode::Mouse => false,
        }
    }
}

/// The key type's `==` is equality of values, as a derived `PartialEq` on a plain
/// key is: it is what Verus reads of `eq`, and two keys are equal exactly when
/// they are the same value.
pub open spec fn key_equality_is_identity<K: PartialEq>() -> bool {
    &&& K::obeys_eq_spec()
    &&& forall|a: K, b: K| #[trigger] a.eq_spec(&b) <==> a == b
}

/// The two keys name the same slideshow.
pub open spec fn same_show<K>(a: K, b: K) -> bool {
    a == b
}

/// Compares two slideshow keys.
fn keys_match<K: PartialEq>(a: &K, b: &K) -> (matched: bool)
    requires
        key_equality_is_identity::<K>(),
    ensures
        matched == same_show(*a, *b),
{
    a.eq(b)
}

/// The error text when the mode and the session disagree.
pub open spec fn mode_session_mismatch_text() -> Seq<char> {
    "应用模式与放映会话存在状态不一致"@
}

/// The error text when an active session and a suppressed show coexist.
pub open spec fn session_and_suppression_text() -> Seq<char> {
    "活动放映会话不能同时持有重入抑制键"@
}

/// The application state machine: the top-level mode, the normal annotation
/// document, the slideshow session (with the key of its show) and the key of a
/// dismissed show that must not be re-entered automatically.
///
/// `T` is what an ink operation carries, `K` the key of a slideshow, `S` the
/// session's own page state.
pub struct AppState<T, K, S> {
    mode: AppMode,
    normal_document: InkDocument<T>,
    slideshow_session: Option<(K, S)>,
    suppressed_show_key: Option<K>,
}

impl<T, K: PartialEq, S> AppState<T, K, S> {
    /// The top-level mode.
    pub closed spec fn spec_mode(&self) -> AppMode {
        self.mode
    }

    /// The normal annotation document.
    pub closed spec fn normal(&self) -> InkDocument<T> {
        self.normal_document
    }

    /// The slideshow session with the key of its show.
    pub closed spec fn session(&self) -> Option<(K, S)> {
        self.slideshow_session
    }

    /// The key of the dismissed show that is not re-entered automatically.
    pub closed spec fn suppressed(&self) -> Option<K> {
        self.suppressed_show_key
    }

    /// The mode and the session agree, no session coexists with a suppressed
    /// show, and the normal document is well formed.
    pub open spec fn wf(&self) -> bool {
        &&& mode_is_slideshow(self.spec_mode()) == self.session() is Some
        &&& !(self.session() is Some && self.suppressed() is Some)
        &&& self.normal().wf()
    }

    /// The abstract state.
    pub open spec fn view(&self) -> AppStateView<T, K, S> {
        AppStateView {
            mode: self.spec_mode(),
            history: self.normal().history(),
            next_id: self.normal().next_id(),
            session: self.session(),
            suppressed: self.suppressed(),
        }
    }

    /// The state after start-up: the floating toolbar, empty normal ink, no session.
    pub fn new() -> (state: Self)
        ensures
            state.view() == initial_view::<T, K, S>(),
            state.wf(),
            state.spec_mode() is IdleFloatingToolbar,
            state.normal().history() == Seq::<InkOperation<T>>::empty(),
            state.normal().next_id() == 0,
            state.session() is None,
            state.suppressed() is None,
    {
        AppState {
            mode: AppMode::IdleFloatingToolbar,
            normal_document: InkDocument::new(),
            slideshow_session: None,
            suppressed_show_key: None,
        }
    }

    /// Rebuilds a recovered state, refusing one whose mode and session disagree or
    /// that holds both a session and a suppressed show.
    pub fn from_parts(
        mode: AppMode,
        normal_document: InkDocument<T>,
        slideshow_session: Option<(K, S)>,
        suppressed_show_key: Option<K>,
    ) -> (res: Result<Self, String>)
        requires
            normal_document.wf(),
        ensures
            mode_is_slideshow(mode) != slideshow_session is Some ==> (res matches Err(message)
                && message@ == mode_session_mismatch_text()),
            mode_is_slideshow(mode) == slideshow_session is Some && slideshow_session is Some
                && suppressed_show_key is Some ==> (res matches Err(message) && message@
                == session_and_suppression_text()),
            mode_is_slideshow(mode) == slideshow_session is Some && !(slideshow_session is Some
                && suppressed_show_key is Some) ==> (res matches Ok(state) && state.wf()
                && state.spec_mode() == mode && state.normal() == normal_document
                && state.session() == slideshow_session && state.suppressed()
                == suppressed_show_key),
    {
        if mode.is_slideshow() != slideshow_session.is_some() {
            proof {
                reveal_strlit("应用模式与放映会话存在状态不一致");
            }
            return Err(String::from_str("应用模式与放映会话存在状态不一致"));
        }
        if slideshow_session.is_some() && suppressed_show_key.is_some() {
            proof {
                reveal_strlit("活动放映会话不能同时持有重入抑制键");
            }
            return Err(String::from_str("活动放映会话不能同时持有重入抑制键"));
        }
        Ok(AppState {
            mode,
            normal_document,
            slideshow_session,
            suppressed_show_key,
        })
    }

    /// The current top-level mode.
    pub fn mode(&self) -> (mode: AppMode)
        ensures
            mode == self.spec_mode(),
    {
        self.mode
    }

    /// The normal annotation document.
    pub fn normal_document(&self) -> (document: &InkDocument<T>)
        ensures
            *document == self.normal(),
    {
        &self.normal_document
    }

    /// The normal annotation document, for drawing into it.
    pub fn normal_document_mut(&mut self) -> (document: &mut InkDocument<T>)
        ensures
            *document == old(self).normal(),
            final(self).normal() == *final(document),
            final(self).spec_mode() == old(self).spec_mode(),
            final(self).session() == old(self).session(),
            final(self).suppressed() == old(self).suppressed(),
    {
        &mut self.normal_document
    }

    /// The document that the canvas shows in normal annotation; in a slideshow
    /// the canvas shows the session's page and in the idle mode there is none.
    pub fn active_normal_document(&self) -> (document: Option<&InkDocument<T>>)
        ensures
            self.spec_mode() is NormalAnnotating ==> document == Some(&self.normal()),
            !(self.spec_mode() is NormalAnnotating) ==> document is None,
    {
        match self.mode {
            AppMode::NormalAnnotating => Some(&self.normal_document),
            _ => None,
        }
    }

    /// The slideshow session, if any.
    pub fn slideshow_session(&self) -> (session: Option<&S>)
        ensures
            match self.session() {
                Some((_, s)) => session == Some(&s),
                None => session is None,
            },
    {
        match &self.slideshow_session {
            Some((_, session)) => Some(session),
            None => None,
        }
    }

    /// The slideshow session, for switching its page.
    pub fn slideshow_session_mut(&mut self) -> (session: Option<&mut S>)
        ensures
            match old(self).session() {
                Some((key, s)) => session matches Some(m) && *m == s && final(self).session()
                    == Some((key, *final(m))),
                None => session is None && final(self).session() is None,
            },
            final(self).spec_mode() == old(self).spec_mode(),
            final(self).normal() == old(self).normal(),
            final(self).suppressed() == old(self).suppressed(),
    {
        match &mut self.slideshow_session {
            Some((_, session)) => Some(session),
            None => None,
        }
    }

    /// Whether the session belongs to the show with this key.
    pub fn is_current_show(&self, show_key: &K) -> (current: bool)
        requires
            key_equality_is_identity::<K>(),
        ensures
            current == (self.session() matches Some((key, _)) && same_show(key, *show_key)),
    {
        match &self.slideshow_session {
            Some((key, _)) => keys_match(key, show_key),
            None => false,
        }
    }

    /// Enters normal annotation from the floating toolbar.
    pub fn enter_normal_annotation(&mut self) -> (entered: bool)
        requires
            old(self).wf(),
        ensures
            final(self).wf(),
            (final(self).view(), entered) == spec_enter_normal_annotation(old(self).view()),
            entered == old(self).spec_mode() is IdleFloatingToolbar,
            entered ==> final(self).spec_mode() is NormalAnnotating,
            !entered ==> final(self).spec_mode() == old(self).spec_mode(),
            final(self).normal() == old(self).normal(),
            final(self).session() == old(self).session(),
            final(self).suppressed() == old(self).suppressed(),
    {
        match self.mode {
            AppMode::IdleFloatingToolbar => {
                self.mode = AppMode::NormalAnnotating;
                true
            },
            _ => false,
        }
    }

    /// Leaves normal annotation; by the product's rule the normal ink is cleared.
    pub fn exit_normal_annotation(&mut self) -> (exited: bool)
        requires
            old(self).wf(),
        ensures
            final(self).wf(),
            (final(self).view(), exited) == spec_exit_normal_annotation(old(self).view()),
            exited == old(self).spec_mode() is NormalAnnotating,
            exited ==> final(self).spec_mode() is IdleFloatingToolbar && final(self).normal().history()
                == Seq::<InkOperation<T>>::empty() && final(self).normal().next_id() == 0,
            !exited ==> final(self).spec_mode() == old(self).spec_mode() && final(self).normal()
                == old(self).normal(),
            final(self).session() == old(self).session(),
            final(self).suppressed() == old(self).suppressed(),
    {
        match self.mode {
            AppMode::NormalAnnotating => {
                self.normal_document = InkDocument::new();
                self.mode = AppMode::IdleFloatingToolbar;
                true
            },
            _ => false,
        }
    }

    /// Accepts a confirmed slideshow start. The show that was dismissed is not
    /// re-entered; any other show clears the suppression, empties the normal ink
    /// and opens a session in the expanded layout.
    pub fn start_slideshow(&mut self, key: K, session: S) -> (started: bool)
        requires
            old(self).wf(),
            key_equality_is_identity::<K>(),
        ensures
            final(self).wf(),
            (final(self).view(), started) == spec_start_slideshow(old(self).view(), key, session),
            started == !(old(self).suppressed() matches Some(s) && same_show(s, key)),
            !started ==> final(self).spec_mode() == old(self).spec_mode() && final(self).normal()
                == old(self).normal() && final(self).session() == old(self).session()
                && final(self).suppressed() == old(self).suppressed(),
            started ==> final(self).spec_mode() is SlideShowAnnotatingExpanded && final(self).normal().history() == Seq::<InkOperation<T>>::empty() && final(self).normal().next_id()
                == 0 && final(self).session() == Some((key, session)) && final(self).suppressed() is None,
    {
        let suppressed = match &self.suppressed_show_key {
            Some(suppressed) => keys_match(suppressed, &key),
            None => false,
        };
        if suppressed {
            return false;
        }
        self.suppressed_show_key = None;
        self.normal_document = InkDocument::new();
        self.slideshow_session = Some((key, session));
        self.mode = AppMode::SlideShowAnnotatingExpanded;
        true
    }

    /// Collapses the slideshow toolbar's body, keeping the page controls.
    pub fn collapse_slideshow_toolbar(&mut self) -> (collapsed: bool)
        requires
            old(self).wf(),
        ensures
            final(self).wf(),
            (final(self).view(), collapsed) == spec_collapse_slideshow_toolbar(old(self).view()),
            collapsed == old(self).spec_mode() is SlideShowAnnotatingExpanded,
            collapsed ==> final(self).spec_mode() is SlideShowAnnotatingCollapsed,
            !collapsed ==> final(self).spec_mode() == old(self).spec_mode(),
            final(self).normal() == old(self).normal(),
            final(self).session() == old(self).session(),
            final(self).suppressed() == old(self).suppressed(),
    {
        match self.mode {
            AppMode::SlideShowAnnotatingExpanded => {
                self.mode = AppMode::SlideShowAnnotatingCollapsed;
                true
            },
            _ => false,
        }
    }

    /// Expands the slideshow toolbar's body.
    pub fn expand_slideshow_toolbar(&mut self) -> (expanded: bool)
        requires
            old(self).wf(),
        ensures
            final(self).wf(),
            (final(self).view(), expanded) == spec_expand_slideshow_toolbar(old(self).view()),
            expanded == old(self).spec_mode() is SlideShowAnnotatingCollapsed,
            expanded ==> final(self).spec_mode() is SlideShowAnnotatingExpanded,
            !expanded ==> final(self).spec_mode() == old(self).spec_mode(),
            final(self).normal() == old(self).normal(),
            final(self).session() == old(self).session(),
            final(self).suppressed() == old(self).suppressed(),
    {
        match self.mode {
            AppMode::SlideShowAnnotatingCollapsed => {
                self.mode = AppMode::SlideShowAnnotatingExpanded;
                true
            },
            _ => false,
        }
    }

    /// Enters the degraded state after the presentation link dropped; its layout
    /// is always the expanded one.
    pub fn lose_slideshow_connection(&mut self) -> (lost: bool)
        requires
            old(self).wf(),
        ensures
            final(self).wf(),
            (final(self).view(), lost) == spec_lose_slideshow_connection(old(self).view()),
            lost == (old(self).spec_mode() is SlideShowAnnotatingExpanded || old(self).spec_mode() is SlideShowAnnotatingCollapsed),
            lost ==> final(self).spec_mode() is SlideShowConnectionLost,
            !lost ==> final(self).spec_mode() == old(self).spec_mode(),
            final(self).normal() == old(self).normal(),
            final(self).session() == old(self).session(),
            final(self).suppressed() == old(self).suppressed(),
    {
        match self.mode {
            AppMode::SlideShowAnnotatingExpanded | AppMode::SlideShowAnnotatingCollapsed => {
                self.mode = AppMode::SlideShowConnectionLost;
                true
            },
            _ => false,
        }
    }

    /// Restores the link when the same show reports back: the layout expands again
    /// and the session is handed back so that its page follows the current slide.
    /// Another show, or a state that did not lose the link, changes nothing.
    pub fn restore_slideshow_connection(&mut self, show_key: &K) -> (session: Option<&mut S>)
        requires
            old(self).wf(),
            key_equality_is_identity::<K>(),
        ensures
            final(self).wf(),
            final(self).view() == (AppStateView { session: final(self).session(), ..spec_restore_slideshow_connection(old(self).view(), *show_key).0 }),
            (session is Some) == spec_restore_slideshow_connection(old(self).view(), *show_key).1,
            final(self).normal() == old(self).normal(),
            final(self).suppressed() == old(self).suppressed(),
            match old(self).session() {
                Some((key, s)) => if old(self).spec_mode() is SlideShowConnectionLost && same_show(
                    key,
                    *show_key,
                ) {
                    &&& session matches Some(m) && *m == s && final(self).session() == Some(
                        (key, *final(m)),
                    )
                    &&& final(self).spec_mode() is SlideShowAnnotatingExpanded
                } else {
                    &&& session is None
                    &&& final(self).session() == old(self).session()
                    &&& final(self).spec_mode() == old(self).spec_mode()
                },
                None => session is None && final(self).session() == old(self).session()
                    && final(self).spec_mode() == old(self).spec_mode(),
            },
    {
        let lost = match self.mode {
            AppMode::SlideShowConnectionLost => true,
            _ => false,
        };
        if !lost {
            return None;
        }
        let matches = match &self.slideshow_session {
            Some((key, _)) => keys_match(key, show_key),
            None => false,
        };
        if !matches {
            return None;
        }
        self.mode = AppMode::SlideShowAnnotatingExpanded;
        match &mut self.slideshow_session {
            Some((_, session)) => Some(session),
            None => None,
        }
    }

    /// Hands back the session of the show that turned a page, so that its page
    /// follows the slide; another show changes nothing. The mode, and so the
    /// toolbar's layout, stays as it is.
    pub fn change_slide(&mut self, show_key: &K) -> (session: Option<&mut S>)
        requires
            old(self).wf(),
            key_equality_is_identity::<K>(),
        ensures
            final(self).wf(),
            final(self).view() == (AppStateView { session: final(self).session(), ..old(self).view() }),
            (session is Some) == spec_change_slide(old(self).view(), *show_key).1,
            final(self).spec_mode() == old(self).spec_mode(),
            final(self).normal() == old(self).normal(),
            final(self).suppressed() == old(self).suppressed(),
            match old(self).session() {
                Some((key, s)) => if same_show(key, *show_key) {
                    session matches Some(m) && *m == s && final(self).session() == Some(
                        (key, *final(m)),
                    )
                } else {
                    session is None && final(self).session() == old(self).session()
                },
                None => session is None && final(self).session() == old(self).session(),
            },
    {
        match &mut self.slideshow_session {
            Some((key, session)) => if keys_match(key, show_key) {
                Some(session)
            } else {
                None
            },
            None => None,
        }
    }

    /// Handles a confirmed end of a show: its session closes and the toolbar
    /// returns, and a suppression of that show is lifted. Another show changes
    /// nothing.
    pub fn end_slideshow(&mut self, show_key: &K) -> (ended: bool)
        requires
            old(self).wf(),
            key_equality_is_identity::<K>(),
        ensures
            final(self).wf(),
            (final(self).view(), ended) == spec_end_slideshow(old(self).view(), *show_key),
            ({
                let session_matches = old(self).session() matches Some((key, _)) && same_show(
                    key,
                    *show_key,
                );
                let suppression_matches = old(self).suppressed() matches Some(key) && same_show(
                    key,
                    *show_key,
                );
                &&& ended == (session_matches || suppression_matches)
                &&& session_matches ==> final(self).session() is None && final(self).spec_mode() is IdleFloatingToolbar
                &&& !session_matches ==> final(self).session() == old(self).session() && final(self).spec_mode() == old(self).spec_mode()
                &&& suppression_matches ==> final(self).suppressed() is None
                &&& !suppression_matches ==> final(self).suppressed() == old(self).suppressed()
            }),
            final(self).normal() == old(self).normal(),
    {
        let session_matches = match &self.slideshow_session {
            Some((key, _)) => keys_match(key, show_key),
            None => false,
        };
        let suppression_matches = match &self.suppressed_show_key {
            Some(key) => keys_match(key, show_key),
            None => false,
        };
        if !session_matches && !suppression_matches {
            return false;
        }
        if session_matches {
            self.slideshow_session = None;
            self.mode = AppMode::IdleFloatingToolbar;
        }
        if suppression_matches {
            self.suppressed_show_key = None;
        }
        true
    }

    /// Leaves local annotation from the lost-link confirmation: the session closes,
    /// the toolbar returns, and its show is suppressed so that it is not re-entered
    /// automatically.
    pub fn dismiss_disconnected_slideshow(&mut self) -> (dismissed: bool)
        requires
            old(self).wf(),
        ensures
            final(self).wf(),
            (final(self).view(), dismissed) == spec_dismiss_disconnected_slideshow(old(self).view()),
            dismissed == old(self).spec_mode() is SlideShowConnectionLost,
            dismissed ==> final(self).spec_mode() is IdleFloatingToolbar && final(self).session() is None
                && final(self).suppressed() == Some(old(self).session()->Some_0.0),
            !dismissed ==> final(self).spec_mode() == old(self).spec_mode() && final(self).session()
                == old(self).session() && final(self).suppressed() == old(self).suppressed(),
            final(self).normal() == old(self).normal(),
    {
        match self.mode {
            AppMode::SlideShowConnectionLost => {},
            _ => return false,
        }
        let taken = self.slideshow_session.take();
        match taken {
            Some((key, _)) => {
                self.suppressed_show_key = Some(key);
                self.mode = AppMode::IdleFloatingToolbar;
                true
            },
            None => false,
        }
    }

    /// Checks a recovered state before it is used or persisted: the normal
    /// document's check first (`normal_fault` is the first operation whose geometry
    /// the caller found faulty), then the session's own check (`session_check`,
    /// which the caller runs on the session's documents), then that the mode and
    /// the session agree, then that no session coexists with a suppressed show;
    /// the first failure is reported.
    pub fn validate_recovery(
        &self,
        normal_fault: Option<(usize, GeometryFault)>,
        session_check: Result<(), String>,
    ) -> (res: Result<(), String>)
        ensures
            match app_recovery_check(self.view(), normal_fault, text_result(session_check)) {
                Ok(()) => res is Ok,
                Err(text) => res matches Err(message) && message@ == text,
            },
            res is Ok ==> self.wf(),
    {
        match self.normal_document.validate_recovery(normal_fault) {
            Ok(()) => {},
            Err(message) => return Err(message),
        }
        if self.slideshow_session.is_some() {
            match session_check {
                Ok(()) => {},
                Err(message) => return Err(message),
            }
        }
        if self.mode.is_slideshow() != self.slideshow_session.is_some() {
            proof {
                reveal_strlit("应用模式与放映会话存在状态不一致");
            }
            return Err(String::from_str("应用模式与放映会话存在状态不一致"));
        }
        if self.slideshow_session.is_some() && self.suppressed_show_key.is_some() {
            proof {
                reveal_strlit("活动放映会话不能同时持有重入抑制键");
            }
            return Err(String::from_str("活动放映会话不能同时持有重入抑制键"));
        }
        Ok(())
    }

    /// Whether the slideshow controls work: not while the link is lost.
    pub fn slideshow_controls_enabled(&self) -> (enabled: bool)
        ensures
            enabled == ((self.spec_mode() is SlideShowAnnotatingExpanded || self.spec_mode() is SlideShowAnnotatingCollapsed)
                && self.session() is Some),
    {
        match self.mode {
            AppMode::SlideShowAnnotatingExpanded | AppMode::SlideShowAnnotatingCollapsed => self.slideshow_session.is_some(),
            _ => false,
        }
    }
}

/// The abstract application state: the mode, the normal document's history and
/// last identifier, the session with its show's key, and the suppressed show.
pub struct AppStateView<T, K, S> {
    pub mode: AppMode,
    pub history: Seq<InkOperation<T>>,
    pub next_id: u64,
    pub session: Option<(K, S)>,
    pub suppressed: Option<K>,
}

/// The state after start-up.
pub open spec fn initial_view<T, K, S>() -> AppStateView<T, K, S> {
    AppStateView {
        mode: AppMode::IdleFloatingToolbar,
        history: Seq::empty(),
        next_id: 0,
        session: None,
        suppressed: None,
    }
}

/// The rules that recovery checks: the mode is a slideshow mode exactly when a
/// session is open, and no session coexists with a suppressed show.
pub open spec fn consistent<T, K, S>(v: AppStateView<T, K, S>) -> bool {
    &&& mode_is_slideshow(v.mode) == v.session is Some
    &&& !(v.session is Some && v.suppressed is Some)
}

/// Entering normal annotation from the toolbar.
pub open spec fn spec_enter_normal_annotation<T, K, S>(v: AppStateView<T, K, S>) -> (AppStateView<T, K, S>, bool) {
    if v.mode is IdleFloatingToolbar {
        (AppStateView { mode: AppMode::NormalAnnotating, ..v }, true)
    } else {
        (v, false)
    }
}

/// Leaving normal annotation, which empties the normal ink.
pub open spec fn spec_exit_normal_annotation<T, K, S>(v: AppStateView<T, K, S>) -> (AppStateView<T, K, S>, bool) {
    if v.mode is NormalAnnotating {
        (AppStateView { mode: AppMode::IdleFloatingToolbar, history: Seq::empty(), next_id: 0, ..v }, true)
    } else {
        (v, false)
    }
}

/// A confirmed start of the show `key`: refused for the suppressed show, else a
/// fresh session in the expanded layout with empty normal ink.
pub open spec fn spec_start_slideshow<T, K, S>(v: AppStateView<T, K, S>, key: K, session: S) -> (AppStateView<T, K, S>, bool) {
    if v.suppressed == Some(key) {
        (v, false)
    } else {
        (
            AppStateView {
                mode: AppMode::SlideShowAnnotatingExpanded,
                history: Seq::empty(),
                next_id: 0,
                session: Some((key, session)),
                suppressed: None,
            },
            true,
        )
    }
}

/// Collapsing the slideshow toolbar.
pub open spec fn spec_collapse_slideshow_toolbar<T, K, S>(v: AppStateView<T, K, S>) -> (AppStateView<T, K, S>, bool) {
    if v.mode is SlideShowAnnotatingExpanded {
        (AppStateView { mode: AppMode::SlideShowAnnotatingCollapsed, ..v }, true)
    } else {
        (v, false)
    }
}

/// Expanding the slideshow toolbar.
pub open spec fn spec_expand_slideshow_toolbar<T, K, S>(v: AppStateView<T, K, S>) -> (AppStateView<T, K, S>, bool) {
    if v.mode is SlideShowAnnotatingCollapsed {
        (AppStateView { mode: AppMode::SlideShowAnnotatingExpanded, ..v }, true)
    } else {
        (v, false)
    }
}

/// Losing the presentation link.
pub open spec fn spec_lose_slideshow_connection<T, K, S>(v: AppStateView<T, K, S>) -> (AppStateView<T, K, S>, bool) {
    if v.mode is SlideShowAnnotatingExpanded || v.mode is SlideShowAnnotatingCollapsed {
        (AppStateView { mode: AppMode::SlideShowConnectionLost, ..v }, true)
    } else {
        (v, false)
    }
}

/// Restoring the link for the show `key`; the session's page is switched by the
/// caller through the session handed back.
pub open spec fn spec_restore_slideshow_connection<T, K, S>(v: AppStateView<T, K, S>, key: K) -> (AppStateView<T, K, S>, bool) {
    if v.mode is SlideShowConnectionLost && (v.session matches Some((current, _)) && current == key) {
        (AppStateView { mode: AppMode::SlideShowAnnotatingExpanded, ..v }, true)
    } else {
        (v, false)
    }
}

/// A page turn of the show `key`: the session is handed back when it is that
/// show's; the state is otherwise unchanged.
pub open spec fn spec_change_slide<T, K, S>(v: AppStateView<T, K, S>, key: K) -> (AppStateView<T, K, S>, bool) {
    (v, v.session matches Some((current, _)) && current == key)
}

/// A confirmed end of the show `key`.
pub open spec fn spec_end_slideshow<T, K, S>(v: AppStateView<T, K, S>, key: K) -> (AppStateView<T, K, S>, bool) {
    let session_matches = v.session matches Some((current, _)) && current == key;
    let suppression_matches = v.suppressed == Some(key);
    if !session_matches && !suppression_matches {
        (v, false)
    } else {
        (
            AppStateView {
                mode: if session_matches { AppMode::IdleFloatingToolbar } else { v.mode },
                session: if session_matches { None } else { v.session },
                suppressed: if suppression_matches { None } else { v.suppressed },
                ..v
            },
            true,
        )
    }
}

/// Dismissing the lost-link confirmation: the session closes and its show is
/// suppressed.
pub open spec fn spec_dismiss_disconnected_slideshow<T, K, S>(v: AppStateView<T, K, S>) -> (AppStateView<T, K, S>, bool) {
    if v.mode is SlideShowConnectionLost && v.session is Some {
        (
            AppStateView {
                mode: AppMode::IdleFloatingToolbar,
                session: None,
                suppressed: Some(v.session->Some_0.0),
                ..v
            },
            true,
        )
    } else {
        (v, false)
    }
}

/// A public transition of the application state.
pub enum AppTransition<K, S> {
    EnterNormalAnnotation,
    ExitNormalAnnotation,
    StartSlideshow(K, S),
    CollapseSlideshowToolbar,
    ExpandSlideshowToolbar,
    LoseSlideshowConnection,
    RestoreSlideshowConnection(K),
    ChangeSlide(K),
    EndSlideshow(K),
    DismissDisconnectedSlideshow,
}

/// One transition's next state and result.
pub open spec fn spec_transition<T, K, S>(v: AppStateView<T, K, S>, t: AppTransition<K, S>) -> (AppStateView<T, K, S>, bool) {
    match t {
        AppTransition::EnterNormalAnnotation => spec_enter_normal_annotation(v),
        AppTransition::ExitNormalAnnotation => spec_exit_normal_annotation(v),
        AppTransition::StartSlideshow(key, session) => spec_start_slideshow(v, key, session),
        AppTransition::CollapseSlideshowToolbar => spec_collapse_slideshow_toolbar(v),
        AppTransition::ExpandSlideshowToolbar => spec_expand_slideshow_toolbar(v),
        AppTransition::LoseSlideshowConnection => spec_lose_slideshow_connection(v),
        AppTransition::RestoreSlideshowConnection(key) => spec_restore_slideshow_connection(v, key),
        AppTransition::ChangeSlide(key) => spec_change_slide(v, key),
        AppTransition::EndSlideshow(key) => spec_end_slideshow(v, key),
        AppTransition::DismissDisconnectedSlideshow => spec_dismiss_disconnected_slideshow(v),
    }
}

/// The state after the transitions, in order.
pub open spec fn spec_run<T, K, S>(v: AppStateView<T, K, S>, transitions: Seq<AppTransition<K, S>>) -> AppStateView<T, K, S>
    decreases transitions.len(),
{
    if transitions.len() == 0 {
        v
    } else {
        spec_run(spec_transition(v, transitions[0]).0, transitions.drop_first())
    }
}

/// Every transition keeps the state consistent.
pub proof fn lemma_transition_keeps_consistency<T, K, S>(v: AppStateView<T, K, S>, t: AppTransition<K, S>)
    requires
        consistent(v),
    ensures
        consistent(spec_transition(v, t).0),
{
}

/// Every state that the public transitions reach from start-up is consistent, so
/// that recovery (`AppState::from_parts`) accepts it.
pub proof fn lemma_reachable_states_are_consistent<T, K, S>(transitions: Seq<AppTransition<K, S>>)
    ensures
        consistent(spec_run(initial_view::<T, K, S>(), transitions)),
{
    lemma_runs_keep_consistency(initial_view::<T, K, S>(), transitions);
}

/// A check's outcome with its message as text.
pub open spec fn text_result(check: Result<(), String>) -> Result<(), Seq<char>> {
    match check {
        Ok(()) => Ok(()),
        Err(message) => Err(message@),
    }
}

/// What checking the recovered state `v` finds, the first failure winning: the
/// normal document's check, the session's own check (only where a session is
/// held), the mode against the session, a session beside a suppressed show.
pub open spec fn app_recovery_check<T, K, S>(
    v: AppStateView<T, K, S>,
    normal_fault: Option<(usize, GeometryFault)>,
    session_check: Result<(), Seq<char>>,
) -> Result<(), Seq<char>> {
    let document = recovery_check(v.history, v.next_id, normal_fault);
    if !(document is Valid) {
        Err(recovery_error_text(document))
    } else if v.session is Some && session_check is Err {
        session_check
    } else if mode_is_slideshow(v.mode) != v.session is Some {
        Err(mode_session_mismatch_text())
    } else if v.session is Some && v.suppressed is Some {
        Err(session_and_suppression_text())
    } else {
        Ok(())
    }
}

/// Every state that the public transitions reach from start-up passes the
/// recovery check, wherever its documents pass their own checks: the normal
/// document's (`normal_fault` finds nothing wrong with it) and the session's.
pub proof fn lemma_reachable_states_pass_recovery_check<T, K, S>(
    transitions: Seq<AppTransition<K, S>>,
    normal_fault: Option<(usize, GeometryFault)>,
    session_check: Result<(), Seq<char>>,
)
    requires
        ({
            let v = spec_run(initial_view::<T, K, S>(), transitions);
            recovery_check(v.history, v.next_id, normal_fault) is Valid
        }),
        session_check is Ok,
    ensures
        app_recovery_check(spec_run(initial_view::<T, K, S>(), transitions), normal_fault, session_check)
            == Ok::<(), Seq<char>>(()),
{
    lemma_reachable_states_are_consistent::<T, K, S>(transitions);
}

/// Runs of transitions keep the state consistent.
proof fn lemma_runs_keep_consistency<T, K, S>(v: AppStateView<T, K, S>, transitions: Seq<AppTransition<K, S>>)
    requires
        consistent(v),
    ensures
        consistent(spec_run(v, transitions)),
    decreases transitions.len(),
{
    if transitions.len() > 0 {
        lemma_transition_keeps_consistency(v, transitions[0]);
        lemma_runs_keep_consistency(spec_transition(v, transitions[0]).0, transitions.drop_first());
    }
}

/// Starting the show `key` again and again, one session after another.
pub open spec fn restarts<K, S>(key: K, sessions: Seq<S>) -> Seq<AppTransition<K, S>> {
    Seq::new(sessions.len(), |i: int| AppTransition::StartSlideshow(key, sessions[i]))
}

/// A dismissed show is not re-entered automatically: after the dismissal the
/// toolbar is back with no session; every start of that show is refused and
/// changes nothing, however often it comes; its confirmed end is accepted and
/// lifts the suppression, after which the show starts again.
pub proof fn lemma_dismissed_show_stays_out<T, K, S>(v: AppStateView<T, K, S>, sessions: Seq<S>, session: S)
    requires
        consistent(v),
        spec_dismiss_disconnected_slideshow(v).1,
    ensures
        ({
            let key = v.session->Some_0.0;
            let dismissed = spec_dismiss_disconnected_slideshow(v).0;
            let ended = spec_end_slideshow(dismissed, key);
            &&& dismissed.mode is IdleFloatingToolbar
            &&& dismissed.session is None
            &&& spec_start_slideshow(dismissed, key, session) == (dismissed, false)
            &&& spec_run(dismissed, restarts(key, sessions)) == dismissed
            &&& ended.1
            &&& ended.0.suppressed is None
            &&& spec_start_slideshow(ended.0, key, session).1
        }),
{
    let key = v.session->Some_0.0;
    let dismissed = spec_dismiss_disconnected_slideshow(v).0;
    lemma_refused_restarts(dismissed, key, sessions);
}

/// Refused starts leave the state as it is.
proof fn lemma_refused_restarts<T, K, S>(v: AppStateView<T, K, S>, key: K, sessions: Seq<S>)
    requires
        v.suppressed == Some(key),
    ensures
        spec_run(v, restarts(key, sessions)) == v,
    decreases sessions.len(),
{
    if sessions.len() > 0 {
        assert(restarts(key, sessions).drop_first() =~= restarts(key, sessions.drop_first()));
        lemma_refused_restarts(v, key, sessions.drop_first());
    }
}

} // verus!

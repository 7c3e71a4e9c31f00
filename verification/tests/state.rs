use steady_ink::app::state::{AppMode, AppState};
use steady_ink::ink::document::{GeometryFault, OperationKind};

/// A slideshow session as the tests need it: the page currently shown.
#[derive(Debug, Clone, PartialEq)]
struct TestSession {
    page: u32,
}

#[derive(Debug, Clone, Copy, PartialEq)]
enum PageSwitchOutcome {
    Unchanged,
    PageChanged,
}

impl TestSession {
    fn switch_page(&mut self, page: u32) -> PageSwitchOutcome {
        if self.page == page {
            PageSwitchOutcome::Unchanged
        } else {
            self.page = page;
            PageSwitchOutcome::PageChanged
        }
    }
}

type State = AppState<u32, String, TestSession>;

fn key(name: &str) -> String {
    format!("PowerPoint:{name}:1")
}

#[test]
fn recovery_rejects_active_and_suppressed_slideshow() {
    let mut state = State::new();
    assert!(state.start_slideshow(key("deck"), TestSession { page: 1 }));
    let rebuilt = State::from_parts(
        AppMode::SlideShowAnnotatingExpanded,
        steady_ink::ink::document::InkDocument::new(),
        Some((key("deck"), TestSession { page: 1 })),
        Some(key("deck")),
    );
    assert_eq!(rebuilt.err().as_deref(), Some("活动放映会话不能同时持有重入抑制键"));
    let mismatched = State::from_parts(
        AppMode::NormalAnnotating,
        steady_ink::ink::document::InkDocument::new(),
        Some((key("deck"), TestSession { page: 1 })),
        None,
    );
    assert_eq!(mismatched.err().as_deref(), Some("应用模式与放映会话存在状态不一致"));
}

#[test]
fn page_updates_preserve_slideshow_toolbar_state() {
    let mut state = State::new();
    assert!(state.start_slideshow(key("deck"), TestSession { page: 1 }));
    assert!(state.collapse_slideshow_toolbar());
    let outcome = state.change_slide(&key("deck")).map(|session| session.switch_page(1));
    assert_eq!(outcome, Some(PageSwitchOutcome::Unchanged));
    assert_eq!(state.mode(), AppMode::SlideShowAnnotatingCollapsed);
    let outcome = state.change_slide(&key("deck")).map(|session| session.switch_page(2));
    assert_eq!(outcome, Some(PageSwitchOutcome::PageChanged));
    assert_eq!(state.mode(), AppMode::SlideShowAnnotatingCollapsed);
    assert!(state.change_slide(&key("other")).is_none());
    assert_eq!(state.slideshow_session(), Some(&TestSession { page: 2 }));
}

#[test]
fn normal_annotation_round_trip_clears_ink() {
    let mut state = State::new();
    assert_eq!(state.mode(), AppMode::IdleFloatingToolbar);
    assert!(!state.exit_normal_annotation());
    assert!(state.enter_normal_annotation());
    assert!(!state.enter_normal_annotation());
    state.normal_document_mut().append_operation(OperationKind::DrawStroke, 7);
    assert_eq!(state.active_normal_document().map(|d| d.operations().len()), Some(1));
    assert!(state.exit_normal_annotation());
    assert_eq!(state.mode(), AppMode::IdleFloatingToolbar);
    assert!(state.normal_document().has_no_history());
    assert!(state.active_normal_document().is_none());
}

#[test]
fn dismissed_show_is_not_reentered_until_it_ends() {
    let mut state = State::new();
    assert!(state.enter_normal_annotation());
    assert!(state.start_slideshow(key("deck"), TestSession { page: 3 }));
    assert_eq!(state.mode(), AppMode::SlideShowAnnotatingExpanded);
    assert!(state.slideshow_controls_enabled());
    assert!(!state.dismiss_disconnected_slideshow());
    assert!(state.lose_slideshow_connection());
    assert!(!state.slideshow_controls_enabled());
    assert!(state.dismiss_disconnected_slideshow());
    assert_eq!(state.mode(), AppMode::IdleFloatingToolbar);
    assert!(state.slideshow_session().is_none());
    assert!(!state.start_slideshow(key("deck"), TestSession { page: 3 }));
    assert_eq!(state.mode(), AppMode::IdleFloatingToolbar);
    assert!(!state.end_slideshow(&key("other")));
    assert!(state.end_slideshow(&key("deck")));
    assert!(state.start_slideshow(key("deck"), TestSession { page: 4 }));
}

#[test]
fn lost_link_is_restored_only_by_the_same_show() {
    let mut state = State::new();
    assert!(state.start_slideshow(key("deck"), TestSession { page: 1 }));
    assert!(state.collapse_slideshow_toolbar());
    assert!(!state.collapse_slideshow_toolbar());
    assert!(state.lose_slideshow_connection());
    assert_eq!(state.mode(), AppMode::SlideShowConnectionLost);
    assert!(!state.expand_slideshow_toolbar());
    assert!(state.restore_slideshow_connection(&key("other")).is_none());
    assert_eq!(state.mode(), AppMode::SlideShowConnectionLost);
    let outcome = state.restore_slideshow_connection(&key("deck")).map(|s| s.switch_page(5));
    assert_eq!(outcome, Some(PageSwitchOutcome::PageChanged));
    assert_eq!(state.mode(), AppMode::SlideShowAnnotatingExpanded);
    assert!(state.restore_slideshow_connection(&key("deck")).is_none());
    assert!(state.end_slideshow(&key("deck")));
    assert_eq!(state.mode(), AppMode::IdleFloatingToolbar);
}

#[test]
fn recovery_check_accepts_reachable_states_and_reports_the_first_failure() {
    let mut state = State::new();
    assert_eq!(state.validate_recovery(None, Ok(())), Ok(()));
    assert!(state.enter_normal_annotation());
    state.normal_document_mut().append_operation(OperationKind::DrawStroke, 7);
    assert_eq!(state.validate_recovery(None, Err("ignored without a session".to_owned())), Ok(()));
    assert_eq!(
        state.validate_recovery(Some((0, GeometryFault::InvalidGeometry)), Ok(())),
        Err("墨迹 operation 含有无效或非有限几何".to_owned())
    );
    assert!(state.exit_normal_annotation());
    assert!(state.start_slideshow(key("deck"), TestSession { page: 1 }));
    assert_eq!(state.validate_recovery(None, Ok(())), Ok(()));
    assert_eq!(
        state.validate_recovery(None, Err("session page invalid".to_owned())),
        Err("session page invalid".to_owned())
    );
}

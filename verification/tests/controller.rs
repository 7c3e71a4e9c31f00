use steady_ink::app::controller::{
    gesture_step, page_switch_effects, undo_invalidation, GestureStep, GeometryTarget, PageSwitchOutcome, SlideshowAction,
    SlideshowEvent, IdlePanel, InkInvalidation, RuntimeModel,
    SlideShowControlAction, ToolState, UiAction, UiCommandOutcome, UiSettings,
};
use steady_ink::app::runtime::{ApplicationExitAction, UiCommand};
use steady_ink::app::state::{AppMode, AppState, SlideshowInputMode};
use steady_ink::ink::document::{InkOperation, OperationKind};
use steady_ink::ink::model::{EraserSize, InkColor, InkTool, OperationId, PenWidth};
use steady_ink::input::router::{PointerAction, PointerSample};
use steady_ink::input::windows_pointer::PalmSizePreset;

type Model = RuntimeModel<u32, String, u32, u8, u8>;
type Event = SlideshowEvent<String, u32, u32, u8>;
type Command = UiCommand<char, u8>;

fn tools() -> ToolState {
    ToolState {
        tool: InkTool::Pen,
        color: InkColor::Red,
        pen_width: PenWidth::Px6,
        eraser_size: EraserSize::Px48,
        natural_taper_enabled: false,
    }
}

fn model() -> Model {
    RuntimeModel {
        state: AppState::new(),
        tools: tools(),
        settings: UiSettings {
            tools: tools(),
            palm_size_preset: PalmSizePreset::Standard,
            slideshow_integration_enabled: true,
            log_level: 2,
            readable_mode: false,
            performance_monitoring_enabled: true,
        },
        slideshow_input_mode: SlideshowInputMode::Ink,
        idle_panel: IdlePanel::Toolbar,
        dismiss_slideshow_confirmation: false,
        idle_window_dragging: false,
        slideshow_control_error: Some("failed".to_owned()),
        performance_input_pending: true,
        com_diagnostics: None,
        slideshow_connection_error: None,
        slideshow_session_generation: u64::MAX,
    }
}

fn actions(out: &UiCommandOutcome<char, u8>) -> Vec<UiAction<char, u8>> {
    out.actions.clone()
}

#[test]
fn tool_commands_update_tools_and_saved_settings() {
    let mut m = model();
    let out = m.apply_ui_command(Command::SetColor(InkColor::Blue));
    assert_eq!(m.tools.color, InkColor::Blue);
    assert_eq!(m.settings.tools.color, InkColor::Blue);
    assert_eq!(actions(&out), vec![UiAction::SaveSettings]);
    assert!(out.request_redraw && out.geometry.is_none() && out.exit_action.is_none());

    let out = m.apply_ui_command(Command::CycleEraserSize);
    assert_eq!(m.tools.eraser_size, EraserSize::Px72);
    assert_eq!(m.settings.tools.eraser_size, EraserSize::Px72);
    assert_eq!(actions(&out), vec![UiAction::SaveSettings]);
    m.apply_ui_command(Command::CycleEraserSize);
    assert_eq!(m.tools.eraser_size, EraserSize::Px24);

    let out = m.apply_ui_command(Command::SelectEraser);
    assert_eq!(m.tools.tool, InkTool::RegionEraser);
    assert!(actions(&out).is_empty());
    let out = m.apply_ui_command(Command::SetPalmSizePreset(PalmSizePreset::Large));
    assert_eq!(
        actions(&out),
        vec![UiAction::PublishPalmSizePreset(PalmSizePreset::Large), UiAction::SaveSettings]
    );
    let out = m.apply_ui_command(Command::SetLogLevel(4));
    assert_eq!(m.settings.log_level, 4);
    assert_eq!(actions(&out), vec![UiAction::SetLogLevel(4), UiAction::SaveSettings]);
    let out = m.apply_ui_command(Command::SetDockSide('L'));
    assert_eq!(actions(&out), vec![UiAction::SetDockSide('L')]);
    m.apply_ui_command(Command::SetPerformanceMonitoringEnabled(false));
    assert!(!m.performance_input_pending);
    m.apply_ui_command(Command::SetSlideshowIntegrationEnabled(true));
    assert!(m.slideshow_control_error.is_none());
}

#[test]
fn annotation_and_panels_switch_geometry_without_redraw() {
    let mut m = model();
    let out = m.apply_ui_command(Command::Undo);
    assert!(actions(&out).is_empty());
    let out = m.apply_ui_command(Command::OpenSettings);
    assert_eq!(m.idle_panel, IdlePanel::Settings);
    assert_eq!(out.geometry, Some(GeometryTarget::Idle(IdlePanel::Settings)));
    assert_eq!(actions(&out), vec![UiAction::RefreshMachineAutostart, UiAction::UpdateInterfaceZoom]);
    assert!(!out.request_redraw);
    let out = m.apply_ui_command(Command::ToggleQuickSettings);
    assert_eq!(out.geometry, Some(GeometryTarget::Idle(IdlePanel::QuickSettings)));
    let out = m.apply_ui_command(Command::EnterAnnotation);
    assert_eq!(m.state.mode(), AppMode::NormalAnnotating);
    assert_eq!(m.idle_panel, IdlePanel::Toolbar);
    assert_eq!(out.geometry, Some(GeometryTarget::Annotation(true)));
    let out = m.apply_ui_command(Command::Clear);
    assert_eq!(actions(&out), vec![UiAction::ClearActiveDocument]);
    let out = m.apply_ui_command(Command::OpenSettings);
    assert!(out.geometry.is_none() && !out.request_redraw);
    let out = m.apply_ui_command(Command::ExitAnnotation);
    assert_eq!(m.state.mode(), AppMode::IdleFloatingToolbar);
    assert_eq!(out.geometry, Some(GeometryTarget::Annotation(false)));
    assert!(out.skip_visual_freeze);
    let out = m.apply_ui_command(Command::RestartApplication);
    assert_eq!(out.exit_action, Some(ApplicationExitAction::Restart));
    assert_eq!(actions(&out), vec![UiAction::SetSlideshowInputMode(SlideshowInputMode::Ink)]);
    assert!(!out.request_redraw);
}

#[test]
fn slideshow_commands_follow_the_session() {
    let mut m = model();
    let out = m.apply_ui_command(Command::NextSlide);
    assert!(actions(&out).is_empty());
    assert!(m.state.start_slideshow("deck".to_owned(), 1));
    let out = m.apply_ui_command(Command::NextSlide);
    assert_eq!(actions(&out), vec![UiAction::SlideshowControl(SlideShowControlAction::Next)]);
    let out = m.apply_ui_command(Command::ToggleSlideshowPenMode);
    assert_eq!(actions(&out), vec![UiAction::SetSlideshowInputMode(SlideshowInputMode::Mouse)]);
    m.apply_ui_command(Command::ToggleSlideshowToolbar);
    assert_eq!(m.state.mode(), AppMode::SlideShowAnnotatingCollapsed);
    m.apply_ui_command(Command::RequestDismissSlideshow);
    assert!(!m.dismiss_slideshow_confirmation);
    assert!(m.state.lose_slideshow_connection());
    let out = m.apply_ui_command(Command::ExitSlideShow);
    assert!(actions(&out).is_empty());
    let out = m.apply_ui_command(Command::ConfirmDismissSlideshow);
    assert!(out.geometry.is_none());
    m.apply_ui_command(Command::RequestDismissSlideshow);
    assert!(m.dismiss_slideshow_confirmation);
    let out = m.apply_ui_command(Command::ConfirmDismissSlideshow);
    assert_eq!(out.geometry, Some(GeometryTarget::Annotation(false)));
    assert_eq!(m.state.mode(), AppMode::IdleFloatingToolbar);
    assert!(!m.dismiss_slideshow_confirmation);
    assert!(!m.state.start_slideshow("deck".to_owned(), 2));
}

#[test]
fn undoing_a_clear_invalidates_the_whole_cache() {
    let clear = InkOperation { id: OperationId::new(3), kind: OperationKind::Clear, content: 0u32 };
    let stroke = InkOperation { id: OperationId::new(2), kind: OperationKind::DrawStroke, content: 0u32 };
    assert_eq!(undo_invalidation(&Some(clear)), Some(InkInvalidation::Full));
    assert_eq!(undo_invalidation(&Some(stroke)), Some(InkInvalidation::OperationRegion));
    assert_eq!(undo_invalidation::<u32>(&None), None);
}

fn show(name: &str) -> String {
    format!("PowerPoint:{name}")
}

#[test]
fn detector_events_drive_the_slideshow_session() {
    let mut m = model();
    m.apply_ui_command(Command::EnterAnnotation);
    assert_eq!(m.apply_slideshow_event(Event::Diagnostics(3)), (true, vec![]));
    assert_eq!(m.apply_slideshow_event(Event::Diagnostics(3)), (false, vec![]));

    let started = m.apply_slideshow_event(Event::SlideShowStarted { key: show("deck"), page: 1, session: 1 });
    assert_eq!(
        started,
        (true, vec![SlideshowAction::ResetSlideshowInputMode, SlideshowAction::AnnotationTransition(true)])
    );
    assert_eq!(m.state.mode(), AppMode::SlideShowAnnotatingExpanded);
    assert_eq!(m.slideshow_session_generation, 0);
    assert!(m.state.normal_document().has_no_history());

    let turned = m.apply_slideshow_event(Event::SlideChanged { key: show("deck"), page: 2 });
    assert_eq!(turned, (false, vec![SlideshowAction::SwitchPage(2)]));
    assert_eq!(page_switch_effects::<u32>(PageSwitchOutcome::PageChanged),
        (true, vec![SlideshowAction::CancelInput, SlideshowAction::InvalidateInkCache]));
    assert_eq!(page_switch_effects::<u32>(PageSwitchOutcome::MetadataUpdated), (true, vec![]));
    assert_eq!(page_switch_effects::<u32>(PageSwitchOutcome::Unchanged), (false, vec![]));
    assert_eq!(m.apply_slideshow_event(Event::SlideChanged { key: show("other"), page: 2 }), (false, vec![]));

    let lost = m.apply_slideshow_event(Event::ConnectionLost { key: None, detail: "RPC".to_owned() });
    assert_eq!(lost, (true, vec![SlideshowAction::CancelInput, SlideshowAction::InvalidateInkCache]));
    assert_eq!(m.state.mode(), AppMode::SlideShowConnectionLost);
    assert_eq!(m.slideshow_connection_error.as_deref(), Some("RPC"));

    let back = m.apply_slideshow_event(Event::SlideShowStarted { key: show("deck"), page: 3, session: 9 });
    assert_eq!(back, (true, vec![SlideshowAction::SwitchPage(3)]));
    assert_eq!(m.state.mode(), AppMode::SlideShowAnnotatingExpanded);
    assert!(m.slideshow_connection_error.is_none());
    assert_eq!(m.state.slideshow_session(), Some(&1));

    assert_eq!(m.apply_slideshow_event(Event::ControlFailed { detail: "busy".to_owned() }), (true, vec![]));
    assert_eq!(m.apply_slideshow_event(Event::ControlFailed { detail: "busy".to_owned() }), (false, vec![]));
    assert_eq!(m.apply_slideshow_event(Event::ControlSucceeded), (true, vec![]));

    let ended = m.apply_slideshow_event(Event::SlideShowEnded { key: show("deck") });
    assert_eq!(
        ended,
        (true, vec![SlideshowAction::ResetSlideshowInputMode, SlideshowAction::AnnotationTransition(false)])
    );
    assert_eq!(m.state.mode(), AppMode::IdleFloatingToolbar);

    m.apply_ui_command(Command::SetSlideshowIntegrationEnabled(false));
    assert_eq!(
        m.apply_slideshow_event(Event::SlideShowStarted { key: show("deck"), page: 1, session: 1 }),
        (false, vec![])
    );
    assert_eq!(m.state.mode(), AppMode::IdleFloatingToolbar);
}

#[test]
fn pointer_actions_drive_the_gesture_lifecycle() {
    type Action = PointerAction<(i32, i32), u8>;
    let sample = PointerSample { point: (1, 2), timestamp_micros: 5 };
    assert_eq!(gesture_step(false, &Action::Begin(sample)), GestureStep::Start);
    assert_eq!(gesture_step(true, &Action::BeginBatch(vec![])), GestureStep::Discard);
    assert_eq!(gesture_step(true, &Action::BeginBatch(vec![sample])), GestureStep::Start);
    assert_eq!(gesture_step(false, &Action::BeginPalmErase(1)), GestureStep::StartPalmErase);
    assert_eq!(gesture_step(true, &Action::MoveBatch(vec![sample])), GestureStep::Extend);
    assert_eq!(gesture_step(false, &Action::Move(sample)), GestureStep::Ignore);
    assert_eq!(gesture_step(true, &Action::EndPalmErase(1)), GestureStep::Finish);
    assert_eq!(gesture_step(false, &Action::End(sample)), GestureStep::Ignore);
    assert_eq!(gesture_step(false, &Action::CommitBuffered(vec![sample])), GestureStep::CommitBuffered);
    assert_eq!(gesture_step(false, &Action::CommitBuffered(vec![])), GestureStep::Ignore);
    assert_eq!(gesture_step(true, &Action::Cancel), GestureStep::Discard);
}

use steady_ink::app::runtime::{
    settle_machine_autostart_change, AutostartFollowUp,
    load_machine_autostart_state, restart_required_after_run, slideshow_mouse_hit_test_enabled,
    slideshow_pen_transition, ui_command_changes_window_geometry, ApplicationExitAction, UiCommand,
};
use steady_ink::app::state::{AppMode, SlideshowInputMode};
use steady_ink::autostart::{AutostartError, MachineAutostartState};
use steady_ink::error::AppError;
use steady_ink::ink::model::{InkColor, InkTool};

type Command = UiCommand<u8, u8>;

#[test]
fn slideshow_pen_button_follows_mode_transition_table() {
    assert_eq!(
        slideshow_pen_transition(SlideshowInputMode::Ink, InkTool::Pen),
        (SlideshowInputMode::Mouse, InkTool::Pen)
    );
    assert_eq!(
        slideshow_pen_transition(SlideshowInputMode::Ink, InkTool::RegionEraser),
        (SlideshowInputMode::Ink, InkTool::Pen)
    );
    assert_eq!(
        slideshow_pen_transition(SlideshowInputMode::Mouse, InkTool::RegionEraser),
        (SlideshowInputMode::Ink, InkTool::Pen)
    );
}

#[test]
fn native_pass_through_requires_slideshow_mouse_mode() {
    assert!(slideshow_mouse_hit_test_enabled(
        AppMode::SlideShowAnnotatingExpanded,
        SlideshowInputMode::Mouse
    ));
    assert!(!slideshow_mouse_hit_test_enabled(
        AppMode::SlideShowAnnotatingExpanded,
        SlideshowInputMode::Ink
    ));
    assert!(!slideshow_mouse_hit_test_enabled(
        AppMode::IdleFloatingToolbar,
        SlideshowInputMode::Mouse
    ));
}

#[test]
fn geometry_commands_are_classified_for_target_redraw() {
    for command in [
        Command::EnterAnnotation,
        Command::ExitAnnotation,
        Command::OpenSettings,
        Command::CloseSettings,
        Command::ToggleQuickSettings,
        Command::ConfirmDismissSlideshow,
    ] {
        assert!(ui_command_changes_window_geometry(command));
    }
    for command in [
        Command::SelectPen,
        Command::Undo,
        Command::ToggleSlideshowToolbar,
        Command::ExitApplication,
    ] {
        assert!(!ui_command_changes_window_geometry(command));
    }
}

#[test]
fn restart_requires_explicit_restart_action() {
    assert!(
        restart_required_after_run::<AppError>(Some(ApplicationExitAction::Restart), None)
            .expect("a clean close accepts the restart action")
    );
    assert!(
        !restart_required_after_run::<AppError>(Some(ApplicationExitAction::Exit), None)
            .expect("an ordinary exit stays successful")
    );
    assert!(!restart_required_after_run::<AppError>(None, None)
        .expect("an abnormal exit does not invent a restart"));
}

#[test]
fn runtime_error_prevents_restart() {
    let error = restart_required_after_run(
        Some(ApplicationExitAction::Restart),
        Some(AppError::Application("关闭失败".to_owned())),
    )
    .expect_err("a failed close must not start a new instance");

    assert_eq!(error.message(), "应用进程操作失败: 关闭失败");
}

#[test]
fn other_commands_keep_the_window_geometry() {
    assert!(!ui_command_changes_window_geometry(Command::SetColor(
        InkColor::Red
    )));
    assert!(!ui_command_changes_window_geometry(Command::NextSlide));
    assert!(!ui_command_changes_window_geometry(
        Command::RequestDismissSlideshow
    ));
}

#[test]
fn startup_autostart_state_reports_repairable_paths_and_failures() {
    assert_eq!(
        load_machine_autostart_state(Ok(MachineAutostartState::Enabled)),
        (Some(MachineAutostartState::Enabled), None)
    );
    assert_eq!(
        load_machine_autostart_state(Ok(MachineAutostartState::EnabledPathMismatch)),
        (
            Some(MachineAutostartState::EnabledPathMismatch),
            Some("系统级自启动已存在，但路径不是当前程序；重新启用可修复。".to_owned())
        )
    );
    assert_eq!(
        load_machine_autostart_state(Err(AutostartError::UnsupportedPlatform)),
        (None, Some("当前平台不支持系统级开机启动".to_owned()))
    );
}

#[test]
fn modes_route_ink_input() {
    assert!(!AppMode::IdleFloatingToolbar.accepts_ink_input());
    assert!(AppMode::NormalAnnotating.accepts_ink_input());
    assert!(AppMode::SlideShowConnectionLost.accepts_ink_input());
    assert!(AppMode::SlideShowAnnotatingCollapsed.is_slideshow());
    assert!(!AppMode::NormalAnnotating.is_slideshow());
    assert!(SlideshowInputMode::Ink.accepts_ink_input());
    assert!(!SlideshowInputMode::Mouse.accepts_ink_input());
    assert_eq!(SlideshowInputMode::default_mode(), SlideshowInputMode::Ink);
}

#[test]
fn failed_autostart_change_keeps_the_shown_state() {
    assert_eq!(
        settle_machine_autostart_change(Some(MachineAutostartState::Disabled), Ok(())),
        AutostartFollowUp::Refresh
    );
    assert_eq!(
        settle_machine_autostart_change(
            Some(MachineAutostartState::Disabled),
            Err(AutostartError::Elevation("用户取消".to_owned()))
        ),
        AutostartFollowUp::Failed {
            kept: Some(MachineAutostartState::Disabled),
            error: AutostartError::Elevation("用户取消".to_owned()).message(),
        }
    );
}

//! Decisions of the desktop runtime that do not touch the window system.

use vstd::prelude::*;
use vstd::string::StringExecFns;
use crate::app::state::{mode_is_slideshow, AppMode, SlideshowInputMode};
use crate::autostart::{autostart_error_text, AutostartError, MachineAutostartState};
use crate::ink::model::{EraserSize, InkColor, InkTool, PenWidth};
use crate::input::windows_pointer::PalmSizePreset;

verus! {

/// A command that the toolbar or the settings page issues. `Side` is the screen
/// edge that the idle toolbar docks to and `Level` the diagnostic log level; the
/// decisions here only hand them on.
#[derive(Debug, Clone, Copy, PartialEq, Eq)]
pub enum UiCommand<Side, Level> {
    EnterAnnotation,
    ExitAnnotation,
    SelectPen,
    SelectEraser,
    SetColor(InkColor),
    SetPenWidth(PenWidth),
    SetEraserSize(EraserSize),
    CycleEraserSize,
    SetNaturalTaperEnabled(bool),
    SetPalmSizePreset(PalmSizePreset),
    Undo,
    Clear,
    OpenSettings,
    CloseSettings,
    ToggleQuickSettings,
    OpenSettingsDirectory,
    SetMachineAutostart(bool),
    SetDockSide(Side),
    SetSlideshowIntegrationEnabled(bool),
    SetLogLevel(Level),
    SetReadableMode(bool),
    SetPerformanceMonitoringEnabled(bool),
    ExportPerformanceData,
    BeginIdleToolbarDrag,
    NextSlide,
    PreviousSlide,
    ToggleSlideshowToolbar,
    ToggleSlideshowPenMode,
    ExitSlideShow,
    RequestDismissSlideshow,
    ConfirmDismissSlideshow,
    CancelDismissSlideshow,
    RestartApplication,
    ExitApplication,
}

/// The command changes the native window's geometry and swap chain size.
pub open spec fn spec_changes_window_geometry<Side, Level>(command: UiCommand<Side, Level>) -> bool {
    command is EnterAnnotation || command is ExitAnnotation || command is OpenSettings
        || command is CloseSettings || command is ToggleQuickSettings
        || command is ConfirmDismissSlideshow
}

/// Whether a command changes the native window's geometry and swap chain size, so
/// that its redraw takes the target-geometry path.
pub fn ui_command_changes_window_geometry<Side, Level>(command: UiCommand<Side, Level>) -> (changes: bool)
    ensures
        changes == spec_changes_window_geometry(command),
{
    match command {
        UiCommand::EnterAnnotation | UiCommand::ExitAnnotation | UiCommand::OpenSettings
        | UiCommand::CloseSettings | UiCommand::ToggleQuickSettings
        | UiCommand::ConfirmDismissSlideshow => true,
        _ => false,
    }
}

/// The slideshow pen button's transition: from ink with the pen it switches to
/// mouse pass-through; from the eraser or from mouse mode it returns to inking
/// with the pen.
pub open spec fn spec_pen_transition(input_mode: SlideshowInputMode, tool: InkTool) -> (
    SlideshowInputMode,
    InkTool,
) {
    if input_mode is Ink && tool is Pen {
        (SlideshowInputMode::Mouse, InkTool::Pen)
    } else {
        (SlideshowInputMode::Ink, InkTool::Pen)
    }
}

/// Computes the whole state change of the slideshow pen button.
pub fn slideshow_pen_transition(input_mode: SlideshowInputMode, tool: InkTool) -> (next: (
    SlideshowInputMode,
    InkTool,
))
    ensures
        next == spec_pen_transition(input_mode, tool),
{
    match (input_mode, tool) {
        (SlideshowInputMode::Ink, InkTool::Pen) => (SlideshowInputMode::Mouse, InkTool::Pen),
        _ => (SlideshowInputMode::Ink, InkTool::Pen),
    }
}

/// Whether the native slideshow canvas lets mouse input pass through: only in a
/// slideshow session and in mouse mode.
pub fn slideshow_mouse_hit_test_enabled(app_mode: AppMode, input_mode: SlideshowInputMode) -> (enabled: bool)
    ensures
        enabled == (mode_is_slideshow(app_mode) && input_mode is Mouse),
{
    app_mode.is_slideshow() && match input_mode {
        SlideshowInputMode::Mouse => true,
        SlideshowInputMode::Ink => false,
    }
}

/// How the application asked to leave its event loop.
#[derive(Debug, Clone, Copy, PartialEq, Eq, Structural)]
pub enum ApplicationExitAction {
    Exit,
    Restart,
}

/// Whether a new instance is to be started after the event loop ended: only on an
/// explicit restart, and only when the run ended without error, whose error is
/// returned otherwise.
pub fn restart_required_after_run<E>(
    exit_action: Option<ApplicationExitAction>,
    runtime_error: Option<E>,
) -> (res: Result<bool, E>)
    ensures
        match runtime_error {
            Some(error) => res == Err::<bool, E>(error),
            None => res == Ok::<bool, E>(exit_action == Some(ApplicationExitAction::Restart)),
        },
{
    match runtime_error {
        Some(error) => Err(error),
        None => Ok(match exit_action {
            Some(ApplicationExitAction::Restart) => true,
            _ => false,
        }),
    }
}

/// The start-up autostart state and notice, from the query's result: a value
/// that points elsewhere is reported as repairable, a failure by its text.
pub fn load_machine_autostart_state(queried: Result<MachineAutostartState, AutostartError>) -> (res: (
    Option<MachineAutostartState>,
    Option<String>,
))
    ensures
        match queried {
            Ok(state) => res.0 == Some(state) && (state is EnabledPathMismatch ==> (res.1 matches Some(
                notice,
            ) && notice@ == "系统级自启动已存在，但路径不是当前程序；重新启用可修复。"@)) && (!(
            state is EnabledPathMismatch) ==> res.1 is None),
            Err(error) => res.0 is None && (res.1 matches Some(text) && text@
                == autostart_error_text(error)),
        },
{
    match queried {
        Ok(state) => {
            let notice = match state {
                MachineAutostartState::EnabledPathMismatch => {
                    proof {
                        reveal_strlit("系统级自启动已存在，但路径不是当前程序；重新启用可修复。");
                    }
                    Some(
                        String::from_str("系统级自启动已存在，但路径不是当前程序；重新启用可修复。"),
                    )
                },
                _ => None,
            };
            (Some(state), notice)
        },
        Err(error) => (None, Some(error.message())),
    }
}

/// What follows an elevated autostart change.
#[derive(Debug, Clone, PartialEq, Eq)]
pub enum AutostartFollowUp {
    /// The change went through: query the state again.
    Refresh,
    /// The change was cancelled or failed: the shown state stays as it was and
    /// the error is shown.
    Failed { kept: Option<MachineAutostartState>, error: String },
}

/// Settles a requested machine-wide autostart change: on success the state is
/// queried again; a cancelled or failed request leaves the previous state and
/// reports the error's text.
pub fn settle_machine_autostart_change(
    previous: Option<MachineAutostartState>,
    result: Result<(), AutostartError>,
) -> (follow_up: AutostartFollowUp)
    ensures
        match result {
            Ok(()) => follow_up == AutostartFollowUp::Refresh,
            Err(error) => follow_up matches AutostartFollowUp::Failed { kept, error: text }
                && kept == previous && text@ == autostart_error_text(error),
        },
{
    match result {
        Ok(()) => AutostartFollowUp::Refresh,
        Err(error) => AutostartFollowUp::Failed { kept: previous, error: error.message() },
    }
}

} // verus!

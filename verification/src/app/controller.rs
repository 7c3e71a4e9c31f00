//! What the desktop runtime decides when a toolbar command arrives: the next
//! state of the tools, settings, panels and application state, and the outside
//! work (saving, window geometry, slideshow control) that the caller performs.

use vstd::prelude::*;
use vstd::std_specs::cmp::PartialEqSpec;

use crate::app::runtime::{
    slideshow_pen_transition, spec_changes_window_geometry, spec_pen_transition,
    ui_command_changes_window_geometry, ApplicationExitAction, UiCommand,
};
use crate::app::state::{
    key_equality_is_identity, mode_is_slideshow, same_show, AppMode, AppState, SlideshowInputMode,
};
use crate::text::str_equals;
use crate::ink::document::{InkOperation, OperationKind};
use crate::ink::model::{EraserSize, InkColor, InkTool, PenWidth};
use crate::input::router::PointerAction;
use crate::input::windows_pointer::PalmSizePreset;

verus! {

/// The tool selection that new strokes use.
#[derive(Debug, Clone, Copy, PartialEq, Eq, Structural)]
pub struct ToolState {
    pub tool: InkTool,
    pub color: InkColor,
    pub pen_width: PenWidth,
    pub eraser_size: EraserSize,
    pub natural_taper_enabled: bool,
}

/// The eraser size that follows `size` when the toolbar cycles through them.
pub open spec fn next_eraser_size(size: EraserSize) -> EraserSize {
    match size {
        EraserSize::Px24 => EraserSize::Px48,
        EraserSize::Px48 => EraserSize::Px72,
        EraserSize::Px72 => EraserSize::Px24,
    }
}

impl ToolState {
    /// Steps the eraser to the next of its three sizes, the largest back to the smallest.
    pub fn cycle_eraser_size(&mut self)
        ensures
            *final(self) == (ToolState { eraser_size: next_eraser_size(old(self).eraser_size), ..*old(self) }),
    {
        self.eraser_size = match self.eraser_size {
            EraserSize::Px24 => EraserSize::Px48,
            EraserSize::Px48 => EraserSize::Px72,
            EraserSize::Px72 => EraserSize::Px24,
        };
    }
}

/// The panel that the idle floating toolbar shows.
#[derive(Debug, Clone, Copy, PartialEq, Eq, Structural)]
pub enum IdlePanel {
    Toolbar,
    QuickSettings,
    Settings,
}

/// The saved user preferences that toolbar commands change.
#[derive(Debug, Clone, Copy, PartialEq, Eq)]
pub struct UiSettings<Level> {
    pub tools: ToolState,
    pub palm_size_preset: PalmSizePreset,
    pub slideshow_integration_enabled: bool,
    pub log_level: Level,
    pub readable_mode: bool,
    pub performance_monitoring_enabled: bool,
}

/// A slideshow control that the toolbar requests from the presentation program.
#[derive(Debug, Clone, Copy, PartialEq, Eq, Structural)]
pub enum SlideShowControlAction {
    Previous,
    Next,
    Exit,
}

/// The window geometry that a command switches to.
#[derive(Debug, Clone, Copy, PartialEq, Eq, Structural)]
pub enum GeometryTarget {
    /// The full-screen annotation canvas (`true`) or the idle toolbar (`false`),
    /// after the annotation transition's clean-up.
    Annotation(bool),
    /// The idle window sized for this panel.
    Idle(IdlePanel),
}

/// Outside work that a command asks of the runtime, in order.
#[derive(Debug, Clone, Copy, PartialEq, Eq)]
pub enum UiAction<Side, Level> {
    /// Switch the slideshow canvas's input mode (and its mouse pass-through).
    SetSlideshowInputMode(SlideshowInputMode),
    /// Save the user settings.
    SaveSettings,
    /// Publish the palm size preset to the pointer hook.
    PublishPalmSizePreset(PalmSizePreset),
    /// Undo the latest operation of the document that the canvas shows.
    UndoActiveDocument,
    /// Clear the document that the canvas shows.
    ClearActiveDocument,
    /// Query the machine-wide autostart state again.
    RefreshMachineAutostart,
    /// Ask for the machine-wide autostart change.
    SetMachineAutostart(bool),
    /// Open the settings directory.
    OpenSettingsDirectory,
    /// Start the native drag of the idle toolbar window.
    BeginWindowDrag,
    /// Dock the idle toolbar to this side.
    SetDockSide(Side),
    /// Ask the slideshow detector to report the current show again.
    ResyncSlideshow,
    /// Apply this log level.
    SetLogLevel(Level),
    /// Export the performance data.
    ExportPerformanceData,
    /// Send this control to the current show.
    SlideshowControl(SlideShowControlAction),
    /// Apply the interface zoom of the current panel.
    UpdateInterfaceZoom,
}

/// What a command leaves for the runtime to do.
pub struct UiCommandOutcome<Side, Level> {
    pub exit_action: Option<ApplicationExitAction>,
    pub geometry: Option<GeometryTarget>,
    pub skip_visual_freeze: bool,
    pub actions: Vec<UiAction<Side, Level>>,
    pub request_redraw: bool,
}

/// The abstract outcome.
pub struct OutcomeView<Side, Level> {
    pub exit_action: Option<ApplicationExitAction>,
    pub geometry: Option<GeometryTarget>,
    pub skip_visual_freeze: bool,
    pub actions: Seq<UiAction<Side, Level>>,
    pub request_redraw: bool,
}

impl<Side, Level> UiCommandOutcome<Side, Level> {
    /// The outcome with its actions as a sequence.
    pub open spec fn view(&self) -> OutcomeView<Side, Level> {
        OutcomeView {
            exit_action: self.exit_action,
            geometry: self.geometry,
            skip_visual_freeze: self.skip_visual_freeze,
            actions: self.actions@,
            request_redraw: self.request_redraw,
        }
    }
}

/// The runtime state that toolbar commands read and change.
pub struct RuntimeModel<T, K, S, Level, Dg> {
    pub state: AppState<T, K, S>,
    pub tools: ToolState,
    pub settings: UiSettings<Level>,
    pub slideshow_input_mode: SlideshowInputMode,
    pub idle_panel: IdlePanel,
    pub dismiss_slideshow_confirmation: bool,
    pub idle_window_dragging: bool,
    pub slideshow_control_error: Option<String>,
    pub performance_input_pending: bool,
    pub com_diagnostics: Option<Dg>,
    pub slideshow_connection_error: Option<String>,
    pub slideshow_session_generation: u64,
}

/// The abstract runtime state.
pub struct RuntimeView<T, K, S, Level, Dg> {
    pub mode: AppMode,
    pub normal_history: Seq<InkOperation<T>>,
    pub normal_next_id: u64,
    pub session: Option<(K, S)>,
    pub suppressed: Option<K>,
    pub tools: ToolState,
    pub settings: UiSettings<Level>,
    pub slideshow_input_mode: SlideshowInputMode,
    pub idle_panel: IdlePanel,
    pub dismiss_slideshow_confirmation: bool,
    pub idle_window_dragging: bool,
    pub slideshow_control_error: Option<Seq<char>>,
    pub performance_input_pending: bool,
    pub com_diagnostics: Option<Dg>,
    pub slideshow_connection_error: Option<Seq<char>>,
    pub slideshow_session_generation: u64,
}

/// The view of an optional text.
pub open spec fn text_view(text: Option<String>) -> Option<Seq<char>> {
    match text {
        Some(t) => Some(t@),
        None => None,
    }
}

impl<T, K: PartialEq, S, Level, Dg> RuntimeModel<T, K, S, Level, Dg> {
    /// The abstract state.
    pub open spec fn view(&self) -> RuntimeView<T, K, S, Level, Dg> {
        RuntimeView {
            mode: self.state.spec_mode(),
            normal_history: self.state.normal().history(),
            normal_next_id: self.state.normal().next_id(),
            session: self.state.session(),
            suppressed: self.state.suppressed(),
            tools: self.tools,
            settings: self.settings,
            slideshow_input_mode: self.slideshow_input_mode,
            idle_panel: self.idle_panel,
            dismiss_slideshow_confirmation: self.dismiss_slideshow_confirmation,
            idle_window_dragging: self.idle_window_dragging,
            slideshow_control_error: text_view(self.slideshow_control_error),
            performance_input_pending: self.performance_input_pending,
            com_diagnostics: self.com_diagnostics,
            slideshow_connection_error: text_view(self.slideshow_connection_error),
            slideshow_session_generation: self.slideshow_session_generation,
        }
    }

    /// The application state is consistent.
    pub open spec fn wf(&self) -> bool {
        self.state.wf()
    }
}

/// The outcome with nothing to do.
pub open spec fn quiet<Side, Level>() -> OutcomeView<Side, Level> {
    OutcomeView {
        exit_action: None,
        geometry: None,
        skip_visual_freeze: false,
        actions: Seq::empty(),
        request_redraw: false,
    }
}

/// The outcome that only runs `actions`.
pub open spec fn doing<Side, Level>(actions: Seq<UiAction<Side, Level>>) -> OutcomeView<Side, Level> {
    OutcomeView { actions, ..quiet() }
}

/// The outcome that switches to `target` after running `actions`.
pub open spec fn switching<Side, Level>(
    target: GeometryTarget,
    actions: Seq<UiAction<Side, Level>>,
) -> OutcomeView<Side, Level> {
    OutcomeView { geometry: Some(target), actions, ..quiet() }
}

/// The slideshow controls reach the show: the integration is on and a show is
/// connected (not while its link is lost).
pub open spec fn controls_reach_show<T, K, S, Level, Dg>(v: RuntimeView<T, K, S, Level, Dg>) -> bool {
    &&& v.settings.slideshow_integration_enabled
    &&& (v.mode is SlideShowAnnotatingExpanded || v.mode is SlideShowAnnotatingCollapsed)
    &&& v.session is Some
}

/// What a command does before the redraw rule: the next state and the outcome.
pub open spec fn ui_step<T, K, S, Side, Level, Dg>(
    v: RuntimeView<T, K, S, Level, Dg>,
    command: UiCommand<Side, Level>,
) -> (RuntimeView<T, K, S, Level, Dg>, OutcomeView<Side, Level>) {
    let ink: UiAction<Side, Level> = UiAction::SetSlideshowInputMode(SlideshowInputMode::Ink);
    let save = seq![UiAction::SaveSettings];
    let idle = v.mode is IdleFloatingToolbar;
    match command {
        UiCommand::ExitApplication => (
            v,
            OutcomeView { exit_action: Some(ApplicationExitAction::Exit), ..doing(seq![ink]) },
        ),
        UiCommand::RestartApplication => (
            v,
            OutcomeView { exit_action: Some(ApplicationExitAction::Restart), ..doing(seq![ink]) },
        ),
        UiCommand::EnterAnnotation => if idle {
            (
                RuntimeView { mode: AppMode::NormalAnnotating, idle_panel: IdlePanel::Toolbar, ..v },
                switching(GeometryTarget::Annotation(true), Seq::empty()),
            )
        } else {
            (v, quiet())
        },
        UiCommand::ExitAnnotation => if v.mode is NormalAnnotating {
            (
                RuntimeView {
                    mode: AppMode::IdleFloatingToolbar,
                    normal_history: Seq::empty(),
                    normal_next_id: 0,
                    idle_panel: IdlePanel::Toolbar,
                    ..v
                },
                OutcomeView {
                    skip_visual_freeze: true,
                    ..switching(GeometryTarget::Annotation(false), Seq::empty())
                },
            )
        } else {
            (v, quiet())
        },
        UiCommand::SelectPen => (
            RuntimeView { tools: ToolState { tool: InkTool::Pen, ..v.tools }, ..v },
            quiet(),
        ),
        UiCommand::ToggleSlideshowPenMode => if mode_is_slideshow(v.mode) {
            let (mode, tool) = spec_pen_transition(v.slideshow_input_mode, v.tools.tool);
            (
                RuntimeView { tools: ToolState { tool, ..v.tools }, ..v },
                doing(seq![UiAction::SetSlideshowInputMode(mode)]),
            )
        } else {
            (v, quiet())
        },
        UiCommand::SelectEraser => (
            RuntimeView { tools: ToolState { tool: InkTool::RegionEraser, ..v.tools }, ..v },
            if mode_is_slideshow(v.mode) {
                doing(seq![ink])
            } else {
                quiet()
            },
        ),
        UiCommand::CycleEraserSize => {
            let size = next_eraser_size(v.tools.eraser_size);
            (
                RuntimeView {
                    tools: ToolState { eraser_size: size, ..v.tools },
                    settings: UiSettings {
                        tools: ToolState { eraser_size: size, ..v.settings.tools },
                        ..v.settings
                    },
                    ..v
                },
                doing(save),
            )
        },
        UiCommand::SetColor(color) => (
            RuntimeView {
                tools: ToolState { color, ..v.tools },
                settings: UiSettings { tools: ToolState { color, ..v.settings.tools }, ..v.settings },
                ..v
            },
            doing(save),
        ),
        UiCommand::SetPenWidth(pen_width) => (
            RuntimeView {
                tools: ToolState { pen_width, ..v.tools },
                settings: UiSettings {
                    tools: ToolState { pen_width, ..v.settings.tools },
                    ..v.settings
                },
                ..v
            },
            doing(save),
        ),
        UiCommand::SetEraserSize(eraser_size) => (
            RuntimeView {
                tools: ToolState { eraser_size, ..v.tools },
                settings: UiSettings {
                    tools: ToolState { eraser_size, ..v.settings.tools },
                    ..v.settings
                },
                ..v
            },
            doing(save),
        ),
        UiCommand::SetNaturalTaperEnabled(natural_taper_enabled) => (
            RuntimeView {
                tools: ToolState { natural_taper_enabled, ..v.tools },
                settings: UiSettings {
                    tools: ToolState { natural_taper_enabled, ..v.settings.tools },
                    ..v.settings
                },
                ..v
            },
            doing(save),
        ),
        UiCommand::SetPalmSizePreset(preset) => (
            RuntimeView { settings: UiSettings { palm_size_preset: preset, ..v.settings }, ..v },
            doing(seq![UiAction::PublishPalmSizePreset(preset), UiAction::SaveSettings]),
        ),
        UiCommand::Undo => (v, if idle {
            quiet()
        } else {
            doing(seq![UiAction::UndoActiveDocument])
        }),
        UiCommand::Clear => (v, if idle {
            quiet()
        } else {
            doing(seq![UiAction::ClearActiveDocument])
        }),
        UiCommand::OpenSettings => if idle {
            (
                RuntimeView { idle_panel: IdlePanel::Settings, ..v },
                switching(
                    GeometryTarget::Idle(IdlePanel::Settings),
                    seq![UiAction::RefreshMachineAutostart, UiAction::UpdateInterfaceZoom],
                ),
            )
        } else {
            (v, quiet())
        },
        UiCommand::OpenSettingsDirectory => (v, doing(seq![UiAction::OpenSettingsDirectory])),
        UiCommand::SetMachineAutostart(enabled) => (
            v,
            doing(seq![UiAction::SetMachineAutostart(enabled)]),
        ),
        UiCommand::CloseSettings => if idle {
            (
                RuntimeView { idle_panel: IdlePanel::Toolbar, ..v },
                switching(GeometryTarget::Idle(IdlePanel::Toolbar), seq![UiAction::UpdateInterfaceZoom]),
            )
        } else {
            (v, quiet())
        },
        UiCommand::ToggleQuickSettings => if idle {
            let panel = if v.idle_panel is QuickSettings {
                IdlePanel::Toolbar
            } else {
                IdlePanel::QuickSettings
            };
            (
                RuntimeView { idle_panel: panel, ..v },
                switching(GeometryTarget::Idle(panel), seq![UiAction::UpdateInterfaceZoom]),
            )
        } else {
            (v, quiet())
        },
        UiCommand::BeginIdleToolbarDrag => if idle {
            (RuntimeView { idle_window_dragging: true, ..v }, doing(seq![UiAction::BeginWindowDrag]))
        } else {
            (v, quiet())
        },
        UiCommand::SetDockSide(side) => (v, doing(seq![UiAction::SetDockSide(side)])),
        UiCommand::SetSlideshowIntegrationEnabled(enabled) => (
            RuntimeView {
                settings: UiSettings { slideshow_integration_enabled: enabled, ..v.settings },
                slideshow_control_error: None,
                ..v
            },
            doing(if enabled {
                seq![UiAction::SaveSettings, UiAction::ResyncSlideshow]
            } else {
                save
            }),
        ),
        UiCommand::SetLogLevel(level) => (
            RuntimeView { settings: UiSettings { log_level: level, ..v.settings }, ..v },
            doing(seq![UiAction::SetLogLevel(level), UiAction::SaveSettings]),
        ),
        UiCommand::SetReadableMode(enabled) => (
            RuntimeView { settings: UiSettings { readable_mode: enabled, ..v.settings }, ..v },
            doing(save),
        ),
        UiCommand::SetPerformanceMonitoringEnabled(enabled) => (
            RuntimeView {
                settings: UiSettings { performance_monitoring_enabled: enabled, ..v.settings },
                performance_input_pending: enabled && v.performance_input_pending,
                ..v
            },
            doing(save),
        ),
        UiCommand::ExportPerformanceData => (v, doing(seq![UiAction::ExportPerformanceData])),
        UiCommand::ToggleSlideshowToolbar => if v.mode is SlideShowAnnotatingExpanded {
            (RuntimeView { mode: AppMode::SlideShowAnnotatingCollapsed, ..v }, quiet())
        } else if v.mode is SlideShowAnnotatingCollapsed {
            (RuntimeView { mode: AppMode::SlideShowAnnotatingExpanded, ..v }, quiet())
        } else {
            (v, quiet())
        },
        UiCommand::PreviousSlide => (v, if controls_reach_show(v) {
            doing(seq![UiAction::SlideshowControl(SlideShowControlAction::Previous)])
        } else {
            quiet()
        }),
        UiCommand::NextSlide => (v, if controls_reach_show(v) {
            doing(seq![UiAction::SlideshowControl(SlideShowControlAction::Next)])
        } else {
            quiet()
        }),
        UiCommand::ExitSlideShow => (v, if controls_reach_show(v) {
            doing(seq![UiAction::SlideshowControl(SlideShowControlAction::Exit)])
        } else {
            quiet()
        }),
        UiCommand::RequestDismissSlideshow => if v.mode is SlideShowConnectionLost {
            (RuntimeView { dismiss_slideshow_confirmation: true, ..v }, quiet())
        } else {
            (v, quiet())
        },
        UiCommand::ConfirmDismissSlideshow => if v.dismiss_slideshow_confirmation
            && v.mode is SlideShowConnectionLost {
            (
                RuntimeView {
                    mode: AppMode::IdleFloatingToolbar,
                    session: None,
                    suppressed: Some(v.session->Some_0.0),
                    dismiss_slideshow_confirmation: false,
                    idle_panel: IdlePanel::Toolbar,
                    ..v
                },
                switching(GeometryTarget::Annotation(false), seq![ink]),
            )
        } else {
            (v, quiet())
        },
        UiCommand::CancelDismissSlideshow => (
            RuntimeView { dismiss_slideshow_confirmation: false, ..v },
            quiet(),
        ),
    }
}

/// What a command does: `ui_step`, and a redraw for every command that neither
/// ends the application nor switches the window geometry (that redraw follows
/// the geometry switch).
pub open spec fn spec_apply_ui_command<T, K, S, Side, Level, Dg>(
    v: RuntimeView<T, K, S, Level, Dg>,
    command: UiCommand<Side, Level>,
) -> (RuntimeView<T, K, S, Level, Dg>, OutcomeView<Side, Level>) {
    let (next, out) = ui_step(v, command);
    let ends = command is ExitApplication || command is RestartApplication;
    (next, OutcomeView { request_redraw: !ends && !spec_changes_window_geometry(command), ..out })
}

/// Undo works on whatever document the canvas shows: in every mode but the idle
/// toolbar (normal annotation, either slideshow layout, a lost link) it asks for
/// exactly one undo of the active document and a redraw, and changes nothing else;
/// on the idle toolbar it does nothing but redraw.
pub proof fn lemma_undo_acts_on_every_shown_document<T, K, S, Side, Level, Dg>(
    v: RuntimeView<T, K, S, Level, Dg>,
)
    ensures
        ({
            let (next, out) = spec_apply_ui_command(v, UiCommand::<Side, Level>::Undo);
            &&& next == v
            &&& out.request_redraw
            &&& out.exit_action is None
            &&& out.geometry is None
            &&& !(v.mode is IdleFloatingToolbar) ==> out.actions == seq![UiAction::<Side, Level>::UndoActiveDocument]
            &&& v.mode is IdleFloatingToolbar ==> out.actions == Seq::<UiAction<Side, Level>>::empty()
        }),
{
}

/// Which cached ink an undo invalidates.
#[derive(Debug, Clone, Copy, PartialEq, Eq, Structural)]
pub enum InkInvalidation {
    /// The whole cache: a clear was undone.
    Full,
    /// The region of the undone operation.
    OperationRegion,
}

/// What undoing `undone` invalidates: nothing when nothing was undone, the whole
/// cache for a clear, else the undone operation's region.
pub fn undo_invalidation<T>(undone: &Option<InkOperation<T>>) -> (invalidation: Option<InkInvalidation>)
    ensures
        match undone {
            None => invalidation is None,
            Some(operation) => if operation.kind is Clear {
                invalidation == Some(InkInvalidation::Full)
            } else {
                invalidation == Some(InkInvalidation::OperationRegion)
            },
        },
{
    match undone {
        None => None,
        Some(operation) => match operation.kind {
            OperationKind::Clear => Some(InkInvalidation::Full),
            _ => Some(InkInvalidation::OperationRegion),
        },
    }
}

/// The outcome with nothing to do.
fn quiet_outcome<Side, Level>() -> (out: UiCommandOutcome<Side, Level>)
    ensures
        out.view() == quiet::<Side, Level>(),
{
    UiCommandOutcome {
        exit_action: None,
        geometry: None,
        skip_visual_freeze: false,
        actions: Vec::new(),
        request_redraw: false,
    }
}

/// The outcome that runs one action.
fn one_action<Side, Level>(action: UiAction<Side, Level>) -> (out: UiCommandOutcome<Side, Level>)
    ensures
        out.view() == doing(seq![action]),
{
    let mut out = quiet_outcome();
    out.actions.push(action);
    assert(out.actions@ =~= seq![action]);
    out
}

/// The outcome that runs two actions in order.
fn two_actions<Side, Level>(first: UiAction<Side, Level>, second: UiAction<Side, Level>) -> (out:
    UiCommandOutcome<Side, Level>)
    ensures
        out.view() == doing(seq![first, second]),
{
    let mut out = one_action(first);
    out.actions.push(second);
    assert(out.actions@ =~= seq![first, second]);
    out
}

impl<T, K: PartialEq, S, Level: Copy, Dg> RuntimeModel<T, K, S, Level, Dg> {
    /// Applies a toolbar command: changes the tools, settings, panels and
    /// application state, and returns the outside work for the runtime to do.
    pub fn apply_ui_command<Side: Copy>(&mut self, command: UiCommand<Side, Level>) -> (out:
        UiCommandOutcome<Side, Level>)
        requires
            old(self).wf(),
        ensures
            final(self).wf(),
            (final(self).view(), out.view()) == spec_apply_ui_command(old(self).view(), command),
    {
        let mut out = self.ui_step(command);
        let ends = match command {
            UiCommand::ExitApplication | UiCommand::RestartApplication => true,
            _ => false,
        };
        out.request_redraw = !ends && !ui_command_changes_window_geometry(command);
        out
    }

    /// The command's state change and outside work, before the redraw rule.
    fn ui_step<Side: Copy>(&mut self, command: UiCommand<Side, Level>) -> (out: UiCommandOutcome<
        Side,
        Level,
    >)
        requires
            old(self).wf(),
        ensures
            final(self).wf(),
            (final(self).view(), out.view()) == ui_step(old(self).view(), command),
    {
        match command {
            UiCommand::ExitApplication | UiCommand::RestartApplication | UiCommand::EnterAnnotation | UiCommand::ExitAnnotation | UiCommand::ToggleSlideshowToolbar | UiCommand::RequestDismissSlideshow | UiCommand::ConfirmDismissSlideshow | UiCommand::CancelDismissSlideshow => self.step_modes(command),
            UiCommand::SelectPen | UiCommand::ToggleSlideshowPenMode | UiCommand::SelectEraser | UiCommand::CycleEraserSize | UiCommand::SetColor(..) | UiCommand::SetPenWidth(..) | UiCommand::SetEraserSize(..) | UiCommand::SetNaturalTaperEnabled(..) => self.step_tools(command),
            UiCommand::SetPalmSizePreset(..) | UiCommand::SetSlideshowIntegrationEnabled(..) | UiCommand::SetLogLevel(..) | UiCommand::SetReadableMode(..) | UiCommand::SetPerformanceMonitoringEnabled(..) | UiCommand::SetMachineAutostart(..) | UiCommand::OpenSettingsDirectory | UiCommand::SetDockSide(..) | UiCommand::ExportPerformanceData => self.step_settings(command),
            UiCommand::Undo | UiCommand::Clear | UiCommand::OpenSettings | UiCommand::CloseSettings | UiCommand::ToggleQuickSettings | UiCommand::BeginIdleToolbarDrag | UiCommand::PreviousSlide | UiCommand::NextSlide | UiCommand::ExitSlideShow => self.step_panels(command),
        }
    }

    /// Commands that change the mode or leave the application.
    #[verifier::spinoff_prover]
    fn step_modes<Side: Copy>(&mut self, command: UiCommand<Side, Level>) -> (out: UiCommandOutcome<
        Side,
        Level,
    >)
        requires
            old(self).wf(),
            command is ExitApplication || command is RestartApplication || command is EnterAnnotation || command is ExitAnnotation || command is ToggleSlideshowToolbar || command is RequestDismissSlideshow || command is ConfirmDismissSlideshow || command is CancelDismissSlideshow,
        ensures
            final(self).wf(),
            (final(self).view(), out.view()) == ui_step(old(self).view(), command),
    {
        let ink: UiAction<Side, Level> = UiAction::SetSlideshowInputMode(SlideshowInputMode::Ink);
        match command {
            UiCommand::ExitApplication => {
                let mut out = one_action(ink);
                out.exit_action = Some(ApplicationExitAction::Exit);
                out
            },
            UiCommand::RestartApplication => {
                let mut out = one_action(ink);
                out.exit_action = Some(ApplicationExitAction::Restart);
                out
            },
            UiCommand::EnterAnnotation => {
                let mut out = quiet_outcome();
                if self.state.enter_normal_annotation() {
                    self.idle_panel = IdlePanel::Toolbar;
                    out.geometry = Some(GeometryTarget::Annotation(true));
                }
                out
            },
            UiCommand::ExitAnnotation => {
                let mut out = quiet_outcome();
                if self.state.exit_normal_annotation() {
                    self.idle_panel = IdlePanel::Toolbar;
                    out.geometry = Some(GeometryTarget::Annotation(false));
                    out.skip_visual_freeze = true;
                }
                out
            },
            UiCommand::ToggleSlideshowToolbar => {
                match self.state.mode() {
                    AppMode::SlideShowAnnotatingExpanded => {
                        self.state.collapse_slideshow_toolbar();
                    },
                    AppMode::SlideShowAnnotatingCollapsed => {
                        self.state.expand_slideshow_toolbar();
                    },
                    _ => {},
                }
                quiet_outcome()
            },
            UiCommand::RequestDismissSlideshow => {
                match self.state.mode() {
                    AppMode::SlideShowConnectionLost => {
                        self.dismiss_slideshow_confirmation = true;
                    },
                    _ => {},
                }
                quiet_outcome()
            },
            UiCommand::ConfirmDismissSlideshow => {
                if self.dismiss_slideshow_confirmation && self.state.dismiss_disconnected_slideshow() {
                    self.dismiss_slideshow_confirmation = false;
                    self.idle_panel = IdlePanel::Toolbar;
                    let mut out = one_action(ink);
                    out.geometry = Some(GeometryTarget::Annotation(false));
                    out
                } else {
                    quiet_outcome()
                }
            },
            UiCommand::CancelDismissSlideshow => {
                self.dismiss_slideshow_confirmation = false;
                quiet_outcome()
            },
            _ => quiet_outcome(),
        }
    }

    /// Commands that change the tool selection.
    #[verifier::spinoff_prover]
    fn step_tools<Side: Copy>(&mut self, command: UiCommand<Side, Level>) -> (out: UiCommandOutcome<
        Side,
        Level,
    >)
        requires
            old(self).wf(),
            command is SelectPen || command is ToggleSlideshowPenMode || command is SelectEraser || command is CycleEraserSize || command is SetColor || command is SetPenWidth || command is SetEraserSize || command is SetNaturalTaperEnabled,
        ensures
            final(self).wf(),
            (final(self).view(), out.view()) == ui_step(old(self).view(), command),
    {
        let ink: UiAction<Side, Level> = UiAction::SetSlideshowInputMode(SlideshowInputMode::Ink);
        match command {
            UiCommand::SelectPen => {
                self.tools.tool = InkTool::Pen;
                quiet_outcome()
            },
            UiCommand::ToggleSlideshowPenMode => {
                if self.state.mode().is_slideshow() {
                    let (mode, tool) = slideshow_pen_transition(
                        self.slideshow_input_mode,
                        self.tools.tool,
                    );
                    self.tools.tool = tool;
                    one_action(UiAction::SetSlideshowInputMode(mode))
                } else {
                    quiet_outcome()
                }
            },
            UiCommand::SelectEraser => {
                self.tools.tool = InkTool::RegionEraser;
                if self.state.mode().is_slideshow() {
                    one_action(ink)
                } else {
                    quiet_outcome()
                }
            },
            UiCommand::CycleEraserSize => {
                self.tools.cycle_eraser_size();
                self.settings.tools.eraser_size = self.tools.eraser_size;
                one_action(UiAction::SaveSettings)
            },
            UiCommand::SetColor(color) => {
                self.tools.color = color;
                self.settings.tools.color = color;
                one_action(UiAction::SaveSettings)
            },
            UiCommand::SetPenWidth(width) => {
                self.tools.pen_width = width;
                self.settings.tools.pen_width = width;
                one_action(UiAction::SaveSettings)
            },
            UiCommand::SetEraserSize(size) => {
                self.tools.eraser_size = size;
                self.settings.tools.eraser_size = size;
                one_action(UiAction::SaveSettings)
            },
            UiCommand::SetNaturalTaperEnabled(enabled) => {
                self.tools.natural_taper_enabled = enabled;
                self.settings.tools.natural_taper_enabled = enabled;
                one_action(UiAction::SaveSettings)
            },
            _ => quiet_outcome(),
        }
    }

    /// Commands that change the settings or hand work to the runtime.
    #[verifier::spinoff_prover]
    fn step_settings<Side: Copy>(&mut self, command: UiCommand<Side, Level>) -> (out: UiCommandOutcome<
        Side,
        Level,
    >)
        requires
            old(self).wf(),
            command is SetPalmSizePreset || command is SetSlideshowIntegrationEnabled || command is SetLogLevel || command is SetReadableMode || command is SetPerformanceMonitoringEnabled || command is SetMachineAutostart || command is OpenSettingsDirectory || command is SetDockSide || command is ExportPerformanceData,
        ensures
            final(self).wf(),
            (final(self).view(), out.view()) == ui_step(old(self).view(), command),
    {
        match command {
            UiCommand::SetPalmSizePreset(preset) => {
                self.settings.palm_size_preset = preset;
                two_actions(UiAction::PublishPalmSizePreset(preset), UiAction::SaveSettings)
            },
            UiCommand::SetSlideshowIntegrationEnabled(enabled) => {
                self.settings.slideshow_integration_enabled = enabled;
                self.slideshow_control_error = None;
                if enabled {
                    two_actions(UiAction::SaveSettings, UiAction::ResyncSlideshow)
                } else {
                    one_action(UiAction::SaveSettings)
                }
            },
            UiCommand::SetLogLevel(level) => {
                self.settings.log_level = level;
                two_actions(UiAction::SetLogLevel(level), UiAction::SaveSettings)
            },
            UiCommand::SetReadableMode(enabled) => {
                self.settings.readable_mode = enabled;
                one_action(UiAction::SaveSettings)
            },
            UiCommand::SetPerformanceMonitoringEnabled(enabled) => {
                self.settings.performance_monitoring_enabled = enabled;
                if !enabled {
                    self.performance_input_pending = false;
                }
                one_action(UiAction::SaveSettings)
            },
            UiCommand::SetMachineAutostart(enabled) => one_action(
                UiAction::SetMachineAutostart(enabled),
            ),
            UiCommand::OpenSettingsDirectory => one_action(UiAction::OpenSettingsDirectory),
            UiCommand::SetDockSide(side) => one_action(UiAction::SetDockSide(side)),
            UiCommand::ExportPerformanceData => one_action(UiAction::ExportPerformanceData),
            _ => quiet_outcome(),
        }
    }

    /// Commands on the active document, the idle panels and the show.
    #[verifier::spinoff_prover]
    fn step_panels<Side: Copy>(&mut self, command: UiCommand<Side, Level>) -> (out: UiCommandOutcome<
        Side,
        Level,
    >)
        requires
            old(self).wf(),
            command is Undo || command is Clear || command is OpenSettings || command is CloseSettings || command is ToggleQuickSettings || command is BeginIdleToolbarDrag || command is PreviousSlide || command is NextSlide || command is ExitSlideShow,
        ensures
            final(self).wf(),
            (final(self).view(), out.view()) == ui_step(old(self).view(), command),
    {
        let idle = match self.state.mode() {
            AppMode::IdleFloatingToolbar => true,
            _ => false,
        };
        match command {
            UiCommand::Undo => {
                if idle {
                    quiet_outcome()
                } else {
                    one_action(UiAction::UndoActiveDocument)
                }
            },
            UiCommand::Clear => {
                if idle {
                    quiet_outcome()
                } else {
                    one_action(UiAction::ClearActiveDocument)
                }
            },
            UiCommand::OpenSettings => {
                if idle {
                    self.idle_panel = IdlePanel::Settings;
                    let mut out = two_actions(
                        UiAction::RefreshMachineAutostart,
                        UiAction::UpdateInterfaceZoom,
                    );
                    out.geometry = Some(GeometryTarget::Idle(IdlePanel::Settings));
                    out
                } else {
                    quiet_outcome()
                }
            },
            UiCommand::CloseSettings => {
                if idle {
                    self.idle_panel = IdlePanel::Toolbar;
                    let mut out = one_action(UiAction::UpdateInterfaceZoom);
                    out.geometry = Some(GeometryTarget::Idle(IdlePanel::Toolbar));
                    out
                } else {
                    quiet_outcome()
                }
            },
            UiCommand::ToggleQuickSettings => {
                if idle {
                    let panel = match self.idle_panel {
                        IdlePanel::QuickSettings => IdlePanel::Toolbar,
                        _ => IdlePanel::QuickSettings,
                    };
                    self.idle_panel = panel;
                    let mut out = one_action(UiAction::UpdateInterfaceZoom);
                    out.geometry = Some(GeometryTarget::Idle(panel));
                    out
                } else {
                    quiet_outcome()
                }
            },
            UiCommand::BeginIdleToolbarDrag => {
                if idle {
                    self.idle_window_dragging = true;
                    one_action(UiAction::BeginWindowDrag)
                } else {
                    quiet_outcome()
                }
            },
            UiCommand::PreviousSlide => self.slideshow_control(SlideShowControlAction::Previous),
            UiCommand::NextSlide => self.slideshow_control(SlideShowControlAction::Next),
            UiCommand::ExitSlideShow => self.slideshow_control(SlideShowControlAction::Exit),
            _ => quiet_outcome(),
        }
    }

    /// Sends a slideshow control only while the integration is on and a show is
    /// connected.
    fn slideshow_control<Side>(&self, action: SlideShowControlAction) -> (out: UiCommandOutcome<
        Side,
        Level,
    >)
        ensures
            controls_reach_show(self.view()) ==> out.view() == doing(
                seq![UiAction::<Side, Level>::SlideshowControl(action)],
            ),
            !controls_reach_show(self.view()) ==> out.view() == quiet::<Side, Level>(),
    {
        if self.settings.slideshow_integration_enabled && self.state.slideshow_controls_enabled() {
            one_action(UiAction::SlideshowControl(action))
        } else {
            quiet_outcome()
        }
    }
}

/// What the presentation detector reports. `P` is a slide page, `S` the session
/// that the caller built for a newly started show, `Dg` the detector's diagnostics.
pub enum SlideshowEvent<K, P, S, Dg> {
    Diagnostics(Dg),
    SlideShowStarted { key: K, page: P, session: S },
    SlideChanged { key: K, page: P },
    SlideShowEnded { key: K },
    ConnectionLost { key: Option<K>, detail: String },
    ControlSucceeded,
    ControlFailed { detail: String },
}

/// What switching the session's page found.
#[derive(Debug, Clone, Copy, PartialEq, Eq, Structural)]
pub enum PageSwitchOutcome {
    /// The page was already current.
    Unchanged,
    /// The same page with new metadata (such as the page count).
    MetadataUpdated,
    /// Another page: its ink replaced the canvas.
    PageChanged,
}

/// Outside work that a detector event asks of the runtime, in order.
#[derive(Debug, Clone, Copy, PartialEq, Eq)]
pub enum SlideshowAction<P> {
    /// End the gesture in progress and the router's pointer session.
    CancelInput,
    /// Rebuild the ink cache from the documents.
    InvalidateInkCache,
    /// Return the slideshow canvas to ink input.
    ResetSlideshowInputMode,
    /// Switch to the annotation canvas (`true`) or the idle toolbar (`false`).
    AnnotationTransition(bool),
    /// Switch the session's page to this one, then apply `page_switch_effects`
    /// of what the switch found.
    SwitchPage(P),
}

/// The session generation after a new show started; it wraps around.
pub open spec fn next_generation(generation: u64) -> u64 {
    if generation == u64::MAX {
        0
    } else {
        (generation + 1) as u64
    }
}

/// What a detector event does: the next state, whether something visible changed
/// (before any page switch), and the outside work. Every event but diagnostics is
/// ignored while the integration is off.
pub open spec fn spec_apply_slideshow_event<T, K: PartialEq, S, Level, Dg: PartialEq, P>(
    v: RuntimeView<T, K, S, Level, Dg>,
    event: SlideshowEvent<K, P, S, Dg>,
) -> (RuntimeView<T, K, S, Level, Dg>, bool, Seq<SlideshowAction<P>>) {
    let settled = RuntimeView {
        slideshow_connection_error: None,
        dismiss_slideshow_confirmation: false,
        ..v
    };
    match event {
        SlideshowEvent::Diagnostics(d) => (
            RuntimeView { com_diagnostics: Some(d), ..v },
            !(v.com_diagnostics matches Some(old) && old.eq_spec(&d)),
            Seq::empty(),
        ),
        _ => if !v.settings.slideshow_integration_enabled {
            (v, false, Seq::empty())
        } else {
            match event {
                SlideshowEvent::SlideShowStarted { key, page, session } => {
                    let same = v.session matches Some((current, _)) && same_show(current, key);
                    if same && v.mode is SlideShowConnectionLost {
                        (
                            RuntimeView { mode: AppMode::SlideShowAnnotatingExpanded, ..settled },
                            true,
                            seq![SlideshowAction::SwitchPage(page)],
                        )
                    } else if same {
                        (v, false, seq![SlideshowAction::SwitchPage(page)])
                    } else if v.suppressed matches Some(s) && same_show(s, key) {
                        (v, false, Seq::empty())
                    } else {
                        (
                            RuntimeView {
                                mode: AppMode::SlideShowAnnotatingExpanded,
                                normal_history: Seq::empty(),
                                normal_next_id: 0,
                                session: Some((key, session)),
                                suppressed: None,
                                tools: ToolState { tool: InkTool::Pen, ..v.tools },
                                slideshow_session_generation: next_generation(
                                    v.slideshow_session_generation,
                                ),
                                idle_panel: IdlePanel::Toolbar,
                                ..settled
                            },
                            true,
                            seq![
                                SlideshowAction::ResetSlideshowInputMode,
                                SlideshowAction::AnnotationTransition(true),
                            ],
                        )
                    }
                },
                SlideshowEvent::SlideChanged { key, page } => if v.session matches Some((current, _))
                    && same_show(current, key) {
                    (v, false, seq![SlideshowAction::SwitchPage(page)])
                } else {
                    (v, false, Seq::empty())
                },
                SlideshowEvent::SlideShowEnded { key } => {
                    let session_matches = v.session matches Some((current, _)) && same_show(
                        current,
                        key,
                    );
                    let suppression_matches = v.suppressed matches Some(s) && same_show(s, key);
                    if !session_matches && !suppression_matches {
                        (v, false, Seq::empty())
                    } else {
                        (
                            RuntimeView {
                                mode: if session_matches {
                                    AppMode::IdleFloatingToolbar
                                } else {
                                    v.mode
                                },
                                session: if session_matches {
                                    None
                                } else {
                                    v.session
                                },
                                suppressed: if suppression_matches {
                                    None
                                } else {
                                    v.suppressed
                                },
                                idle_panel: IdlePanel::Toolbar,
                                ..settled
                            },
                            true,
                            seq![
                                SlideshowAction::ResetSlideshowInputMode,
                                SlideshowAction::AnnotationTransition(false),
                            ],
                        )
                    }
                },
                SlideshowEvent::ConnectionLost { key, detail } => {
                    let matches = v.session matches Some((current, _)) && (key matches Some(k)
                        ==> same_show(current, k));
                    if matches && (v.mode is SlideShowAnnotatingExpanded || v.mode is SlideShowAnnotatingCollapsed) {
                        (
                            RuntimeView {
                                mode: AppMode::SlideShowConnectionLost,
                                slideshow_connection_error: Some(detail@),
                                dismiss_slideshow_confirmation: false,
                                ..v
                            },
                            true,
                            seq![SlideshowAction::CancelInput, SlideshowAction::InvalidateInkCache],
                        )
                    } else {
                        (v, false, Seq::empty())
                    }
                },
                SlideshowEvent::ControlSucceeded => (
                    RuntimeView { slideshow_control_error: None, ..v },
                    v.slideshow_control_error is Some,
                    Seq::empty(),
                ),
                SlideshowEvent::ControlFailed { detail } => (
                    RuntimeView { slideshow_control_error: Some(detail@), ..v },
                    v.slideshow_control_error != Some(detail@),
                    Seq::empty(),
                ),
                SlideshowEvent::Diagnostics(_) => (v, false, Seq::empty()),
            }
        },
    }
}

/// A lost link suspends the annotation of the show it belongs to, whichever
/// toolbar layout is showing: with the integration on, a `ConnectionLost` for the
/// current show (or for no particular show) moves an expanded or a collapsed
/// slideshow to `SlideShowConnectionLost`, keeps the session, shows the detail,
/// reports a visible change and asks to end the input in progress and rebuild the
/// ink cache. With no session it changes nothing.
pub proof fn lemma_lost_link_suspends_every_slideshow_layout<T, K: PartialEq, S, Level, Dg: PartialEq, P>(
    v: RuntimeView<T, K, S, Level, Dg>,
    key: Option<K>,
    detail: String,
)
    requires
        v.settings.slideshow_integration_enabled,
    ensures
        ({
            let (next, changed, actions) = spec_apply_slideshow_event::<T, K, S, Level, Dg, P>(
                v,
                SlideshowEvent::ConnectionLost { key, detail },
            );
            &&& (v.session matches Some((current, _)) && (key matches Some(k) ==> current == k)
                && (v.mode is SlideShowAnnotatingExpanded || v.mode is SlideShowAnnotatingCollapsed))
                ==> {
                &&& next.mode is SlideShowConnectionLost
                &&& next.session == v.session
                &&& next.slideshow_connection_error == Some(detail@)
                &&& changed
                &&& actions == seq![SlideshowAction::<P>::CancelInput, SlideshowAction::<P>::InvalidateInkCache]
            }
            &&& v.session is None ==> next == v && !changed && actions == Seq::<SlideshowAction<P>>::empty()
        }),
{
}

/// What a page switch adds: metadata counts as a visible change; a real page
/// change also ends the input in progress and rebuilds the ink cache.
pub open spec fn spec_page_switch_effects<P>(outcome: PageSwitchOutcome) -> (bool, Seq<SlideshowAction<P>>) {
    match outcome {
        PageSwitchOutcome::Unchanged => (false, Seq::empty()),
        PageSwitchOutcome::MetadataUpdated => (true, Seq::empty()),
        PageSwitchOutcome::PageChanged => (
            true,
            seq![SlideshowAction::CancelInput, SlideshowAction::InvalidateInkCache],
        ),
    }
}

/// Applies what a page switch found.
pub fn page_switch_effects<P>(outcome: PageSwitchOutcome) -> (res: (bool, Vec<SlideshowAction<P>>))
    ensures
        (res.0, res.1@) == spec_page_switch_effects::<P>(outcome),
{
    match outcome {
        PageSwitchOutcome::Unchanged => (false, Vec::new()),
        PageSwitchOutcome::MetadataUpdated => (true, Vec::new()),
        PageSwitchOutcome::PageChanged => {
            let mut actions: Vec<SlideshowAction<P>> = Vec::new();
            actions.push(SlideshowAction::CancelInput);
            actions.push(SlideshowAction::InvalidateInkCache);
            assert(actions@ =~= seq![SlideshowAction::CancelInput, SlideshowAction::InvalidateInkCache]);
            (true, actions)
        },
    }
}

/// Whether an optional text holds `detail`.
fn holds_text(text: &Option<String>, detail: &String) -> (holds: bool)
    ensures
        holds == (text_view(*text) == Some(detail@)),
{
    match text {
        Some(current) => str_equals(current.as_str(), detail.as_str()),
        None => false,
    }
}

impl<T, K: PartialEq, S, Level, Dg: PartialEq> RuntimeModel<T, K, S, Level, Dg> {
    /// Applies one detector event to the application state; returns whether
    /// something visible changed and the outside work, in order. Where the work
    /// holds a page switch, the caller switches the session's page and then
    /// applies `page_switch_effects` of its outcome.
    #[verifier::spinoff_prover]
    pub fn apply_slideshow_event<P>(&mut self, event: SlideshowEvent<K, P, S, Dg>) -> (res: (
        bool,
        Vec<SlideshowAction<P>>,
    ))
        requires
            old(self).wf(),
            key_equality_is_identity::<K>(),
            Dg::obeys_eq_spec(),
        ensures
            final(self).wf(),
            (final(self).view(), res.0, res.1@) == spec_apply_slideshow_event(old(self).view(), event),
    {
        let ghost v = self.view();
        match event {
            SlideshowEvent::Diagnostics(diagnostics) => {
                let changed = match &self.com_diagnostics {
                    Some(current) => !current.eq(&diagnostics),
                    None => true,
                };
                self.com_diagnostics = Some(diagnostics);
                return (changed, Vec::new());
            },
            _ => {},
        }
        if !self.settings.slideshow_integration_enabled {
            return (false, Vec::new());
        }
        match event {
            SlideshowEvent::SlideShowStarted { .. } => self.on_show_started(event),
            SlideshowEvent::SlideChanged { .. } | SlideshowEvent::SlideShowEnded { .. } => self.on_show_moved(event),
            _ => self.on_link_report(event),
        }
    }

    /// A show started, or came back after its link dropped.
    #[verifier::spinoff_prover]
    fn on_show_started<P>(&mut self, event: SlideshowEvent<K, P, S, Dg>) -> (res: (bool, Vec<SlideshowAction<P>>))
        requires
            old(self).wf(),
            key_equality_is_identity::<K>(),
            Dg::obeys_eq_spec(),
            old(self).settings.slideshow_integration_enabled,
            event is SlideShowStarted,
        ensures
            final(self).wf(),
            (final(self).view(), res.0, res.1@) == spec_apply_slideshow_event(old(self).view(), event),
    {
        let mut actions: Vec<SlideshowAction<P>> = Vec::new();
        match event {
            SlideshowEvent::SlideShowStarted { key, page, session } => {
                let lost = match self.state.mode() {
                    AppMode::SlideShowConnectionLost => true,
                    _ => false,
                };
                let same = self.state.is_current_show(&key);
                if same && lost {
                    let _session = self.state.restore_slideshow_connection(&key);
                    self.slideshow_connection_error = None;
                    self.dismiss_slideshow_confirmation = false;
                    actions.push(SlideshowAction::SwitchPage(page));
                    assert(actions@ =~= seq![SlideshowAction::SwitchPage(page)]);
                    return (true, actions);
                } else if same {
                    actions.push(SlideshowAction::SwitchPage(page));
                    assert(actions@ =~= seq![SlideshowAction::SwitchPage(page)]);
                    return (false, actions);
                }
                let started = self.state.start_slideshow(key, session);
                if started {
                    self.tools.tool = InkTool::Pen;
                    self.slideshow_session_generation = self.slideshow_session_generation.wrapping_add(1);
                    self.idle_panel = IdlePanel::Toolbar;
                    self.slideshow_connection_error = None;
                    self.dismiss_slideshow_confirmation = false;
                    actions.push(SlideshowAction::ResetSlideshowInputMode);
                    actions.push(SlideshowAction::AnnotationTransition(true));
                    assert(actions@ =~= seq![
                        SlideshowAction::ResetSlideshowInputMode,
                        SlideshowAction::AnnotationTransition(true),
                    ]);
                }
                (started, actions)
            },
            _ => (false, actions),
        }
    }

    /// The show turned a page or ended.
    #[verifier::spinoff_prover]
    fn on_show_moved<P>(&mut self, event: SlideshowEvent<K, P, S, Dg>) -> (res: (bool, Vec<SlideshowAction<P>>))
        requires
            old(self).wf(),
            key_equality_is_identity::<K>(),
            Dg::obeys_eq_spec(),
            old(self).settings.slideshow_integration_enabled,
            event is SlideChanged || event is SlideShowEnded,
        ensures
            final(self).wf(),
            (final(self).view(), res.0, res.1@) == spec_apply_slideshow_event(old(self).view(), event),
    {
        let mut actions: Vec<SlideshowAction<P>> = Vec::new();
        match event {
            SlideshowEvent::SlideChanged { key, page } => {
                if self.state.is_current_show(&key) {
                    actions.push(SlideshowAction::SwitchPage(page));
                    assert(actions@ =~= seq![SlideshowAction::SwitchPage(page)]);
                }
                (false, actions)
            },
            SlideshowEvent::SlideShowEnded { key } => {
                let ended = self.state.end_slideshow(&key);
                if ended {
                    self.idle_panel = IdlePanel::Toolbar;
                    self.slideshow_connection_error = None;
                    self.dismiss_slideshow_confirmation = false;
                    actions.push(SlideshowAction::ResetSlideshowInputMode);
                    actions.push(SlideshowAction::AnnotationTransition(false));
                    assert(actions@ =~= seq![
                        SlideshowAction::ResetSlideshowInputMode,
                        SlideshowAction::AnnotationTransition(false),
                    ]);
                }
                (ended, actions)
            },
            _ => (false, actions),
        }
    }

    /// The link dropped, or a control succeeded or failed.
    #[verifier::spinoff_prover]
    fn on_link_report<P>(&mut self, event: SlideshowEvent<K, P, S, Dg>) -> (res: (bool, Vec<SlideshowAction<P>>))
        requires
            old(self).wf(),
            key_equality_is_identity::<K>(),
            Dg::obeys_eq_spec(),
            old(self).settings.slideshow_integration_enabled,
            event is ConnectionLost || event is ControlSucceeded || event is ControlFailed,
        ensures
            final(self).wf(),
            (final(self).view(), res.0, res.1@) == spec_apply_slideshow_event(old(self).view(), event),
    {
        let mut actions: Vec<SlideshowAction<P>> = Vec::new();
        match event {
            SlideshowEvent::ConnectionLost { key, detail } => {
                let matches = match &key {
                    Some(event_key) => self.state.is_current_show(event_key),
                    None => self.state.slideshow_session().is_some(),
                };
                let lost = matches && self.state.lose_slideshow_connection();
                if lost {
                    self.slideshow_connection_error = Some(detail);
                    self.dismiss_slideshow_confirmation = false;
                    actions.push(SlideshowAction::CancelInput);
                    actions.push(SlideshowAction::InvalidateInkCache);
                    assert(actions@ =~= seq![
                        SlideshowAction::CancelInput,
                        SlideshowAction::InvalidateInkCache,
                    ]);
                }
                (lost, actions)
            },
            SlideshowEvent::ControlSucceeded => {
                let changed = self.slideshow_control_error.is_some();
                self.slideshow_control_error = None;
                (changed, actions)
            },
            SlideshowEvent::ControlFailed { detail } => {
                let same = holds_text(&self.slideshow_control_error, &detail);
                self.slideshow_control_error = Some(detail);
                (!same, actions)
            },
            _ => (false, actions),
        }
    }
}

/// What a routed pointer action does to the gesture in progress.
#[derive(Debug, Clone, Copy, PartialEq, Eq, Structural)]
pub enum GestureStep {
    /// Start a new gesture with the current tools, replacing any other.
    Start,
    /// Start a palm-erase gesture, replacing any other.
    StartPalmErase,
    /// Drop the gesture: an empty batch or a cancellation.
    Discard,
    /// Add the samples to the gesture in progress.
    Extend,
    /// Add the samples, then commit the gesture to the active document.
    Finish,
    /// Commit the buffered samples as a gesture of their own.
    CommitBuffered,
    /// Nothing: no gesture is in progress, or the buffer is empty.
    Ignore,
}

/// The gesture step of an action, given whether a gesture is in progress.
pub open spec fn spec_gesture_step<P, E>(active: bool, action: PointerAction<P, E>) -> GestureStep {
    match action {
        PointerAction::Begin(_) => GestureStep::Start,
        PointerAction::BeginBatch(points) => if points@.len() > 0 {
            GestureStep::Start
        } else {
            GestureStep::Discard
        },
        PointerAction::BeginPalmErase(_) => GestureStep::StartPalmErase,
        PointerAction::Move(_) | PointerAction::MoveBatch(_) | PointerAction::MovePalmErase(_) => if active {
            GestureStep::Extend
        } else {
            GestureStep::Ignore
        },
        PointerAction::End(_) | PointerAction::EndBatch(_) | PointerAction::EndPalmErase(_) => if active {
            GestureStep::Finish
        } else {
            GestureStep::Ignore
        },
        PointerAction::CommitBuffered(points) => if points@.len() > 0 {
            GestureStep::CommitBuffered
        } else {
            GestureStep::Ignore
        },
        PointerAction::Cancel => GestureStep::Discard,
    }
}

/// Decides what a routed pointer action does to the gesture in progress: a begin
/// starts one (an empty batch starts none), moves extend it, an end finishes and
/// commits it, buffered samples are committed on their own, and a cancellation
/// drops it. Without a gesture in progress, moves and ends do nothing.
pub fn gesture_step<P, E>(active: bool, action: &PointerAction<P, E>) -> (step: GestureStep)
    ensures
        step == spec_gesture_step(active, *action),
{
    match action {
        PointerAction::Begin(_) => GestureStep::Start,
        PointerAction::BeginBatch(points) => if points.len() > 0 {
            GestureStep::Start
        } else {
            GestureStep::Discard
        },
        PointerAction::BeginPalmErase(_) => GestureStep::StartPalmErase,
        PointerAction::Move(_) | PointerAction::MoveBatch(_) | PointerAction::MovePalmErase(_) => if active {
            GestureStep::Extend
        } else {
            GestureStep::Ignore
        },
        PointerAction::End(_) | PointerAction::EndBatch(_) | PointerAction::EndPalmErase(_) => if active {
            GestureStep::Finish
        } else {
            GestureStep::Ignore
        },
        PointerAction::CommitBuffered(points) => if points.len() > 0 {
            GestureStep::CommitBuffered
        } else {
            GestureStep::Ignore
        },
        PointerAction::Cancel => GestureStep::Discard,
    }
}

} // verus!

//! The state of the pet window and the values that it exchanges with its surroundings.

use vstd::prelude::*;

use crate::agent::message::AppLanguage;
use crate::agent::reply::ThinkingFeedback;
use crate::path::spell_same_path;
use crate::text::{clone_optional, ends_with, optional_view, strip_suffix};

verus! {

/// Where a model definition lies, as the library reads it.
///
/// `location` is the whole path, which more than one text may spell. `file_name` is the
/// last name of the path where it has one and that name is Unicode.
#[derive(Debug, PartialEq, Eq)]
pub struct ModelPath {
    pub location: String,
    pub file_name: Option<String>,
}

impl Clone for ModelPath {
    fn clone(&self) -> (copy: Self)
        ensures
            copy == *self,
    {
        ModelPath { location: self.location.clone(), file_name: clone_optional(&self.file_name) }
    }
}

/// Copies an optional model path.
pub fn clone_model(model: &Option<ModelPath>) -> (copy: Option<ModelPath>)
    ensures
        copy == *model,
{
    match model {
        Some(path) => Some(path.clone()),
        None => None,
    }
}

/// Whether two optional paths name the same model.
pub open spec fn same_model(left: Option<ModelPath>, right: Option<ModelPath>) -> bool {
    match (left, right) {
        (Some(left), Some(right)) => spell_same_path(left.location@, right.location@),
        (None, None) => true,
        _ => false,
    }
}

/// The ending that marks a model definition file.
pub open spec fn model_file_suffix() -> Seq<char> {
    ".model3.json"@
}

/// How a model is called in messages.
#[derive(Debug, PartialEq, Eq)]
pub enum ModelName {
    /// A name taken from the file.
    Named(String),
    /// The stand-in, in a language, for a file that gives no name.
    Unnamed(AppLanguage),
}

impl Clone for ModelName {
    fn clone(&self) -> (copy: Self)
        ensures
            copy == *self,
    {
        match self {
            ModelName::Named(name) => ModelName::Named(name.clone()),
            ModelName::Unnamed(language) => ModelName::Unnamed(*language),
        }
    }
}

/// The name characters of a [`ModelName`], if it has any.
pub open spec fn name_view(name: ModelName) -> Option<Seq<char>> {
    match name {
        ModelName::Named(text) => Some(text@),
        ModelName::Unnamed(_) => None,
    }
}

/// Whether a file is called `name` by someone who speaks `language`.
pub open spec fn is_called(name: ModelName, file_name: Option<Seq<char>>, language: AppLanguage) -> bool {
    &&& name_view(name) == display_name_of(file_name)
    &&& name matches ModelName::Unnamed(spoken) ==> spoken == language
}

/// The display name that a file name gives: what stands before the suffix, unless
/// that is nothing.
pub open spec fn display_name_of(file_name: Option<Seq<char>>) -> Option<Seq<char>> {
    match file_name {
        Some(name) => if ends_with(name, model_file_suffix()) && name.len()
            > model_file_suffix().len() {
            Some(name.take(name.len() - model_file_suffix().len()))
        } else {
            None
        },
        None => None,
    }
}

/// Returns how the model at `path` is called in `language`.
pub fn model_display_name(path: &ModelPath, language: AppLanguage) -> (name: ModelName)
    ensures
        is_called(name, optional_view(path.file_name), language),
{
    let Some(file_name) = &path.file_name else {
        return ModelName::Unnamed(language);
    };
    match strip_suffix(file_name.as_str(), ".model3.json") {
        Some(name) => if name.as_str().is_empty() {
            ModelName::Unnamed(language)
        } else {
            ModelName::Named(name)
        },
        None => ModelName::Unnamed(language),
    }
}

/// A model as messages call it: by its display name, or, where it has none, by the stand-in
/// of the language that was spoken when the label was made.
#[derive(Debug, PartialEq, Eq)]
pub struct ModelLabel {
    pub model: Option<ModelPath>,
    pub language: AppLanguage,
}

impl Clone for ModelLabel {
    fn clone(&self) -> (copy: Self)
        ensures
            copy == *self,
    {
        ModelLabel { model: clone_model(&self.model), language: self.language }
    }
}

impl ModelLabel {
    /// The file that gives the name.
    pub open spec fn file_name(self) -> Option<Seq<char>> {
        match self.model {
            Some(path) => optional_view(path.file_name),
            None => None,
        }
    }

    /// Returns the name on the label.
    pub fn name(&self) -> (name: ModelName)
        ensures
            is_called(name, self.file_name(), self.language),
    {
        match &self.model {
            Some(path) => model_display_name(path, self.language),
            None => ModelName::Unnamed(self.language),
        }
    }
}

/// What went wrong while a model was loaded, as it is shown inside a message.
#[derive(Debug, PartialEq, Eq)]
pub enum LoadErrorText {
    /// The error in its own words.
    Plain(String),
    /// The localised frame around an error of the first rendered frame.
    InitialFrame(String),
}

/// A message about a model. `language` is the one that it was put into, and stays in; what is
/// being loaded is told in the language of whoever looks.
#[derive(Debug, PartialEq, Eq)]
#[allow(inconsistent_fields)]
pub enum ModelMessage {
    Loading { label: ModelLabel },
    LoadFailed { label: ModelLabel, error: LoadErrorText, language: AppLanguage },
    RenderFailed { label: ModelLabel, error: String, language: AppLanguage },
    LoadedWithWarnings { summary: String, language: AppLanguage },
}

impl ModelMessage {
    /// Returns how the model that the message is about is called, where it says so.
    pub fn model_name(&self) -> (name: Option<ModelName>)
        ensures
            match self.label() {
                Some(label) => name matches Some(name) && is_called(
                    name,
                    label.file_name(),
                    label.language,
                ),
                None => name is None,
            },
    {
        match self {
            ModelMessage::Loading { label } => Some(label.name()),
            ModelMessage::LoadFailed { label, .. } => Some(label.name()),
            ModelMessage::RenderFailed { label, .. } => Some(label.name()),
            ModelMessage::LoadedWithWarnings { .. } => None,
        }
    }

    /// The model that the message is about, where it says so.
    pub open spec fn label(self) -> Option<ModelLabel> {
        match self {
            ModelMessage::Loading { label } => Some(label),
            ModelMessage::LoadFailed { label, .. } => Some(label),
            ModelMessage::RenderFailed { label, .. } => Some(label),
            ModelMessage::LoadedWithWarnings { .. } => None,
        }
    }

    /// The language that the message was put into.
    pub open spec fn language(self) -> Option<AppLanguage> {
        match self {
            ModelMessage::Loading { .. } => None,
            ModelMessage::LoadFailed { language, .. } => Some(language),
            ModelMessage::RenderFailed { language, .. } => Some(language),
            ModelMessage::LoadedWithWarnings { language, .. } => Some(language),
        }
    }

    /// Returns the language that the message was put into, unless it is that of whoever
    /// looks.
    pub fn worded_in(&self) -> (language: Option<AppLanguage>)
        ensures
            language == self.language(),
    {
        match self {
            ModelMessage::Loading { .. } => None,
            ModelMessage::LoadFailed { language, .. } => Some(*language),
            ModelMessage::RenderFailed { language, .. } => Some(*language),
            ModelMessage::LoadedWithWarnings { language, .. } => Some(*language),
        }
    }
}

impl Clone for LoadErrorText {
    fn clone(&self) -> (copy: Self)
        ensures
            copy == *self,
    {
        match self {
            LoadErrorText::Plain(text) => LoadErrorText::Plain(text.clone()),
            LoadErrorText::InitialFrame(text) => LoadErrorText::InitialFrame(text.clone()),
        }
    }
}

impl Clone for ModelMessage {
    fn clone(&self) -> (copy: Self)
        ensures
            copy == *self,
    {
        match self {
            ModelMessage::Loading { label } => ModelMessage::Loading { label: label.clone() },
            ModelMessage::LoadFailed { label, error, language } => ModelMessage::LoadFailed {
                label: label.clone(),
                error: error.clone(),
                language: *language,
            },
            ModelMessage::RenderFailed { label, error, language } => ModelMessage::RenderFailed {
                label: label.clone(),
                error: error.clone(),
                language: *language,
            },
            ModelMessage::LoadedWithWarnings { summary, language } =>
                ModelMessage::LoadedWithWarnings { summary: summary.clone(), language: *language },
        }
    }
}

/// How far the current model generation has come.
#[derive(Debug, PartialEq, Eq)]
pub enum ModelLoadState {
    NoModel,
    Loading(ModelLabel),
    Ready { warning: Option<ModelMessage> },
    Failed(ModelMessage),
}

/// The warning that a summary of load diagnostics gives in `language`.
pub open spec fn diagnostics_warning(summary: Option<String>, language: AppLanguage) -> Option<
    ModelMessage,
> {
    match summary {
        Some(summary) => Some(ModelMessage::LoadedWithWarnings { summary, language }),
        None => None,
    }
}

/// Returns the warning for a summary of load diagnostics.
pub fn localized_diagnostics_warning(summary: Option<String>, language: AppLanguage) -> (warning:
    Option<ModelMessage>)
    ensures
        warning == diagnostics_warning(summary, language),
{
    match summary {
        Some(summary) => Some(ModelMessage::LoadedWithWarnings { summary, language }),
        None => None,
    }
}

impl ModelLoadState {
    /// Whether the generation is loading or loaded.
    pub open spec fn active(self) -> bool {
        self is Loading || self is Ready
    }

    /// The state of a loaded model whose diagnostics read `summary`.
    pub fn ready(summary: Option<String>, language: AppLanguage) -> (state: Self)
        ensures
            state == (ModelLoadState::Ready { warning: diagnostics_warning(summary, language) }),
    {
        ModelLoadState::Ready { warning: localized_diagnostics_warning(summary, language) }
    }

    /// The message that covers the pet while there is no usable model.
    pub open spec fn cover_message(self) -> Option<ModelMessage> {
        match self {
            ModelLoadState::NoModel => None,
            ModelLoadState::Ready { .. } => None,
            ModelLoadState::Loading(label) => Some(ModelMessage::Loading { label }),
            ModelLoadState::Failed(message) => Some(message),
        }
    }

    /// Returns the message that covers the pet while there is no usable model: which
    /// model is being loaded, or why there is none.
    pub fn message(&self) -> (message: Option<ModelMessage>)
        ensures
            message == self.cover_message(),
    {
        match self {
            ModelLoadState::NoModel => None,
            ModelLoadState::Ready { .. } => None,
            ModelLoadState::Loading(label) => Some(ModelMessage::Loading { label: label.clone() }),
            ModelLoadState::Failed(message) => Some(message.clone()),
        }
    }

    /// The warning of a loaded model.
    pub open spec fn load_warning(self) -> Option<ModelMessage> {
        match self {
            ModelLoadState::Ready { warning } => warning,
            _ => None,
        }
    }

    /// Returns the warning of a loaded model.
    pub fn diagnostics_message(&self) -> (message: Option<ModelMessage>)
        ensures
            message == self.load_warning(),
    {
        match self {
            ModelLoadState::Ready { warning: Some(message) } => Some(message.clone()),
            _ => None,
        }
    }

    /// Replaces the warning of a loaded model once its summary has been put into
    /// another language.
    pub fn refresh_localized_warning(&mut self, summary: Option<String>, language: AppLanguage)
        ensures
            *final(self) == old(self).with_warning(summary, language),
    {
        let ready = match self {
            ModelLoadState::Ready { .. } => true,
            _ => false,
        };
        if ready {
            *self = ModelLoadState::ready(summary, language);
        }
    }

    /// A loaded model with another summary; any other state as it is.
    pub open spec fn with_warning(self, summary: Option<String>, language: AppLanguage) -> ModelLoadState {
        match self {
            ModelLoadState::Ready { .. } => ModelLoadState::Ready {
                warning: diagnostics_warning(summary, language),
            },
            other => other,
        }
    }
}

/// A rendered frame: which one, and the image that it paints, if it paints one
/// itself rather than leaving that to the native surface.
#[derive(Debug, Clone, Copy, PartialEq, Eq, Structural)]
pub struct FrameRef {
    pub serial: u64,
    pub image: Option<u64>,
}

/// The size of a raster in pixels.
#[derive(Debug, Clone, Copy, PartialEq, Eq, Structural)]
pub struct RasterSize {
    pub width: u32,
    pub height: u32,
}

/// A choice of window size, by its number in the settings.
#[derive(Debug, Clone, Copy, PartialEq, Eq, Structural)]
pub struct ModelWindowSize {
    pub preset: u32,
}

/// What the voice settings ask for.
#[derive(Debug, Clone, Copy, PartialEq, Eq, Structural)]
pub struct VoiceMode {
    pub enabled: bool,
    pub push_to_talk: bool,
}

impl VoiceMode {
    /// Whether a held key starts a recording.
    pub fn supports_push_to_talk(&self) -> (supported: bool)
        ensures
            supported == self.push_to_talk,
    {
        self.push_to_talk
    }
}

/// What the voice controller is doing.
#[derive(Debug, Clone, Copy, PartialEq, Eq, Structural)]
pub enum VoicePhase {
    Idle,
    Recording,
    Transcribing,
}

/// What the surroundings have to do after the pet has moved to its next state.
/// The actions of one call are performed in order.
#[derive(Debug, PartialEq, Eq)]
pub enum PetAction {
    /// Draw the pet window again.
    Notify,
    /// Cancel the work of the current model generation.
    CancelModel,
    /// Close the channel that wakes the model.
    CloseModelWake,
    /// Close the channel that announces a new frame rate.
    CloseFrameRateWake,
    /// Drop the task of the model that renders on the processor.
    StopModelTask,
    /// Start loading the selected model on the processor.
    StartCpuModel { generation: u64 },
    /// Hand the selected model, or the lack of one, to the graphics worker.
    LoadOnUnderlay { generation: u64, has_model: bool },
    /// Forget the measured frame rate.
    ResetFrameRateMeter,
    /// Centre the gaze. If it was elsewhere, wake what is named here.
    ResetLookTarget { wake_underlay: bool, wake_model: bool },
    /// Publish that nothing can be previewed.
    ClearPreviewCapabilities,
    /// Publish what the loaded model can preview.
    PublishPreviewCapabilities,
    /// Tell the chat that there are no outfits.
    ClearAgentOutfits,
    /// Tell the chat the outfits of the loaded model.
    PublishAgentOutfits,
    StartCursorTracking,
    StopCursorTracking,
    StartFpsSampling,
    StopFpsSampling,
    /// Count the frame that came with the event.
    RecordEventFrame,
    /// Count the frame taken from the graphics worker.
    RecordTakenFrame,
    /// Count a frame painted now.
    RecordPaintedFrame,
    WakeUnderlay,
    WakeModel,
    WakeFrameRate,
    PauseUnderlay,
    /// Ask the graphics worker to stop and report back when it has.
    BeginUnderlayShutdown { generation: u64 },
    /// Stop the graphics worker before going on.
    ShutdownUnderlay,
    /// Wait, for a limited time, for the worker that is already stopping.
    AwaitUnderlayShutdown,
    /// Try to attach a graphics worker and report what came of it.
    AttachUnderlay,
    StartUnderlayEvents,
    StopUnderlayEvents,
    /// Release an image that is no longer painted.
    DropImage(u64),
    /// Remove the native window.
    RemoveWindow,
    /// Tell the tray whether the pet is hidden.
    SetTrayHidden(bool),
    SetTrayNativeMenu(bool),
    /// Close the tray's own menu window.
    CloseTrayMenuWindow(u64),
    /// Show the menu that the platform draws.
    ShowNativeTrayMenu,
    /// Open the tray's own menu window and report what came of it.
    OpenTrayMenuWindow { pet_hidden: bool },
    /// Place and show a menu window that has just been opened.
    ShowTrayMenuWindow(u64),
    /// Open the settings window and report what came of it.
    OpenConfigWindow,
    /// Hand a command to the model and report whether it was taken.
    SendModelCommand(ModelCommand),
    /// Configure the voice controller, switched off where asked, and report the
    /// revision that it hands out.
    ConfigureVoice { off: bool },
    SetPushToTalk(bool),
    RequestVoiceShutdown,
    StopPlayback,
    PlaySpeech,
    StartVoiceLevels,
    StopVoiceLevels,
    StartVoiceReleaseTimer,
    StopVoiceReleaseTimer,
    /// Cancel a transcription that the voice controller has handed out.
    CancelRemoteTranscription { revision: u64, utterance_id: u64 },
    /// Pass something on to the chat.
    Chat(ChatRequest),
    /// Pass the shortcut problems in the state on to the settings.
    ReportShortcutErrors,
    ReportShortcutBindings,
    ConfigureShortcuts,
    SuspendShortcuts(bool),
    /// Ask the window system to raise the pet with the token of the shortcut.
    ActivateWithToken,
    ActivateWindow,
    ToggleVisibility,
    ToggleSettingsWindow,
    ToggleChatInput,
    /// Ask for the default window position.
    RequestPositionReset,
    /// Apply language and theme, and recolour the tray.
    ApplyAppearance,
    SyncTrayAppearance,
    /// Read the current agent configuration into the chat.
    RefreshAgentSettings,
    /// Resize the native window to the pending size.
    ResizeWindow(ModelWindowSize),
    /// Answer an outfit request.
    CompleteOutfitRequest(bool),
    /// Store the outfit choice and report what came of it.
    CommitOutfit(OutfitAction),
}

/// A command for the running model.
#[derive(Debug, PartialEq, Eq)]
pub enum ModelCommand {
    PreviewMotion(String),
    PreviewExpression(String),
    ResetExpression,
}

/// What an outfit request comes down to.
#[derive(Debug, PartialEq, Eq)]
pub enum OutfitAction {
    Unchanged,
    LoadVariant(String),
    PreviewExpression(String),
    ResetExpression,
}

/// Something that the pet passes on to the chat.
#[derive(Debug, PartialEq, Eq)]
pub enum ChatRequest {
    SetInputVisible(bool),
    SetVoiceIndicator(bool),
    CancelPendingVoice,
    Suspend,
    Resume,
    VoiceInputPressed,
    VoiceSpeechStarted { utterance_id: u64 },
    VoiceUtteranceCancelled { utterance_id: u64 },
    VoiceTranscript { utterance_id: u64, text: String },
    TranscribeVoice { revision: u64, utterance_id: u64, model_id: String },
    VoiceFailed { message: String },
    StopVoiceInteraction,
    ModelClicked { part_name: String },
}

/// The action, if it is due.
pub open spec fn if_due<A>(due: bool, action: A) -> Seq<A> {
    if due {
        seq![action]
    } else {
        Seq::empty()
    }
}

/// Appends an action that is due.
pub fn push_if<A>(actions: &mut Vec<A>, due: bool, action: A)
    ensures
        final(actions)@ == old(actions)@ + if_due(due, action),
{
    if due {
        actions.push(action);
    }
    proof {
        assert(actions@ =~= old(actions)@ + if_due(due, action));
    }
}

/// Following the pointer with the eyes.
#[derive(Debug, Clone, Copy, PartialEq, Eq, Structural)]
pub struct GazeState {
    /// Whether the pointer can be seen outside the window at all.
    pub tracker_available: bool,
    /// Whether it is being followed.
    pub tracking: bool,
    pub enabled: bool,
}

/// What is painted, and how often.
#[derive(Debug, Clone, Copy, PartialEq, Eq, Structural)]
pub struct PaintState {
    pub frame: Option<FrameRef>,
    pub current_image: Option<u64>,
    pub previous_image: Option<u64>,
    pub show_fps: bool,
    pub fps_sampling: bool,
}

/// The current model generation.
#[derive(Debug)]
pub struct ModelSlot {
    pub generation: u64,
    pub selected: Option<ModelPath>,
    pub state: ModelLoadState,
    /// Whether the model takes commands.
    pub commands: bool,
    pub wake: bool,
    pub frame_rate_wake: bool,
    pub cancellation: bool,
    /// Whether a task renders the model on the processor.
    pub task: bool,
}

/// The graphics worker below the window.
#[derive(Debug, Clone, Copy, PartialEq, Eq, Structural)]
pub struct UnderlayState {
    pub attached: bool,
    /// Whether its events are being read.
    pub events: bool,
    pub shutdown_pending: bool,
    /// Whether the model moves to the processor once the worker has stopped.
    pub restart_cpu: bool,
    pub released_for_hidden: bool,
    pub restore_pending: bool,
    pub cpu_fallback_pending: bool,
    pub close_after_shutdown: bool,
    pub quitting: bool,
}

/// The window on the desktop.
#[derive(Debug, Clone, Copy, PartialEq, Eq, Structural)]
pub struct PetWindow {
    pub visible: bool,
    pub visibility_revision: u64,
    pub tray_available: bool,
    pub pending_size: Option<ModelWindowSize>,
    pub pending_size_attempts: u32,
    pub config_window: Option<u64>,
    pub tray_menu_window: Option<u64>,
    /// The raster that the model is rendered into.
    pub raster: RasterSize,
    pub cpu_raster: RasterSize,
    pub gpu_raster: RasterSize,
}

/// Voice input and speech output of the window.
#[derive(Debug, Clone, Copy, PartialEq, Eq, Structural)]
pub struct PetVoice {
    pub available: bool,
    pub playback_available: bool,
    pub mode: VoiceMode,
    pub revision: u64,
    pub phase: VoicePhase,
    /// Whether a task that samples the recording level is held. One that has come to its end
    /// is held until the next change of activity.
    pub levels: bool,
    /// Whether a timer will let go of the talk key.
    pub release_timer: bool,
}

/// What the window shows of the chat.
#[derive(Debug, Clone, Copy, PartialEq, Eq, Structural)]
pub struct PetChat {
    pub input_open: bool,
    pub overlay_visible: bool,
    pub thinking_feedback: Option<ThinkingFeedback>,
}

/// Global shortcuts.
#[derive(Debug)]
pub struct PetShortcuts {
    pub available: bool,
    pub runtime_errors: Vec<String>,
}

/// The pet window.
///
/// Handles of tasks, channels and windows are held elsewhere; here stands whether
/// they exist.
#[derive(Debug)]
pub struct DesktopPetView {
    pub model: ModelSlot,
    pub paint: PaintState,
    pub gaze: GazeState,
    pub underlay: UnderlayState,
    pub window: PetWindow,
    pub voice: PetVoice,
    pub chat: PetChat,
    pub shortcuts: PetShortcuts,
    /// The language that messages are put into.
    pub language: AppLanguage,
}

} // verus!

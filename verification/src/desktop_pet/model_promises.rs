//! What becomes of models, told in terms of what is asked for and what comes back.

use vstd::prelude::*;

use crate::agent::message::AppLanguage;
use crate::desktop_pet::events::{PetSetup, SettingsEvent};
use crate::desktop_pet::generation::{LoadedModelGeneration, ModelGenerationLoadError};
use crate::desktop_pet::gpu_events::{GpuUnderlayEvent, PresentedFrame};
use crate::desktop_pet::gpu_lifecycle::AttachOutcome;
use crate::desktop_pet::state::{
    display_name_of, if_due, is_called, same_model, DesktopPetView, FrameRef, GazeState,
    LoadErrorText, ModelCommand, ModelLabel, ModelLoadState, ModelMessage, ModelName, ModelPath,
    ModelSlot, ModelWindowSize, OutfitAction, PaintState, PetAction, PetWindow, UnderlayState, VoiceMode,
    VoicePhase,
};
use crate::path::spell_same_path;
use crate::revision::revision_after;

verus! {

/// Something to do under a condition.
pub open spec fn given(condition: bool, action: PetAction) -> Seq<PetAction> {
    if condition {
        seq![action]
    } else {
        seq![]
    }
}

/// What is due is done once, what is not due is not done.
pub proof fn due_is_done_once(condition: bool, action: PetAction)
    ensures
        condition ==> if_due(condition, action).len() == 1 && if_due(condition, action)[0]
            == action,
        !condition ==> if_due(condition, action).len() == 0,
{
}

/// Two requests are for the same model if both are for none, or their paths are the same
/// however they are spelled.
pub proof fn same_model_is_same_path(left: Option<ModelPath>, right: Option<ModelPath>)
    ensures
        left is None && right is None ==> same_model(left, right),
        left is None != right is None ==> !same_model(left, right),
        left matches Some(one) ==> (right matches Some(other) ==> (same_model(left, right)
            <==> spell_same_path(one.location@, other.location@))),
{
}

/// Whether a request finds its model already there: it is loading or loaded, its path is the
/// same, and nobody insists.
pub open spec fn is_there_already(pet: DesktopPetView, path: Option<ModelPath>, force: bool) -> bool {
    &&& !force
    &&& (pet.model.state is Loading || pet.model.state is Ready)
    &&& match (pet.model.selected, path) {
        (Some(selected), Some(asked)) => spell_same_path(selected.location@, asked.location@),
        (None, None) => true,
        _ => false,
    }
}

/// A model that is asked for is the one that is loaded, as a generation of its own, unless it
/// is there already; asking for none leaves none.
pub proof fn asked_model_is_loaded(pet: DesktopPetView, path: Option<ModelPath>, force: bool)
    ensures
        is_there_already(pet, path, force) ==> pet.loaded_with(path, force) == pet
            && pet.load_actions(path, force).len() == 0,
        !is_there_already(pet, path, force) ==> {
            let after = pet.loaded_with(path, force);
            &&& after.model.selected == path
            &&& path is None ==> after.model.state is NoModel
            &&& path matches Some(asked) ==> after.model.state == ModelLoadState::Loading(
                ModelLabel { model: Some(asked), language: pet.language },
            )
            &&& after.model.generation == revision_after(pet.model.generation)
            &&& after.model.generation != pet.model.generation
            &&& after.model.commands == (path is Some)
            &&& after.model.task == (path is Some && !pet.underlay.attached)
            &&& after.model.wake == after.model.task
            &&& after.model.frame_rate_wake == after.model.task
            &&& after.model.cancellation == (path is Some || pet.underlay.attached)
            &&& after.paint.frame is None
            &&& !after.gaze.tracking
            &&& after.underlay.cpu_fallback_pending == (pet.underlay.cpu_fallback_pending
                && path is Some)
            &&& after.underlay.attached == pet.underlay.attached
            &&& after.window == pet.window
            &&& after.voice == pet.voice
            &&& after.chat == pet.chat
            &&& after.shortcuts == pet.shortcuts
            &&& after.language == pet.language
            &&& after.gaze.enabled == pet.gaze.enabled
            &&& after.paint.current_image == pet.paint.current_image
            &&& after.paint.previous_image == pet.paint.previous_image
        },
{
}

/// The work of a request: the generation before is let go, and the new one starts on the
/// graphics worker where there is one, or else on the processor.
pub proof fn asked_model_is_started(pet: DesktopPetView, path: Option<ModelPath>, force: bool)
    requires
        !is_there_already(pet, path, force),
    ensures
        ({
            let generation = revision_after(pet.model.generation);
            let actions = pet.load_actions(path, force);
            let let_go = given(pet.model.cancellation, PetAction::CancelModel) + given(
                pet.model.wake,
                PetAction::CloseModelWake,
            ) + given(pet.model.frame_rate_wake, PetAction::CloseFrameRateWake) + given(
                pet.model.task,
                PetAction::StopModelTask,
            ) + given(pet.gaze.tracking, PetAction::StopCursorTracking) + seq![
                PetAction::ResetFrameRateMeter,
                PetAction::ResetLookTarget {
                    wake_underlay: pet.underlay.attached,
                    wake_model: false,
                },
                PetAction::ClearPreviewCapabilities,
                PetAction::ClearAgentOutfits,
            ];
            &&& path is Some && !pet.underlay.attached ==> actions == let_go + seq![
                PetAction::Notify,
                PetAction::StartCpuModel { generation },
            ]
            &&& path is Some && pet.underlay.attached ==> actions == let_go + seq![
                PetAction::Notify,
                PetAction::LoadOnUnderlay { generation, has_model: true },
            ]
            &&& path is None ==> actions == let_go + given(
                pet.underlay.attached,
                PetAction::LoadOnUnderlay { generation, has_model: false },
            ) + seq![PetAction::Notify]
        }),
{
    reveal(DesktopPetView::drop_generation_actions);
}

/// Whichever model the user chooses in the settings is the one that is loaded next, even
/// where it is there already; choosing none removes the model.
pub proof fn chosen_model_is_loaded(pet: DesktopPetView, path: Option<ModelPath>)
    ensures
        ({
            let after = pet.after_settings(SettingsEvent::ModelChanged(path));
            let actions = pet.settings_actions(SettingsEvent::ModelChanged(path));
            &&& after.model.selected == path
            &&& path is None ==> after.model.state is NoModel && !after.model.task
            &&& path matches Some(chosen) ==> after.model.state == ModelLoadState::Loading(
                ModelLabel { model: Some(chosen), language: pet.language },
            )
            &&& after.model.generation == revision_after(pet.model.generation)
            &&& path is Some && !pet.underlay.attached ==> actions.last()
                == PetAction::StartCpuModel { generation: after.model.generation }
            &&& path is Some && pet.underlay.attached ==> actions.last()
                == PetAction::LoadOnUnderlay {
                generation: after.model.generation,
                has_model: true,
            }
            &&& path is None && pet.underlay.attached ==> actions[actions.len() - 2]
                == PetAction::LoadOnUnderlay {
                generation: after.model.generation,
                has_model: false,
            }
            &&& after.window == pet.window
            &&& after.voice == pet.voice
            &&& after.chat == pet.chat
            &&& after.paint.frame is None
        }),
{
    asked_model_is_loaded(pet, path, true);
    asked_model_is_started(pet, path, true);
}

/// Choosing one model after another ends with the last one chosen.
pub proof fn last_choice_stands(
    pet: DesktopPetView,
    first: Option<ModelPath>,
    second: Option<ModelPath>,
)
    ensures
        ({
            let once = pet.after_settings(SettingsEvent::ModelChanged(first));
            let twice = once.after_settings(SettingsEvent::ModelChanged(second));
            &&& once.model.selected == first
            &&& twice.model.selected == second
            &&& twice.model.generation != once.model.generation
        }),
{
    chosen_model_is_loaded(pet, first);
    chosen_model_is_loaded(pet.after_settings(SettingsEvent::ModelChanged(first)), second);
}

/// A motion or an expression that the user tries out is sent to the running model by its own
/// name, and changes nothing here; without a model that takes commands nothing is sent.
pub proof fn previews_are_sent_by_name(pet: DesktopPetView, name: String)
    ensures
        pet.after_settings(SettingsEvent::PreviewMotion(name)) == pet,
        pet.after_settings(SettingsEvent::PreviewExpression(name)) == pet,
        pet.settings_actions(SettingsEvent::PreviewMotion(name)) == given(
            pet.model.commands,
            PetAction::SendModelCommand(ModelCommand::PreviewMotion(name)),
        ),
        pet.settings_actions(SettingsEvent::PreviewExpression(name)) == given(
            pet.model.commands,
            PetAction::SendModelCommand(ModelCommand::PreviewExpression(name)),
        ),
{
}

/// Dropping the expression is a command where the model takes commands, and a reload of the
/// same model where it does not.
pub proof fn expression_is_dropped(pet: DesktopPetView)
    ensures
        pet.model.commands ==> pet.after_settings(SettingsEvent::ResetExpression) == pet
            && pet.settings_actions(SettingsEvent::ResetExpression) == seq![
            PetAction::SendModelCommand(ModelCommand::ResetExpression),
        ],
        !pet.model.commands ==> {
            let after = pet.after_settings(SettingsEvent::ResetExpression);
            &&& after.model.selected == pet.model.selected
            &&& after.model.generation == revision_after(pet.model.generation)
            &&& pet.settings_actions(SettingsEvent::ResetExpression) == pet.settings_actions(
                SettingsEvent::ModelChanged(pet.model.selected),
            )
        },
{
    asked_model_is_loaded(pet, pet.model.selected, true);
}

/// The other changes in the settings do what they say, and leave the model alone.
pub proof fn other_settings_do_what_they_say(
    pet: DesktopPetView,
    enabled: bool,
    size: ModelWindowSize,
    mode: VoiceMode,
)
    ensures
        ({
            let tracking = pet.after_settings(SettingsEvent::EyeTrackingChanged(enabled));
            &&& tracking.gaze.enabled == enabled
            &&& tracking.gaze.tracker_available == pet.gaze.tracker_available
            &&& (DesktopPetView { gaze: pet.gaze, ..tracking }) == pet
            &&& !enabled ==> !tracking.gaze.tracking && pet.settings_actions(
                SettingsEvent::EyeTrackingChanged(enabled),
            )[0] == PetAction::ResetLookTarget {
                wake_underlay: pet.underlay.attached,
                wake_model: pet.model.wake,
            }
            &&& pet.settings_actions(SettingsEvent::EyeTrackingChanged(enabled)).last()
                == PetAction::Notify
        }),
        ({
            let shown = pet.after_settings(SettingsEvent::ShowFpsChanged(enabled));
            &&& shown.paint.show_fps == enabled
            &&& pet.paint.show_fps != enabled ==> shown.paint.fps_sampling == (enabled
                && pet.window.visible)
            &&& pet.paint.show_fps == enabled ==> shown == pet
            &&& (DesktopPetView { paint: pet.paint, ..shown }) == pet
            &&& shown.paint.frame == pet.paint.frame
            &&& shown.paint.current_image == pet.paint.current_image
            &&& shown.paint.previous_image == pet.paint.previous_image
        }),
        ({
            let sized = pet.after_settings(SettingsEvent::ModelWindowSizeChanged(size));
            &&& sized.window.pending_size == Some(size)
            &&& sized.window.pending_size_attempts == 0
            &&& (DesktopPetView {
                window: PetWindow {
                    pending_size: pet.window.pending_size,
                    pending_size_attempts: pet.window.pending_size_attempts,
                    ..sized.window
                },
                ..sized
            }) == pet
            &&& pet.settings_actions(SettingsEvent::ModelWindowSizeChanged(size)) == seq![
                PetAction::Notify,
            ]
        }),
        ({
            let voiced = pet.after_settings(SettingsEvent::VoiceChanged(mode));
            let changed = pet.after_settings(SettingsEvent::AgentChanged { voice_mode: mode });
            &&& voiced == changed
            &&& voiced.voice.mode == mode
            &&& (DesktopPetView { voice: pet.voice, ..voiced }) == pet
            &&& pet.settings_actions(SettingsEvent::AgentChanged { voice_mode: mode })
                == pet.settings_actions(SettingsEvent::VoiceChanged(mode)) + seq![
                PetAction::RefreshAgentSettings,
            ]
        }),
        pet.after_settings(SettingsEvent::ModelCatalogChanged) == pet,
        pet.settings_actions(SettingsEvent::ModelCatalogChanged).len() == 0,
        pet.after_settings(SettingsEvent::FrameRateChanged) == pet,
        pet.settings_actions(SettingsEvent::FrameRateChanged) == given(
            pet.underlay.attached,
            PetAction::WakeUnderlay,
        ) + given(pet.model.frame_rate_wake, PetAction::WakeFrameRate),
        pet.after_settings(SettingsEvent::WindowPositionsReset) == pet,
        pet.settings_actions(SettingsEvent::WindowPositionsReset) == seq![
            PetAction::RequestPositionReset,
            PetAction::Notify,
        ],
        pet.after_settings(SettingsEvent::ModelResourcesChanged) == pet,
        pet.after_settings(SettingsEvent::AgentOutfitToolChanged(enabled)) == pet,
{
}

/// Showing or hiding the frame counter starts the measurement anew.
pub proof fn frame_counter_is_switched(pet: DesktopPetView, show: bool)
    ensures
        pet.paint.show_fps == show ==> pet.settings_actions(
            SettingsEvent::ShowFpsChanged(show),
        ).len() == 0,
        pet.paint.show_fps != show ==> pet.settings_actions(SettingsEvent::ShowFpsChanged(show))
            == seq![PetAction::ResetFrameRateMeter] + given(
            pet.paint.fps_sampling,
            PetAction::StopFpsSampling,
        ) + given(show && pet.window.visible, PetAction::StartFpsSampling) + seq![
            PetAction::Notify,
        ],
{
}

/// The chat is told the outfits of a loaded model, and that there are none otherwise or where
/// outfits are switched off.
pub proof fn outfits_are_those_of_a_loaded_model(pet: DesktopPetView)
    ensures
        ({
            let told = if pet.model.state is Ready {
                PetAction::PublishAgentOutfits
            } else {
                PetAction::ClearAgentOutfits
            };
            &&& pet.settings_actions(SettingsEvent::ModelResourcesChanged) == seq![told]
            &&& pet.settings_actions(SettingsEvent::AgentOutfitToolChanged(true)) == seq![told]
            &&& pet.settings_actions(SettingsEvent::AgentOutfitToolChanged(false)) == seq![
                PetAction::ClearAgentOutfits,
            ]
        }),
{
}

/// A new appearance is applied to the window, the tray and the chat, with the language that
/// it names.
pub proof fn appearance_is_applied(
    pet: DesktopPetView,
    language: AppLanguage,
    diagnostics_summary: Option<String>,
)
    ensures
        ({
            let event = SettingsEvent::AppearanceChanged { language, diagnostics_summary };
            let after = pet.after_settings(event);
            let actions = pet.settings_actions(event);
            &&& after.language == language
            &&& after.model.state is Ready <==> pet.model.state is Ready
            &&& !(pet.model.state is Ready) ==> after.model == pet.model
            &&& pet.model.state is Ready ==> (after.model.state matches ModelLoadState::Ready {
                warning,
            } && (diagnostics_summary is None ==> warning is None) && (
            diagnostics_summary matches Some(summary) ==> warning == Some(
                ModelMessage::LoadedWithWarnings { summary, language },
            )))
            &&& after.model.selected == pet.model.selected
            &&& after.model.generation == pet.model.generation
            &&& after.window == pet.window
            &&& after.voice == pet.voice
            &&& after.chat == pet.chat
            &&& after.paint == pet.paint
            &&& after.gaze == pet.gaze
            &&& after.underlay == pet.underlay
            &&& actions == seq![
                PetAction::ApplyAppearance,
                PetAction::SyncTrayAppearance,
                if pet.model.state is Ready {
                    PetAction::PublishAgentOutfits
                } else {
                    PetAction::ClearAgentOutfits
                },
                PetAction::RefreshAgentSettings,
            ]
        }),
{
}

/// Every message about a model tells the name of that model, and why it failed.
pub proof fn messages_tell_the_model(state: ModelLoadState)
    ensures
        state is NoModel || state is Ready ==> state.cover_message() is None,
        state matches ModelLoadState::Loading(label) ==> state.cover_message() == Some(
            ModelMessage::Loading { label },
        ),
        state matches ModelLoadState::Failed(message) ==> state.cover_message() == Some(message),
        state matches ModelLoadState::Ready { warning } ==> state.load_warning() == warning,
        !(state is Ready) ==> state.load_warning() is None,
        state.active() <==> state is Loading || state is Ready,
{
}

/// A message names the model of its label, and speaks the language that it was put into.
pub proof fn message_keeps_label_and_language(
    label: ModelLabel,
    error: LoadErrorText,
    text: String,
    language: AppLanguage,
)
    ensures
        (ModelMessage::Loading { label }).label() == Some(label),
        (ModelMessage::LoadFailed { label, error, language }).label() == Some(label),
        (ModelMessage::RenderFailed { label, error: text, language }).label() == Some(label),
        (ModelMessage::LoadedWithWarnings { summary: text, language }).label() is None,
        (ModelMessage::Loading { label }).language() is None,
        (ModelMessage::LoadFailed { label, error, language }).language() == Some(language),
        (ModelMessage::RenderFailed { label, error: text, language }).language() == Some(language),
        (ModelMessage::LoadedWithWarnings { summary: text, language }).language() == Some(language),
{
}

/// A model is called what its file is called before the ending of model definitions; a file
/// that is called otherwise, or nothing but the ending, gives no name.
pub proof fn model_is_called_after_its_file(base: Seq<char>, file_name: Option<Seq<char>>)
    ensures
        base.len() > 0 ==> display_name_of(Some(base + ".model3.json"@)) == Some(base),
        display_name_of(Some(".model3.json"@)) is None,
        display_name_of(None) is None,
        display_name_of(file_name) matches Some(name) ==> name.len() > 0 && file_name == Some(
            name + ".model3.json"@,
        ),
{
    let suffix = ".model3.json"@;
    let whole = base + suffix;
    assert(whole.skip(whole.len() - suffix.len()) =~= suffix);
    assert(whole.take(whole.len() - suffix.len()) =~= base);
    if let Some(name) = display_name_of(file_name) {
        let file = file_name->0;
        assert(file =~= file.take(file.len() - suffix.len()) + file.skip(
            file.len() - suffix.len(),
        ));
    }
}

/// A name is the display name of the file, or the stand-in of the language that is spoken.
pub proof fn name_is_that_of_the_file(
    name: ModelName,
    file_name: Option<Seq<char>>,
    language: AppLanguage,
)
    requires
        is_called(name, file_name, language),
    ensures
        name matches ModelName::Named(text) ==> display_name_of(file_name) == Some(text@),
        name matches ModelName::Unnamed(spoken) ==> display_name_of(file_name) is None && spoken
            == language,
        (ModelLabel { model: None, language }).file_name() is None,
{
}

/// A label names the file of its model.
pub proof fn label_names_its_file(path: ModelPath, language: AppLanguage)
    ensures
        path.file_name matches Some(file) ==> (ModelLabel {
            model: Some(path),
            language,
        }).file_name() == Some(file@),
        path.file_name is None ==> (ModelLabel { model: Some(path), language }).file_name() is None,
{
}

/// The result of loading on the processor is taken as it is: a model that has come up is
/// ready and on screen where the window is, with its warnings; one that has not says why.
pub proof fn processor_result_is_taken(
    pet: DesktopPetView,
    loaded: LoadedModelGeneration,
    label: ModelLabel,
    error: ModelGenerationLoadError,
)
    ensures
        ({
            let up = pet.with_cpu_loaded(loaded);
            &&& loaded.diagnostics_summary is None ==> up.model.state == (ModelLoadState::Ready {
                warning: None,
            })
            &&& loaded.diagnostics_summary matches Some(summary) ==> up.model.state == (
            ModelLoadState::Ready {
                warning: Some(
                    ModelMessage::LoadedWithWarnings { summary, language: pet.language },
                ),
            })
            &&& pet.window.visible ==> up.paint.frame == Some(loaded.frame)
            &&& !pet.window.visible ==> up.paint == pet.paint
            &&& !up.underlay.cpu_fallback_pending
            &&& up.underlay.attached == pet.underlay.attached
            &&& up.model.selected == pet.model.selected
            &&& up.model.generation == pet.model.generation
            &&& up.model.commands == pet.model.commands
            &&& up.window == pet.window
            &&& up.voice == pet.voice
            &&& up.chat == pet.chat
            &&& pet.cpu_loaded_actions(loaded).len() >= 3
            &&& pet.cpu_loaded_actions(loaded).skip(pet.cpu_loaded_actions(loaded).len() - 3)
                == seq![
                PetAction::PublishPreviewCapabilities,
                PetAction::PublishAgentOutfits,
                PetAction::Notify,
            ]
        }),
        ({
            let down = pet.with_cpu_load_failure(label, error.text());
            &&& error matches ModelGenerationLoadError::Model(cause) ==> down.model.state
                == ModelLoadState::Failed(
                ModelMessage::LoadFailed {
                    label,
                    error: LoadErrorText::Plain(cause.text),
                    language: pet.language,
                },
            )
            &&& error matches ModelGenerationLoadError::InitialFrame(cause) ==> down.model.state
                == ModelLoadState::Failed(
                ModelMessage::LoadFailed {
                    label,
                    error: LoadErrorText::InitialFrame(cause.text),
                    language: pet.language,
                },
            )
            &&& down.paint.frame is None
            &&& !down.model.commands
            &&& !down.model.wake
            &&& !down.model.frame_rate_wake
            &&& !down.model.cancellation
            &&& !down.gaze.tracking
            &&& !down.underlay.cpu_fallback_pending
            &&& down.model.selected == pet.model.selected
            &&& down.model.generation == pet.model.generation
            &&& down.model.task == pet.model.task
            &&& down.window == pet.window
            &&& down.voice == pet.voice
            &&& down.chat == pet.chat
            &&& pet.cpu_load_failure_actions() == seq![
                PetAction::ClearPreviewCapabilities,
                PetAction::ClearAgentOutfits,
            ] + given(pet.gaze.tracking, PetAction::StopCursorTracking) + given(
                pet.model.wake,
                PetAction::CloseModelWake,
            ) + given(pet.model.frame_rate_wake, PetAction::CloseFrameRateWake) + seq![
                PetAction::Notify,
            ]
        }),
        error matches ModelGenerationLoadError::Model(cause) ==> error.cancelled()
            == cause.cancelled,
        error matches ModelGenerationLoadError::InitialFrame(cause) ==> error.cancelled()
            == cause.cancelled,
{
    reveal(DesktopPetView::cpu_load_failure_actions);
    let actions = pet.cpu_loaded_actions(loaded);
    assert(actions.skip(actions.len() - 3) =~= seq![
        PetAction::PublishPreviewCapabilities,
        PetAction::PublishAgentOutfits,
        PetAction::Notify,
    ]);
}

/// A rendered frame is put on screen where the window is; a renderer that failed ends the
/// generation with what went wrong.
pub proof fn frame_is_shown_or_ends_the_model(
    pet: DesktopPetView,
    frame: FrameRef,
    label: ModelLabel,
    error: String,
)
    ensures
        ({
            let shown = pet.with_rendered_frame(frame);
            &&& pet.window.visible ==> shown.paint.frame == Some(frame)
            &&& !pet.window.visible ==> shown == pet && pet.rendered_frame_actions(frame).len()
                == 0
            &&& pet.window.visible ==> pet.rendered_frame_actions(frame).last()
                == PetAction::Notify
            &&& pet.window.visible && pet.paint.frame is Some ==> pet.rendered_frame_actions(
                frame,
            ).len() == 1 && shown.gaze == pet.gaze
            &&& shown.model == pet.model
            &&& shown.window == pet.window
            &&& shown.paint.show_fps == pet.paint.show_fps
            &&& shown.paint.current_image == pet.paint.current_image
        }),
        ({
            let failed = pet.with_render_failure(label, error);
            &&& failed.model.state == ModelLoadState::Failed(
                ModelMessage::RenderFailed { label, error, language: pet.language },
            )
            &&& failed.paint.frame is None
            &&& !failed.model.commands
            &&& !failed.model.wake
            &&& !failed.model.frame_rate_wake
            &&& !failed.model.cancellation
            &&& !failed.gaze.tracking
            &&& failed.model.selected == pet.model.selected
            &&& failed.model.generation == pet.model.generation
            &&& failed.window == pet.window
            &&& failed.underlay == pet.underlay
            &&& pet.render_failure_actions() == given(
                pet.gaze.tracking,
                PetAction::StopCursorTracking,
            ) + seq![PetAction::ClearPreviewCapabilities, PetAction::ClearAgentOutfits] + given(
                pet.model.cancellation,
                PetAction::CancelModel,
            ) + given(pet.model.wake, PetAction::CloseModelWake) + given(
                pet.model.frame_rate_wake,
                PetAction::CloseFrameRateWake,
            ) + seq![PetAction::Notify]
        }),
{
    reveal(DesktopPetView::render_failure_actions);
}

/// The graphics worker is heard about the current generation while it is attached: a model
/// that has come up there is ready, with the newest frame that it presented.
pub proof fn worker_brings_up_the_model(
    pet: DesktopPetView,
    generation: u64,
    frame: FrameRef,
    diagnostics_summary: Option<String>,
    latest: Option<PresentedFrame>,
)
    requires
        pet.model.generation == generation,
        pet.underlay.attached,
    ensures
        ({
            let event = GpuUnderlayEvent::ModelLoaded {
                generation,
                frame,
                diagnostics_summary,
                latest,
            };
            let after = pet.after_gpu_event(event);
            let actions = pet.gpu_event_actions(event);
            let newest = match latest {
                Some(presented) if presented.generation == generation => presented.frame,
                _ => frame,
            };
            &&& after.model.state is Ready
            &&& diagnostics_summary is None ==> after.model.state == (ModelLoadState::Ready {
                warning: None,
            })
            &&& diagnostics_summary matches Some(summary) ==> after.model.state == (
            ModelLoadState::Ready {
                warning: Some(
                    ModelMessage::LoadedWithWarnings { summary, language: pet.language },
                ),
            })
            &&& pet.window.visible ==> after.paint.frame == Some(newest)
            &&& !pet.window.visible ==> after.paint == pet.paint
            &&& !after.underlay.cpu_fallback_pending
            &&& after.underlay.attached
            &&& after.model.selected == pet.model.selected
            &&& after.model.generation == generation
            &&& after.window == pet.window
            &&& after.voice == pet.voice
            &&& actions.skip(actions.len() - 3) == seq![
                PetAction::PublishPreviewCapabilities,
                PetAction::PublishAgentOutfits,
                PetAction::Notify,
            ]
            &&& pet.paint.show_fps && pet.window.visible ==> actions[0]
                == PetAction::RecordEventFrame
            &&& pet.paint.show_fps && pet.window.visible && (latest matches Some(presented)
                && presented.generation == generation) ==> actions[1]
                == PetAction::RecordTakenFrame
            &&& !pet.gpu_event_is_fatal(event)
        }),
{
    reveal(DesktopPetView::count_actions);
    let event = GpuUnderlayEvent::ModelLoaded { generation, frame, diagnostics_summary, latest };
    let actions = pet.gpu_event_actions(event);
    assert(actions.skip(actions.len() - 3) =~= seq![
        PetAction::PublishPreviewCapabilities,
        PetAction::PublishAgentOutfits,
        PetAction::Notify,
    ]);
}

/// A newer frame of the current generation is put on screen where the window is, and drawn
/// only if nothing was on screen before; a model that did not come up says why.
pub proof fn worker_frames_and_errors_are_taken(
    pet: DesktopPetView,
    generation: u64,
    latest: Option<PresentedFrame>,
    error: String,
)
    requires
        pet.model.generation == generation,
        pet.underlay.attached,
    ensures
        ({
            let event = GpuUnderlayEvent::FrameAvailable { generation, latest };
            let after = pet.after_gpu_event(event);
            let fresh = latest matches Some(presented) && presented.generation == generation;
            &&& fresh && pet.window.visible ==> after.paint.frame == Some(latest->0.frame)
            &&& !(fresh && pet.window.visible) ==> after == pet && pet.gpu_event_actions(
                event,
            ).len() == 0
            &&& fresh && pet.window.visible && pet.paint.frame is Some ==> pet.gpu_event_actions(
                event,
            ) == given(pet.paint.show_fps, PetAction::RecordTakenFrame)
            &&& fresh && pet.window.visible && pet.paint.frame is None ==> pet.gpu_event_actions(
                event,
            ).last() == PetAction::Notify
            &&& after.model == pet.model
            &&& !pet.gpu_event_is_fatal(event)
        }),
        ({
            let event = GpuUnderlayEvent::ModelLoadFailed { generation, error };
            let after = pet.after_gpu_event(event);
            &&& after.model.state == ModelLoadState::Failed(
                ModelMessage::LoadFailed {
                    label: ModelLabel { model: pet.model.selected, language: pet.language },
                    error: LoadErrorText::Plain(error),
                    language: pet.language,
                },
            )
            &&& after.paint.frame is None
            &&& !after.model.commands
            &&& !after.gaze.tracking
            &&& after.model.selected == pet.model.selected
            &&& after.underlay == pet.underlay
            &&& after.window == pet.window
            &&& pet.gpu_event_actions(event) == given(
                pet.gaze.tracking,
                PetAction::StopCursorTracking,
            ) + seq![
                PetAction::ClearPreviewCapabilities,
                PetAction::ClearAgentOutfits,
                PetAction::Notify,
            ]
            &&& !pet.gpu_event_is_fatal(event)
        }),
{
}

/// A report about another generation, or from a worker that is not attached, changes nothing;
/// a worker that failed, or is not there, ends the reading of its reports.
pub proof fn only_current_reports_count(pet: DesktopPetView, generation: u64)
    ensures
        pet.gpu_report_is_current(generation) <==> generation == pet.model.generation
            && pet.underlay.attached,
        pet.gpu_event_is_fatal(GpuUnderlayEvent::Unavailable),
        pet.gpu_event_is_fatal(GpuUnderlayEvent::ModelGpuFailed { generation }) <==> generation
            == pet.model.generation && pet.underlay.attached,
        pet.counts_frames() <==> pet.paint.show_fps && pet.window.visible,
        pet.after_gpu_event(GpuUnderlayEvent::Unavailable) == pet.fallen_back(),
        generation == pet.model.generation && pet.underlay.attached ==> pet.after_gpu_event(
            GpuUnderlayEvent::ModelGpuFailed { generation },
        ) == pet.fallen_back(),
{
}

/// A worker that fails is let go, and its model follows on the processor once the worker has
/// stopped, into the raster of the processor.
pub proof fn failing_worker_is_let_go(pet: DesktopPetView)
    requires
        pet.underlay.attached,
        !pet.underlay.shutdown_pending,
        !pet.underlay.quitting,
    ensures
        ({
            let after = pet.fallen_back();
            &&& !after.underlay.attached
            &&& !after.underlay.events
            &&& after.underlay.shutdown_pending
            &&& after.underlay.restart_cpu
            &&& after.underlay.cpu_fallback_pending
            &&& !after.gaze.tracking
            &&& !after.model.cancellation
            &&& after.window.raster == pet.window.cpu_raster
            &&& after.model.selected == pet.model.selected
            &&& after.model.state == pet.model.state
            &&& after.model.generation == pet.model.generation
            &&& after.window.visible == pet.window.visible
            &&& after.voice == pet.voice
            &&& after.chat == pet.chat
            &&& pet.fallback_actions() == given(pet.model.cancellation, PetAction::CancelModel)
                + given(pet.underlay.events, PetAction::StopUnderlayEvents) + given(
                pet.gaze.tracking,
                PetAction::StopCursorTracking,
            ) + seq![PetAction::BeginUnderlayShutdown { generation: pet.model.generation }]
        }),
{
    assert(pet.fallback_actions() =~= given(pet.model.cancellation, PetAction::CancelModel) + given(
        pet.underlay.events,
        PetAction::StopUnderlayEvents,
    ) + given(pet.gaze.tracking, PetAction::StopCursorTracking) + seq![
        PetAction::BeginUnderlayShutdown { generation: pet.model.generation },
    ]);
}

/// One that fails while it is stopping only leaves word that the model is to follow on the
/// processor; with no worker left, the model follows at once.
pub proof fn late_failure_moves_the_model(pet: DesktopPetView)
    requires
        !pet.underlay.quitting,
    ensures
        pet.underlay.shutdown_pending ==> {
            let after = pet.fallen_back();
            &&& after.underlay.restart_cpu
            &&& after.underlay.cpu_fallback_pending
            &&& after.underlay.shutdown_pending
            &&& after.window.raster == pet.window.cpu_raster
            &&& after.model.selected == pet.model.selected
            &&& after.model.generation == pet.model.generation
            &&& pet.fallback_actions() == given(pet.model.cancellation, PetAction::CancelModel)
        },
        !pet.underlay.shutdown_pending && !pet.underlay.attached ==> {
            let after = pet.fallen_back();
            &&& after.model.selected == pet.model.selected
            &&& after.window.raster == pet.window.cpu_raster
            &&& pet.model.selected is Some ==> after.model.generation == revision_after(
                pet.model.generation,
            ) && after.model.task && after.model.state is Loading
        },
{
}

/// Once the worker has stopped, the window goes if it is to be closed; otherwise the worker
/// comes back if the window has, or the model follows on the processor if that was meant.
pub proof fn stopped_worker_is_followed_up(
    pet: DesktopPetView,
    generation: u64,
    path: Option<ModelPath>,
)
    ensures
        ({
            let after = pet.shutdown_finished(generation, path);
            let actions = pet.shutdown_finished_actions(generation, path);
            let closes = pet.underlay.close_after_shutdown;
            let comes_back = !closes && pet.underlay.restore_pending && pet.window.visible;
            let moves = !closes && !comes_back && pet.underlay.restart_cpu && pet.model.generation
                == generation;
            &&& !after.underlay.shutdown_pending
            &&& closes ==> actions == seq![PetAction::RemoveWindow] && after.model == pet.model
            &&& comes_back ==> !after.underlay.restore_pending && after.model == pet.model && actions
                == given(
                !pet.underlay.attached && pet.underlay.released_for_hidden
                    && !pet.underlay.quitting,
                PetAction::AttachUnderlay,
            )
            &&& moves ==> after.model.selected == path
            &&& moves && path is Some ==> after.model.generation == revision_after(generation)
                && after.model.state is Loading && actions.last() == (if pet.underlay.attached {
                PetAction::LoadOnUnderlay {
                    generation: after.model.generation,
                    has_model: true,
                }
            } else {
                PetAction::StartCpuModel { generation: after.model.generation }
            })
            &&& !closes && !comes_back && !moves ==> actions.len() == 0 && after.model == pet.model
            &&& after.window == pet.window
            &&& after.voice == pet.voice
        }),
{
    reveal(DesktopPetView::reselect_actions);
    reveal(DesktopPetView::drop_generation_actions);
}

/// A worker that comes back after the window was hidden takes over the selected model; where
/// none could be had, the model stays on or moves to the processor.
pub proof fn returned_worker_takes_over(pet: DesktopPetView, outcome: AttachOutcome)
    ensures
        ({
            let after = pet.restored(outcome);
            let may = !pet.underlay.attached && pet.underlay.released_for_hidden
                && !pet.underlay.quitting;
            &&& !may ==> after == pet && pet.restore_actions(outcome).len() == 0
            &&& may ==> {
                &&& after.underlay.attached == (outcome == AttachOutcome::Attached)
                &&& !after.underlay.released_for_hidden
                &&& !after.underlay.restore_pending
                &&& !after.underlay.restart_cpu
                &&& after.underlay.events == (pet.underlay.events || outcome
                    == AttachOutcome::Attached)
                &&& after.model.selected == pet.model.selected
                &&& after.model.generation == (if outcome == AttachOutcome::Attached || (
                !pet.model.task && pet.model.selected is Some) {
                    revision_after(pet.model.generation)
                } else {
                    pet.model.generation
                })
                &&& after.window == pet.window
                &&& after.voice == pet.voice
            }
            &&& may && outcome == AttachOutcome::Attached && !pet.underlay.events
                ==> pet.restore_actions(outcome)[0] == PetAction::StartUnderlayEvents
            &&& may && outcome == AttachOutcome::Attached && pet.model.selected is Some
                ==> pet.restore_actions(outcome).last() == (PetAction::LoadOnUnderlay {
                generation: revision_after(pet.model.generation),
                has_model: true,
            })
            &&& may && outcome != AttachOutcome::Attached && !pet.model.task
                && pet.model.selected is Some ==> pet.restore_actions(outcome).last() == (
            PetAction::StartCpuModel { generation: revision_after(pet.model.generation) })
            &&& may && outcome != AttachOutcome::Attached && (pet.model.task
                || pet.model.selected is None) ==> pet.restore_actions(outcome).len() == 0
        }),
{
    reveal(DesktopPetView::drop_generation_actions);
}

/// Reports that break off give up an attached worker, and nothing else.
pub proof fn broken_off_reports_give_up_the_worker(pet: DesktopPetView)
    ensures
        !pet.after_channel_closed().underlay.events,
        !pet.underlay.attached ==> pet.after_channel_closed().model == pet.model
            && pet.after_channel_closed().window == pet.window,
        pet.underlay.attached && !pet.underlay.shutdown_pending && !pet.underlay.quitting ==> {
            &&& !pet.after_channel_closed().underlay.attached
            &&& pet.after_channel_closed().underlay.restart_cpu
            &&& pet.after_channel_closed().model.selected == pet.model.selected
        },
{
}

/// An outfit is put on only for a visible pet, where that is allowed and still wanted, and it
/// is the one asked for: a variant by its identifier, an expression by its name.
pub proof fn asked_outfit_is_put_on(
    pet: DesktopPetView,
    allowed: bool,
    current: bool,
    action: Option<OutfitAction>,
    id: String,
)
    ensures
        ({
            let may = pet.window.visible && allowed && current;
            let refused = seq![PetAction::CompleteOutfitRequest(false)];
            &&& !may || action is None ==> pet.outfit_request_actions(allowed, current, action)
                == refused
            &&& may ==> {
                &&& pet.outfit_request_actions(allowed, current, Some(OutfitAction::Unchanged))
                    == seq![PetAction::CompleteOutfitRequest(true)]
                &&& pet.outfit_request_actions(
                    allowed,
                    current,
                    Some(OutfitAction::LoadVariant(id)),
                ) == seq![PetAction::CommitOutfit(OutfitAction::LoadVariant(id))]
                &&& pet.outfit_request_actions(
                    allowed,
                    current,
                    Some(OutfitAction::PreviewExpression(id)),
                ) == (if pet.model.commands {
                    seq![PetAction::SendModelCommand(ModelCommand::PreviewExpression(id))]
                } else {
                    refused
                })
                &&& pet.outfit_request_actions(
                    allowed,
                    current,
                    Some(OutfitAction::ResetExpression),
                ) == (if pet.model.commands {
                    seq![PetAction::SendModelCommand(ModelCommand::ResetExpression)]
                } else {
                    refused
                })
            }
        }),
{
}

/// A variant that was stored is loaded, and the request is answered last: done, if the model
/// was not there already.
pub proof fn stored_variant_is_loaded(pet: DesktopPetView, path: ModelPath)
    ensures
        ({
            let actions = pet.outfit_variant_actions(Some(path));
            &&& actions.last() == PetAction::CompleteOutfitRequest(
                !is_there_already(pet, Some(path), false),
            )
            &&& actions.drop_last() == pet.load_actions(Some(path), false)
            &&& pet.outfit_variant_actions(None) == seq![PetAction::CompleteOutfitRequest(false)]
        }),
{
    assert(pet.outfit_variant_actions(Some(path)).drop_last() =~= pet.load_actions(
        Some(path),
        false,
    ));
}

/// The window starts visible, on the model that it is set up with, with everything else as
/// the setup says and nothing under way.
pub proof fn window_starts_as_set_up(setup: PetSetup)
    ensures
        ({
            let first = DesktopPetView::initial_state(setup);
            let attached = setup.underlay == AttachOutcome::Attached;
            &&& first.model.selected is None
            &&& first.model.state is NoModel
            &&& first.model.generation == 0
            &&& !first.model.commands && !first.model.wake && !first.model.frame_rate_wake
                && !first.model.cancellation && !first.model.task
            &&& first.paint.frame is None && first.paint.current_image is None
                && first.paint.previous_image is None
            &&& first.paint.show_fps == setup.show_fps && first.paint.fps_sampling
                == setup.show_fps
            &&& first.gaze.tracker_available == setup.cursor_tracker_available
                && first.gaze.enabled == setup.eye_tracking_enabled && !first.gaze.tracking
            &&& first.underlay.attached == attached && first.underlay.events == attached
            &&& first.underlay.cpu_fallback_pending == (setup.underlay == AttachOutcome::Failed)
            &&& !first.underlay.shutdown_pending && !first.underlay.restart_cpu
                && !first.underlay.released_for_hidden && !first.underlay.restore_pending
                && !first.underlay.close_after_shutdown && !first.underlay.quitting
            &&& first.window.visible && first.window.visibility_revision == 0
                && first.window.pending_size is None && first.window.pending_size_attempts == 0
                && first.window.config_window is None && first.window.tray_menu_window is None
            &&& first.window.tray_available == setup.tray_available
            &&& first.window.cpu_raster == setup.raster && first.window.gpu_raster
                == setup.gpu_raster && first.window.raster == (if attached {
                setup.gpu_raster
            } else {
                setup.raster
            })
            &&& first.voice.available == setup.voice_available && first.voice.playback_available
                == setup.playback_available && first.voice.mode == setup.voice_mode
                && !first.voice.levels && !first.voice.release_timer
            &&& setup.voice_available ==> first.voice.revision == setup.voice_revision
                && first.voice.phase == setup.voice_phase
            &&& !setup.voice_available ==> first.voice.revision == 0 && first.voice.phase
                == VoicePhase::Idle
            &&& !first.chat.input_open && first.chat.overlay_visible == setup.chat_overlay_visible
                && first.chat.thinking_feedback == setup.chat_thinking_feedback
            &&& first.shortcuts.available == setup.shortcuts_available
                && first.shortcuts.runtime_errors == setup.shortcut_errors
            &&& first.language == setup.language
            &&& DesktopPetView::setup_actions(setup) == given(
                setup.shortcut_errors@.len() > 0,
                PetAction::ReportShortcutErrors,
            ) + seq![PetAction::SyncTrayAppearance] + given(
                setup.show_fps,
                PetAction::StartFpsSampling,
            ) + given(attached, PetAction::StartUnderlayEvents)
        }),
{
    reveal(DesktopPetView::setup_actions);
}

/// Waking the model wakes whatever renders it.
pub proof fn model_is_woken_where_it_is_rendered(pet: DesktopPetView)
    ensures
        pet.wake_model_actions() == given(pet.underlay.attached, PetAction::WakeUnderlay) + given(
            pet.model.wake,
            PetAction::WakeModel,
        ),
        pet.call_off_actions() == given(pet.model.cancellation, PetAction::CancelModel) + given(
            pet.model.wake,
            PetAction::CloseModelWake,
        ) + given(pet.model.frame_rate_wake, PetAction::CloseFrameRateWake),
{
}

/// Asking for a model again loads it even where it is selected already.
pub proof fn reselected_model_is_loaded_again(pet: DesktopPetView, path: ModelPath)
    ensures
        ({
            let after = pet.reselected(Some(path));
            &&& after.model.selected == Some(path)
            &&& after.model.generation == revision_after(pet.model.generation)
            &&& after.model.state == ModelLoadState::Loading(
                ModelLabel { model: Some(path), language: pet.language },
            )
            &&& after.window == pet.window
            &&& after.voice == pet.voice
            &&& pet.reselect_actions(Some(path)).last() == (if pet.underlay.attached {
                PetAction::LoadOnUnderlay {
                    generation: after.model.generation,
                    has_model: true,
                }
            } else {
                PetAction::StartCpuModel { generation: after.model.generation }
            })
        }),
{
    reveal(DesktopPetView::reselect_actions);
    reveal(DesktopPetView::drop_generation_actions);
}

/// Stopping the worker begins with a worker that is there; without one, a model that is to
/// move to the processor is loaded there at once, and nothing happens otherwise.
pub proof fn worker_is_stopped_or_left_behind(
    pet: DesktopPetView,
    generation: u64,
    path: Option<ModelPath>,
)
    ensures
        ({
            let after = pet.shut_down(generation, path);
            let actions = pet.shut_down_actions(generation, path);
            let moves = !pet.underlay.attached && pet.underlay.restart_cpu && generation
                == pet.model.generation;
            &&& pet.underlay.attached ==> {
                &&& !after.underlay.attached && !after.underlay.events
                    && after.underlay.shutdown_pending && !after.gaze.tracking
                &&& (DesktopPetView {
                    gaze: GazeState { tracking: pet.gaze.tracking, ..after.gaze },
                    underlay: UnderlayState {
                        attached: true,
                        events: pet.underlay.events,
                        shutdown_pending: pet.underlay.shutdown_pending,
                        ..after.underlay
                    },
                    ..after
                }) == pet
                &&& actions == given(pet.underlay.events, PetAction::StopUnderlayEvents) + given(
                    pet.gaze.tracking,
                    PetAction::StopCursorTracking,
                ) + seq![PetAction::BeginUnderlayShutdown { generation }]
            }
            &&& moves ==> after == pet.reselected(path) && actions == pet.reselect_actions(path)
            &&& !pet.underlay.attached && !moves ==> after == pet && actions.len() == 0
        }),
{
}

/// A model is unselected before it is asked for again, so that the same path counts as new
/// while the model is loading or loaded; asking for none then changes nothing.
pub proof fn asking_again_starts_from_no_model(pet: DesktopPetView)
    ensures
        pet.with_model_unselected().model.selected is None,
        (DesktopPetView {
            model: ModelSlot { selected: pet.model.selected, ..pet.with_model_unselected().model },
            ..pet.with_model_unselected()
        }) == pet,
        pet.model.state is Loading || pet.model.state is Ready ==> pet.reselected(None)
            == pet.with_model_unselected(),
        !(pet.model.state is Loading || pet.model.state is Ready) ==> pet.reselected(
            None,
        ).model.state is NoModel && pet.reselected(None).model.generation == revision_after(
            pet.model.generation,
        ),
        pet.reselected(None).model.selected is None,
{
}

/// A window that is released lets go of everything that it still holds.
pub proof fn released_window_holds_nothing(pet: DesktopPetView)
    ensures
        pet.release_actions() == (given(pet.model.cancellation, PetAction::CancelModel) + given(
            pet.model.wake,
            PetAction::CloseModelWake,
        ) + given(pet.model.frame_rate_wake, PetAction::CloseFrameRateWake)) + given(
            pet.underlay.attached,
            PetAction::ShutdownUnderlay,
        ) + given(pet.voice.available, PetAction::RequestVoiceShutdown) + given(
            pet.voice.playback_available,
            PetAction::StopPlayback,
        ) + pet.close_tray_actions() + pet.paint.release_actions(),
{
    reveal(DesktopPetView::release_actions);
}

/// The reports of a worker are read once it is attached, and only once.
pub proof fn reports_are_read_once(pet: DesktopPetView)
    ensures
        pet.starts_events() <==> pet.underlay.attached && !pet.underlay.events,
        pet.wake_frame_rate_actions() == given(pet.underlay.attached, PetAction::WakeUnderlay)
            + given(pet.model.frame_rate_wake, PetAction::WakeFrameRate),
{
}

/// The warning of a loaded model is put into the language that is spoken now; a model that is
/// not loaded has none to put.
pub proof fn warning_follows_the_language(
    state: ModelLoadState,
    summary: String,
    language: AppLanguage,
)
    ensures
        state is Ready ==> state.with_warning(None, language) == (ModelLoadState::Ready {
            warning: None,
        }),
        state is Ready ==> state.with_warning(Some(summary), language) == (ModelLoadState::Ready {
            warning: Some(ModelMessage::LoadedWithWarnings { summary, language }),
        }),
        !(state is Ready) ==> state.with_warning(Some(summary), language) == state
            && state.with_warning(None, language) == state,
{
}

/// Whether nothing differs but the model, the frame on screen, whether the cursor is followed,
/// and whether the processor is a fallback.
pub open spec fn same_but_model(after: DesktopPetView, before: DesktopPetView) -> bool {
    &&& (PaintState { frame: before.paint.frame, ..after.paint }) == before.paint
    &&& (GazeState { tracking: before.gaze.tracking, ..after.gaze }) == before.gaze
    &&& (UnderlayState {
        cpu_fallback_pending: before.underlay.cpu_fallback_pending,
        ..after.underlay
    }) == before.underlay
    &&& after.window == before.window
    &&& after.voice == before.voice
    &&& after.chat == before.chat
    &&& after.shortcuts == before.shortcuts
    &&& after.language == before.language
}

/// Whether nothing of the model differs but its state and the handles on it.
pub open spec fn same_model_slot(after: ModelSlot, before: ModelSlot) -> bool {
    &&& after.selected == before.selected
    &&& after.generation == before.generation
    &&& after.task == before.task
}

/// Loading is about the model alone.
pub proof fn loading_leaves_the_rest(pet: DesktopPetView, path: Option<ModelPath>, force: bool)
    ensures
        same_but_model(pet.loaded_with(path, force), pet),
{
}

/// So is loading again.
pub proof fn loading_again_leaves_the_rest(pet: DesktopPetView, path: Option<ModelPath>)
    ensures
        same_but_model(pet.reselected(path), pet),
{
    loading_leaves_the_rest(pet.with_model_unselected(), path, false);
}

/// A model that comes up on the processor changes its state and what is on screen, and
/// nothing else.
pub proof fn coming_up_leaves_the_rest(pet: DesktopPetView, loaded: LoadedModelGeneration)
    ensures
        ({
            let up = pet.with_cpu_loaded(loaded);
            &&& same_but_model(up, pet)
            &&& (ModelSlot { state: pet.model.state, ..up.model }) == pet.model
            &&& pet.window.visible ==> up.gaze.tracking == up.tracks_cursor()
        }),
{
}

/// A model that fails on the processor leaves what it was, and nothing else.
pub proof fn failing_leaves_the_rest(
    pet: DesktopPetView,
    label: ModelLabel,
    error: LoadErrorText,
    text: String,
)
    ensures
        ({
            let down = pet.with_cpu_load_failure(label, error);
            &&& same_but_model(down, pet)
            &&& same_model_slot(down.model, pet.model)
        }),
        ({
            let failed = pet.with_render_failure(label, text);
            &&& same_but_model(failed, pet)
            &&& same_model_slot(failed.model, pet.model)
            &&& failed.underlay == pet.underlay
        }),
{
}

/// A rendered frame changes what is on screen, and nothing else.
pub proof fn rendering_leaves_the_rest(pet: DesktopPetView, frame: FrameRef)
    ensures
        ({
            let shown = pet.with_rendered_frame(frame);
            &&& same_but_model(shown, pet)
            &&& shown.model == pet.model
            &&& shown.underlay == pet.underlay
            &&& pet.window.visible && pet.paint.frame is None ==> shown.gaze.tracking
                == shown.tracks_cursor()
        }),
{
    if !pet.window.visible {
        assert(pet.with_rendered_frame(frame) == pet);
    } else if pet.paint.frame is None {
        let painted = pet.with_visible_frame(frame);
        assert(pet.with_rendered_frame(frame) == painted.with_cursor_synced());
    } else {
        assert(pet.with_rendered_frame(frame) == pet.with_visible_frame(frame));
    }
}

/// A model that comes up on the worker changes its state and what is on screen, and nothing
/// else; a report of another model changes nothing.
pub proof fn coming_up_on_the_worker_leaves_the_rest(
    pet: DesktopPetView,
    generation: u64,
    frame: FrameRef,
    diagnostics_summary: Option<String>,
    latest: Option<PresentedFrame>,
)
    ensures
        ({
            let event = GpuUnderlayEvent::ModelLoaded {
                generation,
                frame,
                diagnostics_summary,
                latest,
            };
            let after = pet.after_gpu_event(event);
            let current = generation == pet.model.generation && pet.underlay.attached;
            &&& same_but_model(after, pet)
            &&& (ModelSlot { state: pet.model.state, ..after.model }) == pet.model
            &&& !current ==> after == pet && pet.gpu_event_actions(event).len() == 0
        }),
{
}

/// A frame of the worker changes what is on screen, and nothing else.
pub proof fn worker_frames_leave_the_rest(
    pet: DesktopPetView,
    generation: u64,
    latest: Option<PresentedFrame>,
)
    ensures
        ({
            let event = GpuUnderlayEvent::FrameAvailable { generation, latest };
            let after = pet.after_gpu_event(event);
            let current = generation == pet.model.generation && pet.underlay.attached;
            &&& same_but_model(after, pet)
            &&& after.model == pet.model
            &&& !current ==> after == pet && pet.gpu_event_actions(event).len() == 0
        }),
{
    if let Some(presented) = latest {
        rendering_leaves_the_rest(pet, presented.frame);
    }
}

/// A model that fails on the worker leaves what it was, and nothing else; a worker that fails
/// itself counts only where it is the current one.
pub proof fn failing_on_the_worker_leaves_the_rest(
    pet: DesktopPetView,
    generation: u64,
    error: String,
)
    ensures
        ({
            let failed = GpuUnderlayEvent::ModelLoadFailed { generation, error };
            let broken = GpuUnderlayEvent::ModelGpuFailed { generation };
            let after = pet.after_gpu_event(failed);
            let current = generation == pet.model.generation && pet.underlay.attached;
            &&& same_but_model(after, pet)
            &&& (ModelSlot {
                state: pet.model.state,
                commands: pet.model.commands,
                ..after.model
            }) == pet.model
            &&& !current ==> after == pet && pet.gpu_event_actions(failed).len() == 0
            &&& !current ==> pet.after_gpu_event(broken) == pet && pet.gpu_event_actions(
                broken,
            ).len() == 0
            &&& current ==> pet.gpu_event_actions(broken) == pet.fallback_actions()
            &&& pet.gpu_event_actions(GpuUnderlayEvent::Unavailable) == pet.fallback_actions()
        }),
{
}

/// A worker that fails while the application is left leaves with it.
pub proof fn failing_worker_does_not_hold_up_leaving(pet: DesktopPetView)
    requires
        pet.underlay.quitting,
    ensures
        ({
            let after = pet.fallen_back();
            &&& after.underlay.quitting
            &&& after.underlay.cpu_fallback_pending
            &&& !after.underlay.restart_cpu
            &&& after.underlay.attached == (pet.underlay.attached && pet.underlay.shutdown_pending)
            &&& after.underlay.shutdown_pending == pet.underlay.shutdown_pending
            &&& after.window.raster == pet.window.cpu_raster
            &&& !after.gaze.tracking
            &&& !after.voice.release_timer
            &&& !after.model.cancellation
            &&& after.model.selected == pet.model.selected
            &&& after.model.generation == pet.model.generation
            &&& after.model.state == pet.model.state
            &&& after.paint == pet.paint
            &&& after.chat == pet.chat
        }),
{
}

/// Whether nothing of a worker differs but whether it is there, is heard and is stopping, and
/// what becomes of it then.
pub open spec fn same_plans(after: UnderlayState, before: UnderlayState) -> bool {
    &&& after.quitting == before.quitting
    &&& after.close_after_shutdown == before.close_after_shutdown
}

/// Stopping, coming back and falling back are about the worker and its model, and leave the
/// window, the voice, the chat and the pictures but for the frame as they are.
pub proof fn worker_changes_leave_the_rest(
    pet: DesktopPetView,
    generation: u64,
    path: Option<ModelPath>,
    outcome: AttachOutcome,
)
    ensures
        ({
            let stopped = pet.shutdown_finished(generation, path);
            &&& same_plans(stopped.underlay, pet.underlay)
            &&& stopped.underlay.attached == pet.underlay.attached
            &&& stopped.underlay.events == pet.underlay.events
            &&& stopped.underlay.restart_cpu == pet.underlay.restart_cpu
            &&& stopped.underlay.released_for_hidden == pet.underlay.released_for_hidden
            &&& (PaintState { frame: pet.paint.frame, ..stopped.paint }) == pet.paint
            &&& stopped.chat == pet.chat && stopped.shortcuts == pet.shortcuts && stopped.language
                == pet.language && stopped.gaze.enabled == pet.gaze.enabled
        }),
        ({
            let back = pet.restored(outcome);
            &&& same_plans(back.underlay, pet.underlay)
            &&& back.underlay.shutdown_pending == pet.underlay.shutdown_pending
            &&& (PaintState { frame: pet.paint.frame, ..back.paint }) == pet.paint
            &&& back.window == pet.window && back.chat == pet.chat && back.shortcuts
                == pet.shortcuts && back.language == pet.language && back.gaze.enabled
                == pet.gaze.enabled
        }),
        ({
            let fallen = pet.fallen_back();
            &&& same_plans(fallen.underlay, pet.underlay)
            &&& (PetWindow { raster: pet.window.raster, ..fallen.window }) == pet.window
            &&& (PaintState { frame: pet.paint.frame, ..fallen.paint }) == pet.paint
            &&& fallen.chat == pet.chat && fallen.shortcuts == pet.shortcuts && fallen.language
                == pet.language && fallen.gaze.enabled == pet.gaze.enabled
            &&& fallen.voice.mode == pet.voice.mode && fallen.voice.phase == pet.voice.phase
        }),
        ({
            let silent = pet.after_channel_closed();
            &&& pet.underlay.attached ==> silent == (DesktopPetView {
                underlay: UnderlayState { events: false, ..pet.underlay },
                ..pet
            }).fallen_back()
            &&& !pet.underlay.attached ==> silent == (DesktopPetView {
                underlay: UnderlayState { events: false, ..pet.underlay },
                ..pet
            })
        }),
{
}

} // verus!

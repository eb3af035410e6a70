//! What the overlay does for those who talk to it, told in terms of what goes in and what
//! comes out.

use vstd::prelude::*;

use crate::agent::configuration::{model_for, position};
use crate::agent::display::{conversation_display, message_display, ReplyText};
use crate::agent::message::{AgentSnapshot, AppLanguage, ChatMessage, ChatMessageState, ChatRole};
use crate::agent::reply::{ReplyLifecycle, ThinkingFeedback};
use crate::agent::screenshot::{capability_under, captured_image, AgentGrants, ImageInputError};
use crate::agent::view::{AgentAction, AgentPanel, AgentView, AgentVoice, ConfigState};
use crate::revision::revision_after;
use crate::search::first_position_is_first;
use crate::settings::llm::LlmSettingsView;
use crate::settings::persona::config::PersonaView;

verus! {

/// Whether nothing of the overlay but its panel differs.
pub open spec fn same_but_panel(after: AgentView, before: AgentView) -> bool {
    (AgentView { panel: before.panel, ..after }) == before
}

/// Whether nothing of the overlay but its voice differs.
pub open spec fn same_but_voice(after: AgentView, before: AgentView) -> bool {
    (AgentView { voice: before.voice, ..after }) == before
}

/// Whether nothing of the overlay but its bubble differs.
pub open spec fn same_but_reply(after: AgentView, before: AgentView) -> bool {
    (AgentView { reply: before.reply, ..after }) == before
}

/// A question that is taken goes out once, with the text, the image and the language that it
/// was put with, and with what the user allows at that moment: none of these depends on
/// another.
pub proof fn question_goes_out_as_it_was_put(
    view: AgentView,
    text: String,
    image: Option<u64>,
    language: AppLanguage,
    grants: AgentGrants,
    feedback: Option<ThinkingFeedback>,
)
    requires
        !view.snapshot.streaming,
        !view.snapshot.switching_memory,
        !view.snapshot.shutting_down,
    ensures
        view.snapshot.takes_messages(),
        ({
            let actions = view.send_actions(text, image, language, grants);
            let after = view.after_send(feedback);
            &&& actions.len() == 1
            &&& actions[0] matches AgentAction::SendMessage {
                text: sent_text,
                image: sent_image,
                with_outfits,
                screenshot,
                outfit_revision,
                language: sent_language,
                feedback_revision,
            } && {
                &&& sent_text == text
                &&& sent_image == image
                &&& with_outfits == grants.outfits
                &&& (grants.screenshots is None ==> screenshot is None)
                &&& (grants.screenshots matches Some(revision) ==> screenshot matches Some(granted)
                    && granted.permission_revision == revision)
                &&& outfit_revision == view.outfit_revision
                &&& sent_language == language
                &&& feedback_revision == after.panel.thinking_feedback_revision
            }
            &&& after.panel.thinking_feedback == feedback
            &&& after.panel.thinking_feedback_revision != view.panel.thinking_feedback_revision
            &&& same_but_panel(after, view)
            &&& (AgentPanel {
                thinking_feedback: view.panel.thinking_feedback,
                thinking_feedback_revision: view.panel.thinking_feedback_revision,
                ..after.panel
            }) == view.panel
        }),
{
}

/// What the user allows changes nothing about the text, the image or the language of a
/// question, and whether it is taken does not depend on it.
pub proof fn grants_leave_the_question_alone(
    view: AgentView,
    text: String,
    image: Option<u64>,
    language: AppLanguage,
    grants: AgentGrants,
    others: AgentGrants,
)
    ensures
        ({
            let one = view.send_actions(text, image, language, grants);
            let other = view.send_actions(text, image, language, others);
            &&& one.len() == other.len()
            &&& one.len() == 1 ==> (one[0] matches AgentAction::SendMessage {
                text: first_text,
                image: first_image,
                language: first_language,
                ..
            } && (other[0] matches AgentAction::SendMessage {
                text: second_text,
                image: second_image,
                language: second_language,
                ..
            } && first_text == second_text && first_image == second_image && first_language
                == second_language))
        }),
{
}

/// No question is taken while an answer is being written, the memory is being changed, or
/// everything is being shut down.
pub proof fn busy_companion_takes_no_question(
    view: AgentView,
    text: String,
    image: Option<u64>,
    language: AppLanguage,
    grants: AgentGrants,
)
    ensures
        view.snapshot.takes_messages() <==> !(view.snapshot.streaming
            || view.snapshot.switching_memory || view.snapshot.shutting_down),
        !view.snapshot.takes_messages() ==> view.send_actions(text, image, language, grants).len()
            == 0,
{
}

/// Dropping the image drops it, outdates the one that is being chosen, and leaves everything
/// else.
pub proof fn dropping_the_image_drops_nothing_else(view: AgentView)
    ensures
        ({
            let after = view.without_image();
            &&& after.panel.pending_image is None
            &&& after.panel.image_picker_revision == revision_after(
                view.panel.image_picker_revision,
            )
            &&& same_but_panel(after, view)
            &&& (AgentPanel {
                pending_image: view.panel.pending_image,
                image_picker_revision: view.panel.image_picker_revision,
                ..after.panel
            }) == view.panel
        }),
{
}

/// Whatever of an answer can be seen is what the bubble says, in whatever state the answer
/// is.
pub proof fn visible_answer_is_said(message: ChatMessage)
    requires
        message.visible_content@.len() > 0,
    ensures
        message_display(message).text == ReplyText::Text(message.visible_content),
        !message_display(message).waiting,
{
}

/// Where nothing of an answer can be seen, the bubble says how far the answer has come; it is
/// blank only for one that is complete.
pub proof fn invisible_answer_is_told_by_its_state(message: ChatMessage)
    requires
        message.visible_content@.len() == 0,
    ensures
        message_display(message).text is Blank <==> message.state is Complete,
        message_display(message).text is Thinking <==> message.state is Streaming,
        message_display(message).text is Stopped <==> message.state is Cancelled,
        message_display(message).text is Interrupted <==> message.state is Interrupted,
        message_display(message).text is InterruptedByVoice
            <==> message.state is InterruptedByVoice,
        message.state matches ChatMessageState::Failed(error) ==> message_display(message).text
            == ReplyText::Text(error),
        message_display(message).waiting <==> message.state is Streaming,
{
}

/// A second line tells why an answer with some content broke off, and nothing else has one.
pub proof fn broken_off_answer_is_explained(message: ChatMessage)
    ensures
        message_display(message).error <==> message.state is Failed,
        message.state is Complete || message.state is Streaming ==> message_display(message).detail
            is None,
        message.state matches ChatMessageState::Failed(error) ==> message_display(message).detail
            == (if message.content@.len() > 0 {
            Some(ReplyText::Text(error))
        } else {
            None
        }),
        message.state is Cancelled ==> (message_display(message).detail == Some(ReplyText::Stopped)
            <==> message.content@.len() > 0),
        message.state is Interrupted ==> (message_display(message).detail == Some(
            ReplyText::Interrupted,
        ) <==> message.content@.len() > 0),
        message.state is InterruptedByVoice ==> (message_display(message).detail == Some(
            ReplyText::InterruptedByVoice,
        ) <==> message.visible_content@.len() > 0),
        message.state is Cancelled || message.state is Interrupted ==> (message_display(
            message,
        ).detail is None <==> message.content@.len() == 0),
        message.state is InterruptedByVoice ==> (message_display(message).detail is None
            <==> message.visible_content@.len() == 0),
{
}

/// The text of a bubble is itself the error exactly where an answer failed with no content to
/// show beside it.
pub proof fn error_is_primary_without_content(message: ChatMessage)
    ensures
        message_display(message).says_error() <==> message.state is Failed
            && message.content@.len() == 0,
{
}

/// The answer to the last question is the first message of the companion under the number
/// that is waited for.
pub proof fn answer_is_the_companions(snapshot: AgentSnapshot)
    ensures
        snapshot.reply_position() matches Some(index) ==> {
            &&& 0 <= index < snapshot.messages@.len()
            &&& Some(snapshot.messages@[index].id) == snapshot.reply_message_id
            &&& snapshot.messages@[index].role == ChatRole::Assistant
            &&& forall|i: int|
                0 <= i < index && #[trigger] snapshot.messages@[i].role == ChatRole::Assistant
                    ==> Some(snapshot.messages@[i].id) != snapshot.reply_message_id
        },
        snapshot.reply_position() is None ==> forall|i: int|
            0 <= i < snapshot.messages@.len() && #[trigger] snapshot.messages@[i].role
                == ChatRole::Assistant ==> Some(snapshot.messages@[i].id)
                != snapshot.reply_message_id,
{
    if let Some(id) = snapshot.reply_message_id {
        first_position_is_first(snapshot.messages@, 0, crate::agent::message::is_reply(id));
    }
}

/// The bubble tells the answer where there is one, or else the report; without either it
/// tells nothing.
pub proof fn bubble_tells_answer_or_report(snapshot: AgentSnapshot)
    ensures
        snapshot.reply_position() matches Some(index) ==> conversation_display(snapshot) == Some(
            message_display(snapshot.messages@[index]),
        ),
        snapshot.reply_position() is None ==> (match snapshot.status {
            Some(status) => conversation_display(snapshot) matches Some(shown) && shown.text
                == ReplyText::Text(status) && shown.detail is None && !shown.waiting
                && !shown.error,
            None => conversation_display(snapshot) is None,
        }),
        snapshot.shows_something() <==> snapshot.status is Some
            || snapshot.reply_message_id is Some,
{
}

/// What is shown is complete when the answer that is waited for is there and no longer being
/// written, or when there is only a report.
pub proof fn completeness_is_that_of_the_answer(snapshot: AgentSnapshot)
    ensures
        snapshot.reply_message_id is None ==> (snapshot.reply_is_terminal()
            <==> snapshot.status is Some),
        snapshot.reply_message_id is Some ==> (snapshot.reply_is_terminal() <==> (
        snapshot.reply_position() matches Some(index)
            && !(snapshot.messages@[index].state is Streaming))),
{
}

/// Following the conversation takes its new state as it is, and touches nothing but the
/// bubble beside it.
pub proof fn following_takes_the_conversation(view: AgentView, next: AgentSnapshot)
    ensures
        next.revision != view.snapshot.revision ==> {
            &&& view.synced(next).snapshot == next
            &&& (AgentView {
                snapshot: view.snapshot,
                reply: view.reply,
                ..view.synced(next)
            }) == view
            &&& view.sync_actions(next).len() >= 2
            &&& view.sync_actions(next).last() == AgentAction::Notify
            &&& view.sync_actions(next)[view.sync_actions(next).len() - 2]
                == AgentAction::ScrollToEnd
        },
        next.revision == view.snapshot.revision ==> view.synced(next) == view && view.sync_actions(
            next,
        ).len() == 0,
{
}

/// The bubble is shown anew for another answer, another report, or an answer that was being
/// written, as long as there is something to show; otherwise it stays hidden or shown.
pub proof fn bubble_opens_for_news(view: AgentView, next: AgentSnapshot)
    requires
        next.revision != view.snapshot.revision,
    ensures
        ({
            let something = next.status is Some || next.reply_message_id is Some;
            let other_report = match (next.status, view.snapshot.status) {
                (Some(now), Some(before)) => now@ != before@,
                (None, None) => false,
                _ => true,
            };
            let news = something && (next.reply_message_id != view.snapshot.reply_message_id
                || other_report || view.snapshot.streaming);
            let after = view.synced(next).reply;
            &&& news ==> after.visible && !after.hovered && !after.fading
                && after.display_generation == revision_after(view.reply.display_generation)
            &&& !news ==> after.visible == view.reply.visible && after.hovered
                == view.reply.hovered && after.display_generation == view.reply.display_generation
            &&& !news && !(view.snapshot.streaming && !next.streaming) ==> after == view.reply
            &&& news ==> view.sync_actions(next)[0] == AgentAction::CancelFade
        }),
{
}

/// An answer that has just ended begins to wait for its fade, unless the bubble is hidden,
/// under the pointer or not complete; no other step of a conversation plans a fade.
pub proof fn ended_answer_waits_to_fade(view: AgentView, next: AgentSnapshot)
    requires
        next.revision != view.snapshot.revision,
    ensures
        ({
            let after = view.synced(next);
            let actions = view.sync_actions(next);
            let ended = view.snapshot.streaming && !next.streaming;
            let waits = ended && after.reply.visible && !after.reply.hovered
                && next.reply_is_terminal();
            &&& waits ==> actions.contains(
                AgentAction::ScheduleFade { revision: after.reply.revision },
            )
            &&& forall|i: int|
                0 <= i < actions.len() ==> (#[trigger] actions[i] matches AgentAction::ScheduleFade {
                    revision,
                } ==> waits && revision == after.reply.revision)
        }),
{
    let after = view.synced(next);
    let actions = view.sync_actions(next);
    if view.snapshot.streaming && !next.streaming && after.reply.visible && !after.reply.hovered
        && next.reply_is_terminal() {
        let shown = if view.shows_reply_for(next) {
            3int
        } else {
            0int
        };
        assert(actions[shown + 1] == AgentAction::ScheduleFade { revision: after.reply.revision });
    }
}

/// Planning a fade asks for one under the new revision where the bubble is shown, complete
/// and not under the pointer, and calls off the one before in any case.
pub proof fn fade_is_planned_where_it_may_run(view: AgentView)
    ensures
        ({
            let after = view.with_fade_planned();
            let actions = view.plan_fade_actions();
            let may = view.reply.visible && !view.reply.hovered && view.snapshot.reply_is_terminal();
            &&& actions[0] == AgentAction::CancelFade
            &&& actions.len() == (if may {
                2int
            } else {
                1int
            })
            &&& may ==> actions[1] == AgentAction::ScheduleFade { revision: after.reply.revision }
            &&& same_but_reply(after, view)
            &&& after.reply.revision == revision_after(view.reply.revision)
            &&& !after.reply.fading
            &&& after.reply.visible == view.reply.visible
            &&& after.reply.hovered == view.reply.hovered
            &&& after.reply.display_generation == view.reply.display_generation
        }),
{
}

/// Each step of a fade does its part and no more: one dims the bubble, the next hides it, and
/// only under the revision that they were planned with.
pub proof fn fade_dims_then_hides(lifecycle: ReplyLifecycle, revision: u64, terminal: bool)
    ensures
        ({
            let dimmed = lifecycle.after_begin_fade(revision, terminal);
            let hidden = lifecycle.after_finish_fade(revision, terminal);
            let due = revision == lifecycle.revision && lifecycle.visible && !lifecycle.hovered
                && terminal;
            &&& lifecycle.accepts_fade(revision, terminal) <==> due
            &&& due ==> dimmed.fading && dimmed.visible && !hidden.visible && !hidden.fading
            &&& !due ==> dimmed == lifecycle && hidden == lifecycle
            &&& (ReplyLifecycle { fading: lifecycle.fading, ..dimmed }) == lifecycle
            &&& (ReplyLifecycle {
                fading: lifecycle.fading,
                visible: lifecycle.visible,
                ..hidden
            }) == lifecycle
        }),
{
}

/// The pointer on the bubble is noted, ends a fade and outdates its steps; leaving changes
/// nothing else.
pub proof fn pointer_holds_the_bubble(view: AgentView, hovered: bool)
    ensures
        ({
            let after = view.with_reply_hovered(hovered);
            &&& after.reply.hovered == hovered
            &&& after.reply.visible == view.reply.visible
            &&& after.reply.display_generation == view.reply.display_generation
            &&& same_but_reply(after, view)
            &&& hovered && !view.reply.hovered ==> !after.reply.fading && after.reply.revision
                == revision_after(view.reply.revision)
            &&& !(hovered && !view.reply.hovered) ==> after.reply.fading == view.reply.fading
                && after.reply.revision == view.reply.revision
        }),
{
}

/// Content that is shown anew is visible, undimmed, and an element of its own.
pub proof fn shown_content_is_fresh(view: AgentView)
    ensures
        ({
            let after = view.with_reply_shown();
            &&& after.reply.visible
            &&& !after.reply.hovered
            &&& !after.reply.fading
            &&& after.reply.revision == revision_after(view.reply.revision)
            &&& after.reply.display_generation == revision_after(view.reply.display_generation)
            &&& same_but_reply(after, view)
            &&& AgentView::show_reply_actions() == seq![
                AgentAction::CancelFade,
                AgentAction::ScrollToEnd,
                AgentAction::Notify,
            ]
        }),
{
}

/// Stopping a transcription names the one under way, and leaves everything else.
pub proof fn stopped_transcription_is_the_one_under_way(view: AgentView)
    ensures
        view.without_transcription().voice.transcription is None,
        same_but_voice(view.without_transcription(), view),
        (AgentVoice {
            transcription: view.voice.transcription,
            ..view.without_transcription().voice
        }) == view.voice,
        view.voice.transcription is None ==> view.stop_transcription_actions().len() == 0,
        view.voice.transcription matches Some(request) ==> view.stop_transcription_actions()
            == seq![
            AgentAction::CancelTranscription {
                revision: request.revision,
                utterance_id: request.utterance_id,
            },
        ],
{
}

/// Stopping speech aborts it where it is being made, outdates it, and leaves everything else.
pub proof fn stopped_speech_is_aborted(view: AgentView)
    ensures
        !view.without_speech().voice.speech_running,
        view.without_speech().voice.speech_revision == revision_after(view.voice.speech_revision),
        view.without_speech().voice.transcription == view.voice.transcription,
        same_but_voice(view.without_speech(), view),
        view.voice.speech_running ==> view.stop_speech_actions() == seq![AgentAction::AbortSpeech],
        !view.voice.speech_running ==> view.stop_speech_actions().len() == 0,
{
}

/// Falling silent stops what is heard first and what is said next.
pub proof fn silence_stops_hearing_and_speaking(view: AgentView)
    ensures
        view.silenced().voice.transcription is None,
        !view.silenced().voice.speech_running,
        view.silenced().voice.speech_revision == revision_after(view.voice.speech_revision),
        same_but_voice(view.silenced(), view),
        view.silence_actions() == view.stop_transcription_actions() + view.stop_speech_actions(),
{
}

/// Somebody who begins to speak is listened to in the language at hand, under the number of
/// what is spoken; where the configuration has changed it is taken up instead. The
/// loudspeaker stops either way.
pub proof fn speaker_is_listened_to(
    view: AgentView,
    utterance_id: u64,
    language: AppLanguage,
    generation: u64,
)
    ensures
        ({
            let actions = view.speech_started_actions(utterance_id, language, generation);
            let front = view.silence_actions().len() as int;
            &&& actions.take(front) == view.silence_actions()
            &&& actions[front] == AgentAction::StopSpeech
            &&& generation == view.config.generation ==> actions.skip(front) == seq![
                AgentAction::StopSpeech,
                AgentAction::VoiceStarted { utterance_id, language },
                AgentAction::SyncSnapshot,
                AgentAction::Notify,
            ]
            &&& generation != view.config.generation ==> actions.skip(front) == seq![
                AgentAction::StopSpeech,
                AgentAction::RefreshSettings,
            ]
        }),
{
    let actions = view.speech_started_actions(utterance_id, language, generation);
    let front = view.silence_actions().len() as int;
    assert(actions.take(front) =~= view.silence_actions());
    assert(actions.skip(front) =~= actions.skip(front));
}

/// A transcription is waited for under its own revision and number, and what is being
/// transcribed is known by its number.
pub proof fn transcription_is_known_by_revision_and_number(
    view: AgentView,
    revision: u64,
    utterance_id: u64,
)
    ensures
        view.awaits_transcription(revision, utterance_id) <==> (view.voice.transcription matches Some(
            request,
        ) && request.revision == revision && request.utterance_id == utterance_id),
        view.transcribes(utterance_id) <==> (view.voice.transcription matches Some(request)
            && request.utterance_id == utterance_id),
{
}

/// What is said aloud is the answer, complete, by the persona in charge, with the speech
/// model that this persona is bound to; and whenever all of these are there, it is said.
pub proof fn answer_is_said_with_the_personas_voice(
    view: AgentView,
    persona: Option<PersonaView>,
    settings: LlmSettingsView,
)
    ensures
        view.speech_source(persona, settings) matches Some((message, model)) ==> {
            &&& persona matches Some(speaker) && speaker.id == view.snapshot.active_persona@
                && speaker.tts_model == Some(settings.models[model].id)
            &&& view.snapshot.reply_position() == Some(message)
            &&& view.snapshot.messages@[message].state is Complete
            &&& 0 <= model < settings.models.len()
        },
        persona matches Some(speaker) && speaker.id == view.snapshot.active_persona@ && (
        view.snapshot.reply_position() matches Some(message)
            && view.snapshot.messages@[message].state is Complete) && (
        speaker.tts_model matches Some(id) && exists|i: int|
            0 <= i < settings.models.len() && (#[trigger] settings.models[i]).id == id)
            ==> view.speech_source(persona, settings) is Some,
{
    if let Some(speaker) = persona {
        if let Some(id) = speaker.tts_model {
            crate::settings::promises::model_is_found_by_identifier(settings, id);
        }
    }
}

/// A persona thinks with the model that it is bound to, where that is there; otherwise with
/// the one in use, and with none where that is not there either.
pub proof fn persona_thinks_with_its_model(persona: PersonaView, settings: LlmSettingsView)
    ensures
        model_for(persona, settings) matches Some(index) ==> {
            &&& 0 <= index < settings.models.len()
            &&& persona.model == Some(settings.models[index].id) || settings.selected_model == Some(
                settings.models[index].id,
            )
        },
        persona.model matches Some(id) ==> (exists|i: int|
            0 <= i < settings.models.len() && (#[trigger] settings.models[i]).id == id)
            ==> (model_for(persona, settings) matches Some(index) && settings.models[index].id
            == id),
        (persona.model matches Some(id) ==> forall|i: int|
            0 <= i < settings.models.len() ==> (#[trigger] settings.models[i]).id != id) && (
        settings.selected_model matches Some(id) && exists|i: int|
            0 <= i < settings.models.len() && (#[trigger] settings.models[i]).id == id)
            ==> (model_for(persona, settings) matches Some(index) && Some(settings.models[index].id)
            == settings.selected_model),
        position(model_for(persona, settings)) is Some <==> model_for(persona, settings) is Some,
        model_for(persona, settings) matches Some(index) ==> settings.models.len() <= usize::MAX
            ==> (position(model_for(persona, settings)) matches Some(handed) && handed == index),
{
    if let Some(id) = persona.model {
        crate::settings::promises::model_is_found_by_identifier(settings, id);
    }
    if let Some(id) = settings.selected_model {
        crate::settings::promises::model_is_found_by_identifier(settings, id);
    }
}

/// A configuration is taken up exactly if it is newer than the one at hand and than the one
/// on its way; it is then on its way under a new revision.
pub proof fn newer_configuration_is_begun(config: ConfigState, generation: u64)
    ensures
        config.wants(generation) <==> generation > config.generation && (
        config.pending_generation matches Some(pending) ==> generation > pending),
        config.begun(generation).pending_generation == Some(generation),
        config.begun(generation).generation == config.generation,
        config.begun(generation).refresh_revision == revision_after(config.refresh_revision),
{
}

/// News of the configuration on its way end the wait for it, and make it the one at hand if
/// it was taken up; any other news change nothing.
pub proof fn configuration_news_are_taken_once(
    config: ConfigState,
    revision: u64,
    generation: u64,
    applied: bool,
)
    ensures
        ({
            let after = config.finished(revision, generation, applied);
            let current = config.refresh_revision == revision && config.pending_generation == Some(
                generation,
            );
            &&& config.awaits(revision, generation) <==> current
            &&& !current ==> after == config
            &&& current ==> after.pending_generation is None && after.refresh_revision
                == config.refresh_revision && after.generation == (if applied {
                generation
            } else {
                config.generation
            })
        }),
{
}

/// A question carries the permission for screenshots that holds when it is put; a screenshot
/// is taken under it only while that very permission holds.
pub proof fn permission_is_the_one_of_the_question(permission: Option<u64>, later: Option<u64>)
    ensures
        permission is None ==> capability_under(permission) is None,
        permission matches Some(revision) ==> capability_under(permission) matches Some(granted)
            && granted.permission_revision == revision && (granted.holds_under(later)
            <==> later == permission),
{
}

/// A screenshot that was taken is handed on as it is; one that broke off is a failure.
pub proof fn screenshot_is_handed_on(outcome: Option<Result<u64, ImageInputError>>)
    ensures
        outcome matches Some(result) ==> captured_image(outcome) == result,
        outcome is None ==> captured_image(outcome) is Err,
{
}

/// A bubble fades only while it is visible and nobody points at it.
pub proof fn only_a_visible_bubble_fades(view: AgentView)
    ensures
        view.reply.well_formed() <==> !view.reply.fading || (view.reply.visible
            && !view.reply.hovered),
        view.well_formed() == view.reply.well_formed(),
{
}

} // verus!

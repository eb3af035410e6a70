//! What holds of the overlay whatever happens to it.

use vstd::prelude::*;

use crate::agent::display::{conversation_display, message_display};
use crate::agent::message::{AgentSnapshot, AppLanguage, ChatMessage};
use crate::agent::reply::ThinkingFeedback;
use crate::agent::screenshot::AgentGrants;
use crate::agent::view::{AgentAction, AgentView};
use crate::revision::revision_is_fresh;
use crate::settings::llm::LlmSettingsView;
use crate::settings::persona::config::PersonaView;

verus! {

/// Speech that was being made when it was stopped is outdated: it is not played, and it does
/// not end what is made afterwards.
pub proof fn stopped_speech_is_outdated(view: AgentView)
    ensures
        view.without_speech().voice.speech_revision != view.voice.speech_revision,
{
    revision_is_fresh(view.voice.speech_revision);
}

/// A transcription that was stopped is not passed on when it comes in.
pub proof fn stopped_transcription_is_ignored(view: AgentView, revision: u64, utterance_id: u64)
    ensures
        !view.without_transcription().awaits_transcription(revision, utterance_id),
        !view.silenced().awaits_transcription(revision, utterance_id),
{
}

/// A question that is not taken changes nothing and sends nothing.
pub proof fn refused_question_changes_nothing(
    view: AgentView,
    text: String,
    image: Option<u64>,
    feedback: Option<ThinkingFeedback>,
    language: AppLanguage,
    grants: AgentGrants,
)
    requires
        view.snapshot.streaming || view.snapshot.switching_memory || view.snapshot.shutting_down,
    ensures
        view.after_send(feedback) == view,
        view.send_actions(text, image, language, grants) == Seq::<AgentAction>::empty(),
{
}

/// Following a state of the conversation twice is following it once.
pub proof fn following_twice_is_following_once(view: AgentView, next: AgentSnapshot)
    ensures
        view.synced(next).synced(next) == view.synced(next),
        view.synced(next).sync_actions(next) == Seq::<AgentAction>::empty(),
{
}

/// Whenever the conversation has moved on to a new answer or a new report, the bubble shows
/// it, and no fade is under way unless one has just been planned.
pub proof fn new_answer_is_shown(view: AgentView, next: AgentSnapshot)
    requires
        next.revision != view.snapshot.revision,
        view.shows_reply_for(next),
    ensures
        view.synced(next).reply.visible,
        !view.synced(next).reply.fading,
{
}

/// An answer that has ended is shown, and its fade is planned.
pub proof fn finished_answer_is_planned_to_fade(view: AgentView, next: AgentSnapshot)
    requires
        next.revision != view.snapshot.revision,
        view.finishes_reply_for(next),
        next.shows_something(),
        next.reply_is_terminal(),
    ensures
        view.synced(next).reply.visible,
        view.sync_actions(next).contains(
            AgentAction::ScheduleFade { revision: view.synced(next).reply.revision },
        ),
{
    let actions = view.sync_actions(next);
    let front = AgentView::show_reply_actions();
    assert(actions[front.len() as int + 1] == AgentAction::ScheduleFade {
        revision: view.synced(next).reply.revision,
    });
}

/// Dropping the image, or sending it, makes one that is being chosen outdated.
pub proof fn dropped_image_is_outdated(view: AgentView)
    ensures
        view.without_image().panel.pending_image is None,
        view.without_image().panel.image_picker_revision != view.panel.image_picker_revision,
{
    revision_is_fresh(view.panel.image_picker_revision);
}

/// Only a complete answer of the active persona is said aloud, and only with a voice.
pub proof fn only_complete_answers_are_spoken(
    view: AgentView,
    persona: Option<PersonaView>,
    settings: LlmSettingsView,
)
    requires
        view.speech_source(persona, settings) is Some,
    ensures
        persona matches Some(persona) && persona.id == view.snapshot.active_persona@
            && persona.tts_model is Some,
        view.snapshot.reply_is_terminal(),
{
}

/// An answer is waited for only while it is being written and nothing of it can be seen, and
/// a bubble that waits is never an error.
pub proof fn waiting_is_no_error(message: ChatMessage)
    ensures
        message_display(message).waiting ==> message.state is Streaming && !message_display(
            message,
        ).error && message_display(message).detail is None,
        message_display(message).error ==> message.state is Failed,
{
}

/// Whenever there is something to show of a conversation whose answer is there, the bubble
/// says something.
pub proof fn something_is_said(snapshot: AgentSnapshot)
    requires
        snapshot.reply_position() is Some || snapshot.status is Some,
    ensures
        conversation_display(snapshot) is Some,
{
}

} // verus!

//! What the page of personas does, told in terms of what is asked for and what comes back.

use vstd::prelude::*;

use crate::agent::message::ChatRole;
use crate::fresh_id::text_views;
use crate::number_text::{decimal_text, trimmed};
use crate::revision::revision_after;
use crate::search::first_position_is_first;
use crate::settings::llm::{LlmSettingsView, ModelKind};
use crate::settings::persona::actions::{MemoryScope, PersonaEffect, PersonaPage};
use crate::settings::persona::config::{PersonaSettings, PersonaSettingsData, PersonaView};
use crate::settings::persona::context::{byte_length, byte_width, MessageWeights};
use crate::settings::persona::form::{missing_model, PersonaFormView};
use crate::settings::persona::options::{live2d_row, model_row};
use crate::settings::persona::pane::{
    capped_sum, count_among, floored_difference, ids_among, joined_lines, known_ids, texts_among,
    tokens_among, tokens_of, ContextFlags, ContextPaneView, EditorView,
};
use crate::settings::persona::persistence::{claimable, PersonaWriteOutcome};
use crate::settings::persona::render::{stat_text, PersonaSubtitle};
use crate::settings::persona::selection::{key_meaning, lower_letter, same_letters, PageKey};
use crate::settings::persona::view::{
    ContextUsage, MemoryPaneView, PendingConfirmView, PersonaState, PersonaStatus, PersonaUi,
    UsageError,
};
use crate::settings::provider::persistence::InputEvent;
use crate::settings::provider::view::InputEdit;

verus! {

/// Clearing memory is asked for once, of the persona and in the scope that were named, and
/// reported as under way.
pub proof fn clearing_names_persona_and_scope(
    page: PersonaState,
    persona: Seq<char>,
    scope: MemoryScope,
    cleanup: bool,
)
    ensures
        ({
            let effects = page.clear_effects(persona, scope, cleanup);
            &&& effects.len() == 4
            &&& effects[0] == (PersonaEffect::ClearMemory { persona, scope, cleanup })
            &&& effects[1] == (PersonaEffect::StartToast {
                revision: revision_after(page.ui.toast_revision),
            })
            &&& effects[2] == PersonaEffect::Notify
            &&& effects[3] == PersonaEffect::Notify
        }),
{
}

/// What a confirmed question clears is the memory of the persona that it was asked for, in
/// the scope that it was asked for: once, and nothing else.
pub proof fn confirmed_clearing_is_the_one_asked_for(
    page: PersonaState,
    persona: Seq<char>,
    scope: MemoryScope,
    weights: MessageWeights,
)
    ensures
        ({
            let asked = page.confirming(Some(PendingConfirmView::ClearMemory { persona, scope }));
            let effects = asked.accepted_effects(weights);
            let after = asked.accepted(weights);
            &&& effects[0] == (PersonaEffect::ClearMemory { persona, scope, cleanup: false })
            &&& forall|i: int|
                0 <= i < effects.len() ==> ((#[trigger] effects[i]) is ClearMemory ==> i == 0)
            &&& forall|i: int| 0 <= i < effects.len() ==> !((#[trigger] effects[i]) is DeleteMessages)
            &&& scope == MemoryScope::Context ==> forall|i: int|
                0 <= i < effects.len() ==> !((#[trigger] effects[i]) matches
                    PersonaEffect::ClearMemory { scope: cleared, .. } && cleared
                    == MemoryScope::All)
            &&& after.memory.pending_confirm is None
            &&& after.status == Some(PersonaStatus::MemoryClearing)
            &&& after.draft == page.draft
            &&& after.pane == page.pane
            &&& after.cleanup == page.cleanup
        }),
{
    clearing_names_persona_and_scope(page, persona, scope, false);
}

/// A question waits as it was asked, and asking changes nothing else.
pub proof fn question_waits_as_it_was_asked(page: PersonaState, pending: Option<PendingConfirmView>)
    ensures
        page.confirming(pending).memory.pending_confirm == pending,
        (PersonaState {
            memory: MemoryPaneView {
                pending_confirm: page.memory.pending_confirm,
                ..page.confirming(pending).memory
            },
            ..page.confirming(pending)
        }) == page,
        page.memory.pending_confirm is None ==> forall|weights: MessageWeights|
            #[trigger] page.accepted(weights) == page && page.accepted_effects(weights).len() == 0,
{
}

/// A confirmed deletion deletes the messages that it was asked for, from the persona that it
/// was asked for.
pub proof fn confirmed_deletion_is_the_one_asked_for(
    page: PersonaState,
    persona: Seq<char>,
    message_ids: Seq<u64>,
    weights: MessageWeights,
)
    ensures
        ({
            let asked = page.confirming(
                Some(PendingConfirmView::DeleteMessages { persona, message_ids }),
            );
            let effects = asked.accepted_effects(weights);
            let removed = count_among(
                page.pane.editors,
                message_ids.to_set(),
                page.pane.editors.len() as int,
            );
            &&& removed == 0 ==> effects.len() == 0
            &&& removed != 0 ==> effects == seq![
                PersonaEffect::DeleteMessages { persona, message_ids, count: removed },
                PersonaEffect::Notify,
            ]
            &&& asked.accepted(weights) == page.confirming(None).with_deleted(
                message_ids.to_set(),
            )
        }),
{
}

/// A confirmed deletion of a persona deletes that persona, after what was edited is kept.
pub proof fn confirmed_farewell_is_the_one_asked_for(
    page: PersonaState,
    persona: Seq<char>,
    weights: MessageWeights,
)
    ensures
        ({
            let asked = page.confirming(Some(PendingConfirmView::DeletePersona { persona }));
            let kept = page.confirming(None).all_committed(weights).captured();
            &&& asked.accepted(weights) == kept.after_delete(persona)
            &&& asked.accepted_effects(weights) == page.confirming(None).all_committed_effects(
                weights,
            ) + kept.delete_persona_effects(persona)
        }),
{
    let asked = page.confirming(Some(PendingConfirmView::DeletePersona { persona }));
    assert(asked.confirming(None) == page.confirming(None));
}

/// Deleting a persona is asked for if it is there and not the last one, which is said.
pub proof fn farewell_is_asked_for(page: PersonaState, id: Seq<char>)
    ensures
        ({
            let after = page.asking_to_delete_persona(id);
            let effects = page.asking_to_delete_persona_effects(id);
            let there = page.draft.has_persona(id);
            &&& !there ==> after == page && effects.len() == 0
            &&& there && page.draft.personas.len() <= 1 ==> after.status == Some(
                PersonaStatus::LastPersona,
            ) && after.memory == page.memory && after.draft == page.draft && effects == seq![
                PersonaEffect::StartToast { revision: revision_after(page.ui.toast_revision) },
                PersonaEffect::Notify,
            ]
            &&& there && page.draft.personas.len() > 1 ==> after.memory.pending_confirm == Some(
                PendingConfirmView::DeletePersona { persona: id },
            ) && after.draft == page.draft && effects == seq![PersonaEffect::Notify]
        }),
{
}

/// A deleted persona is gone and marked for cleaning up; the others stay in their order, and
/// the one in use stays in use, or its neighbour follows.
pub proof fn only_the_deleted_persona_goes(page: PersonaState, index: int)
    requires
        0 <= index < page.draft.personas.len(),
        page.draft.personas.len() > 1,
    ensures
        ({
            let after = page.without_persona(index);
            let gone = page.draft.personas[index].id;
            let last = index == page.draft.personas.len() - 1;
            &&& after.draft.personas.len() == page.draft.personas.len() - 1
            &&& forall|i: int|
                0 <= i < index ==> #[trigger] after.draft.personas[i] == page.draft.personas[i]
            &&& forall|i: int|
                index <= i < after.draft.personas.len() ==> #[trigger] after.draft.personas[i]
                    == page.draft.personas[i + 1]
            &&& page.draft.selected != Some(gone) ==> after.draft.selected == page.draft.selected
            &&& page.draft.selected == Some(gone) && !last ==> after.draft.selected == Some(
                page.draft.personas[index + 1].id,
            )
            &&& page.draft.selected == Some(gone) && last ==> after.draft.selected == Some(
                page.draft.personas[index - 1].id,
            )
            &&& after.draft.pending_deletions.contains(gone)
            &&& page.draft.pending_deletions.contains(gone) ==> after.draft.pending_deletions
                == page.draft.pending_deletions
            &&& !page.draft.pending_deletions.contains(gone) ==> after.draft.pending_deletions
                == page.draft.pending_deletions.push(gone)
            &&& after.cleanup.pending == page.cleanup.pending.insert(gone)
            &&& after.cleanup.in_flight == page.cleanup.in_flight
            &&& (PersonaState { draft: page.draft, cleanup: page.cleanup, ..after }) == page
        }),
{
    let gone = page.draft.personas[index].id;
    let marked = page.draft.pending_deletions.push(gone);
    assert(marked[page.draft.pending_deletions.len() as int] == gone);
}

/// After a deletion the persona that was edited is edited on, or else the one in use, or the
/// first; the last persona is not deleted.
pub proof fn editing_goes_on_after_a_deletion(page: PersonaState, id: Seq<char>, other: Seq<char>)
    ensures
        page.draft.position_of(other) matches Some(at) ==> page.next_editing(Some(other)) == at,
        page.draft.position_of(other) is None ==> page.next_editing(Some(other))
            == page.selected_or_first(),
        page.next_editing(None) == page.selected_or_first(),
        page.draft.selected_position() matches Some(at) ==> page.selected_or_first() == at,
        page.draft.selected_position() is None ==> page.selected_or_first() == 0,
        page.draft.position_of(id) is None ==> page.after_delete(id) == page
            && page.delete_persona_effects(id).len() == 0,
        page.draft.position_of(id) is Some && page.draft.personas.len() <= 1 ==> {
            &&& page.after_delete(id).draft == page.draft
            &&& page.after_delete(id).status == Some(PersonaStatus::LastPersona)
            &&& page.delete_persona_effects(id) == page.report_effects()
        },
        page.draft.position_of(id) matches Some(index) ==> (page.draft.personas.len() > 1 ==> {
            let rest = page.without_persona(index);
            let next = Some(rest.next_editing(page.editing_id()) as usize);
            &&& page.after_delete(id) == rest.turned_to(next)
            &&& page.after_delete(id).draft == rest.draft
            &&& page.delete_persona_effects(id) == rest.turn_effects(next).push(
                PersonaEffect::SaveDraft,
            )
        }),
{
}

/// What is reported is shown, for a while of its own.
pub proof fn report_is_shown(page: PersonaState, status: PersonaStatus)
    ensures
        page.reporting(status).status == Some(status),
        page.reporting(status).ui.toast_revision == revision_after(page.ui.toast_revision),
        (PersonaState {
            status: page.status,
            ui: PersonaUi {
                toast_revision: page.ui.toast_revision,
                ..page.reporting(status).ui
            },
            ..page.reporting(status)
        }) == page,
        page.report_effects() == seq![
            PersonaEffect::StartToast { revision: revision_after(page.ui.toast_revision) },
            PersonaEffect::Notify,
        ],
{
}

/// The end of a clearing is reported as it came; what was cleared is gone from the page of
/// the persona it was cleared for, and only there.
pub proof fn cleared_memory_is_gone(
    page: PersonaState,
    persona: Seq<char>,
    scope: MemoryScope,
    result: Result<(), String>,
)
    ensures
        ({
            let ended = page.clearing_ended(persona, scope, result);
            let here = page.editing_id() == Some(persona);
            let deleted = result is Ok && scope == MemoryScope::All && !page.draft.has_persona(
                persona,
            );
            &&& ended.cleanup.in_flight == page.cleanup.in_flight.remove(persona)
            &&& ended.cleanup.pending == page.cleanup.pending
            &&& result is Ok && here ==> ended.pane.editors.len() == 0
            &&& result is Ok && here ==> (page.memory.usage matches Some(usage)
                ==> ended.memory.usage == Some(ContextUsage { messages: 0, tokens: 0, ..usage }))
            &&& !(result is Ok && here) ==> ended.pane == page.pane && ended.memory == page.memory
            &&& page.deletion_completed(persona, scope, result) == deleted
            &&& deleted && !page.ui.window_transferred ==> ended.draft
                == PersonaSettings::without_mark(page.draft, persona)
            &&& !(deleted && !page.ui.window_transferred) ==> ended.draft == page.draft
            &&& ended.ui == page.ui
            &&& ended.form == page.form
        }),
        PersonaState::clearing_status(Ok(())) == PersonaStatus::MemoryCleared,
        result matches Err(error) ==> PersonaState::clearing_status(result)
            == PersonaStatus::MemoryClearFailed(error),
        page.after_clearing(persona, scope, result).status == Some(
            PersonaState::clearing_status(result),
        ),
        page.conversation_cleared().pane == page.pane.cleared(),
        page.memory.usage is None ==> page.conversation_cleared().memory == page.memory,
        (PersonaState {
            pane: page.pane,
            memory: page.memory,
            ..page.conversation_cleared()
        }) == page,
{
}

/// The end of a clearing is followed up: a deletion that is completed is saved, or handed to
/// the window that took over; anything else ends the work if nothing is left.
pub proof fn end_of_clearing_is_followed_up(
    page: PersonaState,
    persona: Seq<char>,
    scope: MemoryScope,
    result: Result<(), String>,
)
    ensures
        ({
            let effects = page.clearing_effects(persona, scope, result);
            let ended = page.clearing_ended(persona, scope, result);
            let usage = if page.editing_id() == Some(persona) {
                ended.usage_on_view_effects()
            } else {
                seq![]
            };
            let done = page.deletion_completed(persona, scope, result);
            let reported = seq![
                PersonaEffect::StartToast { revision: revision_after(page.ui.toast_revision) },
                PersonaEffect::Notify,
            ] + usage;
            &&& done && !page.ui.window_transferred ==> effects == reported + seq![
                PersonaEffect::SaveDraft,
            ]
            &&& done && page.ui.window_transferred ==> effects == reported + (seq![
                PersonaEffect::CleanupFinished { persona },
            ] + ended.idle_effects())
            &&& !done ==> effects == reported + ended.idle_effects()
        }),
        ({
            let after = page.after_clearing(persona, scope, result);
            let reported = page.clearing_ended(persona, scope, result).reporting(
                PersonaState::clearing_status(result),
            );
            &&& page.editing_id() == Some(persona) ==> after == reported.usage_on_view()
            &&& page.editing_id() != Some(persona) ==> after == reported
        }),
        page.draft.position_of(persona) matches Some(index) ==> page.persona_name(persona)
            == page.draft.personas[index].name,
        page.draft.position_of(persona) is None ==> page.persona_name(persona) == persona,
{
}

/// The work is over when no write and no cleaning up is under way.
pub proof fn work_is_over_when_nothing_is_under_way(page: PersonaState)
    ensures
        page.idle() <==> page.ui.writes_in_flight == 0 && page.cleanup.in_flight == Set::<
            Seq<char>,
        >::empty(),
        page.idle() ==> page.idle_effects() == seq![PersonaEffect::SaveFinished],
        !page.idle() ==> page.idle_effects().len() == 0,
{
}

/// The persona that is edited is the one at the index, and takes what the form holds; the
/// others stay as they are.
pub proof fn only_the_edited_persona_is_captured(page: PersonaState, i: int)
    ensures
        ({
            let after = page.captured();
            let edits = page.ui.editing_index matches Some(index) && index
                < page.draft.personas.len();
            let at = page.ui.editing_index->0 as int;
            &&& edits ==> page.editing() == Some(page.draft.personas[at])
            &&& edits ==> page.editing_id() == Some(page.draft.personas[at].id)
            &&& !edits ==> page.editing() is None && page.editing_id() is None && after == page
            &&& edits ==> after.draft.personas[at] == page.form.captured(
                page.draft.personas[at],
                page.providers,
                page.live2d,
            )
            &&& after.draft.personas.len() == page.draft.personas.len()
            &&& 0 <= i < page.draft.personas.len() && page.ui.editing_index != Some(i as usize)
                ==> after.draft.personas[i] == page.draft.personas[i]
            &&& after.draft.selected == page.draft.selected
            &&& after.draft.pending_deletions == page.draft.pending_deletions
            &&& (PersonaState { draft: page.draft, ..after }) == page
        }),
{
}

/// Usage is asked for the persona that is edited, as a question of its own; without memory or
/// persona it is not asked, and what was known is dropped.
pub proof fn usage_is_asked_for_the_edited_persona(page: PersonaState)
    ensures
        ({
            let after = page.asking_usage();
            let revision = revision_after(page.memory.usage_revision);
            &&& after.memory.usage_revision == revision
            &&& after.memory.available == page.memory.available
            &&& after.memory.pending_confirm == page.memory.pending_confirm
            &&& page.editing() is None ==> after.memory.usage is None
                && after.memory.usage_error is None
            &&& page.editing() is Some && !page.memory.available ==> after.memory.usage is None
                && after.memory.usage_error == Some(UsageError::MemoryUnavailable)
            &&& page.editing() is Some && page.memory.available ==> after.memory.usage
                == page.memory.usage && after.memory.usage_error == page.memory.usage_error
            &&& (PersonaState { memory: page.memory, ..after }) == page
            &&& page.editing_id() matches Some(persona) ==> (page.memory.available
                ==> page.usage_effects() == seq![
                PersonaEffect::LoadUsage { revision, persona },
            ])
            &&& page.editing_id() is None || !page.memory.available ==> page.usage_effects().len()
                == 0
        }),
        page.ui.active_page == PersonaPage::Context ==> page.usage_on_view() == page.asking_usage()
            && page.usage_on_view_effects() == page.usage_effects(),
        page.ui.active_page != PersonaPage::Context ==> page.usage_on_view() == page
            && page.usage_on_view_effects().len() == 0,
{
}

/// The conversation is loaded for the persona that is edited, and watched for it.
pub proof fn conversation_is_that_of_the_edited_persona(page: PersonaState)
    ensures
        page.loading_context().pane == page.pane.reloading(page.editing() is Some),
        (PersonaState { pane: page.pane, ..page.loading_context() }) == page,
        page.editing_id() matches Some(persona) ==> page.context_effects() == seq![
            PersonaEffect::LoadContext {
                revision: revision_after(page.pane.flags.revision),
                persona,
            },
            PersonaEffect::Notify,
        ],
        page.editing_id() is None ==> page.context_effects().len() == 0,
        page.with_new_watch().pane.flags.auto_refresh_revision == revision_after(
            page.pane.flags.auto_refresh_revision,
        ),
        (PersonaState {
            pane: ContextPaneView {
                flags: ContextFlags {
                    auto_refresh_revision: page.pane.flags.auto_refresh_revision,
                    ..page.with_new_watch().pane.flags
                },
                ..page.with_new_watch().pane
            },
            ..page.with_new_watch()
        }) == page,
        page.watch_effects() == seq![
            PersonaEffect::WatchContext {
                revision: revision_after(page.pane.flags.auto_refresh_revision),
                target: page.editing_id(),
            },
        ],
{
}

/// On the page of the conversation usage, messages and watch are all started anew; elsewhere
/// nothing is.
pub proof fn conversation_is_shown_on_its_page(page: PersonaState)
    ensures
        page.ui.active_page != PersonaPage::Context ==> page.showing_context() == page
            && page.showing_context_effects().len() == 0,
        page.ui.active_page == PersonaPage::Context ==> {
            let after = page.showing_context();
            &&& after.memory == page.asking_usage().memory
            &&& after.pane.editors.len() == 0
            &&& after.pane.flags.loading == page.editing() is Some
            &&& after.pane.flags.revision == revision_after(page.pane.flags.revision)
            &&& after.pane.flags.auto_refresh_revision == revision_after(
                page.pane.flags.auto_refresh_revision,
            )
            &&& (PersonaState { memory: page.memory, pane: page.pane, ..after }) == page
            &&& page.showing_context_effects() == page.usage_effects() + page.context_effects()
                + page.watch_effects()
        },
{
}

/// Turning to a persona fills the form with that persona, and leaves the settings alone.
pub proof fn form_turns_to_the_persona(page: PersonaState, index: Option<usize>)
    ensures
        ({
            let after = page.turned_to(index);
            let persona = page.draft.persona_at(index);
            &&& after.ui.editing_index == index
            &&& after.ui.loading_form
            &&& after.form == PersonaFormView::showing(
                persona,
                page.providers,
                page.live2d.paths,
            )
            &&& after.live2d.missing == missing_model(persona, page.live2d.paths)
            &&& after.live2d.paths == page.live2d.paths
            &&& after.live2d.labels == page.live2d.labels
            &&& after.memory.usage is None
            &&& after.memory.pending_confirm == page.memory.pending_confirm
            &&& after.draft == page.draft
            &&& after.submitted == page.submitted
            &&& after.providers == page.providers
            &&& after.cleanup == page.cleanup
            &&& after.status == page.status
            &&& after.input_edit == page.input_edit
            &&& (PersonaUi {
                editing_index: page.ui.editing_index,
                loading_form: page.ui.loading_form,
                ..after.ui
            }) == page.ui
            &&& page.ui.active_page != PersonaPage::Context ==> after.pane == page.pane
            &&& page.turn_effects(index)[0] == PersonaEffect::FillForm
            &&& page.turn_effects(index).last() == PersonaEffect::Notify
            &&& page.turn_effects(index) == seq![PersonaEffect::FillForm] + page.form_turned(
                index,
            ).showing_context_effects() + seq![PersonaEffect::Notify]
        }),
{
}

/// Selecting a persona takes it into use and turns to it; a new persona is added last, in
/// use.
pub proof fn selected_persona_comes_into_use(
    page: PersonaState,
    index: usize,
    persona: PersonaView,
)
    ensures
        index >= page.draft.personas.len() ==> page.after_select(index) == page
            && page.select_effects(index).len() == 0,
        index < page.draft.personas.len() ==> {
            let after = page.after_select(index);
            let id = page.draft.personas[index as int].id;
            let using = page.using(id);
            &&& after.draft.selected == Some(id)
            &&& after.draft.personas == page.draft.personas
            &&& after.draft.pending_deletions == page.draft.pending_deletions
            &&& after.ui.editing_index == Some(index)
            &&& after == using.turned_to(Some(index))
            &&& page.select_effects(index) == using.turn_effects(Some(index)).push(
                PersonaEffect::SaveDraft,
            )
        },
        page.using(persona.id).draft == (PersonaSettingsData {
            selected: Some(persona.id),
            ..page.draft
        }),
        (PersonaState { draft: page.draft, ..page.using(persona.id) }) == page,
        ({
            let after = page.with_new_persona(persona);
            &&& after.draft.personas == page.draft.personas.push(persona)
            &&& after.draft.selected == Some(persona.id)
            &&& after.draft.pending_deletions == page.draft.pending_deletions
            &&& (PersonaState { draft: page.draft, ..after }) == page
        }),
{
}

/// New models on offer leave each persona bound to what it was bound to.
pub proof fn offers_follow_what_is_bound(
    page: PersonaState,
    providers: LlmSettingsView,
    labels: Seq<Seq<char>>,
    paths: Seq<Seq<char>>,
)
    ensures
        page.editing() matches Some(persona) ==> page.bound_model() == persona.model
            && page.bound_tts_model() == persona.tts_model && page.bound_live2d_model()
            == persona.live2d_model,
        page.editing() is None ==> page.bound_model() is None && page.bound_tts_model() is None
            && page.bound_live2d_model() is None,
        ({
            let after = page.with_providers(providers);
            &&& after.providers == providers
            &&& after.form.provider_row == model_row(
                providers,
                ModelKind::ChatCompletions,
                page.bound_model(),
            )
            &&& after.form.tts_row == model_row(
                providers,
                ModelKind::SpeechSynthesis,
                page.bound_tts_model(),
            )
            &&& after.ui.loading_form
            &&& (PersonaState {
                providers: page.providers,
                form: PersonaFormView {
                    provider_row: page.form.provider_row,
                    tts_row: page.form.tts_row,
                    ..after.form
                },
                ui: PersonaUi { loading_form: page.ui.loading_form, ..after.ui },
                ..after
            }) == page
        }),
        ({
            let after = page.with_live2d_models(labels, paths);
            &&& after.live2d.labels == labels
            &&& after.live2d.paths == paths
            &&& after.live2d.missing == missing_model(page.editing(), paths)
            &&& after.form.live2d_row == live2d_row(paths, page.bound_live2d_model())
            &&& after.ui.loading_form
            &&& (PersonaState {
                live2d: page.live2d,
                form: PersonaFormView { live2d_row: page.form.live2d_row, ..after.form },
                ui: PersonaUi { loading_form: page.ui.loading_form, ..after.ui },
                ..after
            }) == page
        }),
{
}

/// The page opens with the settings that it is given, with nothing under way, and holds back
/// the identifiers that wait to be cleaned up.
pub proof fn page_opens_as_it_is_given(
    draft: PersonaSettingsData,
    reserved: Set<Seq<char>>,
    submitted: PersonaSettingsData,
    providers: LlmSettingsView,
    labels: Seq<Seq<char>>,
    paths: Seq<Seq<char>>,
    memory_available: bool,
    id: Seq<char>,
)
    ensures
        ({
            let page = PersonaState::opened(
                draft,
                reserved,
                submitted,
                providers,
                labels,
                paths,
                memory_available,
            );
            let persona = draft.persona_at(page.ui.editing_index);
            &&& page.draft == draft && page.submitted == submitted && page.providers == providers
            &&& page.live2d.labels == labels && page.live2d.paths == paths && page.live2d.missing
                == missing_model(persona, paths)
            &&& page.form == PersonaFormView::showing(persona, providers, paths)
            &&& draft.opening_position() matches Some(index) ==> page.ui.editing_index == Some(
                index as usize,
            )
            &&& draft.opening_position() is None ==> page.ui.editing_index is None
            &&& page.ui.active_page == PersonaPage::Definition && !page.ui.loading_form
                && page.ui.save_revision == 0 && page.ui.writes_in_flight == 0
                && !page.ui.window_transferred && page.ui.toast_revision == 0
            &&& page.pane.editors.len() == 0 && page.pane.selected == Set::<u64>::empty()
                && page.pane.drag is None && page.pane.error is None
                && page.pane.flags.editing is None && !page.pane.flags.loading
                && page.pane.flags.revision == 0 && page.pane.flags.auto_refresh_revision == 0
                && page.pane.flags.observed_live_revision is None
                && page.pane.flags.scroll_revision == 0 && !page.pane.flags.scroll_scheduled
            &&& page.memory.available == memory_available && page.memory.usage is None
                && page.memory.usage_error is None && page.memory.usage_revision == 0
                && page.memory.pending_confirm is None
            &&& page.cleanup.pending.contains(id) <==> reserved.contains(id)
                || draft.pending_deletions.contains(id)
            &&& page.cleanup.in_flight == Set::<Seq<char>>::empty()
            &&& page.status is None && page.input_edit is None
        }),
{
}

/// A field that is entered remembers its text until it is left.
pub proof fn entered_field_remembers_its_text(
    page: PersonaState,
    field: u32,
    text: String,
    single_line: bool,
)
    ensures
        page.ui.loading_form ==> page.edit_after(field, InputEvent::Focus { text })
            == page.input_edit,
        !page.ui.loading_form ==> page.edit_after(field, InputEvent::Focus { text }) == Some(
            InputEdit { field, text },
        ),
        page.edits_field(field) ==> page.edit_after(field, InputEvent::Blur) is None,
        !page.edits_field(field) ==> page.edit_after(field, InputEvent::Blur) == page.input_edit,
        page.edit_after(field, InputEvent::PressEnter) == page.input_edit,
        page.input_edit matches Some(edit) ==> (page.edits_field(field) <==> edit.field == field),
        page.input_edit is None ==> !page.edits_field(field),
        page.ui.loading_form ==> page.input_effects(single_line, InputEvent::Blur).len() == 0
            && page.input_effects(single_line, InputEvent::PressEnter).len() == 0,
        !page.ui.loading_form ==> page.input_effects(single_line, InputEvent::Blur) == seq![
            PersonaEffect::SaveDraft,
        ],
        !page.ui.loading_form ==> page.input_effects(true, InputEvent::PressEnter) == seq![
            PersonaEffect::SaveDraft,
            PersonaEffect::Blur,
        ],
        page.input_effects(false, InputEvent::PressEnter).len() == 0,
        page.input_effects(single_line, InputEvent::Focus { text }).len() == 0,
{
}

/// A message is stored if it says something new, is not empty, and fits with the others; its
/// text goes out under its number, for the persona that is edited.
pub proof fn new_text_is_stored(
    page: PersonaState,
    id: u64,
    value: Seq<char>,
    windowed: bool,
    tokens: usize,
    max_tokens: usize,
    index: int,
)
    requires
        page.pane.position_of(id) == Some(index),
        !page.pane.flags.loading,
    ensures
        ({
            let editor = page.pane.editors[index];
            let after = page.after_commit(id, value, windowed, tokens, max_tokens);
            let effects = page.commit_effects(id, value, windowed, tokens, max_tokens);
            let known = match page.memory.usage {
                Some(usage) => usage.tokens as int,
                None => tokens_of(page.pane.editors, page.pane.editors.len() as int),
            };
            let total = capped_sum(
                floored_difference(known, editor.tokens as int),
                tokens as int,
            );
            let restore = if windowed {
                seq![PersonaEffect::RestoreMessage { message_id: id }]
            } else {
                seq![]
            };
            let refused = restore + seq![
                PersonaEffect::StartToast { revision: revision_after(page.ui.toast_revision) },
                PersonaEffect::Notify,
            ];
            let same = value == editor.saved_content;
            let empty = !same && value.len() == 0;
            let large = !same && !empty && total > max_tokens;
            let fits = !same && !empty && !large;
            &&& page.current_tokens() == known
            &&& page.next_tokens(index, tokens) == total
            &&& same ==> after == page && effects.len() == 0
            &&& empty ==> after.status == Some(PersonaStatus::MessageEmpty) && effects == refused
            &&& large ==> after.status == Some(PersonaStatus::MessageTooLarge) && effects
                == refused
            &&& empty || large ==> after.draft == page.draft && after.memory == page.memory
                && after.pane == (if windowed {
                page.pane.restored(index)
            } else {
                page.pane
            })
            &&& fits ==> after.pane == page.pane.with_saved(index, value, tokens)
            &&& fits ==> after.memory.usage_revision == revision_after(page.memory.usage_revision)
            &&& fits ==> (page.memory.usage matches Some(usage) ==> after.memory.usage == Some(
                ContextUsage { tokens: total as usize, ..usage },
            ))
            &&& fits && page.memory.usage is None ==> after.memory.usage is None
            &&& fits ==> after.status == page.status && after.ui == page.ui && after.draft
                == page.draft
            &&& fits ==> (page.editing_id() matches Some(persona) ==> effects == seq![
                PersonaEffect::EditMessage { persona, message_id: id, content: value, windowed },
                PersonaEffect::Notify,
            ])
        }),
{
}

/// A message that is not there, or is loading, is not stored.
pub proof fn absent_message_is_not_stored(
    page: PersonaState,
    id: u64,
    value: Seq<char>,
    windowed: bool,
    tokens: usize,
    max_tokens: usize,
)
    requires
        page.pane.position_of(id) is None || page.pane.flags.loading,
    ensures
        page.after_commit(id, value, windowed, tokens, max_tokens) == page,
        page.commit_effects(id, value, windowed, tokens, max_tokens).len() == 0,
{
}

/// All messages are stored one after another, each with its own text without the space
/// around it, and its own weight.
pub proof fn messages_are_stored_one_by_one(
    page: PersonaState,
    weights: MessageWeights,
    count: int,
    id: u64,
)
    requires
        0 <= count,
    ensures
        ({
            let before = page.committed(weights.tokens@, weights.max_tokens, count);
            let editor = before.pane.editors[count];
            let tokens = weights.tokens@[count];
            &&& page.committed(weights.tokens@, weights.max_tokens, count + 1)
                == before.after_commit(
                editor.id,
                trimmed(editor.text),
                false,
                tokens,
                weights.max_tokens,
            )
            &&& page.committed_effects(weights.tokens@, weights.max_tokens, count + 1)
                == page.committed_effects(weights.tokens@, weights.max_tokens, count)
                + before.commit_effects(
                editor.id,
                trimmed(editor.text),
                false,
                tokens,
                weights.max_tokens,
            )
        }),
        page.committed(weights.tokens@, weights.max_tokens, 0) == page,
        page.committed_effects(weights.tokens@, weights.max_tokens, 0).len() == 0,
        page.all_committed(weights) == page.committed(
            weights.tokens@,
            weights.max_tokens,
            page.pane.editors.len() as int,
        ),
        page.all_committed_effects(weights) == page.committed_effects(
            weights.tokens@,
            weights.max_tokens,
            page.pane.editors.len() as int,
        ),
        page.pane.position_of(id) matches Some(index) ==> page.left_text(id) == trimmed(
            page.pane.editors[index].text,
        ),
        page.pane.position_of(id) is None ==> page.left_text(id).len() == 0,
        page.weighed_by(weights) <==> page.pane.editors.len() <= weights.tokens@.len(),
{
}

/// The size of a text in a file is that of its characters.
pub proof fn size_is_that_of_the_characters(text: Seq<char>, c: char)
    ensures
        byte_length(Seq::empty()) == 0,
        byte_length(text.push(c)) == byte_length(text) + byte_width(c),
        c as u32 <= 0x7f ==> byte_width(c) == 1,
        0x80 <= c as u32 <= 0x7ff ==> byte_width(c) == 2,
        0x800 <= c as u32 <= 0xffff ==> byte_width(c) == 3,
        0x10000 <= c as u32 ==> byte_width(c) == 4,
{
    assert(text.push(c).drop_last() =~= text);
}

/// Turning to a page shows that page; the conversation is loaded on its own page, and no
/// longer watched elsewhere.
pub proof fn page_turns_to_the_page(page: PersonaState, next: PersonaPage)
    ensures
        ({
            let after = page.with_page(next);
            &&& after.ui.active_page == next
            &&& (PersonaUi { active_page: page.ui.active_page, ..after.ui }) == page.ui
            &&& after.pane.drag is None
            &&& after.pane.flags.editing is None
            &&& after.pane.flags.auto_refresh_revision == revision_after(
                page.pane.flags.auto_refresh_revision,
            )
            &&& after.pane.flags.revision == revision_after(page.pane.flags.revision)
            &&& next == PersonaPage::Context ==> after.pane.flags.loading == page.editing() is Some
                && after.pane.editors.len() == 0
            &&& next != PersonaPage::Context ==> !after.pane.flags.loading && after.pane.editors
                == page.pane.editors && after.pane.selected == page.pane.selected && after.memory
                == page.memory
            &&& after.draft == page.draft && after.submitted == page.submitted && after.form
                == page.form && after.cleanup == page.cleanup && after.status == page.status
            &&& page.page_effects(next).last() == PersonaEffect::Notify
            &&& next != PersonaPage::Context ==> page.page_effects(next) == seq![
                PersonaEffect::Notify,
            ]
            &&& next == PersonaPage::Context ==> page.page_effects(next) == (page.usage_effects()
                + page.context_effects() + page.watch_effects()).push(PersonaEffect::Notify)
        }),
{
    let turned = PersonaState {
        ui: PersonaUi { active_page: next, ..page.ui },
        pane: page.pane.without_drag().with_editing(None),
        ..page
    };
    assert(turned.editing() == page.editing());
    if next == PersonaPage::Context {
        assert(turned.usage_effects() == page.usage_effects());
        assert(turned.context_effects() == page.context_effects());
        assert(turned.watch_effects() == page.watch_effects());
    }
}

/// The conversation is loaded again if it has changed meanwhile and nobody is working on it;
/// it is watched on as long as the watch is current.
pub proof fn changed_conversation_is_loaded_again(
    page: PersonaState,
    revision: u64,
    live: Option<u64>,
)
    ensures
        ({
            let current = page.ui.active_page == PersonaPage::Context
                && page.pane.flags.auto_refresh_revision == revision;
            let changed = live is Some && live != page.pane.flags.observed_live_revision
                && page.pane.flags.editing is None && page.pane.drag is None
                && page.pane.selected == Set::<u64>::empty();
            let after = page.polled(revision, live);
            let again = PersonaEffect::PollContext { revision, target: page.editing_id() };
            &&& !(current && changed) ==> after == page
            &&& current && changed ==> after.pane.flags.observed_live_revision == live
                && after.pane.flags.loading == page.editing() is Some
                && after.pane.flags.revision == revision_after(page.pane.flags.revision)
                && after.memory.usage_revision == revision_after(page.memory.usage_revision)
                && after.draft == page.draft && after.ui == page.ui
            &&& !current ==> page.poll_effects(revision, live).len() == 0
            &&& current && !changed ==> page.poll_effects(revision, live) == seq![again]
            &&& current && changed ==> page.poll_effects(revision, live) == (page.usage_effects()
                + page.context_effects()).push(again)
        }),
        page.observing(live).pane.flags.observed_live_revision == live,
        (PersonaState {
            pane: ContextPaneView {
                flags: ContextFlags {
                    observed_live_revision: page.pane.flags.observed_live_revision,
                    ..page.observing(live).pane.flags
                },
                ..page.observing(live).pane
            },
            ..page.observing(live)
        }) == page,
{
    assert(seq![PersonaEffect::PollContext { revision, target: page.editing_id() }] =~= Seq::<
        PersonaEffect,
    >::empty().push(PersonaEffect::PollContext { revision, target: page.editing_id() }));
}

/// Deleted messages are gone from the list and from the usage; where none of them is there,
/// nothing happens.
pub proof fn deleted_messages_are_gone(page: PersonaState, persona: Seq<char>, ids: Seq<u64>)
    ensures
        ({
            let editors = page.pane.editors;
            let removed = count_among(editors, ids.to_set(), editors.len() as int);
            let weight = tokens_among(editors, ids.to_set(), editors.len() as int);
            let after = page.with_deleted(ids.to_set());
            &&& removed == 0 ==> after == page && page.delete_effects(persona, ids).len() == 0
            &&& removed != 0 ==> {
                &&& after.pane == page.pane.without_messages(ids.to_set())
                &&& after.memory.usage_revision == revision_after(page.memory.usage_revision)
                &&& page.memory.usage matches Some(usage) ==> after.memory.usage == Some(
                    ContextUsage {
                        messages: floored_difference(usage.messages as int, removed) as usize,
                        tokens: floored_difference(usage.tokens as int, weight) as usize,
                        ..usage
                    },
                )
                &&& page.memory.usage is None ==> after.memory.usage is None
                &&& after.draft == page.draft && after.ui == page.ui && after.status == page.status
                &&& page.delete_effects(persona, ids) == seq![
                    PersonaEffect::DeleteMessages { persona, message_ids: ids, count: removed },
                    PersonaEffect::Notify,
                ]
            }
        }),
{
}

/// Usage is shown as it was told, and so is why it was not.
pub proof fn usage_is_shown_as_told(page: PersonaState, usage: ContextUsage, error: String)
    ensures
        page.with_usage(Ok(usage)).memory.usage == Some(usage),
        page.with_usage(Ok(usage)).memory.usage_error is None,
        page.with_usage(Err(error)).memory.usage is None,
        page.with_usage(Err(error)).memory.usage_error == Some(UsageError::Failed(error)),
        page.with_usage(Ok(usage)).memory.usage_revision == page.memory.usage_revision,
        page.with_usage(Err(error)).memory.usage_revision == page.memory.usage_revision,
        (PersonaState { memory: page.memory, ..page.with_usage(Ok(usage)) }) == page,
        (PersonaState { memory: page.memory, ..page.with_usage(Err(error)) }) == page,
        stat_text(Some(usage.messages)) == decimal_text(usage.messages as nat),
        stat_text(None) == "-"@,
{
}

/// A change of the conversation that failed is made good by loading again, on the page of the
/// persona it was for.
pub proof fn failed_change_is_loaded_again(page: PersonaState, persona: Seq<char>)
    ensures
        page.editing_id() != Some(persona) ==> page.mutation_failed(persona) == page
            && page.mutation_failed_effects(persona).len() == 0,
        page.editing_id() == Some(persona) && page.ui.active_page == PersonaPage::Context
            ==> page.mutation_failed(persona) == page.asking_usage().loading_context()
            && page.mutation_failed_effects(persona) == page.usage_effects()
            + page.context_effects(),
        page.editing_id() == Some(persona) && page.ui.active_page != PersonaPage::Context
            ==> page.mutation_failed(persona) == page.asking_usage()
            && page.mutation_failed_effects(persona) == page.usage_effects(),
{
    assert(page.usage_effects() + Seq::<PersonaEffect>::empty() =~= page.usage_effects());
}

/// Settings that are submitted become the draft, and are written under a revision of their
/// own, which counts as under way.
pub proof fn submitted_settings_are_written(page: PersonaState, settings: PersonaSettingsData)
    ensures
        ({
            let after = page.after_submit(settings);
            &&& after.draft == settings
            &&& after.submitted == settings
            &&& after.status == Some(PersonaStatus::Saving)
            &&& after.ui.save_revision == revision_after(page.ui.save_revision)
            &&& page.ui.writes_in_flight < usize::MAX ==> after.ui.writes_in_flight
                == page.ui.writes_in_flight + 1
            &&& after.cleanup == page.cleanup && after.form == page.form && after.pane == page.pane
            &&& page.submit_effects(settings).last() == (PersonaEffect::WriteSettings {
                revision: revision_after(page.ui.save_revision),
            })
            &&& page.ui.active_page != PersonaPage::Context ==> page.submit_effects(settings)
                == seq![
                PersonaEffect::StartToast { revision: revision_after(page.ui.toast_revision) },
                PersonaEffect::Notify,
                PersonaEffect::WriteSettings { revision: revision_after(page.ui.save_revision) },
            ]
        }),
        page.with_draft(settings).draft == settings,
        page.with_draft(settings).submitted == settings,
        (PersonaState {
            draft: page.draft,
            submitted: page.submitted,
            ..page.with_draft(settings)
        }) == page,
        page.with_write().ui.save_revision == revision_after(page.ui.save_revision),
        page.ui.writes_in_flight > 0 ==> page.without_write().ui.writes_in_flight
            == page.ui.writes_in_flight - 1,
        page.ui.writes_in_flight == 0 ==> page.without_write() == page,
        (PersonaState {
            ui: PersonaUi {
                writes_in_flight: page.ui.writes_in_flight,
                ..page.without_write().ui
            },
            ..page.without_write()
        }) == page,
{
}

/// The latest write is reported as it ended, with the settings that are in force instead
/// where it was not stored; an earlier one is not reported.
pub proof fn latest_write_is_reported(
    page: PersonaState,
    revision: u64,
    settings: PersonaSettings,
    error: String,
    published: Vec<String>,
    current: Vec<String>,
)
    ensures
        ({
            let latest = page.ui.save_revision == revision;
            let stored = page.after_write(revision, PersonaWriteOutcome::Stored { published, current });
            let replaced = page.after_write(revision, PersonaWriteOutcome::Replaced { settings });
            let failed = page.after_write(revision, PersonaWriteOutcome::Failed { settings, error });
            let left = if page.ui.writes_in_flight == 0 {
                0
            } else {
                page.ui.writes_in_flight - 1
            };
            &&& latest ==> stored.status == Some(PersonaStatus::Saved)
            &&& latest ==> replaced.status == Some(PersonaStatus::SaveReplaced)
                && replaced.submitted == settings@
            &&& latest ==> failed.status == Some(PersonaStatus::SaveFailed(error))
                && failed.submitted == settings@
            &&& !latest ==> stored.status == page.status && replaced.status == page.status
                && failed.status == page.status && replaced.submitted == page.submitted
                && failed.submitted == page.submitted
            &&& stored.submitted == page.submitted
            &&& stored.draft == page.draft && replaced.draft == page.draft && failed.draft
                == page.draft
            &&& stored.ui.writes_in_flight == left && replaced.ui.writes_in_flight == left
                && failed.ui.writes_in_flight == left
            &&& replaced.cleanup == page.cleanup && failed.cleanup == page.cleanup
            &&& stored.cleanup.in_flight == page.cleanup.in_flight
        }),
        ({
            let told = if page.ui.save_revision == revision {
                seq![
                    PersonaEffect::StartToast { revision: revision_after(page.ui.toast_revision) },
                    PersonaEffect::Notify,
                ]
            } else {
                seq![]
            };
            &&& page.write_effects(revision, PersonaWriteOutcome::Replaced { settings })
                == told.push(PersonaEffect::CheckIdle)
            &&& page.write_effects(revision, PersonaWriteOutcome::Failed { settings, error })
                == told.push(PersonaEffect::CheckIdle)
            &&& page.write_effects(revision, PersonaWriteOutcome::Stored { published, current })
                == (seq![PersonaEffect::Saved] + told + seq![
                PersonaEffect::ReleaseCleanups {
                    personas: page.cleanup.pending.difference(text_views(published@).to_set()),
                },
            ] + page.cleanup_effects(text_views(current@))).push(PersonaEffect::CheckIdle)
        }),
{
}

/// Identifiers are held back while their deletion is published, wanted or under way; those
/// whose deletion is published no longer are let go once it is stored.
pub proof fn identifiers_are_held_back_while_needed(
    page: PersonaState,
    published: Seq<Seq<char>>,
    id: Seq<char>,
)
    ensures
        ({
            let updated = page.cleanups_updated(published);
            let released = page.cleanups_released(published);
            &&& updated.cleanup.pending.contains(id) <==> published.contains(id) || (
            page.cleanup.pending.contains(id) && (page.draft.pending_deletions.contains(id)
                || page.cleanup.in_flight.contains(id)))
            &&& updated.cleanup.in_flight == page.cleanup.in_flight
            &&& (PersonaState { cleanup: page.cleanup, ..updated }) == page
            &&& released.cleanup.pending.contains(id) <==> page.cleanup.pending.contains(id) && (
            published.contains(id) || page.cleanup.in_flight.contains(id))
            &&& released.cleanup.in_flight == page.cleanup.in_flight
            &&& (PersonaState { cleanup: page.cleanup, ..released }) == page
        }),
        page.unmarked(id).draft == PersonaSettings::without_mark(page.draft, id),
        (PersonaState { draft: page.draft, ..page.unmarked(id) }) == page,
{
}

proof fn claims_do_not_look_ahead(
    deletions: Seq<Seq<char>>,
    persona: Seq<char>,
    published: Seq<Seq<char>>,
    in_flight: Set<Seq<char>>,
    count: int,
)
    requires
        0 <= count <= deletions.len(),
    ensures
        claimable(deletions.push(persona), published, in_flight, count) == claimable(
            deletions,
            published,
            in_flight,
            count,
        ),
    decreases count,
{
    if count > 0 {
        claims_do_not_look_ahead(deletions, persona, published, in_flight, count - 1);
        assert(deletions.push(persona)[count - 1] == deletions[count - 1]);
    }
}

/// A deleted persona is claimed for cleaning up once its deletion is published and as long as
/// it is not being cleaned up, in the order of the deletions.
pub proof fn published_deletions_are_claimed(
    page: PersonaState,
    deletions: Seq<Seq<char>>,
    persona: Seq<char>,
    published: Seq<Seq<char>>,
    in_flight: Set<Seq<char>>,
)
    ensures
        ({
            let before = claimable(deletions, published, in_flight, deletions.len() as int);
            let after = claimable(
                deletions.push(persona),
                published,
                in_flight,
                deletions.len() as int + 1,
            );
            let due = published.contains(persona) && !in_flight.contains(persona);
            &&& due ==> after == before.push(PersonaEffect::ClaimCleanup { persona })
            &&& !due ==> after == before
        }),
        claimable(Seq::empty(), published, in_flight, 0).len() == 0,
        page.cleanup_effects(published) == claimable(
            page.draft.pending_deletions,
            published,
            page.cleanup.in_flight,
            page.draft.pending_deletions.len() as int,
        ),
{
    claims_do_not_look_ahead(deletions, persona, published, in_flight, deletions.len() as int);
    assert(deletions.push(persona)[deletions.len() as int] == persona);
}

/// A row shows its persona and the provider of the model that it is bound to.
pub proof fn row_shows_its_persona(page: PersonaState, index: int, editor: EditorView)
    ensures
        ({
            let persona = page.draft.personas[index];
            let row = page.row_of(index);
            &&& row.id == persona.id
            &&& row.name == persona.name
            &&& page.ui.editing_index is None ==> !row.editing
            &&& page.ui.editing_index matches Some(edited) ==> (row.editing <==> edited == index)
            &&& persona.model is None ==> row.subtitle == PersonaSubtitle::Inherit
            &&& persona.model matches Some(id) ==> (page.providers.position_of(id) matches Some(
                at,
            ) ==> row.subtitle == PersonaSubtitle::Provider(page.providers.models[at].provider))
            &&& persona.model matches Some(id) ==> (page.providers.position_of(id) is None
                ==> row.subtitle == PersonaSubtitle::ProviderMissing)
        }),
        ({
            let row = page.message_row(editor);
            &&& row.id == editor.id
            &&& row.assistant <==> editor.role == ChatRole::Assistant
            &&& row.selected <==> page.pane.selected.contains(editor.id)
            &&& row.editing <==> page.pane.flags.editing == Some(editor.id)
        }),
        page.draws_messages() <==> !page.pane.flags.loading && page.pane.error is None,
{
}

/// Letters are the same whether they are large or small.
pub proof fn letters_are_the_same_large_or_small(left: Seq<char>, right: Seq<char>, c: char)
    ensures
        'A' <= c <= 'Z' ==> lower_letter(c) == c as u32 + 32,
        !('A' <= c <= 'Z') ==> lower_letter(c) == c as u32,
        same_letters(left, right) <==> left.len() == right.len() && forall|i: int|
            0 <= i < left.len() ==> lower_letter(#[trigger] left[i]) == lower_letter(right[i]),
{
}

/// Each key means what it is for; everything else means nothing here.
pub proof fn keys_mean_what_they_are_for(key: Seq<char>, alt: bool)
    ensures
        same_letters(key, "escape"@) ==> key_meaning(key, alt) == PageKey::Escape,
        !same_letters(key, "escape"@) && alt && same_letters(key, "a"@) ==> key_meaning(key, alt)
            == PageKey::SelectAll,
        !same_letters(key, "escape"@) && !(alt && same_letters(key, "a"@)) && same_letters(
            key,
            "delete"@,
        ) ==> key_meaning(key, alt) == PageKey::Delete,
        !same_letters(key, "escape"@) && !(alt && same_letters(key, "a"@)) && !same_letters(
            key,
            "delete"@,
        ) ==> key_meaning(key, alt) == PageKey::Other,
{
}

/// Keys for messages work on the page of the conversation, while nothing is written there
/// and nothing is asked: all messages are selected, or those selected are asked to be
/// deleted.
pub proof fn message_keys_work_on_messages(page: PersonaState)
    ensures
        ({
            let works = page.ui.active_page == PersonaPage::Context
                && page.pane.flags.editing is None && page.memory.pending_confirm is None;
            let some = page.pane.selected != Set::<u64>::empty();
            let all = page.after_key(PageKey::SelectAll);
            let delete = page.after_key(PageKey::Delete);
            &&& page.takes_message_keys() == works
            &&& works ==> all.pane == page.pane.with_all_selected()
            &&& works ==> page.key_effects(PageKey::SelectAll) == seq![
                PersonaEffect::Consume,
                PersonaEffect::Notify,
            ]
            &&& !works ==> all == page && page.key_effects(PageKey::SelectAll).len() == 0
            &&& (PersonaState { pane: page.pane, ..all }) == page
            &&& works && some ==> delete == page.asking_to_delete(page.selected_messages())
            &&& works && some ==> page.key_effects(PageKey::Delete) == seq![PersonaEffect::Consume]
                + page.asking_effects(page.selected_messages())
            &&& !(works && some) ==> delete == page && page.key_effects(PageKey::Delete).len() == 0
            &&& page.after_key(PageKey::Other) == page
            &&& page.key_effects(PageKey::Other).len() == 0
            &&& page.after_key(PageKey::Escape) == page.escaped()
            &&& page.key_effects(PageKey::Escape) == page.escape_effects()
        }),
{
}

/// Escape takes back the innermost thing first: a question, a message being written, a field
/// being written, or a selection.
pub proof fn escape_takes_back_the_innermost(page: PersonaState)
    ensures
        ({
            let after = page.escaped();
            let asked = page.memory.pending_confirm is Some;
            let writes = !asked && page.pane.flags.editing is Some;
            let fills = !asked && !writes && page.input_edit is Some;
            let selects = !asked && !writes && !fills && (page.pane.drag is Some
                || page.pane.selected != Set::<u64>::empty());
            let consumed = seq![PersonaEffect::Consume, PersonaEffect::Notify];
            &&& asked ==> after == page.confirming(None) && page.escape_effects() == consumed
            &&& writes ==> ({
                let id = page.pane.flags.editing->0;
                match page.pane.position_of(id) {
                    Some(index) => {
                        &&& after.pane.editors[index].text
                            == page.pane.editors[index].saved_content
                        &&& after.pane == page.pane.restored(index).with_editing(None)
                        &&& (PersonaState { pane: page.pane, ..after }) == page
                        &&& page.escape_effects() == seq![
                            PersonaEffect::Consume,
                            PersonaEffect::RestoreMessage { message_id: id },
                            PersonaEffect::Blur,
                            PersonaEffect::Notify,
                        ]
                    },
                    None => after == page && page.escape_effects() == seq![
                        PersonaEffect::Consume,
                    ],
                }
            })
            &&& fills ==> after == (PersonaState { input_edit: None, ..page })
                && page.escape_effects() == seq![
                PersonaEffect::Consume,
                PersonaEffect::RestoreField {
                    field: page.input_edit->0.field,
                    text: page.input_edit->0.text@,
                },
            ]
            &&& selects ==> after.pane.selected == Set::<u64>::empty() && after.pane.drag is None
                && after.pane.editors == page.pane.editors && (PersonaState {
                pane: page.pane,
                ..after
            }) == page && page.escape_effects() == consumed
            &&& !asked && !writes && !fills && !selects ==> after == page
                && page.escape_effects().len() == 0
        }),
{
    if let Some(id) = page.pane.flags.editing {
        first_position_is_first(
            page.pane.editors,
            0,
            crate::settings::persona::pane::has_message_id(id),
        );
    }
}

/// Deleting messages is asked for those of them that are there, of the persona that is
/// edited.
pub proof fn deletion_is_asked_for_what_is_there(page: PersonaState, ids: Seq<u64>)
    ensures
        ({
            let known = known_ids(page.pane.editors, ids, ids.len() as int);
            let asks = !page.pane.flags.loading && page.editing() is Some && known.len() > 0;
            let after = page.asking_to_delete(ids);
            &&& page.deletable(ids) == known
            &&& page.asks_to_delete(ids) == asks
            &&& !asks ==> after == page && page.asking_effects(ids).len() == 0
            &&& asks ==> (page.editing_id() matches Some(persona) && after == page.confirming(
                Some(PendingConfirmView::DeleteMessages { persona, message_ids: known }),
            ))
            &&& asks ==> page.asking_effects(ids) == seq![PersonaEffect::Notify]
            &&& page.selected_messages() == ids_among(
                page.pane.editors,
                page.pane.selected,
                page.pane.editors.len() as int,
            )
            &&& page.selected_text() == joined_lines(
                texts_among(
                    page.pane.editors,
                    page.pane.selected,
                    page.pane.editors.len() as int,
                ),
            )
        }),
{
}

/// Work on the messages is work on the messages alone; scrolling is planned as a scroll of
/// its own.
pub proof fn work_on_messages_leaves_the_rest(
    page: PersonaState,
    pane: ContextPaneView,
    near_edge: bool,
)
    ensures
        page.with_pane(pane).pane == pane,
        (PersonaState { pane: page.pane, ..page.with_pane(pane) }) == page,
        page.pane.scrolling_starts(near_edge) ==> page.scroll_effects(near_edge) == seq![
            PersonaEffect::ScheduleScroll { revision: page.pane.flags.scroll_revision },
        ],
        !page.pane.scrolling_starts(near_edge) ==> page.scroll_effects(near_edge).len() == 0,
{
}

/// Whether what is on offer, what the form holds and which field is being written are the
/// same.
pub open spec fn same_form(after: PersonaState, before: PersonaState) -> bool {
    &&& after.providers == before.providers
    &&& after.live2d == before.live2d
    &&& after.form == before.form
    &&& after.input_edit == before.input_edit
}

/// Submitting and writing are about the settings and how they are stored, and leave the rest
/// of the page as it is.
pub proof fn writing_leaves_the_rest(
    page: PersonaState,
    settings: PersonaSettingsData,
    revision: u64,
    outcome: PersonaWriteOutcome,
)
    ensures
        ({
            let after = page.after_submit(settings);
            &&& same_form(after, page)
            &&& after.pane == page.pane
            &&& after.cleanup == page.cleanup
            &&& after.memory.pending_confirm == page.memory.pending_confirm
            &&& after.memory.available == page.memory.available
            &&& page.ui.active_page != PersonaPage::Context ==> after.memory == page.memory
            &&& (PersonaUi {
                save_revision: page.ui.save_revision,
                writes_in_flight: page.ui.writes_in_flight,
                toast_revision: page.ui.toast_revision,
                ..after.ui
            }) == page.ui
        }),
        ({
            let after = page.after_write(revision, outcome);
            &&& same_form(after, page)
            &&& after.pane == page.pane
            &&& after.memory == page.memory
            &&& (PersonaUi {
                writes_in_flight: page.ui.writes_in_flight,
                toast_revision: page.ui.toast_revision,
                ..after.ui
            }) == page.ui
        }),
{
}

/// Clearing memory is about the conversation, and leaves the settings but for a mark, and the
/// rest of the page, as they are.
pub proof fn clearing_leaves_the_rest(
    page: PersonaState,
    persona: Seq<char>,
    scope: MemoryScope,
    result: Result<(), String>,
)
    ensures
        ({
            let ended = page.clearing_ended(persona, scope, result);
            &&& same_form(ended, page)
            &&& ended.submitted == page.submitted
            &&& ended.status == page.status
            &&& ended.draft.personas == page.draft.personas
            &&& ended.draft.selected == page.draft.selected
            &&& (MemoryPaneView { usage: page.memory.usage, ..ended.memory }) == page.memory
        }),
        ({
            let after = page.after_clearing(persona, scope, result);
            &&& same_form(after, page)
            &&& after.submitted == page.submitted
            &&& after.draft.personas == page.draft.personas
            &&& after.draft.selected == page.draft.selected
            &&& after.memory.pending_confirm == page.memory.pending_confirm
            &&& (PersonaUi { toast_revision: page.ui.toast_revision, ..after.ui }) == page.ui
        }),
{
}

/// Work on messages leaves the settings and the form as they are.
pub proof fn messages_leave_the_settings(
    page: PersonaState,
    id: u64,
    value: Seq<char>,
    windowed: bool,
    tokens: usize,
    max_tokens: usize,
    ids: Set<u64>,
    next: PersonaPage,
)
    ensures
        ({
            let after = page.after_commit(id, value, windowed, tokens, max_tokens);
            &&& same_form(after, page)
            &&& after.draft == page.draft
            &&& after.submitted == page.submitted
            &&& after.cleanup == page.cleanup
            &&& after.pane.selected == page.pane.selected
            &&& after.pane.drag == page.pane.drag
            &&& after.pane.flags == page.pane.flags
            &&& (MemoryPaneView {
                usage: page.memory.usage,
                usage_revision: page.memory.usage_revision,
                ..after.memory
            }) == page.memory
            &&& (PersonaUi { toast_revision: page.ui.toast_revision, ..after.ui }) == page.ui
        }),
        ({
            let after = page.with_deleted(ids);
            &&& same_form(after, page)
            &&& after.submitted == page.submitted
            &&& after.cleanup == page.cleanup
            &&& (MemoryPaneView {
                usage: page.memory.usage,
                usage_revision: page.memory.usage_revision,
                ..after.memory
            }) == page.memory
        }),
        ({
            let after = page.with_page(next);
            &&& same_form(after, page)
            &&& next == PersonaPage::Context ==> after.memory == page.asking_usage().memory
            &&& after.pane.flags.observed_live_revision == page.pane.flags.observed_live_revision
            &&& next != PersonaPage::Context ==> after.pane.error == page.pane.error
        }),
{
    let turned = PersonaState {
        ui: PersonaUi { active_page: next, ..page.ui },
        pane: page.pane.without_drag().with_editing(None),
        ..page
    };
    assert(turned.editing() == page.editing());
}

/// Turning to another persona drops what was known of the usage, and asks anew where it is
/// on view.
pub proof fn turning_asks_for_usage_anew(page: PersonaState, index: Option<usize>)
    ensures
        ({
            let after = page.turned_to(index);
            let turned = page.form_turned(index);
            &&& turned.memory == (MemoryPaneView {
                usage: None,
                usage_error: None,
                ..page.memory
            })
            &&& turned.pane == page.pane
            &&& page.ui.active_page == PersonaPage::Context ==> after.memory
                == turned.asking_usage().memory
            &&& page.ui.active_page != PersonaPage::Context ==> after.memory == turned.memory
            &&& page.ui.active_page == PersonaPage::Context ==> after.pane
                == turned.loading_context().with_new_watch().pane
        }),
{
}

} // verus!

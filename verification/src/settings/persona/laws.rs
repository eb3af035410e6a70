//! What holds of the page whatever is done on it.

use vstd::prelude::*;

use crate::number_text::trimmed;
use crate::revision::revision_is_fresh;
use crate::search::first_position_is_first;
use crate::settings::llm::ModelKind;
use crate::settings::persona::actions::{MemoryScope, PersonaEffect};
use crate::settings::persona::config::{without_text_removes, PersonaSettingsData, PersonaView};
use crate::settings::persona::context::{commit_keeps_surroundings, MessageWeights};
use crate::settings::persona::form::{on_offer, persona_form_round_trips};
use crate::settings::persona::options::{is_next_persona_id, next_persona_id_is_free};
use crate::settings::persona::pane::{
    count_among, editor_ids, editors_without, has_message_id, known_ids, ContextDragView,
    ContextPaneView, EditorView,
};
use crate::settings::persona::persistence::{claimable, PersonaWriteOutcome};
use crate::settings::persona::view::PersonaState;

verus! {

/// The page can count what it offers after everything that commits, reads the form, or turns
/// to another persona.
pub proof fn page_stays_well_formed(
    page: PersonaState,
    weights: MessageWeights,
    index: Option<usize>,
    id: Seq<char>,
)
    requires
        page.well_formed(),
    ensures
        page.all_committed(weights).well_formed(),
        page.captured().well_formed(),
        page.turned_to(index).well_formed(),
        page.after_delete(id).well_formed(),
{
    commit_keeps_surroundings(
        page,
        weights.tokens@,
        weights.max_tokens,
        page.pane.editors.len() as int,
    );
}

/// A message that was accepted keeps the conversation within its limit, and leaving it once
/// more has nothing left to save.
pub proof fn accepted_message_fits_and_is_saved(
    page: PersonaState,
    id: u64,
    value: Seq<char>,
    windowed: bool,
    tokens: usize,
    max_tokens: usize,
)
    requires
        !page.pane.flags.loading,
        page.pane.position_of(id) matches Some(index) && page.commit_at(
            index,
            value,
            tokens,
            max_tokens,
        ) is Accepted,
    ensures
        page.memory.usage is Some ==> page.after_commit(
            id,
            value,
            windowed,
            tokens,
            max_tokens,
        ).memory.usage->Some_0.tokens <= max_tokens,
        page.after_commit(id, value, windowed, tokens, max_tokens).commit_effects(
            id,
            value,
            windowed,
            tokens,
            max_tokens,
        ) == Seq::<PersonaEffect>::empty(),
{
    let index = page.pane.position_of(id)->Some_0;
    let after = page.after_commit(id, value, windowed, tokens, max_tokens);
    first_position_is_first(page.pane.editors, 0, has_message_id(id));
    first_position_is_first(after.pane.editors, 0, has_message_id(id));
    assert(has_message_id(id)(after.pane.editors[index]));
    if let Some(found) = after.pane.position_of(id) {
        if found < index {
            assert(!has_message_id(id)(page.pane.editors[found]));
        }
        if index < found {
            assert(!has_message_id(id)(after.pane.editors[index]));
        }
    }
}

/// A message that is refused is not sent anywhere, and what has been saved of it stays.
pub proof fn refused_message_is_not_sent(
    page: PersonaState,
    id: u64,
    value: Seq<char>,
    windowed: bool,
    tokens: usize,
    max_tokens: usize,
    i: int,
)
    requires
        page.pane.position_of(id) matches Some(index) && !(page.commit_at(
            index,
            value,
            tokens,
            max_tokens,
        ) is Accepted),
        0 <= i < page.pane.editors.len(),
    ensures
        forall|j: int|
            0 <= j < page.commit_effects(id, value, windowed, tokens, max_tokens).len()
                ==> !(#[trigger] page.commit_effects(
                id,
                value,
                windowed,
                tokens,
                max_tokens,
            )[j] is EditMessage),
        page.after_commit(
            id,
            value,
            windowed,
            tokens,
            max_tokens,
        ).pane.editors[i].saved_content == page.pane.editors[i].saved_content,
{
    first_position_is_first(page.pane.editors, 0, has_message_id(id));
}

/// A page on which nothing was changed has nothing to commit.
pub proof fn untouched_messages_are_not_committed(
    page: PersonaState,
    weights: Seq<usize>,
    max_tokens: usize,
    count: int,
)
    requires
        0 <= count <= page.pane.editors.len(),
        forall|i: int|
            0 <= i < page.pane.editors.len() ==> trimmed((#[trigger] page.pane.editors[i]).text)
                == page.pane.editors[i].saved_content,
        forall|i: int, j: int|
            0 <= i < j < page.pane.editors.len() ==> (#[trigger] page.pane.editors[i]).id != (
            #[trigger] page.pane.editors[j]).id,
    ensures
        page.committed(weights, max_tokens, count) == page,
        page.committed_effects(weights, max_tokens, count) == Seq::<PersonaEffect>::empty(),
    decreases count,
{
    if count > 0 {
        untouched_messages_are_not_committed(page, weights, max_tokens, count - 1);
        let editor = page.pane.editors[count - 1];
        first_position_is_first(page.pane.editors, 0, has_message_id(editor.id));
        assert(has_message_id(editor.id)(page.pane.editors[count - 1]));
    }
}

/// Loading the messages again makes whatever is being loaded outdated.
pub proof fn reload_outdates_earlier_load(page: PersonaState)
    ensures
        page.loading_context().pane.flags.revision != page.pane.flags.revision,
{
    revision_is_fresh(page.pane.flags.revision);
}

/// Asking again how much memory is used makes an earlier answer outdated, and so does every
/// change of the messages.
pub proof fn newer_question_outdates_earlier_answer(
    page: PersonaState,
    index: int,
    value: Seq<char>,
    tokens: usize,
)
    ensures
        page.asking_usage().memory.usage_revision != page.memory.usage_revision,
        page.accepting(index, value, tokens).memory.usage_revision != page.memory.usage_revision,
{
    revision_is_fresh(page.memory.usage_revision);
}

/// A look at the running conversation leaves what is being edited or selected alone.
pub proof fn polling_does_not_disturb(page: PersonaState, revision: u64, live: Option<u64>)
    requires
        page.pane.flags.editing is Some || page.pane.drag is Some || page.pane.selected != Set::<
            u64,
        >::empty(),
    ensures
        page.polled(revision, live) == page,
{
}

/// Escape calls off one thing at a time: while a second word is waited for, what is being
/// edited or selected stays; while a message is being edited, what is selected stays.
pub proof fn escape_calls_off_one_thing(page: PersonaState)
    ensures
        page.memory.pending_confirm is Some ==> page.escaped().pane == page.pane
            && page.escaped().input_edit == page.input_edit,
        page.memory.pending_confirm is None && page.pane.flags.editing is Some
            ==> page.escaped().pane.selected == page.pane.selected && page.escaped().input_edit
            == page.input_edit,
{
}

/// Asking for something dangerous does nothing but ask: the draft and the messages stay, and
/// nothing but a drawing or a report is asked of the surroundings. Calling it off leaves the
/// page as it was, but for the report that there is no other persona.
pub proof fn asking_changes_nothing(page: PersonaState, id: Seq<char>, ids: Seq<u64>)
    ensures
        page.asking_to_delete_persona(id).draft == page.draft,
        page.asking_to_delete_persona(id).pane == page.pane,
        page.asking_to_delete(ids).confirming(None) == page.confirming(None),
        page.draft.personas.len() > 1 ==> page.asking_to_delete_persona(id).confirming(None)
            == page.confirming(None),
        forall|i: int|
            0 <= i < page.asking_to_delete_persona_effects(id).len() ==> {
                let effect = #[trigger] page.asking_to_delete_persona_effects(id)[i];
                effect is Notify || effect is StartToast
            },
        forall|i: int|
            0 <= i < page.asking_effects(ids).len() ==> #[trigger] page.asking_effects(ids)[i] is Notify,
{
}

/// Deleting a persona takes exactly one away and leaves the others in order. It is marked, so
/// that its memory is cleared, and its identifier is held back.
pub proof fn deleted_persona_is_marked(page: PersonaState, index: int)
    requires
        0 <= index < page.draft.personas.len(),
        page.draft.personas.len() > 1,
    ensures
        ({
            let id = page.draft.personas[index].id;
            let rest = page.without_persona(index);
            &&& rest.draft.personas == page.draft.personas.remove(index)
            &&& rest.draft.personas.len() == page.draft.personas.len() - 1
            &&& rest.draft.personas.len() >= 1
            &&& rest.draft.pending_deletions.contains(id)
            &&& rest.cleanup.pending.contains(id)
            &&& forall|other: Seq<char>| #[trigger]
                page.draft.pending_deletions.contains(other)
                    ==> rest.draft.pending_deletions.contains(other)
        }),
{
    let id = page.draft.personas[index].id;
    let before = page.draft.pending_deletions;
    let after = page.without_persona(index).draft.pending_deletions;
    if !before.contains(id) {
        assert(after[before.len() as int] == id);
    }
    assert forall|other: Seq<char>| #[trigger] before.contains(other) implies after.contains(
        other,
    ) by {
        let i = choose|i: int| 0 <= i < before.len() && before[i] == other;
        assert(after[i] == other);
    }
}

/// As long as a persona's deletion is not published, no new persona gets its identifier.
pub proof fn deleted_identifier_is_held_back(page: PersonaState, index: int, id: Seq<char>)
    requires
        0 <= index < page.draft.personas.len(),
        is_next_persona_id(
            page.without_persona(index).draft,
            page.without_persona(index).cleanup.pending,
            id,
        ),
    ensures
        id != page.draft.personas[index].id,
{
    let rest = page.without_persona(index);
    next_persona_id_is_free(rest.draft, rest.cleanup.pending, id);
}

/// After a persona was deleted some persona is in use, provided one was before, each persona
/// having an identifier of its own.
pub proof fn some_persona_stays_in_use(page: PersonaState, index: int)
    requires
        0 <= index < page.draft.personas.len(),
        page.draft.personas.len() > 1,
        page.draft.selected_position() is Some,
        forall|i: int, j: int|
            0 <= i < j < page.draft.personas.len() ==> (#[trigger] page.draft.personas[i]).id != (
            #[trigger] page.draft.personas[j]).id,
    ensures
        page.without_persona(index).draft.selected_position() is Some,
{
    let rest = page.without_persona(index).draft;
    let selected = page.draft.selected->Some_0;
    let wanted = |persona: PersonaView| persona.id == selected;
    first_position_is_first(page.draft.personas, 0, wanted);
    let position = page.draft.selected_position()->Some_0;
    let next = rest.selected->Some_0;
    let wanted_next = |persona: PersonaView| persona.id == next;
    first_position_is_first(rest.personas, 0, wanted_next);
    if page.draft.personas[index].id == selected {
        let neighbour = if index < rest.personas.len() {
            index
        } else {
            rest.personas.len() - 1
        };
        assert(wanted_next(rest.personas[neighbour]));
    } else {
        let moved = if position < index {
            position
        } else {
            position - 1
        };
        assert(rest.personas[moved] == page.draft.personas[position]);
        assert(wanted_next(rest.personas[moved]));
    }
}

/// Memory is claimed only of personas whose deletion is published, and of none whose memory
/// is being cleared.
pub proof fn only_published_deletions_are_cleaned(
    deletions: Seq<Seq<char>>,
    published: Seq<Seq<char>>,
    in_flight: Set<Seq<char>>,
    count: int,
    i: int,
)
    requires
        0 <= i < claimable(deletions, published, in_flight, count).len(),
    ensures
        claimable(deletions, published, in_flight, count)[i] matches PersonaEffect::ClaimCleanup {
            persona,
        } && deletions.contains(persona) && published.contains(persona) && !in_flight.contains(
            persona,
        ),
    decreases count,
{
    let before = claimable(deletions, published, in_flight, count - 1);
    if i < before.len() {
        only_published_deletions_are_cleaned(deletions, published, in_flight, count - 1, i);
    } else {
        assert(deletions[count - 1] == deletions[count - 1]);
    }
}

/// Every persona whose deletion is published is held back until that is no longer so.
pub proof fn published_deletions_are_held_back(page: PersonaState, published: Seq<Seq<char>>, id: Seq<char>)
    requires
        published.contains(id),
    ensures
        page.cleanups_updated(published).cleanup.pending.contains(id),
{
}

/// Settings that were handed in are not handed in again: they count as handed in, and the
/// draft is what was handed in.
pub proof fn submitted_draft_is_unchanged(page: PersonaState, settings: PersonaSettingsData)
    ensures
        page.after_submit(settings).submitted == settings,
        page.after_submit(settings).draft == settings,
        page.after_submit(settings).draft.alike(page.after_submit(settings).submitted),
        page.ui.writes_in_flight < usize::MAX ==> page.after_submit(
            settings,
        ).without_write().ui.writes_in_flight == page.ui.writes_in_flight,
{
}

/// An outdated write is reported nowhere: it leaves the report and what was handed in last
/// alone.
pub proof fn outdated_write_is_silent(
    page: PersonaState,
    revision: u64,
    outcome: PersonaWriteOutcome,
)
    requires
        page.ui.save_revision != revision,
    ensures
        page.after_write(revision, outcome).status == page.status,
        page.after_write(revision, outcome).submitted == page.submitted,
        page.after_write(revision, outcome).draft == page.draft,
{
}

/// Clearing a deleted persona's memory takes its mark off exactly where the window is still
/// open; a window that was closed hands the news on instead.
pub proof fn completed_deletion_is_unmarked_once(
    page: PersonaState,
    persona: Seq<char>,
    result: Result<(), String>,
)
    requires
        page.deletion_completed(persona, MemoryScope::All, result),
    ensures
        !page.ui.window_transferred ==> !page.after_clearing(
            persona,
            MemoryScope::All,
            result,
        ).draft.pending_deletions.contains(persona),
        page.ui.window_transferred ==> page.after_clearing(
            persona,
            MemoryScope::All,
            result,
        ).draft == page.draft && page.clearing_effects(
            persona,
            MemoryScope::All,
            result,
        ).contains(PersonaEffect::CleanupFinished { persona }),
{
    without_text_removes(page.draft.pending_deletions, persona);
    if page.ui.window_transferred {
        let ended = page.clearing_ended(persona, MemoryScope::All, result);
        let front = page.report_effects() + (if page.editing_id() == Some(persona) {
            ended.usage_on_view_effects()
        } else {
            Seq::empty()
        });
        let effects = page.clearing_effects(persona, MemoryScope::All, result);
        assert(effects[front.len() as int] == PersonaEffect::CleanupFinished { persona });
    }
}

/// Reading the form right after a persona was turned to leaves the draft alike, so that there
/// is nothing to store, provided the models that the persona is bound to are on offer.
pub proof fn turning_keeps_draft(page: PersonaState, index: usize)
    requires
        index < page.draft.personas.len(),
        on_offer(
            page.providers,
            ModelKind::ChatCompletions,
            page.draft.personas[index as int].model,
        ),
        on_offer(
            page.providers,
            ModelKind::SpeechSynthesis,
            page.draft.personas[index as int].tts_model,
        ),
    ensures
        page.turned_to(Some(index)).captured().draft.alike(page.draft),
{
    let turned = page.turned_to(Some(index));
    persona_form_round_trips(
        page.draft.personas[index as int],
        page.providers,
        page.live2d.labels,
        page.live2d.paths,
    );
    assert forall|i: int| 0 <= i < page.draft.personas.len() implies (
    #[trigger] turned.captured().draft.personas[i]).alike(page.draft.personas[i]) by {}
}

/// A click on a message while adding to the selection changes its side; a second click
/// changes it back.
pub proof fn second_click_restores_selection(pane: ContextPaneView, id: u64)
    requires
        !pane.flags.loading,
    ensures
        pane.with_drag_from(Some(id), true).with_drag_finished().with_drag_from(
            Some(id),
            true,
        ).with_drag_finished().selected == pane.selected,
{
    let once = pane.with_drag_from(Some(id), true).with_drag_finished();
    let twice = once.with_drag_from(Some(id), true).with_drag_finished();
    assert(twice.selected =~= pane.selected);
}

/// A frame that adds to the selection loses nothing of it; one that does not selects what is
/// under it alone.
pub proof fn frame_keeps_added_selection(drag: ContextDragView, hits: Set<u64>)
    ensures
        drag.additive ==> drag.base.subset_of(ContextPaneView::framed(drag, hits)),
        !drag.additive ==> ContextPaneView::framed(drag, hits) == hits,
        hits.subset_of(ContextPaneView::framed(drag, hits)),
{
}

/// Deleted messages are gone, every other stays, and each is counted.
pub proof fn deleted_messages_are_counted(editors: Seq<EditorView>, ids: Set<u64>, count: int)
    requires
        0 <= count <= editors.len(),
    ensures
        editors_without(editors, ids, count).len() + count_among(editors, ids, count) == count,
        forall|i: int|
            0 <= i < editors_without(editors, ids, count).len() ==> !ids.contains(
                (#[trigger] editors_without(editors, ids, count)[i]).id,
            ),
    decreases count,
{
    if count > 0 {
        deleted_messages_are_counted(editors, ids, count - 1);
    }
}

/// What is asked to be deleted is there, and nothing is named twice.
pub proof fn known_ids_are_distinct(editors: Seq<EditorView>, ids: Seq<u64>, count: int)
    requires
        0 <= count <= ids.len(),
    ensures
        known_ids(editors, ids, count).no_duplicates(),
        forall|i: int|
            0 <= i < known_ids(editors, ids, count).len() ==> editor_ids(editors).contains(
                #[trigger] known_ids(editors, ids, count)[i],
            ),
    decreases count,
{
    if count > 0 {
        known_ids_are_distinct(editors, ids, count - 1);
    }
}

} // verus!

//! What becomes of the messages on the page, told in terms of the messages and what is
//! selected of them.

use vstd::prelude::*;

use crate::revision::revision_after;
use crate::search::first_position_is_first;
use crate::settings::persona::pane::{
    capped_sum, count_among, editor_ids, editors_without, floored_difference, has_message_id,
    ids_among, joined_lines, known_ids, texts_among, tokens_among, tokens_of, ContextDragView,
    ContextFlags, ContextPaneView, EditorView,
};

verus! {

/// A message is found under its number wherever it is, and only there.
pub proof fn message_is_found_by_number(pane: ContextPaneView, id: u64)
    ensures
        pane.position_of(id) matches Some(at) ==> {
            &&& 0 <= at < pane.editors.len()
            &&& pane.editors[at].id == id
            &&& forall|i: int| 0 <= i < at ==> (#[trigger] pane.editors[i]).id != id
        },
        pane.position_of(id) is None ==> forall|i: int|
            0 <= i < pane.editors.len() ==> (#[trigger] pane.editors[i]).id != id,
        editor_ids(pane.editors).len() == pane.editors.len(),
        forall|i: int|
            0 <= i < pane.editors.len() ==> #[trigger] editor_ids(pane.editors)[i]
                == pane.editors[i].id,
{
    first_position_is_first(pane.editors, 0, has_message_id(id));
}

proof fn walks_do_not_look_ahead(
    editors: Seq<EditorView>,
    editor: EditorView,
    ids: Set<u64>,
    count: int,
)
    requires
        0 <= count <= editors.len(),
    ensures
        ids_among(editors.push(editor), ids, count) == ids_among(editors, ids, count),
        editors_without(editors.push(editor), ids, count) == editors_without(editors, ids, count),
        texts_among(editors.push(editor), ids, count) == texts_among(editors, ids, count),
        count_among(editors.push(editor), ids, count) == count_among(editors, ids, count),
        tokens_among(editors.push(editor), ids, count) == tokens_among(editors, ids, count),
        tokens_of(editors.push(editor), count) == tokens_of(editors, count),
    decreases count,
{
    if count > 0 {
        walks_do_not_look_ahead(editors, editor, ids, count - 1);
        assert(editors.push(editor)[count - 1] == editors[count - 1]);
    }
}

/// What is among the messages is told message by message: one more message that is meant
/// adds its number, its text, its weight and one to the count, and one that is not meant
/// stays when those that are go.
pub proof fn messages_are_taken_one_by_one(
    editors: Seq<EditorView>,
    editor: EditorView,
    ids: Set<u64>,
)
    ensures
        ({
            let count = editors.len() as int;
            let more = editors.push(editor);
            let meant = ids.contains(editor.id);
            &&& meant ==> ids_among(more, ids, count + 1) == ids_among(editors, ids, count).push(
                editor.id,
            )
            &&& !meant ==> ids_among(more, ids, count + 1) == ids_among(editors, ids, count)
            &&& meant ==> texts_among(more, ids, count + 1) == texts_among(
                editors,
                ids,
                count,
            ).push(editor.text)
            &&& !meant ==> texts_among(more, ids, count + 1) == texts_among(editors, ids, count)
            &&& meant ==> editors_without(more, ids, count + 1) == editors_without(
                editors,
                ids,
                count,
            )
            &&& !meant ==> editors_without(more, ids, count + 1) == editors_without(
                editors,
                ids,
                count,
            ).push(editor)
            &&& meant ==> count_among(more, ids, count + 1) == count_among(editors, ids, count) + 1
            &&& !meant ==> count_among(more, ids, count + 1) == count_among(editors, ids, count)
            &&& meant ==> tokens_among(more, ids, count + 1) == capped_sum(
                tokens_among(editors, ids, count),
                editor.tokens as int,
            )
            &&& !meant ==> tokens_among(more, ids, count + 1) == tokens_among(editors, ids, count)
            &&& tokens_of(more, count + 1) == capped_sum(
                tokens_of(editors, count),
                editor.tokens as int,
            )
        }),
        ids_among(Seq::empty(), ids, 0).len() == 0,
        texts_among(Seq::empty(), ids, 0).len() == 0,
        editors_without(Seq::empty(), ids, 0).len() == 0,
        count_among(Seq::empty(), ids, 0) == 0,
        tokens_among(Seq::empty(), ids, 0) == 0,
        tokens_of(Seq::empty(), 0) == 0,
{
    walks_do_not_look_ahead(editors, editor, ids, editors.len() as int);
    assert(editors.push(editor)[editors.len() as int] == editor);
}

/// Sums stop at what a number holds, and differences at nothing.
pub proof fn sums_and_differences_stay_in_range(left: int, right: int)
    ensures
        left + right <= usize::MAX ==> capped_sum(left, right) == left + right,
        left + right > usize::MAX ==> capped_sum(left, right) == usize::MAX,
        left >= right ==> floored_difference(left, right) == left - right,
        left <= right ==> floored_difference(left, right) == 0,
{
}

/// Texts are joined in their order, one line after another.
pub proof fn texts_are_joined_by_lines(texts: Seq<Seq<char>>, text: Seq<char>)
    ensures
        joined_lines(Seq::empty()).len() == 0,
        joined_lines(seq![text]) == text,
        texts.len() > 0 ==> joined_lines(texts.push(text)) == joined_lines(texts) + "\n"@ + text,
{
    assert(texts.push(text).drop_last() =~= texts);
}

proof fn known_numbers_do_not_look_ahead(
    editors: Seq<EditorView>,
    ids: Seq<u64>,
    id: u64,
    count: int,
)
    requires
        0 <= count <= ids.len(),
    ensures
        known_ids(editors, ids.push(id), count) == known_ids(editors, ids, count),
    decreases count,
{
    if count > 0 {
        known_numbers_do_not_look_ahead(editors, ids, id, count - 1);
        assert(ids.push(id)[count - 1] == ids[count - 1]);
    }
}

/// Numbers are known if there is a message under them; each is named once, where it comes
/// first.
pub proof fn known_numbers_are_named_once(editors: Seq<EditorView>, ids: Seq<u64>, id: u64)
    ensures
        ({
            let before = known_ids(editors, ids, ids.len() as int);
            let after = known_ids(editors, ids.push(id), ids.len() as int + 1);
            let there = exists|i: int|
                0 <= i < editors.len() && (#[trigger] editors[i]).id == id;
            &&& there && !before.contains(id) ==> after == before.push(id)
            &&& !there || before.contains(id) ==> after == before
        }),
        known_ids(editors, Seq::empty(), 0).len() == 0,
{
    known_numbers_do_not_look_ahead(editors, ids, id, ids.len() as int);
    assert(ids.push(id)[ids.len() as int] == id);
    let listed = editor_ids(editors);
    if exists|i: int| 0 <= i < editors.len() && (#[trigger] editors[i]).id == id {
        let at = choose|i: int| 0 <= i < editors.len() && (#[trigger] editors[i]).id == id;
        assert(listed[at] == id);
        assert(listed.contains(id));
    }
    if listed.contains(id) {
        let at = choose|i: int| 0 <= i < listed.len() && listed[i] == id;
        assert(editors[at].id == id);
    }
}

/// Whether two panes are the same but for what is selected, what is being drawn, and the
/// scrolling that goes with it.
pub open spec fn same_but_selection(one: ContextPaneView, other: ContextPaneView) -> bool {
    &&& one.editors == other.editors
    &&& one.error == other.error
    &&& (ContextFlags {
        scroll_revision: one.flags.scroll_revision,
        scroll_scheduled: one.flags.scroll_scheduled,
        ..other.flags
    }) == one.flags
}

/// Everything is selected by selecting all; a menu on a message selects it alone, unless it
/// is among those that are.
pub proof fn selection_is_what_was_asked_for(pane: ContextPaneView, id: u64, other: u64)
    ensures
        ({
            let all = pane.with_all_selected();
            &&& all.selected.contains(id) <==> exists|i: int|
                0 <= i < pane.editors.len() && (#[trigger] pane.editors[i]).id == id
            &&& all.drag is None
            &&& same_but_selection(all, pane)
            &&& all.flags.scroll_revision == revision_after(pane.flags.scroll_revision)
            &&& !all.flags.scroll_scheduled
        }),
        ({
            let menu = pane.with_menu_on(id);
            &&& menu.selected.contains(id)
            &&& pane.selected.contains(id) ==> menu.selected == pane.selected
            &&& !pane.selected.contains(id) ==> (menu.selected.contains(other) <==> other == id)
            &&& menu.drag is None
            &&& same_but_selection(menu, pane)
        }),
        ({
            let idle = pane.without_drag();
            &&& idle.drag is None
            &&& idle.selected == pane.selected
            &&& same_but_selection(idle, pane)
            &&& idle.flags.scroll_revision == revision_after(pane.flags.scroll_revision)
            &&& !idle.flags.scroll_scheduled
        }),
        ({
            let still = pane.without_scrolling();
            &&& still.drag == pane.drag
            &&& still.selected == pane.selected
            &&& same_but_selection(still, pane)
            &&& still.flags.scroll_revision == revision_after(pane.flags.scroll_revision)
            &&& !still.flags.scroll_scheduled
        }),
{
    let listed = editor_ids(pane.editors);
    if exists|i: int| 0 <= i < pane.editors.len() && (#[trigger] pane.editors[i]).id == id {
        let at = choose|i: int|
            0 <= i < pane.editors.len() && (#[trigger] pane.editors[i]).id == id;
        assert(listed[at] == id);
        assert(listed.contains(id));
    }
    if listed.contains(id) {
        let at = choose|i: int| 0 <= i < listed.len() && listed[i] == id;
        assert(pane.editors[at].id == id);
    }
}

/// A frame starts from what is selected, at the message it was started on, and starts nothing
/// while messages are loading.
pub proof fn frame_starts_from_the_selection(
    pane: ContextPaneView,
    anchor_id: Option<u64>,
    additive: bool,
)
    ensures
        pane.flags.loading ==> pane.with_drag_from(anchor_id, additive) == pane,
        !pane.flags.loading ==> {
            let after = pane.with_drag_from(anchor_id, additive);
            &&& after.drag == Some(
                ContextDragView { anchor_id, base: pane.selected, moved: false, additive },
            )
            &&& after.selected == pane.selected
            &&& same_but_selection(after, pane)
        },
{
}

/// A frame that has been drawn selects what it covers, and keeps what was selected before
/// where it adds to it; one that has not been drawn far yet selects nothing new.
pub proof fn frame_selects_what_it_covers(
    pane: ContextPaneView,
    drag: ContextDragView,
    far: bool,
    hits: Set<u64>,
    id: u64,
)
    requires
        pane.drag == Some(drag),
    ensures
        ({
            let after = pane.with_drag_at(far, hits);
            let drawn = drag.moved || far;
            &&& after.drag == Some(ContextDragView { moved: drawn, ..drag })
            &&& !drawn ==> after.selected == pane.selected
            &&& drawn ==> (after.selected.contains(id) <==> hits.contains(id) || (drag.additive
                && drag.base.contains(id)))
            &&& after.editors == pane.editors && after.error == pane.error && after.flags
                == pane.flags
        }),
        ({
            let after = pane.with_frame_over(hits);
            &&& after.selected.contains(id) <==> hits.contains(id) || (drag.additive
                && drag.base.contains(id))
            &&& after.drag == pane.drag && after.editors == pane.editors && after.error
                == pane.error && after.flags == pane.flags
        }),
{
}

/// Without a frame nothing is drawn; the list scrolls under a drawn one near an edge, once at
/// a time.
pub proof fn frame_scrolls_near_an_edge(
    pane: ContextPaneView,
    far: bool,
    hits: Set<u64>,
    near_edge: bool,
)
    ensures
        pane.drag is None ==> pane.with_drag_at(far, hits) == pane && pane.with_frame_over(hits)
            == pane && !pane.scrolling_starts(near_edge),
        pane.drag matches Some(drag) ==> (pane.scrolling_starts(near_edge) <==> near_edge
            && drag.moved && !pane.flags.scroll_scheduled),
        pane.scrolling_starts(near_edge) ==> pane.with_scrolling(near_edge) == (ContextPaneView {
            flags: ContextFlags { scroll_scheduled: true, ..pane.flags },
            ..pane
        }),
        !pane.scrolling_starts(near_edge) ==> pane.with_scrolling(near_edge) == pane,
{
}

/// Letting go of a drawn frame keeps what it selected; letting go without drawing is a click,
/// which turns over the message under it, among what was selected where it adds to that.
pub proof fn letting_go_keeps_or_clicks(pane: ContextPaneView, drag: ContextDragView, id: u64)
    requires
        pane.drag == Some(drag),
    ensures
        ({
            let after = pane.with_drag_finished();
            let kept = drag.additive && drag.base.contains(id);
            &&& after.drag is None
            &&& same_but_selection(after, pane)
            &&& drag.moved ==> after.selected == pane.selected
            &&& !drag.moved && drag.anchor_id == Some(id) ==> (after.selected.contains(id)
                <==> !kept)
            &&& !drag.moved && drag.anchor_id != Some(id) ==> (after.selected.contains(id)
                <==> kept)
        }),
{
}

/// Letting go where nothing was held changes no selection.
pub proof fn letting_go_of_nothing_keeps_the_selection(pane: ContextPaneView)
    requires
        pane.drag is None,
    ensures
        pane.with_drag_finished().selected == pane.selected,
        pane.with_drag_finished().drag is None,
        same_but_selection(pane.with_drag_finished(), pane),
{
}

/// Loading starts from nothing, as a load of its own; what was asked for before no longer
/// counts.
pub proof fn loading_starts_from_nothing(pane: ContextPaneView, wanted: bool)
    ensures
        ({
            let after = pane.reloading(wanted);
            &&& after.editors.len() == 0
            &&& after.selected == Set::<u64>::empty()
            &&& after.drag is None
            &&& after.error is None
            &&& after.flags.loading == wanted
            &&& after.flags.revision == revision_after(pane.flags.revision)
            &&& after.flags.editing == pane.flags.editing
            &&& after.flags.auto_refresh_revision == pane.flags.auto_refresh_revision
            &&& after.flags.observed_live_revision == pane.flags.observed_live_revision
            &&& after.flags.scroll_revision == revision_after(pane.flags.scroll_revision)
            &&& !after.flags.scroll_scheduled
        }),
        ({
            let dropped = pane.load_dropped();
            &&& !dropped.flags.loading
            &&& dropped.flags.revision == revision_after(pane.flags.revision)
            &&& (ContextPaneView {
                flags: ContextFlags {
                    loading: pane.flags.loading,
                    revision: pane.flags.revision,
                    ..dropped.flags
                },
                ..dropped
            }) == pane
        }),
        ({
            let cleared = pane.cleared();
            &&& cleared.editors.len() == 0
            &&& cleared.selected == Set::<u64>::empty()
            &&& cleared.drag is None
            &&& cleared.error is None
            &&& !cleared.flags.loading
            &&& cleared.flags.revision == revision_after(pane.flags.revision)
            &&& cleared.flags.editing == pane.flags.editing
            &&& cleared.flags.auto_refresh_revision == pane.flags.auto_refresh_revision
            &&& cleared.flags.observed_live_revision == pane.flags.observed_live_revision
        }),
        pane.emptied().editors.len() == 0,
        pane.emptied().selected == Set::<u64>::empty(),
        (ContextPaneView {
            editors: pane.editors,
            selected: pane.selected,
            ..pane.emptied()
        }) == pane,
{
}

/// What was loaded is shown as it was loaded, and why nothing was is told.
pub proof fn loaded_messages_are_shown(
    pane: ContextPaneView,
    messages: Seq<EditorView>,
    error: Seq<char>,
)
    ensures
        ({
            let after = pane.with_loaded(messages);
            &&& after.editors == messages
            &&& after.selected == Set::<u64>::empty()
            &&& after.error is None
            &&& after.drag == pane.drag
            &&& after.flags == (ContextFlags { loading: false, ..pane.flags })
        }),
        ({
            let after = pane.with_load_error(error);
            &&& after.editors.len() == 0
            &&& after.selected == Set::<u64>::empty()
            &&& after.error == Some(error)
            &&& after.drag == pane.drag
            &&& after.flags == (ContextFlags { loading: false, ..pane.flags })
        }),
{
}

/// Writing in a message changes what it says, storing it what is stored and what it weighs,
/// and going back what it says to what is stored; every other message stays as it is.
pub proof fn only_the_edited_message_changes(
    pane: ContextPaneView,
    index: int,
    text: Seq<char>,
    tokens: usize,
    other: int,
    editing: Option<u64>,
)
    requires
        0 <= index < pane.editors.len(),
        0 <= other < pane.editors.len(),
        other != index,
    ensures
        ({
            let editor = pane.editors[index];
            let written = pane.with_text(index, text);
            let stored = pane.with_saved(index, text, tokens);
            let restored = pane.restored(index);
            &&& written.editors[index] == (EditorView { text, ..editor })
            &&& written.editors[other] == pane.editors[other]
            &&& written.editors.len() == pane.editors.len()
            &&& (ContextPaneView { editors: pane.editors, ..written }) == pane
            &&& stored.editors[index] == (EditorView { saved_content: text, tokens, ..editor })
            &&& stored.editors[other] == pane.editors[other]
            &&& stored.editors.len() == pane.editors.len()
            &&& (ContextPaneView { editors: pane.editors, ..stored }) == pane
            &&& restored.editors[index] == (EditorView { text: editor.saved_content, ..editor })
            &&& restored.editors[other] == pane.editors[other]
            &&& (ContextPaneView { editors: pane.editors, ..restored }) == pane
        }),
        pane.with_editing(editing).flags.editing == editing,
        (ContextPaneView {
            flags: ContextFlags {
                editing: pane.flags.editing,
                ..pane.with_editing(editing).flags
            },
            ..pane.with_editing(editing)
        }) == pane,
{
}

proof fn rest_is_without(editors: Seq<EditorView>, ids: Set<u64>, count: int)
    requires
        0 <= count <= editors.len(),
    ensures
        ({
            let rest = editors_without(editors, ids, count);
            &&& forall|i: int| 0 <= i < rest.len() ==> !ids.contains((#[trigger] rest[i]).id)
            &&& forall|at: int|
                0 <= at < count && !ids.contains((#[trigger] editors[at]).id) ==> rest.contains(
                    editors[at],
                )
        }),
    decreases count,
{
    if count > 0 {
        rest_is_without(editors, ids, count - 1);
        let before = editors_without(editors, ids, count - 1);
        let rest = editors_without(editors, ids, count);
        assert forall|at: int|
            0 <= at < count && !ids.contains((#[trigger] editors[at]).id) implies rest.contains(
            editors[at],
        ) by {
            if at < count - 1 {
                assert(before.contains(editors[at]));
                let place = choose|i: int| 0 <= i < before.len() && before[i] == editors[at];
                assert(rest[place] == editors[at]);
            } else {
                assert(rest[before.len() as int] == editors[at]);
            }
        }
    }
}

/// Deleted messages are gone, from the list and from the selection; the others stay.
pub proof fn only_deleted_messages_go(pane: ContextPaneView, ids: Set<u64>, id: u64)
    ensures
        ({
            let after = pane.without_messages(ids);
            &&& forall|i: int|
                0 <= i < after.editors.len() ==> !ids.contains((#[trigger] after.editors[i]).id)
            &&& forall|at: int|
                0 <= at < pane.editors.len() && !ids.contains((#[trigger] pane.editors[at]).id)
                    ==> after.editors.contains(pane.editors[at])
            &&& after.selected.contains(id) <==> pane.selected.contains(id) && !ids.contains(id)
            &&& after.drag == pane.drag && after.error == pane.error && after.flags == pane.flags
            &&& after.editors == editors_without(pane.editors, ids, pane.editors.len() as int)
        }),
{
    rest_is_without(pane.editors, ids, pane.editors.len() as int);
}

} // verus!

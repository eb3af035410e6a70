//! The messages of a conversation that can be edited, and which of them are selected.

use vstd::prelude::*;

use crate::agent::message::ChatRole;
use crate::id_set::IdSet;
use crate::revision::{next_revision, revision_after};
use crate::search::{first_position, first_position_is_first};
use crate::text::optional_view;

verus! {

/// A message as it was loaded. `fixed_tokens` are those of its tokens that do not come from
/// its text.
#[derive(Debug, PartialEq, Eq)]
pub struct ContextMessage {
    pub id: u64,
    pub role: ChatRole,
    pub content: String,
    pub tokens: usize,
    pub fixed_tokens: usize,
}

/// A message that can be edited: what its field holds, and what has been saved.
#[derive(Debug, PartialEq, Eq)]
pub struct ContextMessageEditor {
    pub id: u64,
    pub role: ChatRole,
    pub text: String,
    pub saved_content: String,
    pub tokens: usize,
    pub fixed_tokens: usize,
}

/// A message that can be edited, in its texts.
#[verifier::ext_equal]
pub struct EditorView {
    pub id: u64,
    pub role: ChatRole,
    pub text: Seq<char>,
    pub saved_content: Seq<char>,
    pub tokens: usize,
    pub fixed_tokens: usize,
}

impl View for ContextMessage {
    type V = EditorView;

    open spec fn view(&self) -> EditorView {
        EditorView {
            id: self.id,
            role: self.role,
            text: self.content@,
            saved_content: self.content@,
            tokens: self.tokens,
            fixed_tokens: self.fixed_tokens,
        }
    }
}

impl View for ContextMessageEditor {
    type V = EditorView;

    open spec fn view(&self) -> EditorView {
        EditorView {
            id: self.id,
            role: self.role,
            text: self.text@,
            saved_content: self.saved_content@,
            tokens: self.tokens,
            fixed_tokens: self.fixed_tokens,
        }
    }
}

/// The texts of a list of messages.
pub open spec fn editor_views(editors: Seq<ContextMessageEditor>) -> Seq<EditorView> {
    Seq::new(editors.len(), |i: int| editors[i]@)
}

/// What a list of loaded messages looks like in the editor.
pub open spec fn loaded_views(messages: Seq<ContextMessage>) -> Seq<EditorView> {
    Seq::new(messages.len(), |i: int| messages[i]@)
}

/// A selection that is being drawn with the pointer.
#[derive(Debug)]
pub struct ContextSelectionDrag {
    /// The message on which the pointer went down.
    pub anchor_id: Option<u64>,
    /// What was selected then.
    pub base: IdSet,
    /// Whether the pointer has gone far enough to draw a frame.
    pub moved: bool,
    /// Whether the frame adds to what was selected.
    pub additive: bool,
}

/// A selection that is being drawn, as a value.
#[verifier::ext_equal]
pub struct ContextDragView {
    pub anchor_id: Option<u64>,
    pub base: Set<u64>,
    pub moved: bool,
    pub additive: bool,
}

impl View for ContextSelectionDrag {
    type V = ContextDragView;

    open spec fn view(&self) -> ContextDragView {
        ContextDragView {
            anchor_id: self.anchor_id,
            base: self.base@,
            moved: self.moved,
            additive: self.additive,
        }
    }
}

/// A selection that may be being drawn, as a value.
pub open spec fn drag_view(drag: Option<ContextSelectionDrag>) -> Option<ContextDragView> {
    match drag {
        Some(drag) => Some(drag@),
        None => None,
    }
}

/// The parts of the pane that are neither text nor sets.
#[derive(Debug, Clone, Copy, PartialEq, Eq, Structural)]
pub struct ContextFlags {
    /// The message that is being edited.
    pub editing: Option<u64>,
    pub loading: bool,
    /// Counts what makes an earlier load outdated.
    pub revision: u64,
    /// Counts the watches on the running conversation.
    pub auto_refresh_revision: u64,
    /// The state of the running conversation that is shown.
    pub observed_live_revision: Option<u64>,
    /// Counts what makes scrolling on its own outdated.
    pub scroll_revision: u64,
    /// Whether a step of scrolling is due.
    pub scroll_scheduled: bool,
}

/// The messages of the conversation and what is being done with them.
#[derive(Debug)]
pub struct ContextPane {
    pub editors: Vec<ContextMessageEditor>,
    pub selected: IdSet,
    pub drag: Option<ContextSelectionDrag>,
    pub error: Option<String>,
    pub flags: ContextFlags,
}

/// The pane, as a value.
#[verifier::ext_equal]
pub struct ContextPaneView {
    pub editors: Seq<EditorView>,
    pub selected: Set<u64>,
    pub drag: Option<ContextDragView>,
    pub error: Option<Seq<char>>,
    pub flags: ContextFlags,
}

impl View for ContextPane {
    type V = ContextPaneView;

    open spec fn view(&self) -> ContextPaneView {
        ContextPaneView {
            editors: editor_views(self.editors@),
            selected: self.selected@,
            drag: drag_view(self.drag),
            error: optional_view(self.error),
            flags: self.flags,
        }
    }
}

/// Whether a message goes by a number.
pub open spec fn has_message_id(id: u64) -> spec_fn(EditorView) -> bool {
    |editor: EditorView| editor.id == id
}

/// The numbers of a list of messages.
pub open spec fn editor_ids(editors: Seq<EditorView>) -> Seq<u64> {
    Seq::new(editors.len(), |i: int| editors[i].id)
}

/// The numbers of the messages that are in `wanted`, in order, among the first `count`.
pub open spec fn ids_among(editors: Seq<EditorView>, wanted: Set<u64>, count: int) -> Seq<u64>
    decreases count,
{
    if count <= 0 || count > editors.len() {
        Seq::empty()
    } else {
        let before = ids_among(editors, wanted, count - 1);
        if wanted.contains(editors[count - 1].id) {
            before.push(editors[count - 1].id)
        } else {
            before
        }
    }
}

/// The messages that are not in `unwanted`, in order, among the first `count`.
pub open spec fn editors_without(
    editors: Seq<EditorView>,
    unwanted: Set<u64>,
    count: int,
) -> Seq<EditorView>
    decreases count,
{
    if count <= 0 || count > editors.len() {
        Seq::empty()
    } else {
        let before = editors_without(editors, unwanted, count - 1);
        if unwanted.contains(editors[count - 1].id) {
            before
        } else {
            before.push(editors[count - 1])
        }
    }
}

/// A sum that stops at the largest number there is room for.
pub open spec fn capped_sum(left: int, right: int) -> int {
    if left + right > usize::MAX {
        usize::MAX as int
    } else {
        left + right
    }
}

/// A difference that stops at zero.
pub open spec fn floored_difference(left: int, right: int) -> int {
    if left < right {
        0
    } else {
        left - right
    }
}

/// How many of the first `count` messages are in `ids`.
pub open spec fn count_among(editors: Seq<EditorView>, ids: Set<u64>, count: int) -> int
    decreases count,
{
    if count <= 0 || count > editors.len() {
        0
    } else {
        count_among(editors, ids, count - 1) + (if ids.contains(editors[count - 1].id) {
            1int
        } else {
            0int
        })
    }
}

/// The tokens of those of the first `count` messages that are in `ids`.
pub open spec fn tokens_among(editors: Seq<EditorView>, ids: Set<u64>, count: int) -> int
    decreases count,
{
    if count <= 0 || count > editors.len() {
        0
    } else {
        let before = tokens_among(editors, ids, count - 1);
        if ids.contains(editors[count - 1].id) {
            capped_sum(before, editors[count - 1].tokens as int)
        } else {
            before
        }
    }
}

/// The tokens of the first `count` messages.
pub open spec fn tokens_of(editors: Seq<EditorView>, count: int) -> int
    decreases count,
{
    if count <= 0 || count > editors.len() {
        0
    } else {
        capped_sum(tokens_of(editors, count - 1), editors[count - 1].tokens as int)
    }
}

/// Texts with a line break between each two.
pub open spec fn joined_lines(texts: Seq<Seq<char>>) -> Seq<char>
    decreases texts.len(),
{
    if texts.len() == 0 {
        Seq::empty()
    } else if texts.len() == 1 {
        texts[0]
    } else {
        joined_lines(texts.drop_last()) + "\n"@ + texts.last()
    }
}

/// The texts of the messages that are in `wanted`, in order, among the first `count`.
pub open spec fn texts_among(editors: Seq<EditorView>, wanted: Set<u64>, count: int) -> Seq<
    Seq<char>,
>
    decreases count,
{
    if count <= 0 || count > editors.len() {
        Seq::empty()
    } else {
        let before = texts_among(editors, wanted, count - 1);
        if wanted.contains(editors[count - 1].id) {
            before.push(editors[count - 1].text)
        } else {
            before
        }
    }
}

/// The numbers of `ids` that some message goes by, each once, among the first `count`.
pub open spec fn known_ids(editors: Seq<EditorView>, ids: Seq<u64>, count: int) -> Seq<u64>
    decreases count,
{
    if count <= 0 || count > ids.len() {
        Seq::empty()
    } else {
        let before = known_ids(editors, ids, count - 1);
        let id = ids[count - 1];
        if editor_ids(editors).contains(id) && !before.contains(id) {
            before.push(id)
        } else {
            before
        }
    }
}

impl ContextPaneView {
    /// Where the first message with the given number is.
    pub open spec fn position_of(self, id: u64) -> Option<int> {
        first_position(self.editors, 0, has_message_id(id))
    }

    /// The pane with no selection being drawn and no scrolling due.
    pub open spec fn without_drag(self) -> Self {
        ContextPaneView { drag: None, ..self.without_scrolling() }
    }

    /// The pane with no scrolling due.
    pub open spec fn without_scrolling(self) -> Self {
        ContextPaneView {
            flags: ContextFlags {
                scroll_revision: revision_after(self.flags.scroll_revision),
                scroll_scheduled: false,
                ..self.flags
            },
            ..self
        }
    }

    /// The pane with every message selected.
    pub open spec fn with_all_selected(self) -> Self {
        ContextPaneView { selected: editor_ids(self.editors).to_set(), ..self.without_drag() }
    }

    /// The pane with at least the message selected that a menu was opened on.
    pub open spec fn with_menu_on(self, id: u64) -> Self {
        ContextPaneView {
            selected: if self.selected.contains(id) {
                self.selected
            } else {
                Set::empty().insert(id)
            },
            ..self.without_drag()
        }
    }

    /// The pane with a selection about to be drawn.
    pub open spec fn with_drag_from(self, anchor_id: Option<u64>, additive: bool) -> Self {
        if self.flags.loading {
            self
        } else {
            ContextPaneView {
                drag: Some(
                    ContextDragView { anchor_id, base: self.selected, moved: false, additive },
                ),
                ..self.without_drag()
            }
        }
    }

    /// What is selected by a frame over the messages `hits`.
    pub open spec fn framed(drag: ContextDragView, hits: Set<u64>) -> Set<u64> {
        if drag.additive {
            drag.base.union(hits)
        } else {
            hits
        }
    }

    /// The pane after the pointer moved while its button was down. `far` tells whether it is
    /// far enough from where it went down; the frame is then over the messages `hits`.
    pub open spec fn with_drag_at(self, far: bool, hits: Set<u64>) -> Self {
        match self.drag {
            Some(drag) => {
                let moved = ContextDragView { moved: drag.moved || far, ..drag };
                ContextPaneView {
                    drag: Some(moved),
                    selected: if moved.moved {
                        Self::framed(moved, hits)
                    } else {
                        self.selected
                    },
                    ..self
                }
            },
            None => self,
        }
    }

    /// The pane after the messages went by under the frame.
    pub open spec fn with_frame_over(self, hits: Set<u64>) -> Self {
        match self.drag {
            Some(drag) => ContextPaneView { selected: Self::framed(drag, hits), ..self },
            None => self,
        }
    }

    /// Whether a step of scrolling is to be made, `near_edge` telling whether the pointer is
    /// near the edge.
    pub open spec fn scrolling_starts(self, near_edge: bool) -> bool {
        near_edge && !self.flags.scroll_scheduled && (self.drag matches Some(drag) && drag.moved)
    }

    /// The pane with a step of scrolling due, where there is to be one.
    pub open spec fn with_scrolling(self, near_edge: bool) -> Self {
        if self.scrolling_starts(near_edge) {
            ContextPaneView {
                flags: ContextFlags { scroll_scheduled: true, ..self.flags },
                ..self
            }
        } else {
            self
        }
    }

    /// What is selected once the pointer's button goes up: what the frame took in, or else
    /// the message under the pointer changes sides.
    pub open spec fn selection_after(self) -> Set<u64> {
        match self.drag {
            Some(drag) => if drag.moved {
                self.selected
            } else {
                let start = if drag.additive {
                    drag.base
                } else {
                    Set::empty()
                };
                match drag.anchor_id {
                    Some(id) => if start.contains(id) {
                        start.remove(id)
                    } else {
                        start.insert(id)
                    },
                    None => start,
                }
            },
            None => self.selected,
        }
    }

    /// The pane once the pointer's button went up.
    pub open spec fn with_drag_finished(self) -> Self {
        ContextPaneView { selected: self.selection_after(), ..self.without_drag() }
    }

    /// The pane with nothing shown or selected.
    pub open spec fn emptied(self) -> Self {
        ContextPaneView { editors: Seq::empty(), selected: Set::empty(), ..self }
    }

    /// The pane about to be loaded again, where there is something to load.
    pub open spec fn reloading(self, wanted: bool) -> Self {
        let idle = self.without_drag();
        ContextPaneView {
            error: None,
            flags: ContextFlags {
                revision: revision_after(idle.flags.revision),
                loading: wanted,
                ..idle.flags
            },
            ..idle.emptied()
        }
    }

    /// The pane with nothing being loaded, whatever was.
    pub open spec fn load_dropped(self) -> Self {
        ContextPaneView {
            flags: ContextFlags {
                revision: revision_after(self.flags.revision),
                loading: false,
                ..self.flags
            },
            ..self
        }
    }

    /// The pane with what has been loaded.
    pub open spec fn with_loaded(self, messages: Seq<EditorView>) -> Self {
        ContextPaneView {
            editors: messages,
            selected: Set::empty(),
            error: None,
            flags: ContextFlags { loading: false, ..self.flags },
            ..self
        }
    }

    /// The pane after loading failed.
    pub open spec fn with_load_error(self, error: Seq<char>) -> Self {
        ContextPaneView {
            error: Some(error),
            flags: ContextFlags { loading: false, ..self.flags },
            ..self.emptied()
        }
    }

    /// The pane after its conversation was cleared.
    pub open spec fn cleared(self) -> Self {
        ContextPaneView { error: None, ..self.load_dropped().emptied() }.without_drag()
    }

    /// The pane with another message being edited.
    pub open spec fn with_editing(self, editing: Option<u64>) -> Self {
        ContextPaneView { flags: ContextFlags { editing, ..self.flags }, ..self }
    }

    /// The pane with what the field of the message at `index` holds.
    pub open spec fn with_text(self, index: int, text: Seq<char>) -> Self {
        ContextPaneView {
            editors: self.editors.update(index, EditorView { text, ..self.editors[index] }),
            ..self
        }
    }

    /// The pane with the field of the message at `index` put back.
    pub open spec fn restored(self, index: int) -> Self {
        self.with_text(index, self.editors[index].saved_content)
    }

    /// The pane with a change of the message at `index` accepted.
    pub open spec fn with_saved(self, index: int, content: Seq<char>, tokens: usize) -> Self {
        ContextPaneView {
            editors: self.editors.update(
                index,
                EditorView { saved_content: content, tokens, ..self.editors[index] },
            ),
            ..self
        }
    }

    /// The pane without the messages `ids`.
    pub open spec fn without_messages(self, ids: Set<u64>) -> Self {
        ContextPaneView {
            editors: editors_without(self.editors, ids, self.editors.len() as int),
            selected: self.selected.difference(ids),
            ..self
        }
    }
}

impl ContextPane {
    /// An empty pane.
    pub fn new() -> (pane: Self)
        ensures
            pane@ == (ContextPaneView {
                editors: Seq::empty(),
                selected: Set::empty(),
                drag: None,
                error: None,
                flags: ContextFlags {
                    editing: None,
                    loading: false,
                    revision: 0,
                    auto_refresh_revision: 0,
                    observed_live_revision: None,
                    scroll_revision: 0,
                    scroll_scheduled: false,
                },
            }),
    {
        let pane = ContextPane {
            editors: Vec::new(),
            selected: IdSet::new(),
            drag: None,
            error: None,
            flags: ContextFlags {
                editing: None,
                loading: false,
                revision: 0,
                auto_refresh_revision: 0,
                observed_live_revision: None,
                scroll_revision: 0,
                scroll_scheduled: false,
            },
        };
        proof {
            assert(editor_views(pane.editors@) =~= Seq::<EditorView>::empty());
        }
        pane
    }

    /// Returns where the first message with the given number is.
    pub fn message_index(&self, id: u64) -> (index: Option<usize>)
        ensures
            match index {
                Some(index) => self@.position_of(id) == Some(index as int) && index
                    < self.editors@.len(),
                None => self@.position_of(id) is None,
            },
    {
        let mut index: usize = 0;
        while index < self.editors.len()
            invariant
                index <= self.editors.len(),
                self@.position_of(id) == first_position(
                    self@.editors,
                    index as int,
                    has_message_id(id),
                ),
            decreases self.editors.len() - index,
        {
            proof {
                assert(self@.editors[index as int] == self.editors@[index as int]@);
            }
            if self.editors[index].id == id {
                return Some(index);
            }
            index = index + 1;
        }
        None
    }

    /// Stops scrolling.
    pub fn stop_scrolling(&mut self)
        ensures
            final(self)@ == old(self)@.without_scrolling(),
    {
        self.flags.scroll_revision = next_revision(self.flags.scroll_revision);
        self.flags.scroll_scheduled = false;
    }

    /// Drops a selection that is being drawn.
    pub fn cancel_selection(&mut self)
        ensures
            final(self)@ == old(self)@.without_drag(),
    {
        self.drag = None;
        self.stop_scrolling();
    }

    fn all_ids(&self) -> (ids: IdSet)
        ensures
            ids@ == editor_ids(self@.editors).to_set(),
    {
        let mut list: Vec<u64> = Vec::new();
        let mut index: usize = 0;
        while index < self.editors.len()
            invariant
                index <= self.editors.len(),
                list@ == editor_ids(self@.editors).take(index as int),
            decreases self.editors.len() - index,
        {
            list.push(self.editors[index].id);
            index = index + 1;
            proof {
                assert(list@ =~= editor_ids(self@.editors).take(index as int));
            }
        }
        let mut ids = IdSet::new();
        ids.extend(&list);
        proof {
            assert(list@ =~= editor_ids(self@.editors));
            assert(Set::<u64>::empty().union(list@.to_set()) =~= list@.to_set());
        }
        ids
    }

    /// Selects every message.
    pub fn select_all(&mut self)
        ensures
            final(self)@ == old(self)@.with_all_selected(),
    {
        self.cancel_selection();
        self.selected = self.all_ids();
    }

    /// Selects the message that a menu is opened on, unless it is among those selected.
    pub fn select_for_menu(&mut self, id: u64)
        ensures
            final(self)@ == old(self)@.with_menu_on(id),
    {
        self.cancel_selection();
        if !self.selected.contains(id) {
            self.selected = IdSet::new();
            self.selected.insert(id);
        }
    }

    /// Begins to draw a selection.
    pub fn start_drag(&mut self, anchor_id: Option<u64>, additive: bool)
        ensures
            final(self)@ == old(self)@.with_drag_from(anchor_id, additive),
    {
        if self.flags.loading {
            return;
        }
        self.cancel_selection();
        let base = self.selected.copy();
        self.drag = Some(ContextSelectionDrag { anchor_id, base, moved: false, additive });
    }

    fn frame(drag: &ContextSelectionDrag, hits: &Vec<u64>) -> (selected: IdSet)
        ensures
            selected@ == ContextPaneView::framed(drag@, hits@.to_set()),
    {
        let mut selected = if drag.additive {
            drag.base.copy()
        } else {
            IdSet::new()
        };
        selected.extend(hits);
        proof {
            assert(Set::<u64>::empty().union(hits@.to_set()) =~= hits@.to_set());
        }
        selected
    }

    /// Follows the pointer while its button is down, and tells whether a frame is drawn.
    pub fn move_drag(&mut self, far: bool, hits: &Vec<u64>) -> (framed: bool)
        ensures
            final(self)@ == old(self)@.with_drag_at(far, hits@.to_set()),
            framed == (old(self)@.drag matches Some(drag) && (drag.moved || far)),
    {
        match self.drag.take() {
            Some(mut drag) => {
                drag.moved = drag.moved || far;
                let framed = drag.moved;
                if framed {
                    self.selected = Self::frame(&drag, hits);
                }
                self.drag = Some(drag);
                framed
            },
            None => false,
        }
    }

    /// Takes into the selection what is under the frame now.
    pub fn move_frame(&mut self, hits: &Vec<u64>)
        ensures
            final(self)@ == old(self)@.with_frame_over(hits@.to_set()),
    {
        if let Some(drag) = self.drag.take() {
            self.selected = Self::frame(&drag, hits);
            self.drag = Some(drag);
        }
    }

    /// Tells whether a step of scrolling is to be made, and makes note of it.
    pub fn start_scrolling(&mut self, near_edge: bool) -> (started: bool)
        ensures
            final(self)@ == old(self)@.with_scrolling(near_edge),
            started == old(self)@.scrolling_starts(near_edge),
    {
        let moved = match &self.drag {
            Some(drag) => drag.moved,
            None => false,
        };
        if !near_edge || self.flags.scroll_scheduled || !moved {
            return false;
        }
        self.flags.scroll_scheduled = true;
        true
    }

    /// Ends a selection.
    pub fn finish_drag(&mut self)
        ensures
            final(self)@ == old(self)@.with_drag_finished(),
    {
        self.stop_scrolling();
        if let Some(drag) = self.drag.take() {
            if !drag.moved {
                let mut selected = if drag.additive {
                    drag.base.copy()
                } else {
                    IdSet::new()
                };
                if let Some(id) = drag.anchor_id {
                    if !selected.insert(id) {
                        selected.remove(id);
                        proof {
                            assert(drag@.base.insert(id).remove(id) =~= drag@.base.remove(id));
                        }
                    }
                }
                self.selected = selected;
            }
        }
    }

    fn empty_editors(&mut self)
        ensures
            final(self)@ == old(self)@.emptied(),
    {
        self.editors = Vec::new();
        self.selected = IdSet::new();
        proof {
            assert(editor_views(self.editors@) =~= Seq::<EditorView>::empty());
        }
    }

    /// Gets ready to load the messages again, where there are some to load.
    pub fn reload(&mut self, wanted: bool)
        ensures
            final(self)@ == old(self)@.reloading(wanted),
    {
        self.cancel_selection();
        self.flags.revision = next_revision(self.flags.revision);
        self.flags.loading = wanted;
        self.empty_editors();
        self.error = None;
    }

    /// Gives up what is being loaded.
    pub fn drop_load(&mut self)
        ensures
            final(self)@ == old(self)@.load_dropped(),
    {
        self.flags.revision = next_revision(self.flags.revision);
        self.flags.loading = false;
    }

    /// Shows what has been loaded.
    pub fn show_loaded(&mut self, messages: Vec<ContextMessage>)
        ensures
            final(self)@ == old(self)@.with_loaded(loaded_views(messages@)),
    {
        let mut editors: Vec<ContextMessageEditor> = Vec::new();
        let mut index: usize = 0;
        while index < messages.len()
            invariant
                index <= messages.len(),
                editors@.len() == index,
                forall|i: int| 0 <= i < index ==> (#[trigger] editors@[i])@ == messages@[i]@,
            decreases messages.len() - index,
        {
            let message = &messages[index];
            editors.push(
                ContextMessageEditor {
                    id: message.id,
                    role: message.role,
                    text: message.content.clone(),
                    saved_content: message.content.clone(),
                    tokens: message.tokens,
                    fixed_tokens: message.fixed_tokens,
                },
            );
            index = index + 1;
        }
        self.editors = editors;
        self.selected = IdSet::new();
        self.error = None;
        self.flags.loading = false;
        proof {
            assert(editor_views(self.editors@) =~= loaded_views(messages@));
        }
    }

    /// Shows why nothing could be loaded.
    pub fn show_load_error(&mut self, error: String)
        ensures
            final(self)@ == old(self)@.with_load_error(error@),
    {
        self.empty_editors();
        self.error = Some(error);
        self.flags.loading = false;
    }

    /// Shows a conversation that was cleared.
    pub fn clear(&mut self)
        ensures
            final(self)@ == old(self)@.cleared(),
    {
        self.drop_load();
        self.error = None;
        self.empty_editors();
        self.cancel_selection();
    }

    /// Takes note of what the field of the message at `index` holds.
    pub fn set_text(&mut self, index: usize, text: String)
        requires
            index < old(self).editors@.len(),
        ensures
            final(self)@ == old(self)@.with_text(index as int, text@),
    {
        let editor = &self.editors[index];
        let changed = ContextMessageEditor {
            id: editor.id,
            role: editor.role,
            text,
            saved_content: editor.saved_content.clone(),
            tokens: editor.tokens,
            fixed_tokens: editor.fixed_tokens,
        };
        self.editors.set(index, changed);
        proof {
            assert(self@.editors =~= old(self)@.with_text(index as int, text@).editors);
        }
    }

    /// Puts the field of the message at `index` back to what has been saved.
    pub fn restore_text(&mut self, index: usize)
        requires
            index < old(self).editors@.len(),
        ensures
            final(self)@ == old(self)@.restored(index as int),
    {
        let saved = self.editors[index].saved_content.clone();
        self.set_text(index, saved);
    }

    /// Accepts a change of the message at `index`.
    pub fn set_saved(&mut self, index: usize, content: String, tokens: usize)
        requires
            index < old(self).editors@.len(),
        ensures
            final(self)@ == old(self)@.with_saved(index as int, content@, tokens),
    {
        let editor = &self.editors[index];
        let changed = ContextMessageEditor {
            id: editor.id,
            role: editor.role,
            text: editor.text.clone(),
            saved_content: content,
            tokens,
            fixed_tokens: editor.fixed_tokens,
        };
        self.editors.set(index, changed);
        proof {
            assert(self@.editors =~= old(self)@.with_saved(
                index as int,
                content@,
                tokens,
            ).editors);
        }
    }

    /// Adds up the tokens of all messages.
    pub fn total_tokens(&self) -> (tokens: usize)
        ensures
            tokens == tokens_of(self@.editors, self@.editors.len() as int),
    {
        let mut tokens: usize = 0;
        let mut index: usize = 0;
        while index < self.editors.len()
            invariant
                index <= self.editors.len(),
                tokens == tokens_of(self@.editors, index as int),
            decreases self.editors.len() - index,
        {
            proof {
                assert(self@.editors[index as int] == self.editors@[index as int]@);
            }
            tokens = tokens.saturating_add(self.editors[index].tokens);
            index = index + 1;
        }
        tokens
    }

    /// Lists the selected messages in the order in which they are shown.
    pub fn selected_ids(&self) -> (ids: Vec<u64>)
        ensures
            ids@ == ids_among(self@.editors, self@.selected, self@.editors.len() as int),
    {
        let mut ids: Vec<u64> = Vec::new();
        let mut index: usize = 0;
        while index < self.editors.len()
            invariant
                index <= self.editors.len(),
                ids@ == ids_among(self@.editors, self@.selected, index as int),
            decreases self.editors.len() - index,
        {
            proof {
                assert(self@.editors[index as int] == self.editors@[index as int]@);
            }
            let id: u64 = self.editors[index].id;
            if self.selected.contains(id) {
                ids.push(id);
            }
            index = index + 1;
        }
        ids
    }

    /// Joins the texts of the selected messages, a line break between each two.
    pub fn selected_text(&self) -> (text: String)
        ensures
            text@ == joined_lines(
                texts_among(self@.editors, self@.selected, self@.editors.len() as int),
            ),
    {
        let mut text: String = String::new();
        let mut first = true;
        let mut index: usize = 0;
        proof {
            assert(text@ =~= Seq::<char>::empty());
        }
        while index < self.editors.len()
            invariant
                index <= self.editors.len(),
                text@ == joined_lines(texts_among(self@.editors, self@.selected, index as int)),
                first == (texts_among(self@.editors, self@.selected, index as int).len() == 0),
            decreases self.editors.len() - index,
        {
            let ghost before = texts_among(self@.editors, self@.selected, index as int);
            proof {
                assert(self@.editors[index as int] == self.editors@[index as int]@);
            }
            if self.selected.contains(self.editors[index].id) {
                proof {
                    let extended = before.push(self@.editors[index as int].text);
                    assert(extended.drop_last() =~= before);
                }
                if first {
                    text = self.editors[index].text.clone();
                } else {
                    text.append("\n");
                    text.append(self.editors[index].text.as_str());
                }
                first = false;
            }
            index = index + 1;
        }
        text
    }

    fn has_message(&self, id: u64) -> (known: bool)
        ensures
            known == editor_ids(self@.editors).contains(id),
    {
        let found = self.message_index(id);
        proof {
            first_position_is_first(self@.editors, 0, has_message_id(id));
            let ids = editor_ids(self@.editors);
            if ids.contains(id) {
                let i = choose|i: int| 0 <= i < ids.len() && ids[i] == id;
                assert(has_message_id(id)(self@.editors[i]));
            }
            if let Some(index) = found {
                assert(ids[index as int] == id);
            }
        }
        found.is_some()
    }

    /// Keeps those of `ids` that some message goes by, each once.
    pub fn keep_known(&self, ids: &Vec<u64>) -> (known: Vec<u64>)
        ensures
            known@ == known_ids(self@.editors, ids@, ids@.len() as int),
    {
        let mut known: Vec<u64> = Vec::new();
        let mut seen = IdSet::new();
        let mut index: usize = 0;
        proof {
            assert(known@.to_set() =~= seen@);
        }
        while index < ids.len()
            invariant
                index <= ids.len(),
                known@ == known_ids(self@.editors, ids@, index as int),
                seen@ == known@.to_set(),
            decreases ids.len() - index,
        {
            let id: u64 = ids[index];
            if self.has_message(id) && !seen.contains(id) {
                proof {
                    known@.lemma_push_to_set_commute(id);
                }
                seen.insert(id);
                known.push(id);
            }
            index = index + 1;
        }
        known
    }

    /// Removes the messages `ids` and returns how many they were and how many tokens they
    /// had. Where there is none of them, nothing changes.
    pub fn remove_messages(&mut self, ids: &Vec<u64>) -> (removed: (usize, usize))
        ensures
            removed.0 == count_among(
                old(self)@.editors,
                ids@.to_set(),
                old(self)@.editors.len() as int,
            ),
            removed.1 == tokens_among(
                old(self)@.editors,
                ids@.to_set(),
                old(self)@.editors.len() as int,
            ),
            final(self)@ == (if removed.0 == 0 {
                old(self)@
            } else {
                old(self)@.without_messages(ids@.to_set())
            }),
    {
        let mut wanted = IdSet::new();
        wanted.extend(ids);
        proof {
            assert(Set::<u64>::empty().union(ids@.to_set()) =~= ids@.to_set());
        }
        let ghost editors = self@.editors;
        let ghost set = ids@.to_set();
        let mut kept: Vec<ContextMessageEditor> = Vec::new();
        let mut messages: usize = 0;
        let mut tokens: usize = 0;
        let mut index: usize = 0;
        proof {
            assert(editor_views(kept@) =~= editors_without(editors, set, 0));
        }
        while index < self.editors.len()
            invariant
                index <= self.editors.len(),
                *self == *old(self),
                editors == self@.editors,
                set == wanted@,
                messages <= index,
                messages == count_among(editors, set, index as int),
                tokens == tokens_among(editors, set, index as int),
                editor_views(kept@) == editors_without(editors, set, index as int),
                messages == 0 ==> editors_without(editors, set, index as int) == editors.take(
                    index as int,
                ),
            decreases self.editors.len() - index,
        {
            proof {
                assert(editors[index as int] == self.editors@[index as int]@);
            }
            let editor = &self.editors[index];
            if wanted.contains(editor.id) {
                messages = messages + 1;
                tokens = tokens.saturating_add(editor.tokens);
            } else {
                let ghost before = kept@;
                kept.push(
                    ContextMessageEditor {
                        id: editor.id,
                        role: editor.role,
                        text: editor.text.clone(),
                        saved_content: editor.saved_content.clone(),
                        tokens: editor.tokens,
                        fixed_tokens: editor.fixed_tokens,
                    },
                );
                proof {
                    assert(editor_views(kept@) =~= editor_views(before).push(
                        editors[index as int],
                    ));
                    assert(editors.take(index + 1) =~= editors.take(index as int).push(
                        editors[index as int],
                    ));
                }
            }
            index = index + 1;
        }
        proof {
            assert(editors.take(editors.len() as int) =~= editors);
        }
        if messages != 0 {
            self.editors = kept;
            self.selected.remove_all(ids);
        }
        (messages, tokens)
    }
}

} // verus!

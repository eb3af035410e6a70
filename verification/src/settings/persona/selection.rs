//! Selecting messages with the keyboard and the pointer.

use vstd::prelude::*;

use crate::id_set::IdSet;
use crate::settings::persona::actions::{
    PersonaAction, PersonaActions, PersonaEffect, PersonaPage,
};
use crate::settings::persona::pane::{
    ids_among, joined_lines, known_ids, texts_among, ContextFlags, ContextPaneView,
};
use crate::settings::persona::view::{
    MemoryPaneView, PendingConfirm, PendingConfirmView, PersonaSettingsView, PersonaState,
    PersonaStatus,
};

verus! {

/// A character with a capital letter of the Latin alphabet made small.
pub open spec fn lower_letter(c: char) -> u32 {
    if 'A' as u32 <= c as u32 <= 'Z' as u32 {
        (c as u32 + 32) as u32
    } else {
        c as u32
    }
}

/// Whether two texts are the same but for the case of Latin letters.
pub open spec fn same_letters(left: Seq<char>, right: Seq<char>) -> bool {
    left.len() == right.len() && forall|i: int|
        0 <= i < left.len() ==> lower_letter(#[trigger] left[i]) == lower_letter(right[i])
}

fn lower(c: char) -> (code: u32)
    ensures
        code == lower_letter(c),
{
    let code: u32 = c as u32;
    if 0x41 <= code && code <= 0x5a {
        code + 32
    } else {
        code
    }
}

/// Tells whether a drag adds to the selection: with the shift key or the platform's main
/// modifier held it does.
pub fn selection_is_additive(shift: bool, secondary: bool) -> (additive: bool)
    ensures
        additive == (shift || secondary),
{
    shift || secondary
}

/// Tells whether a key goes by a name, whatever the case of its letters.
pub fn is_key(key: &str, name: &str) -> (same: bool)
    ensures
        same == same_letters(key@, name@),
{
    let length: usize = key.unicode_len();
    if length != name.unicode_len() {
        return false;
    }
    let mut index: usize = 0;
    while index < length
        invariant
            index <= length,
            length == key@.len(),
            length == name@.len(),
            forall|i: int|
                0 <= i < index ==> lower_letter(#[trigger] key@[i]) == lower_letter(name@[i]),
        decreases length - index,
    {
        if lower(key.get_char(index)) != lower(name.get_char(index)) {
            return false;
        }
        index = index + 1;
    }
    true
}

/// What a key asks of the page.
#[derive(Debug, Clone, Copy, PartialEq, Eq, Structural)]
pub enum PageKey {
    Escape,
    /// Select everything.
    SelectAll,
    Delete,
    Other,
}

/// What a key asks for.
pub open spec fn key_meaning(key: Seq<char>, alt: bool) -> PageKey {
    if same_letters(key, "escape"@) {
        PageKey::Escape
    } else if alt && same_letters(key, "a"@) {
        PageKey::SelectAll
    } else if same_letters(key, "delete"@) {
        PageKey::Delete
    } else {
        PageKey::Other
    }
}

/// Returns what a key asks for.
pub fn read_key(key: &str, alt: bool) -> (meaning: PageKey)
    ensures
        meaning == key_meaning(key@, alt),
{
    if is_key(key, "escape") {
        PageKey::Escape
    } else if alt && is_key(key, "a") {
        PageKey::SelectAll
    } else if is_key(key, "delete") {
        PageKey::Delete
    } else {
        PageKey::Other
    }
}

impl PersonaState {
    /// The selected messages, in the order in which they are shown.
    pub open spec fn selected_messages(self) -> Seq<u64> {
        ids_among(self.pane.editors, self.pane.selected, self.pane.editors.len() as int)
    }

    /// Those of `ids` that can be deleted.
    pub open spec fn deletable(self, ids: Seq<u64>) -> Seq<u64> {
        known_ids(self.pane.editors, ids, ids.len() as int)
    }

    /// Whether a second word is asked for before messages are deleted.
    pub open spec fn asks_to_delete(self, ids: Seq<u64>) -> bool {
        !self.pane.flags.loading && self.editing() is Some && self.deletable(ids).len() > 0
    }

    /// The page asking for a second word.
    pub open spec fn confirming(self, pending: Option<PendingConfirmView>) -> Self {
        PersonaState {
            memory: MemoryPaneView { pending_confirm: pending, ..self.memory },
            ..self
        }
    }

    /// The page after messages were asked to be deleted.
    pub open spec fn asking_to_delete(self, ids: Seq<u64>) -> Self {
        if self.asks_to_delete(ids) {
            self.confirming(
                Some(
                    PendingConfirmView::DeleteMessages {
                        persona: self.editing_id()->Some_0,
                        message_ids: self.deletable(ids),
                    },
                ),
            )
        } else {
            self
        }
    }

    /// What asking for messages to be deleted takes.
    pub open spec fn asking_effects(self, ids: Seq<u64>) -> Seq<PersonaEffect> {
        if self.asks_to_delete(ids) {
            seq![PersonaEffect::Notify]
        } else {
            Seq::empty()
        }
    }

    /// Whether keys other than escape mean something: the conversation is on view and
    /// nothing is being edited or confirmed.
    pub open spec fn takes_message_keys(self) -> bool {
        self.ui.active_page == PersonaPage::Context && self.pane.flags.editing is None
            && self.memory.pending_confirm is None
    }

    /// The page with the messages replaced.
    pub open spec fn with_pane(self, pane: ContextPaneView) -> Self {
        PersonaState { pane, ..self }
    }

    /// The page after escape: the first thing there is to call off is called off.
    pub open spec fn escaped(self) -> Self {
        if self.memory.pending_confirm is Some {
            self.confirming(None)
        } else if let Some(id) = self.pane.flags.editing {
            match self.pane.position_of(id) {
                Some(index) => self.with_pane(self.pane.restored(index).with_editing(None)),
                None => self,
            }
        } else if self.input_edit is Some {
            PersonaState { input_edit: None, ..self }
        } else if self.pane.drag is Some || self.pane.selected != Set::<u64>::empty() {
            self.with_pane(
                ContextPaneView { selected: Set::empty(), ..self.pane.without_drag() },
            )
        } else {
            self
        }
    }

    /// What escape takes.
    pub open spec fn escape_effects(self) -> Seq<PersonaEffect> {
        if self.memory.pending_confirm is Some {
            seq![PersonaEffect::Consume, PersonaEffect::Notify]
        } else if let Some(id) = self.pane.flags.editing {
            match self.pane.position_of(id) {
                Some(index) => seq![
                    PersonaEffect::Consume,
                    PersonaEffect::RestoreMessage { message_id: id },
                    PersonaEffect::Blur,
                    PersonaEffect::Notify,
                ],
                None => seq![PersonaEffect::Consume],
            }
        } else if let Some(edit) = self.input_edit {
            seq![
                PersonaEffect::Consume,
                PersonaEffect::RestoreField { field: edit.field, text: edit.text@ },
            ]
        } else if self.pane.drag is Some || self.pane.selected != Set::<u64>::empty() {
            seq![PersonaEffect::Consume, PersonaEffect::Notify]
        } else {
            Seq::empty()
        }
    }

    /// The page after a key.
    pub open spec fn after_key(self, key: PageKey) -> Self {
        match key {
            PageKey::Escape => self.escaped(),
            PageKey::SelectAll => if self.takes_message_keys() {
                self.with_pane(self.pane.with_all_selected())
            } else {
                self
            },
            PageKey::Delete => if self.takes_message_keys() && self.pane.selected != Set::<
                u64,
            >::empty() {
                self.asking_to_delete(self.selected_messages())
            } else {
                self
            },
            PageKey::Other => self,
        }
    }

    /// What a key takes.
    pub open spec fn key_effects(self, key: PageKey) -> Seq<PersonaEffect> {
        match key {
            PageKey::Escape => self.escape_effects(),
            PageKey::SelectAll => if self.takes_message_keys() {
                seq![PersonaEffect::Consume, PersonaEffect::Notify]
            } else {
                Seq::empty()
            },
            PageKey::Delete => if self.takes_message_keys() && self.pane.selected != Set::<
                u64,
            >::empty() {
                seq![PersonaEffect::Consume] + self.asking_effects(self.selected_messages())
            } else {
                Seq::empty()
            },
            PageKey::Other => Seq::empty(),
        }
    }

    /// The text of the selected messages.
    pub open spec fn selected_text(self) -> Seq<char> {
        joined_lines(
            texts_among(self.pane.editors, self.pane.selected, self.pane.editors.len() as int),
        )
    }

    /// What a step of scrolling takes, where there is to be one.
    pub open spec fn scroll_effects(self, near_edge: bool) -> Seq<PersonaEffect> {
        if self.pane.scrolling_starts(near_edge) {
            seq![PersonaEffect::ScheduleScroll { revision: self.pane.flags.scroll_revision }]
        } else {
            Seq::empty()
        }
    }
}

impl PersonaSettingsView {
    fn press_escape(&mut self) -> (actions: PersonaActions)
        ensures
            final(self)@ == old(self)@.escaped(),
            actions@ == old(self)@.escape_effects(),
    {
        let mut actions = PersonaActions::one(PersonaAction::Consume);
        if self.memory.pending_confirm.is_some() {
            self.memory.pending_confirm = None;
            actions.push(PersonaAction::Notify);
            proof {
                assert(actions@ =~= old(self)@.escape_effects());
            }
            return actions;
        }
        if let Some(id) = self.pane.flags.editing {
            let cancel = self.cancel_context_message_edit(id);
            actions.append(cancel);
            proof {
                assert(actions@ =~= old(self)@.escape_effects());
            }
            return actions;
        }
        if let Some(edit) = self.input_edit.take() {
            actions.push(PersonaAction::RestoreField { field: edit.field, text: edit.text });
            proof {
                assert(actions@ =~= old(self)@.escape_effects());
            }
            return actions;
        }
        if self.pane.drag.is_some() || !self.pane.selected.is_empty() {
            self.pane.cancel_selection();
            self.pane.selected = IdSet::new();
            actions.push(PersonaAction::Notify);
            proof {
                assert(actions@ =~= old(self)@.escape_effects());
            }
            return actions;
        }
        PersonaActions::none()
    }

    /// Follows a key.
    pub fn handle_key_down(&mut self, key: PageKey) -> (actions: PersonaActions)
        ensures
            final(self)@ == old(self)@.after_key(key),
            actions@ == old(self)@.key_effects(key),
    {
        if key == PageKey::Escape {
            return self.press_escape();
        }
        if self.ui.active_page != PersonaPage::Context || self.pane.flags.editing.is_some()
            || self.memory.pending_confirm.is_some() {
            return PersonaActions::none();
        }
        match key {
            PageKey::SelectAll => {
                self.pane.select_all();
                let mut actions = PersonaActions::one(PersonaAction::Consume);
                actions.push(PersonaAction::Notify);
                proof {
                    assert(actions@ =~= old(self)@.key_effects(key));
                }
                actions
            },
            PageKey::Delete => {
                if self.pane.selected.is_empty() {
                    return PersonaActions::none();
                }
                let mut actions = PersonaActions::one(PersonaAction::Consume);
                let request = self.request_delete_selected_context_messages();
                actions.append(request);
                actions
            },
            _ => PersonaActions::none(),
        }
    }

    /// Makes sure that the message that a menu is opened on is selected.
    pub fn prepare_context_menu_selection(&mut self, id: u64) -> (actions: PersonaActions)
        ensures
            final(self)@ == old(self)@.with_pane(old(self)@.pane.with_menu_on(id)),
            actions@ == seq![PersonaEffect::Notify],
    {
        self.pane.select_for_menu(id);
        PersonaActions::one(PersonaAction::Notify)
    }

    /// Copies the text of the selected messages, unless it is empty.
    pub fn copy_selected_context_messages(&mut self) -> (actions: PersonaActions)
        ensures
            old(self)@.selected_text().len() == 0 ==> {
                &&& final(self)@ == old(self)@
                &&& actions@ == Seq::<PersonaEffect>::empty()
            },
            old(self)@.selected_text().len() > 0 ==> {
                &&& final(self)@ == old(self)@.reporting(PersonaStatus::Copied)
                &&& actions@ == seq![
                    PersonaEffect::CopyText { text: old(self)@.selected_text() },
                ] + old(self)@.report_effects()
            },
    {
        let text = self.pane.selected_text();
        if text.as_str().unicode_len() == 0 {
            return PersonaActions::none();
        }
        let mut actions = PersonaActions::one(PersonaAction::CopyText { text });
        let report = self.set_status(PersonaStatus::Copied);
        actions.append(report);
        actions
    }

    /// Begins to draw a selection at a message, if there is one under the pointer.
    pub fn start_context_selection_drag(&mut self, anchor_id: Option<u64>, additive: bool) -> (actions:
        PersonaActions)
        ensures
            final(self)@ == old(self)@.with_pane(
                old(self)@.pane.with_drag_from(anchor_id, additive),
            ),
            actions@ == (if old(self)@.pane.flags.loading {
                Seq::empty()
            } else {
                seq![PersonaEffect::FocusMessages, PersonaEffect::Notify]
            }),
    {
        if self.pane.flags.loading {
            return PersonaActions::none();
        }
        self.pane.start_drag(anchor_id, additive);
        let mut actions = PersonaActions::one(PersonaAction::FocusMessages);
        actions.push(PersonaAction::Notify);
        proof {
            assert(actions@ =~= seq![PersonaEffect::FocusMessages, PersonaEffect::Notify]);
        }
        actions
    }

    fn schedule_context_selection_auto_scroll(&mut self, near_edge: bool) -> (actions:
        PersonaActions)
        ensures
            final(self)@ == old(self)@.with_pane(old(self)@.pane.with_scrolling(near_edge)),
            actions@ == old(self)@.scroll_effects(near_edge),
    {
        if self.pane.start_scrolling(near_edge) {
            PersonaActions::one(
                PersonaAction::ScheduleScroll { revision: self.pane.flags.scroll_revision },
            )
        } else {
            PersonaActions::none()
        }
    }

    /// Follows the pointer while a selection is drawn. `dragging` tells whether its button is
    /// down; a movement without it does not end the selection.
    pub fn update_context_selection_drag(
        &mut self,
        dragging: bool,
        far: bool,
        hits: &Vec<u64>,
        near_edge: bool,
    ) -> (actions: PersonaActions)
        ensures
            old(self)@.pane.drag is None || !dragging ==> {
                &&& final(self)@ == old(self)@
                &&& actions@ == Seq::<PersonaEffect>::empty()
            },
            old(self)@.pane.drag is Some && dragging ==> {
                let drawn = old(self)@.with_pane(
                    old(self)@.pane.with_drag_at(far, hits@.to_set()),
                );
                &&& final(self)@ == drawn.with_pane(drawn.pane.with_scrolling(near_edge))
                &&& actions@ == drawn.scroll_effects(near_edge).push(PersonaEffect::Notify)
            },
    {
        if self.pane.drag.is_none() || !dragging {
            return PersonaActions::none();
        }
        let framed = self.pane.move_drag(far, hits);
        let mut actions = PersonaActions::none();
        if framed {
            actions = self.schedule_context_selection_auto_scroll(near_edge);
        }
        actions.push(PersonaAction::Notify);
        actions
    }

    /// Follows the messages as they scroll by under a selection that is drawn.
    pub fn context_selection_scrolled(&mut self, hits: &Vec<u64>, near_edge: bool) -> (actions:
        PersonaActions)
        ensures
            old(self)@.pane.drag is None ==> {
                &&& final(self)@ == old(self)@
                &&& actions@ == Seq::<PersonaEffect>::empty()
            },
            old(self)@.pane.drag is Some ==> {
                let drawn = old(self)@.with_pane(old(self)@.pane.with_frame_over(hits@.to_set()));
                &&& final(self)@ == drawn.with_pane(drawn.pane.with_scrolling(near_edge))
                &&& actions@ == drawn.scroll_effects(near_edge).push(PersonaEffect::Notify)
            },
    {
        if self.pane.drag.is_none() {
            return PersonaActions::none();
        }
        self.pane.move_frame(hits);
        let mut actions = self.schedule_context_selection_auto_scroll(near_edge);
        actions.push(PersonaAction::Notify);
        actions
    }

    /// Tells whether a step of scrolling that has become due is still wanted, and makes room
    /// for the next.
    pub fn scroll_due(&mut self, revision: u64) -> (wanted: bool)
        ensures
            wanted == (old(self)@.pane.flags.scroll_revision == revision),
            final(self)@ == (if wanted {
                old(self)@.with_pane(
                    ContextPaneView {
                        flags: ContextFlags {
                            scroll_scheduled: false,
                            ..old(self)@.pane.flags
                        },
                        ..old(self)@.pane
                    },
                )
            } else {
                old(self)@
            }),
    {
        if self.pane.flags.scroll_revision != revision {
            return false;
        }
        self.pane.flags.scroll_scheduled = false;
        true
    }

    /// Makes a step of scrolling: `scrolled` tells whether there was room for one, `hits` are
    /// the messages that are then under the frame, and `near_edge` tells whether to go on.
    pub fn advance_context_selection_auto_scroll(
        &mut self,
        scrolled: bool,
        hits: &Vec<u64>,
        near_edge: bool,
    ) -> (actions: PersonaActions)
        ensures
            ({
                let advances = scrolled && (old(self)@.pane.drag matches Some(drag) && drag.moved);
                let drawn = old(self)@.with_pane(old(self)@.pane.with_frame_over(hits@.to_set()));
                &&& !advances ==> {
                    &&& final(self)@ == old(self)@
                    &&& actions@ == Seq::<PersonaEffect>::empty()
                }
                &&& advances ==> {
                    &&& final(self)@ == drawn.with_pane(drawn.pane.with_scrolling(near_edge))
                    &&& actions@ == seq![PersonaEffect::Notify] + drawn.scroll_effects(near_edge)
                }
            }),
    {
        let moved = match &self.pane.drag {
            Some(drag) => drag.moved,
            None => false,
        };
        if !scrolled || !moved {
            return PersonaActions::none();
        }
        self.pane.move_frame(hits);
        let mut actions = PersonaActions::one(PersonaAction::Notify);
        let schedule = self.schedule_context_selection_auto_scroll(near_edge);
        actions.append(schedule);
        actions
    }

    /// Ends a selection.
    pub fn finish_context_selection_drag(&mut self) -> (actions: PersonaActions)
        ensures
            final(self)@ == old(self)@.with_pane(old(self)@.pane.with_drag_finished()),
            actions@ == (if old(self)@.pane.drag is Some {
                seq![PersonaEffect::Notify]
            } else {
                Seq::empty()
            }),
    {
        let drawn = self.pane.drag.is_some();
        self.pane.finish_drag();
        if drawn {
            PersonaActions::one(PersonaAction::Notify)
        } else {
            PersonaActions::none()
        }
    }

    /// Asks for a second word before the selected messages are deleted.
    pub fn request_delete_selected_context_messages(&mut self) -> (actions: PersonaActions)
        ensures
            final(self)@ == old(self)@.asking_to_delete(old(self)@.selected_messages()),
            actions@ == old(self)@.asking_effects(old(self)@.selected_messages()),
    {
        let ids = self.pane.selected_ids();
        self.request_delete_context_messages(&ids)
    }

    /// Asks for a second word before messages are deleted.
    pub fn request_delete_context_messages(&mut self, message_ids: &Vec<u64>) -> (actions:
        PersonaActions)
        ensures
            final(self)@ == old(self)@.asking_to_delete(message_ids@),
            actions@ == old(self)@.asking_effects(message_ids@),
    {
        if self.pane.flags.loading {
            return PersonaActions::none();
        }
        let Some(persona) = self.editing_persona_id() else {
            return PersonaActions::none();
        };
        let message_ids = self.pane.keep_known(message_ids);
        if message_ids.len() == 0 {
            return PersonaActions::none();
        }
        self.memory.pending_confirm = Some(PendingConfirm::DeleteMessages { persona, message_ids });
        PersonaActions::one(PersonaAction::Notify)
    }
}

} // verus!

//! Dangerous things: clearing memory and deleting personas.

use vstd::prelude::*;

use crate::fresh_id::text_views;
use crate::settings::persona::actions::{
    MemoryScope, PersonaAction, PersonaActions, PersonaEffect, PersonaPage,
};
use crate::settings::persona::config::{persona_views, PersonaSettingsData};
use crate::settings::persona::context::{commit_keeps_surroundings, MessageWeights};
use crate::settings::persona::view::{
    CleanupView, ContextUsage, MemoryPaneView, PendingConfirm, PendingConfirmView,
    PersonaSettingsView, PersonaState, PersonaStatus,
};
use crate::text::optional_view;

verus! {

/// What a second word is asked for, and about which persona.
#[derive(Debug, PartialEq, Eq)]
#[allow(inconsistent_fields)]
pub enum ConfirmPrompt {
    ClearMemory { name: String, scope: MemoryScope },
    DeletePersona { name: String },
    DeleteMessages { name: String, count: usize },
}

impl PersonaState {
    /// What clearing memory takes.
    pub open spec fn clear_effects(
        self,
        persona: Seq<char>,
        scope: MemoryScope,
        cleanup: bool,
    ) -> Seq<PersonaEffect> {
        seq![PersonaEffect::ClearMemory { persona, scope, cleanup }] + self.report_effects() + seq![
            PersonaEffect::Notify,
        ]
    }

    /// The page after a persona was asked to be deleted. The last one must stay, so that
    /// there is always one to keep the memory under.
    pub open spec fn asking_to_delete_persona(self, id: Seq<char>) -> Self {
        if !self.draft.has_persona(id) {
            self
        } else if self.draft.personas.len() <= 1 {
            self.reporting(PersonaStatus::LastPersona)
        } else {
            self.confirming(Some(PendingConfirmView::DeletePersona { persona: id }))
        }
    }

    /// What asking for a persona to be deleted takes.
    pub open spec fn asking_to_delete_persona_effects(self, id: Seq<char>) -> Seq<PersonaEffect> {
        if !self.draft.has_persona(id) {
            Seq::empty()
        } else if self.draft.personas.len() <= 1 {
            self.report_effects()
        } else {
            seq![PersonaEffect::Notify]
        }
    }

    /// The settings without the persona at `index`. Its memory is still to be cleared, and
    /// where it was in use, its neighbour takes its place.
    pub open spec fn draft_without(self, index: int) -> PersonaSettingsData {
        let id = self.draft.personas[index].id;
        let personas = self.draft.personas.remove(index);
        let next = if index < personas.len() {
            index
        } else {
            personas.len() - 1
        };
        PersonaSettingsData {
            personas,
            selected: if self.draft.selected == Some(id) {
                Some(personas[next].id)
            } else {
                self.draft.selected
            },
            pending_deletions: if self.draft.pending_deletions.contains(id) {
                self.draft.pending_deletions
            } else {
                self.draft.pending_deletions.push(id)
            },
        }
    }

    /// The page without the persona at `index`, before it turns to another.
    pub open spec fn without_persona(self, index: int) -> Self {
        PersonaState {
            draft: self.draft_without(index),
            cleanup: CleanupView {
                pending: self.cleanup.pending.insert(self.draft.personas[index].id),
                ..self.cleanup
            },
            ..self
        }
    }

    /// The persona to turn to: the one with the given identifier, or else the one in use, or
    /// else the first.
    pub open spec fn next_editing(self, id: Option<Seq<char>>) -> int {
        match id {
            Some(id) => match self.draft.position_of(id) {
                Some(index) => index,
                None => self.selected_or_first(),
            },
            None => self.selected_or_first(),
        }
    }

    /// The persona in use, or else the first.
    pub open spec fn selected_or_first(self) -> int {
        match self.draft.selected_position() {
            Some(index) => index,
            None => 0,
        }
    }

    /// The page after a persona was deleted. What it was before has nothing left to commit or
    /// to read from the form.
    pub open spec fn after_delete(self, id: Seq<char>) -> Self {
        match self.draft.position_of(id) {
            None => self,
            Some(index) => if self.draft.personas.len() <= 1 {
                self.reporting(PersonaStatus::LastPersona)
            } else {
                let rest = self.without_persona(index);
                rest.turned_to(Some(rest.next_editing(self.editing_id()) as usize))
            },
        }
    }

    /// What deleting a persona takes.
    pub open spec fn delete_persona_effects(self, id: Seq<char>) -> Seq<PersonaEffect> {
        match self.draft.position_of(id) {
            None => Seq::empty(),
            Some(index) => if self.draft.personas.len() <= 1 {
                self.report_effects()
            } else {
                let rest = self.without_persona(index);
                rest.turn_effects(Some(rest.next_editing(self.editing_id()) as usize)).push(
                    PersonaEffect::SaveDraft,
                )
            },
        }
    }

    /// The page after the second word was given.
    pub open spec fn accepted(self, weights: MessageWeights) -> Self {
        let asked = self.confirming(None);
        match self.memory.pending_confirm {
            None => self,
            Some(PendingConfirmView::ClearMemory { .. }) => asked.reporting(
                PersonaStatus::MemoryClearing,
            ),
            Some(PendingConfirmView::DeletePersona { persona }) => asked.all_committed(
                weights,
            ).captured().after_delete(persona),
            Some(PendingConfirmView::DeleteMessages { message_ids, .. }) => asked.with_deleted(
                message_ids.to_set(),
            ),
        }
    }

    /// What the second word takes.
    pub open spec fn accepted_effects(self, weights: MessageWeights) -> Seq<PersonaEffect> {
        let asked = self.confirming(None);
        match self.memory.pending_confirm {
            None => Seq::empty(),
            Some(PendingConfirmView::ClearMemory { persona, scope }) => self.clear_effects(
                persona,
                scope,
                false,
            ),
            Some(PendingConfirmView::DeletePersona { persona }) => asked.all_committed_effects(
                weights,
            ) + asked.all_committed(weights).captured().delete_persona_effects(persona),
            Some(PendingConfirmView::DeleteMessages { persona, message_ids }) =>
                asked.delete_effects(persona, message_ids),
        }
    }

    /// The page with the conversation of the edited persona cleared.
    pub open spec fn conversation_cleared(self) -> Self {
        PersonaState {
            pane: self.pane.cleared(),
            memory: MemoryPaneView {
                usage: match self.memory.usage {
                    Some(usage) => Some(ContextUsage { messages: 0, tokens: 0, ..usage }),
                    None => None,
                },
                ..self.memory
            },
            ..self
        }
    }

    /// Whether clearing a persona's memory has completed its deletion.
    pub open spec fn deletion_completed(
        self,
        persona: Seq<char>,
        scope: MemoryScope,
        result: Result<(), String>,
    ) -> bool {
        result is Ok && scope == MemoryScope::All && !self.draft.has_persona(persona)
    }

    /// The page after a persona's memory was cleared, before that is reported.
    pub open spec fn clearing_ended(
        self,
        persona: Seq<char>,
        scope: MemoryScope,
        result: Result<(), String>,
    ) -> Self {
        let landed = PersonaState {
            cleanup: CleanupView {
                in_flight: self.cleanup.in_flight.remove(persona),
                ..self.cleanup
            },
            ..self
        };
        let cleared = if result is Ok && self.editing_id() == Some(persona) {
            landed.conversation_cleared()
        } else {
            landed
        };
        if self.deletion_completed(persona, scope, result) && !self.ui.window_transferred {
            cleared.unmarked(persona)
        } else {
            cleared
        }
    }

    /// The report on a persona's memory having been cleared.
    pub open spec fn clearing_status(result: Result<(), String>) -> PersonaStatus {
        match result {
            Ok(_) => PersonaStatus::MemoryCleared,
            Err(error) => PersonaStatus::MemoryClearFailed(error),
        }
    }

    /// The page after a persona's memory was cleared.
    pub open spec fn after_clearing(
        self,
        persona: Seq<char>,
        scope: MemoryScope,
        result: Result<(), String>,
    ) -> Self {
        let reported = self.clearing_ended(persona, scope, result).reporting(
            Self::clearing_status(result),
        );
        if self.editing_id() == Some(persona) {
            reported.usage_on_view()
        } else {
            reported
        }
    }

    /// What the end of clearing a persona's memory takes. A deletion that is completed is
    /// handed on by a page whose window has been closed, and saved by one that is open.
    pub open spec fn clearing_effects(
        self,
        persona: Seq<char>,
        scope: MemoryScope,
        result: Result<(), String>,
    ) -> Seq<PersonaEffect> {
        let ended = self.clearing_ended(persona, scope, result);
        self.report_effects() + (if self.editing_id() == Some(persona) {
            ended.usage_on_view_effects()
        } else {
            Seq::empty()
        }) + (if !self.deletion_completed(persona, scope, result) {
            ended.idle_effects()
        } else if self.ui.window_transferred {
            seq![PersonaEffect::CleanupFinished { persona }] + ended.idle_effects()
        } else {
            seq![PersonaEffect::SaveDraft]
        })
    }

    /// What a persona is called, or else its identifier.
    pub open spec fn persona_name(self, id: Seq<char>) -> Seq<char> {
        match self.draft.position_of(id) {
            Some(index) => self.draft.personas[index].name,
            None => id,
        }
    }
}

/// Merges what came of clearing the conversation and of clearing stored memory.
pub fn merge_clear_results(context: Result<(), String>, stored: Result<(), String>) -> (merged:
    Result<(), String>)
    ensures
        match (context, stored) {
            (Ok(_), Ok(_)) => merged is Ok,
            (Err(context), Ok(_)) => merged == Err::<(), String>(context),
            (Ok(_), Err(stored)) => merged == Err::<(), String>(stored),
            (Err(context), Err(stored)) => merged matches Err(error) && error@ == context@ + "; "@
                + stored@,
        },
{
    match (context, stored) {
        (Ok(_), Ok(_)) => Ok(()),
        (Err(context), Ok(_)) => Err(context),
        (Ok(_), Err(stored)) => Err(stored),
        (Err(context), Err(stored)) => {
            let mut error = context;
            error.append("; ");
            error.append(stored.as_str());
            Err(error)
        },
    }
}

/// Tells how the claim on clearing up after a deleted persona ends: as completed, as failed,
/// or, where none was made, not at all.
pub fn cleanup_end(cleanup: bool, result: &Result<(), String>) -> (ended: Option<bool>)
    ensures
        ended == (if cleanup {
            Some(result is Ok)
        } else {
            None
        }),
{
    if cleanup {
        Some(result.is_ok())
    } else {
        None
    }
}

impl PersonaSettingsView {
    /// Asks for a second word before a persona is deleted.
    pub fn request_delete_persona(&mut self, persona_id: &String) -> (actions: PersonaActions)
        ensures
            final(self)@ == old(self)@.asking_to_delete_persona(persona_id@),
            actions@ == old(self)@.asking_to_delete_persona_effects(persona_id@),
    {
        if self.draft.persona_index(persona_id).is_none() {
            return PersonaActions::none();
        }
        if self.draft.personas.len() <= 1 {
            return self.set_status(PersonaStatus::LastPersona);
        }
        self.memory.pending_confirm = Some(
            PendingConfirm::DeletePersona { persona: persona_id.clone() },
        );
        PersonaActions::one(PersonaAction::Notify)
    }

    /// Asks for a second word before memory of the edited persona is cleared.
    pub fn request_clear_memory(&mut self, scope: MemoryScope) -> (actions: PersonaActions)
        ensures
            match old(self)@.editing_id() {
                Some(persona) => {
                    &&& final(self)@ == old(self)@.confirming(
                        Some(PendingConfirmView::ClearMemory { persona, scope }),
                    )
                    &&& actions@ == seq![PersonaEffect::Notify]
                },
                None => {
                    &&& final(self)@ == old(self)@
                    &&& actions@ == Seq::<PersonaEffect>::empty()
                },
            },
    {
        let Some(persona) = self.editing_persona_id() else {
            return PersonaActions::none();
        };
        self.memory.pending_confirm = Some(PendingConfirm::ClearMemory { persona, scope });
        PersonaActions::one(PersonaAction::Notify)
    }

    /// Drops what waits for a second word.
    pub fn cancel_confirm(&mut self) -> (actions: PersonaActions)
        ensures
            final(self)@ == old(self)@.confirming(None),
            actions@ == seq![PersonaEffect::Notify],
    {
        self.memory.pending_confirm = None;
        PersonaActions::one(PersonaAction::Notify)
    }

    /// Does what a second word was given for.
    pub fn accept_confirm(&mut self, weights: &MessageWeights) -> (actions: PersonaActions)
        requires
            old(self)@.well_formed(),
            old(self)@.weighed_by(*weights),
        ensures
            final(self)@ == old(self)@.accepted(*weights),
            actions@ == old(self)@.accepted_effects(*weights),
    {
        let Some(pending) = self.memory.pending_confirm.take() else {
            return PersonaActions::none();
        };
        let ghost asked = old(self)@.confirming(None);
        proof {
            assert(self@ == asked);
        }
        match pending {
            PendingConfirm::ClearMemory { persona, scope } => self.clear_memory(
                persona,
                scope,
                false,
            ),
            PendingConfirm::DeletePersona { persona } => self.delete_persona(&persona, weights),
            PendingConfirm::DeleteMessages { persona, message_ids } => self.delete_context_messages(
                persona,
                message_ids,
            ),
        }
    }

    /// Clears the memory of a persona.
    pub fn clear_memory(&mut self, persona: String, scope: MemoryScope, cleanup: bool) -> (actions:
        PersonaActions)
        ensures
            final(self)@ == old(self)@.reporting(PersonaStatus::MemoryClearing),
            actions@ == old(self)@.clear_effects(persona@, scope, cleanup),
    {
        let mut actions = PersonaActions::one(
            PersonaAction::ClearMemory { persona, scope, cleanup },
        );
        let report = self.set_status(PersonaStatus::MemoryClearing);
        actions.append(report);
        actions.push(PersonaAction::Notify);
        proof {
            assert(actions@ =~= old(self)@.clear_effects(persona@, scope, cleanup));
        }
        actions
    }

    fn end_clearing(&mut self, persona: &String, scope: MemoryScope, result: &Result<(), String>)
        ensures
            final(self)@ == old(self)@.clearing_ended(persona@, scope, *result),
    {
        let current = self.is_editing(persona);
        self.cleanup.in_flight.remove(persona);
        if result.is_ok() && current {
            self.pane.clear();
            if let Some(usage) = self.memory.usage {
                self.memory.usage = Some(
                    ContextUsage {
                        messages: 0,
                        max_messages: usage.max_messages,
                        tokens: 0,
                        max_tokens: usage.max_tokens,
                    },
                );
            }
        }
        if result.is_ok() && scope == MemoryScope::All && self.draft.persona_index(
            persona,
        ).is_none() && !self.ui.window_transferred {
            let _ = self.draft.remove_mark(persona);
        }
    }

    /// Takes what came of clearing the memory of a persona.
    pub fn memory_cleared(
        &mut self,
        persona: &String,
        scope: MemoryScope,
        result: Result<(), String>,
    ) -> (actions: PersonaActions)
        ensures
            final(self)@ == old(self)@.after_clearing(persona@, scope, result),
            actions@ == old(self)@.clearing_effects(persona@, scope, result),
    {
        let current = self.is_editing(persona);
        let completed = result.is_ok() && scope == MemoryScope::All && self.draft.persona_index(
            persona,
        ).is_none();
        self.end_clearing(persona, scope, &result);
        let ghost ended = self@;
        let status = match result {
            Ok(_) => PersonaStatus::MemoryCleared,
            Err(error) => PersonaStatus::MemoryClearFailed(error),
        };
        let mut actions = self.set_status(status);
        if current && self.ui.active_page == PersonaPage::Context {
            let usage = self.refresh_usage();
            actions.append(usage);
        }
        let ghost middle = old(self)@.report_effects() + (if old(self)@.editing_id() == Some(
            persona@,
        ) {
            ended.usage_on_view_effects()
        } else {
            Seq::empty()
        });
        proof {
            assert(actions@ =~= middle);
        }
        if completed && !self.ui.window_transferred {
            actions.push(PersonaAction::SaveDraft);
            proof {
                assert(actions@ =~= middle + seq![PersonaEffect::SaveDraft]);
            }
        } else if completed {
            let mut rest = PersonaActions::one(
                PersonaAction::CleanupFinished { persona: persona.clone() },
            );
            let idle = self.emit_save_finished_if_idle();
            rest.append(idle);
            actions.append(rest);
        } else {
            let idle = self.emit_save_finished_if_idle();
            actions.append(idle);
        }
        actions
    }

    fn remove_persona(&mut self, index: usize)
        requires
            index < old(self).draft.personas@.len(),
            old(self).draft.personas@.len() > 1,
        ensures
            final(self)@ == old(self)@.without_persona(index as int),
    {
        proof {
            assert(self@.draft.personas[index as int] == self.draft.personas@[index as int]@);
        }
        let id = self.draft.personas[index].id.clone();
        let was_selected = match &self.draft.selected {
            Some(selected) => *selected == id,
            None => false,
        };
        let ghost before = self.draft.personas@;
        let _ = self.draft.personas.remove(index);
        proof {
            assert(persona_views(self.draft.personas@)
                =~= persona_views(before).remove(index as int));
        }
        self.cleanup.pending.insert(id.clone());
        if was_selected {
            let last: usize = self.draft.personas.len() - 1;
            let next: usize = if index < last {
                index
            } else {
                last
            };
            proof {
                assert(self@.draft.personas[next as int] == self.draft.personas@[next as int]@);
            }
            self.draft.selected = Some(self.draft.personas[next].id.clone());
        }
        if !self.draft.awaits_deletion(&id) {
            let ghost marks = self.draft.pending_deletions@;
            self.draft.pending_deletions.push(id);
            proof {
                assert(text_views(self.draft.pending_deletions@)
                    =~= text_views(marks).push(id@));
            }
        }
        proof {
            assert(self@.draft =~= old(self)@.draft_without(index as int));
        }
    }

    fn next_editing_index(&self, id: &Option<String>) -> (index: usize)
        ensures
            index == self@.next_editing(optional_view(*id)),
    {
        if let Some(id) = id {
            if let Some(index) = self.draft.persona_index(id) {
                return index;
            }
        }
        match self.draft.selected_index() {
            Some(index) => index,
            None => 0,
        }
    }

    fn delete_captured_persona(&mut self, persona: &String) -> (actions: PersonaActions)
        requires
            old(self)@.well_formed(),
        ensures
            final(self)@ == old(self)@.after_delete(persona@),
            actions@ == old(self)@.delete_persona_effects(persona@),
    {
        let Some(index) = self.draft.persona_index(persona) else {
            return PersonaActions::none();
        };
        if self.draft.personas.len() <= 1 {
            return self.set_status(PersonaStatus::LastPersona);
        }
        let editing = self.editing_persona_id();
        self.remove_persona(index);
        let next: usize = self.next_editing_index(&editing);
        let mut actions = self.load_form(Some(next));
        actions.push(PersonaAction::SaveDraft);
        actions
    }

    /// Deletes a persona. Its memory is cleared once its end is published.
    pub fn delete_persona(&mut self, persona: &String, weights: &MessageWeights) -> (actions:
        PersonaActions)
        requires
            old(self)@.well_formed(),
            old(self)@.weighed_by(*weights),
        ensures
            final(self)@ == old(self)@.all_committed(*weights).captured().after_delete(persona@),
            actions@ == old(self)@.all_committed_effects(*weights) + old(self)@.all_committed(
                *weights,
            ).captured().delete_persona_effects(persona@),
    {
        let mut actions = self.commit_context_edits(weights);
        self.capture_current_form();
        proof {
            commit_keeps_surroundings(
                old(self)@,
                weights.tokens@,
                weights.max_tokens,
                old(self)@.pane.editors.len() as int,
            );
        }
        let delete = self.delete_captured_persona(persona);
        actions.append(delete);
        actions
    }

    /// Returns what a second word is asked for, if it is.
    pub fn confirm_prompt(&self) -> (prompt: Option<ConfirmPrompt>)
        ensures
            match self@.memory.pending_confirm {
                None => prompt is None,
                Some(PendingConfirmView::ClearMemory { persona, scope }) => prompt matches Some(
                    ConfirmPrompt::ClearMemory { name, scope: shown },
                ) && name@ == self@.persona_name(persona) && shown == scope,
                Some(PendingConfirmView::DeletePersona { persona }) => prompt matches Some(
                    ConfirmPrompt::DeletePersona { name },
                ) && name@ == self@.persona_name(persona),
                Some(PendingConfirmView::DeleteMessages { persona, message_ids }) =>
                    prompt matches Some(ConfirmPrompt::DeleteMessages { name, count }) && name@
                    == self@.persona_name(persona) && count == message_ids.len(),
            },
    {
        match &self.memory.pending_confirm {
            None => None,
            Some(PendingConfirm::ClearMemory { persona, scope }) => Some(
                ConfirmPrompt::ClearMemory { name: self.name_of(persona), scope: *scope },
            ),
            Some(PendingConfirm::DeletePersona { persona }) => Some(
                ConfirmPrompt::DeletePersona { name: self.name_of(persona) },
            ),
            Some(PendingConfirm::DeleteMessages { persona, message_ids }) => Some(
                ConfirmPrompt::DeleteMessages {
                    name: self.name_of(persona),
                    count: message_ids.len(),
                },
            ),
        }
    }

    fn name_of(&self, id: &String) -> (name: String)
        ensures
            name@ == self@.persona_name(id@),
    {
        match self.draft.persona_index(id) {
            Some(index) => {
                proof {
                    assert(self@.draft.personas[index as int] == self.draft.personas@[index as int]@);
                }
                self.draft.personas[index].name.clone()
            },
            None => id.clone(),
        }
    }
}

} // verus!

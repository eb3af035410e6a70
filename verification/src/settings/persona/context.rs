//! Loading and editing the messages of a conversation.

use vstd::prelude::*;

use crate::number_text::{trim, trimmed};
use crate::revision::{next_revision, revision_after};
use crate::search::first_position_is_first;
use crate::settings::persona::actions::{PersonaAction, PersonaActions, PersonaEffect, PersonaPage};
use crate::settings::persona::pane::{
    capped_sum, count_among, floored_difference, loaded_views, tokens_among, tokens_of,
    has_message_id, ContextFlags, ContextMessage, ContextPaneView,
};
use crate::settings::persona::view::{
    ContextUsage, MemoryPaneView, PersonaSettingsView, PersonaState, PersonaStatus, PersonaUi,
    UsageError,
};

verus! {

/// What the texts that are being edited weigh: for each message the tokens that it has with
/// the white space around its text removed, and how many the conversation may have.
#[derive(Debug)]
pub struct MessageWeights {
    pub tokens: Vec<usize>,
    pub max_tokens: usize,
}

/// What becomes of an edited message.
pub enum Commit {
    /// There is nothing to save.
    Ignored,
    /// It is empty.
    Empty,
    /// The conversation would become too long.
    TooLarge,
    Accepted,
}

/// The number of bytes that a character takes in a text.
pub open spec fn byte_width(c: char) -> nat {
    if (c as u32) < 0x80 {
        1
    } else if (c as u32) < 0x800 {
        2
    } else if (c as u32) < 0x10000 {
        3
    } else {
        4
    }
}

/// The number of bytes that a text takes.
pub open spec fn byte_length(text: Seq<char>) -> nat
    decreases text.len(),
{
    if text.len() == 0 {
        0
    } else {
        byte_length(text.drop_last()) + byte_width(text.last())
    }
}

proof fn byte_length_grows(text: Seq<char>, count: int)
    requires
        0 <= count <= text.len(),
    ensures
        byte_length(text.take(count)) <= byte_length(text),
    decreases text.len() - count,
{
    if count < text.len() {
        byte_length_grows(text, count + 1);
        assert(text.take(count + 1).drop_last() =~= text.take(count));
    } else {
        assert(text.take(count) =~= text);
    }
}

/// Tells whether a text takes more than `limit` bytes.
pub fn exceeds_bytes(text: &str, limit: usize) -> (exceeds: bool)
    ensures
        exceeds == (byte_length(text@) > limit),
{
    let mut used: usize = 0;
    for c in iter: text.chars()
        invariant
            iter.seq() == text@,
            used == byte_length(text@.take(iter.index() as int)),
            used <= limit,
    {
        let code: u32 = c as u32;
        let width: usize = if code < 0x80 {
            1
        } else if code < 0x800 {
            2
        } else if code < 0x10000 {
            3
        } else {
            4
        };
        proof {
            let next = text@.take(iter.index() + 1);
            assert(next.drop_last() =~= text@.take(iter.index() as int));
            assert(next.last() == c);
            byte_length_grows(text@, iter.index() + 1);
        }
        if width > limit - used {
            return true;
        }
        used = used + width;
    }
    proof {
        assert(text@.take(text@.len() as int) =~= text@);
    }
    false
}

impl PersonaState {
    /// The tokens of the conversation, as they were last counted or else as its messages
    /// have them.
    pub open spec fn current_tokens(self) -> int {
        match self.memory.usage {
            Some(usage) => usage.tokens as int,
            None => tokens_of(self.pane.editors, self.pane.editors.len() as int),
        }
    }

    /// The tokens of the conversation with those of the message at `index` being others.
    pub open spec fn next_tokens(self, index: int, tokens: usize) -> int {
        capped_sum(
            floored_difference(self.current_tokens(), self.pane.editors[index].tokens as int),
            tokens as int,
        )
    }

    /// What becomes of the message at `index` with the text `value`.
    pub open spec fn commit_at(
        self,
        index: int,
        value: Seq<char>,
        tokens: usize,
        max_tokens: usize,
    ) -> Commit {
        if value == self.pane.editors[index].saved_content {
            Commit::Ignored
        } else if value.len() == 0 {
            Commit::Empty
        } else if self.next_tokens(index, tokens) > max_tokens {
            Commit::TooLarge
        } else {
            Commit::Accepted
        }
    }

    /// The page with the message at `index` refused.
    pub open spec fn refusing(self, index: int, windowed: bool, status: PersonaStatus) -> Self {
        PersonaState {
            pane: if windowed {
                self.pane.restored(index)
            } else {
                self.pane
            },
            ..self
        }.reporting(status)
    }

    /// What refusing a message takes.
    pub open spec fn refusal_effects(self, id: u64, windowed: bool) -> Seq<PersonaEffect> {
        (if windowed {
            seq![PersonaEffect::RestoreMessage { message_id: id }]
        } else {
            Seq::empty()
        }) + self.report_effects()
    }

    /// The page with the message at `index` accepted.
    pub open spec fn accepting(self, index: int, value: Seq<char>, tokens: usize) -> Self {
        PersonaState {
            pane: self.pane.with_saved(index, value, tokens),
            memory: MemoryPaneView {
                usage_revision: revision_after(self.memory.usage_revision),
                usage: match self.memory.usage {
                    Some(usage) => Some(
                        ContextUsage { tokens: self.next_tokens(index, tokens) as usize, ..usage },
                    ),
                    None => None,
                },
                ..self.memory
            },
            ..self
        }
    }

    /// What accepting a message takes.
    pub open spec fn acceptance_effects(self, id: u64, value: Seq<char>, windowed: bool) -> Seq<
        PersonaEffect,
    > {
        match self.editing_id() {
            Some(persona) => seq![
                PersonaEffect::EditMessage { persona, message_id: id, content: value, windowed },
                PersonaEffect::Notify,
            ],
            None => Seq::empty(),
        }
    }

    /// The page after the message `id` was left with the text `value`.
    pub open spec fn after_commit(
        self,
        id: u64,
        value: Seq<char>,
        windowed: bool,
        tokens: usize,
        max_tokens: usize,
    ) -> Self {
        match self.pane.position_of(id) {
            Some(index) => if self.pane.flags.loading {
                self
            } else {
                match self.commit_at(index, value, tokens, max_tokens) {
                    Commit::Ignored => self,
                    Commit::Empty => self.refusing(index, windowed, PersonaStatus::MessageEmpty),
                    Commit::TooLarge => self.refusing(
                        index,
                        windowed,
                        PersonaStatus::MessageTooLarge,
                    ),
                    Commit::Accepted => self.accepting(index, value, tokens),
                }
            },
            None => self,
        }
    }

    /// What leaving the message `id` with the text `value` takes.
    pub open spec fn commit_effects(
        self,
        id: u64,
        value: Seq<char>,
        windowed: bool,
        tokens: usize,
        max_tokens: usize,
    ) -> Seq<PersonaEffect> {
        match self.pane.position_of(id) {
            Some(index) => if self.pane.flags.loading {
                Seq::empty()
            } else {
                match self.commit_at(index, value, tokens, max_tokens) {
                    Commit::Ignored => Seq::empty(),
                    Commit::Empty => self.refusal_effects(id, windowed),
                    Commit::TooLarge => self.refusal_effects(id, windowed),
                    Commit::Accepted => self.acceptance_effects(id, value, windowed),
                }
            },
            None => Seq::empty(),
        }
    }

    /// The page with the first `count` messages committed one after the other.
    pub open spec fn committed(self, weights: Seq<usize>, max_tokens: usize, count: int) -> Self
        decreases count,
    {
        if count <= 0 {
            self
        } else {
            let before = self.committed(weights, max_tokens, count - 1);
            let editor = before.pane.editors[count - 1];
            before.after_commit(
                editor.id,
                trimmed(editor.text),
                false,
                weights[count - 1],
                max_tokens,
            )
        }
    }

    /// What committing the first `count` messages one after the other takes.
    pub open spec fn committed_effects(
        self,
        weights: Seq<usize>,
        max_tokens: usize,
        count: int,
    ) -> Seq<PersonaEffect>
        decreases count,
    {
        if count <= 0 {
            Seq::empty()
        } else {
            let before = self.committed(weights, max_tokens, count - 1);
            let editor = before.pane.editors[count - 1];
            self.committed_effects(weights, max_tokens, count - 1) + before.commit_effects(
                editor.id,
                trimmed(editor.text),
                false,
                weights[count - 1],
                max_tokens,
            )
        }
    }

    /// The page with every message committed.
    pub open spec fn all_committed(self, weights: MessageWeights) -> Self {
        self.committed(weights.tokens@, weights.max_tokens, self.pane.editors.len() as int)
    }

    /// What committing every message takes.
    pub open spec fn all_committed_effects(self, weights: MessageWeights) -> Seq<PersonaEffect> {
        self.committed_effects(weights.tokens@, weights.max_tokens, self.pane.editors.len() as int)
    }

    /// What the field of a message holds, the white space around it removed.
    pub open spec fn left_text(self, id: u64) -> Seq<char> {
        match self.pane.position_of(id) {
            Some(index) => trimmed(self.pane.editors[index].text),
            None => Seq::empty(),
        }
    }

    /// Whether there is a weight for every message.
    pub open spec fn weighed_by(self, weights: MessageWeights) -> bool {
        self.pane.editors.len() <= weights.tokens@.len()
    }
}

/// Committing keeps the number of messages, and everything that has nothing to do with them.
pub proof fn commit_keeps_surroundings(
    page: PersonaState,
    weights: Seq<usize>,
    max_tokens: usize,
    count: int,
)
    ensures
        ({
            let after = page.committed(weights, max_tokens, count);
            &&& after.pane.editors.len() == page.pane.editors.len()
            &&& after.draft == page.draft
            &&& after.submitted == page.submitted
            &&& after.providers == page.providers
            &&& after.live2d == page.live2d
            &&& after.form == page.form
            &&& after.cleanup == page.cleanup
            &&& after.input_edit == page.input_edit
            &&& after.ui.loading_form == page.ui.loading_form
            &&& after.ui.editing_index == page.ui.editing_index
            &&& after.ui.active_page == page.ui.active_page
            &&& after.ui.save_revision == page.ui.save_revision
            &&& after.ui.writes_in_flight == page.ui.writes_in_flight
            &&& after.ui.window_transferred == page.ui.window_transferred
            &&& after.pane.flags == page.pane.flags
            &&& after.pane.selected == page.pane.selected
            &&& after.memory.available == page.memory.available
        }),
    decreases count,
{
    if count > 0 {
        commit_keeps_surroundings(page, weights, max_tokens, count - 1);
        let before = page.committed(weights, max_tokens, count - 1);
        let id = before.pane.editors[count - 1].id;
        first_position_is_first(before.pane.editors, 0, has_message_id(id));
    }
}

impl PersonaSettingsView {
    fn current_token_count(&self) -> (tokens: usize)
        ensures
            tokens == self@.current_tokens(),
    {
        match self.memory.usage {
            Some(usage) => usage.tokens,
            None => self.pane.total_tokens(),
        }
    }

    fn refuse_message(&mut self, index: usize, id: u64, windowed: bool, status: PersonaStatus) -> (actions:
        PersonaActions)
        requires
            index < old(self).pane.editors@.len(),
        ensures
            final(self)@ == old(self)@.refusing(index as int, windowed, status),
            actions@ == old(self)@.refusal_effects(id, windowed),
    {
        let mut actions = PersonaActions::none();
        if windowed {
            self.pane.restore_text(index);
            actions.push(PersonaAction::RestoreMessage { message_id: id });
        }
        let report = self.set_status(status);
        actions.append(report);
        proof {
            assert(actions@ =~= old(self)@.refusal_effects(id, windowed));
        }
        actions
    }

    fn accept_message(
        &mut self,
        index: usize,
        id: u64,
        value: String,
        windowed: bool,
        tokens: usize,
        next_tokens: usize,
    ) -> (actions: PersonaActions)
        requires
            index < old(self).pane.editors@.len(),
            next_tokens == old(self)@.next_tokens(index as int, tokens),
        ensures
            final(self)@ == old(self)@.accepting(index as int, value@, tokens),
            actions@ == old(self)@.acceptance_effects(id, value@, windowed),
    {
        let content = value.clone();
        self.pane.set_saved(index, value, tokens);
        self.memory.usage_revision = next_revision(self.memory.usage_revision);
        if let Some(usage) = self.memory.usage {
            self.memory.usage = Some(
                ContextUsage {
                    messages: usage.messages,
                    max_messages: usage.max_messages,
                    tokens: next_tokens,
                    max_tokens: usage.max_tokens,
                },
            );
        }
        let Some(persona) = self.editing_persona_id() else {
            return PersonaActions::none();
        };
        let mut actions = PersonaActions::one(
            PersonaAction::EditMessage { persona, message_id: id, content, windowed },
        );
        actions.push(PersonaAction::Notify);
        proof {
            assert(actions@ =~= old(self)@.acceptance_effects(id, value@, windowed));
        }
        actions
    }

    fn commit_context_message(
        &mut self,
        id: u64,
        value: String,
        windowed: bool,
        tokens: usize,
        max_tokens: usize,
    ) -> (actions: PersonaActions)
        ensures
            final(self)@ == old(self)@.after_commit(id, value@, windowed, tokens, max_tokens),
            actions@ == old(self)@.commit_effects(id, value@, windowed, tokens, max_tokens),
    {
        if self.pane.flags.loading {
            return PersonaActions::none();
        }
        let Some(index) = self.pane.message_index(id) else {
            return PersonaActions::none();
        };
        proof {
            assert(self@.pane.editors[index as int] == self.pane.editors@[index as int]@);
        }
        if value == self.pane.editors[index].saved_content {
            return PersonaActions::none();
        }
        if value.as_str().unicode_len() == 0 {
            return self.refuse_message(index, id, windowed, PersonaStatus::MessageEmpty);
        }
        let current: usize = self.current_token_count();
        let next: usize = current.saturating_sub(self.pane.editors[index].tokens).saturating_add(
            tokens,
        );
        if next > max_tokens {
            return self.refuse_message(index, id, windowed, PersonaStatus::MessageTooLarge);
        }
        self.accept_message(index, id, value, windowed, tokens, next)
    }

    /// Commits what is being edited, message after message.
    pub fn commit_context_edits(&mut self, weights: &MessageWeights) -> (actions: PersonaActions)
        requires
            old(self)@.weighed_by(*weights),
        ensures
            final(self)@ == old(self)@.all_committed(*weights),
            actions@ == old(self)@.all_committed_effects(*weights),
    {
        let ghost page = self@;
        let count: usize = self.pane.editors.len();
        let mut actions = PersonaActions::none();
        let mut index: usize = 0;
        while index < count
            invariant
                index <= count,
                count == page.pane.editors.len(),
                page == old(self)@,
                page.weighed_by(*weights),
                self@ == page.committed(weights.tokens@, weights.max_tokens, index as int),
                actions@ == page.committed_effects(
                    weights.tokens@,
                    weights.max_tokens,
                    index as int,
                ),
            decreases count - index,
        {
            proof {
                commit_keeps_surroundings(page, weights.tokens@, weights.max_tokens, index as int);
                assert(self@.pane.editors.len() == self.pane.editors@.len());
                assert(self@.pane.editors[index as int] == self.pane.editors@[index as int]@);
            }
            let id: u64 = self.pane.editors[index].id;
            let value = trim(self.pane.editors[index].text.as_str());
            let tokens: usize = weights.tokens[index];
            let more = self.commit_context_message(id, value, false, tokens, weights.max_tokens);
            actions.append(more);
            index = index + 1;
        }
        actions
    }
}

impl PersonaState {
    /// The page turned to another part of the editor.
    pub open spec fn with_page(self, page: PersonaPage) -> Self {
        let turned = PersonaState {
            ui: PersonaUi { active_page: page, ..self.ui },
            pane: self.pane.without_drag().with_editing(None),
            ..self
        };
        if page == PersonaPage::Context {
            turned.showing_context()
        } else {
            let unwatched = turned.with_new_watch();
            PersonaState { pane: unwatched.pane.load_dropped(), ..unwatched }
        }
    }

    /// What turning to another part of the editor takes.
    pub open spec fn page_effects(self, page: PersonaPage) -> Seq<PersonaEffect> {
        let turned = PersonaState {
            ui: PersonaUi { active_page: page, ..self.ui },
            pane: self.pane.without_drag().with_editing(None),
            ..self
        };
        turned.showing_context_effects().push(PersonaEffect::Notify)
    }

    /// Whether the running conversation has gone on and may be shown: nothing is being
    /// edited or selected.
    pub open spec fn shows_live(self, live: Option<u64>) -> bool {
        &&& live is Some
        &&& live != self.pane.flags.observed_live_revision
        &&& self.pane.flags.editing is None
        &&& self.pane.drag is None
        &&& self.pane.selected == Set::<u64>::empty()
    }

    /// The page with another state of the running conversation being shown.
    pub open spec fn observing(self, live: Option<u64>) -> Self {
        PersonaState {
            pane: ContextPaneView {
                flags: ContextFlags { observed_live_revision: live, ..self.pane.flags },
                ..self.pane
            },
            ..self
        }
    }

    /// Whether a look at the running conversation is still wanted.
    pub open spec fn polls(self, revision: u64) -> bool {
        self.ui.active_page == PersonaPage::Context && self.pane.flags.auto_refresh_revision
            == revision
    }

    /// The page after a look at the running conversation.
    pub open spec fn polled(self, revision: u64, live: Option<u64>) -> Self {
        if self.polls(revision) && self.shows_live(live) {
            self.observing(live).asking_usage().loading_context()
        } else {
            self
        }
    }

    /// What a look at the running conversation takes.
    pub open spec fn poll_effects(self, revision: u64, live: Option<u64>) -> Seq<PersonaEffect> {
        if self.polls(revision) {
            (if self.shows_live(live) {
                self.usage_effects() + self.context_effects()
            } else {
                Seq::empty()
            }).push(PersonaEffect::PollContext { revision, target: self.editing_id() })
        } else {
            Seq::empty()
        }
    }

    /// The page with messages deleted.
    pub open spec fn with_deleted(self, ids: Set<u64>) -> Self {
        let editors = self.pane.editors;
        let removed = count_among(editors, ids, editors.len() as int);
        let tokens = tokens_among(editors, ids, editors.len() as int);
        if removed == 0 {
            self
        } else {
            PersonaState {
                pane: self.pane.without_messages(ids),
                memory: MemoryPaneView {
                    usage_revision: revision_after(self.memory.usage_revision),
                    usage: match self.memory.usage {
                        Some(usage) => Some(
                            ContextUsage {
                                messages: floored_difference(
                                    usage.messages as int,
                                    removed,
                                ) as usize,
                                tokens: floored_difference(usage.tokens as int, tokens) as usize,
                                ..usage
                            },
                        ),
                        None => None,
                    },
                    ..self.memory
                },
                ..self
            }
        }
    }

    /// What deleting messages takes.
    pub open spec fn delete_effects(self, persona: Seq<char>, ids: Seq<u64>) -> Seq<PersonaEffect> {
        let removed = count_among(
            self.pane.editors,
            ids.to_set(),
            self.pane.editors.len() as int,
        );
        if removed == 0 {
            Seq::empty()
        } else {
            seq![
                PersonaEffect::DeleteMessages { persona, message_ids: ids, count: removed },
                PersonaEffect::Notify,
            ]
        }
    }

    /// The page with what has become known of the memory that is used.
    pub open spec fn with_usage(self, result: Result<ContextUsage, String>) -> Self {
        PersonaState {
            memory: match result {
                Ok(usage) => MemoryPaneView {
                    usage: Some(usage),
                    usage_error: None,
                    ..self.memory
                },
                Err(error) => MemoryPaneView {
                    usage: None,
                    usage_error: Some(UsageError::Failed(error)),
                    ..self.memory
                },
            },
            ..self
        }
    }

    /// The page with a change of the conversation having failed, before that is reported.
    pub open spec fn mutation_failed(self, persona: Seq<char>) -> Self {
        if self.editing_id() == Some(persona) {
            let asked = self.asking_usage();
            if self.ui.active_page == PersonaPage::Context {
                asked.loading_context()
            } else {
                asked
            }
        } else {
            self
        }
    }

    /// What a failed change of the conversation takes, before it is reported.
    pub open spec fn mutation_failed_effects(self, persona: Seq<char>) -> Seq<PersonaEffect> {
        if self.editing_id() == Some(persona) {
            self.usage_effects() + (if self.ui.active_page == PersonaPage::Context {
                self.context_effects()
            } else {
                Seq::empty()
            })
        } else {
            Seq::empty()
        }
    }
}

/// Returns the room that a conversation has, before anything is known of what it takes.
pub fn context_limit_usage(max_messages: usize, max_tokens: usize) -> (usage: ContextUsage)
    ensures
        usage == (ContextUsage { messages: 0, max_messages, tokens: 0, max_tokens }),
{
    ContextUsage { messages: 0, max_messages, tokens: 0, max_tokens }
}

impl PersonaSettingsView {
    /// Turns to another part of the editor: what is being edited is committed and saved
    /// before the page is opened.
    pub fn select_page(&mut self, page: PersonaPage, weights: &MessageWeights) -> (actions:
        PersonaActions)
        requires
            old(self)@.weighed_by(*weights),
        ensures
            old(self)@.ui.active_page == page ==> {
                &&& final(self)@ == old(self)@
                &&& actions@ == Seq::<PersonaEffect>::empty()
            },
            old(self)@.ui.active_page != page ==> {
                &&& final(self)@ == old(self)@.all_committed(*weights).captured()
                &&& actions@ == old(self)@.all_committed_effects(*weights) + seq![
                    PersonaEffect::SaveDraft,
                    PersonaEffect::OpenPage { page },
                ]
            },
    {
        if self.ui.active_page == page {
            return PersonaActions::none();
        }
        let mut actions = self.commit_context_edits(weights);
        self.capture_current_form();
        actions.push(PersonaAction::SaveDraft);
        actions.push(PersonaAction::OpenPage { page });
        proof {
            assert(actions@ =~= old(self)@.all_committed_effects(*weights) + seq![
                PersonaEffect::SaveDraft,
                PersonaEffect::OpenPage { page },
            ]);
        }
        actions
    }

    /// Opens a part of the editor.
    pub fn open_page(&mut self, page: PersonaPage) -> (actions: PersonaActions)
        ensures
            final(self)@ == old(self)@.with_page(page),
            actions@ == old(self)@.page_effects(page),
    {
        self.ui.active_page = page;
        self.pane.cancel_selection();
        self.pane.flags.editing = None;
        let mut actions = self.show_context_page();
        if page != PersonaPage::Context {
            self.stop_context_auto_refresh();
            self.pane.drop_load();
        }
        actions.push(PersonaAction::Notify);
        actions
    }

    /// Takes note of the state of the running conversation as the watch on it begins.
    pub fn watch_started(&mut self, revision: u64, live: Option<u64>) -> (actions: PersonaActions)
        ensures
            old(self)@.pane.flags.auto_refresh_revision == revision ==> {
                &&& final(self)@ == old(self)@.observing(live)
                &&& actions@ == seq![
                    PersonaEffect::PollContext { revision, target: old(self)@.editing_id() },
                ]
            },
            old(self)@.pane.flags.auto_refresh_revision != revision ==> {
                &&& final(self)@ == old(self)@
                &&& actions@ == Seq::<PersonaEffect>::empty()
            },
    {
        if self.pane.flags.auto_refresh_revision != revision {
            return PersonaActions::none();
        }
        self.pane.flags.observed_live_revision = live;
        let persona = self.editing_persona_id();
        PersonaActions::one(PersonaAction::PollContext { revision, persona })
    }

    /// Follows the running conversation: where it has gone on and nothing is being edited or
    /// selected, it is shown anew. Then it is looked at again after a while.
    pub fn context_polled(&mut self, revision: u64, live: Option<u64>) -> (actions: PersonaActions)
        ensures
            final(self)@ == old(self)@.polled(revision, live),
            actions@ == old(self)@.poll_effects(revision, live),
    {
        if self.ui.active_page != PersonaPage::Context || self.pane.flags.auto_refresh_revision
            != revision {
            return PersonaActions::none();
        }
        let mut actions = PersonaActions::none();
        if live.is_some() && live != self.pane.flags.observed_live_revision
            && self.pane.flags.editing.is_none() && self.pane.drag.is_none()
            && self.pane.selected.is_empty() {
            self.pane.flags.observed_live_revision = live;
            actions = self.refresh_usage();
            let context = self.refresh_context();
            actions.append(context);
        }
        let persona = self.editing_persona_id();
        actions.push(PersonaAction::PollContext { revision, persona });
        proof {
            assert(actions@ =~= old(self)@.poll_effects(revision, live));
        }
        actions
    }

    /// Shows the messages that were loaded, or why none were, unless they are outdated.
    pub fn context_loaded(&mut self, revision: u64, result: Result<Vec<ContextMessage>, String>) -> (actions:
        PersonaActions)
        ensures
            old(self)@.pane.flags.revision != revision ==> {
                &&& final(self)@ == old(self)@
                &&& actions@ == Seq::<PersonaEffect>::empty()
            },
            old(self)@.pane.flags.revision == revision ==> match result {
                Ok(messages) => {
                    &&& final(self)@ == (PersonaState {
                        pane: old(self)@.pane.with_loaded(loaded_views(messages@)),
                        ..old(self)@
                    })
                    &&& actions@ == seq![PersonaEffect::ScrollToEnd, PersonaEffect::Notify]
                },
                Err(error) => {
                    &&& final(self)@ == (PersonaState {
                        pane: old(self)@.pane.with_load_error(error@),
                        ..old(self)@
                    })
                    &&& actions@ == seq![PersonaEffect::Notify]
                },
            },
    {
        if self.pane.flags.revision != revision {
            return PersonaActions::none();
        }
        match result {
            Ok(messages) => {
                self.pane.show_loaded(messages);
                let mut actions = PersonaActions::one(PersonaAction::ScrollToEnd);
                actions.push(PersonaAction::Notify);
                proof {
                    assert(actions@ =~= seq![PersonaEffect::ScrollToEnd, PersonaEffect::Notify]);
                }
                actions
            },
            Err(error) => {
                self.pane.show_load_error(error);
                PersonaActions::one(PersonaAction::Notify)
            },
        }
    }

    /// Shows how much memory is used, or why that is not known, unless the answer is
    /// outdated.
    pub fn usage_loaded(&mut self, revision: u64, result: Result<ContextUsage, String>) -> (actions:
        PersonaActions)
        ensures
            old(self)@.memory.usage_revision != revision ==> {
                &&& final(self)@ == old(self)@
                &&& actions@ == Seq::<PersonaEffect>::empty()
            },
            old(self)@.memory.usage_revision == revision ==> {
                &&& final(self)@ == old(self)@.with_usage(result)
                &&& actions@ == seq![PersonaEffect::Notify]
            },
    {
        if self.memory.usage_revision != revision {
            return PersonaActions::none();
        }
        match result {
            Ok(usage) => {
                self.memory.usage = Some(usage);
                self.memory.usage_error = None;
            },
            Err(error) => {
                self.memory.usage = None;
                self.memory.usage_error = Some(UsageError::Failed(error));
            },
        }
        PersonaActions::one(PersonaAction::Notify)
    }

    /// Takes what the field of a message holds. A text too large to be kept in a file is put
    /// back to what has been saved.
    pub fn message_text_changed(&mut self, id: u64, text: String, max_bytes: usize) -> (actions:
        PersonaActions)
        ensures
            match old(self)@.pane.position_of(id) {
                None => {
                    &&& final(self)@ == old(self)@
                    &&& actions@ == Seq::<PersonaEffect>::empty()
                },
                Some(index) => if byte_length(text@) <= max_bytes {
                    &&& final(self)@ == (PersonaState {
                        pane: old(self)@.pane.with_text(index, text@),
                        ..old(self)@
                    })
                    &&& actions@ == Seq::<PersonaEffect>::empty()
                } else {
                    &&& final(self)@ == old(self)@.refusing(
                        index,
                        true,
                        PersonaStatus::MessageFileTooLarge,
                    )
                    &&& actions@ == old(self)@.refusal_effects(id, true)
                },
            },
    {
        let Some(index) = self.pane.message_index(id) else {
            return PersonaActions::none();
        };
        if exceeds_bytes(text.as_str(), max_bytes) {
            return self.refuse_message(index, id, true, PersonaStatus::MessageFileTooLarge);
        }
        self.pane.set_text(index, text);
        PersonaActions::none()
    }

    /// Commits a message whose field is left, and ends its being edited.
    pub fn message_blurred(&mut self, id: u64, tokens: usize, max_tokens: usize) -> (actions:
        PersonaActions)
        ensures
            ({
                let value = old(self)@.left_text(id);
                let after = old(self)@.after_commit(id, value, true, tokens, max_tokens);
                let effects = old(self)@.commit_effects(id, value, true, tokens, max_tokens);
                if old(self)@.pane.flags.editing == Some(id) {
                    &&& final(self)@ == (PersonaState {
                        pane: after.pane.with_editing(None),
                        ..after
                    })
                    &&& actions@ == effects.push(PersonaEffect::Notify)
                } else {
                    &&& final(self)@ == after
                    &&& actions@ == effects
                }
            }),
    {
        let mut actions = PersonaActions::none();
        if let Some(index) = self.pane.message_index(id) {
            proof {
                assert(self@.pane.editors[index as int] == self.pane.editors@[index as int]@);
            }
            let value = trim(self.pane.editors[index].text.as_str());
            actions = self.commit_context_message(id, value, true, tokens, max_tokens);
        }
        if self.pane.flags.editing == Some(id) {
            self.pane.flags.editing = None;
            actions.push(PersonaAction::Notify);
        }
        actions
    }

    /// Deletes messages of the conversation.
    pub fn delete_context_messages(&mut self, persona: String, message_ids: Vec<u64>) -> (actions:
        PersonaActions)
        ensures
            final(self)@ == old(self)@.with_deleted(message_ids@.to_set()),
            actions@ == old(self)@.delete_effects(persona@, message_ids@),
    {
        let (messages, tokens) = self.pane.remove_messages(&message_ids);
        if messages == 0 {
            return PersonaActions::none();
        }
        self.memory.usage_revision = next_revision(self.memory.usage_revision);
        if let Some(usage) = self.memory.usage {
            self.memory.usage = Some(
                ContextUsage {
                    messages: usage.messages.saturating_sub(messages),
                    max_messages: usage.max_messages,
                    tokens: usage.tokens.saturating_sub(tokens),
                    max_tokens: usage.max_tokens,
                },
            );
        }
        let ghost ids = message_ids@;
        let mut actions = PersonaActions::one(
            PersonaAction::DeleteMessages { persona, message_ids, count: messages },
        );
        actions.push(PersonaAction::Notify);
        proof {
            assert(actions@ =~= old(self)@.delete_effects(persona@, ids));
        }
        actions
    }

    /// Takes what came of changing the conversation while the page is open. `deleted` is the
    /// number of messages that were to be deleted, if some were.
    pub fn context_mutated(
        &mut self,
        persona: &String,
        deleted: Option<usize>,
        result: Result<(), String>,
    ) -> (actions: PersonaActions)
        ensures
            match result {
                Ok(_) => match deleted {
                    Some(count) => {
                        &&& final(self)@ == old(self)@.reporting(
                            PersonaStatus::MessagesDeleted(count),
                        )
                        &&& actions@ == old(self)@.report_effects().push(PersonaEffect::Notify)
                    },
                    None => {
                        &&& final(self)@ == old(self)@
                        &&& actions@ == seq![PersonaEffect::Notify]
                    },
                },
                Err(error) => {
                    &&& final(self)@ == old(self)@.mutation_failed(persona@).reporting(
                        PersonaStatus::MessageSaveFailed(error),
                    )
                    &&& actions@ == (old(self)@.mutation_failed_effects(persona@)
                        + old(self)@.report_effects()).push(PersonaEffect::Notify)
                },
            },
    {
        let mut actions = PersonaActions::none();
        match result {
            Ok(_) => {
                if let Some(count) = deleted {
                    actions = self.set_status(PersonaStatus::MessagesDeleted(count));
                }
            },
            Err(error) => {
                if self.is_editing(persona) {
                    actions = self.refresh_usage();
                    if self.ui.active_page == PersonaPage::Context {
                        let context = self.refresh_context();
                        actions.append(context);
                    }
                }
                proof {
                    assert(actions@ =~= old(self)@.mutation_failed_effects(persona@));
                }
                let report = self.set_status(PersonaStatus::MessageSaveFailed(error));
                actions.append(report);
            },
        }
        actions.push(PersonaAction::Notify);
        actions
    }

    /// Takes what came of changing the conversation once the page may have been closed.
    pub fn context_mutated_without_window(
        &mut self,
        persona: &String,
        result: Result<(), String>,
    ) -> (actions: PersonaActions)
        ensures
            match result {
                Ok(_) => {
                    &&& final(self)@ == old(self)@
                    &&& actions@ == Seq::<PersonaEffect>::empty()
                },
                Err(error) => if old(self)@.editing_id() == Some(persona@) {
                    let failed = PersonaState {
                        pane: ContextPaneView { error: Some(error@), ..old(self)@.pane },
                        ..old(self)@
                    };
                    &&& final(self)@ == failed.asking_usage().reporting(
                        PersonaStatus::MessageSaveFailed(error),
                    )
                    &&& actions@ == old(self)@.usage_effects() + old(self)@.report_effects()
                } else {
                    &&& final(self)@ == old(self)@.reporting(
                        PersonaStatus::MessageSaveFailed(error),
                    )
                    &&& actions@ == old(self)@.report_effects()
                },
            },
    {
        let Err(error) = result else {
            return PersonaActions::none();
        };
        let mut actions = PersonaActions::none();
        if self.is_editing(persona) {
            self.pane.error = Some(error.clone());
            actions = self.refresh_usage();
        }
        let report = self.set_status(PersonaStatus::MessageSaveFailed(error));
        actions.append(report);
        proof {
            assert(Seq::<PersonaEffect>::empty() + old(self)@.report_effects()
                =~= old(self)@.report_effects());
        }
        actions
    }

    /// Tells whether a persona is the one that is edited.
    pub fn is_editing(&self, persona: &String) -> (editing: bool)
        ensures
            editing == (self@.editing_id() == Some(persona@)),
    {
        match self.editing_persona_id() {
            Some(id) => id == *persona,
            None => false,
        }
    }

    /// Begins to edit a message.
    pub fn begin_context_message_edit(&mut self, id: u64) -> (actions: PersonaActions)
        ensures
            old(self)@.pane.position_of(id) is Some ==> {
                &&& final(self)@ == (PersonaState {
                    pane: old(self)@.pane.with_editing(Some(id)),
                    ..old(self)@
                })
                &&& actions@ == seq![
                    PersonaEffect::FocusMessage { message_id: id },
                    PersonaEffect::Notify,
                ]
            },
            old(self)@.pane.position_of(id) is None ==> {
                &&& final(self)@ == old(self)@
                &&& actions@ == Seq::<PersonaEffect>::empty()
            },
    {
        if self.pane.message_index(id).is_none() {
            return PersonaActions::none();
        }
        self.pane.flags.editing = Some(id);
        let mut actions = PersonaActions::one(PersonaAction::FocusMessage { message_id: id });
        actions.push(PersonaAction::Notify);
        proof {
            assert(actions@ =~= seq![
                PersonaEffect::FocusMessage { message_id: id },
                PersonaEffect::Notify,
            ]);
        }
        actions
    }

    /// Tells whether the keyboard still belongs into the field of a message.
    pub fn message_takes_focus(&self, id: u64) -> (focus: bool)
        ensures
            focus == (self@.pane.flags.editing == Some(id)),
    {
        self.pane.flags.editing == Some(id)
    }

    /// Calls off the edit of a message.
    pub fn cancel_context_message_edit(&mut self, id: u64) -> (actions: PersonaActions)
        ensures
            match old(self)@.pane.position_of(id) {
                Some(index) => {
                    &&& final(self)@ == (PersonaState {
                        pane: old(self)@.pane.restored(index).with_editing(None),
                        ..old(self)@
                    })
                    &&& actions@ == seq![
                        PersonaEffect::RestoreMessage { message_id: id },
                        PersonaEffect::Blur,
                        PersonaEffect::Notify,
                    ]
                },
                None => {
                    &&& final(self)@ == old(self)@
                    &&& actions@ == Seq::<PersonaEffect>::empty()
                },
            },
    {
        let Some(index) = self.pane.message_index(id) else {
            return PersonaActions::none();
        };
        self.pane.restore_text(index);
        self.pane.flags.editing = None;
        let mut actions = PersonaActions::one(PersonaAction::RestoreMessage { message_id: id });
        actions.push(PersonaAction::Blur);
        actions.push(PersonaAction::Notify);
        proof {
            assert(actions@ =~= seq![
                PersonaEffect::RestoreMessage { message_id: id },
                PersonaEffect::Blur,
                PersonaEffect::Notify,
            ]);
        }
        actions
    }
}

} // verus!

//! Saving the draft, and clearing the memory of personas that have been deleted.

use vstd::prelude::*;

use crate::fresh_id::{contains_text, text_views};
use crate::id_set::TextSet;
use crate::revision::{next_revision, revision_after};
use crate::settings::persona::actions::{
    MemoryScope, PersonaAction, PersonaActions, PersonaEffect, PersonaPage,
};
use crate::settings::persona::config::{PersonaSettings, PersonaSettingsData};
use crate::settings::persona::context::MessageWeights;
use crate::settings::persona::view::{
    CleanupView, PersonaSettingsView, PersonaState, PersonaStatus, PersonaUi,
};

verus! {

/// A draft that outlives the window in which it was written.
#[derive(Debug)]
pub struct PersonaSettingsDraft {
    pub settings: PersonaSettings,
    /// The identifiers that must not be used again.
    pub reserved_cleanup: TextSet,
}

impl PersonaSettingsDraft {
    /// A draft of the settings as they are published.
    pub fn current(settings: PersonaSettings) -> (draft: Self)
        ensures
            draft.settings == settings,
            draft.reserved_cleanup@ == settings@.pending_deletions.to_set(),
    {
        let mut reserved_cleanup = TextSet::new();
        reserved_cleanup.extend(&settings.pending_deletions);
        proof {
            assert(Set::<Seq<char>>::empty().union(settings@.pending_deletions.to_set())
                =~= settings@.pending_deletions.to_set());
        }
        PersonaSettingsDraft { settings, reserved_cleanup }
    }

    /// Returns what is to be stored before the program ends, unless it is published already.
    pub fn prepare_write(&self, published: &PersonaSettings) -> (write: Option<PersonaSettings>)
        ensures
            match write {
                Some(settings) => !self.settings@.alike(published@) && settings@
                    == self.settings@,
                None => self.settings@.alike(published@),
            },
    {
        if self.settings.same_as(published) {
            None
        } else {
            Some(self.settings.copy())
        }
    }

    /// Takes note that the memory of a deleted persona is gone, and tells whether that was
    /// still to be done.
    pub fn finish_persona_cleanup(&mut self, persona: &String) -> (marked: bool)
        ensures
            marked == old(self).settings@.pending_deletions.contains(persona@),
            final(self).settings@ == PersonaSettings::without_mark(old(self).settings@, persona@),
            final(self).reserved_cleanup == old(self).reserved_cleanup,
    {
        self.settings.remove_mark(persona)
    }

    /// Takes note that the end of a persona is published; its identifier may be used again.
    pub fn persona_cleanup_was_published(&mut self, persona: &String)
        ensures
            final(self).settings@ == PersonaSettings::without_mark(old(self).settings@, persona@),
            final(self).reserved_cleanup@ == old(self).reserved_cleanup@.remove(persona@),
    {
        let _ = self.finish_persona_cleanup(persona);
        self.reserved_cleanup.remove(persona);
    }
}

/// What came of storing settings. `published` are the personas whose memory still had to be
/// cleared according to what was stored, `current` those according to what is published now.
/// Where nothing was stored, `settings` are those that are published.
#[derive(Debug)]
#[allow(inconsistent_fields)]
pub enum PersonaWriteOutcome {
    Stored { published: Vec<String>, current: Vec<String> },
    Replaced { settings: PersonaSettings },
    Failed { settings: PersonaSettings, error: String },
}

/// Those of the first `count` deleted personas whose memory can be claimed: their end is
/// published, and their memory is not being cleared.
pub open spec fn claimable(
    deletions: Seq<Seq<char>>,
    published: Seq<Seq<char>>,
    in_flight: Set<Seq<char>>,
    count: int,
) -> Seq<PersonaEffect>
    decreases count,
{
    if count <= 0 || count > deletions.len() {
        Seq::empty()
    } else {
        let before = claimable(deletions, published, in_flight, count - 1);
        let persona = deletions[count - 1];
        if !in_flight.contains(persona) && published.contains(persona) {
            before.push(PersonaEffect::ClaimCleanup { persona })
        } else {
            before
        }
    }
}

impl PersonaState {
    /// The page with the cleanups brought up to date with what is published.
    pub open spec fn cleanups_updated(self, published: Seq<Seq<char>>) -> Self {
        PersonaState {
            cleanup: CleanupView {
                pending: self.cleanup.pending.union(published.to_set()).intersect(
                    published.to_set().union(self.draft.pending_deletions.to_set()).union(
                        self.cleanup.in_flight,
                    ),
                ),
                ..self.cleanup
            },
            ..self
        }
    }

    /// What trying the cleanups again takes.
    pub open spec fn cleanup_effects(self, published: Seq<Seq<char>>) -> Seq<PersonaEffect> {
        claimable(
            self.draft.pending_deletions,
            published,
            self.cleanup.in_flight,
            self.draft.pending_deletions.len() as int,
        )
    }

    /// The page with the draft replaced by what is handed in.
    pub open spec fn with_draft(self, settings: PersonaSettingsData) -> Self {
        PersonaState { draft: settings, submitted: settings, ..self }
    }

    /// The page with the conversation's numbers being asked for, where it is on view.
    pub open spec fn usage_on_view(self) -> Self {
        if self.ui.active_page == PersonaPage::Context {
            self.asking_usage()
        } else {
            self
        }
    }

    /// What asking for the numbers of the conversation on view takes.
    pub open spec fn usage_on_view_effects(self) -> Seq<PersonaEffect> {
        if self.ui.active_page == PersonaPage::Context {
            self.usage_effects()
        } else {
            Seq::empty()
        }
    }

    /// The page with one more write under way.
    pub open spec fn with_write(self) -> Self {
        PersonaState {
            ui: PersonaUi {
                save_revision: revision_after(self.ui.save_revision),
                writes_in_flight: if self.ui.writes_in_flight == usize::MAX {
                    usize::MAX
                } else {
                    (self.ui.writes_in_flight + 1) as usize
                },
                ..self.ui
            },
            ..self
        }
    }

    /// The page after settings were handed in.
    pub open spec fn after_submit(self, settings: PersonaSettingsData) -> Self {
        self.with_draft(settings).usage_on_view().with_write().reporting(PersonaStatus::Saving)
    }

    /// What handing in settings takes.
    pub open spec fn submit_effects(self, settings: PersonaSettingsData) -> Seq<PersonaEffect> {
        (self.with_draft(settings).usage_on_view_effects() + self.report_effects()).push(
            PersonaEffect::WriteSettings { revision: revision_after(self.ui.save_revision) },
        )
    }

    /// The page with one write less under way.
    pub open spec fn without_write(self) -> Self {
        PersonaState {
            ui: PersonaUi {
                writes_in_flight: if self.ui.writes_in_flight == 0 {
                    0
                } else {
                    (self.ui.writes_in_flight - 1) as usize
                },
                ..self.ui
            },
            ..self
        }
    }

    /// The page with a report, where it is about the latest write.
    pub open spec fn reporting_latest(self, revision: u64, status: PersonaStatus) -> Self {
        if self.ui.save_revision == revision {
            self.reporting(status)
        } else {
            self
        }
    }

    /// What a report on a write takes, where it is about the latest.
    pub open spec fn latest_effects(self, revision: u64) -> Seq<PersonaEffect> {
        if self.ui.save_revision == revision {
            self.report_effects()
        } else {
            Seq::empty()
        }
    }

    /// The page with the identifiers given up whose end is published.
    pub open spec fn cleanups_released(self, published: Seq<Seq<char>>) -> Self {
        PersonaState {
            cleanup: CleanupView {
                pending: self.cleanup.pending.intersect(
                    published.to_set().union(self.cleanup.in_flight),
                ),
                ..self.cleanup
            },
            ..self
        }
    }

    /// The page after a write of settings ended.
    pub open spec fn after_write(self, revision: u64, outcome: PersonaWriteOutcome) -> Self {
        let ended = self.without_write();
        match outcome {
            PersonaWriteOutcome::Stored { published, current } => ended.reporting_latest(
                revision,
                PersonaStatus::Saved,
            ).cleanups_released(text_views(published@)).cleanups_updated(text_views(current@)),
            PersonaWriteOutcome::Replaced { settings } => if self.ui.save_revision == revision {
                PersonaState { submitted: settings@, ..ended }.reporting(
                    PersonaStatus::SaveReplaced,
                )
            } else {
                ended
            },
            PersonaWriteOutcome::Failed { settings, error } => if self.ui.save_revision
                == revision {
                PersonaState { submitted: settings@, ..ended }.reporting(
                    PersonaStatus::SaveFailed(error),
                )
            } else {
                ended
            },
        }
    }

    /// What the end of a write takes.
    pub open spec fn write_effects(self, revision: u64, outcome: PersonaWriteOutcome) -> Seq<
        PersonaEffect,
    > {
        (match outcome {
            PersonaWriteOutcome::Stored { published, current } => seq![PersonaEffect::Saved]
                + self.latest_effects(revision) + seq![
                PersonaEffect::ReleaseCleanups {
                    personas: self.cleanup.pending.difference(text_views(published@).to_set()),
                },
            ] + self.cleanup_effects(text_views(current@)),
            _ => self.latest_effects(revision),
        }).push(PersonaEffect::CheckIdle)
    }

    /// Whether nothing is being stored or cleared.
    pub open spec fn idle(self) -> bool {
        self.ui.writes_in_flight == 0 && self.cleanup.in_flight == Set::<Seq<char>>::empty()
    }

    /// What there is to report where nothing is being stored or cleared.
    pub open spec fn idle_effects(self) -> Seq<PersonaEffect> {
        if self.idle() {
            seq![PersonaEffect::SaveFinished]
        } else {
            Seq::empty()
        }
    }

    /// The page with the mark of a deleted persona taken off the draft.
    pub open spec fn unmarked(self, persona: Seq<char>) -> Self {
        PersonaState { draft: PersonaSettings::without_mark(self.draft, persona), ..self }
    }
}

impl PersonaSettingsView {
    /// Commits what is being edited and reads the form for saving. While the fields are being
    /// filled there is nothing to save, and nothing is returned.
    pub fn prepare_save(&mut self, weights: &MessageWeights) -> (actions: Option<PersonaActions>)
        requires
            old(self)@.weighed_by(*weights),
        ensures
            match actions {
                Some(actions) => {
                    &&& !old(self)@.ui.loading_form
                    &&& final(self)@ == old(self)@.all_committed(*weights).captured()
                    &&& actions@ == old(self)@.all_committed_effects(*weights)
                },
                None => old(self)@.ui.loading_form && final(self)@ == old(self)@,
            },
    {
        if self.ui.loading_form {
            return None;
        }
        let actions = self.commit_context_edits(weights);
        self.capture_current_form();
        Some(actions)
    }

    /// Hands in the checked draft. A draft that cannot be saved is reported; one that was
    /// handed in before is not stored again, but the cleanups are tried again. `published`
    /// are the personas whose memory still has to be cleared according to what is published.
    pub fn submit(
        &mut self,
        normalized: Result<PersonaSettings, String>,
        published: &Vec<String>,
    ) -> (actions: PersonaActions)
        ensures
            match normalized {
                Err(error) => {
                    &&& final(self)@ == old(self)@.reporting(PersonaStatus::Invalid(error))
                    &&& actions@ == old(self)@.report_effects()
                },
                Ok(settings) => if settings@.alike(old(self)@.submitted) {
                    &&& final(self)@ == old(self)@.cleanups_updated(text_views(published@))
                    &&& actions@ == old(self)@.cleanup_effects(text_views(published@))
                } else {
                    &&& final(self)@ == old(self)@.after_submit(settings@)
                    &&& actions@ == old(self)@.submit_effects(settings@)
                },
            },
    {
        let settings = match normalized {
            Ok(settings) => settings,
            Err(error) => {
                return self.set_status(PersonaStatus::Invalid(error));
            },
        };
        if settings.same_as(&self.submitted) {
            return self.retry_pending_persona_cleanup(published);
        }
        self.draft = settings.copy();
        self.submitted = settings;
        let mut actions = PersonaActions::none();
        if self.ui.active_page == PersonaPage::Context {
            actions = self.refresh_usage();
        }
        self.ui.save_revision = next_revision(self.ui.save_revision);
        let revision: u64 = self.ui.save_revision;
        self.ui.writes_in_flight = self.ui.writes_in_flight.saturating_add(1);
        let report = self.set_status(PersonaStatus::Saving);
        actions.append(report);
        actions.push(PersonaAction::WriteSettings { revision });
        actions
    }

    fn claim_cleanups(&self, published: &Vec<String>) -> (actions: PersonaActions)
        ensures
            actions@ == self@.cleanup_effects(text_views(published@)),
    {
        let mut actions = PersonaActions::none();
        let mut index: usize = 0;
        while index < self.draft.pending_deletions.len()
            invariant
                index <= self.draft.pending_deletions.len(),
                actions@ == claimable(
                    self@.draft.pending_deletions,
                    text_views(published@),
                    self@.cleanup.in_flight,
                    index as int,
                ),
            decreases self.draft.pending_deletions.len() - index,
        {
            let persona = &self.draft.pending_deletions[index];
            proof {
                assert(self@.draft.pending_deletions[index as int] == persona@);
            }
            if !self.cleanup.in_flight.contains(persona) && contains_text(published, persona) {
                actions.push(PersonaAction::ClaimCleanup { persona: persona.clone() });
            }
            index = index + 1;
        }
        actions
    }

    /// Tries again to clear the memory of deleted personas whose end is published.
    pub fn retry_pending_persona_cleanup(&mut self, published: &Vec<String>) -> (actions:
        PersonaActions)
        ensures
            final(self)@ == old(self)@.cleanups_updated(text_views(published@)),
            actions@ == old(self)@.cleanup_effects(text_views(published@)),
    {
        let mut kept = self.cleanup.in_flight.copy();
        kept.extend(published);
        kept.extend(&self.draft.pending_deletions);
        self.cleanup.pending.extend(published);
        self.cleanup.pending.retain(&kept);
        proof {
            assert(self@.cleanup =~= old(self)@.cleanups_updated(text_views(published@)).cleanup);
        }
        self.claim_cleanups(published)
    }

    /// Takes note whether the memory of a deleted persona was claimed, and clears it then.
    pub fn cleanup_claimed(&mut self, persona: String, claimed: bool) -> (actions: PersonaActions)
        ensures
            claimed ==> {
                let claiming = PersonaState {
                    cleanup: CleanupView {
                        in_flight: old(self)@.cleanup.in_flight.insert(persona@),
                        ..old(self)@.cleanup
                    },
                    ..old(self)@
                };
                &&& final(self)@ == claiming.reporting(PersonaStatus::MemoryClearing)
                &&& actions@ == claiming.clear_effects(persona@, MemoryScope::All, true)
            },
            !claimed ==> {
                &&& final(self)@ == old(self)@
                &&& actions@ == Seq::<PersonaEffect>::empty()
            },
    {
        if !claimed {
            return PersonaActions::none();
        }
        self.cleanup.in_flight.insert(persona.clone());
        self.clear_memory(persona, MemoryScope::All, true)
    }

    fn take_stored(&mut self, revision: u64, published: &Vec<String>, current: &Vec<String>) -> (actions:
        PersonaActions)
        ensures
            final(self)@ == old(self)@.reporting_latest(
                revision,
                PersonaStatus::Saved,
            ).cleanups_released(text_views(published@)).cleanups_updated(text_views(current@)),
            actions@ == seq![PersonaEffect::Saved] + old(self)@.latest_effects(revision) + seq![
                PersonaEffect::ReleaseCleanups {
                    personas: old(self)@.cleanup.pending.difference(
                        text_views(published@).to_set(),
                    ),
                },
            ] + old(self)@.cleanup_effects(text_views(current@)),
    {
        let mut actions = PersonaActions::one(PersonaAction::Saved);
        if self.ui.save_revision == revision {
            let report = self.set_status(PersonaStatus::Saved);
            actions.append(report);
        }
        proof {
            assert(actions@ =~= seq![PersonaEffect::Saved] + old(self)@.latest_effects(revision));
        }
        let personas = self.cleanup.pending.without(published);
        actions.push(PersonaAction::ReleaseCleanups { personas });
        let mut kept = self.cleanup.in_flight.copy();
        kept.extend(published);
        self.cleanup.pending.retain(&kept);
        let ghost released = old(self)@.reporting_latest(
            revision,
            PersonaStatus::Saved,
        ).cleanups_released(text_views(published@));
        proof {
            assert(self@.cleanup =~= released.cleanup);
            assert(actions@ =~= seq![PersonaEffect::Saved] + old(self)@.latest_effects(revision)
                + seq![
                PersonaEffect::ReleaseCleanups {
                    personas: old(self)@.cleanup.pending.difference(
                        text_views(published@).to_set(),
                    ),
                },
            ]);
        }
        let retry = self.retry_pending_persona_cleanup(current);
        actions.append(retry);
        actions
    }

    /// Takes what came of storing the settings handed in under `revision`. Where the latest
    /// ones were not stored, the page goes by those that are, so that the draft counts as
    /// changed again.
    pub fn write_finished(&mut self, revision: u64, outcome: PersonaWriteOutcome) -> (actions:
        PersonaActions)
        ensures
            final(self)@ == old(self)@.after_write(revision, outcome),
            actions@ == old(self)@.write_effects(revision, outcome),
    {
        let latest = self.ui.save_revision == revision;
        self.ui.writes_in_flight = self.ui.writes_in_flight.saturating_sub(1);
        let mut actions = PersonaActions::none();
        match outcome {
            PersonaWriteOutcome::Stored { published, current } => {
                actions = self.take_stored(revision, &published, &current);
            },
            PersonaWriteOutcome::Replaced { settings } => {
                if latest {
                    self.submitted = settings;
                    actions = self.set_status(PersonaStatus::SaveReplaced);
                }
            },
            PersonaWriteOutcome::Failed { settings, error } => {
                if latest {
                    self.submitted = settings;
                    actions = self.set_status(PersonaStatus::SaveFailed(error));
                }
            },
        }
        actions.push(PersonaAction::CheckIdle);
        actions
    }

    /// Reports where nothing is being stored or cleared any more.
    pub fn emit_save_finished_if_idle(&self) -> (actions: PersonaActions)
        ensures
            actions@ == self@.idle_effects(),
    {
        if self.ui.writes_in_flight == 0 && self.cleanup.in_flight.is_empty() {
            PersonaActions::one(PersonaAction::SaveFinished)
        } else {
            PersonaActions::none()
        }
    }

    /// Tries again to save, once the window has been opened again.
    pub fn resume_pending_work(&self) -> (actions: PersonaActions)
        ensures
            actions@ == seq![PersonaEffect::SaveDraft],
    {
        PersonaActions::one(PersonaAction::SaveDraft)
    }

    /// Takes note that an earlier window has cleared the memory of a deleted persona.
    pub fn finish_persona_cleanup(&mut self, persona: &String) -> (actions: PersonaActions)
        ensures
            final(self)@ == old(self)@.unmarked(persona@),
            actions@ == (if old(self)@.draft.pending_deletions.contains(persona@) {
                seq![PersonaEffect::SaveDraft]
            } else {
                Seq::empty()
            }),
    {
        if self.draft.remove_mark(persona) {
            PersonaActions::one(PersonaAction::SaveDraft)
        } else {
            PersonaActions::none()
        }
    }

    /// Takes note that the end of a persona has been published elsewhere.
    pub fn persona_cleanup_was_published(&mut self, persona: &String) -> (actions: PersonaActions)
        ensures
            final(self)@ == (PersonaState {
                submitted: PersonaSettings::without_mark(old(self)@.submitted, persona@),
                cleanup: CleanupView {
                    pending: old(self)@.cleanup.pending.remove(persona@),
                    ..old(self)@.cleanup
                },
                ..old(self)@.unmarked(persona@)
            }),
            actions@ == seq![PersonaEffect::Notify],
    {
        let _ = self.draft.remove_mark(persona);
        let _ = self.submitted.remove_mark(persona);
        self.cleanup.pending.remove(persona);
        PersonaActions::one(PersonaAction::Notify)
    }

    /// Gets ready to close the window: nothing is watched or selected any more, and the draft
    /// is saved before it is handed on.
    pub fn begin_transfer(&mut self) -> (actions: PersonaActions)
        ensures
            final(self)@ == (PersonaState {
                pane: old(self)@.with_new_watch().pane.without_drag(),
                ..old(self)@
            }),
            actions@ == seq![PersonaEffect::SaveDraft, PersonaEffect::TransferWindow],
    {
        self.stop_context_auto_refresh();
        self.pane.cancel_selection();
        let mut actions = PersonaActions::one(PersonaAction::SaveDraft);
        actions.push(PersonaAction::TransferWindow);
        proof {
            assert(actions@ =~= seq![PersonaEffect::SaveDraft, PersonaEffect::TransferWindow]);
        }
        actions
    }

    /// Hands the draft on, and tells whether the page is still needed to see the end of what
    /// is being stored or cleared.
    pub fn take_window_state(&mut self) -> (state: (PersonaSettingsDraft, bool))
        ensures
            final(self)@ == (PersonaState {
                ui: PersonaUi { window_transferred: true, ..old(self)@.ui },
                ..old(self)@
            }),
            state.0.settings@ == old(self)@.draft,
            state.0.reserved_cleanup@ == old(self)@.cleanup.pending,
            state.1 == !old(self)@.idle(),
    {
        self.ui.window_transferred = true;
        let retain = self.ui.writes_in_flight != 0 || !self.cleanup.in_flight.is_empty();
        let draft = PersonaSettingsDraft {
            settings: self.draft.copy(),
            reserved_cleanup: self.cleanup.pending.copy(),
        };
        (draft, retain)
    }
}

} // verus!

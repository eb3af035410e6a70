//! Saving the draft, and the events of the page.

use vstd::prelude::*;

use crate::revision::{next_revision, revision_after};
use crate::settings::llm::LlmSettings;
use crate::settings::provider::form::ProviderForm;
use crate::settings::provider::options::AdvancedForm;
use crate::settings::provider::view::{
    InputEdit, ProviderAction, ProviderSettingsView, ProviderStatus, ProviderUi,
};

verus! {

/// What came of storing settings. Where they were not stored, `current` are those that are.
#[derive(Debug)]
#[allow(inconsistent_fields)]
pub enum WriteOutcome {
    Stored,
    Replaced { current: LlmSettings },
    Failed { current: LlmSettings, error: String },
}

/// What a field reports.
#[derive(Debug)]
pub enum InputEvent {
    /// The field has the keyboard; its text is this.
    Focus { text: String },
    PressEnter,
    Blur,
    Change,
}

/// A switch of the form.
#[derive(Debug, Clone, Copy, PartialEq, Eq, Structural)]
pub enum FormSwitch {
    ContextWindowTokens,
    MaxOutputTokens,
    Temperature,
    TopP,
    UseGpu,
}

/// The draft that outlives a window.
#[derive(Debug)]
pub struct ProviderSettingsDraft {
    pub settings: LlmSettings,
}

impl ProviderSettingsDraft {
    /// A draft that starts from the published settings.
    pub fn current(settings: LlmSettings) -> (draft: Self)
        ensures
            draft.settings == settings,
    {
        ProviderSettingsDraft { settings }
    }
}

impl ProviderSettingsView {
    /// Saves, and then hands the draft on, for the window is being closed.
    pub fn begin_transfer(&self) -> (actions: Vec<ProviderAction>)
        ensures
            actions@ == seq![ProviderAction::SaveDraft, ProviderAction::TransferWindow],
    {
        vec![ProviderAction::SaveDraft, ProviderAction::TransferWindow]
    }

    /// Returns the draft for the next window.
    pub fn take_window_state(&self) -> (draft: ProviderSettingsDraft)
        ensures
            draft.settings@ == self.draft@,
    {
        ProviderSettingsDraft { settings: self.draft.copy() }
    }

    fn set_status(&mut self, status: ProviderStatus) -> (actions: Vec<ProviderAction>)
        ensures
            *final(self) == (ProviderSettingsView {
                status: Some(status),
                ui: ProviderUi {
                    toast_revision: revision_after(old(self).ui.toast_revision),
                    ..old(self).ui
                },
                ..*old(self)
            }),
            actions@ == seq![
                ProviderAction::StartToast {
                    revision: revision_after(old(self).ui.toast_revision),
                },
                ProviderAction::Notify,
            ],
    {
        self.ui.toast_revision = next_revision(self.ui.toast_revision);
        self.status = Some(status);
        vec![
            ProviderAction::StartToast { revision: self.ui.toast_revision },
            ProviderAction::Notify,
        ]
    }

    /// Takes a report away once it has been shown long enough, unless a newer one has taken
    /// its place.
    pub fn toast_expired(&mut self, revision: u64) -> (actions: Vec<ProviderAction>)
        ensures
            old(self).ui.toast_revision == revision ==> {
                &&& *final(self) == (ProviderSettingsView { status: None, ..*old(self) })
                &&& actions@ == seq![ProviderAction::Notify]
            },
            old(self).ui.toast_revision != revision ==> {
                &&& *final(self) == *old(self)
                &&& actions@ == Seq::<ProviderAction>::empty()
            },
    {
        if self.ui.toast_revision != revision {
            return Vec::new();
        }
        self.status = None;
        vec![ProviderAction::Notify]
    }

    /// Reads the form for saving, and tells whether the draft is to be checked. While the
    /// fields are being filled there is nothing to save.
    pub fn prepare_save(&mut self) -> (wanted: bool)
        requires
            old(self).well_formed(),
        ensures
            wanted == !old(self).ui.loading_form,
            final(self).draft@ == (if wanted {
                old(self).captured_draft()
            } else {
                old(self).draft@
            }),
            final(self).form == old(self).form,
            final(self).ui == old(self).ui,
            final(self).same_surroundings(*old(self)),
    {
        if self.ui.loading_form {
            return false;
        }
        self.capture_current_form();
        true
    }

    /// Hands in the checked draft. A draft that cannot be saved is reported; one that was
    /// handed in before is not stored again.
    pub fn submit(&mut self, normalized: Result<LlmSettings, String>) -> (actions: Vec<
        ProviderAction,
    >)
        ensures
            final(self).form == old(self).form,
            final(self).catalog == old(self).catalog,
            final(self).input_edit == old(self).input_edit,
            match normalized {
                Err(error) => {
                    &&& final(self).draft == old(self).draft
                    &&& final(self).submitted == old(self).submitted
                    &&& final(self).status == Some(ProviderStatus::Invalid(error))
                    &&& final(self).ui == (ProviderUi {
                        toast_revision: revision_after(old(self).ui.toast_revision),
                        ..old(self).ui
                    })
                    &&& actions@ == seq![
                        ProviderAction::StartToast {
                            revision: revision_after(old(self).ui.toast_revision),
                        },
                        ProviderAction::Notify,
                    ]
                },
                Ok(settings) => if settings@.alike(old(self).submitted@) {
                    &&& *final(self) == *old(self)
                    &&& actions@ == Seq::<ProviderAction>::empty()
                } else {
                    &&& final(self).draft@ == settings@
                    &&& final(self).submitted@ == settings@
                    &&& final(self).status == Some(ProviderStatus::Saving)
                    &&& final(self).ui == old(self).submitted_ui()
                    &&& actions@ == seq![
                        ProviderAction::StartToast {
                            revision: revision_after(old(self).ui.toast_revision),
                        },
                        ProviderAction::Notify,
                        ProviderAction::WriteSettings {
                            revision: revision_after(old(self).ui.save_revision),
                        },
                    ]
                },
            },
    {
        let settings = match normalized {
            Ok(settings) => settings,
            Err(error) => {
                return self.set_status(ProviderStatus::Invalid(error));
            },
        };
        if settings.same_as(&self.submitted) {
            return Vec::new();
        }
        self.draft = settings.copy();
        self.submitted = settings;
        self.ui.save_revision = next_revision(self.ui.save_revision);
        let revision: u64 = self.ui.save_revision;
        self.ui.writes_in_flight = self.ui.writes_in_flight.saturating_add(1);
        let mut actions = self.set_status(ProviderStatus::Saving);
        actions.push(ProviderAction::WriteSettings { revision });
        actions
    }

    /// The page after settings were handed in.
    pub open spec fn submitted_ui(self) -> ProviderUi {
        ProviderUi {
            save_revision: revision_after(self.ui.save_revision),
            writes_in_flight: if self.ui.writes_in_flight == usize::MAX {
                usize::MAX
            } else {
                (self.ui.writes_in_flight + 1) as usize
            },
            toast_revision: revision_after(self.ui.toast_revision),
            ..self.ui
        }
    }

    /// The number of writes under way after one has ended.
    pub open spec fn writes_after_one(self) -> usize {
        if self.ui.writes_in_flight == 0 {
            0
        } else {
            (self.ui.writes_in_flight - 1) as usize
        }
    }

    /// The report on a finished write, where one is due: only the latest write is reported.
    pub open spec fn write_status(self, revision: u64, outcome: WriteOutcome) -> Option<
        ProviderStatus,
    > {
        if self.ui.save_revision != revision {
            None
        } else {
            Some(
                match outcome {
                    WriteOutcome::Stored => ProviderStatus::Saved,
                    WriteOutcome::Replaced { .. } => ProviderStatus::SaveReplaced,
                    WriteOutcome::Failed { error, .. } => ProviderStatus::SaveFailed(error),
                },
            )
        }
    }

    /// What a finished write takes.
    pub open spec fn write_actions(self, revision: u64, outcome: WriteOutcome) -> Seq<
        ProviderAction,
    > {
        (if outcome is Stored {
            seq![ProviderAction::Saved]
        } else {
            Seq::empty()
        }) + (if self.ui.save_revision == revision {
            seq![
                ProviderAction::StartToast { revision: revision_after(self.ui.toast_revision) },
                ProviderAction::Notify,
            ]
        } else {
            Seq::empty()
        }) + (if self.writes_after_one() == 0 {
            seq![ProviderAction::SaveFinished]
        } else {
            Seq::empty()
        })
    }

    /// Takes what came of storing the settings handed in under `revision`. Where the latest
    /// ones were not stored, the page goes by those that are, so that the draft counts as
    /// changed again.
    pub fn write_finished(&mut self, revision: u64, outcome: WriteOutcome) -> (actions: Vec<
        ProviderAction,
    >)
        ensures
            final(self).draft == old(self).draft,
            final(self).form == old(self).form,
            final(self).catalog == old(self).catalog,
            final(self).input_edit == old(self).input_edit,
            final(self).submitted == (if old(self).ui.save_revision != revision {
                old(self).submitted
            } else {
                match outcome {
                    WriteOutcome::Stored => old(self).submitted,
                    WriteOutcome::Replaced { current } => current,
                    WriteOutcome::Failed { current, .. } => current,
                }
            }),
            final(self).status == (match old(self).write_status(revision, outcome) {
                Some(status) => Some(status),
                None => old(self).status,
            }),
            final(self).ui == (ProviderUi {
                writes_in_flight: old(self).writes_after_one(),
                toast_revision: if old(self).ui.save_revision == revision {
                    revision_after(old(self).ui.toast_revision)
                } else {
                    old(self).ui.toast_revision
                },
                ..old(self).ui
            }),
            actions@ == old(self).write_actions(revision, outcome),
    {
        let latest = self.ui.save_revision == revision;
        self.ui.writes_in_flight = self.ui.writes_in_flight.saturating_sub(1);
        let mut actions: Vec<ProviderAction> = Vec::new();
        match outcome {
            WriteOutcome::Stored => {
                actions.push(ProviderAction::Saved);
                if latest {
                    let mut report = self.set_status(ProviderStatus::Saved);
                    actions.append(&mut report);
                }
            },
            WriteOutcome::Replaced { current } => {
                if latest {
                    self.submitted = current;
                    actions = self.set_status(ProviderStatus::SaveReplaced);
                }
            },
            WriteOutcome::Failed { current, error } => {
                if latest {
                    self.submitted = current;
                    actions = self.set_status(ProviderStatus::SaveFailed(error));
                }
            },
        }
        if self.ui.writes_in_flight == 0 {
            actions.push(ProviderAction::SaveFinished);
        }
        proof {
            assert(actions@ =~= old(self).write_actions(revision, outcome));
        }
        actions
    }

    /// Unfolds or folds the parameters.
    pub fn toggle_advanced(&mut self) -> (actions: Vec<ProviderAction>)
        ensures
            *final(self) == (ProviderSettingsView {
                ui: ProviderUi {
                    advanced_expanded: !old(self).ui.advanced_expanded,
                    ..old(self).ui
                },
                ..*old(self)
            }),
            actions@ == seq![ProviderAction::Notify],
    {
        self.ui.advanced_expanded = !self.ui.advanced_expanded;
        vec![ProviderAction::Notify]
    }

    /// The form with a switch the other way.
    pub open spec fn switched_form(form: ProviderForm, switch: FormSwitch) -> ProviderForm {
        match switch {
            FormSwitch::ContextWindowTokens => ProviderForm {
                advanced: AdvancedForm {
                    context_window_tokens_enabled: !form.advanced.context_window_tokens_enabled,
                    ..form.advanced
                },
                ..form
            },
            FormSwitch::MaxOutputTokens => ProviderForm {
                advanced: AdvancedForm {
                    max_output_tokens_enabled: !form.advanced.max_output_tokens_enabled,
                    ..form.advanced
                },
                ..form
            },
            FormSwitch::Temperature => ProviderForm {
                advanced: AdvancedForm {
                    temperature_enabled: !form.advanced.temperature_enabled,
                    ..form.advanced
                },
                ..form
            },
            FormSwitch::TopP => ProviderForm {
                advanced: AdvancedForm {
                    top_p_enabled: !form.advanced.top_p_enabled,
                    ..form.advanced
                },
                ..form
            },
            FormSwitch::UseGpu => ProviderForm { use_gpu: !form.use_gpu, ..form },
        }
    }

    /// Flips a switch of the form and saves.
    pub fn toggle_switch(&mut self, switch: FormSwitch) -> (actions: Vec<ProviderAction>)
        ensures
            *final(self) == (ProviderSettingsView {
                form: Self::switched_form(old(self).form, switch),
                ..*old(self)
            }),
            actions@ == seq![ProviderAction::SaveDraft],
    {
        match switch {
            FormSwitch::ContextWindowTokens => {
                self.form.advanced.context_window_tokens_enabled =
                    !self.form.advanced.context_window_tokens_enabled;
            },
            FormSwitch::MaxOutputTokens => {
                self.form.advanced.max_output_tokens_enabled =
                    !self.form.advanced.max_output_tokens_enabled;
            },
            FormSwitch::Temperature => {
                self.form.advanced.temperature_enabled = !self.form.advanced.temperature_enabled;
            },
            FormSwitch::TopP => {
                self.form.advanced.top_p_enabled = !self.form.advanced.top_p_enabled;
            },
            FormSwitch::UseGpu => {
                self.form.use_gpu = !self.form.use_gpu;
            },
        }
        vec![ProviderAction::SaveDraft]
    }

    /// Saves once something else has been chosen from a list, unless the page did so itself.
    pub fn choice_changed(&self) -> (actions: Vec<ProviderAction>)
        ensures
            actions@ == (if self.ui.loading_form {
                Seq::empty()
            } else {
                seq![ProviderAction::SaveDraft]
            }),
    {
        if self.ui.loading_form {
            Vec::new()
        } else {
            vec![ProviderAction::SaveDraft]
        }
    }

    /// Asks for a model file. A file asked for before is no longer wanted.
    pub fn choose_local_model(&mut self) -> (actions: Vec<ProviderAction>)
        ensures
            *final(self) == (ProviderSettingsView {
                ui: ProviderUi {
                    picker_revision: revision_after(old(self).ui.picker_revision),
                    ..old(self).ui
                },
                ..*old(self)
            }),
            actions@ == seq![
                ProviderAction::OpenPicker {
                    revision: revision_after(old(self).ui.picker_revision),
                },
            ],
    {
        self.ui.picker_revision = next_revision(self.ui.picker_revision);
        vec![ProviderAction::OpenPicker { revision: self.ui.picker_revision }]
    }

    /// Takes the file that was chosen, if one was and it is still wanted, and saves.
    pub fn local_model_chosen(&mut self, revision: u64, path: Option<String>) -> (actions: Vec<
        ProviderAction,
    >)
        ensures
            match path {
                Some(path) => if old(self).ui.picker_revision == revision {
                    &&& *final(self) == (ProviderSettingsView {
                        form: ProviderForm { local_path: path, ..old(self).form },
                        ..*old(self)
                    })
                    &&& actions@ == seq![ProviderAction::FillForm, ProviderAction::SaveDraft]
                } else {
                    &&& *final(self) == *old(self)
                    &&& actions@ == Seq::<ProviderAction>::empty()
                },
                None => {
                    &&& *final(self) == *old(self)
                    &&& actions@ == Seq::<ProviderAction>::empty()
                },
            },
    {
        let Some(path) = path else {
            return Vec::new();
        };
        if self.ui.picker_revision != revision {
            return Vec::new();
        }
        self.form.local_path = path;
        vec![ProviderAction::FillForm, ProviderAction::SaveDraft]
    }

    /// Calls off the edit of a field and hands out what the field held before.
    pub fn cancel_input_edit(&mut self) -> (edit: Option<InputEdit>)
        ensures
            edit == old(self).input_edit,
            *final(self) == (ProviderSettingsView { input_edit: None, ..*old(self) }),
    {
        self.input_edit.take()
    }

    /// Whether the edit that can be called off is one of `field`.
    pub open spec fn edits_field(self, field: u32) -> bool {
        self.input_edit matches Some(edit) && edit.field == field
    }

    /// Follows what a field reports. Leaving a field, or pressing enter in it, saves.
    pub fn handle_input_event(&mut self, field: u32, event: InputEvent) -> (actions: Vec<
        ProviderAction,
    >)
        ensures
            *final(self) == (ProviderSettingsView {
                input_edit: match event {
                    InputEvent::Focus { text } => if old(self).ui.loading_form {
                        old(self).input_edit
                    } else {
                        Some(InputEdit { field, text })
                    },
                    InputEvent::Blur => if old(self).edits_field(field) {
                        None
                    } else {
                        old(self).input_edit
                    },
                    _ => old(self).input_edit,
                },
                ..*old(self)
            }),
            actions@ == (if old(self).ui.loading_form {
                Seq::empty()
            } else {
                match event {
                    InputEvent::PressEnter => seq![ProviderAction::SaveDraft, ProviderAction::Blur],
                    InputEvent::Blur => seq![ProviderAction::SaveDraft],
                    _ => Seq::empty(),
                }
            }),
    {
        let loading = self.ui.loading_form;
        match event {
            InputEvent::Focus { text } => {
                if !loading {
                    self.input_edit = Some(InputEdit { field, text });
                }
                Vec::new()
            },
            InputEvent::PressEnter => {
                if loading {
                    Vec::new()
                } else {
                    vec![ProviderAction::SaveDraft, ProviderAction::Blur]
                }
            },
            InputEvent::Blur => {
                let edited = match &self.input_edit {
                    Some(edit) => edit.field == field,
                    None => false,
                };
                if edited {
                    self.input_edit = None;
                }
                if loading {
                    Vec::new()
                } else {
                    vec![ProviderAction::SaveDraft]
                }
            },
            InputEvent::Change => Vec::new(),
        }
    }

    /// Whether a key that calls off the edit of a field was used up.
    pub fn escape_pressed(&mut self, is_escape: bool) -> (edit: Option<InputEdit>)
        ensures
            edit == (if is_escape {
                old(self).input_edit
            } else {
                None
            }),
            *final(self) == (if is_escape {
                ProviderSettingsView { input_edit: None, ..*old(self) }
            } else {
                *old(self)
            }),
    {
        if is_escape {
            self.cancel_input_edit()
        } else {
            None
        }
    }
}

/// Every write that is begun is counted until it ends.
pub proof fn writes_are_counted(page: ProviderSettingsView)
    requires
        page.ui.writes_in_flight < usize::MAX,
    ensures
        (ProviderSettingsView { ui: page.submitted_ui(), ..page }).writes_after_one()
            == page.ui.writes_in_flight,
{
}

/// The end of saving is announced with the end of the last write, and only then.
pub proof fn saving_ends_with_last_write(
    page: ProviderSettingsView,
    revision: u64,
    outcome: WriteOutcome,
)
    ensures
        page.write_actions(revision, outcome).contains(ProviderAction::SaveFinished)
            == (page.ui.writes_in_flight <= 1),
{
    let actions = page.write_actions(revision, outcome);
    if page.ui.writes_in_flight <= 1 {
        assert(actions.last() == ProviderAction::SaveFinished);
    }
}

/// An outdated write is reported nowhere: it leaves the report and what was handed in last
/// alone.
pub proof fn outdated_write_is_not_reported(
    page: ProviderSettingsView,
    revision: u64,
    outcome: WriteOutcome,
)
    requires
        page.ui.save_revision != revision,
    ensures
        page.write_status(revision, outcome) is None,
        !page.write_actions(revision, outcome).contains(ProviderAction::Notify),
{
}

} // verus!

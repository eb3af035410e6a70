//! Global shortcuts.

use vstd::prelude::*;

use crate::desktop_pet::state::{
    if_due, push_if, DesktopPetView, PetAction, PetShortcuts, PetVoice,
};

verus! {

/// What a shortcut is for.
#[derive(Debug, Clone, Copy, PartialEq, Eq, Structural)]
pub enum ShortcutAction {
    VoiceInput,
    ToggleDesktopPet,
    ToggleChatInput,
    ToggleSettings,
}

/// A shortcut that went down or up. With an activation token the window system lets the
/// pet come to the front.
#[derive(Debug, Clone, Copy, PartialEq, Eq, Structural)]
pub struct ResolvedShortcut {
    pub action: ShortcutAction,
    pub pressed: bool,
    pub has_activation_token: bool,
}

impl DesktopPetView {
    /// The state after the problems of the shortcuts were reported.
    pub open spec fn with_shortcut_errors(self, errors: Vec<String>) -> DesktopPetView {
        DesktopPetView {
            shortcuts: PetShortcuts { runtime_errors: errors, ..self.shortcuts },
            ..self
        }
    }

    /// The state with the talk key let go.
    pub open spec fn with_talk_key_released(self) -> DesktopPetView {
        DesktopPetView { voice: PetVoice { release_timer: false, ..self.voice }, ..self }
    }

    /// Follows new shortcut settings. The talk key is let go; then the shortcuts are set
    /// up, or, where there are none, their problems are reported again.
    pub fn apply_shortcut_settings(&mut self) -> (actions: Vec<PetAction>)
        ensures
            *final(self) == old(self).with_talk_key_released(),
            actions@ == old(self).voice.release_actions() + seq![
                if old(self).shortcuts.available {
                    PetAction::ConfigureShortcuts
                } else {
                    PetAction::ReportShortcutErrors
                },
            ],
    {
        let mut actions = self.voice.release_voice_shortcut();
        if self.shortcuts.available {
            actions.push(PetAction::ConfigureShortcuts);
        } else {
            actions.push(PetAction::ReportShortcutErrors);
        }
        actions
    }

    /// Takes what setting up the shortcuts gave. Where the platform reports later, only
    /// problems are reported now.
    pub fn shortcuts_configured(&mut self, errors: Vec<String>, asynchronous: bool) -> (actions:
        Vec<PetAction>)
        ensures
            !asynchronous || errors@.len() > 0 ==> {
                &&& *final(self) == old(self).with_shortcut_errors(errors)
                &&& actions@ == seq![PetAction::ReportShortcutErrors]
            },
            asynchronous && errors@.len() == 0 ==> {
                &&& *final(self) == *old(self)
                &&& actions@ == Seq::<PetAction>::empty()
            },
    {
        if !asynchronous || errors.len() > 0 {
            return self.report_shortcut_runtime_errors(errors);
        }
        Vec::new()
    }

    /// Suspends the shortcuts while one is being recorded.
    pub fn set_shortcut_recording(&mut self, recording: bool) -> (actions: Vec<PetAction>)
        ensures
            *final(self) == (if recording {
                old(self).with_talk_key_released()
            } else {
                *old(self)
            }),
            actions@ == (if recording {
                old(self).voice.release_actions()
            } else {
                Seq::empty()
            }) + seq![
                if old(self).shortcuts.available {
                    PetAction::SuspendShortcuts(recording)
                } else {
                    PetAction::ReportShortcutErrors
                },
            ],
    {
        let mut actions: Vec<PetAction> = Vec::new();
        if recording {
            actions = self.voice.release_voice_shortcut();
        }
        if self.shortcuts.available {
            actions.push(PetAction::SuspendShortcuts(recording));
        } else {
            actions.push(PetAction::ReportShortcutErrors);
        }
        actions
    }

    /// Takes what suspending or resuming the shortcuts gave.
    pub fn shortcuts_suspended(
        &mut self,
        recording: bool,
        errors: Vec<String>,
        asynchronous: bool,
    ) -> (actions: Vec<PetAction>)
        ensures
            !asynchronous && (errors@.len() > 0 || !recording) ==> {
                &&& *final(self) == old(self).with_shortcut_errors(errors)
                &&& actions@ == seq![PetAction::ReportShortcutErrors]
            },
            asynchronous || (errors@.len() == 0 && recording) ==> {
                &&& *final(self) == *old(self)
                &&& actions@ == Seq::<PetAction>::empty()
            },
    {
        if !asynchronous && (errors.len() > 0 || !recording) {
            return self.report_shortcut_runtime_errors(errors);
        }
        Vec::new()
    }

    fn report_shortcut_runtime_errors(&mut self, errors: Vec<String>) -> (actions: Vec<PetAction>)
        ensures
            *final(self) == old(self).with_shortcut_errors(errors),
            actions@ == seq![PetAction::ReportShortcutErrors],
    {
        self.shortcuts.runtime_errors = errors;
        vec![PetAction::ReportShortcutErrors]
    }

    /// Whether a shortcut brings the pet to the front.
    pub open spec fn shortcut_activates(self, shortcut: ResolvedShortcut) -> bool {
        shortcut.pressed && match shortcut.action {
            ShortcutAction::ToggleDesktopPet => !self.window.visible,
            ShortcutAction::ToggleChatInput => !self.window.visible || !self.chat.input_open,
            ShortcutAction::VoiceInput => false,
            ShortcutAction::ToggleSettings => false,
        }
    }

    /// The state after a shortcut.
    pub open spec fn after_shortcut(self, shortcut: ResolvedShortcut) -> DesktopPetView {
        if shortcut.action == ShortcutAction::VoiceInput {
            DesktopPetView { voice: self.voice.after_shortcut(shortcut.pressed), ..self }
        } else {
            self
        }
    }

    /// What a shortcut takes. Only the talk key cares about being let go.
    pub open spec fn shortcut_actions(self, shortcut: ResolvedShortcut) -> Seq<PetAction> {
        if_due(
            self.shortcut_activates(shortcut) && shortcut.has_activation_token,
            PetAction::ActivateWithToken,
        ) + match shortcut.action {
            ShortcutAction::VoiceInput => self.voice.shortcut_actions(shortcut.pressed),
            ShortcutAction::ToggleDesktopPet => if_due(
                shortcut.pressed,
                PetAction::ToggleVisibility,
            ),
            ShortcutAction::ToggleSettings => if_due(
                shortcut.pressed,
                PetAction::ToggleSettingsWindow,
            ),
            ShortcutAction::ToggleChatInput => if_due(shortcut.pressed, PetAction::ToggleChatInput),
        }
    }

    /// Follows an event of the shortcuts. It announces new key bindings, announces
    /// problems, or is a shortcut; events that mean nothing here are passed over.
    pub fn handle_shortcut_event(
        &mut self,
        has_bindings: bool,
        errors: Option<Vec<String>>,
        shortcut: Option<ResolvedShortcut>,
    ) -> (actions: Vec<PetAction>)
        ensures
            has_bindings ==> {
                &&& *final(self) == *old(self)
                &&& actions@ == seq![PetAction::ReportShortcutBindings]
            },
            !has_bindings && errors is Some ==> {
                &&& *final(self) == old(self).with_shortcut_errors(errors->Some_0)
                &&& actions@ == seq![PetAction::ReportShortcutErrors]
            },
            !has_bindings && errors is None ==> match shortcut {
                Some(shortcut) => {
                    &&& *final(self) == old(self).after_shortcut(shortcut)
                    &&& actions@ == old(self).shortcut_actions(shortcut)
                },
                None => {
                    &&& *final(self) == *old(self)
                    &&& actions@ == Seq::<PetAction>::empty()
                },
            },
    {
        if has_bindings {
            return vec![PetAction::ReportShortcutBindings];
        }
        if let Some(errors) = errors {
            return self.report_shortcut_runtime_errors(errors);
        }
        match shortcut {
            Some(shortcut) => self.run_shortcut(shortcut),
            None => Vec::new(),
        }
    }

    fn run_shortcut(&mut self, shortcut: ResolvedShortcut) -> (actions: Vec<PetAction>)
        ensures
            *final(self) == old(self).after_shortcut(shortcut),
            actions@ == old(self).shortcut_actions(shortcut),
    {
        let activates = shortcut.pressed && match shortcut.action {
            ShortcutAction::ToggleDesktopPet => !self.window.visible,
            ShortcutAction::ToggleChatInput => !self.window.visible || !self.chat.input_open,
            ShortcutAction::VoiceInput => false,
            ShortcutAction::ToggleSettings => false,
        };
        let mut actions: Vec<PetAction> = Vec::new();
        push_if(
            &mut actions,
            activates && shortcut.has_activation_token,
            PetAction::ActivateWithToken,
        );
        match shortcut.action {
            ShortcutAction::VoiceInput => {
                let mut talk = self.voice.set_voice_shortcut_pressed(shortcut.pressed);
                actions.append(&mut talk);
            },
            ShortcutAction::ToggleDesktopPet => {
                push_if(&mut actions, shortcut.pressed, PetAction::ToggleVisibility);
            },
            ShortcutAction::ToggleSettings => {
                push_if(&mut actions, shortcut.pressed, PetAction::ToggleSettingsWindow);
            },
            ShortcutAction::ToggleChatInput => {
                push_if(&mut actions, shortcut.pressed, PetAction::ToggleChatInput);
            },
        }
        actions
    }
}

} // verus!

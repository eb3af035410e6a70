//! The chat input, the settings window and the tray menu.

use vstd::prelude::*;

use crate::desktop_pet::state::{
    if_due, push_if, ChatRequest, DesktopPetView, PetAction, PetChat, PetWindow, VoiceMode,
};

verus! {

impl DesktopPetView {
    /// The state after the chat input was opened or closed.
    pub open spec fn with_chat_input(self, open: bool) -> DesktopPetView {
        if self.chat.input_open == open {
            self
        } else {
            (DesktopPetView {
                chat: PetChat { input_open: open, ..self.chat },
                ..self
            }).with_cursor_synced()
        }
    }

    /// What opening or closing the chat input takes. The window is made active before
    /// the input asks for the keyboard.
    pub open spec fn chat_input_actions(self, open: bool) -> Seq<PetAction> {
        if self.chat.input_open == open {
            if open {
                seq![
                    PetAction::ActivateWindow,
                    PetAction::Chat(ChatRequest::SetInputVisible(true)),
                ]
            } else {
                Seq::empty()
            }
        } else {
            let toggled = DesktopPetView {
                chat: PetChat { input_open: open, ..self.chat },
                ..self
            };
            (if open {
                seq![PetAction::ActivateWindow, self.reset_look_action()]
            } else {
                Seq::empty()
            }) + toggled.cursor_sync_actions() + seq![
                PetAction::Chat(ChatRequest::SetInputVisible(open)),
                PetAction::Notify,
            ]
        }
    }

    /// Opens or closes the chat input.
    pub fn set_chat_input_open(&mut self, open: bool) -> (actions: Vec<PetAction>)
        ensures
            *final(self) == old(self).with_chat_input(open),
            actions@ == old(self).chat_input_actions(open),
    {
        let mut actions: Vec<PetAction> = Vec::new();
        push_if(&mut actions, open, PetAction::ActivateWindow);
        if self.chat.input_open == open {
            if open {
                actions.push(PetAction::Chat(ChatRequest::SetInputVisible(true)));
            }
            return actions;
        }
        self.chat.input_open = open;
        if open {
            actions.push(self.reset_look_target());
        }
        let mut cursor = self.sync_cursor_tracking_task();
        actions.append(&mut cursor);
        actions.push(PetAction::Chat(ChatRequest::SetInputVisible(open)));
        actions.push(PetAction::Notify);
        proof {
            assert(actions@ =~= old(self).chat_input_actions(open));
        }
        actions
    }

    /// Opens the chat input where it is closed and the other way round.
    pub fn toggle_chat_input(&mut self) -> (actions: Vec<PetAction>)
        ensures
            *final(self) == old(self).with_chat_input(!old(self).chat.input_open),
            actions@ == old(self).chat_input_actions(!old(self).chat.input_open),
    {
        let open = !self.chat.input_open;
        self.set_chat_input_open(open)
    }

    /// The window that the chat input is opened in: shown first, where it is hidden.
    pub open spec fn shown_for_chat(self, mode: VoiceMode) -> DesktopPetView {
        self.after_visibility(true, mode)
    }

    /// The state after the chat input was asked for; `shown` tells whether the platform
    /// could show a hidden window.
    pub open spec fn chat_opened(self, shown: bool, mode: VoiceMode) -> DesktopPetView {
        if !self.window.visible && !shown {
            self
        } else {
            self.shown_for_chat(mode).with_chat_input(true)
        }
    }

    /// What asking for the chat input takes.
    pub open spec fn open_chat_actions(self, shown: bool, mode: VoiceMode) -> Seq<PetAction> {
        if !self.window.visible && !shown {
            Seq::empty()
        } else {
            self.set_visible_actions(true, mode) + seq![PetAction::ActivateWindow]
                + self.shown_for_chat(mode).chat_input_actions(true)
        }
    }

    /// Opens the chat input, in a window that is shown for it if it was hidden. A window
    /// that cannot be shown stays as it is.
    pub fn open_chat_input(&mut self, shown: bool, mode: VoiceMode) -> (actions: Vec<PetAction>)
        ensures
            *final(self) == old(self).chat_opened(shown, mode),
            actions@ == old(self).open_chat_actions(shown, mode),
    {
        if !self.window.visible && !shown {
            return Vec::new();
        }
        let mut actions = self.set_desktop_pet_visible(true, mode);
        actions.push(PetAction::ActivateWindow);
        proof {
            assert(actions@ =~= old(self).set_visible_actions(true, mode) + seq![
                PetAction::ActivateWindow,
            ]);
        }
        let mut rest = self.set_chat_input_open(true);
        actions.append(&mut rest);
        actions
    }

    /// Whether the shortcut closes the chat input rather than opening it.
    pub open spec fn shortcut_closes_chat(self) -> bool {
        self.window.visible && self.chat.input_open
    }

    /// Follows the shortcut for the chat input: an input on screen is closed, any other is
    /// brought up.
    pub fn toggle_chat_input_from_shortcut(&mut self, shown: bool, mode: VoiceMode) -> (actions:
        Vec<PetAction>)
        ensures
            old(self).shortcut_closes_chat() ==> {
                &&& *final(self) == old(self).with_chat_input(false)
                &&& actions@ == old(self).chat_input_actions(false)
            },
            !old(self).shortcut_closes_chat() ==> {
                &&& *final(self) == old(self).chat_opened(shown, mode)
                &&& actions@ == old(self).open_chat_actions(shown, mode)
            },
    {
        if self.window.visible && self.chat.input_open {
            self.set_chat_input_open(false)
        } else {
            self.open_chat_input(shown, mode)
        }
    }

    /// Brings up the settings window: the one that is open, where it answers, or else a
    /// new one.
    pub fn open_config_window(&self, activated: bool) -> (actions: Vec<PetAction>)
        ensures
            actions@ == if_due(
                !(self.window.config_window is Some && activated),
                PetAction::OpenConfigWindow,
            ),
    {
        if self.window.config_window.is_some() && activated {
            return Vec::new();
        }
        vec![PetAction::OpenConfigWindow]
    }

    /// Takes note of a settings window that could be opened, or could not.
    pub fn config_window_opened(&mut self, handle: Option<u64>)
        ensures
            *final(self) == (DesktopPetView {
                window: PetWindow {
                    config_window: match handle {
                        Some(handle) => Some(handle),
                        None => old(self).window.config_window,
                    },
                    ..old(self).window
                },
                ..*old(self)
            }),
    {
        if handle.is_some() {
            self.window.config_window = handle;
        }
    }

    /// Closes the settings window where one could be closed, and opens one otherwise.
    pub fn toggle_config_window(&mut self, closed: bool) -> (actions: Vec<PetAction>)
        ensures
            *final(self) == (DesktopPetView {
                window: PetWindow { config_window: None, ..old(self).window },
                ..*old(self)
            }),
            actions@ == if_due(
                !(old(self).window.config_window is Some && closed),
                PetAction::OpenConfigWindow,
            ),
    {
        let open = self.window.config_window.is_some();
        self.window.config_window = None;
        if open && closed {
            return Vec::new();
        }
        self.open_config_window(false)
    }

    /// What closing the tray's own menu takes.
    pub open spec fn close_tray_actions(self) -> Seq<PetAction> {
        match self.window.tray_menu_window {
            Some(handle) => seq![PetAction::CloseTrayMenuWindow(handle)],
            None => Seq::empty(),
        }
    }

    /// The state without the tray's own menu.
    pub open spec fn without_tray_menu(self) -> DesktopPetView {
        DesktopPetView { window: PetWindow { tray_menu_window: None, ..self.window }, ..self }
    }

    /// Closes the tray's own menu.
    pub fn close_tray_menu(&mut self) -> (actions: Vec<PetAction>)
        ensures
            *final(self) == old(self).without_tray_menu(),
            actions@ == old(self).close_tray_actions(),
    {
        match self.window.tray_menu_window.take() {
            Some(handle) => vec![PetAction::CloseTrayMenuWindow(handle)],
            None => Vec::new(),
        }
    }

    /// What a click on the tray takes. `closed` tells whether an open menu window could be
    /// closed.
    pub open spec fn tray_click_actions(self, native: bool, closed: bool) -> Seq<PetAction> {
        if !self.window.tray_available {
            Seq::empty()
        } else if native {
            self.close_tray_actions() + seq![PetAction::ShowNativeTrayMenu]
        } else if self.window.tray_menu_window is Some && closed {
            Seq::empty()
        } else {
            seq![PetAction::OpenTrayMenuWindow { pet_hidden: !self.window.visible }]
        }
    }

    /// Follows a click on the tray: its menu is shown by the platform, closed, or opened
    /// as a window.
    pub fn toggle_tray_menu(&mut self, native: bool, closed: bool) -> (actions: Vec<PetAction>)
        ensures
            *final(self) == (if old(self).window.tray_available {
                old(self).without_tray_menu()
            } else {
                *old(self)
            }),
            actions@ == old(self).tray_click_actions(native, closed),
    {
        if !self.window.tray_available {
            return Vec::new();
        }
        if native {
            let mut actions = self.close_tray_menu();
            actions.push(PetAction::ShowNativeTrayMenu);
            return actions;
        }
        let open = self.window.tray_menu_window.is_some();
        self.window.tray_menu_window = None;
        if open && closed {
            return Vec::new();
        }
        vec![PetAction::OpenTrayMenuWindow { pet_hidden: !self.window.visible }]
    }

    /// Takes note of a menu window that was opened and prepared, or could not be; then the
    /// platform's menu takes its place.
    pub fn tray_menu_opened(&mut self, handle: Option<u64>, prepared: bool) -> (actions: Vec<
        PetAction,
    >)
        ensures
            match handle {
                Some(handle) => if prepared {
                    &&& *final(self) == (DesktopPetView {
                        window: PetWindow {
                            tray_menu_window: Some(handle),
                            ..old(self).window
                        },
                        ..*old(self)
                    })
                    &&& actions@ == seq![PetAction::ShowTrayMenuWindow(handle)]
                } else {
                    &&& *final(self) == *old(self)
                    &&& actions@ == seq![
                        PetAction::CloseTrayMenuWindow(handle),
                        PetAction::ShowNativeTrayMenu,
                    ]
                },
                None => {
                    &&& *final(self) == *old(self)
                    &&& actions@ == seq![PetAction::ShowNativeTrayMenu]
                },
            },
    {
        let Some(handle) = handle else {
            return vec![PetAction::ShowNativeTrayMenu];
        };
        if !prepared {
            return vec![PetAction::CloseTrayMenuWindow(handle), PetAction::ShowNativeTrayMenu];
        }
        self.window.tray_menu_window = Some(handle);
        vec![PetAction::ShowTrayMenuWindow(handle)]
    }

    /// Tells whether `handle` is still the tray's menu window.
    pub fn tray_menu_is_current(&self, handle: u64) -> (current: bool)
        ensures
            current == (self.window.tray_menu_window == Some(handle)),
    {
        match self.window.tray_menu_window {
            Some(current) => current == handle,
            None => false,
        }
    }

    /// Falls back to the platform's menu where the menu window could not be shown, unless
    /// another one has taken its place meanwhile.
    pub fn tray_menu_show_failed(&mut self, handle: u64) -> (actions: Vec<PetAction>)
        ensures
            old(self).window.tray_menu_window == Some(handle) ==> {
                &&& *final(self) == old(self).without_tray_menu()
                &&& actions@ == seq![
                    PetAction::CloseTrayMenuWindow(handle),
                    PetAction::ShowNativeTrayMenu,
                ]
            },
            old(self).window.tray_menu_window != Some(handle) ==> {
                &&& *final(self) == *old(self)
                &&& actions@ == Seq::<PetAction>::empty()
            },
    {
        if !self.tray_menu_is_current(handle) {
            return Vec::new();
        }
        let mut actions = self.close_tray_menu();
        actions.push(PetAction::ShowNativeTrayMenu);
        actions
    }

    /// Passes a click on the model on to the chat: `hit` is the name of the part under the
    /// pointer in the frame of `generation`. While something is typed, or once the model
    /// has been replaced, clicks mean nothing.
    pub fn send_hit_area_event_at(&self, generation: u64, hit: Option<String>) -> (actions: Vec<
        PetAction,
    >)
        ensures
            actions@ == (match hit {
                Some(part_name) => if_due(
                    !self.chat.input_open && self.model.generation == generation,
                    PetAction::Chat(ChatRequest::ModelClicked { part_name }),
                ),
                None => Seq::empty(),
            }),
    {
        if self.chat.input_open || self.model.generation != generation {
            return Vec::new();
        }
        match hit {
            Some(part_name) => vec![PetAction::Chat(ChatRequest::ModelClicked { part_name })],
            None => Vec::new(),
        }
    }
}

/// While the chat input is open the gaze does not follow the pointer, and closing it
/// again brings tracking back to what the rest of the state asks for.
pub proof fn typing_stops_tracking(pet: DesktopPetView)
    ensures
        !pet.chat.input_open ==> !pet.with_chat_input(true).gaze.tracking,
        pet.chat.input_open ==> pet.with_chat_input(false).gaze.tracking == pet.with_chat_input(
            false,
        ).tracks_cursor(),
{
}

} // verus!

//! Outfits: telling the chat which there are, and putting one on at its request.

use vstd::prelude::*;

use crate::desktop_pet::state::{
    DesktopPetView, ModelCommand, ModelLoadState, ModelPath, OutfitAction, PetAction,
};

verus! {

impl DesktopPetView {
    /// What telling the chat about outfits takes: only a loaded model has any.
    pub open spec fn outfit_sync_action(self) -> PetAction {
        if self.model.state is Ready {
            PetAction::PublishAgentOutfits
        } else {
            PetAction::ClearAgentOutfits
        }
    }

    /// Tells the chat which outfits there are now.
    pub fn sync_agent_outfits(&self) -> (action: PetAction)
        ensures
            action == self.outfit_sync_action(),
    {
        match &self.model.state {
            ModelLoadState::Ready { .. } => PetAction::PublishAgentOutfits,
            _ => PetAction::ClearAgentOutfits,
        }
    }

    /// Tells whether a request for a model made a new generation.
    pub fn model_load_command_was_issued(
        generation_before_load: u64,
        generation_after_load: u64,
    ) -> (issued: bool)
        ensures
            issued == (generation_after_load != generation_before_load),
    {
        generation_after_load != generation_before_load
    }

    /// What an outfit request takes first. It is refused outright where the pet is
    /// hidden, changing outfits is not allowed, the request is outdated, or the outfit is
    /// unknown.
    pub open spec fn outfit_request_actions(
        self,
        allowed: bool,
        current: bool,
        action: Option<OutfitAction>,
    ) -> Seq<PetAction> {
        if !self.window.visible || !allowed || !current {
            seq![PetAction::CompleteOutfitRequest(false)]
        } else {
            match action {
                None => seq![PetAction::CompleteOutfitRequest(false)],
                Some(OutfitAction::Unchanged) => seq![PetAction::CompleteOutfitRequest(true)],
                Some(OutfitAction::LoadVariant(id)) => seq![
                    PetAction::CommitOutfit(OutfitAction::LoadVariant(id)),
                ],
                Some(OutfitAction::PreviewExpression(name)) => if self.model.commands {
                    seq![PetAction::SendModelCommand(ModelCommand::PreviewExpression(name))]
                } else {
                    seq![PetAction::CompleteOutfitRequest(false)]
                },
                Some(OutfitAction::ResetExpression) => if self.model.commands {
                    seq![PetAction::SendModelCommand(ModelCommand::ResetExpression)]
                } else {
                    seq![PetAction::CompleteOutfitRequest(false)]
                },
            }
        }
    }

    /// Follows a request of the chat to change the outfit. `action` is what the settings
    /// make of the outfit asked for, where they know it.
    pub fn apply_agent_outfit_request(
        &self,
        allowed: bool,
        current: bool,
        action: Option<OutfitAction>,
    ) -> (actions: Vec<PetAction>)
        ensures
            actions@ == self.outfit_request_actions(allowed, current, action),
    {
        if !self.window.visible || !allowed || !current {
            return vec![PetAction::CompleteOutfitRequest(false)];
        }
        let Some(action) = action else {
            return vec![PetAction::CompleteOutfitRequest(false)];
        };
        match action {
            OutfitAction::Unchanged => vec![PetAction::CompleteOutfitRequest(true)],
            OutfitAction::LoadVariant(id) => vec![
                PetAction::CommitOutfit(OutfitAction::LoadVariant(id)),
            ],
            OutfitAction::PreviewExpression(name) => if self.model.commands {
                vec![PetAction::SendModelCommand(ModelCommand::PreviewExpression(name))]
            } else {
                vec![PetAction::CompleteOutfitRequest(false)]
            },
            OutfitAction::ResetExpression => if self.model.commands {
                vec![PetAction::SendModelCommand(ModelCommand::ResetExpression)]
            } else {
                vec![PetAction::CompleteOutfitRequest(false)]
            },
        }
    }

    /// What a stored variant takes.
    pub open spec fn outfit_variant_actions(self, committed: Option<ModelPath>) -> Seq<PetAction> {
        match committed {
            Some(path) => self.load_actions(Some(path), false) + seq![
                PetAction::CompleteOutfitRequest(!self.reuses_generation(Some(path), false)),
            ],
            None => seq![PetAction::CompleteOutfitRequest(false)],
        }
    }

    /// Puts on the variant that the settings have stored, and answers the request: done,
    /// if that made a new generation.
    pub fn finish_outfit_variant(&mut self, committed: Option<ModelPath>) -> (actions: Vec<
        PetAction,
    >)
        ensures
            *final(self) == (match committed {
                Some(path) => old(self).loaded_with(Some(path), false),
                None => *old(self),
            }),
            actions@ == old(self).outfit_variant_actions(committed),
    {
        let Some(path) = committed else {
            return vec![PetAction::CompleteOutfitRequest(false)];
        };
        let before: u64 = self.model.generation;
        let mut actions = self.load_model(Some(path));
        let issued = Self::model_load_command_was_issued(before, self.model.generation);
        actions.push(PetAction::CompleteOutfitRequest(issued));
        actions
    }

    /// Goes on once the model has taken the command of an outfit, or has not: a choice
    /// that is on screen is stored, any other is refused.
    pub fn outfit_command_finished(&self, sent: bool, action: OutfitAction) -> (actions: Vec<
        PetAction,
    >)
        ensures
            actions@ == (if sent {
                self.wake_model_actions() + seq![PetAction::CommitOutfit(action)]
            } else {
                seq![PetAction::CompleteOutfitRequest(false)]
            }),
    {
        if !sent {
            return vec![PetAction::CompleteOutfitRequest(false)];
        }
        let mut actions = self.wake_model();
        actions.push(PetAction::CommitOutfit(action));
        actions
    }

    /// Answers an outfit request once the settings have stored it, or have not.
    pub fn outfit_commit_finished(&self, stored: bool) -> (actions: Vec<PetAction>)
        ensures
            actions@ == seq![PetAction::CompleteOutfitRequest(stored)],
    {
        vec![PetAction::CompleteOutfitRequest(stored)]
    }
}

/// A request that is outdated, not allowed, or meets a hidden pet is answered with a
/// refusal and nothing else.
pub proof fn unwanted_outfit_request_is_refused(
    pet: DesktopPetView,
    allowed: bool,
    current: bool,
    action: Option<OutfitAction>,
)
    requires
        !pet.window.visible || !allowed || !current,
    ensures
        pet.outfit_request_actions(allowed, current, action) == seq![
            PetAction::CompleteOutfitRequest(false),
        ],
{
}

} // verus!

//! The life of the reply bubble: shown, hovered, fading, hidden.

use vstd::prelude::*;

use crate::revision::{next_revision, revision_after};

verus! {

/// Where the sign that the companion is thinking is shown.
#[derive(Debug, Clone, Copy, PartialEq, Eq, Structural)]
pub enum ThinkingFeedback {
    /// On the input bar: the question was typed.
    Text,
    /// On the voice indicator: the question was spoken.
    Voice,
}

/// Visibility of the reply bubble.
///
/// A fade runs in two steps that come back later with the revision under which
/// they were planned. Whatever happens to the bubble in between moves the revision
/// on, so that an outdated step finds nothing to do.
#[derive(Debug, Clone, Copy, PartialEq, Eq, Structural)]
pub struct ReplyLifecycle {
    pub visible: bool,
    pub hovered: bool,
    pub fading: bool,
    pub revision: u64,
    pub display_generation: u64,
}

impl ReplyLifecycle {
    /// A bubble fades only while it is on its way out, and never under the pointer.
    pub open spec fn well_formed(self) -> bool {
        self.fading ==> self.visible && !self.hovered
    }

    /// Whether a fade step planned under `revision` may still run.
    pub open spec fn accepts_fade(self, revision: u64, terminal: bool) -> bool {
        self.revision == revision && self.visible && !self.hovered && terminal
    }

    /// The bubble once its content has been replaced and shown.
    pub open spec fn after_reveal(self) -> ReplyLifecycle {
        ReplyLifecycle {
            visible: true,
            hovered: false,
            fading: false,
            revision: revision_after(self.revision),
            display_generation: revision_after(self.display_generation),
        }
    }

    /// The bubble once a fade has been planned, or dropped.
    pub open spec fn after_plan(self) -> ReplyLifecycle {
        ReplyLifecycle { revision: revision_after(self.revision), fading: false, ..self }
    }

    /// The bubble once a planned fade has started.
    pub open spec fn after_begin_fade(self, revision: u64, terminal: bool) -> ReplyLifecycle {
        if self.accepts_fade(revision, terminal) {
            ReplyLifecycle { fading: true, ..self }
        } else {
            self
        }
    }

    /// The bubble once a planned fade has run out.
    pub open spec fn after_finish_fade(self, revision: u64, terminal: bool) -> ReplyLifecycle {
        if self.accepts_fade(revision, terminal) {
            ReplyLifecycle { visible: false, fading: false, ..self }
        } else {
            self
        }
    }

    /// The bubble once the pointer has entered or left it.
    pub open spec fn after_hover(self, hovered: bool) -> ReplyLifecycle {
        if self.hovered == hovered {
            self
        } else if hovered {
            ReplyLifecycle {
                hovered: true,
                fading: false,
                revision: revision_after(self.revision),
                ..self
            }
        } else {
            ReplyLifecycle { hovered: false, ..self }
        }
    }

    /// A bubble at rest, shown at once where there is something to show.
    pub fn new(visible: bool) -> (lifecycle: Self)
        ensures
            lifecycle == (ReplyLifecycle {
                visible,
                hovered: false,
                fading: false,
                revision: 0,
                display_generation: if visible {
                    1
                } else {
                    0
                },
            }),
            lifecycle.well_formed(),
    {
        ReplyLifecycle {
            visible,
            hovered: false,
            fading: false,
            revision: 0,
            display_generation: if visible {
                1
            } else {
                0
            },
        }
    }

    /// Whether the bubble is on screen.
    pub fn visible(&self) -> (visible: bool)
        ensures
            visible == self.visible,
    {
        self.visible
    }

    /// Whether the bubble is fading out.
    pub fn fading(&self) -> (fading: bool)
        ensures
            fading == self.fading,
    {
        self.fading
    }

    /// The revision that a fade step has to bring back.
    pub fn revision(&self) -> (revision: u64)
        ensures
            revision == self.revision,
    {
        self.revision
    }

    /// Counts the contents shown so far; a new content is a new element on screen.
    pub fn display_generation(&self) -> (generation: u64)
        ensures
            generation == self.display_generation,
    {
        self.display_generation
    }

    /// Shows new content and drops every fade planned before.
    pub fn reveal_reply(&mut self)
        ensures
            *final(self) == old(self).after_reveal(),
            final(self).well_formed(),
    {
        self.advance();
        self.display_generation = next_revision(self.display_generation);
        self.visible = true;
        self.hovered = false;
        self.fading = false;
    }

    /// Plans a fade and returns the revision for its steps, unless the bubble is
    /// hidden, under the pointer, or still being written.
    pub fn plan_fade(&mut self, terminal: bool) -> (planned: Option<u64>)
        ensures
            *final(self) == old(self).after_plan(),
            final(self).well_formed(),
            planned == (if old(self).visible && !old(self).hovered && terminal {
                Some(final(self).revision)
            } else {
                None
            }),
    {
        self.advance();
        self.fading = false;
        if self.visible && !self.hovered && terminal {
            Some(self.revision)
        } else {
            None
        }
    }

    /// Starts the fade planned under `revision` and tells whether it did.
    pub fn begin_fade(&mut self, revision: u64, terminal: bool) -> (started: bool)
        ensures
            started == old(self).accepts_fade(revision, terminal),
            *final(self) == old(self).after_begin_fade(revision, terminal),
            old(self).well_formed() ==> final(self).well_formed(),
    {
        if self.revision != revision || !self.visible || self.hovered || !terminal {
            return false;
        }
        self.fading = true;
        true
    }

    /// Hides the bubble at the end of the fade planned under `revision` and tells
    /// whether it did.
    pub fn finish_fade(&mut self, revision: u64, terminal: bool) -> (hidden: bool)
        ensures
            hidden == old(self).accepts_fade(revision, terminal),
            *final(self) == old(self).after_finish_fade(revision, terminal),
            old(self).well_formed() ==> final(self).well_formed(),
    {
        if self.revision != revision || !self.visible || self.hovered || !terminal {
            return false;
        }
        self.visible = false;
        self.fading = false;
        true
    }

    /// Takes note of the pointer and tells whether anything changed. Entering the
    /// bubble stops its fade.
    pub fn set_hovered(&mut self, hovered: bool) -> (changed: bool)
        ensures
            changed == (old(self).hovered != hovered),
            *final(self) == old(self).after_hover(hovered),
            old(self).well_formed() ==> final(self).well_formed(),
    {
        if self.hovered == hovered {
            return false;
        }
        self.hovered = hovered;
        if hovered {
            self.advance();
            self.fading = false;
        }
        true
    }

    /// Moves the revision on, which outdates every fade step planned so far.
    pub fn advance(&mut self)
        ensures
            *final(self) == (ReplyLifecycle {
                revision: revision_after(old(self).revision),
                ..*old(self)
            }),
    {
        self.revision = next_revision(self.revision);
    }
}

/// A fade step that a newer reveal has outdated changes nothing.
pub proof fn reveal_outdates_fade(lifecycle: ReplyLifecycle, terminal: bool)
    ensures
        ({
            let revealed = lifecycle.after_reveal();
            &&& revealed.after_begin_fade(lifecycle.revision, terminal) == revealed
            &&& revealed.after_finish_fade(lifecycle.revision, terminal) == revealed
        }),
{
}

/// A fade planned anew outdates the steps of the one planned before.
pub proof fn new_plan_outdates_fade(lifecycle: ReplyLifecycle, terminal: bool)
    ensures
        ({
            let planned = lifecycle.after_plan();
            &&& planned.after_begin_fade(lifecycle.revision, terminal) == planned
            &&& planned.after_finish_fade(lifecycle.revision, terminal) == planned
        }),
{
}

/// While the pointer rests on the bubble no step of any fade hides or dims it, and
/// after the pointer has left, the steps planned before it came stay without effect.
pub proof fn hover_stops_fade(lifecycle: ReplyLifecycle, revision: u64, terminal: bool)
    requires
        !lifecycle.hovered,
    ensures
        ({
            let hovered = lifecycle.after_hover(true);
            let left = hovered.after_hover(false);
            &&& hovered.after_begin_fade(revision, terminal) == hovered
            &&& hovered.after_finish_fade(revision, terminal) == hovered
            &&& left.after_begin_fade(lifecycle.revision, terminal) == left
            &&& left.after_finish_fade(lifecycle.revision, terminal) == left
            &&& left.visible == lifecycle.visible
        }),
{
}

/// Left alone, a finished reply that is shown and not hovered goes through the
/// whole fade: planned, dimmed, hidden.
pub proof fn planned_fade_hides(lifecycle: ReplyLifecycle)
    requires
        lifecycle.visible,
        !lifecycle.hovered,
    ensures
        ({
            let planned = lifecycle.after_plan();
            let dimmed = planned.after_begin_fade(planned.revision, true);
            let hidden = dimmed.after_finish_fade(planned.revision, true);
            &&& dimmed.fading
            &&& dimmed.visible
            &&& !hidden.visible
            &&& !hidden.fading
        }),
{
}

/// A reply that is still being written is never dimmed or hidden.
pub proof fn unfinished_reply_stays(lifecycle: ReplyLifecycle, revision: u64)
    ensures
        lifecycle.after_begin_fade(revision, false) == lifecycle,
        lifecycle.after_finish_fade(revision, false) == lifecycle,
{
}

} // verus!

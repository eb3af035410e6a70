//! Screenshots for the companion, under a permission that has to hold all along.

use vstd::prelude::*;

verus! {

/// What the user allows the companion at one moment.
#[derive(Debug, Clone, Copy, PartialEq, Eq, Structural)]
pub struct AgentGrants {
    /// Whether outfits may be changed.
    pub outfits: bool,
    /// The revision of the permission to take screenshots, where there is one. Every new
    /// permission has a revision of its own.
    pub screenshots: Option<u64>,
}

/// The permission to take screenshots that goes with one question.
#[derive(Debug, Clone, Copy, PartialEq, Eq, Structural)]
pub struct HostScreenshotCapability {
    pub permission_revision: u64,
}

/// Why there is no screenshot.
#[derive(Debug, PartialEq, Eq)]
pub enum ImageInputError {
    /// It was not allowed, or the platform gave up.
    ScreenCapture,
    /// What the platform says.
    Failed(String),
}

/// The permission that goes with a question put while `permission` holds.
pub open spec fn capability_under(permission: Option<u64>) -> Option<HostScreenshotCapability> {
    match permission {
        Some(permission_revision) => Some(HostScreenshotCapability { permission_revision }),
        None => None,
    }
}

/// Returns the permission that goes with a question put while `permission` holds.
pub fn host_screenshot_capability(permission: Option<u64>) -> (capability: Option<
    HostScreenshotCapability,
>)
    ensures
        capability == capability_under(permission),
{
    match permission {
        Some(permission_revision) => Some(HostScreenshotCapability { permission_revision }),
        None => None,
    }
}

impl HostScreenshotCapability {
    /// Whether the permission still holds: it has neither been withdrawn nor been replaced.
    pub open spec fn holds_under(self, permission: Option<u64>) -> bool {
        permission == Some(self.permission_revision)
    }

    /// Tells whether the permission still holds.
    pub fn is_authorized(&self, permission: Option<u64>) -> (authorized: bool)
        ensures
            authorized == self.holds_under(permission),
    {
        match permission {
            Some(revision) => revision == self.permission_revision,
            None => false,
        }
    }

    /// Tells whether there is still a withdrawal to wait for, once the permission may have
    /// changed. `watched` tells whether further changes can be seen at all.
    pub fn awaits_revocation(&self, permission: Option<u64>, watched: bool) -> (waits: bool)
        ensures
            waits == (watched && self.holds_under(permission)),
    {
        watched && self.is_authorized(permission)
    }

    /// Lets a screenshot be taken, if the permission still holds.
    pub fn begin_capture(&self, permission: Option<u64>) -> (started: Result<(), ImageInputError>)
        ensures
            started == (if self.holds_under(permission) {
                Ok::<(), ImageInputError>(())
            } else {
                Err(ImageInputError::ScreenCapture)
            }),
    {
        if self.is_authorized(permission) {
            Ok(())
        } else {
            Err(ImageInputError::ScreenCapture)
        }
    }
}

/// What a screenshot came to: what the platform gave, or a failure where it broke off.
pub open spec fn captured_image(outcome: Option<Result<u64, ImageInputError>>) -> Result<
    u64,
    ImageInputError,
> {
    match outcome {
        Some(result) => result,
        None => Err(ImageInputError::ScreenCapture),
    }
}

/// Returns what a screenshot came to. An image is known by its number; there is no outcome
/// where the platform broke off.
pub fn finish_capture(outcome: Option<Result<u64, ImageInputError>>) -> (image: Result<
    u64,
    ImageInputError,
>)
    ensures
        image == captured_image(outcome),
{
    match outcome {
        Some(result) => result,
        None => Err(ImageInputError::ScreenCapture),
    }
}

/// A question that is put while screenshots are not allowed carries no permission, and one
/// that carries a permission was put while it held.
pub proof fn questions_carry_the_permission_at_hand(permission: Option<u64>)
    ensures
        capability_under(permission) is Some <==> permission is Some,
        capability_under(permission) matches Some(capability) ==> capability.holds_under(
            permission,
        ),
{
}

/// A permission that has been withdrawn does not come back with a later one: whatever
/// revision holds afterwards, no screenshot is taken for the old question.
pub proof fn later_permission_does_not_revive(
    capability: HostScreenshotCapability,
    permission: Option<u64>,
)
    requires
        permission matches Some(revision) ==> revision != capability.permission_revision,
    ensures
        !capability.holds_under(permission),
{
}

} // verus!

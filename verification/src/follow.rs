//! What the modal asks of its host, and what such a request does to the
//! host's follow relationships.

use vstd::prelude::*;
use crate::chord::KeyChord;

verus! {

/// A participant whose focus the local viewport can follow.
#[derive(Clone, Copy, Debug, PartialEq, Eq, Structural)]
pub enum Collaborator {
    /// The remote assistant.
    Agent,
    /// A human peer, by the host's number for them.
    Peer(u64),
}

/// The modal's answer to one event: the single thing it asks of the host.
#[derive(Clone, Copy, Debug, PartialEq, Eq, Structural)]
pub enum HostRequest {
    /// Hand the key event on to the parent focus chain, untouched.
    Propagate,
    /// The event was taken, and nothing is asked of the host.
    Nothing,
    /// Start following the collaborator.
    Follow(Collaborator),
    /// Stop following the collaborator.
    Unfollow(Collaborator),
    /// Remove the modal from view.
    Dismiss,
}

impl HostRequest {
    /// Whether the host follows `who` once it has carried the request out,
    /// given whether it followed them before.
    ///
    /// Only `Follow` and `Unfollow` touch a relationship, and only that of
    /// the collaborator they name.
    pub open spec fn following_after(self, who: Collaborator, before: bool) -> bool {
        match self {
            HostRequest::Follow(c) => c == who || before,
            HostRequest::Unfollow(c) => c != who && before,
            _ => before,
        }
    }

    /// How many dismiss signals the request carries.
    pub open spec fn dismiss_signals(self) -> nat {
        if self == HostRequest::Dismiss {
            1
        } else {
            0
        }
    }

    /// Whether the key event that led to the request goes on to the parent.
    pub open spec fn forwards_key(self) -> bool {
        self == HostRequest::Propagate
    }
}

/// The request that flips the assistant's follow relationship.
pub open spec fn toggle_of(following: bool) -> HostRequest {
    if following {
        HostRequest::Unfollow(Collaborator::Agent)
    } else {
        HostRequest::Follow(Collaborator::Agent)
    }
}

/// The answer to a released key.
///
/// `following` is what the workspace said of the assistant when the key came
/// up: `None` where no workspace could be reached.
pub open spec fn key_response(chord: KeyChord, following: Option<bool>) -> HostRequest {
    if !chord.is_follow_toggle() {
        HostRequest::Propagate
    } else {
        match following {
            Some(f) => toggle_of(f),
            None => HostRequest::Nothing,
        }
    }
}

/// The answer to the cancel action.
pub open spec fn cancel_response() -> HostRequest {
    HostRequest::Dismiss
}

/// Picks the request that flips the assistant's follow relationship:
/// unfollow where the viewport follows it now, follow where it does not.
pub fn toggle_request(following: bool) -> (request: HostRequest)
    ensures
        request == toggle_of(following),
        request.following_after(Collaborator::Agent, following) == !following,
{
    if following {
        HostRequest::Unfollow(Collaborator::Agent)
    } else {
        HostRequest::Follow(Collaborator::Agent)
    }
}

/// Answers a released key.
///
/// A chord other than control with the toggle key is handed on. The toggle
/// chord is taken: with a workspace at hand it flips the assistant's follow
/// relationship, and without one it does nothing at all.
pub fn respond_to_key(chord: &KeyChord, following: Option<bool>) -> (request: HostRequest)
    ensures
        request == key_response(*chord, following),
{
    if !chord.matches_follow_toggle() {
        return HostRequest::Propagate;
    }
    match following {
        Some(f) => toggle_request(f),
        None => HostRequest::Nothing,
    }
}

} // verus!

//! What holds of the modal's answers, whatever the events.

use vstd::prelude::*;
use crate::chord::{toggle_key, KeyChord};
use crate::content::{body_for, BodyPart, SessionRead};
use crate::follow::{cancel_response, key_response, Collaborator, HostRequest};
use crate::modal::Lifecycle;

verus! {

/// The toggle is its own inverse. Two toggle chords in a row, the second
/// answered against a workspace that carried out the answer to the first,
/// leave the assistant's follow relationship where it began; one alone flips
/// it.
pub proof fn lemma_toggle_twice_restores(first: KeyChord, second: KeyChord, following: bool)
    requires
        first.is_follow_toggle(),
        second.is_follow_toggle(),
    ensures
        ({
            let once = key_response(first, Some(following)).following_after(
                Collaborator::Agent,
                following,
            );
            let twice = key_response(second, Some(once)).following_after(
                Collaborator::Agent,
                once,
            );
            &&& once == !following
            &&& twice == following
        }),
{
}

/// A chord without control, or with any key but the toggle key, is handed on
/// to the parent focus chain whatever the workspace says, and changes no
/// follow relationship.
pub proof fn lemma_other_chords_are_forwarded(
    chord: KeyChord,
    following: Option<bool>,
    who: Collaborator,
    before: bool,
)
    requires
        !chord.control || chord.key@ != toggle_key(),
    ensures
        key_response(chord, following) == HostRequest::Propagate,
        key_response(chord, following).forwards_key(),
        key_response(chord, following).following_after(who, before) == before,
{
}

/// The toggle chord is taken, never handed on, with or without a workspace.
/// Without one it asks nothing and changes no follow relationship.
pub proof fn lemma_toggle_chord_is_taken(
    chord: KeyChord,
    following: Option<bool>,
    who: Collaborator,
    before: bool,
)
    requires
        chord.is_follow_toggle(),
    ensures
        !key_response(chord, following).forwards_key(),
        following is None ==> key_response(chord, following) == HostRequest::Nothing,
        following is None ==> key_response(chord, following).following_after(who, before)
            == before,
{
}

/// No key, whatever the chord, changes the follow relationship of anyone but
/// the assistant, and none carries a dismiss signal.
pub proof fn lemma_keys_touch_only_the_assistant(
    chord: KeyChord,
    following: Option<bool>,
    who: Collaborator,
    before: bool,
)
    requires
        who != Collaborator::Agent,
    ensures
        key_response(chord, following).following_after(who, before) == before,
        key_response(chord, following).dismiss_signals() == 0,
{
}

/// The cancel action carries exactly one dismiss signal, changes no follow
/// relationship, and is not a key handed on.
pub proof fn lemma_cancel_dismisses_once(who: Collaborator, before: bool)
    ensures
        cancel_response().dismiss_signals() == 1,
        cancel_response().following_after(who, before) == before,
        !cancel_response().forwards_key(),
{
}

/// A session without messages gets the placeholder, a session with one or
/// more gets the conversation, and the editor stands below either. The body
/// depends on nothing else.
pub proof fn lemma_body_follows_session(count: nat)
    ensures
        count == 0 ==> body_for(SessionRead::of_count(count)) == seq![
            BodyPart::Placeholder,
            BodyPart::InputEditor,
        ],
        count > 0 ==> body_for(SessionRead::of_count(count)) == seq![
            BodyPart::Conversation,
            BodyPart::InputEditor,
        ],
        body_for(SessionRead::Unavailable) == seq![BodyPart::Placeholder, BodyPart::InputEditor],
{
}

/// Only the cancel action dismisses, and only a focused modal; a dismissed
/// modal stays dismissed under both events.
pub proof fn lemma_dismissed_is_terminal(state: Lifecycle)
    ensures
        state.after_render() == Lifecycle::Dismissed <==> state == Lifecycle::Dismissed,
        state.after_cancel() == Lifecycle::Dismissed <==> state != Lifecycle::Constructed,
        Lifecycle::Dismissed.after_render() == Lifecycle::Dismissed,
        Lifecycle::Dismissed.after_cancel() == Lifecycle::Dismissed,
{
}

} // verus!

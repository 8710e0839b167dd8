use agent_modal::chord::KeyChord;
use agent_modal::follow::{respond_to_key, toggle_request, Collaborator, HostRequest};
use agent_modal::modal::{AgentModal, Lifecycle};

/// A host that keeps one follow relationship per collaborator asked about.
fn carry_out(request: HostRequest, who: Collaborator, before: bool) -> bool {
    match request {
        HostRequest::Follow(c) => c == who || before,
        HostRequest::Unfollow(c) => c != who && before,
        HostRequest::Propagate | HostRequest::Nothing | HostRequest::Dismiss => before,
    }
}

fn rendered_modal() -> AgentModal {
    let mut modal = AgentModal::new();
    modal.render(agent_modal::content::SessionRead::Empty);
    modal
}

#[test]
fn toggle_while_not_following_asks_to_follow() {
    let modal = rendered_modal();
    let chord = KeyChord::new(true, "e");
    let request = modal.on_key_up(&chord, Some(false));
    assert_eq!(request, HostRequest::Follow(Collaborator::Agent));
    assert_ne!(request, HostRequest::Unfollow(Collaborator::Agent));
}

#[test]
fn toggle_while_following_asks_to_unfollow() {
    let modal = rendered_modal();
    let chord = KeyChord::new(true, "e");
    assert_eq!(modal.on_key_up(&chord, Some(true)), HostRequest::Unfollow(Collaborator::Agent));
}

#[test]
fn toggle_without_workspace_asks_nothing() {
    let modal = rendered_modal();
    let chord = KeyChord::new(true, "e");
    let request = modal.on_key_up(&chord, None);
    assert_eq!(request, HostRequest::Nothing);
    assert_eq!(carry_out(request, Collaborator::Agent, true), true);
    assert_eq!(carry_out(request, Collaborator::Agent, false), false);
    assert_eq!(modal.lifecycle(), Lifecycle::Focused);
}

#[test]
fn toggle_twice_restores_the_relationship() {
    let modal = rendered_modal();
    let chord = KeyChord::new(true, "e");
    for start in [false, true] {
        let first = modal.on_key_up(&chord, Some(start));
        let once = carry_out(first, Collaborator::Agent, start);
        assert_eq!(once, !start);
        let second = modal.on_key_up(&chord, Some(once));
        let twice = carry_out(second, Collaborator::Agent, once);
        assert_eq!(twice, start);
    }
}

#[test]
fn rapid_presses_each_toggle() {
    let modal = rendered_modal();
    let chord = KeyChord::new(true, "e");
    let mut following = false;
    let mut seen = Vec::new();
    for _ in 0..5 {
        let request = modal.on_key_up(&chord, Some(following));
        following = carry_out(request, Collaborator::Agent, following);
        seen.push(following);
    }
    assert_eq!(seen, vec![true, false, true, false, true]);
}

#[test]
fn toggle_leaves_other_collaborators_alone() {
    let chord = KeyChord::new(true, "e");
    let request = respond_to_key(&chord, Some(false));
    assert_eq!(carry_out(request, Collaborator::Peer(7), false), false);
    assert_eq!(carry_out(request, Collaborator::Peer(7), true), true);
    let request = respond_to_key(&chord, Some(true));
    assert_eq!(carry_out(request, Collaborator::Peer(7), true), true);
}

#[test]
fn chord_without_control_is_forwarded() {
    let modal = rendered_modal();
    let chord = KeyChord::new(false, "e");
    assert!(!chord.matches_follow_toggle());
    for following in [None, Some(false), Some(true)] {
        assert_eq!(modal.on_key_up(&chord, following), HostRequest::Propagate);
    }
}

#[test]
fn chord_with_another_key_is_forwarded() {
    let modal = rendered_modal();
    for key in ["x", "d", "f", "E", "ee", "e ", " e", "", "enter", "escape", "\u{e9}", "\u{435}"] {
        let chord = KeyChord::new(true, key);
        assert!(!chord.matches_follow_toggle(), "key {:?}", key);
        for following in [None, Some(false), Some(true)] {
            assert_eq!(modal.on_key_up(&chord, following), HostRequest::Propagate, "key {:?}", key);
        }
    }
}

#[test]
fn modifier_only_release_is_forwarded() {
    let modal = rendered_modal();
    let chord = KeyChord::new(true, "control");
    assert_eq!(modal.on_key_up(&chord, Some(false)), HostRequest::Propagate);
    let chord = KeyChord::new(false, "shift");
    assert_eq!(modal.on_key_up(&chord, Some(true)), HostRequest::Propagate);
}

#[test]
fn forwarded_chord_changes_no_relationship() {
    let chord = KeyChord::new(false, "e");
    let request = respond_to_key(&chord, Some(true));
    assert_eq!(carry_out(request, Collaborator::Agent, true), true);
    assert_eq!(carry_out(request, Collaborator::Agent, false), false);
}

#[test]
fn control_e_is_the_toggle_chord() {
    assert!(KeyChord::new(true, "e").matches_follow_toggle());
    let chord = KeyChord { control: true, key: String::from("e") };
    assert!(chord.matches_follow_toggle());
    assert_eq!(chord.key, "e");
    assert!(chord.control);
}

#[test]
fn chord_keeps_what_it_was_built_from() {
    let chord = KeyChord::new(false, "enter");
    assert_eq!(chord.control, false);
    assert_eq!(chord.key, "enter");
    let chord = KeyChord::new(true, "");
    assert_eq!(chord.control, true);
    assert_eq!(chord.key, "");
}

#[test]
fn toggle_request_flips() {
    assert_eq!(toggle_request(false), HostRequest::Follow(Collaborator::Agent));
    assert_eq!(toggle_request(true), HostRequest::Unfollow(Collaborator::Agent));
}

#[test]
fn keys_are_answered_alike_in_every_state() {
    let chord = KeyChord::new(true, "e");
    let other = KeyChord::new(true, "k");
    let mut modal = AgentModal::new();
    assert_eq!(modal.on_key_up(&chord, Some(false)), HostRequest::Follow(Collaborator::Agent));
    assert_eq!(modal.on_key_up(&other, Some(false)), HostRequest::Propagate);
    modal.render(agent_modal::content::SessionRead::HasMessages);
    modal.on_cancel();
    assert_eq!(modal.lifecycle(), Lifecycle::Dismissed);
    assert_eq!(modal.on_key_up(&chord, Some(true)), HostRequest::Unfollow(Collaborator::Agent));
    assert_eq!(modal.on_key_up(&other, None), HostRequest::Propagate);
    assert_eq!(modal.lifecycle(), Lifecycle::Dismissed);
}

#[test]
fn cancel_changes_no_relationship() {
    let mut modal = rendered_modal();
    let request = modal.on_cancel();
    assert_eq!(request, HostRequest::Dismiss);
    for who in [Collaborator::Agent, Collaborator::Peer(3)] {
        assert_eq!(carry_out(request, who, true), true);
        assert_eq!(carry_out(request, who, false), false);
    }
}

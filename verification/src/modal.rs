//! The modal itself: its identity, its lifecycle, and its answers to the
//! three events it is given.

use vstd::prelude::*;
use crate::chord::KeyChord;
use crate::content::{body_for, compose_body, BodyPart, SessionRead};
use crate::follow::{cancel_response, key_response, respond_to_key, HostRequest};

verus! {

/// The token by which the host routes focus and theming to this overlay.
pub open spec fn modal_id_text() -> Seq<char> {
    "agent_chat_modal"@
}

/// The key context under which the overlay's bindings are looked up.
pub open spec fn key_context_text() -> Seq<char> {
    "AgentModal"@
}

/// The title in the overlay's header.
pub open spec fn headline_text() -> Seq<char> {
    "Agent Chat"@
}

/// The least height of the body, in pixels.
pub const BODY_MIN_HEIGHT: u32 = 600;

/// The least width of the body, in pixels.
pub const BODY_MIN_WIDTH: u32 = 400;

/// Where the modal stands between construction and dismissal.
#[derive(Clone, Copy, Debug, PartialEq, Eq, Structural)]
pub enum Lifecycle {
    /// Built, never rendered: no listener is attached and no focus declared.
    Constructed,
    /// Rendered at least once: the modal is the focus target.
    Focused,
    /// A cancel action reached the focused modal and the dismiss request
    /// went out. Teardown is the host's to do.
    Dismissed,
}

impl Lifecycle {
    /// The state after a render pass: the first one takes focus, any later
    /// one changes nothing.
    pub open spec fn after_render(self) -> Lifecycle {
        match self {
            Lifecycle::Constructed => Lifecycle::Focused,
            Lifecycle::Focused => Lifecycle::Focused,
            Lifecycle::Dismissed => Lifecycle::Dismissed,
        }
    }

    /// The state after a cancel action: a focused modal is dismissed, and
    /// the other two states stay as they are.
    pub open spec fn after_cancel(self) -> Lifecycle {
        match self {
            Lifecycle::Constructed => Lifecycle::Constructed,
            Lifecycle::Focused => Lifecycle::Dismissed,
            Lifecycle::Dismissed => Lifecycle::Dismissed,
        }
    }
}

/// What a modal is, to a contract.
pub struct ModalModel {
    /// The identity token.
    pub id: Seq<char>,
    /// The lifecycle state.
    pub lifecycle: Lifecycle,
}

/// What the host is to draw for one render pass: a focusable container
/// round a header and a body.
#[derive(Clone, Debug)]
pub struct RenderPlan {
    /// The overlay's identity token.
    pub modal_id: String,
    /// The key context of the focusable container.
    pub key_context: String,
    /// Whether the container is declared as the target of the modal's focus.
    pub tracks_focus: bool,
    /// Whether the container listens for released keys.
    pub listens_for_keys: bool,
    /// Whether the container listens for the cancel action.
    pub listens_for_cancel: bool,
    /// The header's title.
    pub headline: String,
    /// Whether the header shows a dismiss control.
    pub show_dismiss_button: bool,
    /// The least height of the body, in pixels.
    pub min_height: u32,
    /// The least width of the body, in pixels.
    pub min_width: u32,
    /// The body's views, top to bottom.
    pub body: Vec<BodyPart>,
}

impl RenderPlan {
    /// Whether this is the plan that a session read as `session` calls for.
    ///
    /// Only the body depends on the session. The frame round it is the same
    /// in every plan: focus is declared, both listeners are attached, the
    /// header shows the title and a dismiss control.
    pub open spec fn is_plan_for(&self, session: SessionRead) -> bool {
        &&& self.modal_id@ == modal_id_text()
        &&& self.key_context@ == key_context_text()
        &&& self.tracks_focus
        &&& self.listens_for_keys
        &&& self.listens_for_cancel
        &&& self.headline@ == headline_text()
        &&& self.show_dismiss_button
        &&& self.min_height == BODY_MIN_HEIGHT
        &&& self.min_width == BODY_MIN_WIDTH
        &&& self.body@ == body_for(session)
    }
}

/// The assistant-chat overlay.
#[derive(Debug)]
pub struct AgentModal {
    modal_id: String,
    lifecycle: Lifecycle,
}

impl View for AgentModal {
    type V = ModalModel;

    closed spec fn view(&self) -> ModalModel {
        ModalModel { id: self.modal_id@, lifecycle: self.lifecycle }
    }
}

impl AgentModal {
    #[verifier::type_invariant]
    spec fn identity_fixed(&self) -> bool {
        self.modal_id@ == modal_id_text()
    }

    /// Builds a modal that has not been rendered yet. Nothing of the host is
    /// touched.
    pub fn new() -> (modal: AgentModal)
        ensures
            modal@ == (ModalModel { id: modal_id_text(), lifecycle: Lifecycle::Constructed }),
    {
        AgentModal { modal_id: "agent_chat_modal".to_owned(), lifecycle: Lifecycle::Constructed }
    }

    /// The identity token, the same for the modal's whole life.
    pub fn modal_id(&self) -> (id: &str)
        ensures
            id@ == self@.id,
            id@ == modal_id_text(),
    {
        proof {
            use_type_invariant(self);
        }
        self.modal_id.as_str()
    }

    /// The lifecycle state.
    pub fn lifecycle(&self) -> (state: Lifecycle)
        ensures
            state == self@.lifecycle,
    {
        self.lifecycle
    }

    /// Whether the modal is the focus target and has not asked to be
    /// dismissed.
    pub fn is_focused(&self) -> (focused: bool)
        ensures
            focused == (self@.lifecycle == Lifecycle::Focused),
    {
        match self.lifecycle {
            Lifecycle::Focused => true,
            _ => false,
        }
    }

    /// Plans one render pass.
    ///
    /// The body follows from `session` alone, on the first pass and on every
    /// later one: nothing of an earlier pass is kept. The first pass takes
    /// focus. Identity stays, and nothing is asked of the session or the
    /// workspace.
    pub fn render(&mut self, session: SessionRead) -> (plan: RenderPlan)
        ensures
            plan.is_plan_for(session),
            final(self)@.id == old(self)@.id,
            final(self)@.lifecycle == old(self)@.lifecycle.after_render(),
    {
        proof {
            use_type_invariant(&*self);
        }
        match self.lifecycle {
            Lifecycle::Constructed => {
                self.lifecycle = Lifecycle::Focused;
            },
            _ => {},
        }
        RenderPlan {
            modal_id: self.modal_id.clone(),
            key_context: "AgentModal".to_owned(),
            tracks_focus: true,
            listens_for_keys: true,
            listens_for_cancel: true,
            headline: "Agent Chat".to_owned(),
            show_dismiss_button: true,
            min_height: BODY_MIN_HEIGHT,
            min_width: BODY_MIN_WIDTH,
            body: compose_body(session),
        }
    }

    /// Answers a released key. The modal itself is left as it was.
    ///
    /// `following` is what the workspace says of the assistant right now,
    /// `None` where the session has no workspace to ask. It is read only for
    /// the toggle chord.
    pub fn on_key_up(&self, chord: &KeyChord, following: Option<bool>) -> (request: HostRequest)
        ensures
            request == key_response(*chord, following),
    {
        respond_to_key(chord, following)
    }

    /// Answers the cancel action with one dismiss request.
    ///
    /// A focused modal becomes dismissed. The modal destroys nothing: it is
    /// the host that removes it.
    pub fn on_cancel(&mut self) -> (request: HostRequest)
        ensures
            request == cancel_response(),
            final(self)@.id == old(self)@.id,
            final(self)@.lifecycle == old(self)@.lifecycle.after_cancel(),
    {
        proof {
            use_type_invariant(&*self);
        }
        match self.lifecycle {
            Lifecycle::Focused => {
                self.lifecycle = Lifecycle::Dismissed;
            },
            _ => {},
        }
        HostRequest::Dismiss
    }
}

} // verus!

//! Choosing what fills the modal's body.

use vstd::prelude::*;

verus! {

/// What the session said of itself when it was read for a render pass.
#[derive(Clone, Copy, Debug, PartialEq, Eq, Structural)]
pub enum SessionRead {
    /// The conversation holds no message.
    Empty,
    /// The conversation holds at least one message.
    HasMessages,
    /// The session could not say.
    Unavailable,
}

/// One view in the modal's body.
#[derive(Clone, Copy, Debug, PartialEq, Eq, Structural)]
pub enum BodyPart {
    /// The session's own conversation view, embedded as it is.
    Conversation,
    /// A centred, full-size container with nothing in it.
    Placeholder,
    /// The session's message editor.
    InputEditor,
}

impl SessionRead {
    /// The read that a conversation of `count` messages gives.
    pub open spec fn of_count(count: nat) -> SessionRead {
        if count == 0 {
            SessionRead::Empty
        } else {
            SessionRead::HasMessages
        }
    }

    /// Reads a conversation by the number of its messages.
    pub fn from_message_count(count: usize) -> (read: SessionRead)
        ensures
            read == SessionRead::of_count(count as nat),
    {
        if count == 0 {
            SessionRead::Empty
        } else {
            SessionRead::HasMessages
        }
    }
}

/// The view that stands above the editor: the conversation where there is
/// one, the placeholder where the session is empty or could not say.
pub open spec fn content_for(session: SessionRead) -> BodyPart {
    if session == SessionRead::HasMessages {
        BodyPart::Conversation
    } else {
        BodyPart::Placeholder
    }
}

/// The whole body, top to bottom: the chosen view, then the editor.
pub open spec fn body_for(session: SessionRead) -> Seq<BodyPart> {
    seq![content_for(session), BodyPart::InputEditor]
}

/// Chooses the view that stands above the editor.
pub fn select_content(session: SessionRead) -> (part: BodyPart)
    ensures
        part == content_for(session),
{
    match session {
        SessionRead::HasMessages => BodyPart::Conversation,
        SessionRead::Empty => BodyPart::Placeholder,
        SessionRead::Unavailable => BodyPart::Placeholder,
    }
}

/// Lays out the body: the chosen view first, the editor below it.
pub fn compose_body(session: SessionRead) -> (body: Vec<BodyPart>)
    ensures
        body@ == body_for(session),
{
    let mut body: Vec<BodyPart> = Vec::new();
    body.push(select_content(session));
    body.push(BodyPart::InputEditor);
    proof {
        assert(body@ =~= body_for(session));
    }
    body
}

} // verus!

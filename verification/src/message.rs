//! Role-tagged chat messages and their mathematical view.

use vstd::prelude::*;

verus! {

/// Who spoke: the fixed instructions, the person typing, or the model.
#[derive(Clone, Copy, Debug, PartialEq, Eq, Structural)]
pub enum Role {
    System,
    User,
    Assistant,
}

/// One entry of the transcript. Created once per turn and never mutated.
#[derive(Debug)]
pub struct Message {
    pub role: Role,
    pub content: String,
    pub name: Option<String>,
}

/// The mathematical value of a [`Message`]: the same fields, with text as
/// character sequences.
#[verifier::ext_equal]
pub struct MessageView {
    pub role: Role,
    pub content: Seq<char>,
    pub name: Option<Seq<char>>,
}

impl View for Message {
    type V = MessageView;

    open spec fn view(&self) -> MessageView {
        MessageView {
            role: self.role,
            content: self.content@,
            name: match self.name {
                Some(n) => Some(n@),
                None => None,
            },
        }
    }
}

/// The message a turn of user text becomes.
pub open spec fn user_message(text: Seq<char>) -> MessageView {
    MessageView { role: Role::User, content: text, name: None }
}

/// A fixed instruction carried at the head of the transcript.
pub open spec fn system_message(text: Seq<char>) -> MessageView {
    MessageView { role: Role::System, content: text, name: None }
}

impl Message {
    /// Build the user message for one turn of input.
    pub fn user(text: String) -> (m: Message)
        ensures
            m@ == user_message(text@),
    {
        Message { role: Role::User, content: text, name: None }
    }

    /// Build one of the fixed system instructions.
    pub fn system(text: String) -> (m: Message)
        ensures
            m@ == system_message(text@),
    {
        Message { role: Role::System, content: text, name: None }
    }

    /// A copy of this message with the same value.
    pub fn duplicate(&self) -> (m: Message)
        ensures
            m@ == self@,
    {
        Message {
            role: self.role,
            content: self.content.clone(),
            name: match &self.name {
                Some(n) => Some(n.clone()),
                None => None,
            },
        }
    }
}

} // verus!

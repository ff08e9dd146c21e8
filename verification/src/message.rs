//! One turn of a conversation.
use vstd::prelude::*;

verus! {

/// What a message is: the text of its role and of its content.
pub struct MessageView {
    pub role: Seq<char>,
    pub content: Seq<char>,
}

/// One conversation turn.  The role is free text ("system", "user",
/// "assistant", or anything else): it is not checked against a fixed set.
#[derive(Debug, Clone, PartialEq, Eq)]
pub struct DefaultPromptMessage {
    role: String,
    content: String,
}

impl View for DefaultPromptMessage {
    type V = MessageView;

    open spec fn view(&self) -> MessageView {
        MessageView { role: self.spec_role()@, content: self.spec_content()@ }
    }
}

impl DefaultPromptMessage {
    pub closed spec fn spec_role(&self) -> String {
        self.role
    }

    pub closed spec fn spec_content(&self) -> String {
        self.content
    }

    /// A message with the given role and content.
    pub fn new(role: &str, content: &str) -> (message: Self)
        ensures
            message@.role == role@,
            message@.content == content@,
    {
        Self { role: role.to_owned(), content: content.to_owned() }
    }

    /// The role of the speaker.
    pub fn role(&self) -> (role: &str)
        ensures
            role@ == self@.role,
    {
        self.role.as_str()
    }

    /// What was said.
    pub fn content(&self) -> (content: &str)
        ensures
            content@ == self@.content,
    {
        self.content.as_str()
    }
}

/// The messages of a conversation, in order.
pub open spec fn messages_view(messages: Seq<DefaultPromptMessage>) -> Seq<MessageView> {
    Seq::new(messages.len(), |i: int| messages[i]@)
}

} // verus!

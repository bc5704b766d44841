use vstd::prelude::*;

verus! {

/// One chat message: who wrote it, what it says, and whether an AI wrote it.
/// A missing `is_ai` tag means the message is human-authored.
#[derive(Debug, Clone, PartialEq, Eq)]
pub struct ChatMessage {
    pub username: String,
    pub content: String,
    pub is_ai: Option<bool>,
}

/// The AI-authored message that posts `text` under the identity `author`.
pub open spec fn ai_message(author: String, text: String) -> ChatMessage {
    ChatMessage { username: author, content: text, is_ai: Some(true) }
}

impl ChatMessage {
    /// A message is human-authored unless its tag says it came from the AI.
    pub open spec fn spec_is_human(&self) -> bool {
        self.is_ai != Some(true)
    }

    /// Whether this message is human-authored, so that it asks for an AI reply.
    pub fn is_human(&self) -> (r: bool)
        ensures
            r == self.spec_is_human(),
    {
        match self.is_ai {
            Some(ai) => !ai,
            None => true,
        }
    }

    /// A copy of this message, equal to it field by field.
    pub fn copied(&self) -> (r: ChatMessage)
        ensures
            r == *self,
    {
        ChatMessage {
            username: self.username.clone(),
            content: self.content.clone(),
            is_ai: self.is_ai,
        }
    }

    /// The message that posts the AI completion `text` under the AI's
    /// identity `author`.
    pub fn ai_reply(author: &String, text: String) -> (r: ChatMessage)
        ensures
            r == ai_message(*author, text),
    {
        ChatMessage { username: author.clone(), content: text, is_ai: Some(true) }
    }
}

} // verus!

use vstd::prelude::*;
use crate::message::{ChatMessage, ai_message};

verus! {

/// One turn of the conversation sent to the completion service.
#[derive(Debug, Clone)]
pub struct CompletionTurn {
    pub role: String,
    pub content: String,
}

/// A request to the completion service: a model and the turns so far.
#[derive(Debug, Clone)]
pub struct CompletionRequest {
    pub model: String,
    pub messages: Vec<CompletionTurn>,
}

/// One block of text in the completion service's answer.
#[derive(Debug, Clone)]
pub struct CompletionContent {
    pub text: String,
}

/// The completion service's answer: its blocks of text, in order.
#[derive(Debug, Clone)]
pub struct CompletionResponse {
    pub content: Vec<CompletionContent>,
}

/// The prompt that augments `m`: its content where `m` is human-authored,
/// nothing where the AI wrote it (augmentation never answers itself).
pub fn augmentation_prompt(m: &ChatMessage) -> (r: Option<String>)
    ensures
        r is Some <==> m.spec_is_human(),
        r is Some ==> r->0 == m.content,
{
    if m.is_human() {
        Some(m.content.clone())
    } else {
        None
    }
}

/// The request that asks completion model `model` for a reply to `prompt`,
/// sent as a single user turn.
pub fn completion_request(model: &str, prompt: &str) -> (r: CompletionRequest)
    ensures
        r.model@ == model@,
        r.messages@.len() == 1,
        r.messages@[0].role@ == "user"@,
        r.messages@[0].content@ == prompt@,
{
    let turn = CompletionTurn { role: "user".to_string(), content: prompt.to_string() };
    CompletionRequest { model: model.to_string(), messages: vec![turn] }
}

/// The reply body of a completion answer: the text of its first block. An
/// answer without blocks counts as a failed completion.
pub fn reply_text(response: &CompletionResponse) -> (r: Option<String>)
    ensures
        r is Some <==> response.content@.len() > 0,
        r is Some ==> r->0 == response.content@[0].text,
{
    if response.content.len() > 0 {
        Some(response.content[0].text.clone())
    } else {
        None
    }
}

/// The AI message that a completion outcome yields: the completion text
/// posted under the AI's identity `author` on success, nothing on failure.
pub open spec fn reply_of(author: String, completion: Option<String>) -> Option<ChatMessage> {
    match completion {
        Some(text) => Some(ai_message(author, text)),
        None => None,
    }
}

/// The AI message that a completion outcome yields, posted under `author`.
/// A failed completion is swallowed here: it yields no message.
pub fn augmentation_reply(author: &String, completion: Option<String>) -> (r: Option<ChatMessage>)
    ensures
        r == reply_of(*author, completion),
{
    match completion {
        Some(text) => Some(ChatMessage::ai_reply(author, text)),
        None => None,
    }
}

} // verus!

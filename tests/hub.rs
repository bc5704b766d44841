use chat_hub::augment::{
    augmentation_prompt, augmentation_reply, completion_request, reply_text, CompletionContent,
    CompletionResponse,
};
use chat_hub::bus::FanoutBus;
use chat_hub::history::HistoryStore;
use chat_hub::hub::ChatHub;
use chat_hub::message::ChatMessage;

fn human(username: &str, content: &str) -> ChatMessage {
    ChatMessage { username: username.to_string(), content: content.to_string(), is_ai: Some(false) }
}

const AI_NAME: &str = "Assistant";

fn hub(capacity: usize) -> ChatHub {
    ChatHub::new(capacity, AI_NAME.to_string())
}

fn numbered(n: usize) -> ChatMessage {
    human("bob", &format!("message {}", n))
}

fn drain(bus: &mut FanoutBus, id: usize) -> Vec<String> {
    let mut got = Vec::new();
    while let Some(m) = bus.try_recv(id) {
        got.push(m.content);
    }
    got
}

#[test]
fn augmentation_success_path() {
    let mut hub = hub(100);
    let prompt = hub.accept(ChatMessage {
        username: "alice".to_string(),
        content: "hi".to_string(),
        is_ai: Some(false),
    });
    assert_eq!(prompt.as_deref(), Some("hi"));
    let history = hub.finish(Some("hello alice".to_string()));
    assert_eq!(history.len(), 2);
    assert_eq!(history[0].username, "alice");
    assert_eq!(history[0].content, "hi");
    assert_eq!(history[0].is_ai, Some(false));
    assert_eq!(history[1].username, AI_NAME);
    assert_eq!(history[1].content, "hello alice");
    assert_eq!(history[1].is_ai, Some(true));
}

#[test]
fn augmentation_failure_is_swallowed() {
    let mut hub = hub(100);
    let (id, snapshot) = hub.attach();
    assert!(snapshot.is_empty());
    let prompt = hub.accept(human("alice", "hi"));
    assert!(prompt.is_some());
    let history = hub.finish(None);
    assert_eq!(history.len(), 1);
    assert_eq!(history[0].content, "hi");
    assert!(history.iter().all(|m| m.is_ai != Some(true)));
    let live = hub.next_event(id).expect("the human message is published");
    assert_eq!(live.content, "hi");
    assert!(hub.next_event(id).is_none());
}

#[test]
fn ai_messages_are_not_augmented() {
    let mut hub = hub(10);
    let ai = ChatMessage::ai_reply(&AI_NAME.to_string(), "from the model".to_string());
    assert_eq!(hub.accept(ai), None);
    assert_eq!(hub.messages().len(), 1);
}

#[test]
fn missing_tag_means_human() {
    let m = ChatMessage { username: String::new(), content: "x".to_string(), is_ai: None };
    assert!(m.is_human());
    assert_eq!(augmentation_prompt(&m).as_deref(), Some("x"));
    let ai = ChatMessage { username: "a".to_string(), content: "y".to_string(), is_ai: Some(true) };
    assert!(!ai.is_human());
    assert_eq!(augmentation_prompt(&ai), None);
}

#[test]
fn fanout_complete_within_capacity() {
    let mut bus = FanoutBus::new(100);
    let ids: Vec<usize> = (0..5).map(|_| bus.subscribe()).collect();
    for n in 0..100 {
        bus.publish(&numbered(n));
    }
    let expected: Vec<String> = (0..100).map(|n| format!("message {}", n)).collect();
    for id in ids {
        assert_eq!(drain(&mut bus, id), expected);
    }
}

#[test]
fn fanout_overload_drops_oldest_for_stalled_subscriber() {
    let mut bus = FanoutBus::new(100);
    let stalled = bus.subscribe();
    let reader = bus.subscribe();
    let mut received = Vec::new();
    for n in 0..150 {
        bus.publish(&numbered(n));
        received.extend(drain(&mut bus, reader));
    }
    let all: Vec<String> = (0..150).map(|n| format!("message {}", n)).collect();
    assert_eq!(received, all);
    assert_eq!(drain(&mut bus, stalled), all[50..].to_vec());
}

#[test]
fn publish_does_not_wait_for_stalled_subscriber() {
    let mut bus = FanoutBus::new(4);
    let stalled = bus.subscribe();
    let readers: Vec<usize> = (0..9).map(|_| bus.subscribe()).collect();
    let mut counts = vec![0usize; readers.len()];
    for n in 0..1000 {
        bus.publish(&numbered(n));
        for (k, id) in readers.iter().enumerate() {
            counts[k] += drain(&mut bus, *id).len();
        }
    }
    assert!(counts.iter().all(|c| *c == 1000));
    assert_eq!(drain(&mut bus, stalled), vec!["message 996", "message 997", "message 998", "message 999"]);
}

#[test]
fn publish_without_subscribers_is_a_no_op() {
    let mut bus = FanoutBus::new(3);
    bus.publish(&numbered(0));
    assert_eq!(bus.buffer_capacity(), 3);
    let id = bus.subscribe();
    assert_eq!(bus.try_recv(id), None);
}

#[test]
fn released_subscription_receives_nothing() {
    let mut bus = FanoutBus::new(3);
    let a = bus.subscribe();
    let b = bus.subscribe();
    assert_ne!(a, b);
    bus.unsubscribe(a);
    bus.publish(&numbered(1));
    assert_eq!(bus.try_recv(a), None);
    assert_eq!(drain(&mut bus, b), vec!["message 1"]);
    assert_eq!(bus.try_recv(99), None);
    bus.unsubscribe(99);
}

#[test]
fn history_appends_in_order() {
    let mut store = HistoryStore::new();
    for n in 0..10 {
        assert_eq!(store.append(numbered(n)), n);
    }
    assert_eq!(store.len(), 10);
    let snap = store.snapshot();
    let contents: Vec<String> = snap.into_iter().map(|m| m.content).collect();
    let expected: Vec<String> = (0..10).map(|n| format!("message {}", n)).collect();
    assert_eq!(contents, expected);
}

#[test]
fn snapshot_is_isolated_from_later_appends() {
    let mut store = HistoryStore::new();
    store.append(human("a", "one"));
    let snap = store.snapshot();
    store.append(human("b", "two"));
    assert_eq!(snap.len(), 1);
    assert_eq!(snap[0].content, "one");
    assert_eq!(store.snapshot().len(), 2);
}

#[test]
fn session_gets_snapshot_then_live_events() {
    let mut hub = hub(10);
    hub.accept(human("a", "before"));
    let (id, snapshot) = hub.attach();
    assert_eq!(snapshot.len(), 1);
    assert_eq!(snapshot[0].content, "before");
    assert!(hub.next_event(id).is_none());
    hub.accept(human("b", "after"));
    assert_eq!(hub.next_event(id).map(|m| m.content).as_deref(), Some("after"));
    hub.detach(id);
    hub.accept(human("c", "gone"));
    assert!(hub.next_event(id).is_none());
    assert_eq!(hub.messages().len(), 3);
}

#[test]
fn completion_request_shape() {
    let req = completion_request("chat-model-1", "hi there");
    assert_eq!(req.model, "chat-model-1");
    assert_eq!(req.messages.len(), 1);
    assert_eq!(req.messages[0].role, "user");
    assert_eq!(req.messages[0].content, "hi there");
}

#[test]
fn reply_text_takes_first_block() {
    let resp = CompletionResponse {
        content: vec![
            CompletionContent { text: "first".to_string() },
            CompletionContent { text: "second".to_string() },
        ],
    };
    assert_eq!(reply_text(&resp).as_deref(), Some("first"));
    assert_eq!(reply_text(&CompletionResponse { content: vec![] }), None);
}

#[test]
fn augmentation_reply_uses_configured_identity() {
    let author = "helper".to_string();
    let reply = augmentation_reply(&author, Some("text".to_string())).expect("a reply");
    assert_eq!(reply.username, "helper");
    assert_eq!(reply.content, "text");
    assert_eq!(reply.is_ai, Some(true));
    assert_eq!(augmentation_reply(&author, None), None);
}

#[test]
fn released_slot_is_reused_with_an_empty_buffer() {
    let mut hub = hub(10);
    let (first, _) = hub.attach();
    let (second, _) = hub.attach();
    hub.accept(human("a", "pending"));
    hub.detach(first);
    let (third, snapshot) = hub.attach();
    assert_eq!(third, first);
    assert_eq!(snapshot.len(), 1);
    assert!(hub.next_event(third).is_none());
    assert_eq!(hub.next_event(second).map(|m| m.content).as_deref(), Some("pending"));
    let (fourth, _) = hub.attach();
    assert_eq!(fourth, 2);
}

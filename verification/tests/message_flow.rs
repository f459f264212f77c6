//! End-to-end message-flow scenarios over the store model.

use lumi::flow::{
    Disposition, EngineConfig, InboundMessage, ProviderEvent, SendEvent, SendReceipt,
    chat_sampling, handle_message, inbound_disposition, judge_sampling,
};
use lumi::model::{ChatError, ChatMode, SystemPrompt};
use lumi::store::Store;

fn fresh_store() -> Store {
    Store::new(SystemPrompt { id: 1, name: "judge".to_owned(), contents: "judge prompt".to_owned() })
}

fn inbound(id: u64, channel: u64, mentions_self: bool) -> InboundMessage {
    InboundMessage {
        id,
        mentions_self,
        sender: 42,
        sender_name: "alice".to_owned(),
        sender_display_name: "Alice".to_owned(),
        guild: Some(9),
        channel,
        contents: "hello there".to_owned(),
        reply: None,
        time: 1000 + id,
    }
}

fn cfg() -> EngineConfig {
    EngineConfig { window_threshold: 100, max_attempts: 3 }
}

fn yes() -> ProviderEvent {
    ProviderEvent::Returned(Some("{\"should_reply\":true}".to_owned()))
}

fn receipt(id: u64) -> SendEvent {
    SendEvent::Sent(SendReceipt {
        message_id: id,
        time: 2000 + id,
        author: 7,
        author_name: "lumi".to_owned(),
        author_display_name: "Lumi".to_owned(),
    })
}

#[test]
fn free_response_judge_yes_sends_and_persists() {
    let mut store = fresh_store();
    store.set_chat_mode(1, ChatMode::FreeResponse);
    let judge_events = vec![yes(), yes(), yes()];
    let chat = ProviderEvent::Returned(Some("sure, happy to help".to_owned()));
    let outcome = handle_message(&mut store, &cfg(), &inbound(10, 1, false), &judge_events, &chat, &receipt(11));
    assert!(outcome.engaged);
    assert_eq!(outcome.mode, ChatMode::FreeResponse);
    let report = outcome.report.unwrap();
    assert_eq!(report.decision, Some(true));
    assert_eq!(report.attempts, 1);
    assert!(report.replied);
    // exactly one outgoing message, persisted, referencing the inbound one
    assert_eq!(store.messages.len(), 2);
    assert_eq!(store.messages[0].id, 10);
    assert!(!store.messages[0].is_self);
    let outgoing = &store.messages[1];
    assert_eq!(outgoing.id, 11);
    assert!(outgoing.is_self);
    assert!(outgoing.mentions_self);
    assert_eq!(outgoing.reply, Some(10));
    assert_eq!(outgoing.contents, "sure, happy to help");
    assert_eq!(outgoing.reply_sender_name.as_deref(), Some("alice"));
}

#[test]
fn mentions_only_silent_message_skips_judge_but_persists() {
    let mut store = fresh_store();
    store.set_chat_mode(1, ChatMode::MentionsOnly);
    let judge_events = vec![yes(), yes(), yes()];
    let chat = ProviderEvent::Returned(Some("should never be sent".to_owned()));
    let outcome = handle_message(&mut store, &cfg(), &inbound(10, 1, false), &judge_events, &chat, &receipt(11));
    assert!(!outcome.engaged);
    let report = outcome.report.unwrap();
    assert_eq!(report.decision, None);
    assert_eq!(report.attempts, 0);
    assert!(!report.replied);
    assert_eq!(store.messages.len(), 1);
    assert_eq!(store.messages[0].id, 10);
}

#[test]
fn addressed_with_empty_reply_is_silent_noop() {
    let mut store = fresh_store();
    let judge_events = vec![yes(), yes(), yes()];
    let chat = ProviderEvent::Returned(Some(String::new()));
    let outcome = handle_message(&mut store, &cfg(), &inbound(10, 1, true), &judge_events, &chat, &receipt(11));
    assert!(outcome.engaged);
    let report = outcome.report.unwrap();
    // a direct address short-circuits the judge
    assert_eq!(report.decision, None);
    assert_eq!(report.attempts, 0);
    assert!(!report.replied);
    assert_eq!(store.messages.len(), 1);
    assert!(!store.messages[0].is_self);
}

#[test]
fn send_failure_keeps_inbound_and_no_outgoing_row() {
    let mut store = fresh_store();
    let judge_events = vec![yes(), yes(), yes()];
    let chat = ProviderEvent::Returned(Some("a reply".to_owned()));
    let outcome = handle_message(
        &mut store,
        &cfg(),
        &inbound(10, 1, true),
        &judge_events,
        &chat,
        &SendEvent::SendFailed,
    );
    let report = outcome.report.unwrap();
    assert!(!report.replied);
    assert_eq!(store.messages.len(), 1);
    assert_eq!(store.messages[0].id, 10);
}

#[test]
fn judge_no_means_no_reply() {
    let mut store = fresh_store();
    store.set_chat_mode(1, ChatMode::FreeResponse);
    let judge_events = vec![
        ProviderEvent::Returned(Some("{\"should_reply\":false}".to_owned())),
        yes(),
        yes(),
    ];
    let chat = ProviderEvent::Returned(Some("should not be sent".to_owned()));
    let outcome = handle_message(&mut store, &cfg(), &inbound(10, 1, false), &judge_events, &chat, &receipt(11));
    let report = outcome.report.unwrap();
    assert_eq!(report.decision, Some(false));
    assert!(!report.replied);
    assert_eq!(store.messages.len(), 1);
}

#[test]
fn judge_exhaustion_surfaces_error_inbound_kept() {
    let mut store = fresh_store();
    store.set_chat_mode(1, ChatMode::FreeResponse);
    let judge_events = vec![
        ProviderEvent::Returned(Some("garbage".to_owned())),
        ProviderEvent::Returned(None),
        ProviderEvent::Returned(Some("more garbage".to_owned())),
    ];
    let chat = ProviderEvent::Returned(Some("unused".to_owned()));
    let outcome = handle_message(&mut store, &cfg(), &inbound(10, 1, false), &judge_events, &chat, &receipt(11));
    assert_eq!(outcome.report.unwrap_err(), ChatError::JudgeExhausted);
    assert_eq!(store.messages.len(), 1);
}

#[test]
fn provider_failure_surfaces_error_inbound_kept() {
    let mut store = fresh_store();
    store.set_chat_mode(1, ChatMode::FreeResponse);
    let judge_events = vec![ProviderEvent::Failed, yes(), yes()];
    let chat = ProviderEvent::Returned(Some("unused".to_owned()));
    let outcome = handle_message(&mut store, &cfg(), &inbound(10, 1, false), &judge_events, &chat, &receipt(11));
    assert_eq!(outcome.report.unwrap_err(), ChatError::ProviderFailed);
    assert_eq!(store.messages.len(), 1);

    let mut store2 = fresh_store();
    let judge_events2 = vec![yes(), yes(), yes()];
    let outcome2 = handle_message(
        &mut store2,
        &cfg(),
        &inbound(10, 1, true),
        &judge_events2,
        &ProviderEvent::Failed,
        &receipt(11),
    );
    assert_eq!(outcome2.report.unwrap_err(), ChatError::ProviderFailed);
    assert_eq!(store2.messages.len(), 1);
}

#[test]
fn unseen_channel_defaults_to_mentions_only_all_context() {
    let mut store = fresh_store();
    let judge_events = vec![yes(), yes(), yes()];
    let chat = ProviderEvent::Returned(None);
    let outcome = handle_message(&mut store, &cfg(), &inbound(10, 5, false), &judge_events, &chat, &receipt(11));
    assert_eq!(outcome.mode, ChatMode::MentionsOnlyAllContext);
    assert!(!outcome.engaged);
    // the channel row was created implicitly
    assert_eq!(store.channels.len(), 1);
    assert_eq!(store.channels[0].id, 5);
}

#[test]
fn window_advances_during_flow() {
    let mut store = fresh_store();
    store.set_chat_mode(1, ChatMode::FreeResponse);
    let small = EngineConfig { window_threshold: 1, max_attempts: 1 };
    let judge_events = vec![ProviderEvent::Returned(Some("{\"should_reply\":false}".to_owned()))];
    let chat = ProviderEvent::Returned(None);
    let outcome = handle_message(&mut store, &small, &inbound(10, 1, false), &judge_events, &chat, &receipt(11));
    assert!(outcome.engaged);
    // selection was the single inbound message; the window advanced to its time
    assert_eq!(store.channels[0].context_window, 1010);
}

#[test]
fn reply_reference_resolution() {
    let mut store = fresh_store();
    let judge_events = vec![yes(), yes(), yes()];
    let silent = ProviderEvent::Returned(None);
    handle_message(&mut store, &cfg(), &inbound(10, 1, true), &judge_events, &silent, &receipt(11));
    // a reply to a stored message resolves author and contents
    let mut second = inbound(20, 1, true);
    second.reply = Some(10);
    handle_message(&mut store, &cfg(), &second, &judge_events, &silent, &receipt(21));
    let row = &store.messages[1];
    assert_eq!(row.reply, Some(10));
    assert_eq!(row.reply_sender_name.as_deref(), Some("alice"));
    assert_eq!(row.reply_contents.as_deref(), Some("hello there"));
    // a dangling reference is tolerated as absent
    let mut third = inbound(30, 1, true);
    third.reply = Some(999);
    handle_message(&mut store, &cfg(), &third, &judge_events, &silent, &receipt(31));
    let row = &store.messages[2];
    assert_eq!(row.reply, None);
    assert_eq!(row.reply_sender_name, None);
}

#[test]
fn disposition_of_inbound_events() {
    assert_eq!(inbound_disposition(true, "anything"), Disposition::Ignore);
    assert_eq!(
        inbound_disposition(
            false,
            "https://tenor.com/view/no-witnesses-erase-memory-forget-gif-20806865"
        ),
        Disposition::ResetTrigger
    );
    assert_eq!(inbound_disposition(false, "hello"), Disposition::Process);
}

#[test]
fn sampling_profiles() {
    let judge = judge_sampling();
    assert!(judge.deterministic);
    assert!(!judge.nucleus);
    assert_eq!(judge.candidates, 1);
    assert!(!judge.stream);
    let chat = chat_sampling();
    assert!(!chat.deterministic);
    assert!(chat.nucleus);
    assert_eq!(chat.candidates, 1);
    assert!(!chat.stream);
}

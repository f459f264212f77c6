//! Administrative command logic and the chat-mode codec.

use lumi::commands::{
    CommandKind, chat_mode_command, command_error_text, generation_error_text, parse_command,
    reload_response, reset_context_command, system_prompt_command, unknown_command_text,
};
use lumi::model::{ChatError, ChatMode, SystemPrompt};
use lumi::store::Store;

fn fresh_store() -> Store {
    Store::new(SystemPrompt { id: 1, name: "judge".to_owned(), contents: "judge prompt".to_owned() })
}

#[test]
fn chat_mode_codec() {
    assert_eq!(ChatMode::from_str("free_response"), Ok(ChatMode::FreeResponse));
    assert_eq!(ChatMode::from_str("mentions_only"), Ok(ChatMode::MentionsOnly));
    assert_eq!(
        ChatMode::from_str("mentions_only_all_context"),
        Ok(ChatMode::MentionsOnlyAllContext)
    );
    assert_eq!(ChatMode::from_str("Free Response"), Err(ChatError::InvalidChatMode));
    assert_eq!(ChatMode::from_str(""), Err(ChatError::InvalidChatMode));
    assert_eq!(ChatMode::FreeResponse.to_string(), "Free Response");
    assert_eq!(ChatMode::MentionsOnly.to_string(), "Mentions Only");
    assert_eq!(ChatMode::MentionsOnlyAllContext.to_string(), "Mentions Only All Context");
}

#[test]
fn command_dispatch() {
    assert_eq!(parse_command("reload"), Some(CommandKind::Reload));
    assert_eq!(parse_command("reset_context"), Some(CommandKind::ResetContext));
    assert_eq!(parse_command("system_prompt"), Some(CommandKind::SystemPrompt));
    assert_eq!(parse_command("chat_mode"), Some(CommandKind::ChatMode));
    assert_eq!(parse_command("unheard_of"), None);
    assert_eq!(unknown_command_text(), "Unknown command :(");
}

#[test]
fn error_texts() {
    assert_eq!(
        command_error_text("boom"),
        "Encountered an error while executing command:\n```\nboom\n```"
    );
    assert_eq!(generation_error_text("boom"), "Encountered an error:\n```\nboom\n```");
    assert_eq!(reload_response(), "Reloaded config!");
}

#[test]
fn chat_mode_command_set_and_query() {
    let mut store = fresh_store();
    let unset = chat_mode_command(&mut store, 1, None).unwrap();
    assert_eq!(unset, "Lumi does not have a chat mode set for this channel");
    let set = chat_mode_command(&mut store, 1, Some("free_response")).unwrap();
    assert_eq!(set, "Updated Lumi's chat mode to Free Response");
    assert_eq!(store.channels[0].chat_mode, ChatMode::FreeResponse);
    let query = chat_mode_command(&mut store, 1, None).unwrap();
    assert_eq!(query, "Lumi's current chat mode is Free Response");
    let invalid = chat_mode_command(&mut store, 1, Some("loud"));
    assert_eq!(invalid, Err(ChatError::InvalidChatMode));
}

#[test]
fn system_prompt_command_set_and_query() {
    let mut store = fresh_store();
    assert!(store.add_prompt(SystemPrompt {
        id: 2,
        name: "friendly".to_owned(),
        contents: "be friendly".to_owned(),
    }));
    let unset = system_prompt_command(&mut store, 1, None).unwrap();
    assert_eq!(unset, "Lumi does not have a system prompt set for this channel");
    // pointing a channel at a prompt needs the channel row to exist
    store.ensure_channel(1);
    let set = system_prompt_command(&mut store, 1, Some("friendly")).unwrap();
    assert_eq!(set, "Set Lumi's system prompt to '`friendly`'");
    assert_eq!(store.channels[0].system_prompt, 2);
    let query = system_prompt_command(&mut store, 1, None).unwrap();
    assert_eq!(query, "Lumi's current system prompt is '`friendly`'");
    let missing = system_prompt_command(&mut store, 1, Some("nonexistent"));
    assert_eq!(missing, Err(ChatError::UnknownSystemPrompt));
}

#[test]
fn reset_context_command_moves_window_to_now() {
    let mut store = fresh_store();
    store.ensure_channel(1);
    let response = reset_context_command(&mut store, 1, 123456);
    assert_eq!(response, "Reset context!");
    assert_eq!(store.channels[0].context_window, 123456);
    // resetting an unknown channel is a tolerated no-op
    let response = reset_context_command(&mut store, 99, 42);
    assert_eq!(response, "Reset context!");
    assert_eq!(store.channels.len(), 1);
}

#[test]
fn duplicate_prompt_id_rejected() {
    let mut store = fresh_store();
    let added = store.add_prompt(SystemPrompt {
        id: 1,
        name: "imposter".to_owned(),
        contents: "other".to_owned(),
    });
    assert!(!added);
    assert_eq!(store.prompts.len(), 1);
}

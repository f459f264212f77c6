//! Window selection/advance, prompt construction and the judgment format.

use lumi::judge::{JudgeEngine, JudgeOutcome, JudgeStep, judge_run, repair_message};
use lumi::judgment::{ShouldReply, parse_judgment, render_judgment};
use lumi::model::{ChatMode, Message, SystemPrompt};
use lumi::prompt::{Role, build_contexts, render_message, truncate_preview};
use lumi::store::Store;
use lumi::window::select_window;

fn msg(id: u64, channel: u64, time: u64, mentions_self: bool, is_self: bool) -> Message {
    Message {
        id,
        is_self,
        mentions_self,
        sender: 100 + id,
        sender_name: format!("sender{id}"),
        sender_display_name: format!("Sender {id}"),
        guild: Some(7),
        channel,
        contents: format!("message {id}"),
        reply: None,
        time,
        reply_sender_name: None,
        reply_contents: None,
    }
}

fn prompt_row(id: i64, name: &str, contents: &str) -> SystemPrompt {
    SystemPrompt { id, name: name.to_owned(), contents: contents.to_owned() }
}

fn store_with_messages(channel: u64, msgs: Vec<Message>) -> (Store, usize) {
    let mut store = Store::new(prompt_row(1, "judge", "judge prompt"));
    let idx = store.ensure_channel(channel);
    for m in msgs {
        store.append_message(m);
    }
    (store, idx)
}

#[test]
fn window_advance_sets_median_time() {
    let msgs = vec![
        msg(1, 1, 10, false, false),
        msg(2, 1, 20, false, false),
        msg(3, 1, 30, false, false),
        msg(4, 1, 40, false, false),
    ];
    let (mut store, idx) = store_with_messages(1, msgs);
    let selected = store.window_pass(idx, ChatMode::FreeResponse, 4);
    assert_eq!(selected.len(), 4);
    // median position 4 / 2 = 2, whose time is 30
    assert_eq!(store.channels[idx].context_window, 30);
    // the advanced window drops the first half from the next selection
    let second = store.window_pass(idx, ChatMode::FreeResponse, 4);
    assert_eq!(second.len(), 1);
    assert_eq!(second[0].id, 4);
}

#[test]
fn window_does_not_advance_below_threshold() {
    let msgs = vec![msg(1, 1, 10, false, false), msg(2, 1, 20, false, false)];
    let (mut store, idx) = store_with_messages(1, msgs);
    let selected = store.window_pass(idx, ChatMode::FreeResponse, 10);
    assert_eq!(selected.len(), 2);
    assert_eq!(store.channels[idx].context_window, 0);
}

#[test]
fn window_filtering_idempotent_without_advance() {
    let msgs = vec![msg(1, 1, 10, false, false), msg(2, 1, 20, false, false)];
    let (mut store, idx) = store_with_messages(1, msgs);
    let first = store.window_pass(idx, ChatMode::FreeResponse, 10);
    let second = store.window_pass(idx, ChatMode::FreeResponse, 10);
    let first_ids: Vec<u64> = first.iter().map(|m| m.id).collect();
    let second_ids: Vec<u64> = second.iter().map(|m| m.id).collect();
    assert_eq!(first_ids, second_ids);
    assert_eq!(store.channels[idx].context_window, 0);
}

#[test]
fn window_threshold_one_singleton_advances() {
    let msgs = vec![msg(1, 1, 10, false, false)];
    let (mut store, idx) = store_with_messages(1, msgs);
    let selected = store.window_pass(idx, ChatMode::FreeResponse, 1);
    assert_eq!(selected.len(), 1);
    // singleton list: median position 0, no crash, advance to its time
    assert_eq!(store.channels[idx].context_window, 10);
}

#[test]
fn window_threshold_zero_empty_selection_no_advance() {
    let (mut store, idx) = store_with_messages(1, vec![]);
    let selected = store.window_pass(idx, ChatMode::FreeResponse, 0);
    assert_eq!(selected.len(), 0);
    assert_eq!(store.channels[idx].context_window, 0);
}

#[test]
fn mentions_only_selects_addressing_messages() {
    let msgs = vec![
        msg(1, 1, 10, false, false),
        msg(2, 1, 20, true, false),
        msg(3, 1, 30, false, false),
        msg(4, 2, 40, true, false),
    ];
    let selected = select_window(&msgs, 1, 0, ChatMode::MentionsOnly);
    let ids: Vec<u64> = selected.iter().map(|m| m.id).collect();
    assert_eq!(ids, vec![2]);
    let all = select_window(&msgs, 1, 0, ChatMode::MentionsOnlyAllContext);
    let all_ids: Vec<u64> = all.iter().map(|m| m.id).collect();
    assert_eq!(all_ids, vec![1, 2, 3]);
}

#[test]
fn selection_respects_window_cutoff() {
    let msgs = vec![msg(1, 1, 10, false, false), msg(2, 1, 20, false, false)];
    let selected = select_window(&msgs, 1, 10, ChatMode::FreeResponse);
    let ids: Vec<u64> = selected.iter().map(|m| m.id).collect();
    assert_eq!(ids, vec![2]);
}

#[test]
fn prompt_length_law() {
    let msgs = vec![
        msg(1, 1, 10, false, false),
        msg(2, 1, 20, false, true),
        msg(3, 1, 30, false, false),
    ];
    let contexts = build_contexts("chat prompt", "judge prompt", &msgs);
    assert_eq!(contexts.chat_context.len(), 1 + 3);
    assert_eq!(contexts.social_context.len(), 1 + 2 * 3);
    assert_eq!(contexts.chat_context[0].role, Role::System);
    assert_eq!(contexts.chat_context[0].content, "chat prompt");
    assert_eq!(contexts.social_context[0].content, "judge prompt");
}

#[test]
fn prompt_turns_follow_template_and_roles() {
    let own = msg(2, 1, 20, false, true);
    let msgs = vec![msg(1, 1, 10, false, false), own];
    let contexts = build_contexts("chat", "judge", &msgs);
    assert_eq!(contexts.chat_context[1].role, Role::User);
    assert_eq!(
        contexts.chat_context[1].content,
        "Author Name: Sender 1\nAuthor ID: sender1\nContents:\nmessage 1"
    );
    // own messages go out verbatim as assistant turns
    assert_eq!(contexts.chat_context[2].role, Role::Assistant);
    assert_eq!(contexts.chat_context[2].content, "message 2");
    // the judge sees a demonstration judgment before each rendered turn
    assert_eq!(contexts.social_context[1].role, Role::Assistant);
    assert_eq!(contexts.social_context[1].content, "{\"should_reply\":false}");
    assert_eq!(contexts.social_context[2].role, Role::User);
    assert_eq!(contexts.social_context[3].content, "{\"should_reply\":true}");
    assert_eq!(
        contexts.social_context[4].content,
        "Author Name: Sender 2\nAuthor ID: sender2\nContents:\nmessage 2"
    );
}

#[test]
fn reply_preview_truncated_and_newline_free() {
    let long: String = "ab\ncd".repeat(40);
    let preview = truncate_preview(&long);
    assert_eq!(preview.chars().count(), 128);
    assert!(!preview.contains('\n'));
    assert!(preview.starts_with("ab cd"));
}

#[test]
fn preview_collapses_newlines_exactly() {
    assert_eq!(truncate_preview("ab\ncd"), "ab cd");
    assert_eq!(truncate_preview(""), "");
    assert_eq!(truncate_preview("short"), "short");
}

#[test]
fn rendered_reply_header() {
    let mut m = msg(3, 1, 30, false, false);
    m.reply = Some(1);
    m.reply_sender_name = Some("original".to_owned());
    m.reply_contents = Some("first\nline".to_owned());
    let rendered = render_message(&m);
    assert_eq!(
        rendered,
        "Replying to:\n\tReferenced Author ID: original\n\tReferenced Truncated Contents: first line\n\
         Author Name: Sender 3\nAuthor ID: sender3\nContents:\nmessage 3"
    );
}

#[test]
fn judgment_round_trip() {
    assert_eq!(render_judgment(true), "{\"should_reply\":true}");
    assert_eq!(render_judgment(false), "{\"should_reply\":false}");
    assert_eq!(parse_judgment(&render_judgment(true)), Some(ShouldReply { should_reply: true }));
    assert_eq!(parse_judgment(&render_judgment(false)), Some(ShouldReply { should_reply: false }));
}

#[test]
fn judgment_accepts_whitespace_at_boundaries() {
    let parsed = parse_judgment(" {\n\t\"should_reply\" : true\r\n} ");
    assert_eq!(parsed, Some(ShouldReply { should_reply: true }));
}

#[test]
fn judgment_rejects_malformed_output() {
    assert_eq!(parse_judgment(""), None);
    assert_eq!(parse_judgment("yes"), None);
    assert_eq!(parse_judgment("{\"should_reply\":1}"), None);
    assert_eq!(parse_judgment("{\"should_reply\":true} trailing"), None);
    assert_eq!(parse_judgment("{\"other\":true}"), None);
    assert_eq!(parse_judgment("{\"should_reply\":true"), None);
    assert_eq!(parse_judgment("{\"should_ reply\":true}"), None);
    assert_eq!(parse_judgment("true"), None);
}

#[test]
fn judge_retry_bound_exhaustion() {
    let responses = vec!["nope".to_owned(), "still no".to_owned(), "garbage".to_owned()];
    let (outcome, attempts) = judge_run(vec![], 3, &responses);
    assert_eq!(outcome, JudgeOutcome::Failed);
    assert_eq!(attempts, 3);
}

#[test]
fn judge_retry_bound_success_on_later_attempt() {
    let responses = vec![
        "malformed".to_owned(),
        "{\"should_reply\":true}".to_owned(),
        "unused".to_owned(),
    ];
    let (outcome, attempts) = judge_run(vec![], 3, &responses);
    assert_eq!(outcome, JudgeOutcome::Decided(true));
    assert_eq!(attempts, 2);
}

#[test]
fn judge_retry_appends_repair_instruction() {
    let mut engine = JudgeEngine::new(2, vec![]);
    let step = engine.observe("not json");
    assert_eq!(step, JudgeStep::Retry);
    assert_eq!(engine.attempts_left, 1);
    assert_eq!(engine.context.len(), 1);
    assert_eq!(engine.context[0].role, Role::System);
    assert_eq!(engine.context[0].content, repair_message().content);
    let step = engine.observe("still not json");
    assert_eq!(step, JudgeStep::Failed);
    // a decisive response never consumes an attempt
    let mut fresh = JudgeEngine::new(1, vec![]);
    assert_eq!(fresh.observe("{\"should_reply\":false}"), JudgeStep::Decided(false));
    assert_eq!(fresh.attempts_left, 1);
}

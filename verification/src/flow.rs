//! The per-message flow: record the inbound message, gate on the channel's
//! policy, run one windowed read with conditional advance, consult the judge
//! when the agent was not addressed, and send-then-persist the reply. All
//! outside work (judge responses, the chat completion, the platform send) is
//! handed in as plain events, so the decisions are verified for every outcome
//! those can take.

use vstd::prelude::*;

verus! {

use vstd::string::StrSliceExecFns;
use crate::model::{ChatError, ChatMode, Channel, Message, JUDGE_PROMPT_ID, str_eq};
use crate::store::{Store, has_channel, has_message, channel_index, message_index, default_channel,
    effective_mode};
use crate::window::{spec_select, post_window};
use crate::prompt::build_contexts;
use crate::prompt::PromptMessage;
use crate::judge::JudgeEngine;
use crate::judge::JudgeStep;
use crate::judgment::judgment_of;

/// The tunable knobs of the flow: the window-size threshold and the judge's
/// attempt budget.
pub struct EngineConfig {
    pub window_threshold: usize,
    pub max_attempts: i64,
}

/// An inbound platform message, reduced to the plain values the flow reads.
pub struct InboundMessage {
    pub id: u64,
    pub mentions_self: bool,
    pub sender: u64,
    pub sender_name: String,
    pub sender_display_name: String,
    pub guild: Option<u64>,
    pub channel: u64,
    pub contents: String,
    pub reply: Option<u64>,
    pub time: u64,
}

/// One completion-provider response: a transport failure, or a candidate
/// whose text content may be absent.
pub enum ProviderEvent {
    Failed,
    Returned(Option<String>),
}

/// What the platform reported for a successfully sent outgoing message.
pub struct SendReceipt {
    pub message_id: u64,
    pub time: u64,
    pub author: u64,
    pub author_name: String,
    pub author_display_name: String,
}

/// The outcome of the outgoing send.
pub enum SendEvent {
    Sent(SendReceipt),
    SendFailed,
}

/// What one engaged flow did: the judge's verdict when it was consulted, how
/// many judge attempts were made, and whether a reply was sent and persisted.
#[derive(Clone, Copy, Debug, PartialEq, Eq, Structural)]
pub struct GenerateReport {
    pub decision: Option<bool>,
    pub attempts: usize,
    pub replied: bool,
}

/// The outcome of handling one inbound message.
pub struct FlowOutcome {
    pub mode: ChatMode,
    pub engaged: bool,
    pub report: Result<GenerateReport, ChatError>,
}

/// How an inbound platform event is handled before the flow proper.
#[derive(Clone, Copy, Debug, PartialEq, Eq, Structural)]
pub enum Disposition {
    /// Bot-authored: ignored entirely.
    Ignore,
    /// The reset trigger: reset the channel's context instead of replying.
    ResetTrigger,
    /// Ordinary message: run the flow.
    Process,
}

/// The message text that triggers a context reset.
pub open spec fn reset_trigger() -> Seq<char> {
    "https://tenor.com/view/no-witnesses-erase-memory-forget-gif-20806865"@
}

/// What [`inbound_disposition`] decides for a given author and text.
pub open spec fn spec_disposition(author_is_bot: bool, contents: Seq<char>) -> Disposition {
    if author_is_bot {
        Disposition::Ignore
    } else if contents == reset_trigger() {
        Disposition::ResetTrigger
    } else {
        Disposition::Process
    }
}

/// Decides how an inbound platform event is handled: bot authors are ignored,
/// the reset trigger resets the channel's context, everything else runs the
/// flow.
pub fn inbound_disposition(author_is_bot: bool, contents: &str) -> (r: Disposition)
    ensures
        r == spec_disposition(author_is_bot, contents@),
{
    if author_is_bot {
        Disposition::Ignore
    } else if str_eq(
        contents,
        "https://tenor.com/view/no-witnesses-erase-memory-forget-gif-20806865",
    ) {
        Disposition::ResetTrigger
    } else {
        Disposition::Process
    }
}

/// The sampling profile of a completion request. Judge requests are
/// deterministic (zero temperature, no nucleus sampling); chat requests are
/// creative (non-zero temperature with nucleus sampling). Both ask for a
/// single candidate without streaming.
#[derive(Clone, Copy, Debug, PartialEq, Eq, Structural)]
pub struct SamplingSpec {
    pub deterministic: bool,
    pub nucleus: bool,
    pub candidates: u8,
    pub stream: bool,
}

/// The judge's sampling profile: deterministic, one candidate, no streaming.
pub fn judge_sampling() -> (r: SamplingSpec)
    ensures
        r == (SamplingSpec { deterministic: true, nucleus: false, candidates: 1, stream: false }),
{
    SamplingSpec { deterministic: true, nucleus: false, candidates: 1, stream: false }
}

/// The chat sampling profile: creative with nucleus sampling, one candidate,
/// no streaming.
pub fn chat_sampling() -> (r: SamplingSpec)
    ensures
        r == (SamplingSpec { deterministic: false, nucleus: true, candidates: 1, stream: false }),
{
    SamplingSpec { deterministic: false, nucleus: true, candidates: 1, stream: false }
}

/// The text a provider event is parsed from: absent content reads as empty.
pub open spec fn event_text(e: ProviderEvent) -> Seq<char> {
    match e {
        ProviderEvent::Failed => Seq::<char>::empty(),
        ProviderEvent::Returned(opt) => match opt {
            Some(s) => s@,
            None => Seq::<char>::empty(),
        },
    }
}

/// The verdict and attempt count the judge loop reaches over a sequence of
/// provider events with the given attempt budget: a transport failure
/// propagates, a well-formed judgment decides, malformed output retries until
/// the budget is exhausted.
pub open spec fn spec_judge_events(attempts: int, events: Seq<ProviderEvent>) -> Result<
    (bool, int),
    ChatError,
>
    decreases events.len(),
{
    if events.len() == 0 {
        Err(ChatError::ProviderFailed)
    } else if events[0] is Failed {
        Err(ChatError::ProviderFailed)
    } else {
        match judgment_of(event_text(events[0])) {
            Some(b) => Ok((b, 1)),
            None => if attempts - 1 <= 0 {
                Err(ChatError::JudgeExhausted)
            } else {
                match spec_judge_events(attempts - 1, events.drop_first()) {
                    Ok(p) => Ok((p.0, p.1 + 1)),
                    Err(e) => Err(e),
                }
            },
        }
    }
}

/// The decision phase: a direct address short-circuits the judge; otherwise
/// the judge loop runs.
pub open spec fn spec_decision(mentions: bool, attempts: int, events: Seq<ProviderEvent>) -> Result<
    (Option<bool>, int),
    ChatError,
> {
    if mentions {
        Ok((None, 0))
    } else {
        match spec_judge_events(attempts, events) {
            Ok(p) => Ok((Some(p.0), p.1)),
            Err(e) => Err(e),
        }
    }
}

/// Whether the flow proceeds to reply generation.
pub open spec fn spec_should_reply(mentions: bool, decision: Option<bool>) -> bool {
    mentions || decision == Some(true)
}

/// The reply text of a chat completion event: empty or absent content means
/// the agent chooses not to speak.
pub open spec fn spec_reply_text(e: ProviderEvent) -> Option<Seq<char>> {
    match e {
        ProviderEvent::Failed => None,
        ProviderEvent::Returned(opt) => match opt {
            Some(s) => if s@.len() == 0 {
                None
            } else {
                Some(s@)
            },
            None => None,
        },
    }
}

/// How the stored row of an inbound message relates to the platform event it
/// came from and the history it was inserted after: plain fields copied, the
/// reply reference kept only when it resolved, and the resolved author and
/// contents denormalized alongside.
pub open spec fn inbound_matches(m: Message, inbound: InboundMessage, prior: Seq<Message>) -> bool {
    &&& m.id == inbound.id
    &&& m.is_self == false
    &&& m.mentions_self == inbound.mentions_self
    &&& m.sender == inbound.sender
    &&& m.sender_name@ == inbound.sender_name@
    &&& m.sender_display_name@ == inbound.sender_display_name@
    &&& m.guild == inbound.guild
    &&& m.channel == inbound.channel
    &&& m.contents@ == inbound.contents@
    &&& m.time == inbound.time
    &&& match inbound.reply {
        Some(rid) => if has_message(prior, rid) {
            &&& m.reply == Some(rid)
            &&& m.reply_sender_name matches Some(n) && n@ == prior[message_index(
                prior,
                rid,
            )].sender_name@
            &&& m.reply_contents matches Some(c) && c@ == prior[message_index(prior, rid)].contents@
        } else {
            m.reply is None && m.reply_sender_name is None && m.reply_contents is None
        },
        None => m.reply is None && m.reply_sender_name is None && m.reply_contents is None,
    }
}

/// How the stored row of an outgoing reply relates to the sent text, the
/// platform receipt and the triggering inbound row in `prior`.
pub open spec fn outgoing_matches(
    m: Message,
    text: Seq<char>,
    rc: SendReceipt,
    inbound_id: u64,
    prior: Seq<Message>,
) -> bool {
    let inb = prior[message_index(prior, inbound_id)];
    &&& m.id == rc.message_id
    &&& m.is_self == true
    &&& m.mentions_self == true
    &&& m.sender == rc.author
    &&& m.sender_name@ == rc.author_name@
    &&& m.sender_display_name@ == rc.author_display_name@
    &&& m.guild == inb.guild
    &&& m.channel == inb.channel
    &&& m.contents@ == text
    &&& m.reply == Some(inbound_id)
    &&& m.time == rc.time
    &&& m.reply_sender_name matches Some(n) && n@ == inb.sender_name@
    &&& m.reply_contents matches Some(c) && c@ == inb.contents@
}

/// A report with the given fields.
pub open spec fn reply_outcome_ok(
    r: Result<GenerateReport, ChatError>,
    dec: Option<bool>,
    att: int,
    replied: bool,
) -> bool {
    r matches Ok(rep) && rep.decision == dec && rep.attempts as int == att && rep.replied
        == replied
}

/// The full post-state of the reply phase: what the result is and what the
/// message table became, for every combination of judge events, chat event
/// and send outcome. If the send fails (or the agent chooses silence, or any
/// provider call fails), no outgoing row is appended; only a successful send
/// appends exactly one.
pub open spec fn spec_generate_post(
    r: Result<GenerateReport, ChatError>,
    pre_msgs: Seq<Message>,
    post_msgs: Seq<Message>,
    mentions: bool,
    max_attempts: int,
    judge_events: Seq<ProviderEvent>,
    chat_event: ProviderEvent,
    send_event: SendEvent,
    inbound_id: u64,
) -> bool {
    match spec_decision(mentions, max_attempts, judge_events) {
        Err(e) => r == Err::<GenerateReport, ChatError>(e) && post_msgs == pre_msgs,
        Ok(p) => if !spec_should_reply(mentions, p.0) {
            reply_outcome_ok(r, p.0, p.1, false) && post_msgs == pre_msgs
        } else {
            match chat_event {
                ProviderEvent::Failed => r == Err::<GenerateReport, ChatError>(
                    ChatError::ProviderFailed,
                ) && post_msgs == pre_msgs,
                ProviderEvent::Returned(_) => match spec_reply_text(chat_event) {
                    None => reply_outcome_ok(r, p.0, p.1, false) && post_msgs == pre_msgs,
                    Some(text) => match send_event {
                        SendEvent::SendFailed => reply_outcome_ok(r, p.0, p.1, false) && post_msgs
                            == pre_msgs,
                        SendEvent::Sent(rc) => {
                            &&& reply_outcome_ok(r, p.0, p.1, true)
                            &&& post_msgs == pre_msgs.push(post_msgs.last())
                            &&& outgoing_matches(post_msgs.last(), text, rc, inbound_id, pre_msgs)
                        },
                    },
                },
            }
        },
    }
}

/// Transactional atomicity of the reply phase: when the outgoing send fails
/// (or no reply is made for any other reason), the committed history is
/// exactly what it was after the inbound insert — no outgoing row; when a
/// reply was sent, exactly one outgoing row referencing the inbound message
/// is committed alongside it.
pub proof fn lemma_send_atomicity(
    r: Result<GenerateReport, ChatError>,
    pre_msgs: Seq<Message>,
    post_msgs: Seq<Message>,
    mentions: bool,
    max_attempts: int,
    judge_events: Seq<ProviderEvent>,
    chat_event: ProviderEvent,
    send_event: SendEvent,
    inbound_id: u64,
)
    requires
        spec_generate_post(
            r,
            pre_msgs,
            post_msgs,
            mentions,
            max_attempts,
            judge_events,
            chat_event,
            send_event,
            inbound_id,
        ),
    ensures
        send_event is SendFailed ==> post_msgs == pre_msgs,
        (r matches Ok(rep) && rep.replied) ==> post_msgs.len() == pre_msgs.len() + 1
            && post_msgs.last().is_self && post_msgs.last().reply == Some(inbound_id)
            && post_msgs.subrange(0, pre_msgs.len() as int) == pre_msgs,
        !(r matches Ok(rep) && rep.replied) ==> post_msgs == pre_msgs,
{
    if r matches Ok(rep) && rep.replied {
        assert(post_msgs.subrange(0, pre_msgs.len() as int) =~= pre_msgs);
    }
}

/// The judge loop: requests a judgment over the judge context, feeding each
/// provider response to the engine until a verdict arrives, the budget is
/// exhausted, or the provider fails outright.
fn run_judge_loop(
    context: Vec<PromptMessage>,
    cfg: &EngineConfig,
    judge_events: &Vec<ProviderEvent>,
) -> (r: Result<(bool, usize), ChatError>)
    requires
        cfg.max_attempts >= 1,
        judge_events@.len() >= cfg.max_attempts,
    ensures
        ({
            match spec_judge_events(cfg.max_attempts as int, judge_events@) {
                Ok(p) => r matches Ok(q) && q.0 == p.0 && q.1 as int == p.1,
                Err(e) => r == Err::<(bool, usize), ChatError>(e),
            }
        }),
{
    let mut engine = JudgeEngine::new(cfg.max_attempts, context);
    let mut e: usize = 0;
    proof {
        assert(judge_events@.skip(0) =~= judge_events@);
    }
    while e < judge_events.len()
        invariant
            cfg.max_attempts >= 1,
            judge_events@.len() >= cfg.max_attempts,
            e <= judge_events@.len(),
            engine.attempts_left == cfg.max_attempts - e,
            engine.attempts_left >= 1,
            spec_judge_events(cfg.max_attempts as int, judge_events@) == match spec_judge_events(
                engine.attempts_left as int,
                judge_events@.skip(e as int),
            ) {
                Ok(p) => Ok::<(bool, int), ChatError>((p.0, p.1 + e)),
                Err(er) => Err(er),
            },
        decreases judge_events@.len() - e,
    {
        proof {
            assert(judge_events@.skip(e as int)[0] == judge_events@[e as int]);
            assert(judge_events@.skip(e as int).drop_first() =~= judge_events@.skip(e + 1 as int));
        }
        match &judge_events[e] {
            ProviderEvent::Failed => {
                return Err(ChatError::ProviderFailed);
            },
            ProviderEvent::Returned(opt) => {
                let text: &str = match opt {
                    Some(t) => t.as_str(),
                    None => "",
                };
                proof {
                    reveal_strlit("");
                    assert(""@ =~= Seq::<char>::empty());
                    assert(text@ == event_text(judge_events@[e as int]));
                }
                match engine.observe(text) {
                    JudgeStep::Decided(b) => {
                        return Ok((b, e + 1));
                    },
                    JudgeStep::Failed => {
                        return Err(ChatError::JudgeExhausted);
                    },
                    JudgeStep::Retry => {
                        e += 1;
                    },
                }
            },
        }
    }
    proof {
        assert(false);
    }
    Err(ChatError::ProviderFailed)
}

/// The reply phase of one engaged flow (the inbound row is already stored):
/// one windowed read with conditional advance, both prompt contexts, the
/// judge loop when the agent was not addressed, then the chat completion and
/// the send-then-persist step.
pub fn generate(
    store: &mut Store,
    cfg: &EngineConfig,
    idx: usize,
    mode: ChatMode,
    mentions_me: bool,
    inbound_id: u64,
    judge_events: &Vec<ProviderEvent>,
    chat_event: &ProviderEvent,
    send_event: &SendEvent,
) -> (r: Result<GenerateReport, ChatError>)
    requires
        old(store).wf(),
        idx < old(store).channels@.len(),
        cfg.max_attempts >= 1,
        judge_events@.len() >= cfg.max_attempts,
        has_message(old(store).messages@, inbound_id),
        send_event matches SendEvent::Sent(rc) ==> old(store).messages@.len() > 0
            && rc.message_id > old(store).messages@.last().id,
    ensures
        final(store).wf(),
        final(store).prompts@ == old(store).prompts@,
        ({
            let ch = old(store).channels@[idx as int];
            let sel = spec_select(old(store).messages@, ch.id, ch.context_window, mode);
            final(store).channels@ == old(store).channels@.update(
                idx as int,
                Channel {
                    context_window: post_window(ch.context_window, sel, cfg.window_threshold),
                    ..ch
                },
            )
        }),
        spec_generate_post(
            r,
            old(store).messages@,
            final(store).messages@,
            mentions_me,
            cfg.max_attempts as int,
            judge_events@,
            *chat_event,
            *send_event,
            inbound_id,
        ),
{
    let selected = store.window_pass(idx, mode, cfg.window_threshold);
    proof {
        assert forall|i: int| 0 <= i < selected@.len() implies (#[trigger] selected@[i]).wf() by {
            assert(store.messages@.contains(selected@[i]));
            let k = choose|k: int|
                0 <= k < store.messages@.len() && store.messages@[k] == selected@[i];
            assert(store.messages@[k].wf());
        }
    }
    let prompt_id = store.channels[idx].system_prompt;
    let chat_prompt = store.prompt_contents(prompt_id);
    let judge_prompt = store.prompt_contents(JUDGE_PROMPT_ID);
    let contexts = build_contexts(chat_prompt.as_str(), judge_prompt.as_str(), &selected);

    let decision: Option<bool>;
    let attempts: usize;
    if mentions_me {
        decision = None;
        attempts = 0;
    } else {
        match run_judge_loop(contexts.social_context, cfg, judge_events) {
            Ok((verdict, used)) => {
                decision = Some(verdict);
                attempts = used;
            },
            Err(e) => {
                return Err(e);
            },
        }
    }

    let should = mentions_me || matches!(decision, Some(true));
    if !should {
        return Ok(GenerateReport { decision, attempts, replied: false });
    }

    match chat_event {
        ProviderEvent::Failed => Err(ChatError::ProviderFailed),
        ProviderEvent::Returned(opt) => {
            let content: &String = match opt {
                Some(t) => t,
                None => {
                    return Ok(GenerateReport { decision, attempts, replied: false });
                },
            };
            if content.as_str().unicode_len() == 0 {
                return Ok(GenerateReport { decision, attempts, replied: false });
            }
            match send_event {
                SendEvent::SendFailed => Ok(GenerateReport { decision, attempts, replied: false }),
                SendEvent::Sent(rc) => {
                    let k = match store.find_message(inbound_id) {
                        Some(k) => k,
                        None => {
                            proof {
                                assert(false);
                            }
                            return Err(ChatError::ProviderFailed);
                        },
                    };
                    let inb_channel = store.messages[k].channel;
                    let inb_guild = store.messages[k].guild;
                    let (reply_name, reply_contents) = store.resolve_reply(Some(inbound_id));
                    let outgoing = Message {
                        id: rc.message_id,
                        is_self: true,
                        mentions_self: true,
                        sender: rc.author,
                        sender_name: rc.author_name.clone(),
                        sender_display_name: rc.author_display_name.clone(),
                        guild: inb_guild,
                        channel: inb_channel,
                        contents: content.clone(),
                        reply: Some(inbound_id),
                        time: rc.time,
                        reply_sender_name: reply_name,
                        reply_contents: reply_contents,
                    };
                    store.append_message(outgoing);
                    Ok(GenerateReport { decision, attempts, replied: true })
                },
            }
        },
    }
}

/// Handles one inbound message end to end: reads the governing mode, ensures
/// the channel row, records the inbound message (always, whatever the reply
/// phase does), and runs the reply phase exactly when the agent was addressed
/// or the channel allows unprompted speech.
pub fn handle_message(
    store: &mut Store,
    cfg: &EngineConfig,
    inbound: &InboundMessage,
    judge_events: &Vec<ProviderEvent>,
    chat_event: &ProviderEvent,
    send_event: &SendEvent,
) -> (r: FlowOutcome)
    requires
        old(store).wf(),
        old(store).messages@.len() > 0 ==> inbound.id > old(store).messages@.last().id,
        cfg.max_attempts >= 1,
        judge_events@.len() >= cfg.max_attempts,
        send_event matches SendEvent::Sent(rc) ==> rc.message_id > inbound.id,
    ensures
        final(store).wf(),
        final(store).prompts@ == old(store).prompts@,
        r.mode == effective_mode(old(store).channels@, inbound.channel),
        r.engaged == (inbound.mentions_self || r.mode == ChatMode::FreeResponse),
        final(store).messages@.len() > old(store).messages@.len(),
        final(store).messages@.subrange(0, old(store).messages@.len() as int) == old(
            store,
        ).messages@,
        inbound_matches(
            final(store).messages@[old(store).messages@.len() as int],
            *inbound,
            old(store).messages@,
        ),
        ({
            let ens = if has_channel(old(store).channels@, inbound.channel) {
                old(store).channels@
            } else {
                old(store).channels@.push(default_channel(inbound.channel))
            };
            let k = channel_index(ens, inbound.channel);
            let mid = final(store).messages@.take(old(store).messages@.len() + 1 as int);
            if !r.engaged {
                &&& final(store).channels@ == ens
                &&& final(store).messages@ == mid
                &&& r.report matches Ok(rep) && rep.decision is None && rep.attempts == 0
                    && !rep.replied
            } else {
                let sel = spec_select(mid, inbound.channel, ens[k].context_window, r.mode);
                &&& final(store).channels@ == ens.update(
                    k,
                    Channel {
                        context_window: post_window(
                            ens[k].context_window,
                            sel,
                            cfg.window_threshold,
                        ),
                        ..ens[k]
                    },
                )
                &&& spec_generate_post(
                    r.report,
                    mid,
                    final(store).messages@,
                    inbound.mentions_self,
                    cfg.max_attempts as int,
                    judge_events@,
                    *chat_event,
                    *send_event,
                    inbound.id,
                )
            }
        }),
{
    let mode = store.chat_mode_or_default(inbound.channel);
    let engaged = inbound.mentions_self || matches!(mode, ChatMode::FreeResponse);
    let idx = store.ensure_channel(inbound.channel);
    let (reply_name, reply_contents) = store.resolve_reply(inbound.reply);
    let resolved_reply: Option<u64> = if reply_name.is_some() {
        inbound.reply
    } else {
        None
    };
    let row = Message {
        id: inbound.id,
        is_self: false,
        mentions_self: inbound.mentions_self,
        sender: inbound.sender,
        sender_name: inbound.sender_name.clone(),
        sender_display_name: inbound.sender_display_name.clone(),
        guild: inbound.guild,
        channel: inbound.channel,
        contents: inbound.contents.clone(),
        reply: resolved_reply,
        time: inbound.time,
        reply_sender_name: reply_name,
        reply_contents: reply_contents,
    };
    store.append_message(row);
    if !engaged {
        proof {
            assert(store.messages@ =~= store.messages@.take(
                old(store).messages@.len() + 1 as int,
            ));
        }
        return FlowOutcome {
            mode,
            engaged,
            report: Ok(GenerateReport { decision: None, attempts: 0, replied: false }),
        };
    }
    proof {
        assert(store.messages@[old(store).messages@.len() as int].id == inbound.id);
        assert(has_message(store.messages@, inbound.id));
        assert(store.messages@.last().id == inbound.id);
    }
    let ghost pre_gen: Store = *store;
    let report = generate(
        store,
        cfg,
        idx,
        mode,
        inbound.mentions_self,
        inbound.id,
        judge_events,
        chat_event,
        send_event,
    );
    proof {
        let ens = if has_channel(old(store).channels@, inbound.channel) {
            old(store).channels@
        } else {
            old(store).channels@.push(default_channel(inbound.channel))
        };
        assert(pre_gen.channels@ =~= ens);
        let k = channel_index(ens, inbound.channel);
        assert(k == idx as int);
        let mid = store.messages@.take(old(store).messages@.len() + 1 as int);
        assert(mid =~= pre_gen.messages@);
        assert(pre_gen.channels@[idx as int].id == inbound.channel);
    }
    FlowOutcome { mode, engaged, report }
}

} // verus!

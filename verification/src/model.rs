//! Core data model: chat modes, system prompts, channels and messages.

use vstd::prelude::*;

verus! {

use vstd::string::StrSliceExecFns;
use vstd::string::StringExecFns;

/// Identifier of the system-prompt row that drives the reply-decision judge.
pub const JUDGE_PROMPT_ID: i64 = 1;

/// Errors surfaced by the library's decision and command logic.
#[derive(Clone, Copy, Debug, PartialEq, Eq, Structural)]
pub enum ChatError {
    /// A chat-mode string did not name any of the closed set of modes.
    InvalidChatMode,
    /// No system prompt with the requested name exists.
    UnknownSystemPrompt,
    /// The completion provider failed to return a response.
    ProviderFailed,
    /// The judge exhausted its attempt budget on malformed output.
    JudgeExhausted,
}

/// Per-channel policy controlling whether the agent may speak unprompted and
/// which messages count toward context.
#[derive(Clone, Copy, Debug, PartialEq, Eq, Structural)]
pub enum ChatMode {
    /// The agent may speak unprompted on every message.
    FreeResponse,
    /// The agent only responds to addressing messages, and only those enter
    /// context.
    MentionsOnly,
    /// The agent only responds when addressed, but context sees all messages.
    /// Default when a channel has no mode set.
    MentionsOnlyAllContext,
}

/// An instruction text, either the judge's fixed prompt (row
/// [`JUDGE_PROMPT_ID`]) or a chat-facing prompt a channel can point at.
pub struct SystemPrompt {
    pub id: i64,
    pub name: String,
    pub contents: String,
}

/// A channel's persistent row: its policy, its window cutoff and the prompt
/// that drives its replies.
#[derive(Clone, Copy, Debug, PartialEq, Eq, Structural)]
pub struct Channel {
    pub id: u64,
    pub chat_mode: ChatMode,
    /// Messages with `time` at or before this boundary are excluded from
    /// prompt construction. Non-decreasing over a channel's lifetime.
    pub context_window: u64,
    pub system_prompt: i64,
}

/// One stored message, own or foreign, together with the (denormalized)
/// author name and contents of the message it replies to, when that message
/// was found at insertion time.
pub struct Message {
    pub id: u64,
    pub is_self: bool,
    pub mentions_self: bool,
    pub sender: u64,
    pub sender_name: String,
    pub sender_display_name: String,
    pub guild: Option<u64>,
    pub channel: u64,
    pub contents: String,
    pub reply: Option<u64>,
    pub time: u64,
    pub reply_sender_name: Option<String>,
    pub reply_contents: Option<String>,
}

impl Message {
    /// A resolved reply carries both the referenced author and the referenced
    /// contents, or neither (a dangling reference is tolerated as "absent").
    pub open spec fn wf(self) -> bool {
        self.reply_contents is Some ==> self.reply_sender_name is Some
    }
}

impl Clone for Message {
    fn clone(&self) -> (r: Self)
        ensures
            r == *self,
    {
        let r = Message {
            id: self.id,
            is_self: self.is_self,
            mentions_self: self.mentions_self,
            sender: self.sender,
            sender_name: self.sender_name.clone(),
            sender_display_name: self.sender_display_name.clone(),
            guild: self.guild,
            channel: self.channel,
            contents: self.contents.clone(),
            reply: self.reply,
            time: self.time,
            reply_sender_name: clone_opt_string(&self.reply_sender_name),
            reply_contents: clone_opt_string(&self.reply_contents),
        };
        r
    }
}

/// Clones an optional string, keeping its value visible to the verifier.
pub fn clone_opt_string(s: &Option<String>) -> (r: Option<String>)
    ensures
        r == *s,
{
    match s {
        Some(v) => Some(v.clone()),
        None => None,
    }
}

/// Character-wise string equality, `r == (a@ == b@)`.
pub fn str_eq(a: &str, b: &str) -> (r: bool)
    ensures
        r == (a@ == b@),
{
    let alen = a.unicode_len();
    let blen = b.unicode_len();
    if alen != blen {
        return false;
    }
    let mut i: usize = 0;
    while i < alen
        invariant
            alen == a@.len(),
            alen == b@.len(),
            i <= alen,
            forall|k: int| 0 <= k < i ==> a@[k] == b@[k],
        decreases alen - i,
    {
        if a.get_char(i) != b.get_char(i) {
            return false;
        }
        i += 1;
    }
    proof {
        assert(a@ =~= b@);
    }
    true
}

/// The storage key of a chat mode.
pub open spec fn mode_key(m: ChatMode) -> Seq<char> {
    match m {
        ChatMode::FreeResponse => "free_response"@,
        ChatMode::MentionsOnly => "mentions_only"@,
        ChatMode::MentionsOnlyAllContext => "mentions_only_all_context"@,
    }
}

/// The human-readable label of a chat mode.
pub open spec fn mode_label(m: ChatMode) -> Seq<char> {
    match m {
        ChatMode::FreeResponse => "Free Response"@,
        ChatMode::MentionsOnly => "Mentions Only"@,
        ChatMode::MentionsOnlyAllContext => "Mentions Only All Context"@,
    }
}

/// What parsing a chat-mode storage key yields: the mode whose key the string
/// is, or an error for any other string.
pub open spec fn parse_mode(s: Seq<char>) -> Result<ChatMode, ChatError> {
    if s == mode_key(ChatMode::FreeResponse) {
        Ok(ChatMode::FreeResponse)
    } else if s == mode_key(ChatMode::MentionsOnly) {
        Ok(ChatMode::MentionsOnly)
    } else if s == mode_key(ChatMode::MentionsOnlyAllContext) {
        Ok(ChatMode::MentionsOnlyAllContext)
    } else {
        Err(ChatError::InvalidChatMode)
    }
}

impl ChatMode {
    /// Parses a storage key back into a mode; any other string is invalid.
    pub fn from_str(s: &str) -> (r: Result<ChatMode, ChatError>)
        ensures
            r == parse_mode(s@),
    {
        if str_eq(s, "free_response") {
            Ok(ChatMode::FreeResponse)
        } else if str_eq(s, "mentions_only") {
            Ok(ChatMode::MentionsOnly)
        } else if str_eq(s, "mentions_only_all_context") {
            Ok(ChatMode::MentionsOnlyAllContext)
        } else {
            Err(ChatError::InvalidChatMode)
        }
    }

    /// The human-readable label shown in command responses.
    pub fn to_string(&self) -> (r: String)
        ensures
            r@ == mode_label(*self),
    {
        match self {
            ChatMode::FreeResponse => String::from_str("Free Response"),
            ChatMode::MentionsOnly => String::from_str("Mentions Only"),
            ChatMode::MentionsOnlyAllContext => String::from_str("Mentions Only All Context"),
        }
    }
}

} // verus!

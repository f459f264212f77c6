//! The message store: an explicit model of the durable tables (system
//! prompts, channels, messages) with their invariants. History is append-only
//! and ordered by platform identifier; channels are created implicitly and
//! never deleted.

use vstd::prelude::*;

verus! {

use vstd::pervasive::VecAdditionalExecFns;
use crate::model::{ChatMode, Channel, Message, SystemPrompt, JUDGE_PROMPT_ID, str_eq};
use crate::window::{advance_applies, median_time, post_window, spec_select, select_window,
    advance_window};

/// Whether some prompt row carries `id`.
pub open spec fn has_prompt(prompts: Seq<SystemPrompt>, id: i64) -> bool {
    exists|k: int| 0 <= k < prompts.len() && prompts[k].id == id
}

/// The position of the prompt row carrying `id` (unique under [`Store::wf`]).
pub open spec fn prompt_index(prompts: Seq<SystemPrompt>, id: i64) -> int {
    choose|k: int| 0 <= k < prompts.len() && prompts[k].id == id
}

/// Whether some channel row carries `id`.
pub open spec fn has_channel(channels: Seq<Channel>, id: u64) -> bool {
    exists|k: int| 0 <= k < channels.len() && channels[k].id == id
}

/// The position of the channel row carrying `id` (unique under [`Store::wf`]).
pub open spec fn channel_index(channels: Seq<Channel>, id: u64) -> int {
    choose|k: int| 0 <= k < channels.len() && channels[k].id == id
}

/// Whether some message row carries `id`.
pub open spec fn has_message(msgs: Seq<Message>, id: u64) -> bool {
    exists|k: int| 0 <= k < msgs.len() && msgs[k].id == id
}

/// The position of the message row carrying `id` (unique: history is strictly
/// ordered by identifier).
pub open spec fn message_index(msgs: Seq<Message>, id: u64) -> int {
    choose|k: int| 0 <= k < msgs.len() && msgs[k].id == id
}

/// The row a channel starts from when first seen: default mode, an empty
/// window and the default system prompt.
pub open spec fn default_channel(id: u64) -> Channel {
    Channel {
        id,
        chat_mode: ChatMode::MentionsOnlyAllContext,
        context_window: 0,
        system_prompt: JUDGE_PROMPT_ID,
    }
}

/// The chat mode governing a channel: its row's mode, or the default when the
/// channel has never been configured.
pub open spec fn effective_mode(channels: Seq<Channel>, id: u64) -> ChatMode {
    if has_channel(channels, id) {
        channels[channel_index(channels, id)].chat_mode
    } else {
        ChatMode::MentionsOnlyAllContext
    }
}

/// The durable state: prompt, channel and message tables.
pub struct Store {
    pub prompts: Vec<SystemPrompt>,
    pub channels: Vec<Channel>,
    pub messages: Vec<Message>,
}

impl Store {
    /// Table invariants: unique prompt and channel identifiers, history
    /// strictly ordered by identifier, resolved reply fields well-formed, the
    /// judge prompt present, and every channel's prompt reference resolving.
    pub open spec fn wf(self) -> bool {
        &&& forall|i: int, j: int|
            0 <= i < j < self.prompts@.len() ==> (#[trigger] self.prompts@[i]).id != (
            #[trigger] self.prompts@[j]).id
        &&& forall|i: int, j: int|
            0 <= i < j < self.channels@.len() ==> (#[trigger] self.channels@[i]).id != (
            #[trigger] self.channels@[j]).id
        &&& forall|i: int, j: int|
            0 <= i < j < self.messages@.len() ==> (#[trigger] self.messages@[i]).id < (
            #[trigger] self.messages@[j]).id
        &&& forall|i: int| 0 <= i < self.messages@.len() ==> (#[trigger] self.messages@[i]).wf()
        &&& has_prompt(self.prompts@, JUDGE_PROMPT_ID)
        &&& forall|i: int|
            0 <= i < self.channels@.len() ==> has_prompt(
                self.prompts@,
                (#[trigger] self.channels@[i]).system_prompt,
            )
    }

    /// An empty store around the judge's fixed prompt.
    pub fn new(judge_prompt: SystemPrompt) -> (r: Store)
        requires
            judge_prompt.id == JUDGE_PROMPT_ID,
        ensures
            r.wf(),
            r.prompts@.len() == 1 && r.prompts@[0] == judge_prompt,
            r.channels@ == Seq::<Channel>::empty(),
            r.messages@ == Seq::<Message>::empty(),
    {
        let mut prompts: Vec<SystemPrompt> = Vec::new();
        prompts.push(judge_prompt);
        let r = Store { prompts, channels: Vec::new(), messages: Vec::new() };
        proof {
            assert(r.prompts@[0].id == JUDGE_PROMPT_ID);
            assert(has_prompt(r.prompts@, JUDGE_PROMPT_ID));
        }
        r
    }

    /// Adds a prompt row if its identifier is free; reports whether it was
    /// added.
    pub fn add_prompt(&mut self, p: SystemPrompt) -> (added: bool)
        requires
            old(self).wf(),
        ensures
            final(self).wf(),
            added == !has_prompt(old(self).prompts@, p.id),
            added ==> final(self).prompts@ == old(self).prompts@.push(p),
            !added ==> final(self).prompts@ == old(self).prompts@,
            final(self).channels@ == old(self).channels@,
            final(self).messages@ == old(self).messages@,
    {
        if self.find_prompt(p.id).is_some() {
            return false;
        }
        self.prompts.push(p);
        proof {
            let op = old(self).prompts@;
            let np = self.prompts@;
            assert forall|i: int, j: int|
                0 <= i < j < np.len() implies (#[trigger] np[i]).id != (#[trigger] np[j]).id by {
                if j < op.len() {
                    assert(op[i].id != op[j].id);
                } else {
                    assert(np[j] == p);
                    assert(np[i] == op[i]);
                    assert(!(0 <= i < op.len() && op[i].id == p.id));
                }
            }
            let w = prompt_index(op, JUDGE_PROMPT_ID);
            assert(0 <= w < op.len() && op[w].id == JUDGE_PROMPT_ID);
            assert(np[w] == op[w]);
            assert(has_prompt(np, JUDGE_PROMPT_ID));
            assert forall|i: int|
                0 <= i < self.channels@.len() implies has_prompt(
                np,
                (#[trigger] self.channels@[i]).system_prompt,
            ) by {
                let t = prompt_index(op, self.channels@[i].system_prompt);
                assert(has_prompt(op, self.channels@[i].system_prompt));
                assert(0 <= t < op.len() && op[t].id == self.channels@[i].system_prompt);
                assert(np[t] == op[t]);
            }
        }
        true
    }

    /// Finds the position of the prompt row carrying `id`.
    pub fn find_prompt(&self, id: i64) -> (r: Option<usize>)
        requires
            self.wf(),
        ensures
            r matches Some(k) ==> k < self.prompts@.len() && self.prompts@[k as int].id == id
                && k as int == prompt_index(self.prompts@, id),
            r is None <==> !has_prompt(self.prompts@, id),
    {
        let mut k: usize = 0;
        while k < self.prompts.len()
            invariant
                self.wf(),
                k <= self.prompts@.len(),
                forall|i: int| 0 <= i < k ==> (#[trigger] self.prompts@[i]).id != id,
            decreases self.prompts@.len() - k,
        {
            if self.prompts[k].id == id {
                return Some(k);
            }
            k += 1;
        }
        None
    }

    /// The instruction text of the prompt row carrying `id`.
    pub fn prompt_contents(&self, id: i64) -> (r: String)
        requires
            self.wf(),
            has_prompt(self.prompts@, id),
        ensures
            r@ == self.prompts@[prompt_index(self.prompts@, id)].contents@,
    {
        match self.find_prompt(id) {
            Some(k) => self.prompts[k].contents.clone(),
            None => {
                proof {
                    assert(false);
                }
                String::new()
            },
        }
    }

    /// Finds the position of the first prompt row named `name`.
    pub fn find_prompt_by_name(&self, name: &str) -> (r: Option<usize>)
        ensures
            r matches Some(k) ==> k < self.prompts@.len() && self.prompts@[k as int].name@
                == name@,
            r is None ==> forall|i: int|
                0 <= i < self.prompts@.len() ==> (#[trigger] self.prompts@[i]).name@ != name@,
    {
        let mut k: usize = 0;
        while k < self.prompts.len()
            invariant
                k <= self.prompts@.len(),
                forall|i: int| 0 <= i < k ==> (#[trigger] self.prompts@[i]).name@ != name@,
            decreases self.prompts@.len() - k,
        {
            if str_eq(self.prompts[k].name.as_str(), name) {
                return Some(k);
            }
            k += 1;
        }
        None
    }

    /// Finds the position of the channel row carrying `id`.
    pub fn find_channel(&self, id: u64) -> (r: Option<usize>)
        requires
            self.wf(),
        ensures
            r matches Some(k) ==> k < self.channels@.len() && self.channels@[k as int].id == id
                && k as int == channel_index(self.channels@, id),
            r is None <==> !has_channel(self.channels@, id),
    {
        let mut k: usize = 0;
        while k < self.channels.len()
            invariant
                self.wf(),
                k <= self.channels@.len(),
                forall|i: int| 0 <= i < k ==> (#[trigger] self.channels@[i]).id != id,
            decreases self.channels@.len() - k,
        {
            if self.channels[k].id == id {
                return Some(k);
            }
            k += 1;
        }
        None
    }

    /// Finds the position of the message row carrying `id`.
    pub fn find_message(&self, id: u64) -> (r: Option<usize>)
        requires
            self.wf(),
        ensures
            r matches Some(k) ==> k < self.messages@.len() && self.messages@[k as int].id == id
                && k as int == message_index(self.messages@, id),
            r is None <==> !has_message(self.messages@, id),
    {
        let mut k: usize = 0;
        while k < self.messages.len()
            invariant
                self.wf(),
                k <= self.messages@.len(),
                forall|i: int| 0 <= i < k ==> (#[trigger] self.messages@[i]).id != id,
            decreases self.messages@.len() - k,
        {
            if self.messages[k].id == id {
                return Some(k);
            }
            k += 1;
        }
        None
    }

    /// The chat mode governing `channel` (the default when it has no row).
    pub fn chat_mode_or_default(&self, channel: u64) -> (r: ChatMode)
        requires
            self.wf(),
        ensures
            r == effective_mode(self.channels@, channel),
    {
        match self.find_channel(channel) {
            Some(k) => self.channels[k].chat_mode,
            None => ChatMode::MentionsOnlyAllContext,
        }
    }

    /// Creates `channel`'s row with defaults when first seen; a no-op when it
    /// exists. Returns the row's position.
    pub fn ensure_channel(&mut self, channel: u64) -> (idx: usize)
        requires
            old(self).wf(),
        ensures
            final(self).wf(),
            idx < final(self).channels@.len(),
            final(self).channels@[idx as int].id == channel,
            idx as int == channel_index(final(self).channels@, channel),
            has_channel(old(self).channels@, channel) ==> final(self).channels@ == old(self).channels@
                && idx as int == channel_index(old(self).channels@, channel),
            !has_channel(old(self).channels@, channel) ==> final(self).channels@ == old(
                self,
            ).channels@.push(default_channel(channel)) && idx as int == old(
                self,
            ).channels@.len(),
            final(self).prompts@ == old(self).prompts@,
            final(self).messages@ == old(self).messages@,
    {
        match self.find_channel(channel) {
            Some(k) => k,
            None => {
                let idx = self.channels.len();
                self.channels.push(
                    Channel {
                        id: channel,
                        chat_mode: ChatMode::MentionsOnlyAllContext,
                        context_window: 0,
                        system_prompt: JUDGE_PROMPT_ID,
                    },
                );
                proof {
                    assert(self.channels@[idx as int].id == channel);
                    let j = channel_index(self.channels@, channel);
                    assert(0 <= j < self.channels@.len() && self.channels@[j].id == channel);
                    assert(j == idx as int);
                }
                idx
            },
        }
    }

    /// Sets `channel`'s chat mode, creating the row if need be (upsert).
    pub fn set_chat_mode(&mut self, channel: u64, mode: ChatMode)
        requires
            old(self).wf(),
        ensures
            final(self).wf(),
            has_channel(final(self).channels@, channel),
            effective_mode(final(self).channels@, channel) == mode,
            has_channel(old(self).channels@, channel) ==> final(self).channels@ == old(
                self,
            ).channels@.update(
                channel_index(old(self).channels@, channel),
                Channel {
                    chat_mode: mode,
                    ..old(self).channels@[channel_index(old(self).channels@, channel)]
                },
            ),
            !has_channel(old(self).channels@, channel) ==> final(self).channels@ == old(
                self,
            ).channels@.push(Channel { chat_mode: mode, ..default_channel(channel) }),
            final(self).prompts@ == old(self).prompts@,
            final(self).messages@ == old(self).messages@,
    {
        let idx = self.ensure_channel(channel);
        let mut row = self.channels[idx];
        row.chat_mode = mode;
        let ghost pre = self.channels@;
        self.channels.set(idx, row);
        proof {
            assert forall|a: int, b: int|
                0 <= a < b < self.channels@.len() implies (#[trigger] self.channels@[a]).id != (
            #[trigger] self.channels@[b]).id by {
                assert(pre[a].id != pre[b].id);
            }
            assert(self.channels@[idx as int].id == channel);
            let j = channel_index(self.channels@, channel);
            assert(0 <= j < self.channels@.len() && self.channels@[j].id == channel);
            assert(j == idx as int);
        }
    }

    /// Points `channel` at the prompt row `prompt_id`; a no-op when the
    /// channel has no row (mirrors a plain update).
    pub fn set_system_prompt(&mut self, channel: u64, prompt_id: i64)
        requires
            old(self).wf(),
            has_prompt(old(self).prompts@, prompt_id),
        ensures
            final(self).wf(),
            has_channel(old(self).channels@, channel) ==> final(self).channels@ == old(
                self,
            ).channels@.update(
                channel_index(old(self).channels@, channel),
                Channel {
                    system_prompt: prompt_id,
                    ..old(self).channels@[channel_index(old(self).channels@, channel)]
                },
            ),
            !has_channel(old(self).channels@, channel) ==> final(self).channels@ == old(self).channels@,
            final(self).prompts@ == old(self).prompts@,
            final(self).messages@ == old(self).messages@,
    {
        match self.find_channel(channel) {
            Some(idx) => {
                let mut row = self.channels[idx];
                row.system_prompt = prompt_id;
                let ghost pre = self.channels@;
                self.channels.set(idx, row);
                proof {
                    assert forall|a: int, b: int|
                        0 <= a < b < self.channels@.len() implies (#[trigger] self.channels@[a]).id
                        != (#[trigger] self.channels@[b]).id by {
                        assert(pre[a].id != pre[b].id);
                    }
                    assert(self.channels@[idx as int].id == channel);
                    let j = channel_index(self.channels@, channel);
                    assert(0 <= j < self.channels@.len() && self.channels@[j].id == channel);
                    assert(j == idx as int);
                }
            },
            None => {},
        }
    }

    /// Resets `channel`'s window cutoff to `now`, dropping all prior history
    /// from future prompts; a no-op when the channel has no row.
    pub fn reset_context(&mut self, channel: u64, now: u64)
        requires
            old(self).wf(),
        ensures
            final(self).wf(),
            has_channel(old(self).channels@, channel) ==> final(self).channels@ == old(
                self,
            ).channels@.update(
                channel_index(old(self).channels@, channel),
                Channel {
                    context_window: now,
                    ..old(self).channels@[channel_index(old(self).channels@, channel)]
                },
            ),
            !has_channel(old(self).channels@, channel) ==> final(self).channels@ == old(self).channels@,
            final(self).prompts@ == old(self).prompts@,
            final(self).messages@ == old(self).messages@,
    {
        match self.find_channel(channel) {
            Some(idx) => {
                let mut row = self.channels[idx];
                row.context_window = now;
                let ghost pre = self.channels@;
                self.channels.set(idx, row);
                proof {
                    assert forall|a: int, b: int|
                        0 <= a < b < self.channels@.len() implies (#[trigger] self.channels@[a]).id
                        != (#[trigger] self.channels@[b]).id by {
                        assert(pre[a].id != pre[b].id);
                    }
                    assert(self.channels@[idx as int].id == channel);
                    let j = channel_index(self.channels@, channel);
                    assert(0 <= j < self.channels@.len() && self.channels@[j].id == channel);
                    assert(j == idx as int);
                }
            },
            None => {},
        }
    }

    /// Resolves a reply reference against stored history: the referenced
    /// author and contents when the row exists, neither when it does not (a
    /// dangling reference is tolerated).
    pub fn resolve_reply(&self, reply: Option<u64>) -> (r: (Option<String>, Option<String>))
        requires
            self.wf(),
        ensures
            ({
                match reply {
                    Some(rid) => if has_message(self.messages@, rid) {
                        let m = self.messages@[message_index(self.messages@, rid)];
                        &&& r.0 matches Some(n) && n@ == m.sender_name@
                        &&& r.1 matches Some(c) && c@ == m.contents@
                    } else {
                        r == (None::<String>, None::<String>)
                    },
                    None => r == (None::<String>, None::<String>),
                }
            }),
    {
        match reply {
            Some(rid) => {
                match self.find_message(rid) {
                    Some(k) => {
                        let m = &self.messages[k];
                        (Some(m.sender_name.clone()), Some(m.contents.clone()))
                    },
                    None => (None, None),
                }
            },
            None => (None, None),
        }
    }

    /// Appends one message row. History is append-only with strictly
    /// increasing platform identifiers, so the new row's identifier must
    /// exceed every stored one.
    pub fn append_message(&mut self, m: Message)
        requires
            old(self).wf(),
            m.wf(),
            old(self).messages@.len() > 0 ==> m.id > old(self).messages@.last().id,
        ensures
            final(self).wf(),
            final(self).messages@ == old(self).messages@.push(m),
            final(self).prompts@ == old(self).prompts@,
            final(self).channels@ == old(self).channels@,
    {
        self.messages.push(m);
    }

    /// One windowed read of `channel`'s history with the read-then-
    /// conditionally-advance policy: selects the in-window messages at the
    /// current cutoff, then advances the cutoff to the median selected
    /// message's time exactly when the selection has reached `threshold`.
    pub fn window_pass(&mut self, idx: usize, mode: ChatMode, threshold: usize) -> (r: Vec<
        Message,
    >)
        requires
            old(self).wf(),
            idx < old(self).channels@.len(),
        ensures
            final(self).wf(),
            r@ == spec_select(
                old(self).messages@,
                old(self).channels@[idx as int].id,
                old(self).channels@[idx as int].context_window,
                mode,
            ),
            forall|i: int| 0 <= i < r@.len() ==> old(self).messages@.contains(#[trigger] r@[i]),
            final(self).channels@[idx as int].context_window == post_window(
                old(self).channels@[idx as int].context_window,
                r@,
                threshold,
            ),
            advance_applies(r@, threshold) ==> final(self).channels@[idx as int].context_window
                == median_time(r@),
            final(self).channels@[idx as int].context_window >= old(
                self,
            ).channels@[idx as int].context_window,
            final(self).channels@ == old(self).channels@.update(
                idx as int,
                final(self).channels@[idx as int],
            ),
            final(self).channels@[idx as int].id == old(self).channels@[idx as int].id,
            final(self).channels@[idx as int].chat_mode == old(self).channels@[idx as int].chat_mode,
            final(self).channels@[idx as int].system_prompt == old(
                self,
            ).channels@[idx as int].system_prompt,
            final(self).prompts@ == old(self).prompts@,
            final(self).messages@ == old(self).messages@,
    {
        let ch = self.channels[idx];
        let selected = select_window(&self.messages, ch.id, ch.context_window, mode);
        let mut row = ch;
        advance_window(&mut row, &selected, threshold);
        proof {
            crate::window::lemma_advance_monotonic(
                self.messages@,
                ch.id,
                ch.context_window,
                mode,
                threshold,
            );
        }
        self.channels.set(idx, row);
        proof {
            assert forall|i: int, j: int|
                0 <= i < j < self.channels@.len() implies (#[trigger] self.channels@[i]).id != (
            #[trigger] self.channels@[j]).id by {
                assert(old(self).channels@[i].id != old(self).channels@[j].id);
            }
        }
        selected
    }
}

} // verus!

//! Context-window selection and the lazy, batched window-advance policy.

use vstd::prelude::*;

verus! {

use crate::model::{ChatMode, Channel, Message};

/// Whether a stored message is eligible for `channel`'s prompts at cutoff
/// `window` under `mode`: it belongs to the channel, lies strictly after the
/// cutoff and, under `MentionsOnly`, addresses the agent.
pub open spec fn in_window(m: Message, channel: u64, window: u64, mode: ChatMode) -> bool {
    &&& m.channel == channel
    &&& m.time > window
    &&& (mode != ChatMode::MentionsOnly || m.mentions_self)
}

/// The ordered in-window slice of `msgs` (which is kept sorted by identifier,
/// so filtering preserves chronological order).
pub open spec fn spec_select(msgs: Seq<Message>, channel: u64, window: u64, mode: ChatMode) -> Seq<
    Message,
> {
    msgs.filter(|m: Message| in_window(m, channel, window, mode))
}

/// Whether one processing pass over a selected set advances the window:
/// the set has reached the threshold and its median position exists.
pub open spec fn advance_applies(selected: Seq<Message>, threshold: usize) -> bool {
    selected.len() >= threshold && selected.len() / 2 < selected.len()
}

/// The time of the median message (by position, integer division) of the
/// selected set: the value the window advances to.
pub open spec fn median_time(selected: Seq<Message>) -> u64 {
    selected[selected.len() as int / 2].time
}

/// The window cutoff after one pass over `selected` with `threshold`.
pub open spec fn post_window(window: u64, selected: Seq<Message>, threshold: usize) -> u64 {
    if advance_applies(selected, threshold) {
        median_time(selected)
    } else {
        window
    }
}

proof fn lemma_filter_push<A>(s: Seq<A>, pred: spec_fn(A) -> bool, x: A)
    ensures
        s.push(x).filter(pred) == if pred(x) {
            s.filter(pred).push(x)
        } else {
            s.filter(pred)
        },
{
    reveal(Seq::filter);
    assert(s.push(x).drop_last() =~= s);
    assert(s.push(x).last() == x);
}

/// Selects the ordered in-window messages of `channel` from `msgs`.
pub fn select_window(msgs: &Vec<Message>, channel: u64, window: u64, mode: ChatMode) -> (r: Vec<
    Message,
>)
    ensures
        r@ == spec_select(msgs@, channel, window, mode),
        forall|i: int| 0 <= i < r@.len() ==> msgs@.contains(#[trigger] r@[i]),
{
    let ghost pred = |m: Message| in_window(m, channel, window, mode);
    let mut out: Vec<Message> = Vec::new();
    let mut i: usize = 0;
    while i < msgs.len()
        invariant
            i <= msgs@.len(),
            out@ == msgs@.take(i as int).filter(pred),
            pred == (|m: Message| in_window(m, channel, window, mode)),
            forall|t: int| 0 <= t < out@.len() ==> msgs@.contains(#[trigger] out@[t]),
        decreases msgs@.len() - i,
    {
        let m = &msgs[i];
        proof {
            assert(msgs@.take(i + 1 as int) =~= msgs@.take(i as int).push(msgs@[i as int]));
            lemma_filter_push(msgs@.take(i as int), pred, msgs@[i as int]);
        }
        if m.channel == channel && m.time > window && (m.mentions_self || !matches!(
            mode,
            ChatMode::MentionsOnly,
        )) {
            out.push(m.clone());
            proof {
                assert(msgs@.contains(msgs@[i as int]));
            }
        }
        i += 1;
    }
    proof {
        assert(msgs@.take(msgs@.len() as int) =~= msgs@);
    }
    out
}

/// Applies the window-advance policy to a channel after `selected` was read
/// from it: advance to the median message's time once the threshold is hit.
pub fn advance_window(ch: &mut Channel, selected: &Vec<Message>, threshold: usize) -> (advanced:
    bool)
    ensures
        advanced == advance_applies(selected@, threshold),
        final(ch).context_window == post_window(old(ch).context_window, selected@, threshold),
        final(ch).id == old(ch).id,
        final(ch).chat_mode == old(ch).chat_mode,
        final(ch).system_prompt == old(ch).system_prompt,
{
    if selected.len() >= threshold {
        let middle_index = selected.len() / 2;
        if middle_index < selected.len() {
            ch.context_window = selected[middle_index].time;
            return true;
        }
    }
    false
}

/// Every selected message lies strictly after the cutoff it was selected at,
/// so an advance never moves the window backwards.
pub proof fn lemma_advance_monotonic(
    msgs: Seq<Message>,
    channel: u64,
    window: u64,
    mode: ChatMode,
    threshold: usize,
)
    ensures
        post_window(window, spec_select(msgs, channel, window, mode), threshold) >= window,
{
    let selected = spec_select(msgs, channel, window, mode);
    if advance_applies(selected, threshold) {
        let pred = |m: Message| in_window(m, channel, window, mode);
        msgs.lemma_filter_pred(pred, selected.len() as int / 2);
    }
}

/// Idempotence of window filtering: when a pass does not cross the threshold,
/// the window stays put, and re-running selection without new messages yields
/// an identical message set.
pub proof fn lemma_selection_idempotent(
    msgs: Seq<Message>,
    channel: u64,
    window: u64,
    mode: ChatMode,
    threshold: usize,
)
    requires
        !advance_applies(spec_select(msgs, channel, window, mode), threshold),
    ensures
        post_window(window, spec_select(msgs, channel, window, mode), threshold) == window,
        spec_select(
            msgs,
            channel,
            post_window(window, spec_select(msgs, channel, window, mode), threshold),
            mode,
        ) == spec_select(msgs, channel, window, mode),
{
}

} // verus!

//! Prompt construction: role-tagged sequences for the chat reply and for the
//! reply/no-reply judge, with reply-threading previews.

use vstd::prelude::*;

verus! {

use vstd::pervasive::unreached;
use vstd::string::StrSliceExecFns;
use vstd::string::StringExecFns;
use crate::model::Message;
use crate::judgment::spec_judgment;
use crate::judgment::render_judgment;

/// A reply preview is cut to this many characters.
pub const PREVIEW_LIMIT: usize = 128;

/// The role tag of one prompt turn.
#[derive(Clone, Copy, Debug, PartialEq, Eq, Structural)]
pub enum Role {
    System,
    Assistant,
    User,
}

/// One role-tagged turn handed to the completion provider.
pub struct PromptMessage {
    pub role: Role,
    pub content: String,
}

/// The two prompt sequences built from one windowed history: one for
/// generating the chat reply, one for the reply/no-reply judgment.
pub struct Contexts {
    pub chat_context: Vec<PromptMessage>,
    pub social_context: Vec<PromptMessage>,
}

/// Newlines collapse to spaces inside a reply preview.
pub open spec fn collapse(c: char) -> char {
    if c == '\n' {
        ' '
    } else {
        c
    }
}

/// The preview of referenced contents: at most [`PREVIEW_LIMIT`] characters,
/// newlines collapsed to spaces.
pub open spec fn spec_preview(s: Seq<char>) -> Seq<char> {
    let cut = if s.len() < PREVIEW_LIMIT as int {
        s.len() as int
    } else {
        PREVIEW_LIMIT as int
    };
    s.take(cut).map_values(|c: char| collapse(c))
}

/// Relies on `String::push`: appends the given character to the end of the
/// string.
#[verifier::external_body]
fn push_char(s: &mut String, c: char)
    ensures
        final(s)@ == old(s)@.push(c),
{
    s.push(c);
}

/// Truncates referenced contents to a preview: the first [`PREVIEW_LIMIT`]
/// characters, with newlines collapsed to spaces.
pub fn truncate_preview(s: &str) -> (r: String)
    ensures
        r@ == spec_preview(s@),
{
    let n = s.unicode_len();
    let cut = if n < PREVIEW_LIMIT {
        n
    } else {
        PREVIEW_LIMIT
    };
    let mut out = String::new();
    let mut i: usize = 0;
    while i < cut
        invariant
            cut <= s@.len(),
            cut == (if s@.len() < PREVIEW_LIMIT as int {
                s@.len() as int
            } else {
                PREVIEW_LIMIT as int
            }),
            i <= cut,
            out@ == s@.take(i as int).map_values(|c: char| collapse(c)),
        decreases cut - i,
    {
        let c = s.get_char(i);
        let folded = if c == '\n' {
            ' '
        } else {
            c
        };
        push_char(&mut out, folded);
        proof {
            assert(s@.take(i + 1 as int).map_values(|c: char| collapse(c)) =~= s@.take(
                i as int,
            ).map_values(|c: char| collapse(c)).push(collapse(s@[i as int])));
        }
        i += 1;
    }
    proof {
        assert(s@.take(cut as int).map_values(|c: char| collapse(c)) == spec_preview(s@));
    }
    out
}

/// A preview never exceeds [`PREVIEW_LIMIT`] characters and contains no
/// embedded newline, whatever the input length or its newlines.
pub proof fn lemma_preview_bounded(s: Seq<char>)
    ensures
        spec_preview(s).len() <= PREVIEW_LIMIT,
        forall|i: int| 0 <= i < spec_preview(s).len() ==> spec_preview(s)[i] != '\n',
{
}

/// The reply-threading header of a rendered turn, present exactly when the
/// message's reply reference was resolved.
pub open spec fn spec_reply_header(m: Message) -> Seq<char> {
    if m.reply_contents is Some {
        "Replying to:\n\tReferenced Author ID: "@ + m.reply_sender_name.unwrap()@
            + "\n\tReferenced Truncated Contents: "@ + spec_preview(m.reply_contents.unwrap()@)
            + "\n"@
    } else {
        Seq::<char>::empty()
    }
}

/// The fixed textual template a foreign message is rendered with.
pub open spec fn spec_render(m: Message) -> Seq<char> {
    spec_reply_header(m) + "Author Name: "@ + m.sender_display_name@ + "\nAuthor ID: "@
        + m.sender_name@ + "\nContents:\n"@ + m.contents@
}

/// Renders one stored message as the user-turn template, embedding a
/// truncated preview of the referenced message when the turn is a reply.
pub fn render_message(m: &Message) -> (r: String)
    requires
        m.wf(),
    ensures
        r@ == spec_render(*m),
{
    let mut out = String::new();
    match &m.reply_contents {
        Some(reply_contents) => {
            let reply_sender_name = match &m.reply_sender_name {
                Some(n) => n,
                None => unreached(),
            };
            out.append("Replying to:\n\tReferenced Author ID: ");
            out.append(reply_sender_name.as_str());
            out.append("\n\tReferenced Truncated Contents: ");
            let preview = truncate_preview(reply_contents.as_str());
            out.append(preview.as_str());
            out.append("\n");
        },
        None => {},
    }
    out.append("Author Name: ");
    out.append(m.sender_display_name.as_str());
    out.append("\nAuthor ID: ");
    out.append(m.sender_name.as_str());
    out.append("\nContents:\n");
    out.append(m.contents.as_str());
    proof {
        assert(out@ =~= spec_render(*m));
    }
    out
}

/// The role of a history turn in the chat context.
pub open spec fn chat_role(m: Message) -> Role {
    if m.is_self {
        Role::Assistant
    } else {
        Role::User
    }
}

/// The content of a history turn in the chat context: own messages verbatim,
/// foreign ones rendered through the template.
pub open spec fn chat_content(m: Message) -> Seq<char> {
    if m.is_self {
        m.contents@
    } else {
        spec_render(m)
    }
}

/// Builds both prompt sequences from the chat-facing system prompt, the
/// judge-facing fixed system prompt and the windowed history.
///
/// For N windowed messages the chat context holds `1 + N` turns and the judge
/// context `1 + 2 * N`: the judge sees, per message, a demonstration
/// judgment followed by the rendered turn.
pub fn build_contexts(chat_prompt: &str, judge_prompt: &str, msgs: &Vec<Message>) -> (r: Contexts)
    requires
        forall|i: int| 0 <= i < msgs@.len() ==> (#[trigger] msgs@[i]).wf(),
    ensures
        r.chat_context@.len() == 1 + msgs@.len(),
        r.social_context@.len() == 1 + 2 * msgs@.len(),
        r.chat_context@[0].role == Role::System,
        r.chat_context@[0].content@ == chat_prompt@,
        r.social_context@[0].role == Role::System,
        r.social_context@[0].content@ == judge_prompt@,
        forall|i: int|
            0 <= i < msgs@.len() ==> {
                let m = #[trigger] msgs@[i];
                &&& r.chat_context@[i + 1].role == chat_role(m)
                &&& r.chat_context@[i + 1].content@ == chat_content(m)
                &&& r.social_context@[1 + 2 * i].role == Role::Assistant
                &&& r.social_context@[1 + 2 * i].content@ == spec_judgment(m.is_self)
                &&& r.social_context@[2 + 2 * i].role == Role::User
                &&& r.social_context@[2 + 2 * i].content@ == spec_render(m)
            },
{
    let mut chat_context: Vec<PromptMessage> = Vec::new();
    let mut social_context: Vec<PromptMessage> = Vec::new();
    chat_context.push(
        PromptMessage { role: Role::System, content: String::from_str(chat_prompt) },
    );
    social_context.push(
        PromptMessage { role: Role::System, content: String::from_str(judge_prompt) },
    );
    let mut i: usize = 0;
    while i < msgs.len()
        invariant
            i <= msgs@.len(),
            forall|k: int| 0 <= k < msgs@.len() ==> (#[trigger] msgs@[k]).wf(),
            chat_context@.len() == 1 + i as int,
            social_context@.len() == 1 + 2 * i as int,
            chat_context@[0].role == Role::System,
            chat_context@[0].content@ == chat_prompt@,
            social_context@[0].role == Role::System,
            social_context@[0].content@ == judge_prompt@,
            forall|k: int|
                0 <= k < i as int ==> {
                    let m = #[trigger] msgs@[k];
                    &&& chat_context@[k + 1].role == chat_role(m)
                    &&& chat_context@[k + 1].content@ == chat_content(m)
                    &&& social_context@[1 + 2 * k].role == Role::Assistant
                    &&& social_context@[1 + 2 * k].content@ == spec_judgment(m.is_self)
                    &&& social_context@[2 + 2 * k].role == Role::User
                    &&& social_context@[2 + 2 * k].content@ == spec_render(m)
                },
        decreases msgs@.len() - i,
    {
        let m = &msgs[i];
        let rendered = render_message(m);
        if m.is_self {
            chat_context.push(PromptMessage { role: Role::Assistant, content: m.contents.clone() });
        } else {
            chat_context.push(PromptMessage { role: Role::User, content: rendered.clone() });
        }
        social_context.push(
            PromptMessage { role: Role::Assistant, content: render_judgment(m.is_self) },
        );
        social_context.push(PromptMessage { role: Role::User, content: rendered });
        i += 1;
    }
    Contexts { chat_context, social_context }
}

} // verus!

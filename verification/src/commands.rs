//! Administrative command logic: dispatch by name, the per-command state
//! changes, and the response texts shown in channel.

use vstd::prelude::*;

verus! {

use vstd::string::StringExecFns;
use crate::model::{ChatError, ChatMode, Channel, mode_label, parse_mode};
use crate::store::{Store, has_channel, channel_index, default_channel, has_prompt, prompt_index};

/// The closed set of administrative commands.
#[derive(Clone, Copy, Debug, PartialEq, Eq, Structural)]
pub enum CommandKind {
    Reload,
    ResetContext,
    SystemPrompt,
    ChatMode,
}

/// Which command a platform interaction names, if any.
pub open spec fn spec_command_kind(name: Seq<char>) -> Option<CommandKind> {
    if name == "reload"@ {
        Some(CommandKind::Reload)
    } else if name == "reset_context"@ {
        Some(CommandKind::ResetContext)
    } else if name == "system_prompt"@ {
        Some(CommandKind::SystemPrompt)
    } else if name == "chat_mode"@ {
        Some(CommandKind::ChatMode)
    } else {
        None
    }
}

/// Dispatches a command interaction by name; an unrecognized name is reported
/// back to the invoking user.
pub fn parse_command(name: &str) -> (r: Option<CommandKind>)
    ensures
        r == spec_command_kind(name@),
{
    if crate::model::str_eq(name, "reload") {
        Some(CommandKind::Reload)
    } else if crate::model::str_eq(name, "reset_context") {
        Some(CommandKind::ResetContext)
    } else if crate::model::str_eq(name, "system_prompt") {
        Some(CommandKind::SystemPrompt)
    } else if crate::model::str_eq(name, "chat_mode") {
        Some(CommandKind::ChatMode)
    } else {
        None
    }
}

/// The response to a command whose name is not recognized.
pub fn unknown_command_text() -> (r: String)
    ensures
        r@ == "Unknown command :("@,
{
    String::from_str("Unknown command :(")
}

/// The in-channel error response of a failed command, wrapping the formatted
/// error detail in a code block.
pub fn command_error_text(detail: &str) -> (r: String)
    ensures
        r@ == "Encountered an error while executing command:\n```\n"@ + detail@ + "\n```"@,
{
    let mut out = String::from_str("Encountered an error while executing command:\n```\n");
    out.append(detail);
    out.append("\n```");
    out
}

/// The visible error reply posted when handling a message fails, wrapping the
/// formatted error detail in a code block.
pub fn generation_error_text(detail: &str) -> (r: String)
    ensures
        r@ == "Encountered an error:\n```\n"@ + detail@ + "\n```"@,
{
    let mut out = String::from_str("Encountered an error:\n```\n");
    out.append(detail);
    out.append("\n```");
    out
}

/// What the chat-mode command responds with and does: with an argument, parse
/// it (an invalid key is an error), set the mode (creating the channel row if
/// need be) and confirm; without one, report the channel's current mode.
pub fn chat_mode_command(store: &mut Store, channel: u64, arg: Option<&str>) -> (r: Result<
    String,
    ChatError,
>)
    requires
        old(store).wf(),
    ensures
        final(store).wf(),
        final(store).prompts@ == old(store).prompts@,
        final(store).messages@ == old(store).messages@,
        match arg {
            Some(s) => match parse_mode(s@) {
                Ok(m) => {
                    &&& r matches Ok(t) && t@ == "Updated Lumi's chat mode to "@ + mode_label(m)
                    &&& crate::store::effective_mode(final(store).channels@, channel) == m
                    &&& has_channel(old(store).channels@, channel) ==> final(store).channels@
                        == old(store).channels@.update(
                        channel_index(old(store).channels@, channel),
                        Channel {
                            chat_mode: m,
                            ..old(store).channels@[channel_index(old(store).channels@, channel)]
                        },
                    )
                    &&& !has_channel(old(store).channels@, channel) ==> final(store).channels@
                        == old(store).channels@.push(
                        Channel { chat_mode: m, ..default_channel(channel) },
                    )
                },
                Err(e) => r == Err::<String, ChatError>(e) && final(store).channels@ == old(
                    store,
                ).channels@,
            },
            None => {
                &&& final(store).channels@ == old(store).channels@
                &&& if has_channel(old(store).channels@, channel) {
                    r matches Ok(t) && t@ == "Lumi's current chat mode is "@ + mode_label(
                        old(store).channels@[channel_index(old(store).channels@, channel)].chat_mode,
                    )
                } else {
                    r matches Ok(t) && t@ == "Lumi does not have a chat mode set for this channel"@
                }
            },
        },
{
    match arg {
        Some(s) => {
            let mode = match ChatMode::from_str(s) {
                Ok(m) => m,
                Err(e) => {
                    return Err(e);
                },
            };
            store.set_chat_mode(channel, mode);
            let mut out = String::from_str("Updated Lumi's chat mode to ");
            let label = mode.to_string();
            out.append(label.as_str());
            Ok(out)
        },
        None => {
            match store.find_channel(channel) {
                Some(k) => {
                    let mut out = String::from_str("Lumi's current chat mode is ");
                    let label = store.channels[k].chat_mode.to_string();
                    out.append(label.as_str());
                    Ok(out)
                },
                None => Ok(String::from_str("Lumi does not have a chat mode set for this channel")),
            }
        },
    }
}

/// What the system-prompt command responds with and does: with an argument,
/// look the prompt up by name (an unknown name is an error) and point the
/// channel's row at it (a channel without a row is left as is); without one,
/// report the name of the prompt the channel currently points at.
pub fn system_prompt_command(store: &mut Store, channel: u64, arg: Option<&str>) -> (r: Result<
    String,
    ChatError,
>)
    requires
        old(store).wf(),
    ensures
        final(store).wf(),
        final(store).prompts@ == old(store).prompts@,
        final(store).messages@ == old(store).messages@,
        match arg {
            Some(name) => if exists|i: int|
                0 <= i < old(store).prompts@.len() && (#[trigger] old(store).prompts@[i]).name@
                    == name@ {
                &&& r matches Ok(t) && t@ == "Set Lumi's system prompt to '`"@ + name@ + "`'"@
                &&& has_channel(old(store).channels@, channel) ==> exists|i: int|
                    0 <= i < old(store).prompts@.len() && (#[trigger] old(
                        store,
                    ).prompts@[i]).name@ == name@ && final(store).channels@ == old(
                        store,
                    ).channels@.update(
                        channel_index(old(store).channels@, channel),
                        Channel {
                            system_prompt: old(store).prompts@[i].id,
                            ..old(store).channels@[channel_index(old(store).channels@, channel)]
                        },
                    )
                &&& !has_channel(old(store).channels@, channel) ==> final(store).channels@ == old(
                    store,
                ).channels@
            } else {
                r == Err::<String, ChatError>(ChatError::UnknownSystemPrompt) && final(store).channels@ == old(store).channels@
            },
            None => {
                &&& final(store).channels@ == old(store).channels@
                &&& if has_channel(old(store).channels@, channel) {
                    r matches Ok(t) && t@ == "Lumi's current system prompt is '`"@ + old(
                        store,
                    ).prompts@[prompt_index(
                        old(store).prompts@,
                        old(store).channels@[channel_index(
                            old(store).channels@,
                            channel,
                        )].system_prompt,
                    )].name@ + "`'"@
                } else {
                    r matches Ok(t) && t@
                        == "Lumi does not have a system prompt set for this channel"@
                }
            },
        },
{
    match arg {
        Some(name) => {
            let k = match store.find_prompt_by_name(name) {
                Some(k) => k,
                None => {
                    return Err(ChatError::UnknownSystemPrompt);
                },
            };
            let prompt_id = store.prompts[k].id;
            store.set_system_prompt(channel, prompt_id);
            let mut out = String::from_str("Set Lumi's system prompt to '`");
            out.append(name);
            out.append("`'");
            Ok(out)
        },
        None => {
            match store.find_channel(channel) {
                Some(k) => {
                    let prompt_id = store.channels[k].system_prompt;
                    let p = match store.find_prompt(prompt_id) {
                        Some(p) => p,
                        None => {
                            proof {
                                assert(false);
                            }
                            return Err(ChatError::UnknownSystemPrompt);
                        },
                    };
                    let mut out = String::from_str("Lumi's current system prompt is '`");
                    let name = store.prompts[p].name.clone();
                    out.append(name.as_str());
                    out.append("`'");
                    Ok(out)
                },
                None => Ok(
                    String::from_str("Lumi does not have a system prompt set for this channel"),
                ),
            }
        },
    }
}

/// What the reset-context command responds with and does: move the channel's
/// window cutoff to the present moment, dropping all prior history from
/// future prompts.
pub fn reset_context_command(store: &mut Store, channel: u64, now: u64) -> (r: String)
    requires
        old(store).wf(),
    ensures
        final(store).wf(),
        final(store).prompts@ == old(store).prompts@,
        final(store).messages@ == old(store).messages@,
        r@ == "Reset context!"@,
        has_channel(old(store).channels@, channel) ==> final(store).channels@ == old(
            store,
        ).channels@.update(
            channel_index(old(store).channels@, channel),
            Channel {
                context_window: now,
                ..old(store).channels@[channel_index(old(store).channels@, channel)]
            },
        ),
        !has_channel(old(store).channels@, channel) ==> final(store).channels@ == old(
            store,
        ).channels@,
{
    store.reset_context(channel, now);
    String::from_str("Reset context!")
}

/// The confirmation shown after the configuration is reloaded.
pub fn reload_response() -> (r: String)
    ensures
        r@ == "Reloaded config!"@,
{
    String::from_str("Reloaded config!")
}

} // verus!

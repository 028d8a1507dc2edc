//! The commands of the bot: the list of commands that it shows on request,
//! and the shutdown that one of them asks for. Both are for the users on the
//! allow-list only.

use vstd::prelude::*;
use crate::state::{BotState, BotStateView};
use crate::text::str_eq;

verus! {

/// The text that asks for the list of commands.
pub const COMMANDS_TEXT: &'static str = "/commands";

/// The callback data of the shutdown button.
pub const SHUTDOWN_DATA: &'static str = "shutdown";

/// What the bot does about a message, seen as a command.
#[derive(Debug, Clone, Copy, PartialEq, Eq)]
pub enum CommandAction {
    /// The message is no command: hand it on to the next handler.
    Skip,
    /// The message is dealt with, and nothing is sent.
    Finish,
    /// Show the sender the list of commands.
    ShowCommands,
}

/// A message without a sender is handed on. A sender who is not on the
/// allow-list is turned away. Of the others, the text `/commands` gets the
/// list of commands, and anything else is handed on.
pub open spec fn command_of(
    state: BotStateView,
    sender: Option<i64>,
    text: Option<Seq<char>>,
) -> CommandAction {
    match sender {
        None => CommandAction::Skip,
        Some(id) => {
            if !state.allowed_user_ids.contains(id) {
                CommandAction::Finish
            } else if text == Some(COMMANDS_TEXT@) {
                CommandAction::ShowCommands
            } else {
                CommandAction::Skip
            }
        },
    }
}

/// Decides what to do about a message, seen as a command. `text` is the
/// text of the message, if it has one.
pub fn commands_handler(state: &BotState, sender: Option<i64>, text: Option<&str>) -> (action:
    CommandAction)
    ensures
        action == command_of(
            state@,
            sender,
            match text {
                Some(t) => Some(t@),
                None => None,
            },
        ),
{
    match sender {
        None => CommandAction::Skip,
        Some(id) => {
            if !state.user_allowed(id) {
                CommandAction::Finish
            } else {
                match text {
                    Some(t) => {
                        if str_eq(t, COMMANDS_TEXT) {
                            CommandAction::ShowCommands
                        } else {
                            CommandAction::Skip
                        }
                    },
                    None => CommandAction::Skip,
                }
            }
        },
    }
}

/// Whether a pressed button asks for the shutdown: it carries the data
/// `shutdown`, and the user who pressed it is on the allow-list.
pub open spec fn shutdown_asked(state: BotStateView, sender: i64, data: Option<Seq<char>>) -> bool {
    state.allowed_user_ids.contains(sender) && data == Some(SHUTDOWN_DATA@)
}

/// Decides whether a pressed button asks for the shutdown. `data` is the
/// data of the button, if it has any.
pub fn commands_callback_handler(state: &BotState, sender: i64, data: Option<&str>) -> (shutdown:
    bool)
    ensures
        shutdown == shutdown_asked(
            state@,
            sender,
            match data {
                Some(d) => Some(d@),
                None => None,
            },
        ),
{
    match data {
        Some(d) => state.user_allowed(sender) && str_eq(d, SHUTDOWN_DATA),
        None => false,
    }
}

} // verus!

//! The command table and what the commands compute before they reply.

use vstd::prelude::*;

use crate::router::MessageCommandData;
use crate::text::{parse_u64, parsed_u64, remove_all, same_text, without};

verus! {

/// The commands the bot answers.
#[derive(Clone, Copy, Debug, PartialEq, Eq, Structural)]
pub enum Command {
    /// Shows a user's avatar; named `pfp` or `avatar`.
    Avatar,
    /// Answers with a fixed text; named `test`.
    Test,
}

/// The command a lowercase name stands for.
pub open spec fn command_for(name: Seq<char>) -> Option<Command> {
    if name == "pfp"@ || name == "avatar"@ {
        Some(Command::Avatar)
    } else if name == "test"@ {
        Some(Command::Test)
    } else {
        None
    }
}

/// Looks a command name up in the table; an unknown name gives `None`.
pub fn dispatch(name: &str) -> (r: Option<Command>)
    ensures
        r == command_for(name@),
{
    if same_text(name, "pfp") || same_text(name, "avatar") {
        Some(Command::Avatar)
    } else if same_text(name, "test") {
        Some(Command::Test)
    } else {
        None
    }
}

/// Whose avatar a command shows.
#[derive(Clone, Copy, Debug, PartialEq, Eq, Structural)]
pub enum TargetUser {
    /// The author of the message.
    Author,
    /// The user with this id.
    Id(u64),
}

/// Why no user could be named.
#[derive(Clone, Copy, Debug, PartialEq, Eq, Structural)]
pub enum TargetUserError {
    /// The word is neither a mention nor a number that fits in a `u64`, or
    /// the number is zero, which no user has.
    InvalidUserId,
}

/// The user that word `idx` names: a mention `<@id>` or a bare id, not zero,
/// and the author where there is no such word.
pub open spec fn target_for(content: Seq<Seq<char>>, idx: int) -> Result<TargetUser, TargetUserError> {
    if 0 <= idx < content.len() {
        match parsed_u64(without(without(content[idx], "<@"@), ">"@)) {
            Some(id) => if id == 0 {
                Err(TargetUserError::InvalidUserId)
            } else {
                Ok(TargetUser::Id(id))
            },
            None => Err(TargetUserError::InvalidUserId),
        }
    } else {
        Ok(TargetUser::Author)
    }
}

/// The user that word `idx` of the command names.
pub fn parse_target_user(data: &MessageCommandData, idx: usize) -> (r: Result<
    TargetUser,
    TargetUserError,
>)
    ensures
        r == target_for(data@.content, idx as int),
{
    if idx < data.content.len() {
        proof {
            reveal_strlit("<@");
            reveal_strlit(">");
        }
        let word = &data.content[idx];
        let inner = remove_all(word.as_str(), "<@");
        let bare = remove_all(inner.as_str(), ">");
        match parse_u64(bare.as_str()) {
            Some(0) => Err(TargetUserError::InvalidUserId),
            Some(id) => Ok(TargetUser::Id(id)),
            None => Err(TargetUserError::InvalidUserId),
        }
    } else {
        Ok(TargetUser::Author)
    }
}

/// The title of the avatar reply.
pub fn avatar_title(name: &str) -> (r: String)
    ensures
        r@ == name@ + "'s avatar"@,
{
    let mut title = String::from_str(name);
    title.append("'s avatar");
    title
}

} // verus!

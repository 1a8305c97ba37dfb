//! Rows of the bot's database, as the library sees them.

use vstd::prelude::*;

use crate::text::{lower_of, same_text, to_lowercase};

verus! {

/// A logged failure.
#[derive(Clone, Debug)]
pub struct ErrorLog {
    pub id: i64,
    pub server: Option<String>,
    pub channel: String,
    pub user: String,
    pub command: Option<String>,
    pub stack: Option<String>,
    pub timestamp: Option<i64>,
    pub log: Option<String>,
    pub error: Option<String>,
}

/// The help text of one command.
#[derive(Clone, Debug)]
pub struct HelpMessage {
    pub id: i64,
    pub cmd: String,
    pub desc: String,
}

/// One character of the leetspeak table and what it becomes.
#[derive(Clone, Debug)]
pub struct Leet {
    pub id: i64,
    pub source: char,
    pub translated: String,
}

/// Another name under which an AI command can be called.
#[derive(Clone, Debug)]
pub struct AiCommandAlias {
    pub id: i64,
    pub command: String,
    pub alias: String,
}

/// A reaction that an AI command answers with.
#[derive(Clone, Debug)]
pub struct AiReactions {
    pub id: i64,
    pub command: String,
    pub reaction: String,
}

/// The stored prefix of one guild; `server_id` is the guild id in base ten.
#[derive(Clone, Debug)]
pub struct Prefix {
    pub id: i64,
    pub server_id: String,
    pub prefix: String,
}

/// A cached post of a subreddit.
#[derive(Clone, Debug)]
pub struct RedditPost {
    pub id: i64,
    pub subreddit: String,
    pub title: String,
    pub url: String,
    pub over_18: bool,
    pub permalink: String,
}

/// The kind of activity a presence entry displays.
#[derive(Clone, Copy, Debug, PartialEq, Eq, Structural)]
pub enum StatusType {
    Watching,
    Listening,
    Playing,
    Competing,
    Custom,
}

/// The kind that a lowercase name stands for; any other name reads as `Playing`.
pub open spec fn status_type_named(name: Seq<char>) -> StatusType {
    if name == "watching"@ {
        StatusType::Watching
    } else if name == "listening"@ {
        StatusType::Listening
    } else if name == "competing"@ {
        StatusType::Competing
    } else if name == "custom"@ {
        StatusType::Custom
    } else {
        StatusType::Playing
    }
}

impl StatusType {
    /// Reads a stored kind, ignoring case.
    pub fn parse(s: &str) -> (r: StatusType)
        ensures
            r == status_type_named(lower_of(s@)),
    {
        let name = to_lowercase(s);
        StatusType::status_type_of_lower(name.as_str())
    }

    /// The kind that an already lowercased name stands for.
    pub fn status_type_of_lower(name: &str) -> (r: StatusType)
        ensures
            r == status_type_named(name@),
    {
        if same_text(name, "watching") {
            StatusType::Watching
        } else if same_text(name, "listening") {
            StatusType::Listening
        } else if same_text(name, "competing") {
            StatusType::Competing
        } else if same_text(name, "custom") {
            StatusType::Custom
        } else {
            StatusType::Playing
        }
    }
}

impl From<String> for StatusType {
    fn from(s: String) -> (r: StatusType) {
        StatusType::parse(s.as_str())
    }
}

impl vstd::std_specs::convert::FromSpecImpl<String> for StatusType {
    open spec fn obeys_from_spec() -> bool {
        true
    }

    open spec fn from_spec(s: String) -> StatusType {
        status_type_named(lower_of(s@))
    }
}

/// One entry of the presence rotation.
#[derive(Clone, Debug)]
pub struct Status {
    pub id: i64,
    pub kind: StatusType,
    pub status: String,
}

} // verus!

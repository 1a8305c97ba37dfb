//! The report of a failed command: where it goes and what it says.

use vstd::prelude::*;

use crate::config::Config;
use crate::text::{decimal, u64_text};

verus! {

/// What is known of a failed command; `time` comes formatted.
pub struct ErrorReport {
    pub time: String,
    /// The guild's name; `None` for a direct message.
    pub guild_name: Option<String>,
    pub guild_id: Option<u64>,
    pub channel_id: u64,
    /// The channel's name, where it could be looked up.
    pub channel_name: Option<String>,
    pub user_name: String,
    pub user_id: u64,
    /// The text of the message that failed.
    pub command: String,
    pub error: String,
}

/// The report to post, and the channel to post it in.
pub struct ErrorNotice {
    pub channel: u64,
    pub text: String,
}

/// The characters of `v`, or of `fallback` where `v` is `None`.
pub open spec fn or_text(v: Option<String>, fallback: Seq<char>) -> Seq<char> {
    match v {
        Some(s) => s@,
        None => fallback,
    }
}

/// The guild id in base ten, or `Unknown`.
pub open spec fn guild_id_text(id: Option<u64>) -> Seq<char> {
    match id {
        Some(g) => decimal(g as nat),
        None => "Unknown"@,
    }
}

/// The text of a report.
pub open spec fn error_text(r: ErrorReport) -> Seq<char> {
    "An Error occurred on "@ + r.time@ + "\n**Server:** "@ + or_text(r.guild_name, "Direct Message"@)
        + " - "@ + guild_id_text(r.guild_id) + "\n**Room:** "@ + or_text(r.channel_name, "Unknown"@)
        + "\n**User:** "@ + r.user_name@ + " - "@ + decimal(r.user_id as nat)
        + "\n**Command used:** "@ + r.command@ + "\n**Error:** "@ + r.error@
}

/// Where a report goes: the channel it happened in where that is a
/// development channel, else the log channel.
pub open spec fn error_channel(c: Config, channel_id: u64) -> u64 {
    if c.dev_channels@.contains(channel_id) {
        channel_id
    } else {
        c.log_channel
    }
}

/// Whether `ids` holds `id`.
fn holds_id(ids: &Vec<u64>, id: u64) -> (r: bool)
    ensures
        r == ids@.contains(id),
{
    let mut i: usize = 0;
    while i < ids.len()
        invariant
            i <= ids@.len(),
            forall|k: int| 0 <= k < i ==> ids@[k] != id,
        decreases ids@.len() - i,
    {
        if ids[i] == id {
            return true;
        }
        i = i + 1;
    }
    false
}

/// Appends the characters of `v`, or `fallback` where `v` is `None`.
fn append_or(out: &mut String, v: &Option<String>, fallback: &str)
    ensures
        final(out)@ == old(out)@ + or_text(*v, fallback@),
{
    match v {
        Some(s) => out.append(s.as_str()),
        None => out.append(fallback),
    }
}

/// The report of a failed command and the channel it goes to.
pub fn error_log(report: &ErrorReport, config: &Config) -> (r: ErrorNotice)
    ensures
        r.text@ == error_text(*report),
        r.channel == error_channel(*config, report.channel_id),
{
    let mut text = String::from_str("An Error occurred on ");
    text.append(report.time.as_str());
    text.append("\n**Server:** ");
    append_or(&mut text, &report.guild_name, "Direct Message");
    text.append(" - ");
    match report.guild_id {
        Some(g) => {
            let id = u64_text(g);
            text.append(id.as_str());
        },
        None => text.append("Unknown"),
    }
    text.append("\n**Room:** ");
    append_or(&mut text, &report.channel_name, "Unknown");
    text.append("\n**User:** ");
    text.append(report.user_name.as_str());
    text.append(" - ");
    let user = u64_text(report.user_id);
    text.append(user.as_str());
    text.append("\n**Command used:** ");
    text.append(report.command.as_str());
    text.append("\n**Error:** ");
    text.append(report.error.as_str());
    let channel = if holds_id(&config.dev_channels, report.channel_id) {
        report.channel_id
    } else {
        config.log_channel
    };
    ErrorNotice { channel, text }
}

} // verus!

//! Deciding whether a message is a command for the bot, and which.

use vstd::prelude::*;

use crate::commands::{command_for, dispatch, Command};
use crate::prefix::{
    default_prefix_spec, dev_prefix, dev_prefix_spec, override_of, registers, resolved_cache, resolved_prefix,
    PrefixCache,
};
use crate::text::{
    decimal, has_prefix, lower_of, split_whitespace, split_ws, starts_with, strip_leading,
    strip_leading_text, to_lowercase, views,
};

verus! {

/// A command invocation, derived from one message.
pub struct MessageCommandData {
    /// The words of the message, lowercased.
    pub content: Vec<String>,
    /// The first word without the prefix.
    pub command: String,
    /// The first word without a leading `$`, where it has one.
    pub react_cmd: Option<String>,
    /// The second word, where there is one.
    pub sub_cmd: Option<String>,
    /// The prefix in effect, lowercased.
    pub prefix: String,
}

/// What a `MessageCommandData` holds, as sequences of characters.
pub struct InvocationView {
    pub content: Seq<Seq<char>>,
    pub command: Seq<char>,
    pub react_cmd: Option<Seq<char>>,
    pub sub_cmd: Option<Seq<char>>,
    pub prefix: Seq<char>,
}

/// The characters of an optional string.
pub open spec fn text_of(o: Option<String>) -> Option<Seq<char>> {
    match o {
        Some(s) => Some(s@),
        None => None,
    }
}

impl View for MessageCommandData {
    type V = InvocationView;

    open spec fn view(&self) -> InvocationView {
        InvocationView {
            content: views(self.content@),
            command: self.command@,
            react_cmd: text_of(self.react_cmd),
            sub_cmd: text_of(self.sub_cmd),
            prefix: self.prefix@,
        }
    }
}

/// Each word lowercased.
pub open spec fn lowered(words: Seq<Seq<char>>) -> Seq<Seq<char>> {
    words.map_values(|w: Seq<char>| lower_of(w))
}

/// The word without its leading `$`, where it has one.
pub open spec fn reaction_of(word: Seq<char>) -> Option<Seq<char>> {
    if word.len() > 0 && word[0] == '$' {
        Some(word.skip(1))
    } else {
        None
    }
}

/// The invocation that the lowercased text `lt`, with lowercased words
/// `content`, makes under the lowercased prefix `lp`: none unless there are
/// words and the text starts with the prefix.
pub open spec fn invocation_lowered(
    lt: Seq<char>,
    content: Seq<Seq<char>>,
    lp: Seq<char>,
) -> Option<InvocationView> {
    if content.len() > 0 && has_prefix(lt, lp) {
        Some(
            InvocationView {
                content,
                command: strip_leading(content[0], lp),
                react_cmd: reaction_of(content[0]),
                sub_cmd: if content.len() > 1 {
                    Some(content[1])
                } else {
                    None
                },
                prefix: lp,
            },
        )
    } else {
        None
    }
}

/// The invocation that `text` makes under `prefix`: text, words and prefix
/// are compared lowercased.
pub open spec fn invocation(text: Seq<char>, prefix: Seq<char>) -> Option<InvocationView> {
    invocation_lowered(lower_of(text), lowered(split_ws(text)), lower_of(prefix))
}

/// Each word lowercased.
fn lowercase_all(words: &Vec<String>) -> (r: Vec<String>)
    ensures
        views(r@) == lowered(views(words@)),
{
    let mut r: Vec<String> = Vec::new();
    let mut i: usize = 0;
    while i < words.len()
        invariant
            i <= words@.len(),
            views(r@) == lowered(views(words@)).take(i as int),
        decreases words@.len() - i,
    {
        let ghost before = views(r@);
        let w = to_lowercase(words[i].as_str());
        r.push(w);
        assert(views(r@) =~= before.push(w@));
        assert(lowered(views(words@)).take(i as int + 1) =~= before.push(w@));
        i = i + 1;
    }
    assert(lowered(views(words@)).take(words@.len() as int) =~= lowered(views(words@)));
    r
}

/// The word without its leading `$`, where it has one.
fn reaction(word: &str) -> (r: Option<String>)
    ensures
        text_of(r) == reaction_of(word@),
{
    let n = word.unicode_len();
    if n > 0 && word.get_char(0) == '$' {
        Some(String::from_str(word.substring_char(1, n)))
    } else {
        None
    }
}

/// The invocation that `text` makes under `prefix`, if it makes one.
pub fn parse_invocation(text: &str, prefix: &str) -> (r: Option<MessageCommandData>)
    ensures
        r is Some == invocation(text@, prefix@) is Some,
        r is Some ==> r->0@ == invocation(text@, prefix@)->0,
{
    let lp = to_lowercase(prefix);
    let lt = to_lowercase(text);
    let words = split_whitespace(text);
    let content = lowercase_all(&words);
    invocation_of_lowered(lt.as_str(), content, lp.as_str())
}

/// The invocation that the lowercased text `lower_text`, with lowercased
/// words `words`, makes under the lowercased prefix `lower_prefix`.
pub fn invocation_of_lowered(lower_text: &str, words: Vec<String>, lower_prefix: &str) -> (r:
    Option<MessageCommandData>)
    ensures
        r is Some == invocation_lowered(lower_text@, views(words@), lower_prefix@) is Some,
        r is Some ==> r->0@ == invocation_lowered(lower_text@, views(words@), lower_prefix@)->0,
{
    if words.len() == 0 || !starts_with(lower_text, lower_prefix) {
        return None;
    }
    let command = strip_leading_text(words[0].as_str(), lower_prefix);
    let react_cmd = reaction(words[0].as_str());
    let sub_cmd = if words.len() > 1 {
        Some(words[1].clone())
    } else {
        None
    };
    Some(
        MessageCommandData {
            content: words,
            command,
            react_cmd,
            sub_cmd,
            prefix: String::from_str(lower_prefix),
        },
    )
}

/// What handling one message decided.
pub struct MessageOutcome {
    /// The guild id in base ten, where the message registered its guild: the
    /// caller writes the default prefix under it to the store.
    pub registered: Option<String>,
    /// The invocation, where the message is addressed to the bot.
    pub invocation: Option<MessageCommandData>,
    /// The command to run, where the invocation names a known one.
    pub command: Option<Command>,
}

/// The override that development mode puts on every guild.
pub open spec fn dev_override(dev_mode: bool) -> Option<Seq<char>> {
    if dev_mode {
        Some(dev_prefix_spec())
    } else {
        None
    }
}

/// Whether a message is dropped before its prefix is even looked up.
pub open spec fn ignored(text: Seq<char>, author_is_bot: bool) -> bool {
    author_is_bot || split_ws(text).len() == 0
}

/// The cache after handling one message.
pub open spec fn message_cache(
    m: Map<u64, Seq<char>>,
    text: Seq<char>,
    author_is_bot: bool,
    guild: Option<u64>,
    dev_mode: bool,
) -> Map<u64, Seq<char>> {
    if ignored(text, author_is_bot) {
        m
    } else {
        resolved_cache(m, guild, dev_override(dev_mode))
    }
}

/// Whether handling one message registers its guild.
pub open spec fn message_registers(
    m: Map<u64, Seq<char>>,
    text: Seq<char>,
    author_is_bot: bool,
    guild: Option<u64>,
    dev_mode: bool,
) -> bool {
    !ignored(text, author_is_bot) && registers(m, guild, dev_override(dev_mode))
}

/// The invocation that handling one message yields.
pub open spec fn message_invocation(
    m: Map<u64, Seq<char>>,
    text: Seq<char>,
    author_is_bot: bool,
    guild: Option<u64>,
    dev_mode: bool,
) -> Option<InvocationView> {
    if ignored(text, author_is_bot) {
        None
    } else {
        invocation(text, resolved_prefix(m, guild, dev_override(dev_mode)))
    }
}

/// The cache after handling, one after another, messages of people (not bots)
/// with the texts `texts`, all from `guild`.
pub open spec fn cache_after_messages(
    m: Map<u64, Seq<char>>,
    texts: Seq<Seq<char>>,
    guild: Option<u64>,
    dev_mode: bool,
) -> Map<u64, Seq<char>>
    decreases texts.len(),
{
    if texts.len() == 0 {
        m
    } else {
        message_cache(
            cache_after_messages(m, texts.drop_last(), guild, dev_mode),
            texts.last(),
            false,
            guild,
            dev_mode,
        )
    }
}

/// How many of those messages register the guild.
pub open spec fn message_registrations(
    m: Map<u64, Seq<char>>,
    texts: Seq<Seq<char>>,
    guild: Option<u64>,
    dev_mode: bool,
) -> nat
    decreases texts.len(),
{
    if texts.len() == 0 {
        0
    } else {
        let before = cache_after_messages(m, texts.drop_last(), guild, dev_mode);
        message_registrations(m, texts.drop_last(), guild, dev_mode) + if message_registers(
            before,
            texts.last(),
            false,
            guild,
            dev_mode,
        ) {
            1nat
        } else {
            0nat
        }
    }
}

/// One or more messages with words from a guild the cache does not hold,
/// handled one after another outside development mode (as the cache's
/// exclusive access orders concurrent ones), register the guild exactly once,
/// leave the default prefix cached for it, and each is read under the default
/// prefix.
pub proof fn lemma_messages_register_once(
    m: Map<u64, Seq<char>>,
    texts: Seq<Seq<char>>,
    g: u64,
)
    requires
        !m.contains_key(g),
        texts.len() >= 1,
        forall|i: int| 0 <= i < texts.len() ==> split_ws(#[trigger] texts[i]).len() > 0,
    ensures
        message_registrations(m, texts, Some(g), false) == 1,
        cache_after_messages(m, texts, Some(g), false) == m.insert(g, default_prefix_spec()),
        forall|i: int|
            0 <= i < texts.len() ==> message_invocation(
                #[trigger] cache_after_messages(m, texts.take(i), Some(g), false),
                texts[i],
                false,
                Some(g),
                false,
            ) == invocation(texts[i], default_prefix_spec()),
    decreases texts.len(),
{
    let d = default_prefix_spec();
    let n = texts.len() - 1;
    let init = texts.drop_last();
    assert(texts.take(n) =~= init);
    if n == 0 {
        assert(cache_after_messages(m, init, Some(g), false) == m);
        assert(message_registrations(m, init, Some(g), false) == 0);
    } else {
        assert forall|i: int| 0 <= i < init.len() implies split_ws(#[trigger] init[i]).len() > 0 by {
            assert(init[i] == texts[i]);
        }
        lemma_messages_register_once(m, init, g);
        let before = cache_after_messages(m, init, Some(g), false);
        assert(before.contains_key(g) && before[g] == d);
        assert(!message_registers(before, texts.last(), false, Some(g), false));
    }
    assert(!ignored(texts[n], false));
    assert forall|i: int| 0 <= i < texts.len() implies message_invocation(
        #[trigger] cache_after_messages(m, texts.take(i), Some(g), false),
        texts[i],
        false,
        Some(g),
        false,
    ) == invocation(texts[i], d) by {
        assert(!ignored(texts[i], false));
        if i == n {
            assert(texts.take(i) =~= init);
        } else {
            assert(texts.take(i) =~= init.take(i));
            assert(init[i] == texts[i]);
        }
    }
}

/// Handles one message: a bot's message or one without words is dropped;
/// otherwise the guild's prefix is resolved (registering a new guild), and a
/// message that starts with it becomes an invocation, dispatched where its
/// command is known.
pub fn handle_message(
    cache: &mut PrefixCache,
    text: &str,
    author_is_bot: bool,
    guild: Option<u64>,
    dev_mode: bool,
) -> (r: MessageOutcome)
    ensures
        ignored(text@, author_is_bot) ==> {
            &&& final(cache)@ == old(cache)@
            &&& r.registered is None
            &&& r.invocation is None
        },
        !ignored(text@, author_is_bot) ==> {
            let dev = dev_override(dev_mode);
            let inv = invocation(text@, resolved_prefix(old(cache)@, guild, dev));
            &&& final(cache)@ == resolved_cache(old(cache)@, guild, dev)
            &&& r.registered is Some == registers(old(cache)@, guild, dev)
            &&& r.registered is Some ==> r.registered->0@ == decimal(guild->0 as nat)
            &&& r.invocation is Some == inv is Some
            &&& r.invocation is Some ==> r.invocation->0@ == inv->0
        },
        final(cache)@ == message_cache(old(cache)@, text@, author_is_bot, guild, dev_mode),
        r.registered is Some == message_registers(
            old(cache)@,
            text@,
            author_is_bot,
            guild,
            dev_mode,
        ),
        r.invocation is Some == message_invocation(
            old(cache)@,
            text@,
            author_is_bot,
            guild,
            dev_mode,
        ) is Some,
        r.invocation is Some ==> r.invocation->0@ == message_invocation(
            old(cache)@,
            text@,
            author_is_bot,
            guild,
            dev_mode,
        )->0,
        r.invocation is None ==> r.command is None,
        r.invocation is Some ==> r.command == command_for(r.invocation->0@.command),
{
    if author_is_bot {
        return MessageOutcome { registered: None, invocation: None, command: None };
    }
    let words = split_whitespace(text);
    if words.len() == 0 {
        return MessageOutcome { registered: None, invocation: None, command: None };
    }
    let dev_text = dev_prefix();
    let dev: Option<&str> = if dev_mode {
        Some(dev_text.as_str())
    } else {
        None
    };
    assert(override_of(dev) == dev_override(dev_mode));
    assert(!ignored(text@, author_is_bot)) by {
        assert(views(words@).len() == words@.len());
    }
    let resolution = cache.resolve(guild, dev);
    let invocation = parse_invocation(text, resolution.prefix.as_str());
    let command = match &invocation {
        Some(data) => dispatch(data.command.as_str()),
        None => None,
    };
    MessageOutcome { registered: resolution.registered, invocation, command }
}

} // verus!

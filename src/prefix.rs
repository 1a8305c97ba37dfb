//! The per-guild prefix cache: the one view of guild to prefix at run time,
//! filled from the store at start and on the first message of a new guild.

use std::collections::HashMap;

use vstd::prelude::*;

use crate::models::Prefix;
use crate::text::{decimal, lemma_decimal_parses, parse_u64, parsed_u64, u64_text};

verus! {

broadcast use vstd::std_specs::hash::group_hash_axioms;

/// The prefix a guild gets when it is first seen.
pub open spec fn default_prefix_spec() -> Seq<char> {
    seq!['h', '!']
}

/// The prefix that development mode forces.
pub open spec fn dev_prefix_spec() -> Seq<char> {
    seq!['h', '?']
}

/// The prefix a guild gets when it is first seen.
pub fn default_prefix() -> (r: String)
    ensures
        r@ == default_prefix_spec(),
{
    proof {
        reveal_strlit("h!");
    }
    String::from_str("h!")
}

/// The prefix that development mode forces.
pub fn dev_prefix() -> (r: String)
    ensures
        r@ == dev_prefix_spec(),
{
    proof {
        reveal_strlit("h?");
    }
    String::from_str("h?")
}

/// The characters of an override, if there is one.
pub open spec fn override_of(o: Option<&str>) -> Option<Seq<char>> {
    match o {
        Some(p) => Some(p@),
        None => None,
    }
}

/// What `resolve` answers.
pub open spec fn resolved_prefix(
    m: Map<u64, Seq<char>>,
    guild: Option<u64>,
    dev: Option<Seq<char>>,
) -> Seq<char> {
    match dev {
        Some(p) => p,
        None => match guild {
            Some(g) => if m.contains_key(g) {
                m[g]
            } else {
                default_prefix_spec()
            },
            None => default_prefix_spec(),
        },
    }
}

/// Whether `resolve` registers the guild: a guild message, no override, and a miss.
pub open spec fn registers(m: Map<u64, Seq<char>>, guild: Option<u64>, dev: Option<Seq<char>>) -> bool {
    dev is None && guild is Some && !m.contains_key(guild->0)
}

/// The cache after `resolve`.
pub open spec fn resolved_cache(
    m: Map<u64, Seq<char>>,
    guild: Option<u64>,
    dev: Option<Seq<char>>,
) -> Map<u64, Seq<char>> {
    if registers(m, guild, dev) {
        m.insert(guild->0, default_prefix_spec())
    } else {
        m
    }
}

/// The cache after `n` calls of `resolve` with the same arguments.
pub open spec fn cache_after(
    m: Map<u64, Seq<char>>,
    guild: Option<u64>,
    dev: Option<Seq<char>>,
    n: nat,
) -> Map<u64, Seq<char>>
    decreases n,
{
    if n == 0 {
        m
    } else {
        resolved_cache(cache_after(m, guild, dev, (n - 1) as nat), guild, dev)
    }
}

/// How many of `n` calls of `resolve` with the same arguments register the guild.
pub open spec fn registrations(
    m: Map<u64, Seq<char>>,
    guild: Option<u64>,
    dev: Option<Seq<char>>,
    n: nat,
) -> nat
    decreases n,
{
    if n == 0 {
        0
    } else {
        let before = cache_after(m, guild, dev, (n - 1) as nat);
        registrations(m, guild, dev, (n - 1) as nat) + if registers(before, guild, dev) {
            1nat
        } else {
            0nat
        }
    }
}

/// The map that rows loaded in order give; a later row for a guild wins and a
/// row whose guild id is not a number is left out.
pub open spec fn loaded(rows: Seq<Prefix>) -> Map<u64, Seq<char>>
    decreases rows.len(),
{
    if rows.len() == 0 {
        Map::empty()
    } else {
        let m = loaded(rows.drop_last());
        match parsed_u64(rows.last().server_id@) {
            Some(g) => m.insert(g, rows.last().prefix@),
            None => m,
        }
    }
}

/// Guild id to prefix, as the bot uses it while it runs.
pub struct PrefixCache {
    prefixes: HashMap<u64, String>,
}

/// What `resolve` found.
pub struct Resolution {
    /// The prefix in effect, in the case it was stored with.
    pub prefix: String,
    /// The guild id in base ten, where this call registered the guild: the
    /// caller then writes the default prefix under it to the store.
    pub registered: Option<String>,
}

impl View for PrefixCache {
    type V = Map<u64, Seq<char>>;

    closed spec fn view(&self) -> Map<u64, Seq<char>> {
        self.prefixes@.map_values(|p: String| p@)
    }
}

impl PrefixCache {
    /// An empty cache.
    pub fn new() -> (r: PrefixCache)
        ensures
            r@ == Map::<u64, Seq<char>>::empty(),
    {
        let r = PrefixCache { prefixes: HashMap::new() };
        assert(r@ =~= Map::<u64, Seq<char>>::empty());
        r
    }

    /// The cache that the stored rows give, read in order.
    pub fn from_rows(rows: &Vec<Prefix>) -> (r: PrefixCache)
        ensures
            r@ == loaded(rows@),
    {
        let mut cache = PrefixCache::new();
        let mut i: usize = 0;
        while i < rows.len()
            invariant
                i <= rows@.len(),
                cache@ == loaded(rows@.take(i as int)),
            decreases rows@.len() - i,
        {
            let row = &rows[i];
            let ghost t = rows@.take(i as int + 1);
            assert(t.drop_last() =~= rows@.take(i as int));
            if let Some(g) = parse_u64(row.server_id.as_str()) {
                cache.set_prefix(g, row.prefix.clone());
            }
            i = i + 1;
        }
        assert(rows@.take(rows@.len() as int) =~= rows@);
        cache
    }

    /// The prefix stored for `guild`, if any.
    pub fn get(&self, guild: u64) -> (r: Option<String>)
        ensures
            r is Some == self@.contains_key(guild),
            r is Some ==> r->0@ == self@[guild],
    {
        match self.prefixes.get(&guild) {
            Some(p) => Some(p.clone()),
            None => None,
        }
    }

    /// Whether `guild` has a prefix here.
    pub fn contains(&self, guild: u64) -> (r: bool)
        ensures
            r == self@.contains_key(guild),
    {
        self.prefixes.contains_key(&guild)
    }

    /// Sets the prefix of `guild`, replacing any earlier one.
    pub fn set_prefix(&mut self, guild: u64, prefix: String)
        ensures
            final(self)@ == old(self)@.insert(guild, prefix@),
    {
        let ghost before = self.prefixes@;
        let ghost p = prefix@;
        self.prefixes.insert(guild, prefix);
        assert(self@ =~= old(self)@.insert(guild, p));
    }

    /// The prefix in effect for a message: the override where there is one, else
    /// the guild's own, registering the default for a guild not seen before.
    pub fn resolve(&mut self, guild: Option<u64>, dev_override: Option<&str>) -> (r: Resolution)
        ensures
            r.prefix@ == resolved_prefix(old(self)@, guild, override_of(dev_override)),
            final(self)@ == resolved_cache(old(self)@, guild, override_of(dev_override)),
            r.registered is Some == registers(old(self)@, guild, override_of(dev_override)),
            r.registered is Some ==> r.registered->0@ == decimal(guild->0 as nat),
    {
        match dev_override {
            Some(p) => Resolution { prefix: String::from_str(p), registered: None },
            None => match guild {
                Some(g) => match self.get(g) {
                    Some(p) => Resolution { prefix: p, registered: None },
                    None => {
                        let registered = register_prefix(self, g);
                        Resolution { prefix: default_prefix(), registered }
                    },
                },
                None => Resolution { prefix: default_prefix(), registered: None },
            },
        }
    }
}

/// Registers `guild_id` if the cache does not hold it yet: puts the default
/// prefix in the cache and gives the guild id in base ten, the key under which
/// the store is then to keep it. A guild the cache holds keeps its prefix, and
/// nothing is owed to the store.
pub fn register_prefix(cache: &mut PrefixCache, guild_id: u64) -> (r: Option<String>)
    ensures
        final(cache)@ == if old(cache)@.contains_key(guild_id) {
            old(cache)@
        } else {
            old(cache)@.insert(guild_id, default_prefix_spec())
        },
        r is Some == !old(cache)@.contains_key(guild_id),
        r is Some ==> r->0@ == decimal(guild_id as nat),
{
    if cache.contains(guild_id) {
        return None;
    }
    cache.set_prefix(guild_id, default_prefix());
    Some(u64_text(guild_id))
}

/// Any number of `resolve` calls for a guild that the cache does not hold, made
/// one after another without an override (as the cache's exclusive access
/// orders concurrent callers), register the guild exactly once, and every one
/// of them answers the default prefix.
pub proof fn lemma_registration_once(m: Map<u64, Seq<char>>, g: u64, n: nat)
    requires
        !m.contains_key(g),
        n >= 1,
    ensures
        registrations(m, Some(g), None, n) == 1,
        cache_after(m, Some(g), None, n) == m.insert(g, default_prefix_spec()),
        forall|i: nat|
            i < n ==> resolved_prefix(#[trigger] cache_after(m, Some(g), None, i), Some(g), None)
                == default_prefix_spec(),
    decreases n,
{
    let d = default_prefix_spec();
    assert(cache_after(m, Some(g), None, 0) == m);
    if n == 1 {
        assert(registrations(m, Some(g), None, 0) == 0);
        assert forall|i: nat| i < n implies resolved_prefix(
            #[trigger] cache_after(m, Some(g), None, i),
            Some(g),
            None,
        ) == d by {
            assert(i == 0);
        }
    } else {
        lemma_registration_once(m, g, (n - 1) as nat);
        let before = cache_after(m, Some(g), None, (n - 1) as nat);
        assert(before.contains_key(g) && before[g] == d);
        assert(!registers(before, Some(g), None));
        assert forall|i: nat| i < n implies resolved_prefix(
            #[trigger] cache_after(m, Some(g), None, i),
            Some(g),
            None,
        ) == d by {
            if i == n - 1 {
                assert(cache_after(m, Some(g), None, i) == before);
            }
        }
    }
}

/// Right after `resolve` registers a guild, the next `resolve` for it answers
/// the cached prefix, the one the first call gave, and registers nothing.
pub proof fn lemma_cached_after_registration(m: Map<u64, Seq<char>>, g: u64)
    requires
        registers(m, Some(g), None),
    ensures
        ({
            let next = resolved_cache(m, Some(g), None);
            &&& !registers(next, Some(g), None)
            &&& resolved_cache(next, Some(g), None) == next
            &&& resolved_prefix(next, Some(g), None) == next[g]
            &&& resolved_prefix(next, Some(g), None) == resolved_prefix(m, Some(g), None)
        }),
{
}

/// With an override, `resolve` answers the override whatever the cache holds
/// for the guild, and leaves the cache as it was.
pub proof fn lemma_override_wins(m: Map<u64, Seq<char>>, guild: Option<u64>, p: Seq<char>)
    ensures
        resolved_prefix(m, guild, Some(p)) == p,
        resolved_cache(m, guild, Some(p)) == m,
        !registers(m, guild, Some(p)),
{
}

/// A row stored under the key that registration gives a guild is read back at
/// start as that guild's prefix.
pub proof fn lemma_registered_row_loads(rows: Seq<Prefix>, row: Prefix, g: u64)
    requires
        row.server_id@ == decimal(g as nat),
    ensures
        loaded(rows.push(row)) == loaded(rows).insert(g, row.prefix@),
{
    lemma_decimal_parses(g);
    assert(rows.push(row).drop_last() =~= rows);
}

} // verus!

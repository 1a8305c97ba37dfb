//! The bot's settings, built from the values of its environment.

use vstd::prelude::*;

use crate::text::same_text;

verus! {

/// The settings the bot runs with.
pub struct Config {
    pub bot_token: String,
    pub exchange_api_key: String,
    pub imgur_client_id: String,
    pub imgur_client_secret: String,
    pub reddit_client_id: String,
    pub reddit_client_secret: String,
    pub reddit_refresh_token: String,
    pub mongo_uri: String,
    pub dev_mode: bool,
    /// The colour of embeds, as `0xRRGGBB`.
    pub embed_colour: u32,
    /// Channels whose errors are reported where they happened.
    pub dev_channels: Vec<u64>,
    pub bot_owners: Vec<u64>,
    /// The channel that gets every other error report.
    pub log_channel: u64,
}

/// The users who may run owner-only commands.
pub struct Owners {
    pub primary: u64,
    pub secondary: Vec<u64>,
}

/// The environment variables that settings come from; `None` where one is unset.
pub struct EnvVars {
    pub bot_token: Option<String>,
    pub exchange_api_key: Option<String>,
    pub imgur_client_id: Option<String>,
    pub imgur_client_secret: Option<String>,
    pub reddit_client_id: Option<String>,
    pub reddit_client_secret: Option<String>,
    pub reddit_refresh_token: Option<String>,
    pub mongo_uri: Option<String>,
    pub dev_mode: Option<String>,
    pub docker: Option<String>,
}

/// The characters of a variable, empty where it is unset.
pub open spec fn value_of(v: Option<String>) -> Seq<char> {
    match v {
        Some(s) => s@,
        None => Seq::empty(),
    }
}

/// A flag variable is on when it reads `true`.
pub open spec fn flag_on(v: Seq<char>) -> bool {
    v == "true"@
}

/// The store address: the container's when running in one, else the variable,
/// else the local default.
pub open spec fn mongo_uri_for(env: EnvVars) -> Seq<char> {
    if flag_on(value_of(env.docker)) {
        "mongodb://db:27017/"@
    } else {
        match env.mongo_uri {
            Some(s) => s@,
            None => "mongodb://127.0.0.1:27017/"@,
        }
    }
}

/// The name of the first of the six credentials, in this order, that is empty.
pub open spec fn first_empty(
    exchange_api_key: Seq<char>,
    imgur_client_id: Seq<char>,
    imgur_client_secret: Seq<char>,
    reddit_client_id: Seq<char>,
    reddit_client_secret: Seq<char>,
    reddit_refresh_token: Seq<char>,
) -> Option<Seq<char>> {
    if exchange_api_key.len() == 0 {
        Some("Exchange API Key"@)
    } else if imgur_client_id.len() == 0 {
        Some("Imgur Client ID"@)
    } else if imgur_client_secret.len() == 0 {
        Some("Imgur Client Secret"@)
    } else if reddit_client_id.len() == 0 {
        Some("Reddit Client ID"@)
    } else if reddit_client_secret.len() == 0 {
        Some("Reddit Client Secret"@)
    } else if reddit_refresh_token.len() == 0 {
        Some("Reddit Refresh Token"@)
    } else {
        None
    }
}

/// The first credential of the settings that is empty.
pub open spec fn missing_credential(c: Config) -> Option<Seq<char>> {
    first_empty(
        c.exchange_api_key@,
        c.imgur_client_id@,
        c.imgur_client_secret@,
        c.reddit_client_id@,
        c.reddit_client_secret@,
        c.reddit_refresh_token@,
    )
}

/// The first credential that the environment leaves empty or unset.
pub open spec fn missing_credential_of(env: EnvVars) -> Option<Seq<char>> {
    first_empty(
        value_of(env.exchange_api_key),
        value_of(env.imgur_client_id),
        value_of(env.imgur_client_secret),
        value_of(env.reddit_client_id),
        value_of(env.reddit_client_secret),
        value_of(env.reddit_refresh_token),
    )
}

/// Whether the development flag's value turns development mode on.
pub fn is_indev(value: &str) -> (r: bool)
    ensures
        r == flag_on(value@),
{
    same_text(value, "true")
}

/// Whether the container flag's value says the bot runs in a container.
pub fn inside_docker(value: &str) -> (r: bool)
    ensures
        r == flag_on(value@),
{
    same_text(value, "true")
}

/// The value of a variable, empty where it is unset.
fn value_or_empty(v: Option<String>) -> (r: String)
    ensures
        r@ == value_of(v),
{
    match v {
        Some(s) => s,
        None => String::new(),
    }
}

impl Config {
    /// The settings the environment gives, or the name of the first credential
    /// that is missing.
    pub fn new(env: EnvVars) -> (r: Result<Config, Vec<&'static str>>)
        ensures
            match r {
                Ok(c) => {
                    &&& missing_credential(c) is None
                    &&& c.bot_token@ == value_of(env.bot_token)
                    &&& c.exchange_api_key@ == value_of(env.exchange_api_key)
                    &&& c.imgur_client_id@ == value_of(env.imgur_client_id)
                    &&& c.imgur_client_secret@ == value_of(env.imgur_client_secret)
                    &&& c.reddit_client_id@ == value_of(env.reddit_client_id)
                    &&& c.reddit_client_secret@ == value_of(env.reddit_client_secret)
                    &&& c.reddit_refresh_token@ == value_of(env.reddit_refresh_token)
                    &&& c.mongo_uri@ == mongo_uri_for(env)
                    &&& c.dev_mode == flag_on(value_of(env.dev_mode))
                    &&& c.embed_colour == 0xCE3A9B
                    &&& c.dev_channels@ == seq![655484859405303809u64, 551588329003548683, 922679249058553857]
                    &&& c.bot_owners@ == seq![258993932262834188u64, 207505077013839883]
                    &&& c.log_channel == 655484804405657642
                },
                Err(names) => names@.len() == 1 && names@[0]@ == missing_credential_of(env)->0,
            },
            r is Err == missing_credential_of(env) is Some,
    {
        let docker = value_or_empty(env.docker);
        let dev = value_or_empty(env.dev_mode);
        let mongo_uri = if inside_docker(docker.as_str()) {
            String::from_str("mongodb://db:27017/")
        } else {
            match env.mongo_uri {
                Some(s) => s,
                None => String::from_str("mongodb://127.0.0.1:27017/"),
            }
        };
        let config = Config {
            bot_token: value_or_empty(env.bot_token),
            exchange_api_key: value_or_empty(env.exchange_api_key),
            imgur_client_id: value_or_empty(env.imgur_client_id),
            imgur_client_secret: value_or_empty(env.imgur_client_secret),
            reddit_client_id: value_or_empty(env.reddit_client_id),
            reddit_client_secret: value_or_empty(env.reddit_client_secret),
            reddit_refresh_token: value_or_empty(env.reddit_refresh_token),
            mongo_uri,
            dev_mode: is_indev(dev.as_str()),
            embed_colour: 0xCE3A9B,
            dev_channels: vec![655484859405303809, 551588329003548683, 922679249058553857],
            bot_owners: vec![258993932262834188, 207505077013839883],
            log_channel: 655484804405657642,
        };
        let missing = config.check_config();
        if missing.len() > 0 {
            Err(missing)
        } else {
            Ok(config)
        }
    }

    /// The name of the first credential that is empty, if any.
    pub fn check_config(&self) -> (r: Vec<&'static str>)
        ensures
            r@.len() == if missing_credential(*self) is Some {
                1int
            } else {
                0int
            },
            r@.len() == 1 ==> r@[0]@ == missing_credential(*self)->0,
    {
        let mut missing = Vec::new();
        if self.exchange_api_key.as_str().is_empty() {
            missing.push("Exchange API Key");
        } else if self.imgur_client_id.as_str().is_empty() {
            missing.push("Imgur Client ID");
        } else if self.imgur_client_secret.as_str().is_empty() {
            missing.push("Imgur Client Secret");
        } else if self.reddit_client_id.as_str().is_empty() {
            missing.push("Reddit Client ID");
        } else if self.reddit_client_secret.as_str().is_empty() {
            missing.push("Reddit Client Secret");
        } else if self.reddit_refresh_token.as_str().is_empty() {
            missing.push("Reddit Refresh Token");
        }
        missing
    }
}

} // verus!

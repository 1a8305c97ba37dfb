use hifumi::commands::{avatar_title, dispatch, parse_target_user, Command, TargetUser, TargetUserError};
use hifumi::prefix::PrefixCache;
use hifumi::router::{handle_message, invocation_of_lowered, parse_invocation};

#[test]
fn uppercase_message_matches_lowercase_prefix() {
    let mut cache = PrefixCache::new();
    let out = handle_message(&mut cache, "H!PING", false, Some(1), false);
    let inv = out.invocation.expect("recognized as a command");
    assert_eq!(inv.command, "ping");
    assert_eq!(inv.prefix, "h!");
    assert_eq!(inv.content, vec!["h!ping".to_string()]);
    assert_eq!(out.command, None);
}

#[test]
fn bot_message_never_dispatches() {
    let mut cache = PrefixCache::new();
    let out = handle_message(&mut cache, "h!pfp", true, Some(1), false);
    assert!(out.invocation.is_none());
    assert!(out.command.is_none());
    assert!(out.registered.is_none());
    assert!(!cache.contains(1));
}

#[test]
fn unknown_command_is_silent() {
    let mut cache = PrefixCache::new();
    let out = handle_message(&mut cache, "h!frobnicate", false, Some(1), false);
    let inv = out.invocation.expect("addressed to the bot");
    assert_eq!(inv.command, "frobnicate");
    assert_eq!(out.command, None);
}

#[test]
fn first_pfp_registers_then_second_resolves_the_same() {
    let mut cache = PrefixCache::new();
    let first = handle_message(&mut cache, "h!pfp", false, Some(111), false);
    assert_eq!(first.registered, Some("111".to_string()));
    assert_eq!(cache.get(111), Some("h!".to_string()));
    assert_eq!(first.invocation.as_ref().unwrap().command, "pfp");
    assert_eq!(first.command, Some(Command::Avatar));

    let second = handle_message(&mut cache, "H!PFP", false, Some(111), false);
    assert_eq!(second.registered, None);
    assert_eq!(second.invocation.as_ref().unwrap().prefix, "h!");
    assert_eq!(second.command, Some(Command::Avatar));
}

#[test]
fn empty_message_does_not_register() {
    let mut cache = PrefixCache::new();
    let out = handle_message(&mut cache, " \t\n ", false, Some(5), false);
    assert!(out.registered.is_none());
    assert!(out.invocation.is_none());
    assert!(!cache.contains(5));
}

#[test]
fn dev_mode_uses_alternate_prefix() {
    let mut cache = PrefixCache::new();
    let out = handle_message(&mut cache, "h!pfp", false, Some(5), true);
    assert!(out.invocation.is_none());
    assert!(out.registered.is_none());
    let out = handle_message(&mut cache, "h?avatar", false, Some(5), true);
    assert_eq!(out.command, Some(Command::Avatar));
}

#[test]
fn message_without_prefix_is_ignored_but_registers() {
    let mut cache = PrefixCache::new();
    let out = handle_message(&mut cache, "hello there", false, Some(8), false);
    assert!(out.invocation.is_none());
    assert_eq!(out.registered, Some("8".to_string()));
}

#[test]
fn leading_space_is_not_a_command() {
    assert!(parse_invocation("  h!test", "h!").is_none());
}

#[test]
fn invocation_words_and_sub_command() {
    let inv = parse_invocation("h!Test\tSub\u{3000}<@12>", "H!").unwrap();
    assert_eq!(inv.content, vec!["h!test".to_string(), "sub".to_string(), "<@12>".to_string()]);
    assert_eq!(inv.command, "test");
    assert_eq!(inv.sub_cmd, Some("sub".to_string()));
    assert_eq!(inv.react_cmd, None);
    assert_eq!(inv.prefix, "h!");
}

#[test]
fn reaction_command_is_first_word_without_marker() {
    let inv = parse_invocation("$Hug me", "").unwrap();
    assert_eq!(inv.react_cmd, Some("hug".to_string()));
    assert_eq!(inv.command, "$hug");
}

#[test]
fn dispatch_table() {
    assert_eq!(dispatch("pfp"), Some(Command::Avatar));
    assert_eq!(dispatch("avatar"), Some(Command::Avatar));
    assert_eq!(dispatch("test"), Some(Command::Test));
    assert_eq!(dispatch("PFP"), None);
    assert_eq!(dispatch(""), None);
}

#[test]
fn target_user_from_mention_id_or_author() {
    let inv = parse_invocation("h!pfp <@!x> <@258993932262834188> 207505077013839883 abc", "h!").unwrap();
    assert_eq!(parse_target_user(&inv, 2), Ok(TargetUser::Id(258993932262834188)));
    assert_eq!(parse_target_user(&inv, 3), Ok(TargetUser::Id(207505077013839883)));
    assert_eq!(parse_target_user(&inv, 4), Err(TargetUserError::InvalidUserId));
    assert_eq!(parse_target_user(&inv, 1), Err(TargetUserError::InvalidUserId));
    assert_eq!(parse_target_user(&inv, 5), Ok(TargetUser::Author));
}

#[test]
fn target_user_strips_every_marker() {
    let inv = parse_invocation("h!pfp <@<@12>>", "h!").unwrap();
    assert_eq!(parse_target_user(&inv, 1), Ok(TargetUser::Id(12)));
}

#[test]
fn avatar_title_text() {
    assert_eq!(avatar_title("Hifumi"), "Hifumi's avatar");
}

#[test]
fn zero_user_id_is_invalid() {
    let inv = parse_invocation("h!pfp <@0> 0", "h!").unwrap();
    assert_eq!(parse_target_user(&inv, 1), Err(TargetUserError::InvalidUserId));
    assert_eq!(parse_target_user(&inv, 2), Err(TargetUserError::InvalidUserId));
}

#[test]
fn lowered_invocation_is_exact() {
    let words = vec!["h!pfp".to_string(), "me".to_string()];
    let inv = invocation_of_lowered("h!pfp   me", words, "h!").unwrap();
    assert_eq!(inv.command, "pfp");
    assert_eq!(inv.sub_cmd, Some("me".to_string()));
    assert_eq!(inv.prefix, "h!");
    assert_eq!(dispatch(&inv.command), Some(Command::Avatar));

    let words = vec!["h!frobnicate".to_string()];
    let inv = invocation_of_lowered("h!frobnicate", words, "h!").unwrap();
    assert_eq!(inv.command, "frobnicate");
    assert_eq!(dispatch(&inv.command), None);

    assert!(invocation_of_lowered("x h!pfp", vec!["x".to_string()], "h!").is_none());
    assert!(invocation_of_lowered("h!", Vec::new(), "h!").is_none());
}

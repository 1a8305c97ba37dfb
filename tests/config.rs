use hifumi::config::{inside_docker, is_indev, Config, EnvVars};
use hifumi::report::{error_log, ErrorReport};

fn full_env() -> EnvVars {
    EnvVars {
        bot_token: Some("SECRET-REDACTED".to_string()),
        exchange_api_key: Some("x".to_string()),
        imgur_client_id: Some("x".to_string()),
        imgur_client_secret: Some("x".to_string()),
        reddit_client_id: Some("x".to_string()),
        reddit_client_secret: Some("x".to_string()),
        reddit_refresh_token: Some("x".to_string()),
        mongo_uri: None,
        dev_mode: Some("true".to_string()),
        docker: None,
    }
}

#[test]
fn complete_environment_gives_settings() {
    let c = Config::new(full_env()).ok().unwrap();
    assert!(c.dev_mode);
    assert_eq!(c.mongo_uri, "mongodb://127.0.0.1:27017/");
    assert_eq!(c.embed_colour, 0xCE3A9B);
    assert_eq!(c.log_channel, 655484804405657642);
    assert!(c.check_config().is_empty());
}

#[test]
fn docker_overrides_store_address() {
    let mut env = full_env();
    env.docker = Some("true".to_string());
    env.mongo_uri = Some("mongodb://elsewhere/".to_string());
    env.dev_mode = Some("TRUE".to_string());
    let c = Config::new(env).ok().unwrap();
    assert_eq!(c.mongo_uri, "mongodb://db:27017/");
    assert!(!c.dev_mode);
}

#[test]
fn first_missing_credential_is_named() {
    let mut env = full_env();
    env.imgur_client_secret = None;
    env.reddit_refresh_token = Some(String::new());
    match Config::new(env) {
        Err(names) => assert_eq!(names, vec!["Imgur Client Secret"]),
        Ok(_) => panic!("a credential is missing"),
    }
    let mut env = full_env();
    env.exchange_api_key = None;
    match Config::new(env) {
        Err(names) => assert_eq!(names, vec!["Exchange API Key"]),
        Ok(_) => panic!("a credential is missing"),
    }
}

#[test]
fn flags_read_true_only() {
    assert!(is_indev("true"));
    assert!(!is_indev("True"));
    assert!(!is_indev(""));
    assert!(inside_docker("true"));
    assert!(!inside_docker("1"));
}

fn report(channel_id: u64) -> ErrorReport {
    ErrorReport {
        time: "01/02/2024 10:00:00 UTC".to_string(),
        guild_name: None,
        guild_id: None,
        channel_id,
        channel_name: Some("general".to_string()),
        user_name: "someone".to_string(),
        user_id: 207505077013839883,
        command: "h!pfp x".to_string(),
        error: "Invalid User Id".to_string(),
    }
}

#[test]
fn error_report_text_and_log_channel() {
    let c = Config::new(full_env()).ok().unwrap();
    let notice = error_log(&report(5), &c);
    assert_eq!(notice.channel, 655484804405657642);
    assert_eq!(
        notice.text,
        "An Error occurred on 01/02/2024 10:00:00 UTC\n**Server:** Direct Message - Unknown\n**Room:** general\n**User:** someone - 207505077013839883\n**Command used:** h!pfp x\n**Error:** Invalid User Id"
    );
}

#[test]
fn error_report_stays_in_dev_channel() {
    let c = Config::new(full_env()).ok().unwrap();
    let mut r = report(551588329003548683);
    r.guild_name = Some("Home".to_string());
    r.guild_id = Some(922679249058553857);
    r.channel_name = None;
    let notice = error_log(&r, &c);
    assert_eq!(notice.channel, 551588329003548683);
    assert!(notice.text.contains("**Server:** Home - 922679249058553857\n**Room:** Unknown\n"));
}

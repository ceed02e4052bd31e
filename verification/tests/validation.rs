use notify_rs::Config;
use notify_rs::HttpRequest;
use notify_rs::Notify;
use notify_rs::NotifyError;
use notify_rs::Platform;

fn notify(platform: Platform, token: &str, channel: &str) -> Notify {
    Notify::new(Config {
        platform,
        token: token.to_string(),
        channel: channel.to_string(),
    })
    .unwrap()
}

fn expect_err(r: Result<HttpRequest, NotifyError>) -> NotifyError {
    match r {
        Err(e) => e,
        Ok(_) => panic!("expected a validation error"),
    }
}

fn missing(name: &str) -> NotifyError {
    NotifyError::MissingField(name.to_string())
}

#[test]
fn empty_token_reported_on_every_platform() {
    let all = [
        notify(Platform::Slack, "", "general"),
        notify(Platform::Discord, "", "123"),
        notify(Platform::Telegram, "", "42"),
        notify(Platform::Pushover, "", "user-key"),
    ];
    for n in all {
        assert_eq!(expect_err(n.prepare("hello")), missing("token"));
    }
}

#[test]
fn empty_message_reported_when_credentials_are_present() {
    let all = [
        notify(Platform::Slack, "xoxb-1", "general"),
        notify(Platform::Discord, "secret", "123"),
        notify(Platform::Telegram, "bot-token", "42"),
        notify(Platform::Pushover, "app-token", "user-key"),
    ];
    for n in all {
        assert_eq!(expect_err(n.prepare("")), missing("message"));
    }
}

#[test]
fn token_checked_before_destination() {
    let all = [
        notify(Platform::Slack, "", ""),
        notify(Platform::Discord, "", ""),
        notify(Platform::Telegram, "", "0"),
        notify(Platform::Pushover, "", ""),
    ];
    for n in all {
        assert_eq!(expect_err(n.prepare("hello")), missing("token"));
    }
}

#[test]
fn destination_checked_before_message() {
    assert_eq!(
        expect_err(notify(Platform::Slack, "xoxb-1", "").prepare("")),
        missing("channel")
    );
    assert_eq!(
        expect_err(notify(Platform::Discord, "secret", "").prepare("")),
        missing("channel")
    );
    assert_eq!(
        expect_err(notify(Platform::Telegram, "bot-token", "0").prepare("")),
        missing("chat_id")
    );
    assert_eq!(
        expect_err(notify(Platform::Pushover, "app-token", "").prepare("")),
        missing("user")
    );
}

#[test]
fn telegram_non_numeric_channel_rejected_at_construction() {
    let r = Notify::new(Config {
        platform: Platform::Telegram,
        token: "bot-token".to_string(),
        channel: "general".to_string(),
    });
    match r {
        Err(NotifyError::InvalidConfig(d)) => {
            assert_eq!(d, "chat_id is not an integer");
        }
        _ => panic!("expected invalid configuration"),
    }
}

#[test]
fn telegram_zero_chat_id_never_sends() {
    let n = notify(Platform::Telegram, "bot-token", "0");
    assert_eq!(expect_err(n.prepare("hello")), missing("chat_id"));
}

#[test]
fn telegram_numeric_channel_bounds() {
    assert!(Notify::new(Config {
        platform: Platform::Telegram,
        token: "t".to_string(),
        channel: "9223372036854775807".to_string(),
    })
    .is_ok());
    assert!(Notify::new(Config {
        platform: Platform::Telegram,
        token: "t".to_string(),
        channel: "-9223372036854775808".to_string(),
    })
    .is_ok());
    for bad in ["9223372036854775808", "-9223372036854775809", "", "+", "-", "12a", " 12"] {
        let r = Notify::new(Config {
            platform: Platform::Telegram,
            token: "t".to_string(),
            channel: bad.to_string(),
        });
        assert!(matches!(r, Err(NotifyError::InvalidConfig(_))), "{bad}");
    }
}

#[test]
fn error_messages_are_the_variant_phrases() {
    assert_eq!(
        NotifyError::MissingField("token".to_string()).message(),
        "Missing required field: token"
    );
    assert_eq!(
        NotifyError::RequestFailed("boom".to_string()).message(),
        "Request failed: boom"
    );
    assert_eq!(
        NotifyError::InvalidConfig("bad".to_string()).message(),
        "Invalid configuration: bad"
    );
    assert_eq!(
        NotifyError::UnsupportedPlatform.message(),
        "Platform not supported"
    );
}

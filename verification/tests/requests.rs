use notify_rs::Config;
use notify_rs::HttpRequest;
use notify_rs::Notify;
use notify_rs::Platform;
use notify_rs::json_escape;

fn prepared(platform: Platform, token: &str, channel: &str, message: &str) -> HttpRequest {
    let n = Notify::new(Config {
        platform,
        token: token.to_string(),
        channel: channel.to_string(),
    })
    .unwrap();
    n.prepare(message).unwrap()
}

#[test]
fn slack_request_shape() {
    let r = prepared(Platform::Slack, "xoxb-1", "general", "hi");
    assert_eq!(r.url, "https://slack.com/api/chat.postMessage");
    assert_eq!(r.bearer.as_deref(), Some("Bearer xoxb-1"));
    assert_eq!(r.body, "{\"token\":\"xoxb-1\",\"channel\":\"general\",\"text\":\"hi\"}");
}

#[test]
fn discord_request_shape() {
    let r = prepared(Platform::Discord, "tok-9", "12345", "hi");
    assert_eq!(r.url, "https://discord.com/api/webhooks/12345/tok-9");
    assert!(r.bearer.is_none());
    assert_eq!(r.body, "{\"content\":\"hi\"}");
}

#[test]
fn pushover_request_shape() {
    let r = prepared(Platform::Pushover, "app-token", "user-key", "hi");
    assert_eq!(r.url, "https://api.pushover.net/1/messages.json");
    assert!(r.bearer.is_none());
    assert_eq!(
        r.body,
        "{\"token\":\"app-token\",\"user\":\"user-key\",\"message\":\"hi\"}"
    );
}

#[test]
fn telegram_request_shape() {
    let r = prepared(Platform::Telegram, "bot-token", "-1001234567890", "hi");
    assert_eq!(r.url, "https://api.telegram.org/botbot-token/sendMessage");
    assert!(r.bearer.is_none());
    assert_eq!(r.body, "{\"chat_id\":-1001234567890,\"text\":\"hi\"}");
}

#[test]
fn telegram_plus_sign_channel_normalizes() {
    let r = prepared(Platform::Telegram, "bot-token", "+42", "hi");
    assert_eq!(r.body, "{\"chat_id\":42,\"text\":\"hi\"}");
}

#[test]
fn message_text_is_json_escaped() {
    let r = prepared(Platform::Discord, "t", "1", "say \"hi\"\\now\n");
    assert_eq!(r.body, "{\"content\":\"say \\\"hi\\\"\\\\now\\n\"}");
}

#[test]
fn escape_covers_quotes_backslashes_and_controls() {
    assert_eq!(json_escape("plain"), "plain");
    assert_eq!(json_escape("a\"b"), "a\\\"b");
    assert_eq!(json_escape("a\\b"), "a\\\\b");
    assert_eq!(json_escape("a\nb\rc\td"), "a\\nb\\rc\\td");
    assert_eq!(json_escape("\u{1}\u{1f}"), "\\u0001\\u001f");
    assert_eq!(json_escape("caf\u{e9}"), "caf\u{e9}");
}

use notify_rs::Config;
use notify_rs::DiscordProvider;
use notify_rs::HttpResponse;
use notify_rs::Notify;
use notify_rs::NotifyError;
use notify_rs::Platform;
use notify_rs::PushoverProvider;
use notify_rs::SlackProvider;
use notify_rs::TelegramProvider;
use notify_rs::providers::discord::DiscordReply;
use notify_rs::providers::pushover::PushoverReply;
use notify_rs::providers::slack::SlackReply;
use notify_rs::providers::telegram::TelegramReply;

fn notify(platform: Platform, token: &str, channel: &str) -> Notify {
    Notify::new(Config {
        platform,
        token: token.to_string(),
        channel: channel.to_string(),
    })
    .unwrap()
}

fn ok_response(status: u16, body: &str) -> Result<HttpResponse, String> {
    Ok(HttpResponse {
        status,
        body: body.to_string(),
    })
}

fn failed(detail: &str) -> Result<(), NotifyError> {
    Err(NotifyError::RequestFailed(detail.to_string()))
}

#[test]
fn slack_response_interpretation() {
    let n = notify(Platform::Slack, "t", "c");
    assert_eq!(n.interpret(ok_response(200, "{\"ok\": true}")), Ok(()));
    assert_eq!(
        n.interpret(ok_response(200, "{\"ok\": false, \"error\": \"channel_not_found\"}")),
        failed("channel_not_found")
    );
    assert_eq!(n.interpret(ok_response(200, "{\"ok\": false}")), failed("Unknown error"));
    assert_eq!(n.interpret(ok_response(200, "not json")), failed("invalid response body"));
    assert_eq!(n.interpret(ok_response(200, "{\"ok\": \"yes\"}")), failed("invalid response body"));
}

#[test]
fn discord_response_interpretation() {
    let n = notify(Platform::Discord, "t", "c");
    assert_eq!(n.interpret(ok_response(204, "")), Ok(()));
    assert_eq!(n.interpret(ok_response(204, "anything at all")), Ok(()));
    assert_eq!(
        n.interpret(ok_response(401, "{\"error\": \"Unauthorized\"}")),
        failed("Unauthorized")
    );
    assert_eq!(n.interpret(ok_response(400, "{}")), failed("Unknown error"));
    assert_eq!(n.interpret(ok_response(500, "not json")), failed("Unknown error"));
}

#[test]
fn pushover_response_interpretation() {
    let n = notify(Platform::Pushover, "t", "u");
    assert_eq!(n.interpret(ok_response(200, "{\"status\": 1}")), Ok(()));
    assert_eq!(
        n.interpret(ok_response(200, "{\"status\": 0, \"errors\": [\"invalid token\"]}")),
        failed("invalid token")
    );
    assert_eq!(
        n.interpret(ok_response(200, "{\"status\": 0, \"errors\": []}")),
        failed("Unknown error")
    );
    assert_eq!(n.interpret(ok_response(200, "{\"status\": 0}")), failed("Unknown error"));
    assert_eq!(n.interpret(ok_response(200, "[]")), failed("invalid response body"));
}

#[test]
fn telegram_response_interpretation() {
    let n = notify(Platform::Telegram, "t", "42");
    assert_eq!(
        n.interpret(ok_response(200, "{\"ok\": true, \"result\": {\"message_id\": 42}}")),
        Ok(())
    );
    assert_eq!(
        n.interpret(
            ok_response(200, "{\"ok\": false, \"description\": \"Bad Request: chat not found\"}")
        ),
        failed("Bad Request: chat not found")
    );
    assert_eq!(n.interpret(ok_response(200, "{\"ok\": false}")), failed("Unknown error"));
    assert_eq!(n.interpret(ok_response(200, "")), failed("invalid response body"));
}

#[test]
fn transport_failure_is_uniform_across_platforms() {
    let all = [
        notify(Platform::Slack, "t", "c"),
        notify(Platform::Discord, "t", "c"),
        notify(Platform::Telegram, "t", "42"),
        notify(Platform::Pushover, "t", "u"),
    ];
    for n in all {
        assert_eq!(
            n.interpret(Err("connection refused".to_string())),
            failed("connection refused")
        );
    }
}

#[test]
fn decoded_replies_classify_without_any_transport() {
    assert_eq!(
        SlackProvider::interpret_reply(Some(SlackReply { ok: true, error: None })),
        Ok(())
    );
    assert_eq!(
        SlackProvider::interpret_reply(Some(SlackReply {
            ok: false,
            error: Some("nope".to_string()),
        })),
        failed("nope")
    );
    assert_eq!(SlackProvider::interpret_reply(None), failed("invalid response body"));
    assert_eq!(DiscordProvider::interpret_reply(204, None), Ok(()));
    assert_eq!(
        DiscordProvider::interpret_reply(400, Some(DiscordReply { error: None })),
        failed("Unknown error")
    );
    assert_eq!(
        PushoverProvider::interpret_reply(Some(PushoverReply {
            status: 0,
            first_error: Some("invalid token".to_string()),
        })),
        failed("invalid token")
    );
    assert_eq!(
        TelegramProvider::interpret_reply(Some(TelegramReply { ok: true, description: None })),
        Ok(())
    );
}

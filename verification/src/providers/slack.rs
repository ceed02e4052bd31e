use vstd::prelude::*;
use vstd::string::StringExecFns;
use crate::errors::ErrorModel;
use crate::errors::NotifyError;
use crate::errors::outcome_model;
use crate::http::HttpRequest;
use crate::http::HttpResponse;
use crate::http::RequestModel;
use crate::providers::NotifyProvider;
use crate::text::escape_seq;
use crate::text::json_escape;

verus! {

/// Adapter for Slack's `chat.postMessage` API: `token` is the bot token,
/// `channel` the channel name or id the message is posted to.
pub struct SlackProvider {
    pub token: String,
    pub channel: String,
}

/// The URL every Slack send posts to.
pub open spec fn slack_url() -> Seq<char> {
    "https://slack.com/api/chat.postMessage"@
}

/// The JSON body of a Slack send.
pub open spec fn slack_body(token: Seq<char>, channel: Seq<char>, text: Seq<char>) -> Seq<char> {
    "{\"token\":\""@ + escape_seq(token) + "\",\"channel\":\""@ + escape_seq(channel)
        + "\",\"text\":\""@ + escape_seq(text) + "\"}"@
}

/// What a Slack send decides before the network is touched: the first empty
/// field in the order token, channel, message, or else the request to post.
pub open spec fn slack_prepare(
    token: Seq<char>,
    channel: Seq<char>,
    message: Seq<char>,
) -> Result<RequestModel, ErrorModel> {
    if token.len() == 0 {
        Err(ErrorModel::MissingField("token"@))
    } else if channel.len() == 0 {
        Err(ErrorModel::MissingField("channel"@))
    } else if message.len() == 0 {
        Err(ErrorModel::MissingField("message"@))
    } else {
        Ok(
            RequestModel {
                url: slack_url(),
                bearer: Some("Bearer "@ + token),
                body: slack_body(token, channel, message),
            },
        )
    }
}

/// The fields of a Slack response the adapter reads: the required `ok` flag
/// and the optional `error` text.
pub struct SlackReply {
    pub ok: bool,
    pub error: Option<String>,
}

/// Model of a decode result: the flag and the error characters, when decoding
/// succeeded.
pub open spec fn slack_reply_model(r: Option<SlackReply>) -> Option<(bool, Option<Seq<char>>)> {
    match r {
        None => None,
        Some(x) => Some(
            (
                x.ok,
                match x.error {
                    Some(e) => Some(e@),
                    None => None,
                },
            ),
        ),
    }
}

/// What JSON decoding yields on a Slack response body: the boolean under
/// `ok` and the string under `error` when the body is a JSON object with a
/// boolean `ok`, nothing otherwise. A function of the body text alone.
pub uninterp spec fn slack_decoded(body: Seq<char>) -> Option<(bool, Option<Seq<char>>)>;

/// Relies on `serde_json::from_str` and `serde_json::Value::{get, as_bool,
/// as_str}`: decoding is deterministic in the body text and reads the `ok`
/// and `error` members of the decoded JSON object.
#[verifier::external_body]
fn decode_slack(body: &str) -> (r: Option<SlackReply>)
    ensures
        slack_reply_model(r) == slack_decoded(body@),
{
    let v: serde_json::Value = serde_json::from_str(body).ok()?;
    let ok = v.get("ok")?.as_bool()?;
    let error = match v.get("error") {
        Some(x) => x.as_str().map(str::to_owned),
        None => None,
    };
    Some(SlackReply { ok, error })
}

/// How a decoded Slack reply is classified: `ok` true is success; otherwise
/// the reported error, or "Unknown error" when none was reported. A body that
/// did not decode is itself a failed request.
pub open spec fn slack_verdict(d: Option<(bool, Option<Seq<char>>)>) -> Result<(), ErrorModel> {
    match d {
        None => Err(ErrorModel::RequestFailed("invalid response body"@)),
        Some(f) => if f.0 {
            Ok(())
        } else {
            Err(
                ErrorModel::RequestFailed(
                    match f.1 {
                        Some(e) => e,
                        None => "Unknown error"@,
                    },
                ),
            )
        },
    }
}

impl SlackProvider {
    /// Construction is pure data plumbing; validation happens at send time.
    pub fn new(token: String, channel: String) -> (r: SlackProvider)
        ensures
            r.token == token,
            r.channel == channel,
    {
        SlackProvider { token, channel }
    }

    /// Classify a decoded Slack reply.
    pub fn interpret_reply(reply: Option<SlackReply>) -> (r: Result<(), NotifyError>)
        ensures
            outcome_model(r) == slack_verdict(slack_reply_model(reply)),
    {
        match reply {
            None => Err(NotifyError::RequestFailed(String::from_str("invalid response body"))),
            Some(f) => if f.ok {
                Ok(())
            } else {
                match f.error {
                    Some(e) => Err(NotifyError::RequestFailed(e)),
                    None => Err(NotifyError::RequestFailed(String::from_str("Unknown error"))),
                }
            },
        }
    }
}

impl NotifyProvider for SlackProvider {
    open spec fn prepare_spec(&self, message: Seq<char>) -> Result<RequestModel, ErrorModel> {
        slack_prepare(self.token@, self.channel@, message)
    }

    open spec fn verdict_spec(&self, outcome: Result<(u16, Seq<char>), Seq<char>>) -> Result<
        (),
        ErrorModel,
    > {
        match outcome {
            Err(e) => Err(ErrorModel::RequestFailed(e)),
            Ok(sb) => slack_verdict(slack_decoded(sb.1)),
        }
    }

    fn prepare(&self, message: &str) -> (r: Result<HttpRequest, NotifyError>) {
        if self.token.as_str().is_empty() {
            return Err(NotifyError::MissingField(String::from_str("token")));
        }
        if self.channel.as_str().is_empty() {
            return Err(NotifyError::MissingField(String::from_str("channel")));
        }
        if message.is_empty() {
            return Err(NotifyError::MissingField(String::from_str("message")));
        }
        let mut body = String::from_str("{\"token\":\"");
        body.append(json_escape(self.token.as_str()).as_str());
        body.append("\",\"channel\":\"");
        body.append(json_escape(self.channel.as_str()).as_str());
        body.append("\",\"text\":\"");
        body.append(json_escape(message).as_str());
        body.append("\"}");
        let bearer = String::from_str("Bearer ").concat(self.token.as_str());
        Ok(
            HttpRequest {
                url: String::from_str("https://slack.com/api/chat.postMessage"),
                bearer: Some(bearer),
                body,
            },
        )
    }

    fn interpret(&self, outcome: Result<HttpResponse, String>) -> (r: Result<(), NotifyError>) {
        match outcome {
            Err(e) => Err(NotifyError::RequestFailed(e)),
            Ok(resp) => SlackProvider::interpret_reply(decode_slack(resp.body.as_str())),
        }
    }
}

} // verus!

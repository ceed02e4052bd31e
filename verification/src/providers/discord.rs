use vstd::prelude::*;
use vstd::string::StringExecFns;
use crate::errors::ErrorModel;
use crate::errors::NotifyError;
use crate::errors::outcome_model;
use crate::http::HttpRequest;
use crate::http::HttpResponse;
use crate::http::RequestModel;
use crate::providers::NotifyProvider;
use crate::text::escape_seq;
use crate::text::json_escape;

verus! {

/// Adapter for Discord webhooks: `channel` is the webhook id segment of the
/// URL and `token` its secret segment.
pub struct DiscordProvider {
    pub token: String,
    pub channel: String,
}

/// The webhook URL a Discord send posts to.
pub open spec fn discord_url(channel: Seq<char>, token: Seq<char>) -> Seq<char> {
    "https://discord.com/api/webhooks/"@ + channel + "/"@ + token
}

/// The JSON body of a Discord send.
pub open spec fn discord_body(content: Seq<char>) -> Seq<char> {
    "{\"content\":\""@ + escape_seq(content) + "\"}"@
}

/// What a Discord send decides before the network is touched: the first
/// empty field in the order token, channel, message, or else the request.
pub open spec fn discord_prepare(
    token: Seq<char>,
    channel: Seq<char>,
    message: Seq<char>,
) -> Result<RequestModel, ErrorModel> {
    if token.len() == 0 {
        Err(ErrorModel::MissingField("token"@))
    } else if channel.len() == 0 {
        Err(ErrorModel::MissingField("channel"@))
    } else if message.len() == 0 {
        Err(ErrorModel::MissingField("message"@))
    } else {
        Ok(
            RequestModel {
                url: discord_url(channel, token),
                bearer: None,
                body: discord_body(message),
            },
        )
    }
}

/// The one field of a Discord error response the adapter reads.
pub struct DiscordReply {
    pub error: Option<String>,
}

/// Model of a decode result: the error characters, when decoding succeeded.
pub open spec fn discord_reply_model(r: Option<DiscordReply>) -> Option<Option<Seq<char>>> {
    match r {
        None => None,
        Some(x) => Some(
            match x.error {
                Some(e) => Some(e@),
                None => None,
            },
        ),
    }
}

/// What JSON decoding yields on a Discord response body: the string under
/// `error` when the body is JSON, nothing when it is not. A function of the
/// body text alone.
pub uninterp spec fn discord_decoded(body: Seq<char>) -> Option<Option<Seq<char>>>;

/// Relies on `serde_json::from_str` and `serde_json::Value::{get, as_str}`:
/// decoding is deterministic in the body text and reads the `error` member
/// of the decoded JSON value.
#[verifier::external_body]
fn decode_discord(body: &str) -> (r: Option<DiscordReply>)
    ensures
        discord_reply_model(r) == discord_decoded(body@),
{
    let v: serde_json::Value = serde_json::from_str(body).ok()?;
    let error = match v.get("error") {
        Some(x) => x.as_str().map(str::to_owned),
        None => None,
    };
    Some(DiscordReply { error })
}

/// How a Discord response is classified: HTTP 204 is success whatever the
/// body holds; anything else fails with the reported error, or with
/// "Unknown error" when the body holds none or did not decode.
pub open spec fn discord_verdict(status: u16, d: Option<Option<Seq<char>>>) -> Result<
    (),
    ErrorModel,
> {
    if status == 204 {
        Ok(())
    } else {
        match d {
            Some(Some(e)) => Err(ErrorModel::RequestFailed(e)),
            _ => Err(ErrorModel::RequestFailed("Unknown error"@)),
        }
    }
}

impl DiscordProvider {
    /// Construction is pure data plumbing; validation happens at send time.
    pub fn new(token: String, channel: String) -> (r: DiscordProvider)
        ensures
            r.token == token,
            r.channel == channel,
    {
        DiscordProvider { token, channel }
    }

    /// The webhook URL for this adapter's channel and token.
    fn get_webhook_url(&self) -> (r: String)
        ensures
            r@ == discord_url(self.channel@, self.token@),
    {
        let mut url = String::from_str("https://discord.com/api/webhooks/");
        url.append(self.channel.as_str());
        url.append("/");
        url.append(self.token.as_str());
        url
    }

    /// Classify an HTTP status and a decoded Discord reply.
    pub fn interpret_reply(status: u16, reply: Option<DiscordReply>) -> (r: Result<
        (),
        NotifyError,
    >)
        ensures
            outcome_model(r) == discord_verdict(status, discord_reply_model(reply)),
    {
        if status == 204 {
            return Ok(());
        }
        match reply {
            Some(f) => match f.error {
                Some(e) => Err(NotifyError::RequestFailed(e)),
                None => Err(NotifyError::RequestFailed(String::from_str("Unknown error"))),
            },
            None => Err(NotifyError::RequestFailed(String::from_str("Unknown error"))),
        }
    }
}

impl NotifyProvider for DiscordProvider {
    open spec fn prepare_spec(&self, message: Seq<char>) -> Result<RequestModel, ErrorModel> {
        discord_prepare(self.token@, self.channel@, message)
    }

    open spec fn verdict_spec(&self, outcome: Result<(u16, Seq<char>), Seq<char>>) -> Result<
        (),
        ErrorModel,
    > {
        match outcome {
            Err(e) => Err(ErrorModel::RequestFailed(e)),
            Ok(sb) => discord_verdict(sb.0, discord_decoded(sb.1)),
        }
    }

    fn prepare(&self, message: &str) -> (r: Result<HttpRequest, NotifyError>) {
        if self.token.as_str().is_empty() {
            return Err(NotifyError::MissingField(String::from_str("token")));
        }
        if self.channel.as_str().is_empty() {
            return Err(NotifyError::MissingField(String::from_str("channel")));
        }
        if message.is_empty() {
            return Err(NotifyError::MissingField(String::from_str("message")));
        }
        let mut body = String::from_str("{\"content\":\"");
        body.append(json_escape(message).as_str());
        body.append("\"}");
        Ok(HttpRequest { url: self.get_webhook_url(), bearer: None, body })
    }

    fn interpret(&self, outcome: Result<HttpResponse, String>) -> (r: Result<(), NotifyError>) {
        match outcome {
            Err(e) => Err(NotifyError::RequestFailed(e)),
            Ok(resp) => DiscordProvider::interpret_reply(
                resp.status,
                decode_discord(resp.body.as_str()),
            ),
        }
    }
}

} // verus!

use vstd::prelude::*;
use vstd::string::StringExecFns;
use crate::errors::ErrorModel;
use crate::errors::NotifyError;
use crate::errors::outcome_model;
use crate::http::HttpRequest;
use crate::http::HttpResponse;
use crate::http::RequestModel;
use crate::providers::NotifyProvider;
use crate::text::escape_seq;
use crate::text::json_escape;

verus! {

/// Adapter for Pushover's message API: `token` is the application token,
/// `user` the key of the user the message is delivered to.
pub struct PushoverProvider {
    pub token: String,
    pub user: String,
}

/// The URL every Pushover send posts to.
pub open spec fn pushover_url() -> Seq<char> {
    "https://api.pushover.net/1/messages.json"@
}

/// The JSON body of a Pushover send.
pub open spec fn pushover_body(token: Seq<char>, user: Seq<char>, message: Seq<char>) -> Seq<
    char,
> {
    "{\"token\":\""@ + escape_seq(token) + "\",\"user\":\""@ + escape_seq(user)
        + "\",\"message\":\""@ + escape_seq(message) + "\"}"@
}

/// What a Pushover send decides before the network is touched: the first
/// empty field in the order token, user, message, or else the request.
pub open spec fn pushover_prepare(
    token: Seq<char>,
    user: Seq<char>,
    message: Seq<char>,
) -> Result<RequestModel, ErrorModel> {
    if token.len() == 0 {
        Err(ErrorModel::MissingField("token"@))
    } else if user.len() == 0 {
        Err(ErrorModel::MissingField("user"@))
    } else if message.len() == 0 {
        Err(ErrorModel::MissingField("message"@))
    } else {
        Ok(
            RequestModel {
                url: pushover_url(),
                bearer: None,
                body: pushover_body(token, user, message),
            },
        )
    }
}

/// The fields of a Pushover response the adapter reads: the required numeric
/// `status` and the first entry of the `errors` array, when one is there.
pub struct PushoverReply {
    pub status: i64,
    pub first_error: Option<String>,
}

/// Model of a decode result: the status and the first error's characters,
/// when decoding succeeded.
pub open spec fn pushover_reply_model(r: Option<PushoverReply>) -> Option<
    (i64, Option<Seq<char>>),
> {
    match r {
        None => None,
        Some(x) => Some(
            (
                x.status,
                match x.first_error {
                    Some(e) => Some(e@),
                    None => None,
                },
            ),
        ),
    }
}

/// What JSON decoding yields on a Pushover response body: the integer under
/// `status` and the first string of the `errors` array when the body is a
/// JSON object with a numeric `status`, nothing otherwise. A function of the
/// body text alone.
pub uninterp spec fn pushover_decoded(body: Seq<char>) -> Option<(i64, Option<Seq<char>>)>;

/// Relies on `serde_json::from_str` and `serde_json::Value::{get, as_i64,
/// as_str}`: decoding is deterministic in the body text and reads the
/// `status` member and the head of the `errors` member of the decoded JSON
/// object.
#[verifier::external_body]
fn decode_pushover(body: &str) -> (r: Option<PushoverReply>)
    ensures
        pushover_reply_model(r) == pushover_decoded(body@),
{
    let v: serde_json::Value = serde_json::from_str(body).ok()?;
    let status = v.get("status")?.as_i64()?;
    let first_error = match v.get("errors") {
        Some(a) => match a.get(0) {
            Some(x) => x.as_str().map(str::to_owned),
            None => None,
        },
        None => None,
    };
    Some(PushoverReply { status, first_error })
}

/// How a decoded Pushover reply is classified: status one is success;
/// otherwise the first reported error, or "Unknown error" when none was
/// reported. A body that did not decode is itself a failed request.
pub open spec fn pushover_verdict(d: Option<(i64, Option<Seq<char>>)>) -> Result<(), ErrorModel> {
    match d {
        None => Err(ErrorModel::RequestFailed("invalid response body"@)),
        Some(f) => if f.0 == 1 {
            Ok(())
        } else {
            Err(
                ErrorModel::RequestFailed(
                    match f.1 {
                        Some(e) => e,
                        None => "Unknown error"@,
                    },
                ),
            )
        },
    }
}

impl PushoverProvider {
    /// Construction is pure data plumbing; validation happens at send time.
    pub fn new(token: String, user: String) -> (r: PushoverProvider)
        ensures
            r.token == token,
            r.user == user,
    {
        PushoverProvider { token, user }
    }

    /// Classify a decoded Pushover reply.
    pub fn interpret_reply(reply: Option<PushoverReply>) -> (r: Result<(), NotifyError>)
        ensures
            outcome_model(r) == pushover_verdict(pushover_reply_model(reply)),
    {
        match reply {
            None => Err(NotifyError::RequestFailed(String::from_str("invalid response body"))),
            Some(f) => if f.status == 1 {
                Ok(())
            } else {
                match f.first_error {
                    Some(e) => Err(NotifyError::RequestFailed(e)),
                    None => Err(NotifyError::RequestFailed(String::from_str("Unknown error"))),
                }
            },
        }
    }
}

impl NotifyProvider for PushoverProvider {
    open spec fn prepare_spec(&self, message: Seq<char>) -> Result<RequestModel, ErrorModel> {
        pushover_prepare(self.token@, self.user@, message)
    }

    open spec fn verdict_spec(&self, outcome: Result<(u16, Seq<char>), Seq<char>>) -> Result<
        (),
        ErrorModel,
    > {
        match outcome {
            Err(e) => Err(ErrorModel::RequestFailed(e)),
            Ok(sb) => pushover_verdict(pushover_decoded(sb.1)),
        }
    }

    fn prepare(&self, message: &str) -> (r: Result<HttpRequest, NotifyError>) {
        if self.token.as_str().is_empty() {
            return Err(NotifyError::MissingField(String::from_str("token")));
        }
        if self.user.as_str().is_empty() {
            return Err(NotifyError::MissingField(String::from_str("user")));
        }
        if message.is_empty() {
            return Err(NotifyError::MissingField(String::from_str("message")));
        }
        let mut body = String::from_str("{\"token\":\"");
        body.append(json_escape(self.token.as_str()).as_str());
        body.append("\",\"user\":\"");
        body.append(json_escape(self.user.as_str()).as_str());
        body.append("\",\"message\":\"");
        body.append(json_escape(message).as_str());
        body.append("\"}");
        Ok(
            HttpRequest {
                url: String::from_str("https://api.pushover.net/1/messages.json"),
                bearer: None,
                body,
            },
        )
    }

    fn interpret(&self, outcome: Result<HttpResponse, String>) -> (r: Result<(), NotifyError>) {
        match outcome {
            Err(e) => Err(NotifyError::RequestFailed(e)),
            Ok(resp) => PushoverProvider::interpret_reply(decode_pushover(resp.body.as_str())),
        }
    }
}

} // verus!

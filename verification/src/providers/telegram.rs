use vstd::prelude::*;
use vstd::string::StringExecFns;
use crate::errors::ErrorModel;
use crate::errors::NotifyError;
use crate::errors::outcome_model;
use crate::http::HttpRequest;
use crate::http::HttpResponse;
use crate::http::RequestModel;
use crate::numerals::dec_of;
use crate::numerals::is_i64_numeral;
use crate::numerals::numeral_val;
use crate::numerals::parse_i64;
use crate::numerals::render_i64;
use crate::providers::NotifyProvider;
use crate::text::escape_seq;
use crate::text::json_escape;

verus! {

/// Adapter for Telegram's `sendMessage` API: `token` is the bot token and
/// `chat_id` the numeric chat the message goes to, parsed from the
/// configured destination string at construction time.
pub struct TelegramProvider {
    pub token: String,
    pub chat_id: i64,
}

/// The URL a Telegram API call posts to, for the given bot token and method.
pub open spec fn telegram_url(token: Seq<char>, method: Seq<char>) -> Seq<char> {
    "https://api.telegram.org/bot"@ + token + "/"@ + method
}

/// The JSON body of a Telegram send: the chat id as a JSON number, the
/// message under `text`.
pub open spec fn telegram_body(chat_id: int, text: Seq<char>) -> Seq<char> {
    "{\"chat_id\":"@ + dec_of(chat_id) + ",\"text\":\""@ + escape_seq(text) + "\"}"@
}

/// What a Telegram send decides before the network is touched: the first
/// missing field in the order token, chat id, message (a chat id of zero
/// counts as missing), or else the request.
pub open spec fn telegram_prepare(
    token: Seq<char>,
    chat_id: int,
    message: Seq<char>,
) -> Result<RequestModel, ErrorModel> {
    if token.len() == 0 {
        Err(ErrorModel::MissingField("token"@))
    } else if chat_id == 0 {
        Err(ErrorModel::MissingField("chat_id"@))
    } else if message.len() == 0 {
        Err(ErrorModel::MissingField("message"@))
    } else {
        Ok(
            RequestModel {
                url: telegram_url(token, "sendMessage"@),
                bearer: None,
                body: telegram_body(chat_id, message),
            },
        )
    }
}

/// The fields of a Telegram response the adapter reads: the required `ok`
/// flag and the optional `description` text.
pub struct TelegramReply {
    pub ok: bool,
    pub description: Option<String>,
}

/// Model of a decode result: the flag and the description characters, when
/// decoding succeeded.
pub open spec fn telegram_reply_model(r: Option<TelegramReply>) -> Option<
    (bool, Option<Seq<char>>),
> {
    match r {
        None => None,
        Some(x) => Some(
            (
                x.ok,
                match x.description {
                    Some(d) => Some(d@),
                    None => None,
                },
            ),
        ),
    }
}

/// What JSON decoding yields on a Telegram response body: the boolean under
/// `ok` and the string under `description` when the body is a JSON object
/// with a boolean `ok`, nothing otherwise. A function of the body text alone.
pub uninterp spec fn telegram_decoded(body: Seq<char>) -> Option<(bool, Option<Seq<char>>)>;

/// Relies on `serde_json::from_str` and `serde_json::Value::{get, as_bool,
/// as_str}`: decoding is deterministic in the body text and reads the `ok`
/// and `description` members of the decoded JSON object.
#[verifier::external_body]
fn decode_telegram(body: &str) -> (r: Option<TelegramReply>)
    ensures
        telegram_reply_model(r) == telegram_decoded(body@),
{
    let v: serde_json::Value = serde_json::from_str(body).ok()?;
    let ok = v.get("ok")?.as_bool()?;
    let description = match v.get("description") {
        Some(x) => x.as_str().map(str::to_owned),
        None => None,
    };
    Some(TelegramReply { ok, description })
}

/// How a decoded Telegram reply is classified: `ok` true is success;
/// otherwise the reported description, or "Unknown error" when none was
/// reported. A body that did not decode is itself a failed request.
pub open spec fn telegram_verdict(d: Option<(bool, Option<Seq<char>>)>) -> Result<(), ErrorModel> {
    match d {
        None => Err(ErrorModel::RequestFailed("invalid response body"@)),
        Some(f) => if f.0 {
            Ok(())
        } else {
            Err(
                ErrorModel::RequestFailed(
                    match f.1 {
                        Some(e) => e,
                        None => "Unknown error"@,
                    },
                ),
            )
        },
    }
}

impl TelegramProvider {
    /// Construction parses the configured chat id; a destination that is not
    /// a decimal numeral within the range of an `i64` is rejected here, as
    /// malformed configuration, before any request can be built.
    pub fn new(token: String, chat_id: String) -> (r: Result<TelegramProvider, NotifyError>)
        ensures
            match r {
                Ok(p) => is_i64_numeral(chat_id@) && p.token == token && p.chat_id as int
                    == numeral_val(chat_id@),
                Err(e) => !is_i64_numeral(chat_id@) && e.model() == ErrorModel::InvalidConfig(
                    "chat_id is not an integer"@,
                ),
            },
    {
        match parse_i64(chat_id.as_str()) {
            Some(v) => Ok(TelegramProvider { token, chat_id: v }),
            None => Err(NotifyError::InvalidConfig(String::from_str("chat_id is not an integer"))),
        }
    }

    /// The API URL for this adapter's token and the given method name.
    fn get_api_url(&self, method: &str) -> (r: String)
        ensures
            r@ == telegram_url(self.token@, method@),
    {
        let mut url = String::from_str("https://api.telegram.org/bot");
        url.append(self.token.as_str());
        url.append("/");
        url.append(method);
        url
    }

    /// Classify a decoded Telegram reply.
    pub fn interpret_reply(reply: Option<TelegramReply>) -> (r: Result<(), NotifyError>)
        ensures
            outcome_model(r) == telegram_verdict(telegram_reply_model(reply)),
    {
        match reply {
            None => Err(NotifyError::RequestFailed(String::from_str("invalid response body"))),
            Some(f) => if f.ok {
                Ok(())
            } else {
                match f.description {
                    Some(e) => Err(NotifyError::RequestFailed(e)),
                    None => Err(NotifyError::RequestFailed(String::from_str("Unknown error"))),
                }
            },
        }
    }
}

impl NotifyProvider for TelegramProvider {
    open spec fn prepare_spec(&self, message: Seq<char>) -> Result<RequestModel, ErrorModel> {
        telegram_prepare(self.token@, self.chat_id as int, message)
    }

    open spec fn verdict_spec(&self, outcome: Result<(u16, Seq<char>), Seq<char>>) -> Result<
        (),
        ErrorModel,
    > {
        match outcome {
            Err(e) => Err(ErrorModel::RequestFailed(e)),
            Ok(sb) => telegram_verdict(telegram_decoded(sb.1)),
        }
    }

    fn prepare(&self, message: &str) -> (r: Result<HttpRequest, NotifyError>) {
        if self.token.as_str().is_empty() {
            return Err(NotifyError::MissingField(String::from_str("token")));
        }
        if self.chat_id == 0 {
            return Err(NotifyError::MissingField(String::from_str("chat_id")));
        }
        if message.is_empty() {
            return Err(NotifyError::MissingField(String::from_str("message")));
        }
        let mut body = String::from_str("{\"chat_id\":");
        body.append(render_i64(self.chat_id).as_str());
        body.append(",\"text\":\"");
        body.append(json_escape(message).as_str());
        body.append("\"}");
        Ok(HttpRequest { url: self.get_api_url("sendMessage"), bearer: None, body })
    }

    fn interpret(&self, outcome: Result<HttpResponse, String>) -> (r: Result<(), NotifyError>) {
        match outcome {
            Err(e) => Err(NotifyError::RequestFailed(e)),
            Ok(resp) => TelegramProvider::interpret_reply(decode_telegram(resp.body.as_str())),
        }
    }
}

} // verus!

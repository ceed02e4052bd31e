#![allow(unused_imports)]

use vstd::prelude::*;

pub mod errors;
pub mod http;
pub mod laws;
pub mod numerals;
pub mod providers;
pub mod text;

pub use errors::ErrorModel;
pub use errors::NotifyError;
pub use errors::outcome_model;
pub use http::HttpRequest;
pub use http::HttpResponse;
pub use http::RequestModel;
pub use http::prepared_model;
pub use http::transport_model;
pub use providers::NotifyProvider;
pub use providers::discord::DiscordProvider;
pub use providers::pushover::PushoverProvider;
pub use providers::slack::SlackProvider;
pub use providers::telegram::TelegramProvider;
pub use text::json_escape;

use numerals::is_i64_numeral;
use numerals::numeral_val;

verus! {

/// The closed set of supported notification destinations.
#[derive(Debug, Clone, PartialEq, Eq, Structural)]
pub enum Platform {
    Slack,
    Telegram,
    Discord,
    Pushover,
}

/// Caller-supplied configuration: the platform tag, the platform credential,
/// and the destination identifier. Both strings are opaque here; their
/// platform-specific meaning belongs to the adapter that is constructed.
#[derive(Debug, Clone)]
pub struct Config {
    pub platform: Platform,
    pub token: String,
    pub channel: String,
}

/// The one adapter a facade holds, resolved from the platform tag at
/// construction and never exchanged afterwards.
pub enum Provider {
    Slack(SlackProvider),
    Telegram(TelegramProvider),
    Discord(DiscordProvider),
    Pushover(PushoverProvider),
}

/// What a resolved adapter decides before the network is touched.
pub open spec fn provider_prepare_spec(p: Provider, message: Seq<char>) -> Result<
    RequestModel,
    ErrorModel,
> {
    match p {
        Provider::Slack(q) => q.prepare_spec(message),
        Provider::Telegram(q) => q.prepare_spec(message),
        Provider::Discord(q) => q.prepare_spec(message),
        Provider::Pushover(q) => q.prepare_spec(message),
    }
}

/// How a resolved adapter classifies a transport outcome.
pub open spec fn provider_verdict_spec(
    p: Provider,
    outcome: Result<(u16, Seq<char>), Seq<char>>,
) -> Result<(), ErrorModel> {
    match p {
        Provider::Slack(q) => q.verdict_spec(outcome),
        Provider::Telegram(q) => q.verdict_spec(outcome),
        Provider::Discord(q) => q.verdict_spec(outcome),
        Provider::Pushover(q) => q.verdict_spec(outcome),
    }
}

/// The notification facade: holds exactly one adapter, chosen irrevocably at
/// construction from the platform tag, and exposes one platform-agnostic
/// send pipeline.
pub struct Notify {
    pub provider: Provider,
}

impl Notify {
    /// Construct the adapter matching the configured platform by moving the
    /// credential and destination into it. Construction performs no network
    /// traffic and no field-presence validation — that is deferred to send
    /// time — but a Telegram destination that is not a decimal numeral in
    /// `i64` range is rejected here as malformed configuration.
    pub fn new(config: Config) -> (r: Result<Notify, NotifyError>)
        ensures
            match config.platform {
                Platform::Slack => {
                    &&& r matches Ok(n)
                    &&& n.provider matches Provider::Slack(p)
                    &&& p.token == config.token
                    &&& p.channel == config.channel
                },
                Platform::Discord => {
                    &&& r matches Ok(n)
                    &&& n.provider matches Provider::Discord(p)
                    &&& p.token == config.token
                    &&& p.channel == config.channel
                },
                Platform::Pushover => {
                    &&& r matches Ok(n)
                    &&& n.provider matches Provider::Pushover(p)
                    &&& p.token == config.token
                    &&& p.user == config.channel
                },
                Platform::Telegram => {
                    if is_i64_numeral(config.channel@) {
                        &&& r matches Ok(n)
                        &&& n.provider matches Provider::Telegram(p)
                        &&& p.token == config.token
                        &&& p.chat_id as int == numeral_val(config.channel@)
                    } else {
                        &&& r matches Err(e)
                        &&& e.model() == ErrorModel::InvalidConfig("chat_id is not an integer"@)
                    }
                },
            },
    {
        match config.platform {
            Platform::Telegram => match TelegramProvider::new(config.token, config.channel) {
                Ok(p) => Ok(Notify { provider: Provider::Telegram(p) }),
                Err(e) => Err(e),
            },
            Platform::Slack => Ok(
                Notify { provider: Provider::Slack(SlackProvider::new(config.token, config.channel)) },
            ),
            Platform::Discord => Ok(
                Notify {
                    provider: Provider::Discord(DiscordProvider::new(config.token, config.channel)),
                },
            ),
            Platform::Pushover => Ok(
                Notify {
                    provider: Provider::Pushover(
                        PushoverProvider::new(config.token, config.channel),
                    ),
                },
            ),
        }
    }

    /// What this facade's send decides before the network is touched.
    pub open spec fn prepare_spec(&self, message: Seq<char>) -> Result<RequestModel, ErrorModel> {
        provider_prepare_spec(self.provider, message)
    }

    /// How this facade's send classifies a transport outcome.
    pub open spec fn verdict_spec(&self, outcome: Result<(u16, Seq<char>), Seq<char>>) -> Result<
        (),
        ErrorModel,
    > {
        provider_verdict_spec(self.provider, outcome)
    }

    /// Validate and build: the first two steps of a send, delegated verbatim
    /// to the held adapter. Touches no network; an error here means no
    /// request was ever built, so no call can be attempted.
    pub fn prepare(&self, message: &str) -> (r: Result<HttpRequest, NotifyError>)
        ensures
            prepared_model(r) == self.prepare_spec(message@),
    {
        match &self.provider {
            Provider::Slack(p) => p.prepare(message),
            Provider::Telegram(p) => p.prepare(message),
            Provider::Discord(p) => p.prepare(message),
            Provider::Pushover(p) => p.prepare(message),
        }
    }

    /// Classify the transport outcome: the final step of a send, delegated
    /// verbatim to the held adapter.
    pub fn interpret(&self, outcome: Result<HttpResponse, String>) -> (r: Result<(), NotifyError>)
        ensures
            outcome_model(r) == self.verdict_spec(transport_model(outcome)),
    {
        match &self.provider {
            Provider::Slack(p) => p.interpret(outcome),
            Provider::Telegram(p) => p.interpret(outcome),
            Provider::Discord(p) => p.interpret(outcome),
            Provider::Pushover(p) => p.interpret(outcome),
        }
    }
}

} // verus!

use vstd::prelude::*;
use crate::Provider;
use crate::errors::ErrorModel;
use crate::http::RequestModel;
use crate::provider_prepare_spec;
use crate::provider_verdict_spec;
use crate::providers::NotifyProvider;
use crate::providers::telegram::TelegramProvider;

verus! {

/// The credential string held by an adapter.
pub open spec fn provider_token(p: Provider) -> Seq<char> {
    match p {
        Provider::Slack(q) => q.token@,
        Provider::Telegram(q) => q.token@,
        Provider::Discord(q) => q.token@,
        Provider::Pushover(q) => q.token@,
    }
}

/// Whether an adapter's destination field is present: a nonempty channel or
/// user key, or a nonzero chat id.
pub open spec fn provider_dest_present(p: Provider) -> bool {
    match p {
        Provider::Slack(q) => q.channel@.len() > 0,
        Provider::Telegram(q) => q.chat_id != 0,
        Provider::Discord(q) => q.channel@.len() > 0,
        Provider::Pushover(q) => q.user@.len() > 0,
    }
}

/// Law: whatever the platform and whatever the message, a send with an empty
/// credential token reports the token as the missing field. The error comes
/// out of the prepare step, so no request is built and no network call can
/// be attempted.
pub proof fn lemma_empty_token_rejected(p: Provider, message: Seq<char>)
    requires
        provider_token(p).len() == 0,
    ensures
        provider_prepare_spec(p, message) == Err::<RequestModel, ErrorModel>(
            ErrorModel::MissingField("token"@),
        ),
{
}

/// Law: on every platform, with the credential and the destination present,
/// an empty message is the field reported missing.
pub proof fn lemma_empty_message_rejected(p: Provider, message: Seq<char>)
    requires
        provider_token(p).len() > 0,
        provider_dest_present(p),
        message.len() == 0,
    ensures
        provider_prepare_spec(p, message) == Err::<RequestModel, ErrorModel>(
            ErrorModel::MissingField("message"@),
        ),
{
}

/// Law: validation order is deterministic, credential before destination
/// before message: when the token and the destination are both missing, the
/// token is the field reported.
pub proof fn lemma_token_checked_before_destination(p: Provider, message: Seq<char>)
    requires
        provider_token(p).len() == 0,
        !provider_dest_present(p),
    ensures
        provider_prepare_spec(p, message) == Err::<RequestModel, ErrorModel>(
            ErrorModel::MissingField("token"@),
        ),
{
}

/// Law: on every platform, validation is all that can stop a send from being
/// built: a request comes back exactly when the credential, the destination
/// and the message are all present.
pub proof fn lemma_prepare_ok_iff_fields_present(p: Provider, message: Seq<char>)
    ensures
        provider_prepare_spec(p, message) is Ok <==> (provider_token(p).len() > 0
            && provider_dest_present(p) && message.len() > 0),
{
}

/// Law: a transport failure surfaces uniformly, on every platform, as a
/// failed request carrying the transport's own description.
pub proof fn lemma_transport_failure_uniform(p: Provider, detail: Seq<char>)
    ensures
        provider_verdict_spec(p, Err(detail)) == Err::<(), ErrorModel>(
            ErrorModel::RequestFailed(detail),
        ),
{
}

/// Law: a Telegram adapter whose chat id is zero rejects every send at the
/// prepare step; a message is never silently sent to chat id zero.
pub proof fn lemma_zero_chat_id_never_sent(p: TelegramProvider, message: Seq<char>)
    requires
        p.chat_id == 0,
    ensures
        p.prepare_spec(message) is Err,
{
}

} // verus!

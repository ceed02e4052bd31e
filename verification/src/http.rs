use vstd::prelude::*;
use crate::errors::ErrorModel;
use crate::errors::NotifyError;

verus! {

/// One HTTP POST, fully built: everything a transport needs to perform the
/// call. The adapters produce these; an unverified shell performs them.
pub struct HttpRequest {
    /// Target URL.
    pub url: String,
    /// Value for an `Authorization: Bearer` header, when the platform wants one.
    pub bearer: Option<String>,
    /// JSON body text.
    pub body: String,
}

/// Mathematical model of an `HttpRequest`: each string as its characters.
pub struct RequestModel {
    pub url: Seq<char>,
    pub bearer: Option<Seq<char>>,
    pub body: Seq<char>,
}

impl HttpRequest {
    /// The model of this request.
    pub open spec fn model(self) -> RequestModel {
        RequestModel {
            url: self.url@,
            bearer: match self.bearer {
                Some(b) => Some(b@),
                None => None,
            },
            body: self.body@,
        }
    }
}

/// Model of a prepared send: the request to perform, or the validation error.
pub open spec fn prepared_model(r: Result<HttpRequest, NotifyError>) -> Result<
    RequestModel,
    ErrorModel,
> {
    match r {
        Ok(q) => Ok(q.model()),
        Err(e) => Err(e.model()),
    }
}

/// What the transport hands back on a completed round trip: the HTTP status
/// code and the response body text.
pub struct HttpResponse {
    pub status: u16,
    pub body: String,
}

/// Model of a transport outcome: status and body characters on a completed
/// round trip, or the description of the transport failure.
pub open spec fn transport_model(o: Result<HttpResponse, String>) -> Result<
    (u16, Seq<char>),
    Seq<char>,
> {
    match o {
        Ok(resp) => Ok((resp.status, resp.body@)),
        Err(e) => Err(e@),
    }
}

} // verus!

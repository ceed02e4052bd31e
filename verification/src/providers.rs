use vstd::prelude::*;
use crate::errors::ErrorModel;
use crate::errors::NotifyError;
use crate::errors::outcome_model;
use crate::http::HttpRequest;
use crate::http::HttpResponse;
use crate::http::RequestModel;
use crate::http::prepared_model;
use crate::http::transport_model;

pub mod discord;
pub mod pushover;
pub mod slack;
pub mod telegram;

verus! {

/// The capability interface every platform adapter implements.
///
/// A send is the linear pipeline validate, build, transmit, interpret.
/// `prepare` is the first two steps and never touches the network: it checks
/// the fields in the fixed order credential, destination, message,
/// short-circuiting on the first empty one, and on success builds the
/// platform's request. `interpret` is the last step: it classifies the
/// transport outcome as success or one error of the taxonomy. The transmit
/// step between them is one POST, performed outside the library.
pub trait NotifyProvider: Sized {
    /// What `prepare` decides, as a function of the message characters.
    spec fn prepare_spec(&self, message: Seq<char>) -> Result<RequestModel, ErrorModel>;

    /// What `interpret` decides, as a function of the transport outcome.
    spec fn verdict_spec(&self, outcome: Result<(u16, Seq<char>), Seq<char>>) -> Result<
        (),
        ErrorModel,
    >;

    /// Validate the fields and build the platform request.
    fn prepare(&self, message: &str) -> (r: Result<HttpRequest, NotifyError>)
        ensures
            prepared_model(r) == self.prepare_spec(message@),
    ;

    /// Classify what the transport handed back for this adapter's request.
    fn interpret(&self, outcome: Result<HttpResponse, String>) -> (r: Result<(), NotifyError>)
        ensures
            outcome_model(r) == self.verdict_spec(transport_model(outcome)),
    ;
}

} // verus!

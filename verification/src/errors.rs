use vstd::prelude::*;
use vstd::string::StringExecFns;

verus! {

/// The unified error taxonomy every platform adapter maps into.
///
/// `UnsupportedPlatform` is reserved for a platform tag no adapter handles;
/// `RequestFailed` carries a transport failure or the remote service's own
/// error text; `MissingField` names the first empty field found during
/// validation; `InvalidConfig` reports malformed configuration found before
/// any request is built.
#[derive(Debug, Clone)]
pub enum NotifyError {
    UnsupportedPlatform,
    RequestFailed(String),
    MissingField(String),
    InvalidConfig(String),
}

/// Mathematical model of a `NotifyError`: each detail string is taken to its
/// sequence of characters.
pub enum ErrorModel {
    UnsupportedPlatform,
    RequestFailed(Seq<char>),
    MissingField(Seq<char>),
    InvalidConfig(Seq<char>),
}

impl NotifyError {
    /// The model of this error value.
    pub open spec fn model(self) -> ErrorModel {
        match self {
            NotifyError::UnsupportedPlatform => ErrorModel::UnsupportedPlatform,
            NotifyError::RequestFailed(d) => ErrorModel::RequestFailed(d@),
            NotifyError::MissingField(f) => ErrorModel::MissingField(f@),
            NotifyError::InvalidConfig(d) => ErrorModel::InvalidConfig(d@),
        }
    }

    /// The human-readable description of the error, one fixed phrase per
    /// variant with the detail string appended.
    pub fn message(&self) -> (r: String)
        ensures
            r@ == self.model().message(),
    {
        match self {
            NotifyError::UnsupportedPlatform => String::from_str("Platform not supported"),
            NotifyError::RequestFailed(d) => String::from_str("Request failed: ").concat(
                d.as_str(),
            ),
            NotifyError::MissingField(f) => String::from_str("Missing required field: ").concat(
                f.as_str(),
            ),
            NotifyError::InvalidConfig(d) => String::from_str("Invalid configuration: ").concat(
                d.as_str(),
            ),
        }
    }
}

impl ErrorModel {
    /// The display text of the error.
    pub open spec fn message(self) -> Seq<char> {
        match self {
            ErrorModel::UnsupportedPlatform => "Platform not supported"@,
            ErrorModel::RequestFailed(d) => "Request failed: "@ + d,
            ErrorModel::MissingField(f) => "Missing required field: "@ + f,
            ErrorModel::InvalidConfig(d) => "Invalid configuration: "@ + d,
        }
    }
}

impl PartialEq for NotifyError {
    fn eq(&self, other: &NotifyError) -> (r: bool) {
        match (self, other) {
            (NotifyError::UnsupportedPlatform, NotifyError::UnsupportedPlatform) => true,
            (NotifyError::RequestFailed(a), NotifyError::RequestFailed(b)) => *a == *b,
            (NotifyError::MissingField(a), NotifyError::MissingField(b)) => *a == *b,
            (NotifyError::InvalidConfig(a), NotifyError::InvalidConfig(b)) => *a == *b,
            _ => false,
        }
    }
}

impl vstd::std_specs::cmp::PartialEqSpecImpl for NotifyError {
    open spec fn obeys_eq_spec() -> bool {
        true
    }

    open spec fn eq_spec(&self, other: &NotifyError) -> bool {
        self.model() == other.model()
    }
}

/// Model of a completed send: success, or the model of the error returned.
pub open spec fn outcome_model(r: Result<(), NotifyError>) -> Result<(), ErrorModel> {
    match r {
        Ok(()) => Ok(()),
        Err(e) => Err(e.model()),
    }
}

} // verus!

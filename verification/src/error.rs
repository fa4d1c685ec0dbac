//! The transport-level error taxonomy shared by every feature module.

use vstd::prelude::*;

verus! {

/// Common error type for the Nextcloud API core.
///
/// Every failure of the request/response core is one of these variants;
/// feature modules embed this type into their own error enums so that no
/// information is lost when an error crosses a layer boundary.
#[derive(Debug, Clone, PartialEq, Eq)]
pub enum NextcloudApiError {
    /// A response body (or an outgoing typed body) could not be parsed
    /// as JSON of the expected shape. Carries a short description.
    SerdeError(String),
    /// A transport/connection-class failure reported by the front end
    /// that executed the request. Carries the transport's description.
    NetworkError(String),
    /// A requested key was absent from a server capability mapping.
    MissingCapabilityError,
    /// The base URL handed to the client factory could not be parsed,
    /// or a request path did not resolve inside the base URL's authority.
    InvalidUrl(String),
    /// The underlying HTTP transport could not be constructed.
    TransportInit(String),
}

impl NextcloudApiError {
    /// A human-readable description, in place of `Display`.
    pub fn message(&self) -> (r: String)
        ensures
            self is SerdeError ==> r@ == "response format invalid"@,
            self is NetworkError ==> r@ == "network error"@,
            self is MissingCapabilityError ==> r@ == "capability not found"@,
            self is InvalidUrl ==> r@ == "invalid URL"@,
            self is TransportInit ==> r@ == "transport could not be built"@,
    {
        match self {
            NextcloudApiError::SerdeError(_) => "response format invalid".to_owned(),
            NextcloudApiError::NetworkError(_) => "network error".to_owned(),
            NextcloudApiError::MissingCapabilityError => "capability not found".to_owned(),
            NextcloudApiError::InvalidUrl(_) => "invalid URL".to_owned(),
            NextcloudApiError::TransportInit(_) => "transport could not be built".to_owned(),
        }
    }
}

} // verus!

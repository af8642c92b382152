//! Error types shared by the whole crate.

use vstd::prelude::*;

verus! {

/// Everything that can end an operation early. No error is retried by the
/// crate: each one ends the call that met it.
#[derive(Debug, Clone)]
pub enum PolyRestError {
    /// The notification could not be brought into the form that goes on the
    /// wire.
    EncodingError,
    /// The handset answered the probe without a `WWW-Authenticate` header.
    MissingChallengeError,
    /// The handset sent a challenge that cannot be read or answered.
    ChallengeParseError,
    /// A request could not be carried out at the network level: connection
    /// refused, TLS failure, timeout. Holds the carrier's own description.
    TransportError(String),
    /// The handset answered the authenticated request with a status outside
    /// the 2xx range. Holds that status and the body of the answer.
    DeviceRejectedError { status: u16, body: String },
    /// A value could not be written as JSON.
    JsonError,
    /// The alert template could not be filled in.
    TemplateError,
}

impl PolyRestError {
    /// The text that [`PolyRestError::to_string`] returns.
    pub open spec fn message(&self) -> Seq<char> {
        match self {
            PolyRestError::EncodingError => "error fixing XML output"@,
            PolyRestError::MissingChallengeError => "device sent no digest challenge"@,
            PolyRestError::ChallengeParseError => "error reading digest challenge"@,
            PolyRestError::TransportError(_) => "error making HTTP request"@,
            PolyRestError::DeviceRejectedError { .. } => "error sending message"@,
            PolyRestError::JsonError => "error writing JSON"@,
            PolyRestError::TemplateError => "error rendering template"@,
        }
    }

    /// A one-line description for the operator.
    pub fn to_string(&self) -> (text: String)
        ensures
            text@ == self.message(),
    {
        match self {
            PolyRestError::EncodingError => String::from_str("error fixing XML output"),
            PolyRestError::MissingChallengeError => String::from_str(
                "device sent no digest challenge",
            ),
            PolyRestError::ChallengeParseError => String::from_str(
                "error reading digest challenge",
            ),
            PolyRestError::TransportError(_) => String::from_str("error making HTTP request"),
            PolyRestError::DeviceRejectedError { .. } => String::from_str("error sending message"),
            PolyRestError::JsonError => String::from_str("error writing JSON"),
            PolyRestError::TemplateError => String::from_str("error rendering template"),
        }
    }
}

} // verus!

//! The error taxonomy of the controller.

use vstd::prelude::*;

verus! {

/// Every failure the controller can report.
///
/// Each variant carries a human-readable message. `UnknownOperation` carries
/// the label of the unsupported verb that was requested.
#[derive(Clone, Debug, PartialEq, Eq)]
pub enum Error {
    /// The cluster API rejected or failed a request.
    ApiFailure(String),
    /// A manifest or object could not be (de)serialized.
    SerializationFailure(String),
    /// Keypair or signing-request construction failed.
    CertificateGenerationFailure(String),
    /// A caller requested an unsupported verb; carries the offending label.
    UnknownOperation(String),
    /// A required input was missing, e.g. a webhook bootstrap without a
    /// resolved service.
    PreconditionViolation(String),
}

impl Error {
    /// The message carried by this error.
    pub fn text(&self) -> (r: &String)
        ensures
            r@ == self.spec_text(),
    {
        match self {
            Error::ApiFailure(m) => m,
            Error::SerializationFailure(m) => m,
            Error::CertificateGenerationFailure(m) => m,
            Error::UnknownOperation(m) => m,
            Error::PreconditionViolation(m) => m,
        }
    }

    /// The message carried by this error, as a sequence of characters.
    pub open spec fn spec_text(self) -> Seq<char> {
        match self {
            Error::ApiFailure(m) => m@,
            Error::SerializationFailure(m) => m@,
            Error::CertificateGenerationFailure(m) => m@,
            Error::UnknownOperation(m) => m@,
            Error::PreconditionViolation(m) => m@,
        }
    }
}

} // verus!

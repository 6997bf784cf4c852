//! Errors of playlist generation, decoding and signing.
use vstd::prelude::*;
use vstd::string::StringExecFns;

verus! {

/// Why a structured-text document does not describe a playlist.
#[derive(Debug, Clone, PartialEq, Eq)]
pub enum DecodeError {
    /// An element of the document is not a map.
    NotAMap,
    /// An element has no `transaction_type` key.
    MissingTransactionType,
    /// An element names a transaction type that does not exist.
    UnknownTransactionType(String),
    /// A field that the transaction type requires is absent.
    MissingField(String),
    /// A field is present with a value of the wrong type or range.
    TypeMismatch(String),
}

/// Every error a playlist operation can surface.
#[derive(Debug, Clone, PartialEq, Eq)]
pub enum PlaylistError {
    /// The generation parameters leave no valid workload.
    InvalidConfiguration,
    /// Reading or writing an underlying stream failed.
    IoError(String),
    /// The structured-text emitter failed.
    YamlOutputError,
    /// The structured-text parser failed.
    YamlInputError,
    /// The document does not describe a playlist.
    DecodeError(DecodeError),
    /// Canonical binary encoding failed.
    MessageError(String),
    /// The signer rejected the key or the input.
    SigningError(String),
}

impl PlaylistError {
    /// The human-readable text of the error.
    pub open spec fn message_of(&self) -> Seq<char> {
        match self {
            PlaylistError::InvalidConfiguration => "Invalid workload configuration"@,
            PlaylistError::IoError(e) => "Error occurred writing messages: "@ + e@,
            PlaylistError::YamlOutputError => "Error occurred generating YAML output"@,
            PlaylistError::YamlInputError => "Error occurred reading YAML input"@,
            PlaylistError::DecodeError(_) => "Error occurred decoding the playlist"@,
            PlaylistError::MessageError(e) => "Error occurred creating protobuf: "@ + e@,
            PlaylistError::SigningError(e) => "Error occurred signing transactions: "@ + e@,
        }
    }

    /// The human-readable text of the error.
    pub fn message(&self) -> (r: String)
        ensures
            r@ == self.message_of(),
    {
        match self {
            PlaylistError::InvalidConfiguration => String::from_str("Invalid workload configuration"),
            PlaylistError::IoError(e) => {
                let mut s = String::from_str("Error occurred writing messages: ");
                s.append(e.as_str());
                s
            },
            PlaylistError::YamlOutputError => String::from_str("Error occurred generating YAML output"),
            PlaylistError::YamlInputError => String::from_str("Error occurred reading YAML input"),
            PlaylistError::DecodeError(_) => String::from_str("Error occurred decoding the playlist"),
            PlaylistError::MessageError(e) => {
                let mut s = String::from_str("Error occurred creating protobuf: ");
                s.append(e.as_str());
                s
            },
            PlaylistError::SigningError(e) => {
                let mut s = String::from_str("Error occurred signing transactions: ");
                s.append(e.as_str());
                s
            },
        }
    }
}

} // verus!

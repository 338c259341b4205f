//! The errors that the operations of a voice hand back.

use vstd::prelude::*;

verus! {

/// The ways an operation of a voice can fail. Every failure is a value handed
/// back to the caller; each variant carries a message for people to read.
#[derive(Debug, Clone, PartialEq, Eq)]
pub enum PiperError {
    /// A model or configuration file that was referred to does not exist.
    ResourceNotFound(String),
    /// The model descriptor is malformed or lacks what the voice needs.
    ConfigParseError(String),
    /// The inference backend rejected its inputs or failed internally.
    InferenceError(String),
    /// The caller asked for something the voice cannot do in its state.
    OperationError(String),
    /// The phonemizer or the diacritizer failed.
    PhonemizationError(String),
}

pub type PiperResult<T> = Result<T, PiperError>;

impl PiperError {
    /// The message carried by the error, whatever its kind.
    pub open spec fn spec_message(&self) -> Seq<char> {
        match self {
            PiperError::ResourceNotFound(m) => m@,
            PiperError::ConfigParseError(m) => m@,
            PiperError::InferenceError(m) => m@,
            PiperError::OperationError(m) => m@,
            PiperError::PhonemizationError(m) => m@,
        }
    }

    /// The message carried by the error, whatever its kind.
    pub fn message(&self) -> (msg: &String)
        ensures
            msg@ == self.spec_message(),
    {
        match self {
            PiperError::ResourceNotFound(m) => m,
            PiperError::ConfigParseError(m) => m,
            PiperError::InferenceError(m) => m,
            PiperError::OperationError(m) => m,
            PiperError::PhonemizationError(m) => m,
        }
    }

    /// An `OperationError` with the given text.
    pub fn operation(text: &str) -> (e: PiperError)
        ensures
            e matches PiperError::OperationError(m) && m@ == text@,
    {
        PiperError::OperationError(String::from_str(text))
    }

    /// A `ConfigParseError` with the given text.
    pub fn config(text: &str) -> (e: PiperError)
        ensures
            e matches PiperError::ConfigParseError(m) && m@ == text@,
    {
        PiperError::ConfigParseError(String::from_str(text))
    }

    /// An `InferenceError` that embeds the backend's own message.
    pub fn inference(backend_message: &str) -> (e: PiperError)
        ensures
            e matches PiperError::InferenceError(m) && m@ == inference_prefix() + backend_message@,
    {
        PiperError::InferenceError(
            String::from_str("Failed to run model inference. Error: ").concat(backend_message),
        )
    }
}

/// The fixed text in front of a backend's message in an `InferenceError`.
pub open spec fn inference_prefix() -> Seq<char> {
    "Failed to run model inference. Error: "@
}

} // verus!

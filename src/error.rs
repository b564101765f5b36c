use vstd::prelude::*;

verus! {

/// Classified failure of a model call or of the orchestration around it.
#[derive(Debug)]
pub enum ModelError {
    NotFound(String),
    NotSupported(String),
    InvalidArgument(String),
    InternalError(String),
    InvalidPrompt(String),
    Other(String),
}

/// Whether an error class is presumed transient, so that the retry policy may
/// try the call again. Only backend faults are; unclassified errors are not.
pub open spec fn spec_is_retryable(e: ModelError) -> bool {
    e is InternalError
}

/// The text shown for an error.
pub open spec fn error_text(e: ModelError) -> Seq<char> {
    match e {
        ModelError::NotFound(_) => "Model not found"@,
        ModelError::NotSupported(_) => "Model not supported"@,
        ModelError::InvalidArgument(s) => "Invalid argument supplied: "@ + s@,
        ModelError::InternalError(s) => "Some internal error occurred: "@ + s@,
        ModelError::InvalidPrompt(s) => "Invalid prompt provided: "@ + s@,
        ModelError::Other(s) => "Some unknown error occurred: "@ + s@,
    }
}

impl Clone for ModelError {
    fn clone(&self) -> (r: Self)
        ensures
            r == *self,
    {
        match self {
            ModelError::NotFound(s) => ModelError::NotFound(s.clone()),
            ModelError::NotSupported(s) => ModelError::NotSupported(s.clone()),
            ModelError::InvalidArgument(s) => ModelError::InvalidArgument(s.clone()),
            ModelError::InternalError(s) => ModelError::InternalError(s.clone()),
            ModelError::InvalidPrompt(s) => ModelError::InvalidPrompt(s.clone()),
            ModelError::Other(s) => ModelError::Other(s.clone()),
        }
    }
}

impl ModelError {
    /// True exactly for the transient class, which the retry policy retries.
    pub fn is_retryable(&self) -> (r: bool)
        ensures
            r == spec_is_retryable(*self),
    {
        match self {
            ModelError::InternalError(_) => true,
            _ => false,
        }
    }

    /// Human-readable description of the error.
    pub fn message(&self) -> (r: String)
        ensures
            r@ == error_text(*self),
    {
        match self {
            ModelError::NotFound(_) => "Model not found".to_owned(),
            ModelError::NotSupported(_) => "Model not supported".to_owned(),
            ModelError::InvalidArgument(s) => "Invalid argument supplied: ".to_owned().concat(s.as_str()),
            ModelError::InternalError(s) => "Some internal error occurred: ".to_owned().concat(s.as_str()),
            ModelError::InvalidPrompt(s) => "Invalid prompt provided: ".to_owned().concat(s.as_str()),
            ModelError::Other(s) => "Some unknown error occurred: ".to_owned().concat(s.as_str()),
        }
    }
}

/// Failure reported by a provider while producing a model or its headers.
#[derive(Debug)]
pub enum ProviderError {
    ModelNotFound(String),
    InvalidModelId(String),
    RequestFailed(String),
    UnsupportedModel(String),
    ModelError(ModelError),
    UnknownError,
}

} // verus!

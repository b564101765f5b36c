use vstd::prelude::*;
use crate::error::ModelError;

verus! {

/// Whether the model is asked for text or for JSON.
#[derive(Debug, Clone, Copy, PartialEq, Eq, Structural)]
pub enum LanguageModelCallSettingsResponseFormat {
    Text,
    Json,
}

/// Per-call tuning of a model call. The sampling knobs given as fractions
/// (temperature, nucleus sampling and the penalties) travel beside these
/// settings, with the transport.
#[derive(Debug)]
pub struct LanguageModelCallSettings {
    /// Maximum number of tokens to generate; at least 1.
    pub max_tokens: usize,
    /// Only sample from the top K options for each subsequent token.
    pub top_k: Option<usize>,
    /// The model stops when it generates one of these.
    pub stop_sequences: Option<Vec<String>>,
    /// Seed for random sampling, for deterministic results where supported.
    pub seed: Option<u64>,
    /// Maximum number of retries of a failed call; 0 disables retries.
    pub max_retries: u32,
    /// Additional headers sent with the request.
    pub headers: Vec<(String, String)>,
    /// Text or JSON output.
    pub response_format: Option<LanguageModelCallSettingsResponseFormat>,
}

pub const DEFAULT_MAX_TOKENS: usize = 2056;

pub const DEFAULT_MAX_RETRIES: u32 = 2;

impl Default for LanguageModelCallSettings {
    fn default() -> (r: Self)
        ensures
            r.max_tokens == DEFAULT_MAX_TOKENS,
            r.top_k is None,
            r.stop_sequences is None,
            r.seed is None,
            r.max_retries == DEFAULT_MAX_RETRIES,
            r.headers@.len() == 0,
            r.response_format is None,
    {
        LanguageModelCallSettings {
            max_tokens: DEFAULT_MAX_TOKENS,
            top_k: None,
            stop_sequences: None,
            seed: None,
            max_retries: DEFAULT_MAX_RETRIES,
            headers: Vec::new(),
            response_format: None,
        }
    }
}

/// The stop sequences after validation: an empty list means none.
pub open spec fn normalized_stop_sequences(s: Option<Vec<String>>) -> Option<Vec<String>> {
    match s {
        Some(v) => if v@.len() == 0 {
            None
        } else {
            Some(v)
        },
        None => None,
    }
}

impl LanguageModelCallSettings {
    /// Validates the settings once before use: rejects `max_tokens < 1` and
    /// turns an empty list of stop sequences into none.
    pub fn prepare(&mut self) -> (r: Result<(), ModelError>)
        ensures
            r is Err <==> old(self).max_tokens < 1,
            r is Err ==> r->Err_0 is InvalidArgument && *final(self) == *old(self),
            r is Ok ==> {
                &&& final(self).stop_sequences == normalized_stop_sequences(old(self).stop_sequences)
                &&& final(self).max_tokens == old(self).max_tokens
                &&& final(self).top_k == old(self).top_k
                &&& final(self).seed == old(self).seed
                &&& final(self).max_retries == old(self).max_retries
                &&& final(self).headers == old(self).headers
                &&& final(self).response_format == old(self).response_format
            },
    {
        if self.max_tokens < 1 {
            return Err(ModelError::InvalidArgument("max_tokens must be at least 1".to_owned()));
        }
        let empty = match &self.stop_sequences {
            Some(s) => s.len() == 0,
            None => false,
        };
        if empty {
            self.stop_sequences = None;
        }
        Ok(())
    }
}

} // verus!

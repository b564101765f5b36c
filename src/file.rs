use vstd::prelude::*;
use base64::engine::general_purpose;
use base64::Engine;
use crate::error::ModelError;

verus! {

/// What base64's standard engine makes of a byte string: padded text over the
/// standard alphabet.
pub uninterp spec fn base64_encoding(bytes: Seq<u8>) -> Seq<char>;

/// What base64's standard engine reads from a text: the bytes, or nothing when
/// the text is not valid padded standard base64.
pub uninterp spec fn base64_decoding(text: Seq<char>) -> Option<Seq<u8>>;

#[verifier::external_type_specification]
#[verifier::external_body]
pub struct ExDecodeError(base64::DecodeError);

/// Relies on base64's `Engine::encode` with the STANDARD engine; the text
/// depends on the bytes alone and is empty exactly for no bytes.
#[verifier::external_body]
pub(crate) fn encode_base64(bytes: &[u8]) -> (r: String)
    ensures
        r@ == base64_encoding(bytes@),
        bytes@.len() == 0 <==> r@.len() == 0,
{
    general_purpose::STANDARD.encode(bytes)
}

/// Relies on base64's `Engine::decode` with the STANDARD engine: the bytes
/// when the text is valid, an error otherwise.
#[verifier::external_body]
fn decode_base64(text: &str) -> (r: Result<Vec<u8>, base64::DecodeError>)
    ensures
        r is Ok <==> base64_decoding(text@) is Some,
        r is Ok ==> r->Ok_0@ == base64_decoding(text@)->Some_0,
{
    general_purpose::STANDARD.decode(text)
}

/// A file produced by a model, held as base64 text, as bytes, or both; each
/// form is computed from the other on first request.
#[derive(Debug)]
pub struct GenerateFile {
    pub base64: Option<String>,
    pub buffer: Option<Vec<u8>>,
    pub mime_type: String,
}

impl GenerateFile {
    /// At least one of the two forms is present.
    pub open spec fn wf(&self) -> bool {
        self.base64 is Some || self.buffer is Some
    }

    pub fn with_base64(base64: String, mime_type: String) -> (r: Self)
        ensures
            r.wf(),
            r.base64 == Some(base64),
            r.buffer is None,
            r.mime_type == mime_type,
    {
        GenerateFile { base64: Some(base64), buffer: None, mime_type }
    }

    pub fn with_buffer(buffer: Vec<u8>, mime_type: String) -> (r: Self)
        ensures
            r.wf(),
            r.base64 is None,
            r.buffer == Some(buffer),
            r.mime_type == mime_type,
    {
        GenerateFile { base64: None, buffer: Some(buffer), mime_type }
    }

    /// The file as base64 text, encoding the bytes and keeping the text if it
    /// was not held yet.
    pub fn get_base64(&mut self) -> (r: String)
        requires
            old(self).wf(),
        ensures
            final(self).wf(),
            final(self).buffer == old(self).buffer,
            final(self).mime_type == old(self).mime_type,
            final(self).base64 == Some(r),
            old(self).base64 is Some ==> r == old(self).base64->Some_0,
            old(self).base64 is None ==> r@ == base64_encoding(old(self).buffer->Some_0@),
    {
        match &self.base64 {
            Some(text) => text.clone(),
            None => {
                let text = match &self.buffer {
                    Some(bytes) => encode_base64(bytes.as_slice()),
                    None => String::new(),
                };
                self.base64 = Some(text.clone());
                text
            },
        }
    }

    /// The file as bytes, decoding the base64 text and keeping the bytes if
    /// they were not held yet. Text that is not valid base64 is rejected.
    pub fn get_buffer(&mut self) -> (r: Result<Vec<u8>, ModelError>)
        requires
            old(self).wf(),
        ensures
            final(self).wf(),
            final(self).base64 == old(self).base64,
            final(self).mime_type == old(self).mime_type,
            old(self).buffer is Some ==> r is Ok && r->Ok_0@ == old(self).buffer->Some_0@
                && final(self).buffer == old(self).buffer,
            old(self).buffer is None ==> {
                let decoded = base64_decoding(old(self).base64->Some_0@);
                &&& (r is Ok <==> decoded is Some)
                &&& r is Ok ==> r->Ok_0@ == decoded->Some_0 && final(self).buffer is Some
                    && final(self).buffer->Some_0@ == decoded->Some_0
                &&& r is Err ==> r->Err_0 is InvalidArgument && final(self).buffer is None
            },
    {
        match &self.buffer {
            Some(bytes) => Ok(bytes.clone()),
            None => {
                let decoded = match &self.base64 {
                    Some(text) => decode_base64(text.as_str()),
                    None => Ok(Vec::new()),
                };
                match decoded {
                    Ok(bytes) => {
                        let out = bytes.clone();
                        self.buffer = Some(bytes);
                        Ok(out)
                    },
                    Err(_) => Err(ModelError::InvalidArgument("file content is not valid base64".to_owned())),
                }
            },
        }
    }
}

} // verus!

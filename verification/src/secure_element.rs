//! Secure element interface: framing for the external signing helper.
//!
//! Signing runs in a separate helper process that takes the base64 text of
//! the data on its standard input and answers with the base64 text of the
//! signature. This crate builds the request payload and interprets the
//! helper's outcome; spawning the helper happens outside it.

use vstd::prelude::*;

verus! {

/// The base64 text, as bytes, that the encoder produces for a byte
/// sequence (RFC 4648, padded alphabet). The encoding is deterministic:
/// it depends on the input alone.
pub uninterp spec fn base64_of(data: Seq<u8>) -> Seq<u8>;

/// Relies on `data_encoding::BASE64.encode`: deterministic padded base64,
/// four characters for every three input bytes, and nothing else on an
/// empty input.
#[verifier::external_body]
fn base64_encode(data: &Vec<u8>) -> (r: Vec<u8>)
    requires
        data@.len() <= usize::MAX / 512,
    ensures
        r@ == base64_of(data@),
        r@.len() == ((data@.len() + 2) / 3) * 4,
{
    data_encoding::BASE64.encode(data.as_slice()).into_bytes()
}

/// Relies on `data_encoding::BASE64.decode`: decoding an encoder output
/// yields the original bytes; an input the decoder rejects yields nothing.
#[verifier::external_body]
fn base64_decode(text: &Vec<u8>) -> (r: Option<Vec<u8>>)
    ensures
        r is Some <== exists|b: Seq<u8>| text@ == base64_of(b),
        r matches Some(v) ==> forall|b: Seq<u8>| text@ == base64_of(b) ==> v@ == b,
{
    data_encoding::BASE64.decode(text.as_slice()).ok()
}

/// Why a signing run produced no signature.
#[derive(Clone, Copy, Debug, PartialEq, Eq, Structural)]
pub enum SignError {
    /// The helper exited with this non-zero code.
    NonZeroExit(i32),
    /// The helper was terminated by a signal.
    TerminatedBySignal,
    /// The helper reported success but its output was not base64.
    InvalidOutput,
}

/// The exact payload handed to the signing helper's standard input: the
/// base64 text of the data to sign.
pub fn sign_request_payload(data: &Vec<u8>) -> (r: Vec<u8>)
    requires
        data@.len() <= usize::MAX / 512,
    ensures
        r@ == base64_of(data@),
        r@.len() == ((data@.len() + 2) / 3) * 4,
{
    base64_encode(data)
}

/// Interprets a signing run: a failed exit names its code, a
/// signal-terminated run is reported as such, and a successful run's
/// standard output decodes into the signature — for whatever bytes the
/// output happens to be the encoding of, those bytes come back.
pub fn parse_sign_response(success: bool, exit_code: Option<i32>, stdout: &Vec<u8>) -> (r: Result<
    Vec<u8>,
    SignError,
>)
    ensures
        !success ==> r == (match exit_code {
            Some(code) => Err::<Vec<u8>, SignError>(SignError::NonZeroExit(code)),
            None => Err::<Vec<u8>, SignError>(SignError::TerminatedBySignal),
        }),
        success ==> (r is Ok <== exists|b: Seq<u8>| stdout@ == base64_of(b)),
        success ==> (r matches Ok(v) ==> forall|b: Seq<u8>| stdout@ == base64_of(b) ==> v@ == b),
        success ==> (r matches Err(e) ==> e == SignError::InvalidOutput),
        success ==> (r is Err ==> forall|b: Seq<u8>| stdout@ != base64_of(b)),
{
    if !success {
        return match exit_code {
            Some(code) => Err(SignError::NonZeroExit(code)),
            None => Err(SignError::TerminatedBySignal),
        };
    }
    match base64_decode(stdout) {
        Some(signature) => Ok(signature),
        None => Err(SignError::InvalidOutput),
    }
}

} // verus!

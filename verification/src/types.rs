//! The language variants and the portable executable bundle, together with
//! the base64 bundle codec.

use vstd::prelude::*;

use crate::error::AppError;
use crate::text::lit_bytes;

verus! {

/// Source language of a build request. The variant decides the source
/// filename convention, the build command, and the run command.
#[derive(Clone, Copy, PartialEq, Eq, Structural, Debug)]
pub enum Language {
    /// Natively compiled (C++).
    Cpp,
    /// JVM compiled (Java 21).
    Java21,
    /// Interpreted (Python 3.12).
    Py12,
}

/// A portable, self-describing executable bundle: an archive holding all
/// files the runtime needs (as base64 text, kept as bytes here) plus the
/// command that starts the entry point once the archive is unpacked.
#[derive(Debug)]
pub struct Executable {
    /// Base64 text of a gzipped tar archive, one byte per character.
    pub files: Vec<u8>,
    /// Shell command that runs the unpacked artifact.
    pub run_command: Vec<u8>,
}

/// Base64 text (standard alphabet, padded) of a byte sequence.
pub uninterp spec fn b64_encoding(bytes: Seq<u8>) -> Seq<u8>;

/// What decoding base64 text yields: the decoded bytes, or nothing when the
/// text is not valid base64.
pub uninterp spec fn b64_decoding(text: Seq<u8>) -> Option<Seq<u8>>;

/// Relies on base64's standard-alphabet, padded engine: the encoding is a
/// function of the input bytes alone, and decoding it returns those bytes.
/// The length bound keeps the engine's buffer-size arithmetic from
/// overflowing, on which it would panic.
#[verifier::external_body]
fn base64_encode(bytes: &Vec<u8>) -> (r: Vec<u8>)
    requires
        bytes@.len() <= usize::MAX / 4,
    ensures
        r@ == b64_encoding(bytes@),
        b64_decoding(r@) == Some(bytes@),
{
    base64::Engine::encode(&base64::prelude::BASE64_STANDARD, bytes).into_bytes()
}

/// Relies on base64's standard-alphabet, padded engine: decoding is a
/// function of the input text alone and fails exactly on text that is not
/// valid base64.
#[verifier::external_body]
fn base64_decode(text: &Vec<u8>) -> (r: Result<Vec<u8>, base64::DecodeError>)
    ensures
        match r {
            Ok(v) => b64_decoding(text@) == Some(v@),
            Err(_) => b64_decoding(text@) is None,
        },
{
    base64::Engine::decode(&base64::prelude::BASE64_STANDARD, text)
}

/// Error returned by the base64 engine on malformed text.
#[verifier::external_type_specification]
#[verifier::external_body]
pub struct ExDecodeError(base64::DecodeError);

/// Packs a built archive and its run command into a portable bundle.
pub fn bundle_from_archive(archive: &Vec<u8>, run_command: Vec<u8>) -> (e: Executable)
    requires
        archive@.len() <= usize::MAX / 4,
    ensures
        e.files@ == b64_encoding(archive@),
        b64_decoding(e.files@) == Some(archive@),
        e.run_command == run_command,
{
    Executable { files: base64_encode(archive), run_command }
}

/// Recovers the archive bytes of a bundle. Fails exactly when the bundle's
/// file text is not valid base64, which is the caller's fault.
pub fn archive_of_bundle(e: &Executable) -> (r: Result<Vec<u8>, AppError>)
    ensures
        match r {
            Ok(v) => b64_decoding(e.files@) == Some(v@),
            Err(err) => b64_decoding(e.files@) is None && err.kind is Validation,
        },
{
    match base64_decode(&e.files) {
        Ok(v) => Ok(v),
        Err(_) => Err(AppError::validation(
            lit_bytes("Invalid executable bundle: files are not valid base64"),
        )),
    }
}

} // verus!

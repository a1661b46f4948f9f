//! The calls into the `c2pa` SDK.
//!
//! Nothing in this module is proved. Each item says what the library takes
//! on trust from the SDK, and no more than its source shows.

use crate::error::Cause;
use vstd::prelude::*;

verus! {

/// `c2pa::Reader`: a manifest store that was read and validated. The library
/// carries it through, and asks it only for the failures recorded in it.
#[verifier::external_type_specification]
#[verifier::external_body]
pub struct ExReader(c2pa::Reader);

/// `c2pa::Error`: the SDK's own error. The library only asks it for its
/// cause and its message.
#[verifier::external_type_specification]
#[verifier::external_body]
pub struct ExSdkError(c2pa::Error);

/// `c2pa::settings::Settings::from_string`: lays the document over the
/// settings of the current thread. Nothing is claimed of the outcome: whether
/// a document is accepted depends on the settings already in force.
#[verifier::external_body]
pub(crate) fn settings_from_string(settings: &str, format: &str) -> (r: Result<(), c2pa::Error>) {
    match c2pa::settings::Settings::from_string(settings, format) {
        Ok(_) => Ok(()),
        Err(e) => Err(e),
    }
}

/// `c2pa::Reader::from_stream`, on bytes held in memory. Nothing is claimed
/// of the outcome: it depends on the settings in force, on the trust
/// material they name and on the clock.
#[verifier::external_body]
pub(crate) fn reader_from_stream(format: &str, data: &[u8]) -> (r: Result<
    c2pa::Reader,
    c2pa::Error,
>) {
    c2pa::Reader::from_stream(format, std::io::Cursor::new(data))
}

/// `c2pa::Reader::from_manifest_data_and_stream`, on bytes held in memory.
/// Nothing is claimed of the outcome.
#[verifier::external_body]
pub(crate) fn reader_from_manifest_data_and_stream(
    manifest: &[u8],
    format: &str,
    asset: &[u8],
) -> (r: Result<c2pa::Reader, c2pa::Error>) {
    c2pa::Reader::from_manifest_data_and_stream(manifest, format, std::io::Cursor::new(asset))
}

/// `c2pa::Reader::from_fragment`, on bytes held in memory. Nothing is
/// claimed of the outcome. The SDK makes this read under its default
/// settings, not under those of the thread.
#[verifier::external_body]
pub(crate) fn reader_from_fragment(format: &str, init: &[u8], fragment: &[u8]) -> (r: Result<
    c2pa::Reader,
    c2pa::Error,
>) {
    c2pa::Reader::from_fragment(
        format,
        std::io::Cursor::new(init),
        std::io::Cursor::new(fragment),
    )
}

/// The failures that a manifest store holds, each by its code, in the order
/// in which the SDK recorded them while it validated the store.
pub uninterp spec fn spec_failure_codes(store: c2pa::Reader) -> Seq<Seq<char>>;

/// A list of texts as plain values.
pub open spec fn spec_texts(texts: Seq<String>) -> Seq<Seq<char>> {
    Seq::new(texts.len(), |i: int| texts[i]@)
}

/// `c2pa::Reader::validation_status`, each status by its `code`: the
/// failures that the store holds. The call reads a field of the store and
/// changes nothing, so that the same store gives the same codes.
#[verifier::external_body]
pub(crate) fn validation_failure_codes(reader: &c2pa::Reader) -> (codes: Vec<String>)
    ensures
        spec_texts(codes@) == spec_failure_codes(*reader),
{
    match reader.validation_status() {
        Some(statuses) => statuses.iter().map(|status| status.code().to_owned()).collect(),
        None => Vec::new(),
    }
}

/// The cause that an error of the SDK names, as far as the taxonomy tells
/// causes apart: a missing manifest store for `JumbfNotFound`, a remote
/// manifest store with its URL for `RemoteManifestUrl`, a hash mismatch for
/// `HashMismatch`, and `Other` for every other variant.
pub uninterp spec fn spec_error_cause(err: c2pa::Error) -> Cause;

/// Tells the variants of `c2pa::Error` apart that the taxonomy
/// distinguishes. The variant of an error is fixed with the error, so that
/// the same error names the same cause.
#[verifier::external_body]
pub(crate) fn error_cause(err: &c2pa::Error) -> (cause: Cause)
    ensures
        cause == spec_error_cause(*err),
{
    match err {
        c2pa::Error::JumbfNotFound => Cause::ManifestNotFound,
        c2pa::Error::RemoteManifestUrl(url) => Cause::RemoteManifest(url.clone()),
        c2pa::Error::HashMismatch(_) => Cause::HashMismatch,
        _ => Cause::Other,
    }
}

} // verus!

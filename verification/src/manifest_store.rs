//! Reading a manifest store, in each of the ways an asset can be supplied.

use crate::error::{
    describe, spec_sdk_failure, spec_surfaces, ErrorKind, ErrorView, Stage, ToolkitError,
};
use crate::sdk::{
    reader_from_fragment, reader_from_manifest_data_and_stream, reader_from_stream,
    settings_from_string, spec_failure_codes, spec_texts, validation_failure_codes,
};
use crate::trust::same_text;
use vstd::prelude::*;

verus! {

/// The errors that reading a container can end in.
pub open spec fn is_read_failure(e: ErrorView) -> bool {
    &&& e.wf()
    &&& e.kind == ErrorKind::ContainerFormat || e.kind == ErrorKind::ManifestMissing || e.kind
        == ErrorKind::ManifestAssetMismatch
}

/// The errors that applying a settings document can end in.
pub open spec fn is_settings_failure(e: ErrorView) -> bool {
    &&& e.kind == ErrorKind::Configuration
    &&& e.url is None
}

/// The errors that a read can end in: what a failure of the SDK becomes
/// while the settings are applied, where settings came with the call, or
/// what a failure of the SDK becomes while the container is read.
pub open spec fn spec_read_error(e: ToolkitError, settings: Option<&str>) -> bool {
    ||| settings is Some && spec_sdk_failure(Stage::Settings, e)
    ||| spec_sdk_failure(Stage::Container, e)
}

/// Applies a settings document, if one came with the call, to the settings
/// of the current thread.
///
/// The settings are shared state, not part of the call: they stay in force
/// for later calls on this thread until another document lays over them, and
/// a document that is rejected leaves them as they were. Calls that
/// interleave on one thread therefore race for them: the document applied
/// last is in force for every read that has not yet started. Callers that
/// need each call to run under its own settings must run such calls one
/// after another.
pub fn apply_settings(settings: Option<&str>) -> (r: Result<(), ToolkitError>)
    ensures
        settings is None ==> r is Ok,
        r matches Err(e) ==> is_settings_failure(e@) && spec_sdk_failure(Stage::Settings, e),
{
    match settings {
        None => Ok(()),
        Some(document) => conclude_settings(settings_from_string(document, "json")),
    }
}

/// What applying a settings document ends in, given what the SDK returned:
/// a document that it took is applied, and one that it rejected ends the
/// call in a configuration error with the message of the SDK.
pub fn conclude_settings(outcome: Result<(), c2pa::Error>) -> (r: Result<(), ToolkitError>)
    ensures
        outcome is Ok <==> r is Ok,
        outcome matches Err(err) ==> (r matches Err(e) && is_settings_failure(e@) && spec_surfaces(
            Stage::Settings,
            err,
            e,
        )),
{
    match outcome {
        Ok(()) => Ok(()),
        Err(err) => Err(ToolkitError::classify(Stage::Settings, describe(&err))),
    }
}

/// What a read of container bytes ends in, given what the SDK returned: the
/// store as it came, or an error under the category of what the SDK
/// reported, with the message of the SDK.
pub fn conclude_read(outcome: Result<c2pa::Reader, c2pa::Error>) -> (r: Result<
    c2pa::Reader,
    ToolkitError,
>)
    ensures
        outcome is Ok <==> r is Ok,
        outcome matches Ok(reader) ==> r == Ok::<c2pa::Reader, ToolkitError>(reader),
        outcome matches Err(err) ==> (r matches Err(e) && is_read_failure(e@) && spec_surfaces(
            Stage::Container,
            err,
            e,
        )),
{
    match outcome {
        Ok(reader) => Ok(reader),
        Err(err) => Err(ToolkitError::classify(Stage::Container, describe(&err))),
    }
}

/// Whole-asset mode: reads the manifest store embedded in `data`.
///
/// The settings are applied first; where they are rejected, no byte of
/// `data` is read.
pub fn get_manifest_store_data(data: &[u8], mime_type: &str, settings: Option<&str>) -> (r: Result<
    c2pa::Reader,
    ToolkitError,
>)
    ensures
        r matches Err(e) ==> (is_settings_failure(e@) && settings is Some || is_read_failure(e@))
            && spec_read_error(e, settings),
{
    match apply_settings(settings) {
        Err(e) => Err(e),
        Ok(()) => conclude_read(reader_from_stream(mime_type, data)),
    }
}

/// Whether a validation failure with this code says that content does not
/// match the hash that a manifest declares for it.
pub open spec fn spec_is_mismatch_code(code: Seq<char>) -> bool {
    ||| code == "assertion.dataHash.mismatch"@
    ||| code == "assertion.bmffHash.mismatch"@
    ||| code == "assertion.boxesHash.mismatch"@
    ||| code == "assertion.collectionHash.mismatch"@
}

/// Whether one of the failures recorded for a store is a hash mismatch.
pub open spec fn spec_reports_mismatch(failure_codes: Seq<Seq<char>>) -> bool {
    exists|i: int|
        0 <= i < failure_codes.len() && spec_is_mismatch_code(#[trigger] failure_codes[i])
}

/// The message of the error for a manifest that does not match its asset.
pub open spec fn spec_mismatch_message() -> Seq<char> {
    "the manifest does not match the content hash of the asset"@
}

/// The error for a manifest that does not match its asset.
pub open spec fn spec_mismatch() -> ErrorView {
    ErrorView {
        kind: ErrorKind::ManifestAssetMismatch,
        message: spec_mismatch_message(),
        url: None,
    }
}

/// Whether a validation failure with this code is a hash mismatch.
pub fn is_mismatch_code(code: &str) -> (mismatch: bool)
    ensures
        mismatch == spec_is_mismatch_code(code@),
{
    same_text(code, "assertion.dataHash.mismatch") || same_text(
        code,
        "assertion.bmffHash.mismatch",
    ) || same_text(code, "assertion.boxesHash.mismatch") || same_text(
        code,
        "assertion.collectionHash.mismatch",
    )
}

/// Whether one of the failures recorded for a store is a hash mismatch.
pub fn reports_mismatch(failure_codes: &Vec<String>) -> (mismatch: bool)
    ensures
        mismatch == spec_reports_mismatch(spec_texts(failure_codes@)),
{
    let mut i: usize = 0;
    while i < failure_codes.len()
        invariant
            i <= failure_codes.len(),
            forall|j: int|
                0 <= j < i ==> !spec_is_mismatch_code(#[trigger] spec_texts(failure_codes@)[j]),
        decreases failure_codes.len() - i,
    {
        if is_mismatch_code(failure_codes[i].as_str()) {
            assert(spec_is_mismatch_code(spec_texts(failure_codes@)[i as int]));
            return true;
        }
        i += 1;
    }
    false
}

/// Holds a manifest store that was supplied beside its asset against the
/// failures that were recorded while it was validated: where one of them is
/// a hash mismatch, the manifest is not that of the asset, and the call ends
/// in an error. Otherwise the store is handed on as it is.
pub fn hold_against_asset(manifest_store: c2pa::Reader, failure_codes: &Vec<String>) -> (r: Result<
    c2pa::Reader,
    ToolkitError,
>)
    ensures
        r matches Ok(store) ==> store == manifest_store,
        r matches Err(e) ==> e@ == spec_mismatch(),
        r is Err <==> spec_reports_mismatch(spec_texts(failure_codes@)),
{
    if reports_mismatch(failure_codes) {
        Err(
            ToolkitError::mismatch(
                "the manifest does not match the content hash of the asset".to_owned(),
            ),
        )
    } else {
        Ok(manifest_store)
    }
}

/// Separate-manifest mode: reads the manifest store in `manifest_bytes` and
/// holds it against the content of `asset_bytes`.
///
/// The settings are applied first; where they are rejected, no byte of the
/// manifest or the asset is read. A store that was read, but whose
/// validation recorded a hash mismatch, is not handed back: the call ends in
/// a manifest and asset mismatch.
pub fn get_manifest_store_data_from_manifest_and_asset_bytes(
    manifest_bytes: &[u8],
    format: &str,
    asset_bytes: &[u8],
    settings: Option<&str>,
) -> (r: Result<c2pa::Reader, ToolkitError>)
    ensures
        r matches Err(e) ==> (is_settings_failure(e@) && settings is Some || is_read_failure(e@))
            && (spec_read_error(e, settings) || e@ == spec_mismatch()),
        r matches Ok(store) ==> !spec_reports_mismatch(spec_failure_codes(store)),
{
    match apply_settings(settings) {
        Err(e) => Err(e),
        Ok(()) => match conclude_read(
            reader_from_manifest_data_and_stream(manifest_bytes, format, asset_bytes),
        ) {
            Err(e) => Err(e),
            Ok(manifest_store) => {
                let failure_codes = validation_failure_codes(&manifest_store);
                hold_against_asset(manifest_store, &failure_codes)
            },
        },
    }
}

/// Fragmented mode: reads the manifest store of a segmented asset from its
/// initialization segment and holds it against one fragment.
///
/// The settings are applied first; where they are rejected, no byte of the
/// segment or the fragment is read.
pub fn get_manifest_store_data_from_fragment(
    init_bytes: &[u8],
    fragment_bytes: &[u8],
    mime_type: &str,
    settings: Option<&str>,
) -> (r: Result<c2pa::Reader, ToolkitError>)
    ensures
        r matches Err(e) ==> (is_settings_failure(e@) && settings is Some || is_read_failure(e@))
            && spec_read_error(e, settings),
{
    match apply_settings(settings) {
        Err(e) => Err(e),
        Ok(()) => conclude_read(reader_from_fragment(mime_type, init_bytes, fragment_bytes)),
    }
}

} // verus!

//! The report: the manifest store of an asset and the summary of its
//! identity assertions, side by side.

use crate::error::{ErrorKind, ErrorView, ToolkitError};
use vstd::prelude::*;

verus! {

/// What a validation call hands back: the manifest store as the SDK read
/// it, and beside it the serialized summary of the identity assertions.
/// The two are siblings: neither is nested in the other.
#[derive(Debug)]
pub struct AssetReport {
    pub manifest_store: c2pa::Reader,
    pub identity_summary_json: String,
}

/// Assembles the report from a manifest store and the outcome of
/// serializing the identity summary.
///
/// The summary must have been taken in full before this is called: the
/// report holds the whole of it or does not come to be. Where the summary
/// could not be serialized, the call ends in a serialization error that
/// carries the message of the serializer.
pub fn assemble_report(manifest_store: c2pa::Reader, summary: Result<String, String>) -> (r: Result<
    AssetReport,
    ToolkitError,
>)
    ensures
        match summary {
            Ok(json) => r matches Ok(report) && report.manifest_store == manifest_store
                && report.identity_summary_json@ == json@,
            Err(message) => r matches Err(e) && e@ == (ErrorView {
                kind: ErrorKind::Serialization,
                message: message@,
                url: None,
            }),
        },
{
    match summary {
        Ok(identity_summary_json) => Ok(AssetReport { manifest_store, identity_summary_json }),
        Err(message) => Err(ToolkitError::serialization(message)),
    }
}

} // verus!

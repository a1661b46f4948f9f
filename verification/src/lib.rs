//! Validation of content-provenance data in media assets.
//!
//! The crate reads the manifest store of an asset through the `c2pa` SDK in
//! one of several supply modes, classifies every failure into a small
//! taxonomy that callers can branch on, summarizes the outcome of each
//! identity assertion, and assembles the combined report.
//!
//! The functions of this module are the entry points. Each takes its buffers
//! as the outcome of decoding what the caller supplied, so that a buffer that
//! could not be decoded ends the call before anything else is done.

pub mod error;
pub mod identity;
pub mod manifest_store;
pub mod report;
pub mod rolling_hash;
pub mod sdk;
pub mod trust;

use crate::error::{ErrorKind, ErrorView, ToolkitError};
use crate::manifest_store::{
    get_manifest_store_data, get_manifest_store_data_from_fragment,
    get_manifest_store_data_from_manifest_and_asset_bytes, is_read_failure, is_settings_failure,
    spec_mismatch, spec_read_error, spec_reports_mismatch,
};
use crate::sdk::spec_failure_codes;
use crate::rolling_hash::{
    get_manifest_store_from_rolling_hash, spec_chain_seed, spec_is_request_for, spec_refuses,
    RollingHashRequest,
};
use vstd::prelude::*;

verus! {

/// The error for a buffer that could not be decoded, with the message of
/// the decoder.
pub open spec fn spec_undecoded(message: String) -> ErrorView {
    ErrorView { kind: ErrorKind::InputDecode, message: message@, url: None }
}

/// What reading a manifest store can end in once its buffers are decoded:
/// rejected settings, where settings came with the call, or a failure to
/// read the container.
pub open spec fn spec_ends_reading(
    r: Result<c2pa::Reader, ToolkitError>,
    settings: Option<&str>,
) -> bool {
    r matches Err(e) ==> (is_settings_failure(e@) && settings is Some || is_read_failure(e@))
        && spec_read_error(e, settings)
}

/// Whole-asset mode: reads the manifest store embedded in an asset.
///
/// A buffer that could not be decoded ends the call in an input decode
/// error, before the settings are touched.
pub fn get_manifest_store_from_array_buffer(
    buf: Result<Vec<u8>, String>,
    mime_type: &str,
    settings: Option<&str>,
) -> (r: Result<c2pa::Reader, ToolkitError>)
    ensures
        match buf {
            Err(message) => r matches Err(e) && e@ == spec_undecoded(message),
            Ok(_) => spec_ends_reading(r, settings),
        },
{
    match buf {
        Err(message) => Err(ToolkitError::input_decode(message)),
        Ok(asset) => get_manifest_store_data(asset.as_slice(), mime_type, settings),
    }
}

/// Separate-manifest mode: reads a manifest store that was supplied beside
/// the asset, and holds it against the asset.
///
/// The manifest buffer is decoded before the asset buffer: the first that
/// could not be decoded ends the call in an input decode error, before the
/// settings are touched.
pub fn get_manifest_store_from_manifest_and_asset(
    manifest_buffer: Result<Vec<u8>, String>,
    asset_buffer: Result<Vec<u8>, String>,
    mime_type: &str,
    settings: Option<&str>,
) -> (r: Result<c2pa::Reader, ToolkitError>)
    ensures
        match (manifest_buffer, asset_buffer) {
            (Err(message), _) => r matches Err(e) && e@ == spec_undecoded(message),
            (Ok(_), Err(message)) => r matches Err(e) && e@ == spec_undecoded(message),
            (Ok(_), Ok(_)) => {
                &&& r matches Err(e) ==> (is_settings_failure(e@) && settings is Some
                    || is_read_failure(e@)) && (spec_read_error(e, settings) || e@
                    == spec_mismatch())
                &&& r matches Ok(store) ==> !spec_reports_mismatch(spec_failure_codes(store))
            },
        },
{
    match manifest_buffer {
        Err(message) => Err(ToolkitError::input_decode(message)),
        Ok(manifest) => match asset_buffer {
            Err(message) => Err(ToolkitError::input_decode(message)),
            Ok(asset) => get_manifest_store_data_from_manifest_and_asset_bytes(
                manifest.as_slice(),
                mime_type,
                asset.as_slice(),
                settings,
            ),
        },
    }
}

/// Fragmented mode: reads the manifest store of a segmented asset from its
/// initialization segment and one fragment.
///
/// The initialization segment is decoded before the fragment: the first
/// that could not be decoded ends the call in an input decode error, before
/// the settings are touched.
pub fn get_manifest_store_from_fragment(
    init_buf: Result<Vec<u8>, String>,
    fragment_buf: Result<Vec<u8>, String>,
    mime_type: &str,
    settings: Option<&str>,
) -> (r: Result<c2pa::Reader, ToolkitError>)
    ensures
        match (init_buf, fragment_buf) {
            (Err(message), _) => r matches Err(e) && e@ == spec_undecoded(message),
            (Ok(_), Err(message)) => r matches Err(e) && e@ == spec_undecoded(message),
            (Ok(_), Ok(_)) => spec_ends_reading(r, settings),
        },
{
    match init_buf {
        Err(message) => Err(ToolkitError::input_decode(message)),
        Ok(init) => match fragment_buf {
            Err(message) => Err(ToolkitError::input_decode(message)),
            Ok(fragment) => get_manifest_store_data_from_fragment(
                init.as_slice(),
                fragment.as_slice(),
                mime_type,
                settings,
            ),
        },
    }
}

/// The buffer that failed to decode first, with the message of the decoder:
/// the fragment, then the anchor point if one was supplied, then the rolling
/// hash.
pub open spec fn spec_first_undecoded(
    fragment_buf: Result<Vec<u8>, String>,
    rolling_hash: Result<Vec<u8>, String>,
    anchor_point: Option<Result<Vec<u8>, String>>,
) -> Option<String> {
    match fragment_buf {
        Err(message) => Some(message),
        Ok(_) => match anchor_point {
            Some(Err(message)) => Some(message),
            _ => match rolling_hash {
                Err(message) => Some(message),
                Ok(_) => None,
            },
        },
    }
}

/// The anchor point that a call supplied, once decoded.
pub open spec fn spec_decoded_anchor(anchor_point: Option<Result<Vec<u8>, String>>) -> Option<
    Vec<u8>,
> {
    match anchor_point {
        Some(Ok(anchor)) => Some(anchor),
        _ => None,
    }
}

/// Rolling-hash mode, up to the hash chain: settles what is handed to the
/// chain for a new fragment.
///
/// The fragment is decoded first, then the anchor point if one was
/// supplied, then the rolling hash: the first that could not be decoded ends
/// the call in an input decode error, before the settings are touched. Once
/// all are decoded, a call that supplies neither a prior rolling hash nor an
/// anchor point ends in a configuration error, as does one whose settings
/// are rejected.
pub fn get_manifest_from_rolling_hash(
    fragment_buf: Result<Vec<u8>, String>,
    rolling_hash: Result<Vec<u8>, String>,
    anchor_point: Option<Result<Vec<u8>, String>>,
    settings: Option<&str>,
) -> (r: Result<RollingHashRequest, ToolkitError>)
    ensures
        match spec_first_undecoded(fragment_buf, rolling_hash, anchor_point) {
            Some(message) => r matches Err(e) && e@ == spec_undecoded(message),
            None => {
                let fragment = fragment_buf->Ok_0@;
                let prior = rolling_hash->Ok_0@;
                let anchor = spec_decoded_anchor(anchor_point);
                &&& match r {
                    Ok(request) => request.wf() && spec_is_request_for(
                        request,
                        fragment,
                        anchor,
                        prior,
                    ),
                    Err(e) => spec_refuses(e, prior, anchor, settings),
                }
                &&& spec_chain_seed(prior, anchor) is None ==> r is Err
                &&& settings is None && spec_chain_seed(prior, anchor) is Some ==> r is Ok
            },
        },
{
    let fragment = match fragment_buf {
        Err(message) => {
            return Err(ToolkitError::input_decode(message));
        },
        Ok(fragment) => fragment,
    };
    let anchor = match anchor_point {
        Some(Err(message)) => {
            return Err(ToolkitError::input_decode(message));
        },
        Some(Ok(anchor)) => Some(anchor),
        None => None,
    };
    let prior = match rolling_hash {
        Err(message) => {
            return Err(ToolkitError::input_decode(message));
        },
        Ok(prior) => prior,
    };
    get_manifest_store_from_rolling_hash(fragment.as_slice(), &anchor, prior.as_slice(), settings)
}

} // verus!

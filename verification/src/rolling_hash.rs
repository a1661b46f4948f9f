//! Rolling-hash mode: a new fragment of a stream is validated against the
//! hash that the caller carried over from the fragments before it.
//!
//! The library holds no state between calls. The caller keeps the artifact
//! that one call returns and hands it in with the next fragment.

use crate::error::{
    describe, spec_sdk_failure, spec_surfaces, ErrorKind, ErrorView, Stage, ToolkitError,
};
use crate::manifest_store::apply_settings;
use vstd::prelude::*;
use vstd::slice::slice_to_vec;

verus! {

/// Where the chain that a fragment continues takes its start.
#[derive(Clone, Copy, Debug, PartialEq, Eq, Structural)]
pub enum ChainSeed {
    /// From the rolling hash of the fragments before.
    PriorHash,
    /// From the anchor point, the first fragment of the stream.
    Anchor,
    /// From the rolling hash, which is first held against the anchor point.
    AnchoredPriorHash,
}

/// Whether an anchor point was supplied. An anchor point without bytes
/// cannot start a chain and counts as none.
pub open spec fn spec_anchored(anchor_point: Option<Vec<u8>>) -> bool {
    anchor_point matches Some(anchor) && anchor@.len() > 0
}

/// The start of the chain for a prior rolling hash and an anchor point, or
/// `None` where the call names neither.
///
/// Where both are supplied, neither is dropped: the chain is held against
/// the anchor point before the fragment is folded in.
pub open spec fn spec_chain_seed(rolling_hash: Seq<u8>, anchor_point: Option<Vec<u8>>) -> Option<
    ChainSeed,
> {
    if rolling_hash.len() > 0 {
        if spec_anchored(anchor_point) {
            Some(ChainSeed::AnchoredPriorHash)
        } else {
            Some(ChainSeed::PriorHash)
        }
    } else if spec_anchored(anchor_point) {
        Some(ChainSeed::Anchor)
    } else {
        None
    }
}

/// A call is refused for want of a start exactly if it has no prior rolling
/// hash and no anchor point. So a hash that was carried over from the
/// fragment before starts the next chain by itself, as long as it has bytes.
pub proof fn lemma_refused_only_without_start(rolling_hash: Seq<u8>, anchor_point: Option<Vec<u8>>)
    ensures
        spec_chain_seed(rolling_hash, anchor_point) is None <==> rolling_hash.len() == 0
            && !spec_anchored(anchor_point),
        rolling_hash.len() > 0 ==> spec_chain_seed(rolling_hash, None) == Some(
            ChainSeed::PriorHash,
        ),
{
}

/// The message of the error for a call that names no start of the chain.
pub open spec fn spec_no_seed_message() -> Seq<char> {
    "neither a prior rolling hash nor an anchor point was supplied"@
}

/// Decides where the chain takes its start. A call that supplies neither a
/// prior rolling hash nor an anchor point is refused as misconfigured.
pub fn chain_seed(rolling_hash: &[u8], anchor_point: &Option<Vec<u8>>) -> (r: Result<
    ChainSeed,
    ToolkitError,
>)
    ensures
        match spec_chain_seed(rolling_hash@, *anchor_point) {
            Some(seed) => r == Ok::<ChainSeed, ToolkitError>(seed),
            None => r matches Err(e) && e@ == (ErrorView {
                kind: ErrorKind::Configuration,
                message: spec_no_seed_message(),
                url: None,
            }),
        },
{
    let anchored = match anchor_point {
        Some(anchor) => anchor.len() > 0,
        None => false,
    };
    if rolling_hash.len() > 0 {
        if anchored {
            Ok(ChainSeed::AnchoredPriorHash)
        } else {
            Ok(ChainSeed::PriorHash)
        }
    } else if anchored {
        Ok(ChainSeed::Anchor)
    } else {
        Err(
            ToolkitError::configuration(
                "neither a prior rolling hash nor an anchor point was supplied".to_owned(),
            ),
        )
    }
}

/// What is handed to the hash chain for one fragment: the fragment, the
/// rolling hash carried over, and the anchor point if one was supplied.
#[derive(Clone, Debug, PartialEq, Eq)]
pub struct RollingHashRequest {
    pub fragment: Vec<u8>,
    pub rolling_hash: Vec<u8>,
    pub anchor_point: Option<Vec<u8>>,
    pub seed: ChainSeed,
}

impl RollingHashRequest {
    /// A request names the start of its chain, and holds an anchor point
    /// only if it has bytes.
    pub open spec fn wf(self) -> bool {
        &&& spec_chain_seed(self.rolling_hash@, self.anchor_point) == Some(self.seed)
        &&& self.anchor_point is Some ==> spec_anchored(self.anchor_point)
    }
}

/// The request that a call with these inputs makes of the hash chain.
pub open spec fn spec_is_request_for(
    request: RollingHashRequest,
    fragment: Seq<u8>,
    anchor_point: Option<Vec<u8>>,
    rolling_hash: Seq<u8>,
) -> bool {
    &&& request.fragment@ == fragment
    &&& request.rolling_hash@ == rolling_hash
    &&& match request.anchor_point {
        Some(anchor) => spec_anchored(anchor_point) && anchor@ == anchor_point->0@,
        None => !spec_anchored(anchor_point),
    }
    &&& Some(request.seed) == spec_chain_seed(rolling_hash, anchor_point)
}

/// The errors that a rolling-hash call can end in before the chain is
/// reached: a configuration error, which either says that no start of the
/// chain was named, where none was, or is what a failure of the SDK became
/// while the settings were applied, where settings came with the call.
pub open spec fn spec_refuses(
    e: ToolkitError,
    rolling_hash: Seq<u8>,
    anchor_point: Option<Vec<u8>>,
    settings: Option<&str>,
) -> bool {
    &&& e@.kind == ErrorKind::Configuration
    &&& e@.url is None
    &&& {
        ||| spec_chain_seed(rolling_hash, anchor_point) is None && e@.message
            == spec_no_seed_message()
        ||| settings is Some && spec_sdk_failure(Stage::Settings, e)
    }
}

/// Rolling-hash mode, up to the hash chain: applies the settings, then
/// settles where the chain starts and hands back what goes to the chain.
///
/// A call that supplies neither a prior rolling hash nor an anchor point
/// ends in a configuration error, as does one whose settings are rejected.
/// Where the settings are in order, the call succeeds exactly if a start of
/// the chain is named.
pub fn get_manifest_store_from_rolling_hash(
    fragment_bytes: &[u8],
    anchor_point: &Option<Vec<u8>>,
    rolling_hash: &[u8],
    settings: Option<&str>,
) -> (r: Result<RollingHashRequest, ToolkitError>)
    ensures
        match r {
            Ok(request) => request.wf() && spec_is_request_for(
                request,
                fragment_bytes@,
                *anchor_point,
                rolling_hash@,
            ),
            Err(e) => spec_refuses(e, rolling_hash@, *anchor_point, settings),
        },
        spec_chain_seed(rolling_hash@, *anchor_point) is None ==> r is Err,
        settings is None && spec_chain_seed(rolling_hash@, *anchor_point) is Some ==> r is Ok,
{
    match apply_settings(settings) {
        Err(e) => Err(e),
        Ok(()) => match chain_seed(rolling_hash, anchor_point) {
            Err(e) => Err(e),
            Ok(seed) => {
                let anchor = match anchor_point {
                    Some(anchor) => if anchor.len() > 0 {
                        Some(slice_to_vec(anchor.as_slice()))
                    } else {
                        None
                    },
                    None => None,
                };
                Ok(
                    RollingHashRequest {
                        fragment: slice_to_vec(fragment_bytes),
                        rolling_hash: slice_to_vec(rolling_hash),
                        anchor_point: anchor,
                        seed,
                    },
                )
            },
        },
    }
}

/// The errors that folding a fragment into the chain can end in.
pub open spec fn is_chain_failure(e: ErrorView) -> bool {
    &&& e.kind == ErrorKind::ChainContinuity
    &&& e.url is None
}

/// Rolling-hash mode, after the hash chain: what the call ends in, given
/// what the chain returned. The artifact is handed back as it came; a
/// fragment that the chain refused ends the call in a continuity error.
pub fn conclude_rolling_hash(outcome: Result<Vec<u8>, c2pa::Error>) -> (r: Result<
    Vec<u8>,
    ToolkitError,
>)
    ensures
        outcome is Ok <==> r is Ok,
        outcome matches Ok(artifact) ==> r == Ok::<Vec<u8>, ToolkitError>(artifact),
        outcome matches Err(err) ==> (r matches Err(e) && is_chain_failure(e@) && spec_surfaces(
            Stage::Chain,
            err,
            e,
        )),
{
    match outcome {
        Ok(artifact) => Ok(artifact),
        Err(err) => Err(ToolkitError::classify(Stage::Chain, describe(&err))),
    }
}

} // verus!

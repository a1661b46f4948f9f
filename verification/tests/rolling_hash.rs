use toolkit::error::{ErrorKind, ToolkitError};
use toolkit::rolling_hash::{
    chain_seed, conclude_rolling_hash, get_manifest_store_from_rolling_hash, ChainSeed,
    RollingHashRequest,
};

const NO_SEED: &str = "neither a prior rolling hash nor an anchor point was supplied";

#[test]
fn prior_hash_alone_starts_the_chain() {
    assert_eq!(chain_seed(&[7, 7], &None), Ok(ChainSeed::PriorHash));
}

#[test]
fn anchor_alone_starts_the_chain() {
    assert_eq!(chain_seed(&[], &Some(vec![1, 2, 3])), Ok(ChainSeed::Anchor));
}

#[test]
fn anchor_beside_prior_hash_is_kept() {
    assert_eq!(chain_seed(&[9], &Some(vec![1])), Ok(ChainSeed::AnchoredPriorHash));
}

#[test]
fn neither_prior_hash_nor_anchor_is_a_configuration_error() {
    let e = chain_seed(&[], &None).unwrap_err();
    assert_eq!(
        e,
        ToolkitError { kind: ErrorKind::Configuration, message: NO_SEED.to_string(), url: None }
    );
}

#[test]
fn empty_anchor_counts_as_none() {
    let e = chain_seed(&[], &Some(Vec::new())).unwrap_err();
    assert_eq!(e.kind, ErrorKind::Configuration);
    assert_eq!(e.message, NO_SEED);
    assert_eq!(chain_seed(&[5], &Some(Vec::new())), Ok(ChainSeed::PriorHash));
}

#[test]
fn request_holds_what_goes_to_the_chain() {
    let request =
        get_manifest_store_from_rolling_hash(&[1, 2, 3], &Some(vec![4, 5]), &[6], None).unwrap();
    assert_eq!(
        request,
        RollingHashRequest {
            fragment: vec![1, 2, 3],
            rolling_hash: vec![6],
            anchor_point: Some(vec![4, 5]),
            seed: ChainSeed::AnchoredPriorHash,
        }
    );

    let request = get_manifest_store_from_rolling_hash(&[1], &None, &[6, 7], None).unwrap();
    assert_eq!(
        request,
        RollingHashRequest {
            fragment: vec![1],
            rolling_hash: vec![6, 7],
            anchor_point: None,
            seed: ChainSeed::PriorHash,
        }
    );

    let request = get_manifest_store_from_rolling_hash(&[], &Some(vec![8]), &[], None).unwrap();
    assert_eq!(
        request,
        RollingHashRequest {
            fragment: vec![],
            rolling_hash: vec![],
            anchor_point: Some(vec![8]),
            seed: ChainSeed::Anchor,
        }
    );
}

#[test]
fn request_drops_an_empty_anchor() {
    let request =
        get_manifest_store_from_rolling_hash(&[1], &Some(Vec::new()), &[2], None).unwrap();
    assert_eq!(request.anchor_point, None);
    assert_eq!(request.seed, ChainSeed::PriorHash);
}

#[test]
fn rolling_hash_call_without_seed_is_refused() {
    let e = get_manifest_store_from_rolling_hash(&[1, 2, 3], &None, &[], None).unwrap_err();
    assert_eq!(e.kind, ErrorKind::Configuration);
    assert_eq!(e.message, NO_SEED);
    assert_eq!(e.url, None);
}

#[test]
fn rolling_hash_call_with_rejected_settings_is_refused() {
    let e =
        get_manifest_store_from_rolling_hash(&[1], &None, &[2], Some("{not json")).unwrap_err();
    assert_eq!(e.kind, ErrorKind::Configuration);
    assert_eq!(e.message, "bad parameter: could not parse configuration file");
}

#[test]
fn rolling_hash_call_with_accepted_settings_goes_on() {
    let request = get_manifest_store_from_rolling_hash(
        &[1],
        &None,
        &[2],
        Some("{\"verify\": {\"verify_trust\": false}}"),
    )
    .unwrap();
    assert_eq!(request.seed, ChainSeed::PriorHash);
}

#[test]
fn artifact_is_handed_back_as_it_came() {
    assert_eq!(conclude_rolling_hash(Ok(vec![1, 2, 3])), Ok(vec![1, 2, 3]));
    assert_eq!(conclude_rolling_hash(Ok(Vec::new())), Ok(Vec::new()));
}

#[test]
fn refused_fragment_is_a_continuity_error() {
    let e = conclude_rolling_hash(Err(c2pa::Error::HashMismatch("sequence".to_string())))
        .unwrap_err();
    assert_eq!(e.kind, ErrorKind::ChainContinuity);
    assert_eq!(e.message, "hash verification( sequence )");
    assert_eq!(e.url, None);

    let e = conclude_rolling_hash(Err(c2pa::Error::RemoteManifestUrl("https://x.test".to_string())))
        .unwrap_err();
    assert_eq!(e.kind, ErrorKind::ChainContinuity);
    assert_eq!(e.url, None);
}

#[test]
fn carried_artifact_starts_the_next_chain() {
    let artifact = conclude_rolling_hash(Ok(vec![0xAB, 0xCD])).unwrap();
    let next = get_manifest_store_from_rolling_hash(&[9, 9], &None, &artifact, None).unwrap();
    assert_eq!(next.seed, ChainSeed::PriorHash);
    assert_eq!(next.rolling_hash, artifact);
}

#[test]
fn call_without_start_fails_whatever_the_settings() {
    let accepted = "{\"verify\": {\"verify_trust\": false}}";
    let e = get_manifest_store_from_rolling_hash(&[1, 2], &None, &[], Some(accepted)).unwrap_err();
    assert_eq!(e.kind, ErrorKind::Configuration);
    assert_eq!(e.message, NO_SEED);
    assert_eq!(e.url, None);

    let e = get_manifest_store_from_rolling_hash(&[1, 2], &None, &[], Some("{oops")).unwrap_err();
    assert_eq!(e.kind, ErrorKind::Configuration);
    assert_eq!(e.message, "bad parameter: could not parse configuration file");
}

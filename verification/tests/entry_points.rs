use std::io::Cursor;
use toolkit::error::{ErrorKind, ToolkitError};
use toolkit::rolling_hash::{ChainSeed, RollingHashRequest};
use toolkit::{
    get_manifest_from_rolling_hash, get_manifest_store_from_array_buffer,
    get_manifest_store_from_fragment, get_manifest_store_from_manifest_and_asset,
};

fn one_pixel_jpeg() -> Vec<u8> {
    let mut v: Vec<u8> = vec![
        0xFF, 0xD8, 0xFF, 0xE0, 0x00, 0x10, 0x4A, 0x46, 0x49, 0x46, 0x00, 0x01, 0x01, 0x01, 0x00,
        0x48, 0x00, 0x48, 0x00, 0x00,
    ];
    v.extend_from_slice(&[0xFF, 0xDB, 0x00, 0x43, 0x00]);
    for _ in 0..64 {
        v.push(0x01);
    }
    v.extend_from_slice(&[
        0xFF, 0xC9, 0x00, 0x0B, 0x08, 0x00, 0x01, 0x00, 0x01, 0x01, 0x01, 0x11, 0x00,
    ]);
    v.extend_from_slice(&[0xFF, 0xCC, 0x00, 0x06, 0x00, 0x10, 0x10, 0x05]);
    v.extend_from_slice(&[
        0xFF, 0xDA, 0x00, 0x08, 0x01, 0x01, 0x00, 0x00, 0x3F, 0x00, 0xD2, 0xCF, 0x20,
    ]);
    v.extend_from_slice(&[0xFF, 0xD9]);
    v
}

fn signed_one_pixel_jpeg() -> (Vec<u8>, Vec<u8>) {
    let signer = c2pa::EphemeralSigner::new("toolkit.test").unwrap();
    let definition = [
        "{\"title\": \"one pixel\",",
        " \"claim_generator_info\": [{\"name\": \"toolkit tests\", \"version\": \"0.1\"}],",
        " \"assertions\": [{\"label\": \"c2pa.actions\", \"data\": {\"actions\": [",
        "  {\"action\": \"c2pa.created\",",
        "   \"digitalSourceType\":",
        "    \"http://cv.iptc.org/newscodes/digitalsourcetype/digitalCapture\"}]}}]}",
    ]
    .concat();
    let mut builder = c2pa::Builder::from_json(&definition).unwrap();
    let mut source = Cursor::new(one_pixel_jpeg());
    let mut dest = Cursor::new(Vec::new());
    let manifest = builder.sign(&signer, "image/jpeg", &mut source, &mut dest).unwrap();
    (dest.into_inner(), manifest)
}

fn undecoded(message: &str) -> ToolkitError {
    ToolkitError { kind: ErrorKind::InputDecode, message: message.to_string(), url: None }
}

fn bad(message: &str) -> Result<Vec<u8>, String> {
    Err(message.to_string())
}

#[test]
fn whole_asset_entry_reads_a_signed_asset() {
    let (asset, _) = signed_one_pixel_jpeg();
    let store = get_manifest_store_from_array_buffer(Ok(asset), "image/jpeg", None).unwrap();
    assert_eq!(store.active_manifest().unwrap().title(), Some("one pixel"));
}

#[test]
fn whole_asset_entry_refuses_an_undecoded_buffer() {
    let e = get_manifest_store_from_array_buffer(bad("not a buffer"), "image/jpeg", None)
        .unwrap_err();
    assert_eq!(e, undecoded("not a buffer"));
}

#[test]
fn undecoded_buffer_comes_before_rejected_settings() {
    let e = get_manifest_store_from_array_buffer(bad("not a buffer"), "image/jpeg", Some("{oops"))
        .unwrap_err();
    assert_eq!(e, undecoded("not a buffer"));

    let e = get_manifest_store_from_array_buffer(Ok(one_pixel_jpeg()), "image/jpeg", Some("{oops"))
        .unwrap_err();
    assert_eq!(e.kind, ErrorKind::Configuration);
}

#[test]
fn whole_asset_entry_classifies_read_failures() {
    let e = get_manifest_store_from_array_buffer(Ok(one_pixel_jpeg()), "image/jpeg", None)
        .unwrap_err();
    assert_eq!(e.kind, ErrorKind::ManifestMissing);
    let e = get_manifest_store_from_array_buffer(Ok(vec![0xFF, 0xD8]), "image/jpeg", None)
        .unwrap_err();
    assert_eq!(e.kind, ErrorKind::ContainerFormat);
}

#[test]
fn manifest_and_asset_entry_reads_a_separate_manifest() {
    let (asset, manifest) = signed_one_pixel_jpeg();
    let store =
        get_manifest_store_from_manifest_and_asset(Ok(manifest), Ok(asset), "image/jpeg", None)
            .unwrap();
    assert_eq!(store.active_manifest().unwrap().title(), Some("one pixel"));
}

#[test]
fn manifest_and_asset_entry_reports_the_first_undecoded_buffer() {
    let e = get_manifest_store_from_manifest_and_asset(
        bad("manifest"),
        bad("asset"),
        "image/jpeg",
        None,
    )
    .unwrap_err();
    assert_eq!(e, undecoded("manifest"));

    let e = get_manifest_store_from_manifest_and_asset(
        Ok(vec![1]),
        bad("asset"),
        "image/jpeg",
        Some("{oops"),
    )
    .unwrap_err();
    assert_eq!(e, undecoded("asset"));

    let e = get_manifest_store_from_manifest_and_asset(
        bad("manifest"),
        Ok(vec![1]),
        "image/jpeg",
        None,
    )
    .unwrap_err();
    assert_eq!(e, undecoded("manifest"));
}

#[test]
fn fragment_entry_reports_the_first_undecoded_buffer() {
    let e = get_manifest_store_from_fragment(bad("init"), bad("fragment"), "video/mp4", None)
        .unwrap_err();
    assert_eq!(e, undecoded("init"));

    let e = get_manifest_store_from_fragment(Ok(vec![1]), bad("fragment"), "video/mp4", None)
        .unwrap_err();
    assert_eq!(e, undecoded("fragment"));

    let e = get_manifest_store_from_fragment(Ok(vec![1, 2]), Ok(vec![3, 4]), "video/mp4", None)
        .unwrap_err();
    assert_eq!(e.kind, ErrorKind::ContainerFormat);
}

#[test]
fn rolling_hash_entry_settles_the_request() {
    let request =
        get_manifest_from_rolling_hash(Ok(vec![1, 2]), Ok(vec![3]), Some(Ok(vec![4])), None)
            .unwrap();
    assert_eq!(
        request,
        RollingHashRequest {
            fragment: vec![1, 2],
            rolling_hash: vec![3],
            anchor_point: Some(vec![4]),
            seed: ChainSeed::AnchoredPriorHash,
        }
    );

    let request = get_manifest_from_rolling_hash(Ok(vec![1, 2]), Ok(vec![3]), None, None).unwrap();
    assert_eq!(request.seed, ChainSeed::PriorHash);
    assert_eq!(request.anchor_point, None);

    let request =
        get_manifest_from_rolling_hash(Ok(vec![1, 2]), Ok(vec![]), Some(Ok(vec![9])), None)
            .unwrap();
    assert_eq!(request.seed, ChainSeed::Anchor);
}

#[test]
fn rolling_hash_entry_refuses_a_call_without_start() {
    let e = get_manifest_from_rolling_hash(Ok(vec![1, 2]), Ok(vec![]), None, None).unwrap_err();
    assert_eq!(e.kind, ErrorKind::Configuration);
    assert_eq!(e.message, "neither a prior rolling hash nor an anchor point was supplied");

    let e = get_manifest_from_rolling_hash(Ok(vec![1, 2]), Ok(vec![]), Some(Ok(vec![])), None)
        .unwrap_err();
    assert_eq!(e.kind, ErrorKind::Configuration);
}

#[test]
fn rolling_hash_entry_reports_the_first_undecoded_buffer() {
    let e = get_manifest_from_rolling_hash(bad("fragment"), bad("hash"), Some(bad("anchor")), None)
        .unwrap_err();
    assert_eq!(e, undecoded("fragment"));

    let e = get_manifest_from_rolling_hash(Ok(vec![1]), bad("hash"), Some(bad("anchor")), None)
        .unwrap_err();
    assert_eq!(e, undecoded("anchor"));

    let e = get_manifest_from_rolling_hash(Ok(vec![1]), bad("hash"), Some(Ok(vec![2])), None)
        .unwrap_err();
    assert_eq!(e, undecoded("hash"));

    let e = get_manifest_from_rolling_hash(Ok(vec![1]), bad("hash"), None, Some("{oops"))
        .unwrap_err();
    assert_eq!(e, undecoded("hash"));
}

use geo_data::codec::{decode_payload, GeoError};
use geo_data::provider::GeoDataProvider;

/// A brotli stream holding the literal text "hello geo" in a single
/// uncompressed metablock, followed by an empty final metablock.
fn hello_geo_compressed() -> Vec<u8> {
    vec![
        0x80, 0x00, 0x10, // window bits, metablock header, length 9, uncompressed
        0x68, 0x65, 0x6c, 0x6c, 0x6f, 0x20, 0x67, 0x65, 0x6f, // "hello geo"
        0x03, // final empty metablock
    ]
}

/// A brotli stream of the same shape whose raw bytes are not valid UTF-8.
fn invalid_utf8_compressed() -> Vec<u8> {
    vec![0x10, 0x00, 0x10, 0xff, 0xfe, 0x03]
}

fn compress(text: &str) -> Vec<u8> {
    let mut compressed = Vec::new();
    let mut reader = std::io::Cursor::new(text.as_bytes());
    brotli::enc::BrotliCompress(
        &mut reader,
        &mut compressed,
        &brotli::enc::BrotliEncoderParams::default(),
    )
    .expect("compression of a small fixture succeeds");
    compressed
}

#[test]
fn hello_geo_scenario() {
    let mut provider = GeoDataProvider::new(hello_geo_compressed());
    let text = provider.get_geo_data().expect("embedded fixture decodes");
    assert_eq!(text, "hello geo");
}

#[test]
fn decode_payload_hello_geo() {
    let text = decode_payload(&hello_geo_compressed()).expect("fixture decodes");
    assert_eq!(text, "hello geo");
}

#[test]
fn determinism_repeated_calls() {
    let mut provider = GeoDataProvider::new(hello_geo_compressed());
    let first = provider.get_geo_data().expect("fixture decodes");
    for _ in 0..10 {
        let again = provider.get_geo_data().expect("fixture decodes");
        assert_eq!(again, first);
    }
}

#[test]
fn single_initialization_observable() {
    let mut provider = GeoDataProvider::new(hello_geo_compressed());
    assert!(!provider.is_initialized());
    let first = provider.get_geo_data().expect("fixture decodes");
    assert!(provider.is_initialized());
    let second = provider.get_geo_data().expect("fixture decodes");
    assert!(provider.is_initialized());
    assert_eq!(first, second);
}

#[test]
fn round_trip_small_fixture() {
    let fixture = "region,code\nshanghai,310000\nbeijing,110000\n";
    let compressed = compress(fixture);
    assert_ne!(compressed.as_slice(), fixture.as_bytes());
    let text = decode_payload(&compressed).expect("round trip decodes");
    assert_eq!(text, fixture);
}

#[test]
fn round_trip_through_provider() {
    let fixture = "hello geo";
    let mut provider = GeoDataProvider::new(compress(fixture));
    let text = provider.get_geo_data().expect("round trip decodes");
    assert_eq!(text, fixture);
}

#[test]
fn corrupt_truncated_payload_fails() {
    let compressed = compress("hello geo");
    let truncated = &compressed[..compressed.len() / 2];
    assert_eq!(decode_payload(truncated), Err(GeoError::CorruptPayload));
}

#[test]
fn corrupt_bit_flipped_payload_fails() {
    let mut stream = hello_geo_compressed();
    // Clearing the last-metablock bit leaves the stream unfinished at its end.
    let last = stream.len() - 1;
    stream[last] = 0x02;
    assert_eq!(decode_payload(&stream), Err(GeoError::CorruptPayload));
}

#[test]
fn empty_payload_fails() {
    assert_eq!(decode_payload(&[]), Err(GeoError::CorruptPayload));
}

#[test]
fn invalid_utf8_payload_fails() {
    assert_eq!(
        decode_payload(&invalid_utf8_compressed()),
        Err(GeoError::CorruptPayload)
    );
}

#[test]
fn failure_is_latched_without_retry() {
    let mut provider = GeoDataProvider::new(vec![]);
    assert!(!provider.is_initialized());
    assert_eq!(provider.get_geo_data(), Err(GeoError::CorruptPayload));
    // The failure is recorded like a success: later calls return the recorded
    // error without running the decompression again.
    assert!(provider.is_initialized());
    assert_eq!(provider.get_geo_data(), Err(GeoError::CorruptPayload));
    assert!(provider.is_initialized());
}

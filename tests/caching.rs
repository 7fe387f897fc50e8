use ai_refinery::cache::{decode_entry, encode_entry, generate_key, CacheError, CACHE_TTL_SECONDS};
use futures::io::AsyncWriteExt;

fn gzip_raw(bytes: &[u8]) -> Vec<u8> {
    let mut encoder = async_compression::futures::write::GzipEncoder::new(Vec::new());
    futures::executor::block_on(encoder.write_all(bytes)).unwrap();
    futures::executor::block_on(encoder.close()).unwrap();
    encoder.into_inner()
}

#[test]
fn keys_are_namespaced_by_filename() {
    assert_eq!(generate_key("talk.mp3"), "refinery:result:talk.mp3");
    assert_eq!(generate_key(""), "refinery:result:");
    assert_eq!(generate_key("a.pdf"), generate_key("a.pdf"));
}

#[test]
fn ttl_is_one_day() {
    assert_eq!(CACHE_TTL_SECONDS, 86400);
}

#[test]
fn entries_round_trip() {
    for text in ["{\"text\":\"hello\"}", "", "xin chào — ünïcödé ✓", &"long ".repeat(1000)] {
        let stored = encode_entry(text);
        assert_eq!(decode_entry(stored).unwrap(), text);
    }
}

#[test]
fn entries_are_compressed() {
    let text = "abc".repeat(500);
    let stored = encode_entry(&text);
    assert_ne!(stored, text.as_bytes());
    assert!(stored.len() < text.len());
    assert_eq!(&stored[..2], &[0x1f, 0x8b]);
}

#[test]
fn garbage_is_a_decompression_error() {
    let err = decode_entry(b"not gzip at all".to_vec()).unwrap_err();
    assert_eq!(err, CacheError::Decompress);
    assert_eq!(err.message(), "cached entry could not be decompressed");
}

#[test]
fn non_utf8_payload_is_reported() {
    let stored = gzip_raw(&[0xff, 0xfe, 0x00]);
    let err = decode_entry(stored).unwrap_err();
    assert_eq!(err, CacheError::InvalidUtf8);
    assert_eq!(err.message(), "cached entry is not valid UTF-8");
}

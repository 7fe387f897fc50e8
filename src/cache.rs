use vstd::prelude::*;
use vstd::utf8::{decode_utf8, encode_utf8, valid_utf8};
use futures::io::{AsyncReadExt, AsyncWriteExt};
use crate::text::joined;

verus! {

broadcast use vstd::utf8::encode_utf8_decode_utf8, vstd::utf8::encode_utf8_valid_utf8;

/// How long a cached result is kept, in seconds.
pub const CACHE_TTL_SECONDS: u64 = 86400;

/// What gzip decompression makes of a byte sequence (`None` where it is not
/// a valid gzip stream).
pub uninterp spec fn gunzip_of(data: Seq<u8>) -> Option<Seq<u8>>;

/// Relies on `async_compression`'s `GzipEncoder` (futures flavour) writing
/// into a `Vec`: the writes into memory do not fail (the flate encoder only
/// reports an unexpected `BufError`), and the stream it writes decompresses
/// to its input.
#[verifier::external_body]
fn gzip_compress(data: &[u8]) -> (r: Option<Vec<u8>>)
    ensures
        r is Some,
        r matches Some(z) ==> gunzip_of(z@) == Some(data@),
{
    let mut encoder = async_compression::futures::write::GzipEncoder::new(Vec::new());
    futures::executor::block_on(encoder.write_all(data)).ok()?;
    futures::executor::block_on(encoder.close()).ok()?;
    Some(encoder.into_inner())
}

/// Relies on `async_compression`'s `GzipDecoder` (futures flavour) reading
/// from an in-memory cursor: it fails only on a stream that is not valid
/// gzip, and otherwise yields the decompressed bytes.
#[verifier::external_body]
fn gzip_decompress(data: Vec<u8>) -> (r: Option<Vec<u8>>)
    ensures
        r is Some <==> gunzip_of(data@) is Some,
        r matches Some(b) ==> gunzip_of(data@) == Some(b@),
{
    let mut decoder = async_compression::futures::bufread::GzipDecoder::new(
        futures::io::Cursor::new(data),
    );
    let mut buffer = Vec::new();
    futures::executor::block_on(decoder.read_to_end(&mut buffer)).ok()?;
    Some(buffer)
}

/// Relies on `String::from_utf8`: it succeeds exactly on valid UTF-8 and
/// then holds the characters the bytes encode.
#[verifier::external_body]
fn utf8_text(bytes: Vec<u8>) -> (r: Option<String>)
    ensures
        r is Some <==> valid_utf8(bytes@),
        r matches Some(s) ==> s@ == decode_utf8(bytes@),
{
    String::from_utf8(bytes).ok()
}

/// Why a stored entry could not be read back.
#[derive(Clone, Copy, Debug, PartialEq, Eq, Structural)]
pub enum CacheError {
    /// The stored bytes are not a gzip stream.
    Decompress,
    /// The decompressed bytes are not UTF-8 text.
    InvalidUtf8,
}

impl CacheError {
    /// A short description of the failure.
    pub fn message(&self) -> (r: String)
        ensures
            *self == CacheError::Decompress ==> r@ == "cached entry could not be decompressed"@,
            *self == CacheError::InvalidUtf8 ==> r@ == "cached entry is not valid UTF-8"@,
    {
        match self {
            CacheError::Decompress => "cached entry could not be decompressed".to_owned(),
            CacheError::InvalidUtf8 => "cached entry is not valid UTF-8".to_owned(),
        }
    }
}

/// The key a result is cached under: `refinery:result:<filename>`.
pub open spec fn key_of(filename: Seq<char>) -> Seq<char> {
    "refinery:result:"@ + filename
}

/// What reading back a stored entry gives.
pub open spec fn decoded_entry(stored: Seq<u8>) -> Result<Seq<char>, CacheError> {
    match gunzip_of(stored) {
        None => Err(CacheError::Decompress),
        Some(b) => if valid_utf8(b) {
            Ok(decode_utf8(b))
        } else {
            Err(CacheError::InvalidUtf8)
        },
    }
}

/// The cache key of a file name. Two uploads that share a name share a key.
pub fn generate_key(filename: &str) -> (r: String)
    ensures
        r@ == key_of(filename@),
{
    joined("refinery:result:", filename)
}

/// The stored form of a result: its UTF-8 bytes, gzip-compressed.
pub fn encode_entry(text: &str) -> (r: Vec<u8>)
    ensures
        gunzip_of(r@) == Some(encode_utf8(text@)),
{
    match gzip_compress(text.as_bytes()) {
        Some(z) => z,
        None => Vec::new(),
    }
}

/// Reads back a stored entry: decompression, then UTF-8 decoding. A failure
/// of either is reported, not taken for a miss.
pub fn decode_entry(stored: Vec<u8>) -> (r: Result<String, CacheError>)
    ensures
        match decoded_entry(stored@) {
            Ok(t) => r matches Ok(s) && s@ == t,
            Err(e) => r matches Err(f) && f == e,
        },
{
    match gzip_decompress(stored) {
        None => Err(CacheError::Decompress),
        Some(bytes) => match utf8_text(bytes) {
            None => Err(CacheError::InvalidUtf8),
            Some(s) => Ok(s),
        },
    }
}

/// What is stored for a text reads back as that text exactly.
pub proof fn lemma_cache_round_trip(text: Seq<char>, stored: Seq<u8>)
    requires
        gunzip_of(stored) == Some(encode_utf8(text)),
    ensures
        decoded_entry(stored) == Ok::<Seq<char>, CacheError>(text),
{
}

} // verus!

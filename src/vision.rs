use vstd::prelude::*;
use base64::Engine;
use crate::item::{json_string, json_string_of};
use crate::text::{decimal, decimal_of, joined};

verus! {

/// The standard, padded base64 text of a byte sequence.
pub uninterp spec fn base64_of(data: Seq<u8>) -> Seq<char>;

/// Relies on `base64::engine::general_purpose::STANDARD.encode`, which
/// panics only where the encoded length overflows `usize`.
#[verifier::external_body]
fn base64_text(data: &[u8]) -> (r: String)
    requires
        data@.len() / 3 * 4 + 4 <= usize::MAX,
    ensures
        r@ == base64_of(data@),
{
    base64::engine::general_purpose::STANDARD.encode(data)
}

/// The prompt sent with every image.
pub open spec fn vision_prompt() -> Seq<char> {
    "Describe this image in detail."@
}

/// The request body for the vision model: the image as base64, the model
/// name, the prompt, and no streaming; keys in the order `serde_json` writes
/// them.
pub open spec fn vision_body_of(model: Seq<char>, image: Seq<u8>) -> Seq<char> {
    "{\"images\":["@ + json_string_of(base64_of(image)) + "],\"model\":"@ + json_string_of(model)
        + ",\"prompt\":\"Describe this image in detail.\",\"stream\":false}"@
}

/// The JSON request body that asks `model` to describe `image`.
pub fn vision_request_body(model: &str, image: &[u8]) -> (r: String)
    requires
        image@.len() / 3 * 4 + 4 <= usize::MAX,
    ensures
        r@ == vision_body_of(model@, image@),
{
    let encoded = base64_text(image);
    let a = joined("{\"images\":[", json_string(encoded.as_str()).as_str());
    let b = joined(a.as_str(), "],\"model\":");
    let c = joined(b.as_str(), json_string(model).as_str());
    joined(c.as_str(), ",\"prompt\":\"Describe this image in detail.\",\"stream\":false}")
}

/// The endpoint of the generation call under `base_url`.
pub fn vision_endpoint(base_url: &str) -> (r: String)
    ensures
        r@ == base_url@ + "/api/generate"@,
{
    joined(base_url, "/api/generate")
}

/// Why the vision call produced no description.
#[derive(Clone, Copy, Debug, PartialEq, Eq, Structural)]
pub enum VisionError {
    /// The service answered with a status outside 200..=299.
    Status(u16),
    /// The answer had no string field `response`.
    InvalidResponse,
}

/// The message of a vision error.
pub open spec fn vision_message_of(e: VisionError) -> Seq<char> {
    match e {
        VisionError::Status(s) => "Ollama API error: "@ + decimal_of(s as nat),
        VisionError::InvalidResponse => "Invalid response from Ollama: 'response' field missing or not a string"@,
    }
}

impl VisionError {
    /// The message reported for the item.
    pub fn message(&self) -> (r: String)
        ensures
            r@ == vision_message_of(*self),
    {
        match self {
            VisionError::Status(s) => joined("Ollama API error: ", decimal(*s as u64).as_str()),
            VisionError::InvalidResponse => "Invalid response from Ollama: 'response' field missing or not a string".to_owned(),
        }
    }
}

/// Whether an HTTP status is a success (200..=299).
pub open spec fn is_success_status(status: u16) -> bool {
    200 <= status <= 299
}

/// The description from the service's answer: its status must be a
/// success, and its `response` field (as read by the caller) a string.
pub fn vision_outcome(status: u16, response_field: Option<String>) -> (r: Result<String, VisionError>)
    ensures
        !is_success_status(status) ==> r == Err::<String, VisionError>(VisionError::Status(status)),
        is_success_status(status) && response_field is None ==> r == Err::<String, VisionError>(
            VisionError::InvalidResponse,
        ),
        is_success_status(status) && response_field is Some ==> r == Ok::<String, VisionError>(
            response_field->Some_0,
        ),
{
    if status < 200 || status > 299 {
        Err(VisionError::Status(status))
    } else {
        match response_field {
            Some(d) => Ok(d),
            None => Err(VisionError::InvalidResponse),
        }
    }
}

} // verus!

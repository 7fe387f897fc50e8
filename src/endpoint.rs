use vstd::prelude::*;
use crate::dto::ApiResponse;
use crate::item::{json_string, json_string_of, OffloadError};
use crate::text::{joined, owned, trim_of, trimmed};

verus! {

/// The single-file endpoints.
#[derive(Clone, Copy, Debug, PartialEq, Eq, Structural)]
pub enum Endpoint {
    Transcribe,
    Ocr,
    Pdf,
    Text,
    Vision,
}

/// How a single-file request went.
#[derive(Debug)]
pub enum SingleOutcome {
    /// The upload held no usable file.
    UploadFailed(String),
    /// The extraction produced this text.
    Extracted(String),
    /// The extraction reported an error.
    Failed(String),
    /// The worker running the extraction was lost.
    WorkerLost(OffloadError),
}

/// HTTP 200.
pub const HTTP_OK: u16 = 200;
/// HTTP 400.
pub const HTTP_BAD_REQUEST: u16 = 400;
/// HTTP 500.
pub const HTTP_INTERNAL_ERROR: u16 = 500;

/// The message of a successful response of each endpoint.
pub open spec fn success_message_of(ep: Endpoint) -> Seq<char> {
    match ep {
        Endpoint::Transcribe => "Audio transcribed successfully"@,
        Endpoint::Ocr => "OCR extraction successful"@,
        Endpoint::Pdf => "PDF extracted successfully"@,
        Endpoint::Text => "Text extracted successfully"@,
        Endpoint::Vision => "Image analysis successful"@,
    }
}

/// The message of each endpoint when its worker was lost.
pub open spec fn worker_lost_message_of(ep: Endpoint, e: OffloadError) -> Seq<char> {
    match ep {
        Endpoint::Transcribe => if e == OffloadError::Panicked {
            "Worker thread panicked! Check logs."@
        } else {
            "Worker thread cancelled."@
        },
        Endpoint::Ocr => if e == OffloadError::Panicked {
            "OCR worker thread panicked. Check logs for details."@
        } else {
            "OCR worker thread was cancelled."@
        },
        Endpoint::Pdf => if e == OffloadError::Panicked {
            "PDF worker panicked"@
        } else {
            "PDF worker was cancelled"@
        },
        Endpoint::Text => if e == OffloadError::Panicked {
            "Text processing worker panicked"@
        } else {
            "Text processing worker was cancelled"@
        },
        Endpoint::Vision => if e == OffloadError::Panicked {
            "Image analysis worker panicked"@
        } else {
            "Image analysis worker was cancelled"@
        },
    }
}

/// The data of a successful response: the file name and the text (trimmed
/// for OCR), or the description for image analysis.
pub open spec fn data_json_of(ep: Endpoint, filename: Seq<char>, text: Seq<char>) -> Seq<char> {
    match ep {
        Endpoint::Vision => "{\"description\":"@ + json_string_of(text) + ",\"filename\":"@
            + json_string_of(filename) + "}"@,
        Endpoint::Ocr => "{\"filename\":"@ + json_string_of(filename) + ",\"text\":"@
            + json_string_of(trim_of(text)) + "}"@,
        _ => "{\"filename\":"@ + json_string_of(filename) + ",\"text\":"@ + json_string_of(text)
            + "}"@,
    }
}

fn success_message(ep: Endpoint) -> (r: String)
    ensures
        r@ == success_message_of(ep),
{
    match ep {
        Endpoint::Transcribe => owned("Audio transcribed successfully"),
        Endpoint::Ocr => owned("OCR extraction successful"),
        Endpoint::Pdf => owned("PDF extracted successfully"),
        Endpoint::Text => owned("Text extracted successfully"),
        Endpoint::Vision => owned("Image analysis successful"),
    }
}

fn worker_lost_message(ep: Endpoint, e: OffloadError) -> (r: String)
    ensures
        r@ == worker_lost_message_of(ep, e),
{
    match ep {
        Endpoint::Transcribe => if e == OffloadError::Panicked {
            owned("Worker thread panicked! Check logs.")
        } else {
            owned("Worker thread cancelled.")
        },
        Endpoint::Ocr => if e == OffloadError::Panicked {
            owned("OCR worker thread panicked. Check logs for details.")
        } else {
            owned("OCR worker thread was cancelled.")
        },
        Endpoint::Pdf => if e == OffloadError::Panicked {
            owned("PDF worker panicked")
        } else {
            owned("PDF worker was cancelled")
        },
        Endpoint::Text => if e == OffloadError::Panicked {
            owned("Text processing worker panicked")
        } else {
            owned("Text processing worker was cancelled")
        },
        Endpoint::Vision => if e == OffloadError::Panicked {
            owned("Image analysis worker panicked")
        } else {
            owned("Image analysis worker was cancelled")
        },
    }
}

fn data_json(ep: Endpoint, filename: &str, text: &str) -> (r: String)
    ensures
        r@ == data_json_of(ep, filename@, text@),
{
    match ep {
        Endpoint::Vision => {
            let a = joined("{\"description\":", json_string(text).as_str());
            let b = joined(a.as_str(), ",\"filename\":");
            let c = joined(b.as_str(), json_string(filename).as_str());
            joined(c.as_str(), "}")
        },
        _ => {
            let a = joined("{\"filename\":", json_string(filename).as_str());
            let b = joined(a.as_str(), ",\"text\":");
            let body = if ep == Endpoint::Ocr {
                json_string(trimmed(text).as_str())
            } else {
                json_string(text)
            };
            let c = joined(b.as_str(), body.as_str());
            joined(c.as_str(), "}")
        },
    }
}

/// The status and body of a single-file request: 400 when the upload held
/// no file, 500 when the extraction failed or its worker was lost, and 200
/// with the file name and the extracted text otherwise. The data is JSON
/// text.
pub fn single_file_response(ep: Endpoint, filename: &str, outcome: SingleOutcome) -> (r: (
    u16,
    ApiResponse<String>,
))
    ensures
        match outcome {
            SingleOutcome::UploadFailed(m) => r.0 == HTTP_BAD_REQUEST && !r.1.success && r.1.data is None
                && r.1.message == Some(m) && r.1.errors is None,
            SingleOutcome::Extracted(t) => r.0 == HTTP_OK && r.1.success && r.1.errors is None && (
            r.1.data matches Some(d) && d@ == data_json_of(ep, filename@, t@)) && (
            r.1.message matches Some(m) && m@ == success_message_of(ep)),
            SingleOutcome::Failed(m) => r.0 == HTTP_INTERNAL_ERROR && !r.1.success && r.1.data is None
                && r.1.message == Some(m) && r.1.errors is None,
            SingleOutcome::WorkerLost(e) => r.0 == HTTP_INTERNAL_ERROR && !r.1.success && r.1.data is None
                && (r.1.message matches Some(m) && m@ == worker_lost_message_of(ep, e)) && r.1.errors is None,
        },
{
    match outcome {
        SingleOutcome::UploadFailed(m) => (HTTP_BAD_REQUEST, ApiResponse::failure(m, None)),
        SingleOutcome::Extracted(t) => {
            let data = data_json(ep, filename, t.as_str());
            (HTTP_OK, ApiResponse::success(data, Some(success_message(ep))))
        },
        SingleOutcome::Failed(m) => (HTTP_INTERNAL_ERROR, ApiResponse::failure(m, None)),
        SingleOutcome::WorkerLost(e) => (
            HTTP_INTERNAL_ERROR,
            ApiResponse::failure(worker_lost_message(ep, e), None),
        ),
    }
}

/// The body of a status update: `{"status":...,"uploadId":...}`.
pub fn status_update_body(upload_id: &str, status: &str) -> (r: String)
    ensures
        r@ == "{\"status\":"@ + json_string_of(status@) + ",\"uploadId\":"@ + json_string_of(
            upload_id@,
        ) + "}"@,
{
    let a = joined("{\"status\":", json_string(status).as_str());
    let b = joined(a.as_str(), ",\"uploadId\":");
    let c = joined(b.as_str(), json_string(upload_id).as_str());
    joined(c.as_str(), "}")
}

} // verus!

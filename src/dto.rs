use vstd::prelude::*;
use std::collections::HashMap;

verus! {

/// One item of a batch: where to fetch the file and the name it was
/// declared with (whose extension decides how it is processed).
#[derive(Debug)]
pub struct ProcessRequest {
    pub file_url: String,
    pub filename: String,
    /// Upload identifier for status updates, where the caller gave one.
    pub upload_id: Option<String>,
}

/// A batch submission.
#[derive(Debug)]
pub struct ProcessBatchRequest {
    pub requests: Vec<ProcessRequest>,
}

/// The envelope of every response.
pub struct ApiResponse<T> {
    pub success: bool,
    pub data: Option<T>,
    pub message: Option<String>,
    pub errors: Option<HashMap<String, String>>,
}

impl<T> ApiResponse<T> {
    /// A successful response carrying `data`.
    pub fn success(data: T, msg: Option<String>) -> (r: Self)
        ensures
            r.success,
            r.data == Some(data),
            r.message == msg,
            r.errors is None,
    {
        ApiResponse { success: true, data: Some(data), message: msg, errors: None }
    }

    /// A failed response with a message and optional details.
    pub fn failure(msg: String, errs: Option<HashMap<String, String>>) -> (r: Self)
        ensures
            !r.success,
            r.data is None,
            r.message == Some(msg),
            r.errors == errs,
    {
        ApiResponse { success: false, data: None, message: Some(msg), errors: errs }
    }
}

} // verus!

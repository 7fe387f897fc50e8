use vstd::prelude::*;
use crate::text::{decimal, decimal_of, joined};

verus! {

/// Why a file could not be fetched.
#[derive(Debug)]
pub enum FetchError {
    /// The upload held no file part.
    NoContent,
    /// The remote fetch failed on the way.
    Network(String),
    /// The remote answered with a status outside 200..=299.
    Http(u16),
}

/// The message of a fetch error.
pub open spec fn fetch_message_of(e: FetchError) -> Seq<char> {
    match e {
        FetchError::NoContent => "No file found in multipart request"@,
        FetchError::Network(m) => m@,
        FetchError::Http(s) => "HTTP status "@ + decimal_of(s as nat),
    }
}

impl FetchError {
    /// The message reported for the item or the request.
    pub fn message(&self) -> (r: String)
        ensures
            r@ == fetch_message_of(*self),
    {
        match self {
            FetchError::NoContent => "No file found in multipart request".to_owned(),
            FetchError::Network(m) => m.clone(),
            FetchError::Http(s) => joined("HTTP status ", decimal(*s as u64).as_str()),
        }
    }
}

/// A download is kept only when the remote answered with a success status.
pub fn check_download_status(status: u16) -> (r: Result<(), FetchError>)
    ensures
        200 <= status <= 299 <==> r is Ok,
        r matches Err(e) ==> e == FetchError::Http(status),
{
    if 200 <= status && status <= 299 {
        Ok(())
    } else {
        Err(FetchError::Http(status))
    }
}

/// The file name an upload part is known by: its declared name, or
/// `unknown`.
pub fn upload_filename(declared: Option<&str>) -> (r: String)
    ensures
        declared matches Some(d) ==> r@ == d@,
        declared is None ==> r@ == "unknown"@,
{
    match declared {
        Some(d) => d.to_owned(),
        None => "unknown".to_owned(),
    }
}

} // verus!

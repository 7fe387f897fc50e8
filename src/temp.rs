use vstd::prelude::*;
use crate::dispatch::{extension_of, path_extension};
use crate::text::joined;

verus! {

/// A path on disk.
#[verifier::external_type_specification]
#[verifier::external_body]
pub struct ExPathBuf(std::path::PathBuf);

/// A borrowed path on disk.
#[verifier::external_type_specification]
#[verifier::external_body]
pub struct ExPath(std::path::Path);

/// A path that `tempfile` deletes when it is dropped.
#[verifier::external_type_specification]
#[verifier::external_body]
pub struct ExTempPath(tempfile::TempPath);

/// An I/O error of std.
#[verifier::external_type_specification]
#[verifier::external_body]
pub struct ExIoError(std::io::Error);

/// Relies on `tempfile::TempPath::from_path`: the file at `path` is deleted
/// when the returned value is dropped (a relative path is taken from the
/// current directory, where that can be found).
#[verifier::external_body]
#[allow(deprecated)]
fn adopt_path(path: std::path::PathBuf) -> tempfile::TempPath {
    tempfile::TempPath::from_path(path)
}

/// Relies on `PathBuf::clone`: an equal path.
#[verifier::external_body]
fn copy_path(p: &std::path::PathBuf) -> (r: std::path::PathBuf)
    ensures
        r == *p,
{
    p.clone()
}

/// Relies on `tempfile::TempPath::close`: deletes the file now and reports
/// the outcome; nothing is deleted later.
#[verifier::external_body]
fn close_temp_path(p: tempfile::TempPath) -> Result<(), std::io::Error> {
    p.close()
}

/// Owns a file on disk and deletes it when it goes out of scope, on every
/// path out of that scope, unwinding included.
pub struct TempFileGuard {
    path: std::path::PathBuf,
    cleanup: tempfile::TempPath,
}

impl TempFileGuard {
    /// The path the guard was given.
    pub closed spec fn guarded(&self) -> std::path::PathBuf {
        self.path
    }

    /// Takes ownership of the file at `path`; nothing on disk changes until
    /// the guard is released or dropped.
    pub fn new(path: std::path::PathBuf) -> (r: Self)
        ensures
            r.guarded() == path,
    {
        let kept = copy_path(&path);
        TempFileGuard { path: kept, cleanup: adopt_path(path) }
    }

    /// The guarded path.
    pub fn path(&self) -> (r: &std::path::PathBuf)
        ensures
            *r == self.guarded(),
    {
        &self.path
    }

    /// Deletes the file now, reporting a failure (for the caller to log)
    /// instead of dropping it.
    pub fn release(self) -> Result<(), std::io::Error> {
        close_temp_path(self.cleanup)
    }
}

/// An identifier as long as a hyphenated UUID: 36 characters.
pub open spec fn is_token(t: Seq<char>) -> bool {
    t.len() == 36
}

/// Relies on `uuid::Uuid::new_v4` and its `Display`: a random identifier in
/// the hyphenated form, 36 characters long.
#[verifier::external_body]
fn fresh_token() -> (r: String)
    ensures
        is_token(r@),
{
    uuid::Uuid::new_v4().to_string()
}

/// The name of the local copy of a download: `download_<token>_` followed by
/// the declared name's extension with its dot, if it has one.
pub open spec fn temp_name_of(token: Seq<char>, filename: Seq<char>) -> Seq<char> {
    "download_"@ + token + "_"@ + match extension_of(filename) {
        Some(e) => "."@ + e,
        None => Seq::empty(),
    }
}

/// The local name for a download of `filename` under the identifier `token`.
pub fn temp_name_with(token: &str, filename: &str) -> (r: String)
    ensures
        r@ == temp_name_of(token@, filename@),
{
    let a = joined("download_", token);
    let b = joined(a.as_str(), "_");
    match path_extension(filename) {
        Some(e) => {
            let dotted = joined(".", e.as_str());
            joined(b.as_str(), dotted.as_str())
        },
        None => {
            proof {
                assert(b@ + Seq::<char>::empty() =~= b@);
            }
            b
        },
    }
}

/// A fresh local name for a download of `filename`; the name keeps the
/// declared extension, which decides how the file is processed.
pub fn download_temp_name(filename: &str) -> (r: String)
    ensures
        exists|t: Seq<char>| is_token(t) && r@ == temp_name_of(t, filename@),
{
    let token = fresh_token();
    temp_name_with(token.as_str(), filename)
}

} // verus!

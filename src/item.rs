use vstd::prelude::*;
use crate::cache::{generate_key, key_of};
use crate::dispatch::{dispatch_filename, dispatch_key, route_of, Capability};
use crate::text::{joined, owned, trim_of, trimmed};

verus! {

/// What `serde_json::to_string` writes for a string: the quoted, escaped
/// JSON string.
pub uninterp spec fn json_string_of(s: Seq<char>) -> Seq<char>;

/// Whether `serde_json` parses a text as a JSON value.
pub uninterp spec fn json_valid(s: Seq<char>) -> bool;

/// Relies on `serde_json::to_string` on a `&str`: the quoted, escaped JSON
/// string (serialising a string into memory does not fail).
#[verifier::external_body]
pub(crate) fn json_string(s: &str) -> (r: String)
    ensures
        r@ == json_string_of(s@),
{
    serde_json::to_string(s).unwrap_or_default()
}

/// Relies on `serde_json::from_str::<serde_json::Value>`: whether the text
/// is one JSON value.
#[verifier::external_body]
fn is_json(s: &str) -> (r: bool)
    ensures
        r == json_valid(s@),
{
    serde_json::from_str::<serde_json::Value>(s).is_ok()
}

/// The outcome of one item of a batch: exactly one of `result` (a JSON
/// text) and `error` is present.
#[derive(Debug)]
pub struct BatchResultItem {
    pub filename: String,
    pub result: Option<String>,
    pub error: Option<String>,
}

/// `item` carries the JSON result `json` for `filename`.
pub open spec fn has_result(item: BatchResultItem, filename: Seq<char>, json: Seq<char>) -> bool {
    &&& item.filename@ == filename
    &&& item.error is None
    &&& item.result matches Some(j) && j@ == json
}

/// `item` carries the error message `msg` for `filename`.
pub open spec fn has_error(item: BatchResultItem, filename: Seq<char>, msg: Seq<char>) -> bool {
    &&& item.filename@ == filename
    &&& item.result is None
    &&& item.error matches Some(e) && e@ == msg
}

impl BatchResultItem {
    /// Exactly one of `result` and `error` is present.
    pub open spec fn wf(&self) -> bool {
        (self.result is Some) != (self.error is Some)
    }

    /// Whether the item failed (it carries an error).
    pub open spec fn failed_spec(&self) -> bool {
        self.error is Some
    }

    /// Whether the item failed (it carries an error).
    #[verifier::when_used_as_spec(failed_spec)]
    pub fn failed(&self) -> (r: bool)
        ensures
            r == self.failed_spec(),
    {
        self.error.is_some()
    }
}

/// What an extraction produced.
#[derive(Debug)]
pub enum Extracted {
    /// Text of a transcription, a PDF or a text file.
    Text(String),
    /// Recognised text and a description of an image.
    Image { ocr_text: String, vision_description: String },
}

/// The JSON text of an extraction: `{"text":...}`, or
/// `{"ocr_text":...,"vision_description":...}` with the recognised text trimmed.
pub open spec fn rendered_of(out: Extracted) -> Seq<char> {
    match out {
        Extracted::Text(t) => "{\"text\":"@ + json_string_of(t@) + "}"@,
        Extracted::Image { ocr_text, vision_description } => "{\"ocr_text\":"@ + json_string_of(
            trim_of(ocr_text@),
        ) + ",\"vision_description\":"@ + json_string_of(vision_description@) + "}"@,
    }
}

impl Extracted {
    /// The JSON text of this extraction.
    pub fn render(&self) -> (r: String)
        ensures
            r@ == rendered_of(*self),
    {
        match self {
            Extracted::Text(t) => {
                let body = json_string(t.as_str());
                let open = joined("{\"text\":", body.as_str());
                joined(open.as_str(), "}")
            },
            Extracted::Image { ocr_text, vision_description } => {
                let ocr = trimmed(ocr_text.as_str());
                let a = joined("{\"ocr_text\":", json_string(ocr.as_str()).as_str());
                let b = joined(a.as_str(), ",\"vision_description\":");
                let c = joined(b.as_str(), json_string(vision_description.as_str()).as_str());
                joined(c.as_str(), "}")
            },
        }
    }
}

/// Why a blocking extraction step produced nothing.
#[derive(Clone, Copy, Debug, PartialEq, Eq, Structural)]
pub enum OffloadError {
    /// The work raised an unrecoverable fault.
    Panicked,
    /// The wait for the work was abandoned.
    Cancelled,
}

/// The generic description of a lost worker.
pub open spec fn offload_message_of(e: OffloadError) -> Seq<char> {
    match e {
        OffloadError::Panicked => "worker panicked"@,
        OffloadError::Cancelled => "worker cancelled"@,
    }
}

impl OffloadError {
    /// The generic description of a lost worker; details stay in the logs.
    pub fn message(&self) -> (r: String)
        ensures
            r@ == offload_message_of(*self),
    {
        match self {
            OffloadError::Panicked => owned("worker panicked"),
            OffloadError::Cancelled => owned("worker cancelled"),
        }
    }
}

/// The error text of an item that failed for `detail`.
pub open spec fn failure_of(detail: Seq<char>) -> Seq<char> {
    "Processing failed: "@ + detail
}

/// An item that failed for `detail`.
pub fn failed_item(filename: &str, detail: &str) -> (r: BatchResultItem)
    ensures
        has_error(r, filename@, failure_of(detail@)),
        r.wf(),
{
    BatchResultItem {
        filename: owned(filename),
        result: None,
        error: Some(joined("Processing failed: ", detail)),
    }
}

/// An item that succeeded with the JSON text `json`.
pub fn result_item(filename: &str, json: String) -> (r: BatchResultItem)
    ensures
        has_result(r, filename@, json@),
        r.wf(),
{
    BatchResultItem { filename: owned(filename), result: Some(json), error: None }
}

/// Where one item stands.
#[derive(Clone, Copy, Debug, PartialEq, Eq, Structural)]
pub enum ItemState {
    Pending,
    CacheLookup,
    Fetching,
    Extracting(Capability),
    Done,
    Failed,
}

/// What the outside world reports back to an item.
#[derive(Debug)]
pub enum ItemEvent {
    /// Processing begins.
    Start,
    /// The cache held this JSON text.
    CacheHit(String),
    /// The cache held nothing.
    CacheMiss,
    /// The cache could not be read; the text says why.
    CacheFailed(String),
    /// The file was downloaded.
    Fetched,
    /// The download failed.
    FetchFailed(String),
    /// The extraction succeeded.
    Extracted(Extracted),
    /// The extraction reported an error.
    ExtractFailed(String),
    /// The worker running the extraction was lost.
    WorkerLost(OffloadError),
}

/// What the outside world is to do next for an item.
#[derive(Debug)]
pub enum ItemAction {
    /// Read the cache under this key.
    LookupCache(String),
    /// Download the file.
    Fetch,
    /// Log this cache error, then download the file: the cache is an
    /// optimisation, so a failed read is a miss.
    ReportAndFetch(String),
    /// Run this extraction on the downloaded file, off the request thread.
    Extract(Capability),
    /// The item is over, with this outcome.
    Finish(BatchResultItem),
    /// Store the JSON text (second) under the key (first) without waiting,
    /// and end the item with this outcome.
    StoreAndFinish(String, String, BatchResultItem),
}

/// How far an item has come; terminal states rank highest, so an item
/// reaches one after at most four steps.
pub open spec fn rank_of(state: ItemState) -> nat {
    match state {
        ItemState::Pending => 0,
        ItemState::CacheLookup => 1,
        ItemState::Fetching => 2,
        ItemState::Extracting(_) => 3,
        ItemState::Done | ItemState::Failed => 4,
    }
}

/// Which events an item expects in each state.
pub open spec fn accepts(state: ItemState, event: ItemEvent) -> bool {
    match state {
        ItemState::Pending => event is Start,
        ItemState::CacheLookup => event is CacheHit || event is CacheMiss || event is CacheFailed,
        ItemState::Fetching => event is Fetched || event is FetchFailed,
        ItemState::Extracting(_) => event is Extracted || event is ExtractFailed || event is WorkerLost,
        ItemState::Done | ItemState::Failed => false,
    }
}

/// The step ends the item with an error `msg`.
pub open spec fn fails_with(r: (ItemState, ItemAction), filename: Seq<char>, msg: Seq<char>) -> bool {
    &&& r.0 == ItemState::Failed
    &&& r.1 matches ItemAction::Finish(item) && has_error(item, filename, msg)
}

/// The step of an item named `filename` in `state` on `event`.
pub open spec fn step_ok(
    filename: Seq<char>,
    event: ItemEvent,
    r: (ItemState, ItemAction),
) -> bool {
    match event {
        ItemEvent::Start => r.0 == ItemState::CacheLookup && (r.1 matches ItemAction::LookupCache(k)
            && k@ == key_of(filename)),
        ItemEvent::CacheHit(j) => if json_valid(j@) {
            r.0 == ItemState::Done && (r.1 matches ItemAction::Finish(item) && has_result(
                item,
                filename,
                j@,
            ))
        } else {
            r.0 == ItemState::Fetching && (r.1 matches ItemAction::ReportAndFetch(m)
                && m@ == "cached result is not valid JSON"@)
        },
        ItemEvent::CacheMiss => r.0 == ItemState::Fetching && r.1 is Fetch,
        ItemEvent::CacheFailed(d) => r.0 == ItemState::Fetching && (r.1 matches ItemAction::ReportAndFetch(m)
            && m@ == d@),
        ItemEvent::Fetched => match route_of(dispatch_key(filename)) {
            Some(c) => r.0 == ItemState::Extracting(c) && (r.1 matches ItemAction::Extract(c2)
                && c2 == c),
            None => fails_with(
                r,
                filename,
                "Unsupported file type: ."@ + dispatch_key(filename),
            ),
        },
        ItemEvent::FetchFailed(d) => fails_with(r, filename, failure_of("Download failed: "@ + d@)),
        ItemEvent::Extracted(out) => r.0 == ItemState::Done && (r.1 matches ItemAction::StoreAndFinish(
            k,
            v,
            item,
        ) && k@ == key_of(filename) && v@ == rendered_of(out) && has_result(
            item,
            filename,
            rendered_of(out),
        )),
        ItemEvent::ExtractFailed(d) => fails_with(r, filename, failure_of(d@)),
        ItemEvent::WorkerLost(e) => fails_with(r, filename, failure_of(offload_message_of(e))),
    }
}

/// One transition of an item: cache lookup first; a hit ends it, a miss
/// (or a read that failed, which is only reported) leads to the download, the download to the extraction its extension
/// selects, and a successful extraction to a write-back that nobody waits
/// for. Every failure ends the item with an error and touches no other item.
pub fn advance(filename: &str, state: ItemState, event: ItemEvent) -> (r: (ItemState, ItemAction))
    requires
        accepts(state, event),
    ensures
        step_ok(filename@, event, r),
        rank_of(r.0) > rank_of(state),
        r.1 matches ItemAction::Finish(item) ==> item.wf(),
        r.1 matches ItemAction::StoreAndFinish(_, _, item) ==> item.wf(),
        r.0 == ItemState::Done || r.0 == ItemState::Failed <==> (r.1 is Finish
            || r.1 is StoreAndFinish),
{
    match event {
        ItemEvent::Start => (ItemState::CacheLookup, ItemAction::LookupCache(generate_key(filename))),
        ItemEvent::CacheHit(j) => {
            if is_json(j.as_str()) {
                (ItemState::Done, ItemAction::Finish(result_item(filename, j)))
            } else {
                (ItemState::Fetching, ItemAction::ReportAndFetch(owned("cached result is not valid JSON")))
            }
        },
        ItemEvent::CacheMiss => (ItemState::Fetching, ItemAction::Fetch),
        ItemEvent::CacheFailed(d) => (ItemState::Fetching, ItemAction::ReportAndFetch(d)),
        ItemEvent::Fetched => match dispatch_filename(filename) {
            Ok(c) => (ItemState::Extracting(c), ItemAction::Extract(c)),
            Err(u) => {
                let item = BatchResultItem {
                    filename: owned(filename),
                    result: None,
                    error: Some(u.message()),
                };
                (ItemState::Failed, ItemAction::Finish(item))
            },
        },
        ItemEvent::FetchFailed(d) => {
            let detail = joined("Download failed: ", d.as_str());
            (ItemState::Failed, ItemAction::Finish(failed_item(filename, detail.as_str())))
        },
        ItemEvent::Extracted(out) => {
            let json = out.render();
            let stored = json.clone();
            (
                ItemState::Done,
                ItemAction::StoreAndFinish(generate_key(filename), stored, result_item(filename, json)),
            )
        },
        ItemEvent::ExtractFailed(d) => (
            ItemState::Failed,
            ItemAction::Finish(failed_item(filename, d.as_str())),
        ),
        ItemEvent::WorkerLost(e) => {
            let detail = e.message();
            (ItemState::Failed, ItemAction::Finish(failed_item(filename, detail.as_str())))
        },
    }
}

} // verus!

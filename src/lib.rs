//! Media ingestion and batch extraction: routing of files to extraction
//! capabilities, audio resampling, the compressed result cache, per-item
//! processing and the aggregation of a batch into one response.

/// String helpers: equality, concatenation, decimal notation.
pub mod text;
/// Extension-based routing to an extraction capability.
pub mod dispatch;
/// Linear resampling and downmixing of sample sequences.
pub mod resample;
/// Cache keys and the compressed stored form of results.
pub mod cache;
/// Request and response envelopes.
pub mod dto;
/// Per-item outcomes and the state machine that drives one item.
pub mod item;
/// Aggregation of item outcomes into one batch response.
pub mod batch;
/// Text assembly for PDFs and transcriptions.
pub mod extract;
/// The request and answer of the image-description service.
pub mod vision;
/// Naming of downloaded files and their scoped deletion.
pub mod temp;
/// Fetch errors and download checks.
pub mod fetch;
/// The lazily loaded, shared transcription engine.
pub mod engine;
/// Responses of the single-file endpoints and status updates.
pub mod endpoint;
/// Registration and heartbeat decisions for the service registry.
pub mod discovery;

use vstd::prelude::*;
use std::sync::Arc;
use crate::text::joined;

verus! {

/// Why a transcription failed.
#[derive(Debug)]
pub enum EngineError {
    /// The model could not be loaded (missing file, unreadable model).
    ModelLoad(String),
    /// The audio could not be decoded.
    Decode(String),
    /// The decoded audio is empty or silent.
    SilentOrInvalidAudio,
    /// Inference failed.
    Inference(String),
    /// The transcription of the file at `path` failed for `cause`.
    Transcribe { path: String, cause: Box<EngineError> },
}

impl EngineError {
    /// The message reported for the item.
    pub fn message(&self) -> (r: String)
        ensures
            self is SilentOrInvalidAudio ==> r@ == "Audio is silent or invalid"@,
            self matches EngineError::ModelLoad(m) ==> r@ == m@,
            self matches EngineError::Decode(m) ==> r@ == m@,
            self matches EngineError::Inference(m) ==> r@ == m@,
            self matches EngineError::Transcribe { path, .. } ==> r@ == "Failed to transcribe "@ + path@,
    {
        match self {
            EngineError::ModelLoad(m) => m.clone(),
            EngineError::Decode(m) => m.clone(),
            EngineError::SilentOrInvalidAudio => "Audio is silent or invalid".to_owned(),
            EngineError::Inference(m) => m.clone(),
            EngineError::Transcribe { path, .. } => joined("Failed to transcribe ", path.as_str()),
        }
    }
}

/// Where the model file is looked for.
#[derive(Debug)]
pub enum ModelLocation {
    /// The path configured for it.
    Configured(String),
    /// This file name under `models/whisper-cpp/` in the working directory.
    InWorkingDir(String),
}

/// Picks the model file: a configured path wins when it is not empty;
/// otherwise the named model (by default `ggml-base.en.bin`) is looked for
/// under the working directory.
pub fn model_location(configured: &str, model_name: Option<String>) -> (r: ModelLocation)
    ensures
        configured@.len() > 0 ==> (r matches ModelLocation::Configured(p) && p@ == configured@),
        configured@.len() == 0 && model_name is Some ==> (r matches ModelLocation::InWorkingDir(n)
            && n@ == model_name->Some_0@),
        configured@.len() == 0 && model_name is None ==> (r matches ModelLocation::InWorkingDir(n)
            && n@ == "ggml-base.en.bin"@),
{
    if !configured.is_empty() {
        ModelLocation::Configured(configured.to_owned())
    } else {
        match model_name {
            Some(n) => ModelLocation::InWorkingDir(n),
            None => ModelLocation::InWorkingDir("ggml-base.en.bin".to_owned()),
        }
    }
}

/// A speech-recognition engine, stateless once loaded.
pub trait WhisperEngine: Send + Sync {
    /// `outcome` is an outcome this engine gives for the audio file at
    /// `audio_path` (an engine may give different outcomes on different
    /// calls).
    spec fn transcribed(&self, audio_path: &std::path::Path, outcome: Result<String, EngineError>) -> bool;

    /// The transcription of the audio file at `audio_path`.
    fn transcribe(&self, audio_path: &std::path::Path) -> (r: Result<String, EngineError>)
        ensures
            self.transcribed(audio_path, r),
    ;
}

/// `r` reports the engine's `outcome`: its text as it came, or its error
/// wrapped with the path it concerned.
pub open spec fn reports(outcome: Result<String, EngineError>, r: Result<String, EngineError>) -> bool {
    match outcome {
        Ok(t) => r == Ok::<String, EngineError>(t),
        Err(c) => r matches Err(EngineError::Transcribe { cause, .. }) && *cause == c,
    }
}

/// Reports an engine's outcome for the file at `path`: the text unchanged,
/// or the error with the path as context.
pub fn with_path_context(outcome: Result<String, EngineError>, path: &std::path::Path) -> (r: Result<
    String,
    EngineError,
>)
    ensures
        reports(outcome, r),
{
    match outcome {
        Ok(text) => Ok(text),
        Err(cause) => Err(EngineError::Transcribe { path: quoted_path(path), cause: Box::new(cause) }),
    }
}

/// Relies on the `Debug` form of `Path`: the path, quoted.
#[verifier::external_body]
fn quoted_path(p: &std::path::Path) -> String {
    format!("{:?}", p)
}

/// Relies on `Arc::clone`: another handle on the same value.
#[verifier::external_body]
fn share<E>(a: &Arc<E>) -> (r: Arc<E>)
    ensures
        r == *a,
{
    Arc::clone(a)
}

/// Holds an engine that is loaded on first use, at most once successfully,
/// and then shared by every caller until the registry is dropped.
pub struct EngineRegistry<E> {
    engine: Option<Arc<E>>,
    attempts: Ghost<nat>,
}

impl<E> EngineRegistry<E> {
    /// Whether the engine is loaded.
    pub closed spec fn loaded(&self) -> bool {
        self.engine is Some
    }

    /// The loaded engine.
    pub closed spec fn engine(&self) -> Arc<E> {
        self.engine->Some_0
    }

    /// How many loads were attempted.
    pub closed spec fn attempts(&self) -> nat {
        self.attempts@
    }

    /// A registry with nothing loaded.
    pub fn new() -> (r: Self)
        ensures
            !r.loaded(),
            r.attempts() == 0,
    {
        EngineRegistry { engine: None, attempts: Ghost(0) }
    }

    /// Whether the engine is loaded.
    pub fn is_loaded(&self) -> (r: bool)
        ensures
            r == self.loaded(),
    {
        self.engine.is_some()
    }

    /// The engine, loading it with `load` if it is not loaded yet. Once an
    /// engine is loaded, `load` is never called again and every caller gets
    /// that same engine. A failed load leaves nothing behind, so a later call
    /// tries again.
    pub fn get_or_load<F: FnOnce() -> Result<E, EngineError>>(&mut self, load: F) -> (r: Result<Arc<E>, EngineError>)
        requires
            load.requires(()),
        ensures
            old(self).loaded() ==> *final(self) == *old(self) && (r matches Ok(e) && e == old(self).engine()),
            !old(self).loaded() ==> final(self).attempts() == old(self).attempts() + 1,
            !old(self).loaded() ==> exists|res: Result<E, EngineError>| #[trigger] load.ensures((), res) && match res {
                Ok(e) => final(self).loaded() && *final(self).engine() == e && (r matches Ok(h) && h == final(self).engine()),
                Err(x) => !final(self).loaded() && r == Err::<Arc<E>, EngineError>(x),
            },
    {
        match &self.engine {
            Some(e) => {
                return Ok(share(e));
            },
            None => {},
        }
        self.attempts = Ghost(self.attempts@ + 1);
        match load() {
            Ok(e) => {
                let a = Arc::new(e);
                let h = share(&a);
                self.engine = Some(a);
                Ok(h)
            },
            Err(x) => Err(x),
        }
    }
}

/// Transcribes the audio file at `path` with a loaded engine; a failure is
/// returned with the path it concerned.
pub fn transcribe_file<E: WhisperEngine>(engine: &E, path: &std::path::Path) -> (r: Result<String, EngineError>)
    ensures
        exists|o: Result<String, EngineError>| #[trigger] engine.transcribed(path, o) && reports(o, r),
{
    let outcome = engine.transcribe(path);
    with_path_context(outcome, path)
}

/// Transcribes the audio file at `path` with the registry's engine, loading
/// it first if needed. A failed load is returned as it came; a failed
/// transcription is returned with the path it concerned.
pub fn run_whisper<E: WhisperEngine, F: FnOnce() -> Result<E, EngineError>>(
    registry: &mut EngineRegistry<E>,
    load: F,
    path: &std::path::Path,
) -> (r: Result<String, EngineError>)
    requires
        load.requires(()),
    ensures
        old(registry).loaded() ==> *final(registry) == *old(registry),
        old(registry).loaded() ==> exists|o: Result<String, EngineError>| #[trigger] (*old(registry).engine()).transcribed(path, o) && reports(o, r),
        !old(registry).loaded() ==> final(registry).attempts() == old(registry).attempts() + 1,
        !old(registry).loaded() ==> exists|res: Result<E, EngineError>| #[trigger] load.ensures((), res) && match res {
            Ok(e) => final(registry).loaded() && *final(registry).engine() == e && exists|o: Result<String, EngineError>| #[trigger] e.transcribed(path, o) && reports(o, r),
            Err(x) => !final(registry).loaded() && r == Err::<String, EngineError>(x),
        },
{
    match registry.get_or_load(load) {
        Ok(engine) => transcribe_file(&*engine, path),
        Err(x) => Err(x),
    }
}

/// Loads the engine now rather than on first use.
pub fn eager_init<E, F: FnOnce() -> Result<E, EngineError>>(
    registry: &mut EngineRegistry<E>,
    load: F,
) -> (r: Result<(), EngineError>)
    requires
        load.requires(()),
    ensures
        r is Ok <==> final(registry).loaded(),
        old(registry).loaded() ==> *final(registry) == *old(registry),
        !old(registry).loaded() ==> final(registry).attempts() == old(registry).attempts() + 1,
{
    match registry.get_or_load(load) {
        Ok(_) => Ok(()),
        Err(x) => Err(x),
    }
}

} // verus!

use ai_refinery::engine::{
    eager_init, model_location, run_whisper, transcribe_file, EngineError, EngineRegistry, ModelLocation,
    WhisperEngine,
};
use ai_refinery::temp::{download_temp_name, temp_name_with, TempFileGuard};
use std::cell::Cell;
use std::path::Path;

fn scratch_file(name: &str) -> std::path::PathBuf {
    let file = tempfile::Builder::new().prefix(name).tempfile().unwrap();
    file.into_temp_path().keep().unwrap()
}

#[test]
fn guard_deletes_on_scope_exit() {
    let path = scratch_file("scope");
    {
        let guard = TempFileGuard::new(path.clone());
        assert_eq!(guard.path(), &path);
        assert!(path.exists());
    }
    assert!(!path.exists());
}

#[test]
fn guard_deletes_when_the_work_fails() {
    fn work(path: std::path::PathBuf) -> Result<(), String> {
        let _guard = TempFileGuard::new(path);
        Err("extraction failed".to_string())
    }
    let path = scratch_file("fail");
    assert!(work(path.clone()).is_err());
    assert!(!path.exists());
}

#[test]
fn explicit_release_deletes_and_reports() {
    let path = scratch_file("release");
    let guard = TempFileGuard::new(path.clone());
    assert!(guard.release().is_ok());
    assert!(!path.exists());
}

#[test]
fn guard_tolerates_a_missing_file() {
    let path = scratch_file("missing");
    assert!(TempFileGuard::new(path.clone()).release().is_ok());
    assert!(!path.exists());
    let guard = TempFileGuard::new(path.clone());
    assert!(guard.release().is_err());
    drop(TempFileGuard::new(path));
}

#[test]
fn download_names_keep_the_extension() {
    assert_eq!(temp_name_with("tok", "talk.mp3"), "download_tok_.mp3");
    assert_eq!(temp_name_with("tok", "README"), "download_tok_");
    let name = download_temp_name("scan.PNG");
    assert!(name.starts_with("download_"));
    assert!(name.ends_with("_.PNG"));
    assert_eq!(name.len(), "download_".len() + 36 + "_.PNG".len());
    assert_ne!(name, download_temp_name("scan.PNG"));
}

struct Echo;

impl WhisperEngine for Echo {
    fn transcribed(&self, audio_path: &Path, outcome: Result<String, EngineError>) -> bool {
        matches!(outcome, Ok(t) if t == audio_path.display().to_string())
    }

    fn transcribe(&self, audio_path: &Path) -> Result<String, EngineError> {
        Ok(audio_path.display().to_string())
    }
}

#[test]
fn engine_loads_once() {
    let loads = Cell::new(0);
    let mut registry: EngineRegistry<Echo> = EngineRegistry::new();
    assert!(!registry.is_loaded());
    for _ in 0..5 {
        let text = run_whisper(&mut registry, || {
            loads.set(loads.get() + 1);
            Ok(Echo)
        }, Path::new("a.wav"))
        .unwrap();
        assert_eq!(text, "a.wav");
    }
    assert_eq!(loads.get(), 1);
    assert!(registry.is_loaded());
}

#[test]
fn failed_load_is_retried() {
    let loads = Cell::new(0);
    let mut registry: EngineRegistry<Echo> = EngineRegistry::new();
    let first = eager_init(&mut registry, || {
        loads.set(loads.get() + 1);
        Err(EngineError::ModelLoad("Model not found".to_string()))
    });
    assert_eq!(first.unwrap_err().message(), "Model not found");
    assert!(!registry.is_loaded());
    assert!(eager_init(&mut registry, || {
        loads.set(loads.get() + 1);
        Ok(Echo)
    })
    .is_ok());
    assert!(eager_init(&mut registry, || {
        loads.set(loads.get() + 1);
        Ok(Echo)
    })
    .is_ok());
    assert_eq!(loads.get(), 2);
}

#[test]
fn callers_share_one_engine() {
    let mut registry: EngineRegistry<Echo> = EngineRegistry::new();
    let a = registry.get_or_load(|| Ok(Echo)).ok().unwrap();
    let b = registry.get_or_load(|| Err(EngineError::Inference("unused".to_string()))).ok().unwrap();
    assert!(std::sync::Arc::ptr_eq(&a, &b));
}

#[test]
fn silent_audio_message() {
    assert_eq!(EngineError::SilentOrInvalidAudio.message(), "Audio is silent or invalid");
}

#[test]
fn relative_guard_keeps_the_given_path() {
    let guard = TempFileGuard::new(std::path::PathBuf::from("no-such-dir/x.wav"));
    assert_eq!(guard.path(), &std::path::PathBuf::from("no-such-dir/x.wav"));
}

struct Deaf;

impl WhisperEngine for Deaf {
    fn transcribed(&self, _audio_path: &Path, outcome: Result<String, EngineError>) -> bool {
        matches!(outcome, Err(EngineError::SilentOrInvalidAudio))
    }

    fn transcribe(&self, _audio_path: &Path) -> Result<String, EngineError> {
        Err(EngineError::SilentOrInvalidAudio)
    }
}

#[test]
fn failed_transcription_names_the_file() {
    let err = transcribe_file(&Deaf, Path::new("/tmp/a.wav")).unwrap_err();
    assert_eq!(err.message(), "Failed to transcribe \"/tmp/a.wav\"");
    match err {
        EngineError::Transcribe { cause, .. } => assert_eq!(cause.message(), "Audio is silent or invalid"),
        _ => panic!("expected the path context"),
    }
    let mut registry: EngineRegistry<Deaf> = EngineRegistry::new();
    let err = run_whisper(&mut registry, || Ok(Deaf), Path::new("b.wav")).unwrap_err();
    assert_eq!(err.message(), "Failed to transcribe \"b.wav\"");
}

#[test]
fn model_location_choice() {
    match model_location("/models/m.bin", Some("other.bin".to_string())) {
        ModelLocation::Configured(p) => assert_eq!(p, "/models/m.bin"),
        other => panic!("unexpected {:?}", other),
    }
    match model_location("", Some("ggml-small.bin".to_string())) {
        ModelLocation::InWorkingDir(n) => assert_eq!(n, "ggml-small.bin"),
        other => panic!("unexpected {:?}", other),
    }
    match model_location("", None) {
        ModelLocation::InWorkingDir(n) => assert_eq!(n, "ggml-base.en.bin"),
        other => panic!("unexpected {:?}", other),
    }
}

use ai_refinery::discovery::{
    after_registration, create_payload, heartbeat_url, instance_id, keep_heartbeat, next_backoff,
    register_url, AfterRegistration, CallOutcome,
};
use ai_refinery::endpoint::{single_file_response, status_update_body, Endpoint, SingleOutcome};
use ai_refinery::fetch::{check_download_status, upload_filename, FetchError};
use ai_refinery::item::OffloadError;
use ai_refinery::text::decimal;

#[test]
fn backoff_doubles_up_to_five_minutes() {
    assert_eq!(next_backoff(5), 10);
    assert_eq!(next_backoff(160), 300);
    assert_eq!(next_backoff(300), 300);
    assert_eq!(next_backoff(u64::MAX), 300);
}

#[test]
fn registration_decisions() {
    assert_eq!(after_registration(CallOutcome::Answered(204), 80), AfterRegistration::Heartbeat { backoff: 5 });
    assert_eq!(after_registration(CallOutcome::Answered(500), 80), AfterRegistration::Retry { wait: 80, backoff: 160 });
    assert_eq!(after_registration(CallOutcome::Unreachable, 200), AfterRegistration::Retry { wait: 200, backoff: 300 });
}

#[test]
fn heartbeat_decisions() {
    assert!(keep_heartbeat(CallOutcome::Answered(200)));
    assert!(keep_heartbeat(CallOutcome::Answered(500)));
    assert!(!keep_heartbeat(CallOutcome::Answered(404)));
    assert!(!keep_heartbeat(CallOutcome::Unreachable));
}

#[test]
fn registry_addresses_and_payload() {
    assert_eq!(instance_id("host", "AI-REFINERY", 8686), "host:AI-REFINERY:8686");
    assert_eq!(register_url("http://e/eureka", "APP"), "http://e/eureka/apps/APP");
    assert_eq!(heartbeat_url("http://e/eureka", "APP", "h:APP:1"), "http://e/eureka/apps/APP/h:APP:1");
    let p = create_payload("h:APP:8686", "h", "10.0.0.2", "APP", 8686).instance;
    assert_eq!(p.home_page_url, "http://10.0.0.2:8686/");
    assert_eq!(p.status_page_url, "http://10.0.0.2:8686/info");
    assert_eq!(p.health_check_url, "http://10.0.0.2:8686/health");
    assert_eq!(p.status, "UP");
    assert_eq!(p.secure_port.port, 443);
    assert_eq!(p.secure_port.enabled, "false");
    assert_eq!(p.lease_info.duration_in_secs, 90);
    assert_eq!(p.metadata.instance_id, "h:APP:8686");
}

#[test]
fn single_file_responses() {
    let (status, resp) = single_file_response(Endpoint::Transcribe, "a.mp3", SingleOutcome::Extracted("hi".to_string()));
    assert_eq!(status, 200);
    assert!(resp.success);
    assert_eq!(resp.data.as_deref(), Some("{\"filename\":\"a.mp3\",\"text\":\"hi\"}"));
    assert_eq!(resp.message.as_deref(), Some("Audio transcribed successfully"));

    let (_, resp) = single_file_response(Endpoint::Ocr, "a.png", SingleOutcome::Extracted(" X \n".to_string()));
    assert_eq!(resp.data.as_deref(), Some("{\"filename\":\"a.png\",\"text\":\"X\"}"));

    let (_, resp) = single_file_response(Endpoint::Vision, "a.png", SingleOutcome::Extracted("a cat".to_string()));
    assert_eq!(resp.data.as_deref(), Some("{\"description\":\"a cat\",\"filename\":\"a.png\"}"));

    let (status, resp) = single_file_response(Endpoint::Pdf, "a.pdf", SingleOutcome::UploadFailed("No file".to_string()));
    assert_eq!(status, 400);
    assert!(!resp.success);
    assert!(resp.data.is_none());
    assert_eq!(resp.message.as_deref(), Some("No file"));

    let (status, resp) = single_file_response(Endpoint::Text, "a.txt", SingleOutcome::Failed("bad".to_string()));
    assert_eq!(status, 500);
    assert_eq!(resp.message.as_deref(), Some("bad"));

    let (status, resp) = single_file_response(Endpoint::Transcribe, "a.mp3", SingleOutcome::WorkerLost(OffloadError::Panicked));
    assert_eq!(status, 500);
    assert_eq!(resp.message.as_deref(), Some("Worker thread panicked! Check logs."));
    let (_, resp) = single_file_response(Endpoint::Ocr, "a.png", SingleOutcome::WorkerLost(OffloadError::Cancelled));
    assert_eq!(resp.message.as_deref(), Some("OCR worker thread was cancelled."));
}

#[test]
fn status_update_body_is_json() {
    assert_eq!(status_update_body("u-1", "DONE"), "{\"status\":\"DONE\",\"uploadId\":\"u-1\"}");
}

#[test]
fn download_statuses() {
    assert!(check_download_status(200).is_ok());
    assert!(check_download_status(299).is_ok());
    match check_download_status(404) {
        Err(e) => assert_eq!(e.message(), "HTTP status 404"),
        Ok(()) => panic!("404 must fail"),
    }
    assert_eq!(FetchError::NoContent.message(), "No file found in multipart request");
    assert_eq!(FetchError::Network("dns".to_string()).message(), "dns");
}

#[test]
fn upload_names() {
    assert_eq!(upload_filename(Some("a.pdf")), "a.pdf");
    assert_eq!(upload_filename(None), "unknown");
}

#[test]
fn decimals() {
    assert_eq!(decimal(0), "0");
    assert_eq!(decimal(7), "7");
    assert_eq!(decimal(1050), "1050");
    assert_eq!(decimal(u64::MAX), u64::MAX.to_string());
}

#[test]
fn lost_workers_are_told_apart() {
    for (ep, panicked, cancelled) in [
        (Endpoint::Pdf, "PDF worker panicked", "PDF worker was cancelled"),
        (Endpoint::Text, "Text processing worker panicked", "Text processing worker was cancelled"),
        (Endpoint::Vision, "Image analysis worker panicked", "Image analysis worker was cancelled"),
    ] {
        let (_, a) = single_file_response(ep, "f", SingleOutcome::WorkerLost(OffloadError::Panicked));
        let (_, b) = single_file_response(ep, "f", SingleOutcome::WorkerLost(OffloadError::Cancelled));
        assert_eq!(a.message.as_deref(), Some(panicked));
        assert_eq!(b.message.as_deref(), Some(cancelled));
    }
}

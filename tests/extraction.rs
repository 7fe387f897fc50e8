use ai_refinery::extract::{assemble_pdf_text, join_segments, PdfError};
use ai_refinery::vision::{vision_endpoint, vision_outcome, vision_request_body, VisionError};

#[test]
fn pdf_pages_with_text_are_joined() {
    let pages = vec!["Page one".to_string(), "  ".to_string(), "Page three ".to_string()];
    assert_eq!(assemble_pdf_text(&pages).unwrap(), "Page one\nPage three \n");
}

#[test]
fn pdf_without_pages_has_no_text() {
    assert_eq!(assemble_pdf_text(&Vec::new()).unwrap_err(), PdfError::NoTextFound);
    assert_eq!(
        PdfError::NoTextFound.message(),
        "No text found in PDF (Scanned PDF? Use OCR endpoint instead)"
    );
}

#[test]
fn segments_are_trimmed_and_spaced() {
    let segs = vec![" Hello".to_string(), "   ".to_string(), "world. ".to_string(), "".to_string(), " Bye ".to_string()];
    assert_eq!(join_segments(&segs), "Hello world. Bye");
    assert_eq!(join_segments(&Vec::new()), "");
    assert_eq!(join_segments(&vec!["  ".to_string()]), "");
}

#[test]
fn vision_body_carries_the_image() {
    let body = vision_request_body("moondream", &[1, 2, 3]);
    assert_eq!(
        body,
        "{\"images\":[\"AQID\"],\"model\":\"moondream\",\"prompt\":\"Describe this image in detail.\",\"stream\":false}"
    );
    assert_eq!(vision_endpoint("http://localhost:11434"), "http://localhost:11434/api/generate");
}

#[test]
fn vision_outcomes() {
    assert_eq!(vision_outcome(200, Some("a cat".to_string())).unwrap(), "a cat");
    let err = vision_outcome(503, Some("x".to_string())).unwrap_err();
    assert_eq!(err, VisionError::Status(503));
    assert_eq!(err.message(), "Ollama API error: 503");
    let err = vision_outcome(200, None).unwrap_err();
    assert_eq!(err, VisionError::InvalidResponse);
    assert_eq!(
        err.message(),
        "Invalid response from Ollama: 'response' field missing or not a string"
    );
}

#[test]
fn pdf_pages_that_failed_to_extract_are_skipped() {
    let pages = vec![String::new(), " \n".to_string(), String::new()];
    assert_eq!(assemble_pdf_text(&pages).unwrap_err(), PdfError::NoTextFound);
    let pages = vec![String::new(), "Only page".to_string()];
    assert_eq!(assemble_pdf_text(&pages).unwrap(), "Only page\n");
}

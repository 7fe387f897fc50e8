use ai_refinery::batch::{batch_message, batch_status, complete_batch, count_outcomes};
use ai_refinery::item::{failed_item, result_item, BatchResultItem};

fn ok(name: &str) -> BatchResultItem {
    result_item(name, "{\"text\":\"x\"}".to_string())
}

fn bad(name: &str) -> BatchResultItem {
    failed_item(name, "Download failed: timeout")
}

#[test]
fn mixed_batch_is_multi_status() {
    let (status, resp) = complete_batch(vec![ok("a.mp3"), bad("b.pdf"), ok("c.txt")]);
    assert_eq!(status, 207);
    assert!(resp.success);
    let data = resp.data.unwrap();
    assert_eq!(data.len(), 3);
    assert_eq!(data[1].filename, "b.pdf");
    assert!(data[1].result.is_none());
    assert_eq!(data[1].error.as_deref(), Some("Processing failed: Download failed: timeout"));
    assert!(data[0].error.is_none());
    assert_eq!(resp.message.as_deref(), Some("Batch complete. Success: 2, Failed: 1"));
    assert!(resp.errors.is_none());
}

#[test]
fn all_succeeded_is_ok() {
    let (status, resp) = complete_batch(vec![ok("a.mp3"), ok("b.png")]);
    assert_eq!(status, 200);
    assert_eq!(resp.message.as_deref(), Some("Batch complete. Success: 2, Failed: 0"));
}

#[test]
fn all_failed_is_unprocessable() {
    let (status, resp) = complete_batch(vec![bad("a.mp3"), bad("b.png"), bad("c")]);
    assert_eq!(status, 422);
    assert_eq!(resp.message.as_deref(), Some("Batch complete. Success: 0, Failed: 3"));
}

#[test]
fn empty_batch_is_ok() {
    let (status, resp) = complete_batch(Vec::new());
    assert_eq!(status, 200);
    assert!(resp.data.unwrap().is_empty());
}

#[test]
fn status_law_on_counts() {
    assert_eq!(batch_status(5, 0), 200);
    assert_eq!(batch_status(0, 5), 422);
    assert_eq!(batch_status(1, 1), 207);
    assert_eq!(batch_status(0, 0), 200);
}

#[test]
fn outcomes_are_counted() {
    let items = vec![ok("a"), bad("b"), bad("c"), ok("d"), ok("e")];
    assert_eq!(count_outcomes(&items), (3, 2));
}

#[test]
fn summary_message_spells_counts() {
    assert_eq!(batch_message(10, 207), "Batch complete. Success: 10, Failed: 207");
}

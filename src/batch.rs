use vstd::prelude::*;
use crate::dto::ApiResponse;
use crate::item::BatchResultItem;
use crate::text::{decimal, decimal_of, joined};

verus! {

/// Status of a batch in which every item succeeded.
pub const STATUS_OK: u16 = 200;

/// Status of a batch in which some items succeeded and some failed.
pub const STATUS_MULTI: u16 = 207;

/// Status of a batch in which every item failed.
pub const STATUS_UNPROCESSABLE: u16 = 422;

/// Number of failed items.
pub open spec fn failures_in(items: Seq<BatchResultItem>) -> nat
    decreases items.len(),
{
    if items.len() == 0 {
        0
    } else {
        failures_in(items.drop_last()) + if items.last().error is Some { 1nat } else { 0nat }
    }
}

/// Number of items that carry a result.
pub open spec fn successes_in(items: Seq<BatchResultItem>) -> nat
    decreases items.len(),
{
    if items.len() == 0 {
        0
    } else {
        successes_in(items.drop_last()) + if items.last().result is Some { 1nat } else { 0nat }
    }
}

proof fn lemma_outcomes_partition(items: Seq<BatchResultItem>)
    requires
        forall|i: int| 0 <= i < items.len() ==> #[trigger] items[i].wf(),
    ensures
        successes_in(items) + failures_in(items) == items.len(),
    decreases items.len(),
{
    if items.len() > 0 {
        let rest = items.drop_last();
        assert forall|i: int| 0 <= i < rest.len() implies #[trigger] rest[i].wf() by {
            assert(rest[i] == items[i]);
        }
        lemma_outcomes_partition(rest);
        assert(items.last().wf());
    }
}

/// The status of a batch with `succeeded` and `failed` items: 200 when
/// nothing failed, 422 when nothing succeeded, 207 otherwise.
pub open spec fn status_of(succeeded: nat, failed: nat) -> u16 {
    if failed == 0 {
        STATUS_OK
    } else if succeeded == 0 {
        STATUS_UNPROCESSABLE
    } else {
        STATUS_MULTI
    }
}

proof fn lemma_failures_bounded(items: Seq<BatchResultItem>)
    ensures
        failures_in(items) <= items.len(),
    decreases items.len(),
{
    if items.len() > 0 {
        lemma_failures_bounded(items.drop_last());
    }
}

/// Counts the items that succeeded and those that failed.
pub fn count_outcomes(items: &Vec<BatchResultItem>) -> (r: (usize, usize))
    ensures
        r.1 == failures_in(items@),
        r.0 + r.1 == items@.len(),
{
    let mut ok: usize = 0;
    let mut failed: usize = 0;
    let mut i: usize = 0;
    while i < items.len()
        invariant
            i <= items@.len(),
            failed == failures_in(items@.subrange(0, i as int)),
            ok + failed == i,
        decreases items@.len() - i,
    {
        proof {
            assert(items@.subrange(0, i as int + 1).drop_last() =~= items@.subrange(0, i as int));
        }
        if items[i].failed() {
            failed = failed + 1;
        } else {
            ok = ok + 1;
        }
        i = i + 1;
    }
    assert(items@.subrange(0, i as int) =~= items@);
    (ok, failed)
}

/// The status of a batch with `succeeded` and `failed` items.
pub fn batch_status(succeeded: usize, failed: usize) -> (r: u16)
    ensures
        r == status_of(succeeded as nat, failed as nat),
{
    if failed == 0 {
        STATUS_OK
    } else if succeeded == 0 {
        STATUS_UNPROCESSABLE
    } else {
        STATUS_MULTI
    }
}

/// `Batch complete. Success: <n>, Failed: <m>`.
pub open spec fn batch_message_of(succeeded: nat, failed: nat) -> Seq<char> {
    "Batch complete. Success: "@ + decimal_of(succeeded) + ", Failed: "@ + decimal_of(failed)
}

/// The summary line of a batch.
pub fn batch_message(succeeded: u64, failed: u64) -> (r: String)
    ensures
        r@ == batch_message_of(succeeded as nat, failed as nat),
{
    let a = joined("Batch complete. Success: ", decimal(succeeded).as_str());
    let b = joined(a.as_str(), ", Failed: ");
    joined(b.as_str(), decimal(failed).as_str())
}

/// Ends a batch: every item's outcome, in order, in one response, with the
/// status that the counts of successes and failures give.
pub fn complete_batch(items: Vec<BatchResultItem>) -> (r: (u16, ApiResponse<Vec<BatchResultItem>>))
    ensures
        r.0 == status_of((items@.len() - failures_in(items@)) as nat, failures_in(items@)),
        r.1.success,
        r.1.data == Some(items),
        r.1.message matches Some(m) && m@ == batch_message_of(
            (items@.len() - failures_in(items@)) as nat,
            failures_in(items@),
        ),
        r.1.errors is None,
{
    let (ok, failed) = count_outcomes(&items);
    let status = batch_status(ok, failed);
    let message = batch_message(ok as u64, failed as u64);
    (status, ApiResponse::success(items, Some(message)))
}

/// The status law of a batch whose items each carry exactly one of a result
/// and an error: 200 exactly when no item failed, 422 exactly when no item
/// succeeded (for a batch that is not empty), 207 otherwise.
pub proof fn lemma_batch_status(items: Seq<BatchResultItem>)
    requires
        forall|i: int| 0 <= i < items.len() ==> #[trigger] items[i].wf(),
    ensures
        ({
            let failed = failures_in(items);
            let succeeded = successes_in(items);
            let status = status_of((items.len() - failed) as nat, failed);
            &&& status == STATUS_OK <==> failed == 0
            &&& items.len() > 0 ==> (status == STATUS_UNPROCESSABLE <==> succeeded == 0)
            &&& status == STATUS_MULTI <==> (failed > 0 && succeeded > 0)
        }),
{
    lemma_outcomes_partition(items);
}

} // verus!

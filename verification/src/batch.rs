//! What becomes of a batch of messages once each has been processed.

use vstd::prelude::*;

use crate::client::{entries_of, lemma_entries_len, ProcessOutcome};
use crate::error::EmailHandlerError;
use crate::queue::{DeleteMessageBatchRequest, DeleteMessageBatchRequestEntry, RawMessage};

verus! {

/// How a batch ends, given how many messages were received, for how many
/// of them an entry to remove them was collected, and whether the request
/// that removes them succeeded.
///
/// A batch succeeds where every received message may be removed, and only
/// there; nothing is requested then. In every other case the removal of what
/// was collected is requested, and the batch has failed: as
/// `SqsDeleteFailed` where that request failed, however many entries it
/// held, else as `PartialBatchFailure` where there was an entry, and as
/// `BatchFailure` where there was none.
pub open spec fn classification(received: nat, deletable: nat, deleted: bool) -> Result<
    (),
    EmailHandlerError,
> {
    if received == deletable {
        Ok(())
    } else if !deleted {
        Err(EmailHandlerError::SqsDeleteFailed)
    } else if deletable > 0 {
        Err(EmailHandlerError::PartialBatchFailure)
    } else {
        Err(EmailHandlerError::BatchFailure)
    }
}

/// What is to be done with a batch of which every message has been
/// processed.
#[derive(Debug, PartialEq, Eq)]
pub enum Reconciliation {
    /// Every message may be removed from the queue: the batch has
    /// succeeded, and whoever delivered it removes its messages.
    Success(Vec<DeleteMessageBatchRequestEntry>),
    /// Not every message may be removed: those that may are to be removed
    /// with this request, then the batch is reported as failed.
    Failure(DeleteMessageBatchRequest),
}

/// Decides what is to be done with a batch of `record_count` messages for
/// which `entries_to_delete` were collected.
pub fn reconcile(
    record_count: usize,
    entries_to_delete: Vec<DeleteMessageBatchRequestEntry>,
    queue_url: &str,
) -> (r: Reconciliation)
    ensures
        record_count == entries_to_delete@.len() ==> r == Reconciliation::Success(
            entries_to_delete,
        ),
        record_count != entries_to_delete@.len() ==> ({
            &&& r matches Reconciliation::Failure(request)
            &&& request.entries == entries_to_delete
            &&& request.queue_url@ == queue_url@
        }),
{
    if record_count == entries_to_delete.len() {
        Reconciliation::Success(entries_to_delete)
    } else {
        Reconciliation::Failure(
            DeleteMessageBatchRequest { entries: entries_to_delete, queue_url: queue_url.to_owned() },
        )
    }
}

/// Names the failure of a batch for which not every message could be
/// removed, once the removal of `entries_to_delete_count` messages has been
/// requested.
pub fn batch_failure(entries_to_delete_count: usize, deleted: bool) -> (r: EmailHandlerError)
    ensures
        forall|received: nat|
            received != entries_to_delete_count ==> #[trigger] classification(
                received,
                entries_to_delete_count as nat,
                deleted,
            ) == Err::<(), EmailHandlerError>(r),
{
    if !deleted {
        EmailHandlerError::SqsDeleteFailed
    } else if entries_to_delete_count > 0 {
        EmailHandlerError::PartialBatchFailure
    } else {
        EmailHandlerError::BatchFailure
    }
}

/// Says how a batch ended.
pub fn classify(record_count: usize, entries_to_delete_count: usize, deleted: bool) -> (r: Result<
    (),
    EmailHandlerError,
>)
    ensures
        r == classification(record_count as nat, entries_to_delete_count as nat, deleted),
        r is Ok <==> record_count == entries_to_delete_count,
{
    if record_count == entries_to_delete_count {
        Ok(())
    } else {
        Err(batch_failure(entries_to_delete_count, deleted))
    }
}

/// The messages of one poll of the broker: those that were received, and
/// none where the poll failed.
pub fn polled<E>(received: Result<Vec<RawMessage>, E>) -> (r: Vec<RawMessage>)
    ensures
        match received {
            Ok(messages) => r == messages,
            Err(_) => r@.len() == 0,
        },
{
    match received {
        Ok(messages) => messages,
        Err(_) => Vec::new(),
    }
}

/// The request with which the broker removes the processed messages of one
/// poll from the queue. There is none where nothing is to be removed, and
/// none in a dry run, which removes nothing.
pub fn delete_request(
    dry_run: bool,
    processed_messages: Vec<DeleteMessageBatchRequestEntry>,
    queue_url: &str,
) -> (r: Option<DeleteMessageBatchRequest>)
    ensures
        r is Some <==> !dry_run && processed_messages@.len() > 0,
        r matches Some(request) ==> request.entries == processed_messages && request.queue_url@
            == queue_url@,
{
    if dry_run || processed_messages.len() == 0 {
        None
    } else {
        Some(
            DeleteMessageBatchRequest {
                entries: processed_messages,
                queue_url: queue_url.to_owned(),
            },
        )
    }
}

/// Whether the broker polls again after a cycle: always, but in a dry run,
/// which ends after one cycle.
pub fn polls_again(dry_run: bool) -> (r: bool)
    ensures
        r == !dry_run,
{
    !dry_run
}

/// Batch accounting: a batch succeeds exactly where each of its messages
/// ended with an entry to remove it. One `Retry` among the outcomes makes
/// the batch fail, whatever becomes of the request to remove the others.
pub proof fn lemma_batch_accounting(outcomes: Seq<ProcessOutcome>, deleted: bool)
    ensures
        classification(outcomes.len(), entries_of(outcomes).len(), deleted) is Ok <==> forall|
            i: int,
        |
            0 <= i < outcomes.len() ==> (#[trigger] outcomes[i]).delete_entry() is Some,
        (exists|i: int| 0 <= i < outcomes.len() && #[trigger] outcomes[i] is Retry)
            ==> classification(outcomes.len(), entries_of(outcomes).len(), deleted) is Err,
{
    lemma_entries_len(outcomes);
    if exists|i: int| 0 <= i < outcomes.len() && #[trigger] outcomes[i] is Retry {
        let i = choose|i: int| 0 <= i < outcomes.len() && #[trigger] outcomes[i] is Retry;
        assert(outcomes[i].delete_entry() is None);
    }
}

} // verus!

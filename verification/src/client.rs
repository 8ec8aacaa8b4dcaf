//! The processing of one queue message, as moves that ask and answers that
//! are given.

use vstd::prelude::*;

use crate::dynamo::{
    email_key, get_email_input, set_email_status_input, status_values, FromTo, GetItemInput,
    UpdateItemInput,
};
use crate::email_message::{EmailMessage, EmailStatus};
use crate::error::{GetError, UpdateError};
use crate::queue::{
    DeleteMessageBatchRequestEntry, DeleteMessageBatchRequestEntryView, EmailPointerMessage,
    RawMessage,
};

verus! {

/// How the processing of one queue message ended.
#[derive(Debug, PartialEq, Eq)]
pub enum ProcessOutcome {
    /// The email was sent and its record says so.
    Delivered(EmailPointerMessage),
    /// The email is not to be sent by this consumer, and the message should
    /// not be processed again.
    Skip(EmailPointerMessage),
    /// The message can not be handled, now or later.
    SkipMessage(RawMessage),
    /// Something did not work that may work later: processing the message
    /// should be attempted again.
    Retry,
}

/// The ways in which processing a message ends without a delivery.
#[derive(Debug, PartialEq, Eq)]
pub enum ProcessError {
    /// See `ProcessOutcome::Retry`.
    Retry,
    /// See `ProcessOutcome::Skip`.
    Skip(EmailPointerMessage),
    /// See `ProcessOutcome::SkipMessage`.
    SkipMessage(RawMessage),
}

impl Clone for ProcessOutcome {
    fn clone(&self) -> (r: Self)
        ensures
            r == *self,
    {
        match self {
            ProcessOutcome::Delivered(a) => ProcessOutcome::Delivered(a.clone()),
            ProcessOutcome::Skip(a) => ProcessOutcome::Skip(a.clone()),
            ProcessOutcome::SkipMessage(a) => ProcessOutcome::SkipMessage(a.clone()),
            ProcessOutcome::Retry => ProcessOutcome::Retry,
        }
    }
}

impl Clone for ProcessError {
    fn clone(&self) -> (r: Self)
        ensures
            r == *self,
    {
        match self {
            ProcessError::Retry => ProcessError::Retry,
            ProcessError::Skip(a) => ProcessError::Skip(a.clone()),
            ProcessError::SkipMessage(a) => ProcessError::SkipMessage(a.clone()),
        }
    }
}

impl ProcessOutcome {
    /// The outcome as a result: a delivery is the one success.
    pub open spec fn result(self) -> Result<EmailPointerMessage, ProcessError> {
        match self {
            ProcessOutcome::Delivered(pointer) => Ok(pointer),
            ProcessOutcome::Skip(pointer) => Err(ProcessError::Skip(pointer)),
            ProcessOutcome::SkipMessage(message) => Err(ProcessError::SkipMessage(message)),
            ProcessOutcome::Retry => Err(ProcessError::Retry),
        }
    }

    /// Turns the outcome into a result.
    pub fn into_result(self) -> (r: Result<EmailPointerMessage, ProcessError>)
        ensures
            r == self.result(),
    {
        match self {
            ProcessOutcome::Delivered(pointer) => Ok(pointer),
            ProcessOutcome::Skip(pointer) => Err(ProcessError::Skip(pointer)),
            ProcessOutcome::SkipMessage(message) => Err(ProcessError::SkipMessage(message)),
            ProcessOutcome::Retry => Err(ProcessError::Retry),
        }
    }

    /// The entry that removes the message from the queue after this
    /// outcome. There is one after a delivery and after a skip, of a pointer
    /// or of a message; a skipped message without id or receipt handle can
    /// not be named in an entry. There is none after `Retry`: the message
    /// has to come again.
    pub open spec fn delete_entry(self) -> Option<DeleteMessageBatchRequestEntryView> {
        match self {
            ProcessOutcome::Delivered(pointer) => Some(pointer.delete_entry()),
            ProcessOutcome::Skip(pointer) => Some(pointer.delete_entry()),
            ProcessOutcome::SkipMessage(message) => message.delete_entry(),
            ProcessOutcome::Retry => None,
        }
    }

    /// Makes the entry that removes the message from the queue after this
    /// outcome.
    pub fn deletion_entry(&self) -> (r: Option<DeleteMessageBatchRequestEntry>)
        ensures
            r.deep_view() == self.delete_entry(),
    {
        match self {
            ProcessOutcome::Delivered(pointer) => Some(DeleteMessageBatchRequestEntry::from(pointer)),
            ProcessOutcome::Skip(pointer) => Some(DeleteMessageBatchRequestEntry::from(pointer)),
            ProcessOutcome::SkipMessage(message) => match (
                &message.message_id,
                &message.receipt_handle,
            ) {
                (Some(id), Some(handle)) => Some(
                    DeleteMessageBatchRequestEntry { id: id.clone(), receipt_handle: handle.clone() },
                ),
                _ => None,
            },
            ProcessOutcome::Retry => None,
        }
    }
}

/// The entries that remove from the queue what `outcomes` allow to remove,
/// in the order of the outcomes.
pub open spec fn entries_of(outcomes: Seq<ProcessOutcome>) -> Seq<
    DeleteMessageBatchRequestEntryView,
>
    decreases outcomes.len(),
{
    if outcomes.len() == 0 {
        Seq::empty()
    } else {
        match outcomes.last().delete_entry() {
            Some(entry) => entries_of(outcomes.drop_last()).push(entry),
            None => entries_of(outcomes.drop_last()),
        }
    }
}

/// There is an entry for each outcome exactly where each outcome has one;
/// else there are fewer entries than outcomes. In particular one `Retry`
/// among the outcomes leaves fewer entries than messages.
pub proof fn lemma_entries_len(outcomes: Seq<ProcessOutcome>)
    ensures
        entries_of(outcomes).len() <= outcomes.len(),
        entries_of(outcomes).len() == outcomes.len() <==> forall|i: int|
            0 <= i < outcomes.len() ==> (#[trigger] outcomes[i]).delete_entry() is Some,
    decreases outcomes.len(),
{
    if outcomes.len() > 0 {
        let rest = outcomes.drop_last();
        lemma_entries_len(rest);
        if entries_of(outcomes).len() == outcomes.len() {
            assert forall|i: int| 0 <= i < outcomes.len() implies (
            #[trigger] outcomes[i]).delete_entry() is Some by {
                if i < rest.len() {
                    assert(rest[i] == outcomes[i]);
                }
            }
        }
        if forall|i: int| 0 <= i < outcomes.len() ==> (#[trigger] outcomes[i]).delete_entry() is Some {
            assert(outcomes.last() == outcomes[outcomes.len() - 1]);
            assert forall|i: int| 0 <= i < rest.len() implies (#[trigger] rest[i]).delete_entry()
                is Some by {
                assert(rest[i] == outcomes[i]);
            }
        }
    }
}

/// No entry removes a message that has to come again: each entry is the
/// entry of one of the outcomes, and of none that is `Retry`.
pub proof fn lemma_entries_sources(outcomes: Seq<ProcessOutcome>)
    ensures
        forall|j: int|
            0 <= j < entries_of(outcomes).len() ==> exists|i: int|
                0 <= i < outcomes.len() && !(outcomes[i] is Retry) && (
                #[trigger] outcomes[i]).delete_entry() == Some(#[trigger] entries_of(outcomes)[j]),
    decreases outcomes.len(),
{
    if outcomes.len() > 0 {
        let rest = outcomes.drop_last();
        let last = outcomes.len() - 1;
        lemma_entries_sources(rest);
        assert forall|j: int| 0 <= j < entries_of(outcomes).len() implies exists|i: int|
            0 <= i < outcomes.len() && !(outcomes[i] is Retry) && (
            #[trigger] outcomes[i]).delete_entry() == Some(#[trigger] entries_of(outcomes)[j]) by {
            if j < entries_of(rest).len() {
                let i = choose|i: int|
                    0 <= i < rest.len() && !(rest[i] is Retry) && (#[trigger] rest[i]).delete_entry()
                        == Some(entries_of(rest)[j]);
                assert(outcomes[i] == rest[i]);
                assert(entries_of(outcomes)[j] == entries_of(rest)[j]);
            } else {
                assert(outcomes[last].delete_entry() == Some(entries_of(outcomes)[j]));
            }
        }
    }
}

/// Where the processing of one message stands while it waits for an
/// answer.
#[derive(Debug, PartialEq, Eq)]
pub enum ProcessState {
    /// The record has been asked for.
    Fetching(EmailPointerMessage),
    /// The change `Pending -> Sending` has been asked for.
    Claiming(EmailPointerMessage, EmailMessage),
    /// The email has been handed to the transport.
    Sending(EmailPointerMessage),
    /// The change `Sending -> Sent` has been asked for.
    Completing(EmailPointerMessage),
}

/// What the processor asks of its surroundings.
#[derive(Debug, PartialEq, Eq)]
pub enum Action {
    /// Fetch the record that the pointer names.
    GetEmailMessage(EmailPointerMessage),
    /// Change the status of the record that the pointer names, on condition
    /// that it has the first status of the pair.
    SetEmailStatus(EmailPointerMessage, FromTo),
    /// Hand the email to the transport.
    SendEmail(EmailMessage),
}

/// What the surroundings answer.
#[derive(Debug, PartialEq, Eq)]
pub enum Event {
    /// The answer to `Action::GetEmailMessage`.
    Email(Result<EmailMessage, GetError>),
    /// The answer to `Action::SetEmailStatus`.
    StatusSet(Result<(), UpdateError>),
    /// The answer to `Action::SendEmail`.
    EmailSent(Result<(), String>),
}

/// One move of the processor: either it asks for something and waits, or it
/// is done with the message.
#[derive(Debug, PartialEq, Eq)]
pub enum Step {
    Next(ProcessState, Action),
    Done(ProcessOutcome),
}

/// Processes queue messages against the records of one table: one message
/// at a time, one answer at a time.
#[derive(Debug)]
pub struct Client {
    /// The table from which email records are read.
    table_name: String,
}

impl Client {
    /// The name of the table that this client reads.
    pub closed spec fn table(self) -> Seq<char> {
        self.table_name@
    }

    /// A client for the records of the table `table_name`.
    pub fn new(table_name: &str) -> (r: Client)
        ensures
            r.table() == table_name@,
    {
        Client { table_name: table_name.to_owned() }
    }

    /// The name of the table that this client reads.
    pub fn table_name(&self) -> (r: &String)
        ensures
            r@ == self.table(),
    {
        &self.table_name
    }

    /// The request that carries out `Action::GetEmailMessage(message)`.
    pub fn get_email_input(&self, message: &EmailPointerMessage) -> (r: GetItemInput)
        ensures
            r.key@ == email_key(message@.email_id),
            r.table_name@ == self.table(),
    {
        get_email_input(self.table_name.as_str(), message)
    }

    /// The request that carries out `Action::SetEmailStatus(message, args)`.
    pub fn set_email_status_input(&self, message: &EmailPointerMessage, args: FromTo) -> (r:
        UpdateItemInput)
        ensures
            r.condition_expression matches Some(condition) && condition@
                == "EmailStatus = :expected"@,
            r.expression_attribute_values matches Some(values) && values@ == status_values(args),
            r.key@ == email_key(message@.email_id),
            r.table_name@ == self.table(),
            r.update_expression matches Some(update) && update@ == "SET EmailStatus = :next"@,
    {
        set_email_status_input(self.table_name.as_str(), message, args)
    }

    /// The transport. It is not connected yet, and delivers nothing.
    pub fn send_email(email: EmailMessage) -> (r: Result<(), String>)
        ensures
            r matches Err(reason) && reason@ == "Unimplemented"@,
    {
        Err("Unimplemented".to_owned())
    }

    /// The first move on a message: a message without a pointer is given
    /// up for good, for any other its record is asked for.
    pub open spec fn first_step(message: RawMessage) -> Step {
        match EmailPointerMessage::of_message(message) {
            Ok(pointer) => Step::Next(
                ProcessState::Fetching(pointer),
                Action::GetEmailMessage(pointer),
            ),
            Err(_) => Step::Done(ProcessOutcome::SkipMessage(message)),
        }
    }

    /// The move that follows `event` in `state`.
    ///
    /// In order: a record that is not `Pending` is skipped; a pending one
    /// is claimed, sent and completed, and each of the three that fails
    /// ends in `Retry`, as does a record that can not be fetched. An answer
    /// to a question that was not asked ends in `Retry` too.
    pub open spec fn next_step(state: ProcessState, event: Event) -> Step {
        match (state, event) {
            (ProcessState::Fetching(pointer), Event::Email(Ok(mail))) => {
                if mail.status != EmailStatus::Pending {
                    Step::Done(ProcessOutcome::Skip(pointer))
                } else {
                    Step::Next(
                        ProcessState::Claiming(pointer, mail),
                        Action::SetEmailStatus(pointer, FromTo::claim()),
                    )
                }
            },
            (ProcessState::Claiming(pointer, mail), Event::StatusSet(Ok(_))) => Step::Next(
                ProcessState::Sending(pointer),
                Action::SendEmail(mail),
            ),
            (ProcessState::Sending(pointer), Event::EmailSent(Ok(_))) => Step::Next(
                ProcessState::Completing(pointer),
                Action::SetEmailStatus(pointer, FromTo::complete()),
            ),
            (ProcessState::Completing(pointer), Event::StatusSet(Ok(_))) => Step::Done(
                ProcessOutcome::Delivered(pointer),
            ),
            _ => Step::Done(ProcessOutcome::Retry),
        }
    }

    /// Starts processing `message`.
    pub fn begin(message: RawMessage) -> (r: Step)
        ensures
            r == Client::first_step(message),
    {
        match EmailPointerMessage::try_from(message.clone()) {
            Ok(pointer) => {
                let asked = pointer.clone();
                Step::Next(ProcessState::Fetching(pointer), Action::GetEmailMessage(asked))
            },
            Err(_) => Step::Done(ProcessOutcome::SkipMessage(message)),
        }
    }

    /// Continues processing with the answer to the last action.
    pub fn advance(state: ProcessState, event: Event) -> (r: Step)
        ensures
            r == Client::next_step(state, event),
    {
        match state {
            ProcessState::Fetching(pointer) => match event {
                Event::Email(Ok(mail)) => {
                    if mail.status != EmailStatus::Pending {
                        Step::Done(ProcessOutcome::Skip(pointer))
                    } else {
                        let asked = pointer.clone();
                        Step::Next(
                            ProcessState::Claiming(pointer, mail),
                            Action::SetEmailStatus(
                                asked,
                                FromTo(EmailStatus::Pending, EmailStatus::Sending),
                            ),
                        )
                    }
                },
                _ => Step::Done(ProcessOutcome::Retry),
            },
            ProcessState::Claiming(pointer, mail) => match event {
                Event::StatusSet(Ok(_)) => Step::Next(
                    ProcessState::Sending(pointer),
                    Action::SendEmail(mail),
                ),
                _ => Step::Done(ProcessOutcome::Retry),
            },
            ProcessState::Sending(pointer) => match event {
                Event::EmailSent(Ok(_)) => {
                    let asked = pointer.clone();
                    Step::Next(
                        ProcessState::Completing(pointer),
                        Action::SetEmailStatus(
                            asked,
                            FromTo(EmailStatus::Sending, EmailStatus::Sent),
                        ),
                    )
                },
                _ => Step::Done(ProcessOutcome::Retry),
            },
            ProcessState::Completing(pointer) => match event {
                Event::StatusSet(Ok(_)) => Step::Done(ProcessOutcome::Delivered(pointer)),
                _ => Step::Done(ProcessOutcome::Retry),
            },
        }
    }

    /// Collects the entries that remove from the queue the messages whose
    /// processing ended so that they may go.
    pub fn process_messages(outcomes: &Vec<ProcessOutcome>) -> (r: Vec<
        DeleteMessageBatchRequestEntry,
    >)
        ensures
            r.deep_view() == entries_of(outcomes@),
    {
        let mut processed_message_handles: Vec<DeleteMessageBatchRequestEntry> = Vec::new();
        let mut i: usize = 0;
        assert(processed_message_handles.deep_view() =~= Seq::empty());
        while i < outcomes.len()
            invariant
                i <= outcomes.len(),
                processed_message_handles.deep_view() == entries_of(outcomes@.take(i as int)),
            decreases outcomes.len() - i,
        {
            let ghost before = processed_message_handles.deep_view();
            assert(outcomes@.take(i + 1).drop_last() =~= outcomes@.take(i as int));
            match outcomes[i].deletion_entry() {
                Some(entry) => {
                    processed_message_handles.push(entry);
                    assert(processed_message_handles.deep_view() =~= before.push(entry@));
                },
                None => {},
            }
            i = i + 1;
        }
        assert(outcomes@.take(i as int) =~= outcomes@);
        processed_message_handles
    }
}

/// An email is handed to the transport only in answer to a successful
/// claim: the change `Pending -> Sending` of its record has been made by
/// this consumer, and by no other.
pub proof fn lemma_send_follows_claim(state: ProcessState, event: Event)
    requires
        Client::next_step(state, event) matches Step::Next(_, action) && action is SendEmail,
    ensures
        state is Claiming,
        event matches Event::StatusSet(Ok(_)),
        Client::next_step(state, event) == Step::Next(
            ProcessState::Sending(state->Claiming_0),
            Action::SendEmail(state->Claiming_1),
        ),
{
}

/// No other change of status is ever asked for than `Pending -> Sending` and
/// `Sending -> Sent`, and each for the record to which the message points.
pub proof fn lemma_only_legal_transitions(state: ProcessState, event: Event)
    requires
        Client::next_step(state, event) matches Step::Next(_, action) && action is SetEmailStatus,
    ensures
        ({
            let asked = Client::next_step(state, event)->Next_1;
            let waiting = Client::next_step(state, event)->Next_0;
            ||| state matches ProcessState::Fetching(pointer) && asked == Action::SetEmailStatus(
                pointer,
                FromTo::claim(),
            ) && waiting is Claiming
            ||| state matches ProcessState::Sending(pointer) && asked == Action::SetEmailStatus(
                pointer,
                FromTo::complete(),
            ) && waiting is Completing
        }),
{
}

/// A record that is fetched with any status but `Pending` is skipped at
/// once: nothing more is asked of the store or of the transport.
pub proof fn lemma_not_pending_is_skipped(pointer: EmailPointerMessage, mail: EmailMessage)
    requires
        mail.status != EmailStatus::Pending,
    ensures
        Client::next_step(ProcessState::Fetching(pointer), Event::Email(Ok(mail))) == Step::Done(
            ProcessOutcome::Skip(pointer),
        ),
{
}

/// Every failure on the way ends in `Retry`: a record that can not be
/// fetched, a change of status that is refused, an email that the transport
/// does not deliver.
pub proof fn lemma_failure_is_retry(state: ProcessState, event: Event)
    requires
        event matches Event::Email(Err(_)) || event matches Event::StatusSet(Err(_))
            || event matches Event::EmailSent(Err(_)),
    ensures
        Client::next_step(state, event) == Step::Done(ProcessOutcome::Retry),
{
}

} // verus!

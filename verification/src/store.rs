//! A record store in memory: what the pipeline expects of its store, and
//! what processing a message against such a store comes to.

use vstd::prelude::*;

use crate::client::{Action, Client, Event, ProcessOutcome, ProcessState, Step};
use crate::dynamo::{read_view, FromTo};
use crate::email_message::{EmailMessage, EmailMessageView, EmailStatus};
use crate::error::{GetError, GetErrorView, UpdateError};
use crate::queue::{EmailPointerMessage, RawMessage};

verus! {

/// What a record store holds: the record of each email, by its id.
pub type Records = Map<Seq<char>, EmailMessageView>;

/// What fetching the record `key` from `records` gives.
pub open spec fn fetch(records: Records, key: Seq<char>) -> Result<
    EmailMessageView,
    GetErrorView,
> {
    if records.contains_key(key) {
        Ok(records[key])
    } else {
        Err(GetErrorView::RecordNotFound)
    }
}

/// Whether the conditional change of status `from -> to` applies to the
/// record `key` of `records`: it does where there is such a record and its
/// status is `from`.
pub open spec fn transition_applies(records: Records, key: Seq<char>, from: EmailStatus) -> bool {
    records.contains_key(key) && records[key].status == from
}

/// The records after the conditional change of status `from -> to` has been
/// asked for the record `key`: where the change applies, the record has the
/// status `to` and is otherwise what it was; where it does not, nothing has
/// changed.
pub open spec fn transition(
    records: Records,
    key: Seq<char>,
    from: EmailStatus,
    to: EmailStatus,
) -> Records {
    if transition_applies(records, key, from) {
        records.insert(key, EmailMessageView { status: to, ..records[key] })
    } else {
        records
    }
}

/// Of two consumers that ask for the same change of the same record, one
/// after the other, at most one succeeds: the first where the change
/// applies, and then the record has the new status and the second is
/// refused without effect. No order of the two lets both succeed.
pub proof fn lemma_transition_race(
    records: Records,
    key: Seq<char>,
    from: EmailStatus,
    to: EmailStatus,
)
    requires
        from != to,
    ensures
        !(transition_applies(records, key, from) && transition_applies(
            transition(records, key, from, to),
            key,
            from,
        )),
        transition_applies(records, key, from) ==> transition(records, key, from, to)[key].status
            == to,
        transition(transition(records, key, from, to), key, from, to) == transition(
            records,
            key,
            from,
            to,
        ),
{
}

/// A change that does not apply leaves every record as it was, and a
/// change that applies leaves every other record as it was.
pub proof fn lemma_transition_frame(
    records: Records,
    key: Seq<char>,
    from: EmailStatus,
    to: EmailStatus,
)
    ensures
        !transition_applies(records, key, from) ==> transition(records, key, from, to) == records,
        transition(records, key, from, to).dom() == records.dom(),
        forall|other: Seq<char>|
            other != key && records.contains_key(other) ==> #[trigger] transition(
                records,
                key,
                from,
                to,
            )[other] == records[other],
{
    if transition_applies(records, key, from) {
        assert(transition(records, key, from, to).dom() =~= records.dom());
    }
}

/// Two changes in a row, the second from where the first led, are one
/// change from the first status to the last.
pub proof fn lemma_transition_chain(
    records: Records,
    key: Seq<char>,
    from: EmailStatus,
    by: EmailStatus,
    to: EmailStatus,
)
    requires
        transition_applies(records, key, from),
    ensures
        transition(transition(records, key, from, by), key, by, to) == transition(
            records,
            key,
            from,
            to,
        ),
{
    assert(transition(transition(records, key, from, by), key, by, to) =~= transition(
        records,
        key,
        from,
        to,
    ));
}

/// The records that putting `records` one after the other gives: a later
/// record takes the place of an earlier one with the same id.
pub open spec fn records_of(records: Seq<EmailMessageView>) -> Records
    decreases records.len(),
{
    if records.len() == 0 {
        Map::empty()
    } else {
        records_of(records.drop_last()).insert(records.last().email_id, records.last())
    }
}

/// Each record of `records_of` stands under its own id.
pub proof fn lemma_records_keyed(records: Seq<EmailMessageView>)
    ensures
        forall|key: Seq<char>| #[trigger]
            records_of(records).contains_key(key) ==> records_of(records)[key].email_id == key,
    decreases records.len(),
{
    if records.len() > 0 {
        lemma_records_keyed(records.drop_last());
    }
}

/// A record store in memory, with the conditional change of status that the
/// pipeline relies on. It keeps every version of a record that it was
/// given; the latest counts.
#[derive(Debug)]
pub struct RecordStore {
    versions: Vec<EmailMessage>,
}

impl View for RecordStore {
    type V = Records;

    closed spec fn view(&self) -> Records {
        records_of(self.versions@.map_values(|record: EmailMessage| record@))
    }
}

impl RecordStore {
    /// The store without records.
    pub fn new() -> (r: Self)
        ensures
            r@ == Map::<Seq<char>, EmailMessageView>::empty(),
    {
        let r = RecordStore { versions: Vec::new() };
        assert(r.versions@.map_values(|record: EmailMessage| record@) =~= Seq::empty());
        r
    }

    /// Stores `record` under its id, in place of what was there.
    pub fn put(&mut self, record: EmailMessage)
        ensures
            final(self)@ == old(self)@.insert(record@.email_id, record@),
    {
        self.versions.push(record);
        assert(self.versions@.map_values(|record: EmailMessage| record@).drop_last() =~= old(
            self,
        ).versions@.map_values(|record: EmailMessage| record@));
    }

    /// The record of the email `email_id`.
    pub fn get(&self, email_id: &str) -> (r: Option<&EmailMessage>)
        ensures
            match r {
                Some(record) => self@.contains_key(email_id@) && self@[email_id@] == record@,
                None => !self@.contains_key(email_id@),
            },
    {
        let wanted = email_id.to_owned();
        let ghost all = self.versions@.map_values(|record: EmailMessage| record@);
        let mut i: usize = self.versions.len();
        assert(all.take(i as int) =~= all);
        while i > 0
            invariant
                i <= self.versions.len(),
                wanted@ == email_id@,
                all == self.versions@.map_values(|record: EmailMessage| record@),
                records_of(all).contains_key(email_id@) <==> records_of(
                    all.take(i as int),
                ).contains_key(email_id@),
                records_of(all).contains_key(email_id@) ==> records_of(all)[email_id@]
                    == records_of(all.take(i as int))[email_id@],
            decreases i,
        {
            i = i - 1;
            assert(all.take(i + 1).drop_last() =~= all.take(i as int));
            if self.versions[i].email_id == wanted {
                return Some(&self.versions[i]);
            }
        }
        assert(all.take(0) =~= Seq::empty());
        None
    }

    /// Fetches the record `record_key`.
    pub fn fetch(&self, record_key: &str) -> (r: Result<EmailMessage, GetError>)
        ensures
            read_view(r) == fetch(self@, record_key@),
    {
        match self.get(record_key) {
            Some(record) => Ok(record.clone()),
            None => Err(GetError::RecordNotFound),
        }
    }

    /// Changes the status of the record `record_key` from `from` to `to`, if
    /// its status is `from`. Where there is no such record, or it has
    /// another status, nothing changes and the condition is reported as
    /// failed.
    pub fn transition(&mut self, record_key: &str, from: EmailStatus, to: EmailStatus) -> (r:
        Result<(), UpdateError>)
        ensures
            final(self)@ == transition(old(self)@, record_key@, from, to),
            r is Ok <==> transition_applies(old(self)@, record_key@, from),
            r is Err ==> r->Err_0 is ConditionalCheckFailed,
    {
        proof {
            lemma_records_keyed(self.versions@.map_values(|record: EmailMessage| record@));
        }
        let changed = match self.get(record_key) {
            Some(record) => {
                if record.status == from {
                    let mut next = record.clone();
                    next.status = to;
                    Some(next)
                } else {
                    None
                }
            },
            None => None,
        };
        match changed {
            Some(next) => {
                self.put(next);
                Ok(())
            },
            None => Err(
                UpdateError::ConditionalCheckFailed("The conditional request failed".to_owned()),
            ),
        }
    }
}

/// How processing one message against a store ended.
#[derive(Debug, PartialEq, Eq)]
pub struct Processed {
    /// The outcome for the message.
    pub outcome: ProcessOutcome,
    /// How often the email was handed to the transport.
    pub deliveries: usize,
}

/// Whether `message` points to a record of `records` that is `Pending`:
/// the one case in which processing touches the store or the transport.
pub open spec fn actionable(records: Records, message: RawMessage) -> bool {
    match EmailPointerMessage::of_message(message) {
        Ok(pointer) => transition_applies(records, pointer@.email_id, EmailStatus::Pending),
        Err(_) => false,
    }
}

/// The outcome of processing `message` against `records`, with a
/// transport that delivers or does not.
///
/// A message without pointer is given up. A pointer to no record comes
/// again. A record that is not `Pending` is skipped. A pending record is
/// claimed and handed to the transport; it is delivered where the transport
/// delivers, else the message comes again.
pub open spec fn processed_outcome(
    records: Records,
    message: RawMessage,
    delivers: bool,
) -> ProcessOutcome {
    match EmailPointerMessage::of_message(message) {
        Err(_) => ProcessOutcome::SkipMessage(message),
        Ok(pointer) => if !records.contains_key(pointer@.email_id) {
            ProcessOutcome::Retry
        } else if records[pointer@.email_id].status != EmailStatus::Pending {
            ProcessOutcome::Skip(pointer)
        } else if delivers {
            ProcessOutcome::Delivered(pointer)
        } else {
            ProcessOutcome::Retry
        },
    }
}

/// The records after `message` has been processed against `records`: only
/// a pending record changes, by way of `Sending` to `Sent` where the
/// transport delivers, and to `Sending`, where it stays, where the transport
/// does not.
pub open spec fn processed_records(records: Records, message: RawMessage, delivers: bool) -> Records {
    match EmailPointerMessage::of_message(message) {
        Ok(pointer) => if !actionable(records, message) {
            records
        } else if delivers {
            transition(records, pointer@.email_id, EmailStatus::Pending, EmailStatus::Sent)
        } else {
            transition(records, pointer@.email_id, EmailStatus::Pending, EmailStatus::Sending)
        },
        Err(_) => records,
    }
}

/// How often processing `message` against `records` hands an email to the
/// transport: once for a pending record, else never.
pub open spec fn processed_deliveries(records: Records, message: RawMessage) -> nat {
    if actionable(records, message) {
        1
    } else {
        0
    }
}

/// How many answers the processor can still take after `step`.
pub open spec fn steps_left(step: Step) -> nat {
    match step {
        Step::Next(ProcessState::Fetching(_), _) => 4,
        Step::Next(ProcessState::Claiming(_, _), _) => 3,
        Step::Next(ProcessState::Sending(_), _) => 2,
        Step::Next(ProcessState::Completing(_), _) => 1,
        Step::Done(_) => 0,
    }
}

impl RecordStore {
    /// Each record stands under its own id.
    pub proof fn lemma_keyed(&self)
        ensures
            forall|key: Seq<char>| #[trigger]
                self@.contains_key(key) ==> self@[key].email_id == key,
    {
        lemma_records_keyed(self.versions@.map_values(|record: EmailMessage| record@));
    }

    /// Where processing `message` stands when the processor has come to
    /// `step`, the store to `now` and the count of deliveries to
    /// `deliveries`, having begun with the store `start`.
    closed spec fn in_progress(
        step: Step,
        now: Records,
        deliveries: nat,
        start: Records,
        message: RawMessage,
        delivers: bool,
    ) -> bool {
        let extracted = EmailPointerMessage::of_message(message);
        match step {
            Step::Next(ProcessState::Fetching(pointer), action) => {
                &&& extracted == Ok::<EmailPointerMessage, &'static str>(pointer)
                &&& action == Action::GetEmailMessage(pointer)
                &&& now == start
                &&& deliveries == 0
            },
            Step::Next(ProcessState::Claiming(pointer, _), action) => {
                &&& extracted == Ok::<EmailPointerMessage, &'static str>(pointer)
                &&& action == Action::SetEmailStatus(pointer, FromTo::claim())
                &&& actionable(start, message)
                &&& now == start
                &&& deliveries == 0
            },
            Step::Next(ProcessState::Sending(pointer), action) => {
                &&& extracted == Ok::<EmailPointerMessage, &'static str>(pointer)
                &&& action is SendEmail
                &&& actionable(start, message)
                &&& now == transition(
                    start,
                    pointer@.email_id,
                    EmailStatus::Pending,
                    EmailStatus::Sending,
                )
                &&& deliveries == 0
            },
            Step::Next(ProcessState::Completing(pointer), action) => {
                &&& extracted == Ok::<EmailPointerMessage, &'static str>(pointer)
                &&& action == Action::SetEmailStatus(pointer, FromTo::complete())
                &&& actionable(start, message)
                &&& delivers
                &&& now == transition(
                    start,
                    pointer@.email_id,
                    EmailStatus::Pending,
                    EmailStatus::Sending,
                )
                &&& deliveries == 1
            },
            Step::Done(outcome) => {
                &&& outcome == processed_outcome(start, message, delivers)
                &&& now == processed_records(start, message, delivers)
                &&& deliveries == processed_deliveries(start, message)
            },
        }
    }

    /// Processes `message` to its end: the processor asks, this store
    /// answers what is asked of a store, and the transport answers
    /// `delivery` to every email that it is handed.
    pub fn process_message(&mut self, message: RawMessage, delivery: &Result<(), String>) -> (r:
        Processed)
        ensures
            r.outcome == processed_outcome(old(self)@, message, delivery is Ok),
            final(self)@ == processed_records(old(self)@, message, delivery is Ok),
            r.deliveries == processed_deliveries(old(self)@, message),
    {
        let ghost start = self@;
        let mut step = Client::begin(message);
        let mut deliveries: usize = 0;
        loop
            invariant
                start == old(self)@,
                RecordStore::in_progress(
                    step,
                    self@,
                    deliveries as nat,
                    start,
                    message,
                    delivery is Ok,
                ),
            decreases steps_left(step),
        {
            let (state, action) = match step {
                Step::Done(outcome) => {
                    return Processed { outcome, deliveries };
                },
                Step::Next(state, action) => (state, action),
            };
            let event = match action {
                Action::GetEmailMessage(pointer) => Event::Email(
                    self.fetch(pointer.email_id().as_str()),
                ),
                Action::SetEmailStatus(pointer, args) => {
                    proof {
                        if actionable(start, message) {
                            lemma_transition_chain(
                                start,
                                pointer@.email_id,
                                EmailStatus::Pending,
                                EmailStatus::Sending,
                                EmailStatus::Sent,
                            );
                        }
                    }
                    Event::StatusSet(self.transition(pointer.email_id().as_str(), args.0, args.1))
                },
                Action::SendEmail(_) => {
                    deliveries = deliveries + 1;
                    Event::EmailSent(
                        match delivery {
                            Ok(_) => Ok(()),
                            Err(reason) => Err(reason.clone()),
                        },
                    )
                },
            };
            step = Client::advance(state, event);
        }
    }
}

/// Processing the message of a delivered email once more, whatever the
/// transport would do, skips it: the record is `Sent`, the email is not
/// handed to the transport again, and no record changes.
pub proof fn lemma_delivered_is_skipped_after(
    records: Records,
    message: RawMessage,
    delivers: bool,
    delivers_after: bool,
)
    requires
        processed_outcome(records, message, delivers) is Delivered,
    ensures
        ({
            let pointer = processed_outcome(records, message, delivers)->Delivered_0;
            let after = processed_records(records, message, delivers);
            &&& after[pointer@.email_id].status == EmailStatus::Sent
            &&& processed_outcome(after, message, delivers_after) == ProcessOutcome::Skip(pointer)
            &&& processed_deliveries(after, message) == 0
            &&& processed_records(after, message, delivers_after) == after
        }),
{
}

/// Processing a message changes no status but that of a pending record,
/// and that to `Sending` or to `Sent`. It adds and removes no record.
pub proof fn lemma_processing_moves_forward(records: Records, message: RawMessage, delivers: bool)
    ensures
        processed_records(records, message, delivers).dom() == records.dom(),
        forall|key: Seq<char>| #[trigger]
            records.contains_key(key) ==> {
                let before = records[key].status;
                let after = processed_records(records, message, delivers)[key].status;
                after == before || (before == EmailStatus::Pending && (after
                    == EmailStatus::Sending || after == EmailStatus::Sent))
            },
{
    match EmailPointerMessage::of_message(message) {
        Ok(pointer) => {
            let key = pointer@.email_id;
            lemma_transition_frame(records, key, EmailStatus::Pending, EmailStatus::Sending);
            lemma_transition_frame(records, key, EmailStatus::Pending, EmailStatus::Sent);
        },
        Err(_) => {},
    }
}

/// Of two messages that point to one record, processed one after the
/// other, at most one has its email handed to the transport: whoever comes
/// second finds the record claimed.
pub proof fn lemma_at_most_one_delivery(
    records: Records,
    first: RawMessage,
    second: RawMessage,
    delivers: bool,
)
    requires
        EmailPointerMessage::of_message(first) is Ok,
        EmailPointerMessage::of_message(second) is Ok,
        EmailPointerMessage::of_message(first)->Ok_0@.email_id == EmailPointerMessage::of_message(
            second,
        )->Ok_0@.email_id,
    ensures
        processed_deliveries(records, first) + processed_deliveries(
            processed_records(records, first, delivers),
            second,
        ) <= 1,
{
}

} // verus!

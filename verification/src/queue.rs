//! Queue messages, the pointers that they hold, and the requests that are
//! made of the queue.

use vstd::prelude::*;
use vstd::std_specs::convert::{FromSpecImpl, TryFromSpecImpl};

verus! {

/// What the body of a queue message says when it can be read: the key of the
/// email record that is to be sent.
#[derive(Debug, PartialEq, Eq)]
pub struct EmailPointer {
    pub email_id: String,
}

impl Clone for EmailPointer {
    fn clone(&self) -> (r: Self)
        ensures
            r == *self,
    {
        EmailPointer { email_id: self.email_id.clone() }
    }
}

/// The body of a queue message after decoding: either it is a reference
/// to a record, or it is text that is no such reference.
#[derive(Debug, PartialEq, Eq)]
pub enum MessageBody {
    Pointer(EmailPointer),
    Unreadable(String),
}

impl Clone for MessageBody {
    fn clone(&self) -> (r: Self)
        ensures
            r == *self,
    {
        match self {
            MessageBody::Pointer(pointer) => MessageBody::Pointer(pointer.clone()),
            MessageBody::Unreadable(text) => MessageBody::Unreadable(text.clone()),
        }
    }
}

/// One message as the queue hands it out. Each part may be absent.
#[derive(Debug, PartialEq, Eq)]
pub struct RawMessage {
    /// Identifies the message within one receive.
    pub message_id: Option<String>,
    /// Needed to remove the message from the queue.
    pub receipt_handle: Option<String>,
    /// The decoded payload.
    pub body: Option<MessageBody>,
}

impl Clone for RawMessage {
    fn clone(&self) -> (r: Self)
        ensures
            r == *self,
    {
        RawMessage {
            message_id: self.message_id.clone(),
            receipt_handle: self.receipt_handle.clone(),
            body: match &self.body {
                Some(body) => Some(body.clone()),
                None => None,
            },
        }
    }
}

impl RawMessage {
    /// The record key that the body names: present where the body is a
    /// record reference whose key is not empty.
    pub open spec fn record_key(self) -> Option<Seq<char>> {
        match self.body {
            Some(MessageBody::Pointer(pointer)) => if pointer.email_id@.len() > 0 {
                Some(pointer.email_id@)
            } else {
                None
            },
            _ => None,
        }
    }

    /// What extracting a pointer from this message gives.
    pub open spec fn extraction(self) -> Result<EmailPointerMessageView, Seq<char>> {
        extraction(self.message_id.deep_view(), self.receipt_handle.deep_view(), self.record_key())
    }

    /// Whether a pointer can be extracted from this message.
    pub open spec fn extractable(self) -> bool {
        self.message_id is Some && self.receipt_handle is Some && self.record_key() is Some
    }
}

/// A pointer as plain values.
pub struct EmailPointerMessageView {
    pub message_id: Seq<char>,
    pub handle: Seq<char>,
    pub email_id: Seq<char>,
}

/// Pointer extraction, as a function of what is present in a message and of
/// what its body names. The first absent part, in the order id, handle, key,
/// decides the refusal.
pub open spec fn extraction(
    message_id: Option<Seq<char>>,
    receipt_handle: Option<Seq<char>>,
    record_key: Option<Seq<char>>,
) -> Result<EmailPointerMessageView, Seq<char>> {
    match (message_id, receipt_handle, record_key) {
        (Some(id), Some(handle), Some(key)) => Ok(
            EmailPointerMessageView { message_id: id, handle: handle, email_id: key },
        ),
        (None, _, _) => Err("No message id was found"@),
        (Some(_), None, _) => Err("No receipt handle for message"@),
        (Some(_), Some(_), None) => Err("Unable to parse EmailPointer."@),
    }
}

/// A queue entry that names an email record: the key of the record, and what
/// it takes to remove the entry from the queue. It exists only for messages
/// that had all three.
#[derive(Debug, PartialEq, Eq)]
pub struct EmailPointerMessage {
    message_id: String,
    handle: String,
    email_id: String,
}

impl View for EmailPointerMessage {
    type V = EmailPointerMessageView;

    closed spec fn view(&self) -> EmailPointerMessageView {
        EmailPointerMessageView {
            message_id: self.message_id@,
            handle: self.handle@,
            email_id: self.email_id@,
        }
    }
}

impl Clone for EmailPointerMessage {
    fn clone(&self) -> (r: Self)
        ensures
            r == *self,
    {
        proof {
            use_type_invariant(self);
        }
        EmailPointerMessage {
            message_id: self.message_id.clone(),
            handle: self.handle.clone(),
            email_id: self.email_id.clone(),
        }
    }
}

/// The result of an extraction as plain values.
pub open spec fn extracted(r: Result<EmailPointerMessage, &'static str>) -> Result<
    EmailPointerMessageView,
    Seq<char>,
> {
    match r {
        Ok(pointer) => Ok(pointer@),
        Err(refusal) => Err(refusal@),
    }
}

impl EmailPointerMessage {
    /// No pointer names a record by an empty key.
    #[verifier::type_invariant]
    spec fn names_a_record(self) -> bool {
        self.email_id@.len() > 0
    }

    /// What extracting a pointer from `message` gives, as the values
    /// themselves: the pointer holds the very texts of the message.
    pub closed spec fn of_message(message: RawMessage) -> Result<
        EmailPointerMessage,
        &'static str,
    > {
        let key = match message.body {
            Some(MessageBody::Pointer(pointer)) => if pointer.email_id@.len() > 0 {
                Some(pointer.email_id)
            } else {
                None
            },
            _ => None,
        };
        match (message.message_id, message.receipt_handle, key) {
            (Some(id), Some(handle), Some(email_id)) => Ok(
                EmailPointerMessage { message_id: id, handle, email_id },
            ),
            (None, _, _) => Err("No message id was found"),
            (Some(_), None, _) => Err("No receipt handle for message"),
            (Some(_), Some(_), None) => Err("Unable to parse EmailPointer."),
        }
    }

    /// Extraction is a function of the message alone, and of no more of it
    /// than which parts are present and what the body names.
    pub proof fn lemma_extraction(message: RawMessage)
        ensures
            extracted(EmailPointerMessage::of_message(message)) == message.extraction(),
            EmailPointerMessage::of_message(message) is Ok <==> message.extractable(),
    {
    }

    /// Two messages with the same id and receipt handle whose bodies name
    /// the same record, or both none, give the same: nothing else of a
    /// message is read.
    pub proof fn lemma_extraction_reads(first: RawMessage, second: RawMessage)
        requires
            first.message_id.deep_view() == second.message_id.deep_view(),
            first.receipt_handle.deep_view() == second.receipt_handle.deep_view(),
            first.record_key() == second.record_key(),
        ensures
            extracted(EmailPointerMessage::of_message(first)) == extracted(
                EmailPointerMessage::of_message(second),
            ),
    {
    }

    /// The pointer of a message, if one can be extracted.
    pub fn from_message(message: RawMessage) -> (r: Option<EmailPointerMessage>)
        ensures
            r is Some <==> message.extractable(),
            r matches Some(pointer) ==> Ok::<EmailPointerMessage, &'static str>(pointer)
                == EmailPointerMessage::of_message(message),
            r matches Some(pointer) ==> Ok::<EmailPointerMessageView, Seq<char>>(pointer@)
                == message.extraction(),
    {
        match EmailPointerMessage::try_from(message) {
            Ok(pointer) => Some(pointer),
            Err(_) => None,
        }
    }

    /// The identifier of the queue message.
    pub fn message_id(&self) -> (r: &String)
        ensures
            r@ == self@.message_id,
    {
        &self.message_id
    }

    /// The handle with which the queue message is removed.
    pub fn handle(&self) -> (r: &String)
        ensures
            r@ == self@.handle,
    {
        &self.handle
    }

    /// The key of the email record. It is never empty.
    pub fn email_id(&self) -> (r: &String)
        ensures
            r@ == self@.email_id,
            r@.len() > 0,
    {
        proof {
            use_type_invariant(self);
        }
        &self.email_id
    }
}

impl TryFrom<RawMessage> for EmailPointerMessage {
    type Error = &'static str;

    /// Extracts the pointer of a message. This succeeds exactly where the
    /// message has an id, a receipt handle and a body that names a record by
    /// a key that is not empty.
    fn try_from(message: RawMessage) -> (r: Result<Self, Self::Error>)
        ensures
            r == EmailPointerMessage::of_message(message),
            extracted(r) == message.extraction(),
            r is Ok <==> message.extractable(),
    {
        let RawMessage { message_id, receipt_handle, body } = message;
        let key = match body {
            Some(MessageBody::Pointer(pointer)) => {
                if pointer.email_id.as_str().is_empty() {
                    None
                } else {
                    Some(pointer.email_id)
                }
            },
            _ => None,
        };
        match (message_id, receipt_handle, key) {
            (Some(id), Some(handle), Some(email_id)) => {
                Ok(EmailPointerMessage { message_id: id, handle, email_id })
            },
            (None, _, _) => Err("No message id was found"),
            (Some(_), None, _) => Err("No receipt handle for message"),
            (Some(_), Some(_), None) => Err("Unable to parse EmailPointer."),
        }
    }
}

impl TryFromSpecImpl<RawMessage> for EmailPointerMessage {
    open spec fn obeys_try_from_spec() -> bool {
        true
    }

    open spec fn try_from_spec(message: RawMessage) -> Result<Self, Self::Error> {
        EmailPointerMessage::of_message(message)
    }
}

/// One entry of a request to remove messages from the queue.
#[derive(Debug, PartialEq, Eq)]
pub struct DeleteMessageBatchRequestEntry {
    /// Identifies the entry within the request.
    pub id: String,
    /// The receipt handle of the message to remove.
    pub receipt_handle: String,
}

/// An entry as plain values.
pub struct DeleteMessageBatchRequestEntryView {
    pub id: Seq<char>,
    pub receipt_handle: Seq<char>,
}

impl View for DeleteMessageBatchRequestEntry {
    type V = DeleteMessageBatchRequestEntryView;

    open spec fn view(&self) -> DeleteMessageBatchRequestEntryView {
        DeleteMessageBatchRequestEntryView { id: self.id@, receipt_handle: self.receipt_handle@ }
    }
}

impl DeepView for DeleteMessageBatchRequestEntry {
    type V = DeleteMessageBatchRequestEntryView;

    open spec fn deep_view(&self) -> DeleteMessageBatchRequestEntryView {
        self@
    }
}

impl Clone for DeleteMessageBatchRequestEntry {
    fn clone(&self) -> (r: Self)
        ensures
            r == *self,
    {
        DeleteMessageBatchRequestEntry {
            id: self.id.clone(),
            receipt_handle: self.receipt_handle.clone(),
        }
    }
}

impl EmailPointerMessage {
    /// The entry that removes the message of this pointer from the queue.
    pub open spec fn delete_entry(self) -> DeleteMessageBatchRequestEntryView {
        DeleteMessageBatchRequestEntryView { id: self@.message_id, receipt_handle: self@.handle }
    }

    /// The entry that removes the message of this pointer from the queue, as
    /// the value itself.
    pub closed spec fn entry(self) -> DeleteMessageBatchRequestEntry {
        DeleteMessageBatchRequestEntry { id: self.message_id, receipt_handle: self.handle }
    }
}

impl<'a> From<&'a EmailPointerMessage> for DeleteMessageBatchRequestEntry {
    fn from(message: &'a EmailPointerMessage) -> (r: Self)
        ensures
            r == message.entry(),
            r@ == message.delete_entry(),
    {
        DeleteMessageBatchRequestEntry {
            id: message.message_id.clone(),
            receipt_handle: message.handle.clone(),
        }
    }
}

impl<'a> FromSpecImpl<&'a EmailPointerMessage> for DeleteMessageBatchRequestEntry {
    open spec fn obeys_from_spec() -> bool {
        true
    }

    open spec fn from_spec(message: &'a EmailPointerMessage) -> Self {
        message.entry()
    }
}

impl RawMessage {
    /// The entry that removes this message from the queue, where the
    /// message has what such an entry needs: an id and a receipt handle.
    pub open spec fn delete_entry(self) -> Option<DeleteMessageBatchRequestEntryView> {
        match (self.message_id, self.receipt_handle) {
            (Some(id), Some(handle)) => Some(
                DeleteMessageBatchRequestEntryView { id: id@, receipt_handle: handle@ },
            ),
            _ => None,
        }
    }
}

/// A request to remove messages from a queue.
#[derive(Debug, PartialEq, Eq)]
pub struct DeleteMessageBatchRequest {
    /// The messages to remove.
    pub entries: Vec<DeleteMessageBatchRequestEntry>,
    /// The queue to remove them from.
    pub queue_url: String,
}

/// A request for messages of a queue.
#[derive(Debug, PartialEq, Eq)]
pub struct ReceiveMessageRequest {
    /// The attributes to be returned with each message.
    pub attribute_names: Option<Vec<String>>,
    /// The greatest number of messages to return.
    pub max_number_of_messages: Option<i64>,
    /// The queue to receive from.
    pub queue_url: String,
    /// For how many seconds a received message is hidden from other
    /// receivers.
    pub visibility_timeout: Option<i64>,
    /// For how many seconds the call waits for a message to arrive.
    pub wait_time_seconds: Option<i64>,
}

/// The answer to a `ReceiveMessageRequest`.
#[derive(Debug, PartialEq, Eq)]
pub struct ReceiveMessageResult {
    /// The messages, where there were any.
    pub messages: Option<Vec<RawMessage>>,
}

/// How many messages one receive asks for.
pub const MAX_NUMBER_OF_MESSAGES: i64 = 1;

/// Seconds for which a received message is hidden from other receivers: it
/// has to cover fetching the record, the delivery and both changes of status.
pub const VISIBILITY_TIMEOUT: i64 = 30;

/// Seconds for which one receive waits for a message to arrive.
pub const WAIT_TIME_SECONDS: i64 = 20;

/// The request that polls the queue at `queue_url` for one batch of
/// messages, each with the group that it was sent to.
pub fn get_sqs_email_messages_input(queue_url: &str) -> (r: ReceiveMessageRequest)
    ensures
        r.attribute_names matches Some(names) && names.deep_view() == seq!["MessageGroupId"@],
        r.max_number_of_messages == Some(MAX_NUMBER_OF_MESSAGES),
        r.queue_url@ == queue_url@,
        r.visibility_timeout == Some(VISIBILITY_TIMEOUT),
        r.wait_time_seconds == Some(WAIT_TIME_SECONDS),
{
    let mut names: Vec<String> = Vec::new();
    names.push("MessageGroupId".to_owned());
    assert(names.deep_view() =~= seq!["MessageGroupId"@]);
    ReceiveMessageRequest {
        attribute_names: Some(names),
        max_number_of_messages: Some(MAX_NUMBER_OF_MESSAGES),
        queue_url: queue_url.to_owned(),
        visibility_timeout: Some(VISIBILITY_TIMEOUT),
        wait_time_seconds: Some(WAIT_TIME_SECONDS),
    }
}

/// The messages of an answer to the request of
/// `get_sqs_email_messages_input`: those that it holds, or none. A failed
/// request stays what it is.
pub fn get_sqs_email_messages<E>(response: Result<ReceiveMessageResult, E>) -> (r: Result<
    Vec<RawMessage>,
    E,
>)
    ensures
        match response {
            Ok(result) => match result.messages {
                Some(messages) => r == Ok::<Vec<RawMessage>, E>(messages),
                None => r matches Ok(messages) && messages@.len() == 0,
            },
            Err(error) => r == Err::<Vec<RawMessage>, E>(error),
        },
{
    match response {
        Ok(result) => match result.messages {
            Some(messages) => Ok(messages),
            None => Ok(Vec::new()),
        },
        Err(error) => Err(error),
    }
}

} // verus!

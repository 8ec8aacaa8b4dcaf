//! The message-processing pipeline of an email broker: a queue entry is
//! resolved to a pointer, the pointer to a stored record, and the record is
//! moved through `Pending -> Sending -> Sent` around one delivery attempt.
//! Every decision of that pipeline is a verified function of plain values;
//! the queue, the record store and the transport are driven by the caller.

pub mod attribute_value_wrapper;
pub mod batch;
pub mod client;
pub mod dynamo;
pub mod email_message;
pub mod error;
pub mod queue;
pub mod sqs_email_messages;
pub mod store;

pub use attribute_value_wrapper::{
    AttributeValue, AttributeValueMap, AttributeValueStringEntry, AttributeValueView,
    DynamoItemWrapper,
};
pub use batch::{
    batch_failure, classify, delete_request, polled, polls_again, reconcile, Reconciliation,
};
pub use client::{Action, Client, Event, ProcessError, ProcessOutcome, ProcessState, Step};
pub use dynamo::{
    from_hashmap, get_email_input, get_email_message, set_email_status, set_email_status_input,
    FromTo, GetItemInput, GetItemOutput, UpdateItemInput,
};
pub use email_message::{
    EmailMessage, EmailMessageAttachment, EmailMessageAttachmentView, EmailMessageView,
    EmailStatus, ParseEmailMessageCode,
};
pub use error::{
    DeserializeError, EmailHandlerError, GetError, GetErrorView, GetItemFault, RequestFailure,
    UpdateError, UpdateItemFault,
};
pub use queue::{
    get_sqs_email_messages, get_sqs_email_messages_input, DeleteMessageBatchRequest,
    DeleteMessageBatchRequestEntry, DeleteMessageBatchRequestEntryView, EmailPointer,
    EmailPointerMessage, EmailPointerMessageView, MessageBody, RawMessage, ReceiveMessageRequest,
    ReceiveMessageResult, MAX_NUMBER_OF_MESSAGES, VISIBILITY_TIMEOUT, WAIT_TIME_SECONDS,
};
pub use sqs_email_messages::SqsEmailMessages;
pub use store::{Processed, RecordStore, Records};

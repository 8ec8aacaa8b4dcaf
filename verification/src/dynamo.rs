//! The requests that are made of the record store, and the reading of its
//! answers.

use vstd::prelude::*;

use crate::attribute_value_wrapper::{
    map_of_texts, text_of, texts_view, AttributeValueMap, AttributeValueStringEntry,
    AttributeValueView, DynamoItemWrapper,
};
use crate::email_message::{EmailMessage, EmailMessageView, EmailStatus};
use crate::error::{
    DeserializeError, GetError, GetErrorView, GetItemFault, RequestFailure, UpdateError,
    UpdateItemFault,
};
use crate::queue::EmailPointerMessage;

verus! {

/// A change of status: from the first status to the second.
#[derive(Clone, Copy, Debug, PartialEq, Eq, Structural)]
pub struct FromTo(pub EmailStatus, pub EmailStatus);

impl FromTo {
    /// The change that claims a pending email for sending.
    pub open spec fn claim() -> FromTo {
        FromTo(EmailStatus::Pending, EmailStatus::Sending)
    }

    /// The change that records a sent email.
    pub open spec fn complete() -> FromTo {
        FromTo(EmailStatus::Sending, EmailStatus::Sent)
    }
}

/// A request for one item of a table.
#[derive(Debug)]
pub struct GetItemInput {
    /// The attributes that identify the item.
    pub key: AttributeValueMap,
    /// The table that holds the item.
    pub table_name: String,
}

/// The answer to a `GetItemInput`.
#[derive(Debug)]
pub struct GetItemOutput {
    /// The attributes of the item, where the table has it.
    pub item: Option<AttributeValueMap>,
}

/// A request to change one item of a table if a condition holds of it.
#[derive(Debug)]
pub struct UpdateItemInput {
    /// What must hold of the item for the change to be made.
    pub condition_expression: Option<String>,
    /// The values that the expressions name.
    pub expression_attribute_values: Option<AttributeValueMap>,
    /// The attributes that identify the item.
    pub key: AttributeValueMap,
    /// The table that holds the item.
    pub table_name: String,
    /// The change.
    pub update_expression: Option<String>,
}

/// The key of the record of the email `email_id`.
pub open spec fn email_key(email_id: Seq<char>) -> Map<Seq<char>, AttributeValueView> {
    Map::<Seq<char>, AttributeValueView>::empty().insert(
        "EmailId"@,
        AttributeValueView::text(email_id),
    )
}

/// The values that a conditional change of status names: the status that is
/// expected, and the next one.
pub open spec fn status_values(args: FromTo) -> Map<Seq<char>, AttributeValueView> {
    Map::<Seq<char>, AttributeValueView>::empty().insert(
        ":expected"@,
        AttributeValueView::text(args.0.text()),
    ).insert(":next"@, AttributeValueView::text(args.1.text()))
}

/// The first of the required attributes that `item` lacks as a text.
pub open spec fn missing_field(item: Map<Seq<char>, AttributeValueView>) -> Option<Seq<char>> {
    if text_of(item, "EmailId"@) is None {
        Some("EmailId"@)
    } else if text_of(item, "Subject"@) is None {
        Some("Subject"@)
    } else if text_of(item, "EmailStatus"@) is None {
        Some("EmailStatus"@)
    } else {
        None
    }
}

/// The record that an item with all required attributes holds: id, subject
/// and status as stored, everything else at its default.
pub open spec fn record_of(item: Map<Seq<char>, AttributeValueView>) -> EmailMessageView {
    EmailMessageView {
        email_id: text_of(item, "EmailId"@)->0,
        subject: text_of(item, "Subject"@)->0,
        status: EmailStatus::parse(text_of(item, "EmailStatus"@)->0),
        ..EmailMessageView::empty()
    }
}

/// What reading the answer to a get request gives.
pub open spec fn read_output(output: GetItemOutput) -> Result<EmailMessageView, GetErrorView> {
    match output.item {
        None => Err(GetErrorView::RecordNotFound),
        Some(item) => match missing_field(item@) {
            Some(field) => Err(GetErrorView::PropertyMissing(field)),
            None => Ok(record_of(item@)),
        },
    }
}

/// The result of reading a record as plain values.
pub open spec fn read_view(r: Result<EmailMessage, GetError>) -> Result<
    EmailMessageView,
    GetErrorView,
> {
    match r {
        Ok(email) => Ok(email@),
        Err(error) => Err(error@),
    }
}

/// The request that fetches the record to which `message` points from the
/// table `table_name`.
pub fn get_email_input(table_name: &str, message: &EmailPointerMessage) -> (r: GetItemInput)
    ensures
        r.key@ == email_key(message@.email_id),
        r.table_name@ == table_name@,
{
    GetItemInput {
        key: AttributeValueMap::with_entry("EmailId", message.email_id().clone()),
        table_name: table_name.to_owned(),
    }
}

/// Reads the answer to the request of `get_email_input`: a failed request
/// becomes the error that names its failure, an answer is read as a record.
pub fn get_email_message(response: Result<GetItemOutput, RequestFailure<GetItemFault>>) -> (r:
    Result<EmailMessage, GetError>)
    ensures
        match response {
            Ok(output) => read_view(r) == read_output(output),
            Err(failure) => r == Err::<EmailMessage, GetError>(GetError::of_failure(failure)),
        },
{
    match response {
        Ok(output) => EmailMessage::try_from(output),
        Err(failure) => Err(GetError::from(failure)),
    }
}

/// The request that changes the status of the record to which `message`
/// points from `args.0` to `args.1`, on condition that the stored status is
/// `args.0`.
pub fn set_email_status_input(
    table_name: &str,
    message: &EmailPointerMessage,
    args: FromTo,
) -> (r: UpdateItemInput)
    ensures
        r.condition_expression matches Some(condition) && condition@
            == "EmailStatus = :expected"@,
        r.expression_attribute_values matches Some(values) && values@ == status_values(args),
        r.key@ == email_key(message@.email_id),
        r.table_name@ == table_name@,
        r.update_expression matches Some(update) && update@ == "SET EmailStatus = :next"@,
{
    let FromTo(current_status, next_status) = args;
    let mut entries: Vec<AttributeValueStringEntry> = Vec::new();
    entries.push((":expected".to_owned(), current_status.to_string()));
    entries.push((":next".to_owned(), next_status.to_string()));
    proof {
        let texts = texts_view(entries@);
        reveal_with_fuel(map_of_texts, 3);
        assert(texts.drop_last().last() == texts[0]);
        assert(texts.drop_last().drop_last() =~= Seq::empty());
    }
    UpdateItemInput {
        condition_expression: Some("EmailStatus = :expected".to_owned()),
        expression_attribute_values: Some(AttributeValueMap::with_entries(entries)),
        key: AttributeValueMap::with_entry("EmailId", message.email_id().clone()),
        table_name: table_name.to_owned(),
        update_expression: Some("SET EmailStatus = :next".to_owned()),
    }
}

/// Reads the answer to the request of `set_email_status_input`: a failed
/// request becomes the error that names its failure.
pub fn set_email_status(response: Result<(), RequestFailure<UpdateItemFault>>) -> (r: Result<
    (),
    UpdateError,
>)
    ensures
        match response {
            Ok(_) => r is Ok,
            Err(failure) => r == Err::<(), UpdateError>(UpdateError::of_failure(failure)),
        },
{
    match response {
        Ok(_) => Ok(()),
        Err(failure) => Err(UpdateError::from(failure)),
    }
}

/// Reads a stored item as a record. The attributes `EmailId`, `Subject` and
/// `EmailStatus` are required, as texts; the first that is missing is
/// reported. Every other field of the record gets its default.
pub fn from_hashmap(item: AttributeValueMap) -> (r: Result<EmailMessage, DeserializeError>)
    ensures
        match missing_field(item@) {
            Some(field) => r matches Err(DeserializeError::FieldMissing(name)) && name@ == field,
            None => r matches Ok(email) && email@ == record_of(item@),
        },
{
    let wrapper = DynamoItemWrapper::new(item);
    let email_id = match wrapper.s("EmailId", DeserializeError::missing_field("EmailId")) {
        Ok(text) => text,
        Err(error) => { return Err(error); },
    };
    let subject = match wrapper.s("Subject", DeserializeError::missing_field("Subject")) {
        Ok(text) => text,
        Err(error) => { return Err(error); },
    };
    let status = match wrapper.s("EmailStatus", DeserializeError::missing_field("EmailStatus")) {
        Ok(text) => EmailStatus::from(text.as_str()),
        Err(error) => { return Err(error); },
    };
    let mut email = EmailMessage::default();
    email.email_id = email_id;
    email.subject = subject;
    email.status = status;
    Ok(email)
}

impl EmailMessage {
    /// Reads the answer to a get request as a record: no item is
    /// `RecordNotFound`, an item that lacks a required attribute is
    /// `PropertyMissing` with the attribute's name.
    pub fn try_from(data: GetItemOutput) -> (r: Result<EmailMessage, GetError>)
        ensures
            read_view(r) == read_output(data),
    {
        let item = match data.item {
            Some(item) => item,
            None => { return Err(GetError::RecordNotFound); },
        };
        match from_hashmap(item) {
            Ok(email) => Ok(email),
            Err(error) => Err(GetError::from_deserialize(error)),
        }
    }
}

} // verus!

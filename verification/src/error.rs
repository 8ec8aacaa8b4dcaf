//! What can go wrong between the pipeline and its store, and how a batch
//! fails.

use vstd::prelude::*;
use vstd::std_specs::convert::FromSpecImpl;
use vstd::string::StringExecFns;

verus! {

/// The ways in which the record store refuses a get request.
#[derive(Debug, PartialEq, Eq)]
pub enum GetItemFault {
    InternalServerError(String),
    ProvisionedThroughputExceeded(String),
    RequestLimitExceeded(String),
    ResourceNotFound(String),
}

/// The ways in which the record store refuses an update request.
#[derive(Debug, PartialEq, Eq)]
pub enum UpdateItemFault {
    ConditionalCheckFailed(String),
    InternalServerError(String),
    ItemCollectionSizeLimitExceeded(String),
    ProvisionedThroughputExceeded(String),
    RequestLimitExceeded(String),
    ResourceNotFound(String),
    TransactionConflict(String),
}

/// A request that did not succeed: either the service answered with a fault
/// of its own, or the request failed on the way, and all that is left of it
/// is a description.
#[derive(Debug, PartialEq, Eq)]
pub enum RequestFailure<F> {
    Service(F),
    Other(String),
}

/// Possible errors from updating a record in the store.
#[derive(Debug, PartialEq, Eq)]
pub enum UpdateError {
    ConditionalCheckFailed(String),
    InternalServerError(String),
    ItemCollectionSizeLimitExceeded(String),
    ProvisionedThroughputExceeded(String),
    RequestLimitExceeded(String),
    ResourceNotFound(String),
    ServiceError(String),
    TransactionConflict(String),
}

/// Wraps `detail` in the name of an error kind: `name(detail)`.
pub open spec fn labelled(name: Seq<char>, detail: Seq<char>) -> Seq<char> {
    name + "("@ + detail + ")"@
}

fn label(name: &str, detail: &str) -> (r: String)
    ensures
        r@ == labelled(name@, detail@),
{
    name.to_owned().concat("(").concat(detail).concat(")")
}

impl UpdateError {
    /// The error that an update fault of the service becomes.
    pub open spec fn of_fault(fault: UpdateItemFault) -> UpdateError {
        match fault {
            UpdateItemFault::ConditionalCheckFailed(msg) => UpdateError::ConditionalCheckFailed(
                msg,
            ),
            UpdateItemFault::InternalServerError(msg) => UpdateError::InternalServerError(msg),
            UpdateItemFault::ItemCollectionSizeLimitExceeded(msg) => {
                UpdateError::ItemCollectionSizeLimitExceeded(msg)
            },
            UpdateItemFault::ProvisionedThroughputExceeded(msg) => {
                UpdateError::ProvisionedThroughputExceeded(msg)
            },
            UpdateItemFault::RequestLimitExceeded(msg) => UpdateError::RequestLimitExceeded(msg),
            UpdateItemFault::ResourceNotFound(msg) => UpdateError::ResourceNotFound(msg),
            UpdateItemFault::TransactionConflict(msg) => UpdateError::TransactionConflict(msg),
        }
    }

    /// The error that a failed update request becomes.
    pub open spec fn of_failure(failure: RequestFailure<UpdateItemFault>) -> UpdateError {
        match failure {
            RequestFailure::Service(fault) => UpdateError::of_fault(fault),
            RequestFailure::Other(description) => UpdateError::ServiceError(description),
        }
    }

    /// The line that reports the error.
    pub open spec fn text(self) -> Seq<char> {
        match self {
            UpdateError::ConditionalCheckFailed(msg) => labelled("ConditionalCheckFailed"@, msg@),
            UpdateError::InternalServerError(msg) => labelled("InternalServerError"@, msg@),
            UpdateError::ItemCollectionSizeLimitExceeded(msg) => labelled(
                "ItemCollectionSizeLimitExceeded"@,
                msg@,
            ),
            UpdateError::ProvisionedThroughputExceeded(msg) => labelled(
                "ProvisionedThroughputExceeded"@,
                msg@,
            ),
            UpdateError::RequestLimitExceeded(msg) => labelled("RequestLimitExceeded"@, msg@),
            UpdateError::ResourceNotFound(msg) => labelled("ResourceNotFound"@, msg@),
            UpdateError::ServiceError(msg) => labelled("RusotoError"@, msg@),
            UpdateError::TransactionConflict(msg) => labelled("TransactionConflict"@, msg@),
        }
    }

    /// Renders the error as one line.
    pub fn to_string(&self) -> (r: String)
        ensures
            r@ == self.text(),
    {
        match self {
            UpdateError::ConditionalCheckFailed(msg) => label(
                "ConditionalCheckFailed",
                msg.as_str(),
            ),
            UpdateError::InternalServerError(msg) => label("InternalServerError", msg.as_str()),
            UpdateError::ItemCollectionSizeLimitExceeded(msg) => label(
                "ItemCollectionSizeLimitExceeded",
                msg.as_str(),
            ),
            UpdateError::ProvisionedThroughputExceeded(msg) => label(
                "ProvisionedThroughputExceeded",
                msg.as_str(),
            ),
            UpdateError::RequestLimitExceeded(msg) => label("RequestLimitExceeded", msg.as_str()),
            UpdateError::ResourceNotFound(msg) => label("ResourceNotFound", msg.as_str()),
            UpdateError::ServiceError(msg) => label("RusotoError", msg.as_str()),
            UpdateError::TransactionConflict(msg) => label("TransactionConflict", msg.as_str()),
        }
    }
}

impl Clone for UpdateError {
    fn clone(&self) -> (r: Self)
        ensures
            r == *self,
    {
        match self {
            UpdateError::ConditionalCheckFailed(a) => UpdateError::ConditionalCheckFailed(a.clone()),
            UpdateError::InternalServerError(a) => UpdateError::InternalServerError(a.clone()),
            UpdateError::ItemCollectionSizeLimitExceeded(a) => UpdateError::ItemCollectionSizeLimitExceeded(a.clone()),
            UpdateError::ProvisionedThroughputExceeded(a) => UpdateError::ProvisionedThroughputExceeded(a.clone()),
            UpdateError::RequestLimitExceeded(a) => UpdateError::RequestLimitExceeded(a.clone()),
            UpdateError::ResourceNotFound(a) => UpdateError::ResourceNotFound(a.clone()),
            UpdateError::ServiceError(a) => UpdateError::ServiceError(a.clone()),
            UpdateError::TransactionConflict(a) => UpdateError::TransactionConflict(a.clone()),
        }
    }
}

impl From<UpdateItemFault> for UpdateError {
    fn from(error: UpdateItemFault) -> (r: Self) {
        match error {
            UpdateItemFault::ConditionalCheckFailed(msg) => UpdateError::ConditionalCheckFailed(
                msg,
            ),
            UpdateItemFault::InternalServerError(msg) => UpdateError::InternalServerError(msg),
            UpdateItemFault::ItemCollectionSizeLimitExceeded(msg) => {
                UpdateError::ItemCollectionSizeLimitExceeded(msg)
            },
            UpdateItemFault::ProvisionedThroughputExceeded(msg) => {
                UpdateError::ProvisionedThroughputExceeded(msg)
            },
            UpdateItemFault::RequestLimitExceeded(msg) => UpdateError::RequestLimitExceeded(msg),
            UpdateItemFault::ResourceNotFound(msg) => UpdateError::ResourceNotFound(msg),
            UpdateItemFault::TransactionConflict(msg) => UpdateError::TransactionConflict(msg),
        }
    }
}

impl FromSpecImpl<UpdateItemFault> for UpdateError {
    open spec fn obeys_from_spec() -> bool {
        true
    }

    open spec fn from_spec(error: UpdateItemFault) -> Self {
        UpdateError::of_fault(error)
    }
}

impl From<RequestFailure<UpdateItemFault>> for UpdateError {
    fn from(error: RequestFailure<UpdateItemFault>) -> (r: Self) {
        match error {
            RequestFailure::Service(service_error) => UpdateError::from(service_error),
            RequestFailure::Other(description) => UpdateError::ServiceError(description),
        }
    }
}

impl FromSpecImpl<RequestFailure<UpdateItemFault>> for UpdateError {
    open spec fn obeys_from_spec() -> bool {
        true
    }

    open spec fn from_spec(error: RequestFailure<UpdateItemFault>) -> Self {
        UpdateError::of_failure(error)
    }
}

/// One decimal digit as text.
pub open spec fn digit_text(d: nat) -> Seq<char> {
    if d == 0 {
        "0"@
    } else if d == 1 {
        "1"@
    } else if d == 2 {
        "2"@
    } else if d == 3 {
        "3"@
    } else if d == 4 {
        "4"@
    } else if d == 5 {
        "5"@
    } else if d == 6 {
        "6"@
    } else if d == 7 {
        "7"@
    } else if d == 8 {
        "8"@
    } else {
        "9"@
    }
}

/// A number in decimal, most significant digit first, without padding.
pub open spec fn decimal_text(n: nat) -> Seq<char>
    decreases n,
{
    if n < 10 {
        digit_text(n)
    } else {
        decimal_text(n / 10) + digit_text(n % 10)
    }
}

fn digit(d: usize) -> (r: &'static str)
    requires
        d < 10,
    ensures
        r@ == digit_text(d as nat),
{
    if d == 0 {
        "0"
    } else if d == 1 {
        "1"
    } else if d == 2 {
        "2"
    } else if d == 3 {
        "3"
    } else if d == 4 {
        "4"
    } else if d == 5 {
        "5"
    } else if d == 6 {
        "6"
    } else if d == 7 {
        "7"
    } else if d == 8 {
        "8"
    } else {
        "9"
    }
}

fn decimal(n: usize) -> (r: String)
    ensures
        r@ == decimal_text(n as nat),
    decreases n,
{
    if n < 10 {
        digit(n).to_owned()
    } else {
        decimal(n / 10).concat(digit(n % 10))
    }
}

/// What can go wrong while a stored item is read into a record.
#[derive(Debug, PartialEq, Eq)]
pub enum DeserializeError {
    Custom(String),
    FieldDuplicated(String),
    FieldMissing(String),
    Parse(String),
    InvalidLength(usize, String),
    InvalidType { expected: String, unexpected: String },
    InvalidValue { expected: String, unexpected: String },
    UnknownField(String),
}

impl DeserializeError {
    /// The line that reports the error.
    pub open spec fn text(self) -> Seq<char> {
        match self {
            DeserializeError::Custom(msg) => labelled("Custom"@, msg@),
            DeserializeError::FieldDuplicated(field) => labelled("FieldDuplicated"@, field@),
            DeserializeError::FieldMissing(field) => labelled("FieldMissing"@, field@),
            DeserializeError::Parse(msg) => labelled("Parse"@, msg@),
            DeserializeError::InvalidLength(len, expected) => labelled(
                "InvalidLength"@,
                decimal_text(len as nat) + ", "@ + expected@,
            ),
            DeserializeError::InvalidType { expected, unexpected } => labelled(
                "InvalidType"@,
                expected@ + ", "@ + unexpected@,
            ),
            DeserializeError::InvalidValue { expected, unexpected } => labelled(
                "InvalidValue"@,
                expected@ + ", "@ + unexpected@,
            ),
            DeserializeError::UnknownField(field) => labelled("UnknownField"@, field@),
        }
    }

    /// Renders the error as one line.
    pub fn to_string(&self) -> (r: String)
        ensures
            r@ == self.text(),
    {
        match self {
            DeserializeError::Custom(msg) => label("Custom", msg.as_str()),
            DeserializeError::FieldDuplicated(field) => label("FieldDuplicated", field.as_str()),
            DeserializeError::FieldMissing(field) => label("FieldMissing", field.as_str()),
            DeserializeError::Parse(msg) => label("Parse", msg.as_str()),
            DeserializeError::InvalidLength(len, expected) => {
                let detail = decimal(*len).concat(", ").concat(expected.as_str());
                label("InvalidLength", detail.as_str())
            },
            DeserializeError::InvalidType { expected, unexpected } => {
                let detail = expected.clone().concat(", ").concat(unexpected.as_str());
                label("InvalidType", detail.as_str())
            },
            DeserializeError::InvalidValue { expected, unexpected } => {
                let detail = expected.clone().concat(", ").concat(unexpected.as_str());
                label("InvalidValue", detail.as_str())
            },
            DeserializeError::UnknownField(field) => label("UnknownField", field.as_str()),
        }
    }

    /// An error with a free-form message.
    pub fn custom(msg: &str) -> (r: Self)
        ensures
            r matches DeserializeError::Custom(m) && m@ == msg@,
    {
        DeserializeError::Custom(msg.to_owned())
    }

    /// A field occurred twice.
    pub fn duplicate_field(field: &str) -> (r: Self)
        ensures
            r matches DeserializeError::FieldDuplicated(f) && f@ == field@,
    {
        DeserializeError::FieldDuplicated(field.to_owned())
    }

    /// A list had `len` items where `expected` describes what was asked for.
    pub fn invalid_length(len: usize, expected: &str) -> (r: Self)
        ensures
            r matches DeserializeError::InvalidLength(l, e) && l == len && e@ == expected@,
    {
        DeserializeError::InvalidLength(len, expected.to_owned())
    }

    /// A value had another type than the expected one.
    pub fn invalid_type(unexpected: &str, expected: &str) -> (r: Self)
        ensures
            r matches DeserializeError::InvalidType { expected: e, unexpected: u } && e@
                == expected@ && u@ == unexpected@,
    {
        DeserializeError::InvalidType {
            expected: expected.to_owned(),
            unexpected: unexpected.to_owned(),
        }
    }

    /// A value of the right type was not an acceptable one.
    pub fn invalid_value(unexpected: &str, expected: &str) -> (r: Self)
        ensures
            r matches DeserializeError::InvalidValue { expected: e, unexpected: u } && e@
                == expected@ && u@ == unexpected@,
    {
        DeserializeError::InvalidValue {
            expected: expected.to_owned(),
            unexpected: unexpected.to_owned(),
        }
    }

    /// A required field was absent.
    pub fn missing_field(field: &str) -> (r: Self)
        ensures
            r matches DeserializeError::FieldMissing(f) && f@ == field@,
    {
        DeserializeError::FieldMissing(field.to_owned())
    }

    /// A field was present that the record does not have.
    pub fn unknown_field(field: &str) -> (r: Self)
        ensures
            r matches DeserializeError::UnknownField(f) && f@ == field@,
    {
        DeserializeError::UnknownField(field.to_owned())
    }
}

impl Clone for DeserializeError {
    fn clone(&self) -> (r: Self)
        ensures
            r == *self,
    {
        match self {
            DeserializeError::Custom(a) => DeserializeError::Custom(a.clone()),
            DeserializeError::FieldDuplicated(a) => DeserializeError::FieldDuplicated(a.clone()),
            DeserializeError::FieldMissing(a) => DeserializeError::FieldMissing(a.clone()),
            DeserializeError::Parse(a) => DeserializeError::Parse(a.clone()),
            DeserializeError::InvalidLength(len, a) => DeserializeError::InvalidLength(
                *len,
                a.clone(),
            ),
            DeserializeError::InvalidType { expected, unexpected } => DeserializeError::InvalidType {
                expected: expected.clone(),
                unexpected: unexpected.clone(),
            },
            DeserializeError::InvalidValue { expected, unexpected } => {
                DeserializeError::InvalidValue {
                    expected: expected.clone(),
                    unexpected: unexpected.clone(),
                }
            },
            DeserializeError::UnknownField(a) => DeserializeError::UnknownField(a.clone()),
        }
    }
}

/// Possible errors while retrieving a record from the store.
#[derive(Debug, PartialEq, Eq)]
pub enum GetError {
    InternalServerError(String),
    ParseError(String),
    PropertyMissing(String),
    ProvisionedThroughputExceeded(String),
    RecordNotFound,
    RequestLimitExceeded(String),
    ResourceNotFound(String),
    ServiceError(String),
}

/// A `GetError` as plain values.
pub enum GetErrorView {
    InternalServerError(Seq<char>),
    ParseError(Seq<char>),
    PropertyMissing(Seq<char>),
    ProvisionedThroughputExceeded(Seq<char>),
    RecordNotFound,
    RequestLimitExceeded(Seq<char>),
    ResourceNotFound(Seq<char>),
    ServiceError(Seq<char>),
}

impl View for GetError {
    type V = GetErrorView;

    open spec fn view(&self) -> GetErrorView {
        match self {
            GetError::InternalServerError(msg) => GetErrorView::InternalServerError(msg@),
            GetError::ParseError(msg) => GetErrorView::ParseError(msg@),
            GetError::PropertyMissing(field) => GetErrorView::PropertyMissing(field@),
            GetError::ProvisionedThroughputExceeded(msg) => {
                GetErrorView::ProvisionedThroughputExceeded(msg@)
            },
            GetError::RecordNotFound => GetErrorView::RecordNotFound,
            GetError::RequestLimitExceeded(msg) => GetErrorView::RequestLimitExceeded(msg@),
            GetError::ResourceNotFound(msg) => GetErrorView::ResourceNotFound(msg@),
            GetError::ServiceError(msg) => GetErrorView::ServiceError(msg@),
        }
    }
}

impl GetError {
    /// The error that a get fault of the service becomes.
    pub open spec fn of_fault(fault: GetItemFault) -> GetError {
        match fault {
            GetItemFault::InternalServerError(msg) => GetError::InternalServerError(msg),
            GetItemFault::ProvisionedThroughputExceeded(msg) => {
                GetError::ProvisionedThroughputExceeded(msg)
            },
            GetItemFault::RequestLimitExceeded(msg) => GetError::RequestLimitExceeded(msg),
            GetItemFault::ResourceNotFound(msg) => GetError::ResourceNotFound(msg),
        }
    }

    /// The error that a failed get request becomes.
    pub open spec fn of_failure(failure: RequestFailure<GetItemFault>) -> GetError {
        match failure {
            RequestFailure::Service(fault) => GetError::of_fault(fault),
            RequestFailure::Other(description) => GetError::ServiceError(description),
        }
    }

    /// The error that a failure to read a stored item becomes: a missing
    /// field keeps its name, anything else is reported by its text.
    pub open spec fn of_deserialize(error: DeserializeError) -> GetErrorView {
        match error {
            DeserializeError::FieldMissing(field) => GetErrorView::PropertyMissing(field@),
            _ => GetErrorView::ParseError(error.text()),
        }
    }

    /// The line that reports the error.
    pub open spec fn text(self) -> Seq<char> {
        match self {
            GetError::InternalServerError(msg) => labelled("InternalServerError"@, msg@),
            GetError::ParseError(msg) => labelled("ParseError"@, msg@),
            GetError::PropertyMissing(field) => labelled("PropertyMissiong"@, field@),
            GetError::ProvisionedThroughputExceeded(msg) => labelled(
                "ProvisionedThroughputExceeded"@,
                msg@,
            ),
            GetError::RecordNotFound => "RecordNotFound"@,
            GetError::RequestLimitExceeded(msg) => labelled("RequestLimitExceeded"@, msg@),
            GetError::ResourceNotFound(msg) => labelled("ResourceNotFound"@, msg@),
            GetError::ServiceError(msg) => labelled("RusotoError"@, msg@),
        }
    }

    /// Renders the error as one line.
    pub fn to_string(&self) -> (r: String)
        ensures
            r@ == self.text(),
    {
        match self {
            GetError::InternalServerError(msg) => label("InternalServerError", msg.as_str()),
            GetError::ParseError(msg) => label("ParseError", msg.as_str()),
            GetError::PropertyMissing(field) => label("PropertyMissiong", field.as_str()),
            GetError::ProvisionedThroughputExceeded(msg) => label(
                "ProvisionedThroughputExceeded",
                msg.as_str(),
            ),
            GetError::RecordNotFound => "RecordNotFound".to_owned(),
            GetError::RequestLimitExceeded(msg) => label("RequestLimitExceeded", msg.as_str()),
            GetError::ResourceNotFound(msg) => label("ResourceNotFound", msg.as_str()),
            GetError::ServiceError(msg) => label("RusotoError", msg.as_str()),
        }
    }

    /// Maps a failure to read a stored item.
    pub fn from_deserialize(error: DeserializeError) -> (r: Self)
        ensures
            r@ == GetError::of_deserialize(error),
    {
        match error {
            DeserializeError::FieldMissing(field) => GetError::PropertyMissing(field),
            other => GetError::ParseError(other.to_string()),
        }
    }
}

impl Clone for GetError {
    fn clone(&self) -> (r: Self)
        ensures
            r == *self,
    {
        match self {
            GetError::InternalServerError(a) => GetError::InternalServerError(a.clone()),
            GetError::ParseError(a) => GetError::ParseError(a.clone()),
            GetError::PropertyMissing(a) => GetError::PropertyMissing(a.clone()),
            GetError::ProvisionedThroughputExceeded(a) => GetError::ProvisionedThroughputExceeded(a.clone()),
            GetError::RecordNotFound => GetError::RecordNotFound,
            GetError::RequestLimitExceeded(a) => GetError::RequestLimitExceeded(a.clone()),
            GetError::ResourceNotFound(a) => GetError::ResourceNotFound(a.clone()),
            GetError::ServiceError(a) => GetError::ServiceError(a.clone()),
        }
    }
}

impl From<GetItemFault> for GetError {
    fn from(error: GetItemFault) -> (r: Self) {
        match error {
            GetItemFault::InternalServerError(msg) => GetError::InternalServerError(msg),
            GetItemFault::ProvisionedThroughputExceeded(msg) => {
                GetError::ProvisionedThroughputExceeded(msg)
            },
            GetItemFault::RequestLimitExceeded(msg) => GetError::RequestLimitExceeded(msg),
            GetItemFault::ResourceNotFound(msg) => GetError::ResourceNotFound(msg),
        }
    }
}

impl FromSpecImpl<GetItemFault> for GetError {
    open spec fn obeys_from_spec() -> bool {
        true
    }

    open spec fn from_spec(error: GetItemFault) -> Self {
        GetError::of_fault(error)
    }
}

impl From<RequestFailure<GetItemFault>> for GetError {
    fn from(error: RequestFailure<GetItemFault>) -> (r: Self) {
        match error {
            RequestFailure::Service(service_error) => GetError::from(service_error),
            RequestFailure::Other(description) => GetError::ServiceError(description),
        }
    }
}

impl FromSpecImpl<RequestFailure<GetItemFault>> for GetError {
    open spec fn obeys_from_spec() -> bool {
        true
    }

    open spec fn from_spec(error: RequestFailure<GetItemFault>) -> Self {
        GetError::of_failure(error)
    }
}

/// How a batch ended when it did not end well.
#[derive(Clone, Copy, Debug, PartialEq, Eq, Structural)]
pub enum EmailHandlerError {
    /// The configuration could not be read.
    InitializationFailure,
    /// No entry of the batch may be removed from the queue.
    BatchFailure,
    /// Some entries of the batch, not all, may be removed from the queue.
    PartialBatchFailure,
    /// The request to remove entries from the queue failed.
    SqsDeleteFailed,
}

impl EmailHandlerError {
    /// The name of the condition.
    pub open spec fn text(self) -> Seq<char> {
        match self {
            EmailHandlerError::InitializationFailure => "InitializationFailure"@,
            EmailHandlerError::BatchFailure => "BatchFailure"@,
            EmailHandlerError::PartialBatchFailure => "PartialBatchFailure"@,
            EmailHandlerError::SqsDeleteFailed => "SqsDeleteFailed"@,
        }
    }

    /// Renders the name of the condition.
    pub fn to_string(&self) -> (r: String)
        ensures
            r@ == self.text(),
    {
        match self {
            EmailHandlerError::InitializationFailure => "InitializationFailure".to_owned(),
            EmailHandlerError::BatchFailure => "BatchFailure".to_owned(),
            EmailHandlerError::PartialBatchFailure => "PartialBatchFailure".to_owned(),
            EmailHandlerError::SqsDeleteFailed => "SqsDeleteFailed".to_owned(),
        }
    }
}

impl Default for EmailHandlerError {
    fn default() -> (r: Self)
        ensures
            r == EmailHandlerError::BatchFailure,
    {
        EmailHandlerError::BatchFailure
    }
}

impl From<GetError> for EmailHandlerError {
    fn from(_value: GetError) -> (r: Self) {
        EmailHandlerError::PartialBatchFailure
    }
}

impl FromSpecImpl<GetError> for EmailHandlerError {
    open spec fn obeys_from_spec() -> bool {
        true
    }

    open spec fn from_spec(_value: GetError) -> Self {
        EmailHandlerError::PartialBatchFailure
    }
}

} // verus!

//! The email record and its delivery status.

use vstd::prelude::*;
use vstd::std_specs::convert::FromSpecImpl;
use vstd::string::StringExecFns;

verus! {

/// An address to which a message will be sent.
pub type Recipient = String;

/// Last known delivery state of a stored email.
///
/// `Unknown` stands for every stored text that names no other state. No
/// transition of the pipeline ever writes it.
#[derive(Clone, Copy, Debug, PartialEq, Eq, Structural)]
pub enum EmailStatus {
    Pending,
    Sending,
    Sent,
    Unknown,
}

impl EmailStatus {
    /// The text under which a status is stored.
    pub open spec fn text(self) -> Seq<char> {
        match self {
            EmailStatus::Pending => "Pending"@,
            EmailStatus::Sending => "Sending"@,
            EmailStatus::Sent => "Sent"@,
            EmailStatus::Unknown => "Unknown"@,
        }
    }

    /// The status that a stored text names.
    pub open spec fn parse(text: Seq<char>) -> EmailStatus {
        if text == "Pending"@ {
            EmailStatus::Pending
        } else if text == "Sending"@ {
            EmailStatus::Sending
        } else if text == "Sent"@ {
            EmailStatus::Sent
        } else {
            EmailStatus::Unknown
        }
    }

    /// Renders the status as it is stored.
    pub fn to_string(&self) -> (r: String)
        ensures
            r@ == self.text(),
    {
        match self {
            EmailStatus::Pending => "Pending".to_owned(),
            EmailStatus::Sending => "Sending".to_owned(),
            EmailStatus::Sent => "Sent".to_owned(),
            EmailStatus::Unknown => "Unknown".to_owned(),
        }
    }

    /// A status survives being written and read back.
    pub proof fn lemma_parse_text(status: EmailStatus)
        ensures
            EmailStatus::parse(status.text()) == status,
    {
        reveal_strlit("Pending");
        reveal_strlit("Sending");
        reveal_strlit("Sent");
        reveal_strlit("Unknown");
        assert("Pending"@[0] != "Sending"@[0]);
        assert("Pending"@[0] != "Unknown"@[0]);
        assert("Sending"@[0] != "Unknown"@[0]);
        assert("Sent"@.len() != "Pending"@.len());
        assert("Sent"@.len() != "Sending"@.len());
        assert("Sent"@.len() != "Unknown"@.len());
    }
}

impl Default for EmailStatus {
    fn default() -> (r: Self)
        ensures
            r == EmailStatus::Pending,
    {
        EmailStatus::Pending
    }
}

impl<'a> From<&'a str> for EmailStatus {
    fn from(status: &'a str) -> (r: Self) {
        let text = status.to_owned();
        if text == "Pending".to_owned() {
            EmailStatus::Pending
        } else if text == "Sending".to_owned() {
            EmailStatus::Sending
        } else if text == "Sent".to_owned() {
            EmailStatus::Sent
        } else {
            EmailStatus::Unknown
        }
    }
}

impl<'a> FromSpecImpl<&'a str> for EmailStatus {
    open spec fn obeys_from_spec() -> bool {
        true
    }

    open spec fn from_spec(status: &'a str) -> Self {
        EmailStatus::parse(status@)
    }
}

/// An attachment to an `EmailMessage`.
#[derive(Debug, PartialEq, Eq)]
pub struct EmailMessageAttachment {
    /// base64 encoded contents of the attachment.
    body: String,
    /// File name of the attached `body`.
    name: String,
    /// MIME type of the `body`.
    content_type: String,
    /// Byte size of the `body`.
    size: i32,
    /// Etag of the file that was retrieved and included as `body`.
    e_tag: String,
    /// Last modified date of the file that was retrieved and included as `body`.
    last_modified: String,
}

/// What an attachment holds, as plain values.
pub struct EmailMessageAttachmentView {
    pub body: Seq<char>,
    pub name: Seq<char>,
    pub content_type: Seq<char>,
    pub size: i32,
    pub e_tag: Seq<char>,
    pub last_modified: Seq<char>,
}

impl View for EmailMessageAttachment {
    type V = EmailMessageAttachmentView;

    closed spec fn view(&self) -> EmailMessageAttachmentView {
        EmailMessageAttachmentView {
            body: self.body@,
            name: self.name@,
            content_type: self.content_type@,
            size: self.size,
            e_tag: self.e_tag@,
            last_modified: self.last_modified@,
        }
    }
}

impl DeepView for EmailMessageAttachment {
    type V = EmailMessageAttachmentView;

    open spec fn deep_view(&self) -> EmailMessageAttachmentView {
        self@
    }
}

impl EmailMessageAttachmentView {
    /// The attachment with nothing in it.
    pub open spec fn empty() -> EmailMessageAttachmentView {
        EmailMessageAttachmentView {
            body: Seq::empty(),
            name: Seq::empty(),
            content_type: Seq::empty(),
            size: 0,
            e_tag: Seq::empty(),
            last_modified: Seq::empty(),
        }
    }
}

impl Default for EmailMessageAttachment {
    fn default() -> (r: Self)
        ensures
            r@ == EmailMessageAttachmentView::empty(),
    {
        EmailMessageAttachment {
            body: String::new(),
            name: String::new(),
            content_type: String::new(),
            size: 0,
            e_tag: String::new(),
            last_modified: String::new(),
        }
    }
}

impl Clone for EmailMessageAttachment {
    fn clone(&self) -> (r: Self)
        ensures
            r == *self,
    {
        EmailMessageAttachment {
            body: self.body.clone(),
            name: self.name.clone(),
            content_type: self.content_type.clone(),
            size: self.size,
            e_tag: self.e_tag.clone(),
            last_modified: self.last_modified.clone(),
        }
    }
}

/// Data to be sent as an email through a delivery service.
#[derive(Debug, PartialEq, Eq)]
pub struct EmailMessage {
    /// Attachments to include with the email.
    pub attachments: Vec<EmailMessageAttachment>,
    /// The HTML email body.
    pub body_html: String,
    /// The TXT email body.
    pub body_text: String,
    /// Identifier of the email.
    pub email_id: String,
    /// Provider through which the email was sent.
    pub provider: String,
    /// Response from the provider after sending the message successfully.
    pub provider_response: Option<String>,
    /// List of `Recipient` to BCC.
    pub recipients_bcc: Vec<Recipient>,
    /// List of `Recipient` to CC.
    pub recipients_cc: Vec<Recipient>,
    /// List of `Recipient` in TO.
    pub recipients_to: Vec<Recipient>,
    /// The FROM address.
    pub sender: Recipient,
    /// DateTime of first successful email send.
    pub sent_at: Option<String>,
    /// Last known state of the message.
    pub status: EmailStatus,
    /// SUBJECT of the email.
    pub subject: String,
    /// DateTime indicating the last time this record was updated.
    pub updated_at: String,
}

/// What an email record holds, as plain values.
pub struct EmailMessageView {
    pub attachments: Seq<EmailMessageAttachmentView>,
    pub body_html: Seq<char>,
    pub body_text: Seq<char>,
    pub email_id: Seq<char>,
    pub provider: Seq<char>,
    pub provider_response: Option<Seq<char>>,
    pub recipients_bcc: Seq<Seq<char>>,
    pub recipients_cc: Seq<Seq<char>>,
    pub recipients_to: Seq<Seq<char>>,
    pub sender: Seq<char>,
    pub sent_at: Option<Seq<char>>,
    pub status: EmailStatus,
    pub subject: Seq<char>,
    pub updated_at: Seq<char>,
}

impl View for EmailMessage {
    type V = EmailMessageView;

    open spec fn view(&self) -> EmailMessageView {
        EmailMessageView {
            attachments: self.attachments.deep_view(),
            body_html: self.body_html@,
            body_text: self.body_text@,
            email_id: self.email_id@,
            provider: self.provider@,
            provider_response: self.provider_response.deep_view(),
            recipients_bcc: self.recipients_bcc.deep_view(),
            recipients_cc: self.recipients_cc.deep_view(),
            recipients_to: self.recipients_to.deep_view(),
            sender: self.sender@,
            sent_at: self.sent_at.deep_view(),
            status: self.status,
            subject: self.subject@,
            updated_at: self.updated_at@,
        }
    }
}

impl EmailMessageView {
    /// The record in which every field has the default of its type: empty
    /// texts and lists, nothing optional, status `Pending`.
    pub open spec fn empty() -> EmailMessageView {
        EmailMessageView {
            attachments: Seq::empty(),
            body_html: Seq::empty(),
            body_text: Seq::empty(),
            email_id: Seq::empty(),
            provider: Seq::empty(),
            provider_response: None,
            recipients_bcc: Seq::empty(),
            recipients_cc: Seq::empty(),
            recipients_to: Seq::empty(),
            sender: Seq::empty(),
            sent_at: None,
            status: EmailStatus::Pending,
            subject: Seq::empty(),
            updated_at: Seq::empty(),
        }
    }
}

impl Default for EmailMessage {
    fn default() -> (r: Self)
        ensures
            r@ == EmailMessageView::empty(),
    {
        let r = EmailMessage {
            attachments: Vec::new(),
            body_html: String::new(),
            body_text: String::new(),
            email_id: String::new(),
            provider: String::new(),
            provider_response: None,
            recipients_bcc: Vec::new(),
            recipients_cc: Vec::new(),
            recipients_to: Vec::new(),
            sender: String::new(),
            sent_at: None,
            status: EmailStatus::Pending,
            subject: String::new(),
            updated_at: String::new(),
        };
        assert(r@.attachments =~= Seq::empty());
        assert(r@.recipients_bcc =~= Seq::empty());
        assert(r@.recipients_cc =~= Seq::empty());
        assert(r@.recipients_to =~= Seq::empty());
        r
    }
}

impl Clone for EmailMessage {
    fn clone(&self) -> (r: Self)
        ensures
            r@ == self@,
    {
        let r = EmailMessage {
            attachments: self.attachments.clone(),
            body_html: self.body_html.clone(),
            body_text: self.body_text.clone(),
            email_id: self.email_id.clone(),
            provider: self.provider.clone(),
            provider_response: self.provider_response.clone(),
            recipients_bcc: self.recipients_bcc.clone(),
            recipients_cc: self.recipients_cc.clone(),
            recipients_to: self.recipients_to.clone(),
            sender: self.sender.clone(),
            sent_at: self.sent_at.clone(),
            status: self.status,
            subject: self.subject.clone(),
            updated_at: self.updated_at.clone(),
        };
        assert(r@.attachments =~= self@.attachments);
        assert(r@.recipients_bcc =~= self@.recipients_bcc);
        assert(r@.recipients_cc =~= self@.recipients_cc);
        assert(r@.recipients_to =~= self@.recipients_to);
        r
    }
}

/// Why a stored record could not be read.
#[derive(Debug, PartialEq, Eq)]
pub enum ParseEmailMessageCode {
    /// The specified record did not exist.
    RecordNotFound,
    /// The record was missing a field.
    RecordMissingField(String),
    /// The service could not be reached to retrieve a record.
    RecordUnreachable,
}

impl ParseEmailMessageCode {
    /// The sentence that reports the code.
    pub open spec fn text(self) -> Seq<char> {
        match self {
            ParseEmailMessageCode::RecordNotFound => "The specified record did not exist."@,
            ParseEmailMessageCode::RecordMissingField(field) => "The record was missing the `"@
                + field@ + "` attribute."@,
            ParseEmailMessageCode::RecordUnreachable =>
                "An error occurred attempting to access the record."@,
        }
    }

    /// Whether trying again later can succeed without anybody mending the
    /// record: only an unreachable store is such a condition.
    pub open spec fn retryable(self) -> bool {
        self is RecordUnreachable
    }

    /// Renders the code as a sentence.
    pub fn to_string(&self) -> (r: String)
        ensures
            r@ == self.text(),
    {
        match self {
            ParseEmailMessageCode::RecordNotFound => "The specified record did not exist.".to_owned(),
            ParseEmailMessageCode::RecordMissingField(field) => {
                "The record was missing the `".to_owned().concat(field.as_str()).concat(
                    "` attribute.",
                )
            },
            ParseEmailMessageCode::RecordUnreachable => {
                "An error occurred attempting to access the record.".to_owned()
            },
        }
    }

    /// Decides whether trying again later can succeed.
    pub fn is_retryable(&self) -> (r: bool)
        ensures
            r == self.retryable(),
    {
        match self {
            ParseEmailMessageCode::RecordUnreachable => true,
            _ => false,
        }
    }
}

impl Clone for ParseEmailMessageCode {
    fn clone(&self) -> (r: Self)
        ensures
            r == *self,
    {
        match self {
            ParseEmailMessageCode::RecordNotFound => ParseEmailMessageCode::RecordNotFound,
            ParseEmailMessageCode::RecordMissingField(field) => {
                ParseEmailMessageCode::RecordMissingField(field.clone())
            },
            ParseEmailMessageCode::RecordUnreachable => ParseEmailMessageCode::RecordUnreachable,
        }
    }
}

impl From<ParseEmailMessageCode> for String {
    fn from(code: ParseEmailMessageCode) -> (r: String)
        ensures
            r@ == code.text(),
    {
        code.to_string()
    }
}

impl FromSpecImpl<ParseEmailMessageCode> for String {
    open spec fn obeys_from_spec() -> bool {
        false
    }

    open spec fn from_spec(code: ParseEmailMessageCode) -> String {
        choose|sentence: String| sentence@ == code.text()
    }
}

} // verus!

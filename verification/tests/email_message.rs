use email_shared::{EmailMessage, EmailMessageAttachment, EmailStatus, ParseEmailMessageCode};

#[test]
fn changes_code_to_string() {
    let output = String::from(ParseEmailMessageCode::RecordUnreachable);
    assert_eq!(output, "An error occurred attempting to access the record.");
}

#[test]
fn code_texts() {
    assert_eq!(
        ParseEmailMessageCode::RecordNotFound.to_string(),
        "The specified record did not exist."
    );
    assert_eq!(
        ParseEmailMessageCode::RecordMissingField("Subject".into()).to_string(),
        "The record was missing the `Subject` attribute."
    );
    assert_eq!(
        String::from(ParseEmailMessageCode::RecordMissingField("".into())),
        "The record was missing the `` attribute."
    );
}

#[test]
fn only_an_unreachable_store_is_worth_another_try() {
    assert!(ParseEmailMessageCode::RecordUnreachable.is_retryable());
    assert!(!ParseEmailMessageCode::RecordNotFound.is_retryable());
    assert!(!ParseEmailMessageCode::RecordMissingField("Subject".into()).is_retryable());
}

#[test]
fn status_reads_back_what_it_writes() {
    let all = [
        EmailStatus::Pending,
        EmailStatus::Sending,
        EmailStatus::Sent,
        EmailStatus::Unknown,
    ];
    for status in all {
        assert_eq!(EmailStatus::from(status.to_string().as_str()), status);
    }
    assert_eq!(EmailStatus::Pending.to_string(), "Pending");
    assert_eq!(EmailStatus::Sending.to_string(), "Sending");
    assert_eq!(EmailStatus::Sent.to_string(), "Sent");
    assert_eq!(EmailStatus::Unknown.to_string(), "Unknown");
}

#[test]
fn status_of_any_other_text_is_unknown() {
    for text in ["", "pending", "SENT", "Sent ", "Delivered", "Pendin"] {
        assert_eq!(EmailStatus::from(text), EmailStatus::Unknown);
    }
}

#[test]
fn default_status_is_pending() {
    assert_eq!(EmailStatus::default(), EmailStatus::Pending);
}

#[test]
fn default_record_is_empty_and_pending() {
    let email = EmailMessage::default();
    assert!(email.attachments.is_empty());
    assert_eq!(email.body_html, "");
    assert_eq!(email.body_text, "");
    assert_eq!(email.email_id, "");
    assert_eq!(email.provider, "");
    assert_eq!(email.provider_response, None);
    assert!(email.recipients_bcc.is_empty());
    assert!(email.recipients_cc.is_empty());
    assert!(email.recipients_to.is_empty());
    assert_eq!(email.sender, "");
    assert_eq!(email.sent_at, None);
    assert_eq!(email.status, EmailStatus::Pending);
    assert_eq!(email.subject, "");
    assert_eq!(email.updated_at, "");
}

#[test]
fn clone_of_a_record_is_equal_to_it() {
    let email = EmailMessage {
        attachments: vec![EmailMessageAttachment::default()],
        email_id: "e1".into(),
        recipients_to: vec!["a@example.com".into(), "b@example.com".into()],
        sent_at: Some("yesterday".into()),
        status: EmailStatus::Sent,
        ..EmailMessage::default()
    };
    assert_eq!(email.clone(), email);
    assert_eq!(
        EmailMessageAttachment::default().clone(),
        EmailMessageAttachment::default()
    );
}

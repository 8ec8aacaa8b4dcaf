use email_shared::{
    from_hashmap, get_email_input, get_email_message, set_email_status, set_email_status_input,
    AttributeValue, AttributeValueMap, DeserializeError, EmailMessage, EmailPointer,
    EmailPointerMessage, EmailStatus, FromTo, GetError, GetItemFault, GetItemOutput, MessageBody,
    RawMessage, RequestFailure, UpdateError, UpdateItemFault,
};

fn text(value: &str) -> AttributeValue {
    AttributeValue {
        s: Some(value.into()),
        ..AttributeValue::default()
    }
}

fn pointer(email_id: &str) -> EmailPointerMessage {
    EmailPointerMessage::try_from(RawMessage {
        message_id: Some("m-1".into()),
        receipt_handle: Some("h-1".into()),
        body: Some(MessageBody::Pointer(EmailPointer {
            email_id: email_id.into(),
        })),
    })
    .unwrap()
}

#[test]
fn dynamo_fails_on_empty_result() {
    let output = GetItemOutput { item: None };
    match EmailMessage::try_from(output) {
        Ok(_) => panic!("Should not have parsed."),
        Err(code) => assert_eq!(code, GetError::RecordNotFound),
    };
}

#[test]
fn dynamo_fails_missing_id() {
    let attrs = AttributeValueMap::new();
    let item = Some(attrs);
    let output = GetItemOutput { item };
    match EmailMessage::try_from(output) {
        Ok(_) => panic!("Should not have parsed."),
        Err(code) => assert_eq!(code, GetError::PropertyMissing("EmailId".into())),
    };
}

#[test]
fn dynamo_fails_missing_subject() {
    let mut attrs = AttributeValueMap::new();
    attrs.insert(
        "EmailId".into(),
        AttributeValue {
            s: Some("foo".into()),
            ..AttributeValue::default()
        },
    );
    attrs.insert(
        "EmailStatus".into(),
        AttributeValue {
            s: Some("Pending".into()),
            ..AttributeValue::default()
        },
    );
    let item = Some(attrs);
    let output = GetItemOutput { item };
    match EmailMessage::try_from(output) {
        Ok(_) => panic!("Should not have parsed."),
        Err(code) => assert_eq!(code, GetError::PropertyMissing("Subject".into())),
    };
}

#[test]
fn dynamo_fails_missing_status() {
    let mut attrs = AttributeValueMap::new();
    attrs.insert(
        "EmailId".into(),
        AttributeValue {
            s: Some("Test EmailId".into()),
            ..AttributeValue::default()
        },
    );
    attrs.insert(
        "Subject".into(),
        AttributeValue {
            s: Some("Test Subject".into()),
            ..AttributeValue::default()
        },
    );
    let item = Some(attrs);
    let output = GetItemOutput { item };
    match EmailMessage::try_from(output) {
        Ok(_) => panic!("Should not have parsed."),
        Err(code) => assert_eq!(code, GetError::PropertyMissing("EmailStatus".into())),
    };
}

#[test]
fn dynamo_succeeds() {
    let mut attrs = AttributeValueMap::new();
    attrs.insert(
        "EmailId".into(),
        AttributeValue {
            s: Some("Test EmailId".into()),
            ..AttributeValue::default()
        },
    );
    attrs.insert(
        "Subject".into(),
        AttributeValue {
            s: Some("Test Subject".into()),
            ..AttributeValue::default()
        },
    );
    attrs.insert(
        "EmailStatus".into(),
        AttributeValue {
            s: Some("Pending".into()),
            ..AttributeValue::default()
        },
    );
    let item = Some(attrs);
    let output = GetItemOutput { item };
    match EmailMessage::try_from(output) {
        Ok(email) => {
            assert_eq!(&email.email_id, "Test EmailId");
            assert_eq!(&email.subject, "Test Subject");
            assert_eq!(email.status, EmailStatus::Pending);
        }
        Err(_) => panic!("Should have parsed."),
    };
}

#[test]
fn record_has_defaults_for_what_is_not_required() {
    let mut attrs = AttributeValueMap::new();
    attrs.insert("EmailId".into(), text("e1"));
    attrs.insert("Subject".into(), text("Hello"));
    attrs.insert("EmailStatus".into(), text("Sent"));
    attrs.insert("BodyText".into(), text("stored but not read"));
    let email = EmailMessage::try_from(GetItemOutput { item: Some(attrs) }).unwrap();
    let expected = EmailMessage {
        email_id: "e1".into(),
        subject: "Hello".into(),
        status: EmailStatus::Sent,
        ..EmailMessage::default()
    };
    assert_eq!(email, expected);
    assert_eq!(email.body_text, "");
    assert!(email.recipients_to.is_empty());
    assert_eq!(email.provider_response, None);
}

#[test]
fn stored_status_that_names_no_status_is_unknown() {
    let mut attrs = AttributeValueMap::new();
    attrs.insert("EmailId".into(), text("e1"));
    attrs.insert("Subject".into(), text("Hello"));
    attrs.insert("EmailStatus".into(), text("pending"));
    let email = EmailMessage::try_from(GetItemOutput { item: Some(attrs) }).unwrap();
    assert_eq!(email.status, EmailStatus::Unknown);
}

#[test]
fn required_attribute_of_the_wrong_type_is_missing() {
    let mut attrs = AttributeValueMap::new();
    attrs.insert(
        "EmailId".into(),
        AttributeValue {
            s: None,
            n: Some("17".into()),
        },
    );
    attrs.insert("Subject".into(), text("Hello"));
    attrs.insert("EmailStatus".into(), text("Pending"));
    assert_eq!(
        EmailMessage::try_from(GetItemOutput { item: Some(attrs) }),
        Err(GetError::PropertyMissing("EmailId".into()))
    );
}

#[test]
fn from_hashmap_names_the_first_missing_field() {
    assert_eq!(
        from_hashmap(AttributeValueMap::new()),
        Err(DeserializeError::FieldMissing("EmailId".into()))
    );
    let mut attrs = AttributeValueMap::new();
    attrs.insert("EmailId".into(), text("e1"));
    assert_eq!(
        from_hashmap(attrs),
        Err(DeserializeError::FieldMissing("Subject".into()))
    );
    let mut attrs = AttributeValueMap::new();
    attrs.insert("EmailId".into(), text("e1"));
    attrs.insert("Subject".into(), text("s"));
    assert_eq!(
        from_hashmap(attrs),
        Err(DeserializeError::FieldMissing("EmailStatus".into()))
    );
}

#[test]
fn get_email_input_asks_for_the_record_by_its_id() {
    let input = get_email_input("emails", &pointer("e1"));
    assert_eq!(input.table_name, "emails");
    assert_eq!(input.key.get("EmailId"), Some(&text("e1")));
    assert_eq!(input.key.entries().len(), 1);
}

#[test]
fn get_email_message_reads_an_answer() {
    let mut attrs = AttributeValueMap::new();
    attrs.insert("EmailId".into(), text("e1"));
    attrs.insert("Subject".into(), text("Hello"));
    attrs.insert("EmailStatus".into(), text("Sending"));
    let email = get_email_message(Ok(GetItemOutput { item: Some(attrs) })).unwrap();
    assert_eq!(email.email_id, "e1");
    assert_eq!(email.status, EmailStatus::Sending);
    assert_eq!(
        get_email_message(Ok(GetItemOutput { item: None })),
        Err(GetError::RecordNotFound)
    );
}

#[test]
fn get_email_message_names_each_failure() {
    let cases = vec![
        (
            RequestFailure::Service(GetItemFault::InternalServerError("a".into())),
            GetError::InternalServerError("a".into()),
        ),
        (
            RequestFailure::Service(GetItemFault::ProvisionedThroughputExceeded("b".into())),
            GetError::ProvisionedThroughputExceeded("b".into()),
        ),
        (
            RequestFailure::Service(GetItemFault::RequestLimitExceeded("c".into())),
            GetError::RequestLimitExceeded("c".into()),
        ),
        (
            RequestFailure::Service(GetItemFault::ResourceNotFound("d".into())),
            GetError::ResourceNotFound("d".into()),
        ),
        (
            RequestFailure::Other("connection refused".into()),
            GetError::ServiceError("connection refused".into()),
        ),
    ];
    for (failure, expected) in cases {
        assert_eq!(get_email_message(Err(failure)), Err(expected));
    }
}

#[test]
fn set_email_status_input_states_the_condition() {
    let input = set_email_status_input(
        "emails",
        &pointer("e1"),
        FromTo(EmailStatus::Pending, EmailStatus::Sending),
    );
    assert_eq!(
        input.condition_expression,
        Some("EmailStatus = :expected".to_string())
    );
    assert_eq!(
        input.update_expression,
        Some("SET EmailStatus = :next".to_string())
    );
    assert_eq!(input.table_name, "emails");
    assert_eq!(input.key.get("EmailId"), Some(&text("e1")));
    let values = input.expression_attribute_values.unwrap();
    assert_eq!(values.get(":expected"), Some(&text("Pending")));
    assert_eq!(values.get(":next"), Some(&text("Sending")));

    let input = set_email_status_input(
        "emails",
        &pointer("e1"),
        FromTo(EmailStatus::Sending, EmailStatus::Sent),
    );
    let values = input.expression_attribute_values.unwrap();
    assert_eq!(values.get(":expected"), Some(&text("Sending")));
    assert_eq!(values.get(":next"), Some(&text("Sent")));
}

#[test]
fn set_email_status_names_each_failure() {
    assert_eq!(set_email_status(Ok(())), Ok(()));
    let cases = vec![
        (
            RequestFailure::Service(UpdateItemFault::ConditionalCheckFailed("a".into())),
            UpdateError::ConditionalCheckFailed("a".into()),
        ),
        (
            RequestFailure::Service(UpdateItemFault::InternalServerError("b".into())),
            UpdateError::InternalServerError("b".into()),
        ),
        (
            RequestFailure::Service(UpdateItemFault::ItemCollectionSizeLimitExceeded("c".into())),
            UpdateError::ItemCollectionSizeLimitExceeded("c".into()),
        ),
        (
            RequestFailure::Service(UpdateItemFault::ProvisionedThroughputExceeded("d".into())),
            UpdateError::ProvisionedThroughputExceeded("d".into()),
        ),
        (
            RequestFailure::Service(UpdateItemFault::RequestLimitExceeded("e".into())),
            UpdateError::RequestLimitExceeded("e".into()),
        ),
        (
            RequestFailure::Service(UpdateItemFault::ResourceNotFound("f".into())),
            UpdateError::ResourceNotFound("f".into()),
        ),
        (
            RequestFailure::Service(UpdateItemFault::TransactionConflict("g".into())),
            UpdateError::TransactionConflict("g".into()),
        ),
        (
            RequestFailure::Other("timed out".into()),
            UpdateError::ServiceError("timed out".into()),
        ),
    ];
    for (failure, expected) in cases {
        assert_eq!(set_email_status(Err(failure)), Err(expected));
    }
}

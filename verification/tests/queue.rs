use email_shared::{
    get_sqs_email_messages, get_sqs_email_messages_input, DeleteMessageBatchRequestEntry,
    EmailPointer, EmailPointerMessage, MessageBody, RawMessage, ReceiveMessageResult,
    SqsEmailMessages, MAX_NUMBER_OF_MESSAGES, VISIBILITY_TIMEOUT, WAIT_TIME_SECONDS,
};

fn pointing(id: &str, handle: &str, email_id: &str) -> RawMessage {
    RawMessage {
        message_id: Some(id.into()),
        receipt_handle: Some(handle.into()),
        body: Some(MessageBody::Pointer(EmailPointer {
            email_id: email_id.into(),
        })),
    }
}

fn unreadable(id: &str, handle: &str) -> RawMessage {
    RawMessage {
        message_id: Some(id.into()),
        receipt_handle: Some(handle.into()),
        body: Some(MessageBody::Unreadable("{\"email_id\":".into())),
    }
}

#[test]
fn pointer_of_a_complete_message() {
    let pointer = EmailPointerMessage::try_from(pointing("m-1", "h-1", "e1")).unwrap();
    assert_eq!(pointer.message_id(), "m-1");
    assert_eq!(pointer.handle(), "h-1");
    assert_eq!(pointer.email_id(), "e1");
}

#[test]
fn message_without_id_has_no_pointer() {
    let mut message = pointing("m-1", "h-1", "e1");
    message.message_id = None;
    assert_eq!(
        EmailPointerMessage::try_from(message),
        Err("No message id was found")
    );
    // The id is what is looked at first.
    let nothing = RawMessage {
        message_id: None,
        receipt_handle: None,
        body: None,
    };
    assert_eq!(
        EmailPointerMessage::try_from(nothing),
        Err("No message id was found")
    );
}

#[test]
fn message_without_handle_has_no_pointer() {
    let mut message = pointing("m-1", "h-1", "e1");
    message.receipt_handle = None;
    assert_eq!(
        EmailPointerMessage::try_from(message),
        Err("No receipt handle for message")
    );
    let mut message = unreadable("m-1", "h-1");
    message.receipt_handle = None;
    assert_eq!(
        EmailPointerMessage::try_from(message),
        Err("No receipt handle for message")
    );
}

#[test]
fn message_without_readable_body_has_no_pointer() {
    assert_eq!(
        EmailPointerMessage::try_from(unreadable("m-1", "h-1")),
        Err("Unable to parse EmailPointer.")
    );
    let mut message = pointing("m-1", "h-1", "e1");
    message.body = None;
    assert_eq!(
        EmailPointerMessage::try_from(message),
        Err("Unable to parse EmailPointer.")
    );
}

#[test]
fn empty_record_key_is_no_pointer() {
    assert_eq!(
        EmailPointerMessage::try_from(pointing("m-1", "h-1", "")),
        Err("Unable to parse EmailPointer.")
    );
    assert_eq!(EmailPointerMessage::from_message(pointing("m-1", "h-1", "")), None);
}

#[test]
fn extraction_gives_the_same_for_the_same() {
    let first = EmailPointerMessage::try_from(pointing("m-1", "h-1", "e1"));
    let second = EmailPointerMessage::try_from(pointing("m-1", "h-1", "e1"));
    assert_eq!(first, second);
    let first = EmailPointerMessage::try_from(unreadable("m-1", "h-1"));
    let second = EmailPointerMessage::try_from(unreadable("m-1", "h-1"));
    assert_eq!(first, second);
}

#[test]
fn from_message_is_try_from_without_the_reason() {
    let pointer = EmailPointerMessage::from_message(pointing("m-1", "h-1", "e1"));
    assert_eq!(
        pointer,
        EmailPointerMessage::try_from(pointing("m-1", "h-1", "e1")).ok()
    );
    assert!(pointer.is_some());
    assert_eq!(EmailPointerMessage::from_message(unreadable("m-1", "h-1")), None);
}

#[test]
fn delete_entry_of_a_pointer() {
    let pointer = EmailPointerMessage::try_from(pointing("m-1", "h-1", "e1")).unwrap();
    let entry = DeleteMessageBatchRequestEntry::from(&pointer);
    assert_eq!(
        entry,
        DeleteMessageBatchRequestEntry {
            id: "m-1".into(),
            receipt_handle: "h-1".into(),
        }
    );
    assert_eq!(entry.clone(), entry);
}

#[test]
fn receive_request_polls_for_one_batch() {
    let request = get_sqs_email_messages_input("https://queue.example/q");
    assert_eq!(
        request.attribute_names,
        Some(vec![String::from("MessageGroupId")])
    );
    assert_eq!(request.max_number_of_messages, Some(1));
    assert_eq!(request.queue_url, "https://queue.example/q");
    assert_eq!(request.visibility_timeout, Some(30));
    assert_eq!(request.wait_time_seconds, Some(20));
    assert_eq!(MAX_NUMBER_OF_MESSAGES, 1);
    assert_eq!(VISIBILITY_TIMEOUT, 30);
    assert_eq!(WAIT_TIME_SECONDS, 20);
}

#[test]
fn received_messages_or_none() {
    let some: Result<ReceiveMessageResult, String> = Ok(ReceiveMessageResult {
        messages: Some(vec![pointing("m-1", "h-1", "e1")]),
    });
    assert_eq!(
        get_sqs_email_messages(some),
        Ok(vec![pointing("m-1", "h-1", "e1")])
    );
    let none: Result<ReceiveMessageResult, String> = Ok(ReceiveMessageResult { messages: None });
    assert_eq!(get_sqs_email_messages(none), Ok(vec![]));
    let failed: Result<ReceiveMessageResult, String> = Err("no route".into());
    assert_eq!(get_sqs_email_messages(failed), Err("no route".to_string()));
}

#[test]
fn next_skips_what_holds_no_pointer() {
    let mut messages = SqsEmailMessages::new(vec![
        unreadable("m-1", "h-1"),
        pointing("m-2", "h-2", "e2"),
        unreadable("m-3", "h-3"),
        pointing("m-4", "h-4", "e4"),
        unreadable("m-5", "h-5"),
    ]);
    assert_eq!(messages.next().unwrap().email_id(), "e2");
    assert_eq!(messages.next().unwrap().email_id(), "e4");
    assert_eq!(messages.next(), None);
    assert_eq!(messages.next(), None);
}

#[test]
fn next_of_nothing_is_nothing() {
    let mut messages = SqsEmailMessages::new(vec![]);
    assert_eq!(messages.next(), None);
}

#[test]
fn partition_keeps_both_kinds_in_order() {
    let messages = SqsEmailMessages::new(vec![
        unreadable("m-1", "h-1"),
        pointing("m-2", "h-2", "e2"),
        unreadable("m-3", "h-3"),
        pointing("m-4", "h-4", "e4"),
    ]);
    let (pointers, rejected) = messages.partition();
    let ids: Vec<&str> = pointers.iter().map(|p| p.email_id().as_str()).collect();
    assert_eq!(ids, vec!["e2", "e4"]);
    assert_eq!(
        rejected,
        vec![unreadable("m-1", "h-1"), unreadable("m-3", "h-3")]
    );
}

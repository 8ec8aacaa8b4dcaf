use email_shared::{
    DeserializeError, GetError, GetItemFault, RequestFailure, UpdateError, UpdateItemFault,
};

#[test]
fn update_error_of_a_fault_keeps_kind_and_message() {
    assert_eq!(
        UpdateError::from(UpdateItemFault::ConditionalCheckFailed("no".into())),
        UpdateError::ConditionalCheckFailed("no".into())
    );
    assert_eq!(
        UpdateError::from(UpdateItemFault::TransactionConflict("busy".into())),
        UpdateError::TransactionConflict("busy".into())
    );
    assert_eq!(
        UpdateError::from(RequestFailure::Service(UpdateItemFault::ResourceNotFound(
            "table".into()
        ))),
        UpdateError::ResourceNotFound("table".into())
    );
    assert_eq!(
        UpdateError::from(RequestFailure::<UpdateItemFault>::Other("dns".into())),
        UpdateError::ServiceError("dns".into())
    );
}

#[test]
fn get_error_of_a_fault_keeps_kind_and_message() {
    assert_eq!(
        GetError::from(GetItemFault::InternalServerError("boom".into())),
        GetError::InternalServerError("boom".into())
    );
    assert_eq!(
        GetError::from(RequestFailure::Service(GetItemFault::RequestLimitExceeded(
            "limit".into()
        ))),
        GetError::RequestLimitExceeded("limit".into())
    );
    assert_eq!(
        GetError::from(RequestFailure::<GetItemFault>::Other("dns".into())),
        GetError::ServiceError("dns".into())
    );
}

#[test]
fn update_error_texts() {
    let cases = vec![
        (
            UpdateError::ConditionalCheckFailed("x".into()),
            "ConditionalCheckFailed(x)",
        ),
        (
            UpdateError::InternalServerError("x".into()),
            "InternalServerError(x)",
        ),
        (
            UpdateError::ItemCollectionSizeLimitExceeded("x".into()),
            "ItemCollectionSizeLimitExceeded(x)",
        ),
        (
            UpdateError::ProvisionedThroughputExceeded("x".into()),
            "ProvisionedThroughputExceeded(x)",
        ),
        (
            UpdateError::RequestLimitExceeded("x".into()),
            "RequestLimitExceeded(x)",
        ),
        (UpdateError::ResourceNotFound("x".into()), "ResourceNotFound(x)"),
        (UpdateError::ServiceError("x".into()), "RusotoError(x)"),
        (
            UpdateError::TransactionConflict("".into()),
            "TransactionConflict()",
        ),
    ];
    for (error, expected) in cases {
        assert_eq!(error.to_string(), expected);
    }
}

#[test]
fn get_error_texts() {
    let cases = vec![
        (
            GetError::InternalServerError("x".into()),
            "InternalServerError(x)",
        ),
        (GetError::ParseError("x".into()), "ParseError(x)"),
        (GetError::PropertyMissing("Subject".into()), "PropertyMissiong(Subject)"),
        (
            GetError::ProvisionedThroughputExceeded("x".into()),
            "ProvisionedThroughputExceeded(x)",
        ),
        (GetError::RecordNotFound, "RecordNotFound"),
        (
            GetError::RequestLimitExceeded("x".into()),
            "RequestLimitExceeded(x)",
        ),
        (GetError::ResourceNotFound("x".into()), "ResourceNotFound(x)"),
        (GetError::ServiceError("x".into()), "RusotoError(x)"),
    ];
    for (error, expected) in cases {
        assert_eq!(error.to_string(), expected);
    }
}

#[test]
fn deserialize_error_texts() {
    let cases = vec![
        (DeserializeError::custom("odd"), "Custom(odd)"),
        (
            DeserializeError::duplicate_field("Subject"),
            "FieldDuplicated(Subject)",
        ),
        (
            DeserializeError::missing_field("Subject"),
            "FieldMissing(Subject)",
        ),
        (DeserializeError::Parse("bad".into()), "Parse(bad)"),
        (
            DeserializeError::invalid_length(0, "a pair"),
            "InvalidLength(0, a pair)",
        ),
        (
            DeserializeError::invalid_length(7, "a pair"),
            "InvalidLength(7, a pair)",
        ),
        (
            DeserializeError::invalid_length(10, "a pair"),
            "InvalidLength(10, a pair)",
        ),
        (
            DeserializeError::invalid_length(4096, "a pair"),
            "InvalidLength(4096, a pair)",
        ),
        (
            DeserializeError::invalid_length(usize::MAX, "a pair"),
            "InvalidLength(18446744073709551615, a pair)",
        ),
        (
            DeserializeError::invalid_type("a number", "a text"),
            "InvalidType(a text, a number)",
        ),
        (
            DeserializeError::invalid_value("-1", "a count"),
            "InvalidValue(a count, -1)",
        ),
        (
            DeserializeError::unknown_field("Colour"),
            "UnknownField(Colour)",
        ),
    ];
    for (error, expected) in cases {
        assert_eq!(error.to_string(), expected);
    }
}

#[test]
fn deserialize_error_constructors() {
    assert_eq!(
        DeserializeError::custom("odd"),
        DeserializeError::Custom("odd".into())
    );
    assert_eq!(
        DeserializeError::invalid_type("a number", "a text"),
        DeserializeError::InvalidType {
            expected: "a text".into(),
            unexpected: "a number".into(),
        }
    );
    assert_eq!(
        DeserializeError::invalid_value("-1", "a count"),
        DeserializeError::InvalidValue {
            expected: "a count".into(),
            unexpected: "-1".into(),
        }
    );
    assert_eq!(
        DeserializeError::invalid_length(3, "two"),
        DeserializeError::InvalidLength(3, "two".into())
    );
}

#[test]
fn missing_field_keeps_its_name_and_the_rest_its_text() {
    assert_eq!(
        GetError::from_deserialize(DeserializeError::missing_field("Subject")),
        GetError::PropertyMissing("Subject".into())
    );
    assert_eq!(
        GetError::from_deserialize(DeserializeError::invalid_length(12, "one")),
        GetError::ParseError("InvalidLength(12, one)".into())
    );
    assert_eq!(
        GetError::from_deserialize(DeserializeError::unknown_field("Colour")),
        GetError::ParseError("UnknownField(Colour)".into())
    );
}

#[test]
fn clone_of_an_error_is_equal_to_it() {
    let update = UpdateError::ConditionalCheckFailed("lost".into());
    assert_eq!(update.clone(), update);
    let get = GetError::PropertyMissing("Subject".into());
    assert_eq!(get.clone(), get);
    assert_eq!(GetError::RecordNotFound.clone(), GetError::RecordNotFound);
    let invalid = DeserializeError::invalid_type("a number", "a text");
    assert_eq!(invalid.clone(), invalid);
    let length = DeserializeError::invalid_length(3, "two");
    assert_eq!(length.clone(), length);
}

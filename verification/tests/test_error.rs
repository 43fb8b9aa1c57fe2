use spark_connect_rust::error::{
    DeserializationError, NotImplementedYetError, SparkError, SparkSessionCreationError,
    UnexpectedError,
};

#[test]
fn table_or_view_tag_classifies_by_substring() {
    let error = SparkError::from_status_message(
        "prefix [TABLE_OR_VIEW_NOT_FOUND] The table `test` cannot be found".to_string(),
    );
    assert!(matches!(error, SparkError::TableOrViewNotFound(_)));
}

#[test]
fn hive_catalog_tag_classifies() {
    let error =
        SparkError::from_status_message("oops [HIVE_CATALOG_NOT_ENABLED] details".to_string());
    assert!(matches!(error, SparkError::HiveCatalogNotEnabled(_)));
}

#[test]
fn parse_syntax_tag_classifies() {
    let error = SparkError::from_status_message("[PARSE_SYNTAX_ERROR] near 'FROM'".to_string());
    assert!(matches!(error, SparkError::InvalidSyntax(_)));
}

#[test]
fn unresolved_column_tag_classifies() {
    let error = SparkError::from_status_message(
        "x [UNRESOLVED_COLUMN.WITH_SUGGESTION] did you mean `name`?".to_string(),
    );
    assert!(matches!(error, SparkError::UnresolvedColumnWithSuggestion(_)));
}

#[test]
fn unknown_message_degrades_to_generic() {
    let error = SparkError::from_status_message("something else went wrong".to_string());
    match error {
        SparkError::Generic(e) => assert_eq!(e.0, "something else went wrong"),
        other => panic!("expected a generic error, got {:?}", other),
    }
}

#[test]
fn exact_tag_without_padding_still_classifies() {
    let error = SparkError::from_status_message("[TABLE_OR_VIEW_NOT_FOUND]".to_string());
    assert!(matches!(error, SparkError::TableOrViewNotFound(_)));
}

#[test]
fn partial_tag_does_not_classify() {
    let error = SparkError::from_status_message("TABLE_OR_VIEW_NOT_FOUND".to_string());
    assert!(matches!(error, SparkError::Generic(_)));
    let error = SparkError::from_status_message("[TABLE_OR_VIEW_NOT".to_string());
    assert!(matches!(error, SparkError::Generic(_)));
}

#[test]
fn first_matching_tag_wins() {
    let error = SparkError::from_status_message(
        "[HIVE_CATALOG_NOT_ENABLED] and also [TABLE_OR_VIEW_NOT_FOUND]".to_string(),
    );
    assert!(matches!(error, SparkError::TableOrViewNotFound(_)));
}

#[test]
fn status_classification_carries_the_status_message() {
    let status = tonic::Status::new(
        tonic::Code::Internal,
        "bad things [PARSE_SYNTAX_ERROR] at position 3",
    );
    let error = SparkError::from_status(&status);
    match error {
        SparkError::InvalidSyntax(e) => {
            assert_eq!(e.0, "bad things [PARSE_SYNTAX_ERROR] at position 3");
        }
        other => panic!("expected a syntax error, got {:?}", other),
    }
}

#[test]
fn status_without_tag_classifies_generic_with_message() {
    let status = tonic::Status::new(tonic::Code::Unavailable, "connection reset");
    let error = SparkError::from_status(&status);
    match error {
        SparkError::Generic(e) => assert_eq!(e.message(), "connection reset"),
        other => panic!("expected a generic error, got {:?}", other),
    }
}

#[test]
fn error_messages_carry_their_detail() {
    assert_eq!(
        SparkSessionCreationError("refused".to_string()).message(),
        "refused"
    );
    assert_eq!(DeserializationError("bad magic".to_string()).message(), "bad magic");
    assert_eq!(NotImplementedYetError("variant".to_string()).message(), "variant");
    assert_eq!(UnexpectedError("state".to_string()).message(), "state");
    assert_eq!(SparkError::EmptyResponse.message(), "Empty response");
    let table = SparkError::from_status_message("[TABLE_OR_VIEW_NOT_FOUND] x".to_string());
    assert_eq!(table.message(), "Table or view not found");
    let hive = SparkError::from_status_message("[HIVE_CATALOG_NOT_ENABLED] x".to_string());
    assert_eq!(hive.message(), "Hive Catalog not enabled");
}

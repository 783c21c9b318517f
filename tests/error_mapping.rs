use mongo_repository::data_error::DataError;
use mongo_repository::error_mapper::{classify_store_failure, StatusClass, DUPLICATE_KEY_CODE};
use mongo_repository::unexpected_error::UnexpectedError;
use mongodb::bson::Document;
use mongodb::error::{CommandError, Error, ErrorKind, WriteConcernError, WriteError, WriteFailure};

fn failure_fields(code: i32, message: &str) -> Document {
    let mut fields = Document::new();
    fields.insert("code", code);
    fields.insert("codeName", "SomeCode");
    fields.insert("errmsg", message);
    fields
}

fn write_error(code: i32) -> Error {
    let w: WriteError = mongodb::bson::from_document(failure_fields(code, "write failed")).unwrap();
    Error::from(ErrorKind::Write(WriteFailure::WriteError(w)))
}

fn write_concern_error(code: i32) -> Error {
    let w: WriteConcernError =
        mongodb::bson::from_document(failure_fields(code, "concern failed")).unwrap();
    Error::from(ErrorKind::Write(WriteFailure::WriteConcernError(w)))
}

fn command_error(code: i32) -> Error {
    let c: CommandError = mongodb::bson::from_document(failure_fields(code, "command failed")).unwrap();
    Error::from(ErrorKind::Command(c))
}

#[test]
fn unexpected_error_keeps_its_message() {
    let e = UnexpectedError::new("missing owner".to_string());
    assert_eq!(e.error_message, "missing owner");
}

#[test]
fn unexpected_error_text_has_prefix() {
    let e = UnexpectedError::new("missing owner".to_string());
    assert_eq!(e.to_string(), "Unexpected error: missing owner");
}

#[test]
fn unexpected_error_with_empty_message() {
    let e = UnexpectedError::new(String::new());
    assert_eq!(e.to_string(), "Unexpected error: ");
}

#[test]
fn data_error_from_unexpected_shows_its_text() {
    let e = DataError::from(UnexpectedError::new("bad state".to_string()));
    assert!(matches!(e, DataError::UnexpectedError(_)));
    assert_eq!(e.to_string(), "Unexpected error: bad state");
}

#[test]
fn data_error_from_store_shows_store_text() {
    let cause = write_error(11000);
    let e = DataError::from(cause.clone());
    assert!(matches!(e, DataError::MongoError(_)));
    assert_eq!(e.to_string(), cause.to_string());
}

#[test]
fn duplicate_key_code_is_conflict() {
    assert_eq!(DUPLICATE_KEY_CODE, 11000);
    assert_eq!(classify_store_failure(Some(11000)), StatusClass::Conflict);
}

#[test]
fn other_codes_are_internal() {
    assert_eq!(classify_store_failure(Some(11001)), StatusClass::Internal);
    assert_eq!(classify_store_failure(Some(0)), StatusClass::Internal);
    assert_eq!(classify_store_failure(Some(-11000)), StatusClass::Internal);
    assert_eq!(classify_store_failure(None), StatusClass::Internal);
}

#[test]
fn status_classes_have_http_codes() {
    assert_eq!(StatusClass::Conflict.http_status(), 409);
    assert_eq!(StatusClass::Internal.http_status(), 500);
}

#[test]
fn duplicate_key_write_error_maps_to_conflict() {
    let cause = write_error(11000);
    let (class, message) = DataError::MongoError(cause.clone()).map_error();
    assert_eq!(class, StatusClass::Conflict);
    assert_eq!(message, cause.to_string());
}

#[test]
fn other_write_error_maps_to_internal() {
    let (class, _) = DataError::MongoError(write_error(121)).map_error();
    assert_eq!(class, StatusClass::Internal);
}

#[test]
fn duplicate_code_in_write_concern_error_maps_to_internal() {
    let (class, _) = DataError::MongoError(write_concern_error(11000)).map_error();
    assert_eq!(class, StatusClass::Internal);
}

#[test]
fn duplicate_code_in_command_error_maps_to_internal() {
    let (class, _) = DataError::MongoError(command_error(11000)).map_error();
    assert_eq!(class, StatusClass::Internal);
}

#[test]
fn custom_store_error_maps_to_internal() {
    let (class, _) = DataError::MongoError(Error::custom(7u8)).map_error();
    assert_eq!(class, StatusClass::Internal);
}

#[test]
fn unexpected_error_maps_to_internal_whatever_its_message() {
    for text in ["E11000 duplicate key error", "11000", "conflict", ""] {
        let (class, message) =
            DataError::from(UnexpectedError::new(text.to_string())).map_error();
        assert_eq!(class, StatusClass::Internal);
        assert_eq!(message, format!("Unexpected error: {}", text));
    }
}

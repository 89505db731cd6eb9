use trailbase::record_errors::{error_response, record_error_from_db, DbError};
use trailbase::records::RecordError;

#[test]
fn database_errors_map_to_record_errors() {
    assert_eq!(
        record_error_from_db(DbError::QueryReturnedNoRows),
        RecordError::RecordNotFound
    );
    assert_eq!(
        record_error_from_db(DbError::SqliteFailure(2067)),
        RecordError::BadRequest("sqlite constraint: unique")
    );
    assert_eq!(
        record_error_from_db(DbError::SqliteFailure(787)),
        RecordError::BadRequest("sqlite constraint: fk")
    );
    assert!(matches!(
        record_error_from_db(DbError::SqliteFailure(1)),
        RecordError::Internal(_)
    ));
    assert_eq!(
        record_error_from_db(DbError::Other("boom".to_string())),
        RecordError::Internal("boom".to_string())
    );
}

#[test]
fn record_error_responses() {
    assert_eq!(error_response(&RecordError::ApiNotFound, false), (405, None));
    assert_eq!(error_response(&RecordError::ApiRequiresTable, true), (405, None));
    assert_eq!(error_response(&RecordError::RecordNotFound, false), (404, None));
    assert_eq!(error_response(&RecordError::Forbidden, false), (403, None));
    assert_eq!(
        error_response(&RecordError::BadRequest("Invalid id"), false),
        (400, Some("Invalid id".to_string()))
    );
    let internal = RecordError::Internal("db down".to_string());
    assert_eq!(error_response(&internal, false), (500, None));
    assert_eq!(
        error_response(&internal, true),
        (500, Some("db down".to_string()))
    );
}

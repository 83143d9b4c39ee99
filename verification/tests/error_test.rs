use ticket_management::{ApiError, DatabaseFailure, DbFailure, StoreError, TicketId};

fn failure(code: Option<&str>, constraint: Option<&str>) -> DbFailure {
    DbFailure {
        database: Some(DatabaseFailure {
            code: code.map(String::from),
            constraint: constraint.map(String::from),
        }),
        message: String::from("driver says no"),
    }
}

#[test]
fn check_violation_is_a_constraint_error() {
    assert_eq!(
        StoreError::from_db(failure(Some("23514"), Some("title_length"))),
        StoreError::Constraint(String::from("title_length"))
    );
}

#[test]
fn not_null_violation_without_name_is_unknown_constraint() {
    assert_eq!(
        StoreError::from_db(failure(Some("23502"), None)),
        StoreError::Constraint(String::from("unknown"))
    );
}

#[test]
fn other_failures_stay_driver_errors() {
    let unique = failure(Some("23505"), Some("tickets_pkey"));
    assert_eq!(
        StoreError::from_db(unique),
        StoreError::DbDriverInternal(failure(Some("23505"), Some("tickets_pkey")))
    );
    let io = DbFailure {
        database: None,
        message: String::from("connection reset"),
    };
    assert_eq!(
        StoreError::from_db(io),
        StoreError::DbDriverInternal(DbFailure {
            database: None,
            message: String::from("connection reset")
        })
    );
}

#[test]
fn store_error_texts() {
    assert_eq!(
        StoreError::NotFound(TicketId::from(3u128)).message(),
        "ticket not found for id: 00000000-0000-0000-0000-000000000003"
    );
    assert_eq!(
        StoreError::Constraint(String::from("c")).message(),
        "request violates constraint `c`"
    );
    assert_eq!(
        StoreError::DbDriverInternal(failure(None, None)).message(),
        "driver says no"
    );
}

#[test]
fn api_errors_from_store_errors() {
    assert_eq!(
        ApiError::from(StoreError::NotFound(TicketId::from(9u128))),
        ApiError::NotFound(TicketId::from(9u128))
    );
    assert_eq!(
        ApiError::from(StoreError::Constraint(String::from("c"))),
        ApiError::Constraint(String::from("c"))
    );
    assert_eq!(
        ApiError::from(StoreError::DbDriverInternal(failure(None, None))),
        ApiError::Internal(String::from("driver says no"))
    );
    assert_eq!(
        ApiError::from_store_ref(&StoreError::NotFound(TicketId::from(1u128))),
        ApiError::NotFound(TicketId::from(1u128))
    );
}

#[test]
fn api_error_statuses() {
    assert_eq!(ApiError::NotFound(TicketId::from(1u128)).status(), 404);
    assert_eq!(ApiError::Constraint(String::from("c")).status(), 422);
    assert_eq!(ApiError::Internal(String::from("boom")).status(), 500);
}

#[test]
fn missing_ticket_body_names_the_ticket() {
    let e = ApiError::NotFound(TicketId::from(12u128));
    assert_eq!(e.message(), "ticket 00000000-0000-0000-0000-00000000000c not found");
    assert_eq!(
        e.public_message(),
        "ticket 00000000-0000-0000-0000-00000000000c not found"
    );
    assert_eq!(
        e.body(),
        "{\"error\":\"ticket 00000000-0000-0000-0000-00000000000c not found\"}"
    );
    let parsed: serde_json::Value = serde_json::from_str(&e.body()).unwrap();
    assert_eq!(
        parsed["error"],
        "ticket 00000000-0000-0000-0000-00000000000c not found"
    );
}

#[test]
fn internal_error_is_not_disclosed() {
    let e = ApiError::Internal(String::from("password=hunter2"));
    assert_eq!(e.message(), "password=hunter2");
    assert_eq!(e.public_message(), "internal server error");
    assert_eq!(e.body(), "{\"error\":\"internal server error\"}");
}

#[test]
fn error_body_escapes_json() {
    let e = ApiError::Constraint(String::from("a\"b\\c\nd\u{1}"));
    assert_eq!(
        e.body(),
        "{\"error\":\"request violates constraint `a\\\"b\\\\c\\nd\\u0001`\"}"
    );
    let parsed: serde_json::Value = serde_json::from_str(&e.body()).unwrap();
    assert_eq!(parsed["error"], "request violates constraint `a\"b\\c\nd\u{1}`");
}

#[test]
fn missing_nil_ticket_answers_404_with_its_uuid() {
    let e = ApiError::from(StoreError::NotFound(TicketId::from(0u128)));
    assert_eq!(e.status(), 404);
    let parsed: serde_json::Value = serde_json::from_str(&e.body()).unwrap();
    assert_eq!(
        parsed["error"],
        "ticket 00000000-0000-0000-0000-000000000000 not found"
    );
}

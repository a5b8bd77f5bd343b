use quack_rs::table_description::{check_table_names, creation_outcome};

#[test]
fn table_names_without_nul_pass() {
    assert!(check_table_names("main", "my_table").is_ok());
}

#[test]
fn schema_with_nul_is_reported_first() {
    let err = check_table_names("ma\0in", "t\0").unwrap_err();
    assert_eq!(err.as_str(), "schema name contains null byte");
}

#[test]
fn table_with_nul_is_reported() {
    let err = check_table_names("main", "t\0").unwrap_err();
    assert_eq!(err.as_str(), "table name contains null byte");
}

#[test]
fn creation_succeeds_with_status_and_handle() {
    assert!(creation_outcome("main", "t", 0, true, None).is_ok());
}

#[test]
fn creation_fails_without_handle() {
    let err = creation_outcome("main", "t", 0, false, None).unwrap_err();
    assert_eq!(err.as_str(), "failed to describe table 'main.t'");
}

#[test]
fn creation_failure_carries_duckdb_text() {
    let err = creation_outcome("main", "t", 1, true, Some(b"Table does not exist")).unwrap_err();
    assert_eq!(
        err.as_str(),
        "failed to describe table 'main.t': Table does not exist"
    );
}

#[test]
fn creation_failure_with_invalid_text() {
    let err = creation_outcome("s", "t", 1, true, Some(&[0xff, 0xfe])).unwrap_err();
    assert_eq!(err.as_str(), "failed to describe table 's.t': unknown error");
}

#[test]
fn creation_failure_with_handle_but_no_text() {
    let err = creation_outcome("s", "t", 1, true, None).unwrap_err();
    assert_eq!(err.as_str(), "failed to describe table 's.t'");
}

use sqlite_mpi::err::{
    get_is_error, to_return_status, to_return_status_cint, to_return_status_cint_db_err,
    to_return_status_cint_err, try_to_return_status, ReturnStatus,
};
use sqlite_mpi::errmap::{
    extended_code_of, find_extended, find_primary, find_rows, get_extended_row, get_primary,
    get_primary_row, get_primary_row_by_enum, get_rows, is_extended, primary_code_of, ExtendedRC,
    PrimaryRC,
};

#[test]
fn busy_is_an_error_without_extension() {
    let status = to_return_status(&5);
    assert!(!status.is_ok);
    assert!(status.is_err);
    assert_eq!(status.primary.id, PrimaryRC::SQLITE_BUSY);
    assert_eq!(status.primary.code, 5);
    assert!(status.extended.is_none());
    assert!(status.err_msg.is_none());
}

#[test]
fn extended_code_keeps_both_lines() {
    let (primary, extended) = get_rows(&261);
    assert_eq!(primary.id, PrimaryRC::SQLITE_BUSY);
    assert_eq!(primary.code, 5);
    let extended = extended.unwrap();
    assert_eq!(extended.id, ExtendedRC::SQLITE_BUSY_RECOVERY);
    assert_eq!(extended.code, 261);
}

#[test]
fn ok_row_and_done_are_no_errors() {
    let ok = to_return_status(&0);
    assert!(ok.is_ok && !ok.is_err);
    let row = to_return_status(&100);
    assert!(!row.is_ok && !row.is_err);
    assert_eq!(row.primary.id, PrimaryRC::SQLITE_ROW);
    let done = to_return_status(&101);
    assert!(!done.is_ok && !done.is_err);
    assert_eq!(done.primary.id, PrimaryRC::SQLITE_DONE);
    assert!(!get_is_error(&PrimaryRC::SQLITE_OK));
    assert!(!get_is_error(&PrimaryRC::SQLITE_ROW));
    assert!(!get_is_error(&PrimaryRC::SQLITE_DONE));
    assert!(get_is_error(&PrimaryRC::SQLITE_MISUSE));
}

#[test]
fn code_is_split_into_low_byte_and_reason() {
    // SQLITE_CONSTRAINT_PRIMARYKEY = 19 | (6 << 8)
    assert_eq!(get_primary(&1555), 19);
    assert!(is_extended(&1555));
    assert!(!is_extended(&19));
    assert_eq!(get_primary_row(&19).id, PrimaryRC::SQLITE_CONSTRAINT);
    assert_eq!(get_extended_row(&1555).id, ExtendedRC::SQLITE_CONSTRAINT_PRIMARYKEY);
    assert_eq!(primary_code_of(PrimaryRC::SQLITE_CANTOPEN), 14);
    assert_eq!(extended_code_of(ExtendedRC::SQLITE_CANTOPEN_ISDIR), 526);
    assert_eq!(extended_code_of(ExtendedRC::SQLITE_IOERR_ROLLBACK_ATOMIC), 7946);
    assert_eq!(extended_code_of(ExtendedRC::SQLITE_OK_LOAD_PERMANENTLY), 256);
}

#[test]
fn row_by_enum_agrees_with_row_by_code() {
    let by_enum = get_primary_row_by_enum(&PrimaryRC::SQLITE_NOTADB);
    assert_eq!(by_enum.code, 26);
    assert_eq!(get_primary_row(&26), by_enum);
}

#[test]
fn lookups_are_inverse_to_the_table() {
    for code in 0u32..=300 {
        if let Some(id) = find_primary(code) {
            assert_eq!(primary_code_of(id), code);
        }
    }
    for code in 0u32..=8000 {
        if let Some(id) = find_extended(code) {
            assert_eq!(extended_code_of(id), code);
            // an extended code refines the primary code in its low byte
            assert!(find_primary(code & 0xff).is_some());
        }
    }
    assert_eq!(find_primary(29), None);
    assert_eq!(find_primary(102), None);
    // SQLITE_BUSY with a reason the table does not list
    assert_eq!(find_extended(5 | (3 << 8)), None);
}

#[test]
fn unknown_codes_have_no_status() {
    assert!(try_to_return_status(-1).is_none());
    assert!(try_to_return_status(29).is_none());
    assert!(try_to_return_status(5 | (3 << 8)).is_none());
    assert!(find_rows(5 | (3 << 8)).is_none());
    let known = try_to_return_status(517).unwrap();
    assert_eq!(known.primary.id, PrimaryRC::SQLITE_BUSY);
    assert_eq!(known.extended.unwrap().id, ExtendedRC::SQLITE_BUSY_SNAPSHOT);
}

#[test]
fn status_from_primary_code() {
    let busy: ReturnStatus = PrimaryRC::SQLITE_BUSY.into();
    assert_eq!(busy, to_return_status(&5));
    let ok: ReturnStatus = PrimaryRC::SQLITE_OK.into();
    assert!(ok.is_ok);
}

#[test]
fn driver_codes_become_results() {
    assert_eq!(to_return_status_cint(&14).primary.id, PrimaryRC::SQLITE_CANTOPEN);

    assert!(to_return_status_cint_err(&0).is_ok());
    // anything but SQLITE_OK is the error, a row too
    assert!(to_return_status_cint_err(&100).is_err());
    assert!(to_return_status_cint_err(&5).is_err());
    // the primary part decides
    assert!(to_return_status_cint_err(&256).is_ok());

    // a row and the end are no failures of a call on a connection
    let row = to_return_status_cint_db_err(&100, "not an error".to_string()).unwrap();
    assert!(row.err_msg.is_none());
    assert!(to_return_status_cint_db_err(&101, "not an error".to_string()).is_ok());
    let failed = to_return_status_cint_db_err(&1, "no such table: t9".to_string()).unwrap_err();
    assert_eq!(failed.primary.id, PrimaryRC::SQLITE_ERROR);
    assert_eq!(failed.err_msg, Some("no such table: t9".to_string()));
    assert!(failed.is_err);
}

//! The status that every driver call ends in: a result code classified as ok,
//! as an error or as neither, with the message the connection gave for it.

use vstd::prelude::*;
use vstd::std_specs::convert::FromSpecImpl;
use crate::errmap::{
    ExtendedRow, PrimaryRC, PrimaryRow, find_rows, get_rows, is_known_code, primary_code,
    primary_code_of, spec_rows, law_primary_is_known,
};

verus! {

/// A classified result code.
#[derive(Debug, Clone, PartialEq)]
pub struct ReturnStatus {
    /// The primary code is `SQLITE_OK`.
    pub is_ok: bool,
    /// The primary code is none of `SQLITE_OK`, `SQLITE_ROW`, `SQLITE_DONE`.
    pub is_err: bool,
    pub primary: PrimaryRow,
    pub extended: Option<ExtendedRow>,
    pub err_msg: Option<String>,
}

/// The primary codes that report a failure: all but ok, row and done.
pub open spec fn spec_is_error(id: PrimaryRC) -> bool {
    id != PrimaryRC::SQLITE_OK && id != PrimaryRC::SQLITE_ROW && id != PrimaryRC::SQLITE_DONE
}

/// The status of a known code, with the message given.
pub open spec fn spec_status(code: u32, err_msg: Option<String>) -> ReturnStatus
    recommends
        is_known_code(code),
{
    let rows = spec_rows(code);
    ReturnStatus {
        is_ok: rows.0.id == PrimaryRC::SQLITE_OK,
        is_err: spec_is_error(rows.0.id),
        primary: rows.0,
        extended: rows.1,
        err_msg,
    }
}

/// `status` classifies `code` and carries no message.
pub open spec fn status_of(code: u32, status: ReturnStatus) -> bool {
    status == spec_status(code, None)
}

/// `status` classifies `code` and carries `msg`.
pub open spec fn status_with_msg(code: u32, msg: String, status: ReturnStatus) -> bool {
    status == spec_status(code, Some(msg))
}

/// The known codes whose primary part reports a failure.
pub open spec fn spec_is_error_code(code: u32) -> bool
    recommends
        is_known_code(code),
{
    spec_is_error(spec_rows(code).0.id)
}

/// A code as the driver returns it, a signed integer, names a table line.
pub open spec fn is_known_cint(code: i32) -> bool {
    code >= 0 && is_known_code(code as u32)
}

pub fn get_is_error(id: &PrimaryRC) -> (r: bool)
    ensures
        r == spec_is_error(*id),
{
    match id {
        PrimaryRC::SQLITE_OK => false,
        PrimaryRC::SQLITE_ROW => false,
        PrimaryRC::SQLITE_DONE => false,
        _ => true,
    }
}

/// Classifies a result code.
pub fn to_return_status(code: &u32) -> (status: ReturnStatus)
    requires
        is_known_code(*code),
    ensures
        status == spec_status(*code, None),
{
    let (primary, extended) = get_rows(code);
    let is_ok = match primary.id {
        PrimaryRC::SQLITE_OK => true,
        _ => false,
    };
    let is_err = get_is_error(&primary.id);
    ReturnStatus { is_ok, is_err, primary, extended, err_msg: None }
}

/// Classifies any number: `None` where the table has no line for it.
pub fn try_to_return_status(code: i32) -> (found: Option<ReturnStatus>)
    ensures
        found == if is_known_cint(code) {
            Some(spec_status(code as u32, None))
        } else {
            None
        },
{
    if code < 0 {
        return None;
    }
    let c: u32 = code as u32;
    match find_rows(c) {
        Some(_) => Some(to_return_status(&c)),
        None => None,
    }
}

/// Classifies what a driver call returned.
pub fn to_return_status_cint(code: &i32) -> (status: ReturnStatus)
    requires
        is_known_cint(*code),
    ensures
        status == spec_status(*code as u32, None),
{
    let c: u32 = *code as u32;
    to_return_status(&c)
}

/// Classifies what a driver call returned; anything but `SQLITE_OK` is the error.
pub fn to_return_status_cint_err(code: &i32) -> (res: Result<ReturnStatus, ReturnStatus>)
    requires
        is_known_cint(*code),
    ensures
        res == if spec_status(*code as u32, None).is_ok {
            Ok::<ReturnStatus, ReturnStatus>(spec_status(*code as u32, None))
        } else {
            Err(spec_status(*code as u32, None))
        },
{
    let c: u32 = *code as u32;
    let r = to_return_status(&c);
    if r.is_ok {
        Ok(r)
    } else {
        Err(r)
    }
}

/// Classifies what a driver call on a connection returned. A failure comes
/// back as the error and carries `db_msg`, the connection's latest message.
pub fn to_return_status_cint_db_err(code: &i32, db_msg: String) -> (res: Result<
    ReturnStatus,
    ReturnStatus,
>)
    requires
        is_known_cint(*code),
    ensures
        res == if spec_is_error_code(*code as u32) {
            Err::<ReturnStatus, ReturnStatus>(spec_status(*code as u32, Some(db_msg)))
        } else {
            Ok(spec_status(*code as u32, None))
        },
{
    let c: u32 = *code as u32;
    let mut r = to_return_status(&c);
    if r.is_err {
        r.err_msg = Some(db_msg);
        return Err(r);
    }
    Ok(r)
}

impl FromSpecImpl<PrimaryRC> for ReturnStatus {
    open spec fn obeys_from_spec() -> bool {
        true
    }

    /// The status of a primary code alone.
    open spec fn from_spec(prc: PrimaryRC) -> Self {
        ReturnStatus {
            is_ok: prc == PrimaryRC::SQLITE_OK,
            is_err: spec_is_error(prc),
            primary: PrimaryRow { id: prc, code: primary_code(prc) },
            extended: None,
            err_msg: None,
        }
    }
}

impl From<PrimaryRC> for ReturnStatus {
    fn from(prc: PrimaryRC) -> (status: Self) {
        let code = primary_code_of(prc);
        proof {
            law_primary_is_known(prc);
        }
        to_return_status(&code)
    }
}

} // verus!

//! A connection to a database file, and what can go wrong between binding data
//! to a statement and running it.

use vstd::prelude::*;
use vstd::std_specs::convert::FromSpecImpl;
use crate::err::{
    ReturnStatus, is_known_cint, spec_is_error_code, status_of, status_with_msg,
    to_return_status_cint_err,
};
use crate::errmap::{PrimaryRC, primary_code, spec_get_primary};
use crate::placeholder::{meta_of, well_prefixed};
use crate::sma::{Bound, Params, params_of};
use crate::stmt::{ErrorBind, IndexVal, KeyVal, Prepared, StmtHandle, spec_is_iud};

verus! {

/// An open connection. The library keeps the driver's name for it and the
/// file it was opened on; whoever talks to the driver closes it.
#[derive(Debug)]
pub struct DbHandle {
    /// The driver's name for the connection.
    pub db: usize,
    pub file: String,
}

/// Why a statement with data did not run: the data could not be bound, or the
/// driver reported a failure.
#[derive(Debug, Clone)]
pub enum BindRunError {
    ReturnStatus(ReturnStatus),
    ErrorBind(ErrorBind),
}

impl FromSpecImpl<ReturnStatus> for BindRunError {
    open spec fn obeys_from_spec() -> bool {
        true
    }

    open spec fn from_spec(rs: ReturnStatus) -> Self {
        BindRunError::ReturnStatus(rs)
    }
}

impl From<ReturnStatus> for BindRunError {
    fn from(rs: ReturnStatus) -> (e: Self) {
        BindRunError::ReturnStatus(rs)
    }
}

impl FromSpecImpl<ErrorBind> for BindRunError {
    open spec fn obeys_from_spec() -> bool {
        true
    }

    open spec fn from_spec(eb: ErrorBind) -> Self {
        BindRunError::ErrorBind(eb)
    }
}

impl From<ErrorBind> for BindRunError {
    fn from(eb: ErrorBind) -> (e: Self) {
        BindRunError::ErrorBind(eb)
    }
}

impl DbHandle {
    /// The connection that the driver opened on `file` under the name `db`, or
    /// the status with which it refused to: any code but `SQLITE_OK`.
    pub fn new(file: String, db: usize, open_code: &i32) -> (r: Result<DbHandle, ReturnStatus>)
        requires
            is_known_cint(*open_code),
        ensures
            r is Ok <==> spec_get_primary(*open_code as u32) == primary_code(PrimaryRC::SQLITE_OK),
            r matches Ok(h) ==> h.db == db && h.file == file,
            r matches Err(status) ==> status_of(*open_code as u32, status),
    {
        match to_return_status_cint_err(open_code) {
            Err(status) => Err(status),
            Ok(_) => Ok(DbHandle { file, db }),
        }
    }

    /// The statement that the driver prepared on this connection from `q`.
    pub fn new_stmt(&self, q: &str, prepared: Prepared) -> (r: Result<StmtHandle, ReturnStatus>)
        requires
            is_known_cint(prepared.code),
            prepared.names.len() <= u32::MAX,
            well_prefixed(prepared.names@),
        ensures
            r is Err <==> spec_is_error_code(prepared.code as u32),
            r matches Err(status) ==> status_with_msg(
                prepared.code as u32,
                prepared.db_msg,
                status,
            ),
            r matches Ok(s) ==> {
                &&& s.wf()
                &&& s.db == self.db
                &&& s.stmt == prepared.stmt
                &&& s.is_read_only == prepared.read_only
                &&& s.is_iud == spec_is_iud(q@)
                &&& meta_of(prepared.names@, s.placeholder_meta)
            },
    {
        StmtHandle::new(self, q, prepared)
    }

    /// A statement with key data, ready to run: the statement as the
    /// driver prepared it, with the bindings that give each key its value;
    /// or the refusal, for a statement that was not prepared and for data
    /// that cannot be bound.
    pub fn run_kv<'a>(prepared: Result<StmtHandle, ReturnStatus>, kv: &'a KeyVal) -> (r: Result<
        Bound<'a>,
        BindRunError,
    >)
        requires
            prepared matches Ok(s) ==> s.wf(),
            kv.data.wf(),
        ensures
            params_of(prepared, Params::Key(*kv), r),
    {
        match prepared {
            Err(rs) => Err(BindRunError::ReturnStatus(rs)),
            Ok(s) => match s.bind_kv(kv) {
                Err(eb) => Err(BindRunError::ErrorBind(eb)),
                Ok(bindings) => Ok(Bound { stmt: s, bindings }),
            },
        }
    }

    /// A statement with index data, ready to run, or the refusal.
    pub fn run_index<'a>(prepared: Result<StmtHandle, ReturnStatus>, vals: &'a IndexVal) -> (r:
        Result<Bound<'a>, BindRunError>)
        requires
            prepared matches Ok(s) ==> s.wf(),
        ensures
            params_of(prepared, Params::Index(*vals), r),
    {
        match prepared {
            Err(rs) => Err(BindRunError::ReturnStatus(rs)),
            Ok(s) => match s.bind_index(vals) {
                Err(eb) => Err(BindRunError::ErrorBind(eb)),
                Ok(bindings) => Ok(Bound { stmt: s, bindings }),
            },
        }
    }
}

/// Says whether the driver turned extended result codes on: any code but
/// `SQLITE_OK` is the error.
pub fn extended_result_codes_on(code: &i32) -> (r: Result<ReturnStatus, ReturnStatus>)
    requires
        is_known_cint(*code),
    ensures
        r is Ok <==> spec_get_primary(*code as u32) == primary_code(PrimaryRC::SQLITE_OK),
        r matches Ok(status) ==> status_of(*code as u32, status),
        r matches Err(status) ==> status_of(*code as u32, status),
{
    to_return_status_cint_err(code)
}

} // verus!

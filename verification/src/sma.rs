//! Transactions on one connection: a file handle becomes a read or a write
//! transaction, statements are admitted by what the transaction allows, and
//! commit or rollback gives the file handle back.
//!
//! The driver's work happens between the calls: each function here takes what
//! the driver answered and says what that means.

use vstd::prelude::*;
use vstd::std_specs::convert::FromSpecImpl;
use crate::db::{BindRunError, DbHandle};
use crate::err::ReturnStatus;
use crate::errmap::PrimaryRC;
use crate::stmt::{
    Binding, ErrorBind, IndexVal, KeyVal, RSet, StmtHandle, Val, index_bind_of, kv_bind_of,
};
use crate::text::str_eq;
use crate::utils::{get_unique_id, is_hyphenated_lower};

verus! {

/// Opens a read transaction.
pub const BEGIN_READ: &'static str = "BEGIN;";

/// Takes the shared lock of a read transaction, so that all its reads see one
/// snapshot. A plain `BEGIN` takes no lock before the first statement.
pub const TAKE_READ_LOCK: &'static str = "SELECT 1 FROM sqlite_master LIMIT 0";

/// Opens a write transaction and takes the write lock at once.
pub const BEGIN_WRITE: &'static str = "BEGIN IMMEDIATE";

pub const COMMIT: &'static str = "COMMIT";

pub const ROLLBACK: &'static str = "ROLLBACK";

pub const READ_JOURNAL_MODE: &'static str = "PRAGMA journal_mode";

pub const SET_JOURNAL_MODE_WAL: &'static str = "PRAGMA journal_mode=WAL";

pub const SET_SYNCHRONOUS_NORMAL: &'static str = "PRAGMA synchronous=NORMAL";

/// How long to wait before asking again for a journal mode that was busy.
pub const JOURNAL_RETRY_MS: u64 = 16;

/// A connection to a file, outside any transaction.
#[derive(Debug)]
pub struct DbFile {
    pub id: String,
    pub db_handle: DbHandle,
}

/// A connection that holds the write lock of its file.
#[derive(Debug)]
pub struct WriteTx {
    pub id: String,
    pub db_file: DbFile,
}

/// A connection inside a read transaction.
#[derive(Debug)]
pub struct ReadTx {
    pub id: String,
    pub db_file: DbFile,
}

/// The data for the placeholders of a statement.
#[derive(Debug)]
pub enum Params {
    Key(KeyVal),
    Index(IndexVal),
}

#[derive(Debug, Clone, Copy, PartialEq, Eq, Structural)]
pub enum JournalMode {
    Delete,
    Truncate,
    Persist,
    Memory,
    WAL,
    Off,
}

#[derive(Debug, Clone)]
pub enum ReadError {
    /// In a read transaction: the statement would change the file.
    QueryIsWrite,
    /// In a write transaction: the statement was asked for as a read and is
    /// not one that leaves the file as it is.
    QueryIsRead,
    ReturnStatus(ReturnStatus),
}

#[derive(Debug, Clone)]
pub enum ReadBindRunError {
    /// In a read transaction: the statement would change the file.
    QueryIsWrite,
    /// In a write transaction: the statement was asked for as a read and is
    /// not one that leaves the file as it is.
    QueryIsRead,
    BindRunError(BindRunError),
}

#[derive(Debug, Clone)]
pub enum WriteError {
    /// The statement would leave the file as it is.
    QueryIsRead,
    ReturnStatus(ReturnStatus),
}

#[derive(Debug, Clone)]
pub enum WriteBindRunError {
    /// The statement would leave the file as it is.
    QueryIsRead,
    BindRunError(BindRunError),
}

impl FromSpecImpl<ReturnStatus> for ReadError {
    open spec fn obeys_from_spec() -> bool {
        true
    }

    open spec fn from_spec(rs: ReturnStatus) -> Self {
        ReadError::ReturnStatus(rs)
    }
}

impl From<ReturnStatus> for ReadError {
    fn from(rs: ReturnStatus) -> (e: Self) {
        ReadError::ReturnStatus(rs)
    }
}

impl FromSpecImpl<BindRunError> for ReadBindRunError {
    open spec fn obeys_from_spec() -> bool {
        true
    }

    open spec fn from_spec(bre: BindRunError) -> Self {
        ReadBindRunError::BindRunError(bre)
    }
}

impl From<BindRunError> for ReadBindRunError {
    fn from(bre: BindRunError) -> (e: Self) {
        ReadBindRunError::BindRunError(bre)
    }
}

impl FromSpecImpl<ReturnStatus> for ReadBindRunError {
    open spec fn obeys_from_spec() -> bool {
        true
    }

    open spec fn from_spec(rs: ReturnStatus) -> Self {
        ReadBindRunError::BindRunError(BindRunError::ReturnStatus(rs))
    }
}

impl From<ReturnStatus> for ReadBindRunError {
    fn from(rs: ReturnStatus) -> (e: Self) {
        ReadBindRunError::BindRunError(BindRunError::ReturnStatus(rs))
    }
}

impl FromSpecImpl<ErrorBind> for ReadBindRunError {
    open spec fn obeys_from_spec() -> bool {
        true
    }

    open spec fn from_spec(eb: ErrorBind) -> Self {
        ReadBindRunError::BindRunError(BindRunError::ErrorBind(eb))
    }
}

impl From<ErrorBind> for ReadBindRunError {
    fn from(eb: ErrorBind) -> (e: Self) {
        ReadBindRunError::BindRunError(BindRunError::ErrorBind(eb))
    }
}

impl FromSpecImpl<ReturnStatus> for WriteError {
    open spec fn obeys_from_spec() -> bool {
        true
    }

    open spec fn from_spec(rs: ReturnStatus) -> Self {
        WriteError::ReturnStatus(rs)
    }
}

impl From<ReturnStatus> for WriteError {
    fn from(rs: ReturnStatus) -> (e: Self) {
        WriteError::ReturnStatus(rs)
    }
}

impl FromSpecImpl<BindRunError> for WriteBindRunError {
    open spec fn obeys_from_spec() -> bool {
        true
    }

    open spec fn from_spec(bre: BindRunError) -> Self {
        WriteBindRunError::BindRunError(bre)
    }
}

impl From<BindRunError> for WriteBindRunError {
    fn from(bre: BindRunError) -> (e: Self) {
        WriteBindRunError::BindRunError(bre)
    }
}

impl FromSpecImpl<ReturnStatus> for WriteBindRunError {
    open spec fn obeys_from_spec() -> bool {
        true
    }

    open spec fn from_spec(rs: ReturnStatus) -> Self {
        WriteBindRunError::BindRunError(BindRunError::ReturnStatus(rs))
    }
}

impl From<ReturnStatus> for WriteBindRunError {
    fn from(rs: ReturnStatus) -> (e: Self) {
        WriteBindRunError::BindRunError(BindRunError::ReturnStatus(rs))
    }
}

impl FromSpecImpl<ErrorBind> for WriteBindRunError {
    open spec fn obeys_from_spec() -> bool {
        true
    }

    open spec fn from_spec(eb: ErrorBind) -> Self {
        WriteBindRunError::BindRunError(BindRunError::ErrorBind(eb))
    }
}

impl From<ErrorBind> for WriteBindRunError {
    fn from(eb: ErrorBind) -> (e: Self) {
        WriteBindRunError::BindRunError(BindRunError::ErrorBind(eb))
    }
}

/// The journal mode that a text names.
pub open spec fn journal_mode_of(mode: Seq<char>) -> Option<JournalMode> {
    if mode == "delete"@ {
        Some(JournalMode::Delete)
    } else if mode == "truncate"@ {
        Some(JournalMode::Truncate)
    } else if mode == "persist"@ {
        Some(JournalMode::Persist)
    } else if mode == "memory"@ {
        Some(JournalMode::Memory)
    } else if mode == "wal"@ {
        Some(JournalMode::WAL)
    } else if mode == "off"@ {
        Some(JournalMode::Off)
    } else {
        None
    }
}

/// The journal mode that the answer to `PRAGMA journal_mode` reports: the
/// text in the last cell of its last row.
pub open spec fn reported_mode(rset: RSet) -> Option<JournalMode> {
    let rows = rset.rows.data@;
    if rows.len() > 0 && rows.last()@.len() > 0 {
        match rows.last()@.last() {
            Val::String(mode) => journal_mode_of(mode@),
            _ => None,
        }
    } else {
        None
    }
}

impl JournalMode {
    /// The journal mode that a text names, if it names one.
    pub fn parse(mode: &str) -> (r: Option<JournalMode>)
        ensures
            r == journal_mode_of(mode@),
    {
        if str_eq(mode, "delete") {
            Some(JournalMode::Delete)
        } else if str_eq(mode, "truncate") {
            Some(JournalMode::Truncate)
        } else if str_eq(mode, "persist") {
            Some(JournalMode::Persist)
        } else if str_eq(mode, "memory") {
            Some(JournalMode::Memory)
        } else if str_eq(mode, "wal") {
            Some(JournalMode::WAL)
        } else if str_eq(mode, "off") {
            Some(JournalMode::Off)
        } else {
            None
        }
    }

    /// The journal mode that a text names.
    pub fn new(mode: &str) -> (r: JournalMode)
        requires
            journal_mode_of(mode@) is Some,
        ensures
            Some(r) == journal_mode_of(mode@),
    {
        JournalMode::parse(mode).unwrap()
    }

    /// The journal mode in the answer to `PRAGMA journal_mode`, if it holds one.
    pub fn read(rset: &RSet) -> (r: Option<JournalMode>)
        ensures
            r == reported_mode(*rset),
    {
        let rows = &rset.rows.data;
        if rows.len() == 0 {
            return None;
        }
        let row = &rows[rows.len() - 1];
        if row.len() == 0 {
            return None;
        }
        match &row[row.len() - 1] {
            Val::String(mode) => JournalMode::parse(mode.as_str()),
            _ => None,
        }
    }

    /// The journal mode of a file, from what the driver answered to
    /// `PRAGMA journal_mode`.
    pub fn from_db(answer: Result<RSet, ReturnStatus>) -> (r: Result<JournalMode, ReturnStatus>)
        requires
            answer matches Ok(rset) ==> reported_mode(rset) is Some,
        ensures
            match answer {
                Ok(rset) => r is Ok && Some(r->Ok_0) == reported_mode(rset),
                Err(e) => r == Err::<JournalMode, ReturnStatus>(e),
            },
    {
        match answer {
            Ok(rset) => Ok(JournalMode::read(&rset).unwrap()),
            Err(e) => Err(e),
        }
    }
}

/// What happened while a connection was being put into WAL mode.
#[derive(Debug)]
pub enum WalEvent {
    /// The journal mode was asked for.
    Read(Result<JournalMode, ReturnStatus>),
    /// WAL mode was asked for.
    Write(Result<RSet, ReturnStatus>),
}

/// What to do next to put a connection into WAL mode.
#[derive(Debug)]
pub enum WalAction {
    /// Ask for the journal mode again, at once.
    Read,
    /// Wait this many milliseconds, then ask for the journal mode again.
    ReadAfter(u64),
    /// Ask for WAL mode.
    Write,
    /// The file is in WAL mode.
    Done,
    /// The mode could not be read.
    Fail(ReturnStatus),
}

/// The next step towards WAL mode after `event`.
pub open spec fn wal_next(event: WalEvent) -> WalAction {
    match event {
        WalEvent::Read(Ok(JournalMode::WAL)) => WalAction::Done,
        WalEvent::Read(Ok(_)) => WalAction::Write,
        WalEvent::Read(Err(e)) => if e.primary.id == PrimaryRC::SQLITE_BUSY {
            WalAction::ReadAfter(JOURNAL_RETRY_MS)
        } else {
            WalAction::Fail(e)
        },
        WalEvent::Write(Ok(_)) => WalAction::Read,
        WalEvent::Write(Err(_)) => WalAction::ReadAfter(JOURNAL_RETRY_MS),
    }
}

impl DbFile {
    /// A file handle on a connection whose pragmas were set, or the status
    /// with which setting them failed.
    pub fn new(db_handle: DbHandle, pragmas: Result<(), ReturnStatus>) -> (r: Result<
        DbFile,
        ReturnStatus,
    >)
        ensures
            match pragmas {
                Ok(_) => r matches Ok(f) && f.db_handle == db_handle && is_hyphenated_lower(f.id@),
                Err(e) => r == Err::<DbFile, ReturnStatus>(e),
            },
    {
        match pragmas {
            Err(e) => Err(e),
            Ok(_) => Ok(DbFile { id: get_unique_id(), db_handle }),
        }
    }

    /// What setting the pragmas of a connection came to: WAL mode first, and
    /// `PRAGMA synchronous=NORMAL` only once that is done.
    pub fn set_connection_pragmas(
        wal: Result<(), ReturnStatus>,
        synchronous: Option<Result<RSet, ReturnStatus>>,
    ) -> (r: Result<(), ReturnStatus>)
        ensures
            r == match wal {
                Err(e) => Err::<(), ReturnStatus>(e),
                Ok(_) => match synchronous {
                    Some(Err(e)) => Err(e),
                    _ => Ok(()),
                },
            },
    {
        match wal {
            Err(e) => Err(e),
            Ok(_) => match synchronous {
                Some(Err(e)) => Err(e),
                _ => Ok(()),
            },
        }
    }

    /// One step of putting a connection into WAL mode: read the mode; where it
    /// is not WAL, ask for WAL and read again; where the file is busy, wait
    /// and read again. A mode that cannot be read for another reason ends it.
    pub fn set_journal_mode_wal(event: WalEvent) -> (action: WalAction)
        requires
            event matches WalEvent::Write(Err(e)) ==> e.primary.id == PrimaryRC::SQLITE_BUSY,
        ensures
            action == wal_next(event),
    {
        match event {
            WalEvent::Read(Ok(mode)) => match mode {
                JournalMode::WAL => WalAction::Done,
                _ => WalAction::Write,
            },
            WalEvent::Read(Err(e)) => {
                let busy = match e.primary.id {
                    PrimaryRC::SQLITE_BUSY => true,
                    _ => false,
                };
                if busy {
                    WalAction::ReadAfter(JOURNAL_RETRY_MS)
                } else {
                    WalAction::Fail(e)
                }
            },
            WalEvent::Write(Ok(_)) => WalAction::Read,
            WalEvent::Write(Err(_)) => WalAction::ReadAfter(JOURNAL_RETRY_MS),
        }
    }

    /// Turns the file handle into a read transaction. `began` is what running
    /// `BEGIN_READ` and then `TAKE_READ_LOCK` came to: the first failure, if
    /// there was one. A failure gives the file handle back.
    pub fn get_read_tx(self, began: Result<RSet, ReturnStatus>) -> (r: Result<
        ReadTx,
        (DbFile, ReturnStatus),
    >)
        ensures
            match began {
                Ok(_) => r matches Ok(tx) && tx.db_file == self && is_hyphenated_lower(tx.id@),
                Err(e) => r == Err::<ReadTx, (DbFile, ReturnStatus)>((self, e)),
            },
    {
        match began {
            Err(e) => Err((self, e)),
            Ok(_) => Ok(ReadTx { id: get_unique_id(), db_file: self }),
        }
    }

    /// Turns the file handle into a write transaction. `began` is what running
    /// `BEGIN_WRITE` came to. A failure gives the file handle back.
    pub fn get_write_tx(self, began: Result<RSet, ReturnStatus>) -> (r: Result<
        WriteTx,
        (DbFile, ReturnStatus),
    >)
        ensures
            match began {
                Ok(_) => r matches Ok(tx) && tx.db_file == self && is_hyphenated_lower(tx.id@),
                Err(e) => r == Err::<WriteTx, (DbFile, ReturnStatus)>((self, e)),
            },
    {
        match began {
            Err(e) => Err((self, e)),
            Ok(_) => Ok(WriteTx { id: get_unique_id(), db_file: self }),
        }
    }

    /// The path the connection was opened on.
    pub fn get_file_abs(&self) -> (file: String)
        ensures
            file@ == self.db_handle.file@,
    {
        self.db_handle.file.clone()
    }
}

impl Params {
    /// The invariant of the data: no key twice.
    pub open spec fn wf(&self) -> bool {
        self matches Params::Key(kv) ==> kv.data.wf()
    }
}

/// What binding `p` to the statement `s` gives.
pub open spec fn bind_of(s: StmtHandle, p: Params, r: Result<Vec<Binding>, ErrorBind>) -> bool {
    match p {
        Params::Key(kv) => kv_bind_of(s.placeholder_meta, kv.data, r),
        Params::Index(vals) => index_bind_of(s.placeholder_meta, vals@, r),
    }
}

/// The bindings that give the placeholders of `s` their values from `p`.
pub fn bind_params<'a>(s: &StmtHandle, p: &'a Params) -> (r: Result<Vec<Binding<'a>>, ErrorBind>)
    requires
        s.wf(),
        p.wf(),
    ensures
        bind_of(*s, *p, r),
{
    match p {
        Params::Key(kv) => s.bind_kv(kv),
        Params::Index(i) => s.bind_index(i),
    }
}

/// A statement with its data, ready to run.
pub struct Bound<'a> {
    pub stmt: StmtHandle,
    pub bindings: Vec<Binding<'a>>,
}

/// The refusal of a statement that was to read and does not: in a read
/// transaction it is a write, in a write transaction it is not the read it
/// was asked for as.
pub open spec fn read_refusal(in_write_tx: bool) -> ReadError {
    if in_write_tx {
        ReadError::QueryIsRead
    } else {
        ReadError::QueryIsWrite
    }
}

/// The refusal of a statement with data that was to read and does not.
pub open spec fn read_bind_refusal(in_write_tx: bool) -> ReadBindRunError {
    if in_write_tx {
        ReadBindRunError::QueryIsRead
    } else {
        ReadBindRunError::QueryIsWrite
    }
}

/// What a statement that may only read comes to: itself, or the refusal.
pub open spec fn spec_read_only(
    prepared: Result<StmtHandle, ReturnStatus>,
    in_write_tx: bool,
) -> Result<StmtHandle, ReadError> {
    match prepared {
        Err(rs) => Err(ReadError::ReturnStatus(rs)),
        Ok(s) => if s.is_read_only {
            Ok(s)
        } else {
            Err(read_refusal(in_write_tx))
        },
    }
}

/// What a statement that must write comes to: itself, or the refusal.
pub open spec fn spec_write_only(prepared: Result<StmtHandle, ReturnStatus>) -> Result<
    StmtHandle,
    WriteError,
> {
    match prepared {
        Err(rs) => Err(WriteError::ReturnStatus(rs)),
        Ok(s) => if s.is_read_only {
            Err(WriteError::QueryIsRead)
        } else {
            Ok(s)
        },
    }
}

/// What a statement with data comes to, whatever it does: ready to run with
/// its bindings, or refused because it was not prepared or the data cannot
/// be bound.
pub open spec fn params_of(
    prepared: Result<StmtHandle, ReturnStatus>,
    p: Params,
    r: Result<Bound, BindRunError>,
) -> bool {
    match prepared {
        Err(rs) => r == Err::<Bound, BindRunError>(BindRunError::ReturnStatus(rs)),
        Ok(s) => match r {
            Ok(b) => b.stmt == s && bind_of(s, p, Ok(b.bindings)),
            Err(BindRunError::ErrorBind(eb)) => bind_of(s, p, Err(eb)),
            Err(_) => false,
        },
    }
}

/// What a statement with data that may only read comes to. Whether it reads
/// is settled before the data is looked at.
pub open spec fn read_params_of(
    prepared: Result<StmtHandle, ReturnStatus>,
    p: Params,
    in_write_tx: bool,
    r: Result<Bound, ReadBindRunError>,
) -> bool {
    match prepared {
        Err(rs) => r == Err::<Bound, ReadBindRunError>(
            ReadBindRunError::BindRunError(BindRunError::ReturnStatus(rs)),
        ),
        Ok(s) => if !s.is_read_only {
            r == Err::<Bound, ReadBindRunError>(read_bind_refusal(in_write_tx))
        } else {
            match r {
                Ok(b) => b.stmt == s && bind_of(s, p, Ok(b.bindings)),
                Err(ReadBindRunError::BindRunError(BindRunError::ErrorBind(eb))) => bind_of(
                    s,
                    p,
                    Err(eb),
                ),
                Err(_) => false,
            }
        },
    }
}

/// What a statement with data that must write comes to. Whether it writes
/// is settled before the data is looked at.
pub open spec fn write_params_of(
    prepared: Result<StmtHandle, ReturnStatus>,
    p: Params,
    r: Result<Bound, WriteBindRunError>,
) -> bool {
    match prepared {
        Err(rs) => r == Err::<Bound, WriteBindRunError>(
            WriteBindRunError::BindRunError(BindRunError::ReturnStatus(rs)),
        ),
        Ok(s) => if s.is_read_only {
            r == Err::<Bound, WriteBindRunError>(WriteBindRunError::QueryIsRead)
        } else {
            match r {
                Ok(b) => b.stmt == s && bind_of(s, p, Ok(b.bindings)),
                Err(WriteBindRunError::BindRunError(BindRunError::ErrorBind(eb))) => bind_of(
                    s,
                    p,
                    Err(eb),
                ),
                Err(_) => false,
            }
        },
    }
}

/// Admits a statement with data whatever it does: a statement that could not
/// be prepared and data that cannot be bound are the only refusals.
pub fn run_params<'a>(prepared: Result<StmtHandle, ReturnStatus>, p: &'a Params) -> (r: Result<
    Bound<'a>,
    BindRunError,
>)
    requires
        prepared matches Ok(s) ==> s.wf(),
        p.wf(),
    ensures
        params_of(prepared, *p, r),
{
    match p {
        Params::Key(kv) => DbHandle::run_kv(prepared, kv),
        Params::Index(i) => DbHandle::run_index(prepared, i),
    }
}

/// Admits a statement only if it leaves the file as it is. The refusal says
/// what is wrong by the kind of transaction: in a read transaction the
/// statement is a write, in a write transaction it is not the read that the
/// client called it.
pub fn run_read_only(prepared: Result<StmtHandle, ReturnStatus>, in_write_tx: bool) -> (r: Result<
    StmtHandle,
    ReadError,
>)
    ensures
        r == spec_read_only(prepared, in_write_tx),
{
    match prepared {
        Err(rs) => Err(ReadError::ReturnStatus(rs)),
        Ok(s) => {
            if !s.is_read_only {
                if in_write_tx {
                    return Err(ReadError::QueryIsRead);
                }
                return Err(ReadError::QueryIsWrite);
            }
            Ok(s)
        },
    }
}

/// Admits a statement with data only if it leaves the file as it is. The
/// data is not looked at before that is settled.
pub fn run_params_read_only<'a>(
    prepared: Result<StmtHandle, ReturnStatus>,
    p: &'a Params,
    in_write_tx: bool,
) -> (r: Result<Bound<'a>, ReadBindRunError>)
    requires
        prepared matches Ok(s) ==> s.wf(),
        p.wf(),
    ensures
        read_params_of(prepared, *p, in_write_tx, r),
{
    match prepared {
        Err(rs) => Err(ReadBindRunError::BindRunError(BindRunError::ReturnStatus(rs))),
        Ok(s) => {
            if !s.is_read_only {
                if in_write_tx {
                    return Err(ReadBindRunError::QueryIsRead);
                }
                return Err(ReadBindRunError::QueryIsWrite);
            }
            match bind_params(&s, p) {
                Err(eb) => Err(ReadBindRunError::BindRunError(BindRunError::ErrorBind(eb))),
                Ok(bindings) => Ok(Bound { stmt: s, bindings }),
            }
        },
    }
}

/// Admits a statement only if it changes the file.
pub fn run_write_only(prepared: Result<StmtHandle, ReturnStatus>) -> (r: Result<
    StmtHandle,
    WriteError,
>)
    ensures
        r == spec_write_only(prepared),
{
    match prepared {
        Err(rs) => Err(WriteError::ReturnStatus(rs)),
        Ok(s) => {
            if s.is_read_only {
                return Err(WriteError::QueryIsRead);
            }
            Ok(s)
        },
    }
}

/// Admits a statement with data only if it changes the file. The data is not
/// looked at before that is settled.
pub fn run_params_write_only<'a>(
    prepared: Result<StmtHandle, ReturnStatus>,
    p: &'a Params,
) -> (r: Result<Bound<'a>, WriteBindRunError>)
    requires
        prepared matches Ok(s) ==> s.wf(),
        p.wf(),
    ensures
        write_params_of(prepared, *p, r),
{
    match prepared {
        Err(rs) => Err(WriteBindRunError::BindRunError(BindRunError::ReturnStatus(rs))),
        Ok(s) => {
            if s.is_read_only {
                return Err(WriteBindRunError::QueryIsRead);
            }
            match bind_params(&s, p) {
                Err(eb) => Err(WriteBindRunError::BindRunError(BindRunError::ErrorBind(eb))),
                Ok(bindings) => Ok(Bound { stmt: s, bindings }),
            }
        },
    }
}

impl ReadTx {
    /// Admits a statement to a read transaction: it must leave the file as it is.
    pub fn q(&self, prepared: Result<StmtHandle, ReturnStatus>) -> (r: Result<
        StmtHandle,
        ReadError,
    >)
        ensures
            r == spec_read_only(prepared, false),
    {
        run_read_only(prepared, false)
    }

    /// Admits a statement with data to a read transaction.
    pub fn q_params<'a>(&self, prepared: Result<StmtHandle, ReturnStatus>, p: &'a Params) -> (r:
        Result<Bound<'a>, ReadBindRunError>)
        requires
            prepared matches Ok(s) ==> s.wf(),
            p.wf(),
        ensures
            read_params_of(prepared, *p, false, r),
    {
        run_params_read_only(prepared, p, false)
    }

    /// Ends the transaction: `outcome` is what running `COMMIT` came to. The
    /// file handle comes back either way.
    pub fn commit(self, outcome: Result<RSet, ReturnStatus>) -> (r: (
        DbFile,
        Result<RSet, ReturnStatus>,
    ))
        ensures
            r == (self.db_file, outcome),
    {
        (self.db_file, outcome)
    }

    /// Ends the transaction: `outcome` is what running `ROLLBACK` came to. The
    /// file handle comes back either way.
    pub fn rollback(self, outcome: Result<RSet, ReturnStatus>) -> (r: (
        DbFile,
        Result<RSet, ReturnStatus>,
    ))
        ensures
            r == (self.db_file, outcome),
    {
        (self.db_file, outcome)
    }
}

impl WriteTx {
    /// Admits a statement that the client calls a read: it must leave the
    /// file as it is, else it is refused as not being the read it was called.
    pub fn read(&self, prepared: Result<StmtHandle, ReturnStatus>) -> (r: Result<
        StmtHandle,
        ReadError,
    >)
        ensures
            r == spec_read_only(prepared, true),
    {
        run_read_only(prepared, true)
    }

    /// Admits a statement with data that the client calls a read.
    pub fn read_params<'a>(
        &self,
        prepared: Result<StmtHandle, ReturnStatus>,
        p: &'a Params,
    ) -> (r: Result<Bound<'a>, ReadBindRunError>)
        requires
            prepared matches Ok(s) ==> s.wf(),
            p.wf(),
        ensures
            read_params_of(prepared, *p, true, r),
    {
        run_params_read_only(prepared, p, true)
    }

    /// Admits a statement that the client calls a write: it must change the file.
    pub fn write(&self, prepared: Result<StmtHandle, ReturnStatus>) -> (r: Result<
        StmtHandle,
        WriteError,
    >)
        ensures
            r == spec_write_only(prepared),
    {
        run_write_only(prepared)
    }

    /// Admits a statement with data that the client calls a write.
    pub fn write_params<'a>(
        &self,
        prepared: Result<StmtHandle, ReturnStatus>,
        p: &'a Params,
    ) -> (r: Result<Bound<'a>, WriteBindRunError>)
        requires
            prepared matches Ok(s) ==> s.wf(),
            p.wf(),
        ensures
            write_params_of(prepared, *p, r),
    {
        run_params_write_only(prepared, p)
    }

    /// Admits any statement: the client did not say what it does.
    pub fn q(&self, prepared: Result<StmtHandle, ReturnStatus>) -> (r: Result<
        StmtHandle,
        ReturnStatus,
    >)
        ensures
            r == prepared,
    {
        prepared
    }

    /// Admits any statement with data.
    pub fn q_params<'a>(&self, prepared: Result<StmtHandle, ReturnStatus>, p: &'a Params) -> (r:
        Result<Bound<'a>, BindRunError>)
        requires
            prepared matches Ok(s) ==> s.wf(),
            p.wf(),
        ensures
            params_of(prepared, *p, r),
    {
        run_params(prepared, p)
    }

    /// Ends the transaction: `outcome` is what running `COMMIT` came to. The
    /// file handle comes back either way.
    pub fn commit(self, outcome: Result<RSet, ReturnStatus>) -> (r: (
        DbFile,
        Result<RSet, ReturnStatus>,
    ))
        ensures
            r == (self.db_file, outcome),
    {
        (self.db_file, outcome)
    }

    /// Ends the transaction: `outcome` is what running `ROLLBACK` came to. The
    /// file handle comes back either way.
    pub fn rollback(self, outcome: Result<RSet, ReturnStatus>) -> (r: (
        DbFile,
        Result<RSet, ReturnStatus>,
    ))
        ensures
            r == (self.db_file, outcome),
    {
        (self.db_file, outcome)
    }
}

} // verus!

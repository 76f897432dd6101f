//! The table of SQLite result codes: every primary and extended code the
//! driver can hand back, as an enum variant and as its number.

use vstd::prelude::*;

verus! {

/// The primary result codes.
#[allow(non_camel_case_types)]
#[derive(Debug, Clone, Copy, PartialEq, Eq, Structural)]
pub enum PrimaryRC {
    SQLITE_OK,
    SQLITE_ERROR,
    SQLITE_INTERNAL,
    SQLITE_PERM,
    SQLITE_ABORT,
    SQLITE_BUSY,
    SQLITE_LOCKED,
    SQLITE_NOMEM,
    SQLITE_READONLY,
    SQLITE_INTERRUPT,
    SQLITE_IOERR,
    SQLITE_CORRUPT,
    SQLITE_NOTFOUND,
    SQLITE_FULL,
    SQLITE_CANTOPEN,
    SQLITE_PROTOCOL,
    SQLITE_EMPTY,
    SQLITE_SCHEMA,
    SQLITE_TOOBIG,
    SQLITE_CONSTRAINT,
    SQLITE_MISMATCH,
    SQLITE_MISUSE,
    SQLITE_NOLFS,
    SQLITE_AUTH,
    SQLITE_FORMAT,
    SQLITE_RANGE,
    SQLITE_NOTADB,
    SQLITE_NOTICE,
    SQLITE_WARNING,
    SQLITE_ROW,
    SQLITE_DONE,
}

/// The extended result codes: a primary code in the low byte and a reason above it.
#[allow(non_camel_case_types)]
#[derive(Debug, Clone, Copy, PartialEq, Eq, Structural)]
pub enum ExtendedRC {
    SQLITE_ERROR_MISSING_COLLSEQ,
    SQLITE_ERROR_RETRY,
    SQLITE_ERROR_SNAPSHOT,
    SQLITE_IOERR_READ,
    SQLITE_IOERR_SHORT_READ,
    SQLITE_IOERR_WRITE,
    SQLITE_IOERR_FSYNC,
    SQLITE_IOERR_DIR_FSYNC,
    SQLITE_IOERR_TRUNCATE,
    SQLITE_IOERR_FSTAT,
    SQLITE_IOERR_UNLOCK,
    SQLITE_IOERR_RDLOCK,
    SQLITE_IOERR_DELETE,
    SQLITE_IOERR_BLOCKED,
    SQLITE_IOERR_NOMEM,
    SQLITE_IOERR_ACCESS,
    SQLITE_IOERR_CHECKRESERVEDLOCK,
    SQLITE_IOERR_LOCK,
    SQLITE_IOERR_CLOSE,
    SQLITE_IOERR_DIR_CLOSE,
    SQLITE_IOERR_SHMOPEN,
    SQLITE_IOERR_SHMSIZE,
    SQLITE_IOERR_SHMLOCK,
    SQLITE_IOERR_SHMMAP,
    SQLITE_IOERR_SEEK,
    SQLITE_IOERR_DELETE_NOENT,
    SQLITE_IOERR_MMAP,
    SQLITE_IOERR_GETTEMPPATH,
    SQLITE_IOERR_CONVPATH,
    SQLITE_IOERR_VNODE,
    SQLITE_IOERR_AUTH,
    SQLITE_IOERR_BEGIN_ATOMIC,
    SQLITE_IOERR_COMMIT_ATOMIC,
    SQLITE_IOERR_ROLLBACK_ATOMIC,
    SQLITE_LOCKED_SHAREDCACHE,
    SQLITE_LOCKED_VTAB,
    SQLITE_BUSY_RECOVERY,
    SQLITE_BUSY_SNAPSHOT,
    SQLITE_CANTOPEN_NOTEMPDIR,
    SQLITE_CANTOPEN_ISDIR,
    SQLITE_CANTOPEN_FULLPATH,
    SQLITE_CANTOPEN_CONVPATH,
    SQLITE_CANTOPEN_DIRTYWAL,
    SQLITE_CORRUPT_VTAB,
    SQLITE_CORRUPT_SEQUENCE,
    SQLITE_READONLY_RECOVERY,
    SQLITE_READONLY_CANTLOCK,
    SQLITE_READONLY_ROLLBACK,
    SQLITE_READONLY_DBMOVED,
    SQLITE_READONLY_CANTINIT,
    SQLITE_READONLY_DIRECTORY,
    SQLITE_ABORT_ROLLBACK,
    SQLITE_CONSTRAINT_CHECK,
    SQLITE_CONSTRAINT_COMMITHOOK,
    SQLITE_CONSTRAINT_FOREIGNKEY,
    SQLITE_CONSTRAINT_FUNCTION,
    SQLITE_CONSTRAINT_NOTNULL,
    SQLITE_CONSTRAINT_PRIMARYKEY,
    SQLITE_CONSTRAINT_TRIGGER,
    SQLITE_CONSTRAINT_UNIQUE,
    SQLITE_CONSTRAINT_VTAB,
    SQLITE_CONSTRAINT_ROWID,
    SQLITE_NOTICE_RECOVER_WAL,
    SQLITE_NOTICE_RECOVER_ROLLBACK,
    SQLITE_WARNING_AUTOINDEX,
    SQLITE_AUTH_USER,
    SQLITE_OK_LOAD_PERMANENTLY,
}

/// One line of the primary table: a code under both of its names.
#[derive(Debug, Clone, Copy, PartialEq, Eq, Structural)]
pub struct PrimaryRow {
    pub id: PrimaryRC,
    pub code: u32,
}

/// One line of the extended table.
#[derive(Debug, Clone, Copy, PartialEq, Eq, Structural)]
pub struct ExtendedRow {
    pub id: ExtendedRC,
    pub code: u32,
}

/// The number of a primary result code.
pub open spec fn primary_code(id: PrimaryRC) -> u32 {
    match id {
        PrimaryRC::SQLITE_OK => 0,
        PrimaryRC::SQLITE_ERROR => 1,
        PrimaryRC::SQLITE_INTERNAL => 2,
        PrimaryRC::SQLITE_PERM => 3,
        PrimaryRC::SQLITE_ABORT => 4,
        PrimaryRC::SQLITE_BUSY => 5,
        PrimaryRC::SQLITE_LOCKED => 6,
        PrimaryRC::SQLITE_NOMEM => 7,
        PrimaryRC::SQLITE_READONLY => 8,
        PrimaryRC::SQLITE_INTERRUPT => 9,
        PrimaryRC::SQLITE_IOERR => 10,
        PrimaryRC::SQLITE_CORRUPT => 11,
        PrimaryRC::SQLITE_NOTFOUND => 12,
        PrimaryRC::SQLITE_FULL => 13,
        PrimaryRC::SQLITE_CANTOPEN => 14,
        PrimaryRC::SQLITE_PROTOCOL => 15,
        PrimaryRC::SQLITE_EMPTY => 16,
        PrimaryRC::SQLITE_SCHEMA => 17,
        PrimaryRC::SQLITE_TOOBIG => 18,
        PrimaryRC::SQLITE_CONSTRAINT => 19,
        PrimaryRC::SQLITE_MISMATCH => 20,
        PrimaryRC::SQLITE_MISUSE => 21,
        PrimaryRC::SQLITE_NOLFS => 22,
        PrimaryRC::SQLITE_AUTH => 23,
        PrimaryRC::SQLITE_FORMAT => 24,
        PrimaryRC::SQLITE_RANGE => 25,
        PrimaryRC::SQLITE_NOTADB => 26,
        PrimaryRC::SQLITE_NOTICE => 27,
        PrimaryRC::SQLITE_WARNING => 28,
        PrimaryRC::SQLITE_ROW => 100,
        PrimaryRC::SQLITE_DONE => 101,
    }
}

/// The number of an extended result code.
pub open spec fn extended_code(id: ExtendedRC) -> u32 {
    match id {
        ExtendedRC::SQLITE_ERROR_MISSING_COLLSEQ => 257,
        ExtendedRC::SQLITE_ERROR_RETRY => 513,
        ExtendedRC::SQLITE_ERROR_SNAPSHOT => 769,
        ExtendedRC::SQLITE_IOERR_READ => 266,
        ExtendedRC::SQLITE_IOERR_SHORT_READ => 522,
        ExtendedRC::SQLITE_IOERR_WRITE => 778,
        ExtendedRC::SQLITE_IOERR_FSYNC => 1034,
        ExtendedRC::SQLITE_IOERR_DIR_FSYNC => 1290,
        ExtendedRC::SQLITE_IOERR_TRUNCATE => 1546,
        ExtendedRC::SQLITE_IOERR_FSTAT => 1802,
        ExtendedRC::SQLITE_IOERR_UNLOCK => 2058,
        ExtendedRC::SQLITE_IOERR_RDLOCK => 2314,
        ExtendedRC::SQLITE_IOERR_DELETE => 2570,
        ExtendedRC::SQLITE_IOERR_BLOCKED => 2826,
        ExtendedRC::SQLITE_IOERR_NOMEM => 3082,
        ExtendedRC::SQLITE_IOERR_ACCESS => 3338,
        ExtendedRC::SQLITE_IOERR_CHECKRESERVEDLOCK => 3594,
        ExtendedRC::SQLITE_IOERR_LOCK => 3850,
        ExtendedRC::SQLITE_IOERR_CLOSE => 4106,
        ExtendedRC::SQLITE_IOERR_DIR_CLOSE => 4362,
        ExtendedRC::SQLITE_IOERR_SHMOPEN => 4618,
        ExtendedRC::SQLITE_IOERR_SHMSIZE => 4874,
        ExtendedRC::SQLITE_IOERR_SHMLOCK => 5130,
        ExtendedRC::SQLITE_IOERR_SHMMAP => 5386,
        ExtendedRC::SQLITE_IOERR_SEEK => 5642,
        ExtendedRC::SQLITE_IOERR_DELETE_NOENT => 5898,
        ExtendedRC::SQLITE_IOERR_MMAP => 6154,
        ExtendedRC::SQLITE_IOERR_GETTEMPPATH => 6410,
        ExtendedRC::SQLITE_IOERR_CONVPATH => 6666,
        ExtendedRC::SQLITE_IOERR_VNODE => 6922,
        ExtendedRC::SQLITE_IOERR_AUTH => 7178,
        ExtendedRC::SQLITE_IOERR_BEGIN_ATOMIC => 7434,
        ExtendedRC::SQLITE_IOERR_COMMIT_ATOMIC => 7690,
        ExtendedRC::SQLITE_IOERR_ROLLBACK_ATOMIC => 7946,
        ExtendedRC::SQLITE_LOCKED_SHAREDCACHE => 262,
        ExtendedRC::SQLITE_LOCKED_VTAB => 518,
        ExtendedRC::SQLITE_BUSY_RECOVERY => 261,
        ExtendedRC::SQLITE_BUSY_SNAPSHOT => 517,
        ExtendedRC::SQLITE_CANTOPEN_NOTEMPDIR => 270,
        ExtendedRC::SQLITE_CANTOPEN_ISDIR => 526,
        ExtendedRC::SQLITE_CANTOPEN_FULLPATH => 782,
        ExtendedRC::SQLITE_CANTOPEN_CONVPATH => 1038,
        ExtendedRC::SQLITE_CANTOPEN_DIRTYWAL => 1294,
        ExtendedRC::SQLITE_CORRUPT_VTAB => 267,
        ExtendedRC::SQLITE_CORRUPT_SEQUENCE => 523,
        ExtendedRC::SQLITE_READONLY_RECOVERY => 264,
        ExtendedRC::SQLITE_READONLY_CANTLOCK => 520,
        ExtendedRC::SQLITE_READONLY_ROLLBACK => 776,
        ExtendedRC::SQLITE_READONLY_DBMOVED => 1032,
        ExtendedRC::SQLITE_READONLY_CANTINIT => 1288,
        ExtendedRC::SQLITE_READONLY_DIRECTORY => 1544,
        ExtendedRC::SQLITE_ABORT_ROLLBACK => 516,
        ExtendedRC::SQLITE_CONSTRAINT_CHECK => 275,
        ExtendedRC::SQLITE_CONSTRAINT_COMMITHOOK => 531,
        ExtendedRC::SQLITE_CONSTRAINT_FOREIGNKEY => 787,
        ExtendedRC::SQLITE_CONSTRAINT_FUNCTION => 1043,
        ExtendedRC::SQLITE_CONSTRAINT_NOTNULL => 1299,
        ExtendedRC::SQLITE_CONSTRAINT_PRIMARYKEY => 1555,
        ExtendedRC::SQLITE_CONSTRAINT_TRIGGER => 1811,
        ExtendedRC::SQLITE_CONSTRAINT_UNIQUE => 2067,
        ExtendedRC::SQLITE_CONSTRAINT_VTAB => 2323,
        ExtendedRC::SQLITE_CONSTRAINT_ROWID => 2579,
        ExtendedRC::SQLITE_NOTICE_RECOVER_WAL => 283,
        ExtendedRC::SQLITE_NOTICE_RECOVER_ROLLBACK => 539,
        ExtendedRC::SQLITE_WARNING_AUTOINDEX => 284,
        ExtendedRC::SQLITE_AUTH_USER => 279,
        ExtendedRC::SQLITE_OK_LOAD_PERMANENTLY => 256,
    }
}

/// The primary code that an extended code refines.
pub open spec fn extended_primary(id: ExtendedRC) -> PrimaryRC {
    match id {
        ExtendedRC::SQLITE_ERROR_MISSING_COLLSEQ => PrimaryRC::SQLITE_ERROR,
        ExtendedRC::SQLITE_ERROR_RETRY => PrimaryRC::SQLITE_ERROR,
        ExtendedRC::SQLITE_ERROR_SNAPSHOT => PrimaryRC::SQLITE_ERROR,
        ExtendedRC::SQLITE_IOERR_READ => PrimaryRC::SQLITE_IOERR,
        ExtendedRC::SQLITE_IOERR_SHORT_READ => PrimaryRC::SQLITE_IOERR,
        ExtendedRC::SQLITE_IOERR_WRITE => PrimaryRC::SQLITE_IOERR,
        ExtendedRC::SQLITE_IOERR_FSYNC => PrimaryRC::SQLITE_IOERR,
        ExtendedRC::SQLITE_IOERR_DIR_FSYNC => PrimaryRC::SQLITE_IOERR,
        ExtendedRC::SQLITE_IOERR_TRUNCATE => PrimaryRC::SQLITE_IOERR,
        ExtendedRC::SQLITE_IOERR_FSTAT => PrimaryRC::SQLITE_IOERR,
        ExtendedRC::SQLITE_IOERR_UNLOCK => PrimaryRC::SQLITE_IOERR,
        ExtendedRC::SQLITE_IOERR_RDLOCK => PrimaryRC::SQLITE_IOERR,
        ExtendedRC::SQLITE_IOERR_DELETE => PrimaryRC::SQLITE_IOERR,
        ExtendedRC::SQLITE_IOERR_BLOCKED => PrimaryRC::SQLITE_IOERR,
        ExtendedRC::SQLITE_IOERR_NOMEM => PrimaryRC::SQLITE_IOERR,
        ExtendedRC::SQLITE_IOERR_ACCESS => PrimaryRC::SQLITE_IOERR,
        ExtendedRC::SQLITE_IOERR_CHECKRESERVEDLOCK => PrimaryRC::SQLITE_IOERR,
        ExtendedRC::SQLITE_IOERR_LOCK => PrimaryRC::SQLITE_IOERR,
        ExtendedRC::SQLITE_IOERR_CLOSE => PrimaryRC::SQLITE_IOERR,
        ExtendedRC::SQLITE_IOERR_DIR_CLOSE => PrimaryRC::SQLITE_IOERR,
        ExtendedRC::SQLITE_IOERR_SHMOPEN => PrimaryRC::SQLITE_IOERR,
        ExtendedRC::SQLITE_IOERR_SHMSIZE => PrimaryRC::SQLITE_IOERR,
        ExtendedRC::SQLITE_IOERR_SHMLOCK => PrimaryRC::SQLITE_IOERR,
        ExtendedRC::SQLITE_IOERR_SHMMAP => PrimaryRC::SQLITE_IOERR,
        ExtendedRC::SQLITE_IOERR_SEEK => PrimaryRC::SQLITE_IOERR,
        ExtendedRC::SQLITE_IOERR_DELETE_NOENT => PrimaryRC::SQLITE_IOERR,
        ExtendedRC::SQLITE_IOERR_MMAP => PrimaryRC::SQLITE_IOERR,
        ExtendedRC::SQLITE_IOERR_GETTEMPPATH => PrimaryRC::SQLITE_IOERR,
        ExtendedRC::SQLITE_IOERR_CONVPATH => PrimaryRC::SQLITE_IOERR,
        ExtendedRC::SQLITE_IOERR_VNODE => PrimaryRC::SQLITE_IOERR,
        ExtendedRC::SQLITE_IOERR_AUTH => PrimaryRC::SQLITE_IOERR,
        ExtendedRC::SQLITE_IOERR_BEGIN_ATOMIC => PrimaryRC::SQLITE_IOERR,
        ExtendedRC::SQLITE_IOERR_COMMIT_ATOMIC => PrimaryRC::SQLITE_IOERR,
        ExtendedRC::SQLITE_IOERR_ROLLBACK_ATOMIC => PrimaryRC::SQLITE_IOERR,
        ExtendedRC::SQLITE_LOCKED_SHAREDCACHE => PrimaryRC::SQLITE_LOCKED,
        ExtendedRC::SQLITE_LOCKED_VTAB => PrimaryRC::SQLITE_LOCKED,
        ExtendedRC::SQLITE_BUSY_RECOVERY => PrimaryRC::SQLITE_BUSY,
        ExtendedRC::SQLITE_BUSY_SNAPSHOT => PrimaryRC::SQLITE_BUSY,
        ExtendedRC::SQLITE_CANTOPEN_NOTEMPDIR => PrimaryRC::SQLITE_CANTOPEN,
        ExtendedRC::SQLITE_CANTOPEN_ISDIR => PrimaryRC::SQLITE_CANTOPEN,
        ExtendedRC::SQLITE_CANTOPEN_FULLPATH => PrimaryRC::SQLITE_CANTOPEN,
        ExtendedRC::SQLITE_CANTOPEN_CONVPATH => PrimaryRC::SQLITE_CANTOPEN,
        ExtendedRC::SQLITE_CANTOPEN_DIRTYWAL => PrimaryRC::SQLITE_CANTOPEN,
        ExtendedRC::SQLITE_CORRUPT_VTAB => PrimaryRC::SQLITE_CORRUPT,
        ExtendedRC::SQLITE_CORRUPT_SEQUENCE => PrimaryRC::SQLITE_CORRUPT,
        ExtendedRC::SQLITE_READONLY_RECOVERY => PrimaryRC::SQLITE_READONLY,
        ExtendedRC::SQLITE_READONLY_CANTLOCK => PrimaryRC::SQLITE_READONLY,
        ExtendedRC::SQLITE_READONLY_ROLLBACK => PrimaryRC::SQLITE_READONLY,
        ExtendedRC::SQLITE_READONLY_DBMOVED => PrimaryRC::SQLITE_READONLY,
        ExtendedRC::SQLITE_READONLY_CANTINIT => PrimaryRC::SQLITE_READONLY,
        ExtendedRC::SQLITE_READONLY_DIRECTORY => PrimaryRC::SQLITE_READONLY,
        ExtendedRC::SQLITE_ABORT_ROLLBACK => PrimaryRC::SQLITE_ABORT,
        ExtendedRC::SQLITE_CONSTRAINT_CHECK => PrimaryRC::SQLITE_CONSTRAINT,
        ExtendedRC::SQLITE_CONSTRAINT_COMMITHOOK => PrimaryRC::SQLITE_CONSTRAINT,
        ExtendedRC::SQLITE_CONSTRAINT_FOREIGNKEY => PrimaryRC::SQLITE_CONSTRAINT,
        ExtendedRC::SQLITE_CONSTRAINT_FUNCTION => PrimaryRC::SQLITE_CONSTRAINT,
        ExtendedRC::SQLITE_CONSTRAINT_NOTNULL => PrimaryRC::SQLITE_CONSTRAINT,
        ExtendedRC::SQLITE_CONSTRAINT_PRIMARYKEY => PrimaryRC::SQLITE_CONSTRAINT,
        ExtendedRC::SQLITE_CONSTRAINT_TRIGGER => PrimaryRC::SQLITE_CONSTRAINT,
        ExtendedRC::SQLITE_CONSTRAINT_UNIQUE => PrimaryRC::SQLITE_CONSTRAINT,
        ExtendedRC::SQLITE_CONSTRAINT_VTAB => PrimaryRC::SQLITE_CONSTRAINT,
        ExtendedRC::SQLITE_CONSTRAINT_ROWID => PrimaryRC::SQLITE_CONSTRAINT,
        ExtendedRC::SQLITE_NOTICE_RECOVER_WAL => PrimaryRC::SQLITE_NOTICE,
        ExtendedRC::SQLITE_NOTICE_RECOVER_ROLLBACK => PrimaryRC::SQLITE_NOTICE,
        ExtendedRC::SQLITE_WARNING_AUTOINDEX => PrimaryRC::SQLITE_WARNING,
        ExtendedRC::SQLITE_AUTH_USER => PrimaryRC::SQLITE_AUTH,
        ExtendedRC::SQLITE_OK_LOAD_PERMANENTLY => PrimaryRC::SQLITE_OK,
    }
}

/// The primary result code with the number `code`, if there is one.
pub open spec fn primary_of_code(code: u32) -> Option<PrimaryRC> {
    match code {
        0 => Some(PrimaryRC::SQLITE_OK),
        1 => Some(PrimaryRC::SQLITE_ERROR),
        2 => Some(PrimaryRC::SQLITE_INTERNAL),
        3 => Some(PrimaryRC::SQLITE_PERM),
        4 => Some(PrimaryRC::SQLITE_ABORT),
        5 => Some(PrimaryRC::SQLITE_BUSY),
        6 => Some(PrimaryRC::SQLITE_LOCKED),
        7 => Some(PrimaryRC::SQLITE_NOMEM),
        8 => Some(PrimaryRC::SQLITE_READONLY),
        9 => Some(PrimaryRC::SQLITE_INTERRUPT),
        10 => Some(PrimaryRC::SQLITE_IOERR),
        11 => Some(PrimaryRC::SQLITE_CORRUPT),
        12 => Some(PrimaryRC::SQLITE_NOTFOUND),
        13 => Some(PrimaryRC::SQLITE_FULL),
        14 => Some(PrimaryRC::SQLITE_CANTOPEN),
        15 => Some(PrimaryRC::SQLITE_PROTOCOL),
        16 => Some(PrimaryRC::SQLITE_EMPTY),
        17 => Some(PrimaryRC::SQLITE_SCHEMA),
        18 => Some(PrimaryRC::SQLITE_TOOBIG),
        19 => Some(PrimaryRC::SQLITE_CONSTRAINT),
        20 => Some(PrimaryRC::SQLITE_MISMATCH),
        21 => Some(PrimaryRC::SQLITE_MISUSE),
        22 => Some(PrimaryRC::SQLITE_NOLFS),
        23 => Some(PrimaryRC::SQLITE_AUTH),
        24 => Some(PrimaryRC::SQLITE_FORMAT),
        25 => Some(PrimaryRC::SQLITE_RANGE),
        26 => Some(PrimaryRC::SQLITE_NOTADB),
        27 => Some(PrimaryRC::SQLITE_NOTICE),
        28 => Some(PrimaryRC::SQLITE_WARNING),
        100 => Some(PrimaryRC::SQLITE_ROW),
        101 => Some(PrimaryRC::SQLITE_DONE),
        _ => None,
    }
}

/// The extended result code with the number `code`, if there is one.
pub open spec fn extended_of_code(code: u32) -> Option<ExtendedRC> {
    match code {
        256 => Some(ExtendedRC::SQLITE_OK_LOAD_PERMANENTLY),
        257 => Some(ExtendedRC::SQLITE_ERROR_MISSING_COLLSEQ),
        261 => Some(ExtendedRC::SQLITE_BUSY_RECOVERY),
        262 => Some(ExtendedRC::SQLITE_LOCKED_SHAREDCACHE),
        264 => Some(ExtendedRC::SQLITE_READONLY_RECOVERY),
        266 => Some(ExtendedRC::SQLITE_IOERR_READ),
        267 => Some(ExtendedRC::SQLITE_CORRUPT_VTAB),
        270 => Some(ExtendedRC::SQLITE_CANTOPEN_NOTEMPDIR),
        275 => Some(ExtendedRC::SQLITE_CONSTRAINT_CHECK),
        279 => Some(ExtendedRC::SQLITE_AUTH_USER),
        283 => Some(ExtendedRC::SQLITE_NOTICE_RECOVER_WAL),
        284 => Some(ExtendedRC::SQLITE_WARNING_AUTOINDEX),
        513 => Some(ExtendedRC::SQLITE_ERROR_RETRY),
        516 => Some(ExtendedRC::SQLITE_ABORT_ROLLBACK),
        517 => Some(ExtendedRC::SQLITE_BUSY_SNAPSHOT),
        518 => Some(ExtendedRC::SQLITE_LOCKED_VTAB),
        520 => Some(ExtendedRC::SQLITE_READONLY_CANTLOCK),
        522 => Some(ExtendedRC::SQLITE_IOERR_SHORT_READ),
        523 => Some(ExtendedRC::SQLITE_CORRUPT_SEQUENCE),
        526 => Some(ExtendedRC::SQLITE_CANTOPEN_ISDIR),
        531 => Some(ExtendedRC::SQLITE_CONSTRAINT_COMMITHOOK),
        539 => Some(ExtendedRC::SQLITE_NOTICE_RECOVER_ROLLBACK),
        769 => Some(ExtendedRC::SQLITE_ERROR_SNAPSHOT),
        776 => Some(ExtendedRC::SQLITE_READONLY_ROLLBACK),
        778 => Some(ExtendedRC::SQLITE_IOERR_WRITE),
        782 => Some(ExtendedRC::SQLITE_CANTOPEN_FULLPATH),
        787 => Some(ExtendedRC::SQLITE_CONSTRAINT_FOREIGNKEY),
        1032 => Some(ExtendedRC::SQLITE_READONLY_DBMOVED),
        1034 => Some(ExtendedRC::SQLITE_IOERR_FSYNC),
        1038 => Some(ExtendedRC::SQLITE_CANTOPEN_CONVPATH),
        1043 => Some(ExtendedRC::SQLITE_CONSTRAINT_FUNCTION),
        1288 => Some(ExtendedRC::SQLITE_READONLY_CANTINIT),
        1290 => Some(ExtendedRC::SQLITE_IOERR_DIR_FSYNC),
        1294 => Some(ExtendedRC::SQLITE_CANTOPEN_DIRTYWAL),
        1299 => Some(ExtendedRC::SQLITE_CONSTRAINT_NOTNULL),
        1544 => Some(ExtendedRC::SQLITE_READONLY_DIRECTORY),
        1546 => Some(ExtendedRC::SQLITE_IOERR_TRUNCATE),
        1555 => Some(ExtendedRC::SQLITE_CONSTRAINT_PRIMARYKEY),
        1802 => Some(ExtendedRC::SQLITE_IOERR_FSTAT),
        1811 => Some(ExtendedRC::SQLITE_CONSTRAINT_TRIGGER),
        2058 => Some(ExtendedRC::SQLITE_IOERR_UNLOCK),
        2067 => Some(ExtendedRC::SQLITE_CONSTRAINT_UNIQUE),
        2314 => Some(ExtendedRC::SQLITE_IOERR_RDLOCK),
        2323 => Some(ExtendedRC::SQLITE_CONSTRAINT_VTAB),
        2570 => Some(ExtendedRC::SQLITE_IOERR_DELETE),
        2579 => Some(ExtendedRC::SQLITE_CONSTRAINT_ROWID),
        2826 => Some(ExtendedRC::SQLITE_IOERR_BLOCKED),
        3082 => Some(ExtendedRC::SQLITE_IOERR_NOMEM),
        3338 => Some(ExtendedRC::SQLITE_IOERR_ACCESS),
        3594 => Some(ExtendedRC::SQLITE_IOERR_CHECKRESERVEDLOCK),
        3850 => Some(ExtendedRC::SQLITE_IOERR_LOCK),
        4106 => Some(ExtendedRC::SQLITE_IOERR_CLOSE),
        4362 => Some(ExtendedRC::SQLITE_IOERR_DIR_CLOSE),
        4618 => Some(ExtendedRC::SQLITE_IOERR_SHMOPEN),
        4874 => Some(ExtendedRC::SQLITE_IOERR_SHMSIZE),
        5130 => Some(ExtendedRC::SQLITE_IOERR_SHMLOCK),
        5386 => Some(ExtendedRC::SQLITE_IOERR_SHMMAP),
        5642 => Some(ExtendedRC::SQLITE_IOERR_SEEK),
        5898 => Some(ExtendedRC::SQLITE_IOERR_DELETE_NOENT),
        6154 => Some(ExtendedRC::SQLITE_IOERR_MMAP),
        6410 => Some(ExtendedRC::SQLITE_IOERR_GETTEMPPATH),
        6666 => Some(ExtendedRC::SQLITE_IOERR_CONVPATH),
        6922 => Some(ExtendedRC::SQLITE_IOERR_VNODE),
        7178 => Some(ExtendedRC::SQLITE_IOERR_AUTH),
        7434 => Some(ExtendedRC::SQLITE_IOERR_BEGIN_ATOMIC),
        7690 => Some(ExtendedRC::SQLITE_IOERR_COMMIT_ATOMIC),
        7946 => Some(ExtendedRC::SQLITE_IOERR_ROLLBACK_ATOMIC),
        _ => None,
    }
}

/// Whether some primary result code has the number `code`.
pub open spec fn is_primary_code(code: u32) -> bool {
    primary_of_code(code) is Some
}

/// Whether some extended result code has the number `code`.
pub open spec fn is_extended_code(code: u32) -> bool {
    extended_of_code(code) is Some
}

/// The second byte of a result code is where an extended code keeps its reason.
pub open spec fn spec_is_extended(code: u32) -> bool {
    (code / 256) % 256 != 0
}

/// The low byte of a result code is its primary code.
pub open spec fn spec_get_primary(code: u32) -> u32 {
    code % 256
}

/// The result codes that the table can name: the low byte is a primary code
/// and, where the second byte is set, the whole number is an extended code.
pub open spec fn is_known_code(code: u32) -> bool {
    &&& is_primary_code(spec_get_primary(code))
    &&& spec_is_extended(code) ==> is_extended_code(code)
}

/// The lines of a known code: that of its low byte, and that of the whole
/// number where the second byte is set.
pub open spec fn spec_rows(code: u32) -> (PrimaryRow, Option<ExtendedRow>)
    recommends
        is_known_code(code),
{
    (
        PrimaryRow { id: primary_of_code(spec_get_primary(code))->0, code: spec_get_primary(code) },
        if spec_is_extended(code) {
            Some(ExtendedRow { id: extended_of_code(code)->0, code })
        } else {
            None
        },
    )
}

/// The number of a primary code, computed.
pub fn primary_code_of(id: PrimaryRC) -> (code: u32)
    ensures
        code == primary_code(id),
{
    match id {
        PrimaryRC::SQLITE_OK => 0,
        PrimaryRC::SQLITE_ERROR => 1,
        PrimaryRC::SQLITE_INTERNAL => 2,
        PrimaryRC::SQLITE_PERM => 3,
        PrimaryRC::SQLITE_ABORT => 4,
        PrimaryRC::SQLITE_BUSY => 5,
        PrimaryRC::SQLITE_LOCKED => 6,
        PrimaryRC::SQLITE_NOMEM => 7,
        PrimaryRC::SQLITE_READONLY => 8,
        PrimaryRC::SQLITE_INTERRUPT => 9,
        PrimaryRC::SQLITE_IOERR => 10,
        PrimaryRC::SQLITE_CORRUPT => 11,
        PrimaryRC::SQLITE_NOTFOUND => 12,
        PrimaryRC::SQLITE_FULL => 13,
        PrimaryRC::SQLITE_CANTOPEN => 14,
        PrimaryRC::SQLITE_PROTOCOL => 15,
        PrimaryRC::SQLITE_EMPTY => 16,
        PrimaryRC::SQLITE_SCHEMA => 17,
        PrimaryRC::SQLITE_TOOBIG => 18,
        PrimaryRC::SQLITE_CONSTRAINT => 19,
        PrimaryRC::SQLITE_MISMATCH => 20,
        PrimaryRC::SQLITE_MISUSE => 21,
        PrimaryRC::SQLITE_NOLFS => 22,
        PrimaryRC::SQLITE_AUTH => 23,
        PrimaryRC::SQLITE_FORMAT => 24,
        PrimaryRC::SQLITE_RANGE => 25,
        PrimaryRC::SQLITE_NOTADB => 26,
        PrimaryRC::SQLITE_NOTICE => 27,
        PrimaryRC::SQLITE_WARNING => 28,
        PrimaryRC::SQLITE_ROW => 100,
        PrimaryRC::SQLITE_DONE => 101,
    }
}

/// The number of an extended code, computed.
pub fn extended_code_of(id: ExtendedRC) -> (code: u32)
    ensures
        code == extended_code(id),
{
    match id {
        ExtendedRC::SQLITE_ERROR_MISSING_COLLSEQ => 257,
        ExtendedRC::SQLITE_ERROR_RETRY => 513,
        ExtendedRC::SQLITE_ERROR_SNAPSHOT => 769,
        ExtendedRC::SQLITE_IOERR_READ => 266,
        ExtendedRC::SQLITE_IOERR_SHORT_READ => 522,
        ExtendedRC::SQLITE_IOERR_WRITE => 778,
        ExtendedRC::SQLITE_IOERR_FSYNC => 1034,
        ExtendedRC::SQLITE_IOERR_DIR_FSYNC => 1290,
        ExtendedRC::SQLITE_IOERR_TRUNCATE => 1546,
        ExtendedRC::SQLITE_IOERR_FSTAT => 1802,
        ExtendedRC::SQLITE_IOERR_UNLOCK => 2058,
        ExtendedRC::SQLITE_IOERR_RDLOCK => 2314,
        ExtendedRC::SQLITE_IOERR_DELETE => 2570,
        ExtendedRC::SQLITE_IOERR_BLOCKED => 2826,
        ExtendedRC::SQLITE_IOERR_NOMEM => 3082,
        ExtendedRC::SQLITE_IOERR_ACCESS => 3338,
        ExtendedRC::SQLITE_IOERR_CHECKRESERVEDLOCK => 3594,
        ExtendedRC::SQLITE_IOERR_LOCK => 3850,
        ExtendedRC::SQLITE_IOERR_CLOSE => 4106,
        ExtendedRC::SQLITE_IOERR_DIR_CLOSE => 4362,
        ExtendedRC::SQLITE_IOERR_SHMOPEN => 4618,
        ExtendedRC::SQLITE_IOERR_SHMSIZE => 4874,
        ExtendedRC::SQLITE_IOERR_SHMLOCK => 5130,
        ExtendedRC::SQLITE_IOERR_SHMMAP => 5386,
        ExtendedRC::SQLITE_IOERR_SEEK => 5642,
        ExtendedRC::SQLITE_IOERR_DELETE_NOENT => 5898,
        ExtendedRC::SQLITE_IOERR_MMAP => 6154,
        ExtendedRC::SQLITE_IOERR_GETTEMPPATH => 6410,
        ExtendedRC::SQLITE_IOERR_CONVPATH => 6666,
        ExtendedRC::SQLITE_IOERR_VNODE => 6922,
        ExtendedRC::SQLITE_IOERR_AUTH => 7178,
        ExtendedRC::SQLITE_IOERR_BEGIN_ATOMIC => 7434,
        ExtendedRC::SQLITE_IOERR_COMMIT_ATOMIC => 7690,
        ExtendedRC::SQLITE_IOERR_ROLLBACK_ATOMIC => 7946,
        ExtendedRC::SQLITE_LOCKED_SHAREDCACHE => 262,
        ExtendedRC::SQLITE_LOCKED_VTAB => 518,
        ExtendedRC::SQLITE_BUSY_RECOVERY => 261,
        ExtendedRC::SQLITE_BUSY_SNAPSHOT => 517,
        ExtendedRC::SQLITE_CANTOPEN_NOTEMPDIR => 270,
        ExtendedRC::SQLITE_CANTOPEN_ISDIR => 526,
        ExtendedRC::SQLITE_CANTOPEN_FULLPATH => 782,
        ExtendedRC::SQLITE_CANTOPEN_CONVPATH => 1038,
        ExtendedRC::SQLITE_CANTOPEN_DIRTYWAL => 1294,
        ExtendedRC::SQLITE_CORRUPT_VTAB => 267,
        ExtendedRC::SQLITE_CORRUPT_SEQUENCE => 523,
        ExtendedRC::SQLITE_READONLY_RECOVERY => 264,
        ExtendedRC::SQLITE_READONLY_CANTLOCK => 520,
        ExtendedRC::SQLITE_READONLY_ROLLBACK => 776,
        ExtendedRC::SQLITE_READONLY_DBMOVED => 1032,
        ExtendedRC::SQLITE_READONLY_CANTINIT => 1288,
        ExtendedRC::SQLITE_READONLY_DIRECTORY => 1544,
        ExtendedRC::SQLITE_ABORT_ROLLBACK => 516,
        ExtendedRC::SQLITE_CONSTRAINT_CHECK => 275,
        ExtendedRC::SQLITE_CONSTRAINT_COMMITHOOK => 531,
        ExtendedRC::SQLITE_CONSTRAINT_FOREIGNKEY => 787,
        ExtendedRC::SQLITE_CONSTRAINT_FUNCTION => 1043,
        ExtendedRC::SQLITE_CONSTRAINT_NOTNULL => 1299,
        ExtendedRC::SQLITE_CONSTRAINT_PRIMARYKEY => 1555,
        ExtendedRC::SQLITE_CONSTRAINT_TRIGGER => 1811,
        ExtendedRC::SQLITE_CONSTRAINT_UNIQUE => 2067,
        ExtendedRC::SQLITE_CONSTRAINT_VTAB => 2323,
        ExtendedRC::SQLITE_CONSTRAINT_ROWID => 2579,
        ExtendedRC::SQLITE_NOTICE_RECOVER_WAL => 283,
        ExtendedRC::SQLITE_NOTICE_RECOVER_ROLLBACK => 539,
        ExtendedRC::SQLITE_WARNING_AUTOINDEX => 284,
        ExtendedRC::SQLITE_AUTH_USER => 279,
        ExtendedRC::SQLITE_OK_LOAD_PERMANENTLY => 256,
    }
}

/// Looks a number up among the primary codes.
pub fn find_primary(code: u32) -> (found: Option<PrimaryRC>)
    ensures
        found == primary_of_code(code),
{
    match code {
        0 => Some(PrimaryRC::SQLITE_OK),
        1 => Some(PrimaryRC::SQLITE_ERROR),
        2 => Some(PrimaryRC::SQLITE_INTERNAL),
        3 => Some(PrimaryRC::SQLITE_PERM),
        4 => Some(PrimaryRC::SQLITE_ABORT),
        5 => Some(PrimaryRC::SQLITE_BUSY),
        6 => Some(PrimaryRC::SQLITE_LOCKED),
        7 => Some(PrimaryRC::SQLITE_NOMEM),
        8 => Some(PrimaryRC::SQLITE_READONLY),
        9 => Some(PrimaryRC::SQLITE_INTERRUPT),
        10 => Some(PrimaryRC::SQLITE_IOERR),
        11 => Some(PrimaryRC::SQLITE_CORRUPT),
        12 => Some(PrimaryRC::SQLITE_NOTFOUND),
        13 => Some(PrimaryRC::SQLITE_FULL),
        14 => Some(PrimaryRC::SQLITE_CANTOPEN),
        15 => Some(PrimaryRC::SQLITE_PROTOCOL),
        16 => Some(PrimaryRC::SQLITE_EMPTY),
        17 => Some(PrimaryRC::SQLITE_SCHEMA),
        18 => Some(PrimaryRC::SQLITE_TOOBIG),
        19 => Some(PrimaryRC::SQLITE_CONSTRAINT),
        20 => Some(PrimaryRC::SQLITE_MISMATCH),
        21 => Some(PrimaryRC::SQLITE_MISUSE),
        22 => Some(PrimaryRC::SQLITE_NOLFS),
        23 => Some(PrimaryRC::SQLITE_AUTH),
        24 => Some(PrimaryRC::SQLITE_FORMAT),
        25 => Some(PrimaryRC::SQLITE_RANGE),
        26 => Some(PrimaryRC::SQLITE_NOTADB),
        27 => Some(PrimaryRC::SQLITE_NOTICE),
        28 => Some(PrimaryRC::SQLITE_WARNING),
        100 => Some(PrimaryRC::SQLITE_ROW),
        101 => Some(PrimaryRC::SQLITE_DONE),
        _ => None,
    }
}

/// Looks a number up among the extended codes.
pub fn find_extended(code: u32) -> (found: Option<ExtendedRC>)
    ensures
        found == extended_of_code(code),
{
    match code {
        256 => Some(ExtendedRC::SQLITE_OK_LOAD_PERMANENTLY),
        257 => Some(ExtendedRC::SQLITE_ERROR_MISSING_COLLSEQ),
        261 => Some(ExtendedRC::SQLITE_BUSY_RECOVERY),
        262 => Some(ExtendedRC::SQLITE_LOCKED_SHAREDCACHE),
        264 => Some(ExtendedRC::SQLITE_READONLY_RECOVERY),
        266 => Some(ExtendedRC::SQLITE_IOERR_READ),
        267 => Some(ExtendedRC::SQLITE_CORRUPT_VTAB),
        270 => Some(ExtendedRC::SQLITE_CANTOPEN_NOTEMPDIR),
        275 => Some(ExtendedRC::SQLITE_CONSTRAINT_CHECK),
        279 => Some(ExtendedRC::SQLITE_AUTH_USER),
        283 => Some(ExtendedRC::SQLITE_NOTICE_RECOVER_WAL),
        284 => Some(ExtendedRC::SQLITE_WARNING_AUTOINDEX),
        513 => Some(ExtendedRC::SQLITE_ERROR_RETRY),
        516 => Some(ExtendedRC::SQLITE_ABORT_ROLLBACK),
        517 => Some(ExtendedRC::SQLITE_BUSY_SNAPSHOT),
        518 => Some(ExtendedRC::SQLITE_LOCKED_VTAB),
        520 => Some(ExtendedRC::SQLITE_READONLY_CANTLOCK),
        522 => Some(ExtendedRC::SQLITE_IOERR_SHORT_READ),
        523 => Some(ExtendedRC::SQLITE_CORRUPT_SEQUENCE),
        526 => Some(ExtendedRC::SQLITE_CANTOPEN_ISDIR),
        531 => Some(ExtendedRC::SQLITE_CONSTRAINT_COMMITHOOK),
        539 => Some(ExtendedRC::SQLITE_NOTICE_RECOVER_ROLLBACK),
        769 => Some(ExtendedRC::SQLITE_ERROR_SNAPSHOT),
        776 => Some(ExtendedRC::SQLITE_READONLY_ROLLBACK),
        778 => Some(ExtendedRC::SQLITE_IOERR_WRITE),
        782 => Some(ExtendedRC::SQLITE_CANTOPEN_FULLPATH),
        787 => Some(ExtendedRC::SQLITE_CONSTRAINT_FOREIGNKEY),
        1032 => Some(ExtendedRC::SQLITE_READONLY_DBMOVED),
        1034 => Some(ExtendedRC::SQLITE_IOERR_FSYNC),
        1038 => Some(ExtendedRC::SQLITE_CANTOPEN_CONVPATH),
        1043 => Some(ExtendedRC::SQLITE_CONSTRAINT_FUNCTION),
        1288 => Some(ExtendedRC::SQLITE_READONLY_CANTINIT),
        1290 => Some(ExtendedRC::SQLITE_IOERR_DIR_FSYNC),
        1294 => Some(ExtendedRC::SQLITE_CANTOPEN_DIRTYWAL),
        1299 => Some(ExtendedRC::SQLITE_CONSTRAINT_NOTNULL),
        1544 => Some(ExtendedRC::SQLITE_READONLY_DIRECTORY),
        1546 => Some(ExtendedRC::SQLITE_IOERR_TRUNCATE),
        1555 => Some(ExtendedRC::SQLITE_CONSTRAINT_PRIMARYKEY),
        1802 => Some(ExtendedRC::SQLITE_IOERR_FSTAT),
        1811 => Some(ExtendedRC::SQLITE_CONSTRAINT_TRIGGER),
        2058 => Some(ExtendedRC::SQLITE_IOERR_UNLOCK),
        2067 => Some(ExtendedRC::SQLITE_CONSTRAINT_UNIQUE),
        2314 => Some(ExtendedRC::SQLITE_IOERR_RDLOCK),
        2323 => Some(ExtendedRC::SQLITE_CONSTRAINT_VTAB),
        2570 => Some(ExtendedRC::SQLITE_IOERR_DELETE),
        2579 => Some(ExtendedRC::SQLITE_CONSTRAINT_ROWID),
        2826 => Some(ExtendedRC::SQLITE_IOERR_BLOCKED),
        3082 => Some(ExtendedRC::SQLITE_IOERR_NOMEM),
        3338 => Some(ExtendedRC::SQLITE_IOERR_ACCESS),
        3594 => Some(ExtendedRC::SQLITE_IOERR_CHECKRESERVEDLOCK),
        3850 => Some(ExtendedRC::SQLITE_IOERR_LOCK),
        4106 => Some(ExtendedRC::SQLITE_IOERR_CLOSE),
        4362 => Some(ExtendedRC::SQLITE_IOERR_DIR_CLOSE),
        4618 => Some(ExtendedRC::SQLITE_IOERR_SHMOPEN),
        4874 => Some(ExtendedRC::SQLITE_IOERR_SHMSIZE),
        5130 => Some(ExtendedRC::SQLITE_IOERR_SHMLOCK),
        5386 => Some(ExtendedRC::SQLITE_IOERR_SHMMAP),
        5642 => Some(ExtendedRC::SQLITE_IOERR_SEEK),
        5898 => Some(ExtendedRC::SQLITE_IOERR_DELETE_NOENT),
        6154 => Some(ExtendedRC::SQLITE_IOERR_MMAP),
        6410 => Some(ExtendedRC::SQLITE_IOERR_GETTEMPPATH),
        6666 => Some(ExtendedRC::SQLITE_IOERR_CONVPATH),
        6922 => Some(ExtendedRC::SQLITE_IOERR_VNODE),
        7178 => Some(ExtendedRC::SQLITE_IOERR_AUTH),
        7434 => Some(ExtendedRC::SQLITE_IOERR_BEGIN_ATOMIC),
        7690 => Some(ExtendedRC::SQLITE_IOERR_COMMIT_ATOMIC),
        7946 => Some(ExtendedRC::SQLITE_IOERR_ROLLBACK_ATOMIC),
        _ => None,
    }
}

/// Whether a result code carries an extended reason in its second byte.
pub fn is_extended(code: &u32) -> (r: bool)
    ensures
        r == spec_is_extended(*code),
{
    let c = *code;
    assert((c >> 8) & 0xff == (c / 256) % 256) by (bit_vector);
    (c >> 8) & 0xff != 0
}

/// The primary part of a result code: its low byte.
pub fn get_primary(code: &u32) -> (r: u32)
    ensures
        r == spec_get_primary(*code),
{
    let c = *code;
    assert(c & 0xff == c % 256) by (bit_vector);
    c & 0xff
}

/// The table line of a primary code, found by number.
pub fn get_primary_row(primary_code: &u32) -> (row: PrimaryRow)
    requires
        is_primary_code(*primary_code),
    ensures
        row == (PrimaryRow { id: primary_of_code(*primary_code)->0, code: *primary_code }),
{
    PrimaryRow { id: find_primary(*primary_code).unwrap(), code: *primary_code }
}

/// The table line of a primary code, found by variant.
pub fn get_primary_row_by_enum(e: &PrimaryRC) -> (row: PrimaryRow)
    ensures
        row == (PrimaryRow { id: *e, code: primary_code(*e) }),
{
    PrimaryRow { id: *e, code: primary_code_of(*e) }
}

/// The table line of an extended code, found by number.
pub fn get_extended_row(extended_code: &u32) -> (row: ExtendedRow)
    requires
        is_extended_code(*extended_code),
    ensures
        row == (ExtendedRow { id: extended_of_code(*extended_code)->0, code: *extended_code }),
{
    ExtendedRow { id: find_extended(*extended_code).unwrap(), code: *extended_code }
}

/// Splits a result code into its primary line and, if it has one, its extended line.
pub fn get_rows(code: &u32) -> (rows: (PrimaryRow, Option<ExtendedRow>))
    requires
        is_known_code(*code),
    ensures
        rows == spec_rows(*code),
{
    let primary_code = get_primary(code);
    let primary_row = get_primary_row(&primary_code);
    let mut extended_row = None;
    if is_extended(code) {
        extended_row = Some(get_extended_row(code));
    }
    (primary_row, extended_row)
}

/// Like `get_rows`, for any number: `None` where the table cannot name it.
pub fn find_rows(code: u32) -> (found: Option<(PrimaryRow, Option<ExtendedRow>)>)
    ensures
        found == if is_known_code(code) {
            Some(spec_rows(code))
        } else {
            None
        },
{
    let primary_code = get_primary(&code);
    if find_primary(primary_code).is_none() {
        return None;
    }
    if is_extended(&code) && find_extended(code).is_none() {
        return None;
    }
    Some(get_rows(&code))
}

/// The two directions of the primary table agree: a code is found under its
/// own number, and what is found under a number has that number.
pub proof fn law_primary_table_inverse(id: PrimaryRC, code: u32)
    ensures
        primary_of_code(primary_code(id)) == Some(id),
        primary_of_code(code) == Some(id) ==> primary_code(id) == code,
{
}

/// The two directions of the extended table agree.
pub proof fn law_extended_table_inverse(id: ExtendedRC, code: u32)
    ensures
        extended_of_code(extended_code(id)) == Some(id),
        extended_of_code(code) == Some(id) ==> extended_code(id) == code,
{
}

/// No two primary codes share a number.
pub proof fn law_primary_code_injective(a: PrimaryRC, b: PrimaryRC)
    requires
        primary_code(a) == primary_code(b),
    ensures
        a == b,
{
}

/// No two extended codes share a number.
pub proof fn law_extended_code_injective(a: ExtendedRC, b: ExtendedRC)
    requires
        extended_code(a) == extended_code(b),
    ensures
        a == b,
{
}

/// An extended code is a known code, and its low byte is the number of the
/// primary code it refines.
pub proof fn law_extended_refines_primary(e: ExtendedRC)
    ensures
        spec_get_primary(extended_code(e)) == primary_code(extended_primary(e)),
        spec_is_extended(extended_code(e)),
        is_known_code(extended_code(e)),
        spec_rows(extended_code(e)) == (
            PrimaryRow {
                id: extended_primary(e),
                code: primary_code(extended_primary(e)),
            },
            Some(ExtendedRow { id: e, code: extended_code(e) }),
        ),
{
}

/// A primary code alone is a known code, without an extended line.
pub proof fn law_primary_is_known(p: PrimaryRC)
    ensures
        is_known_code(primary_code(p)),
        !spec_is_extended(primary_code(p)),
        spec_get_primary(primary_code(p)) == primary_code(p),
        spec_rows(primary_code(p)) == (PrimaryRow { id: p, code: primary_code(p) }, None::<ExtendedRow>),
{
}

} // verus!

use chrono::{DateTime, Utc};
use sqlite_mpi::db::{BindRunError, DbHandle};
use sqlite_mpi::err::ReturnStatus;
use sqlite_mpi::errmap::PrimaryRC;
use sqlite_mpi::sma::{
    bind_params, run_params, run_params_read_only, run_params_write_only, run_read_only,
    run_write_only, DbFile, JournalMode, Params, ReadBindRunError, ReadError, WalAction,
    WalEvent, WriteBindRunError, WriteError, BEGIN_READ, BEGIN_WRITE, COMMIT,
    JOURNAL_RETRY_MS, READ_JOURNAL_MODE, ROLLBACK, SET_JOURNAL_MODE_WAL,
    SET_SYNCHRONOUS_NORMAL, TAKE_READ_LOCK,
};
use sqlite_mpi::stmt::{
    ColName, ErrorBindType, KeyVal, Prepared, RSet, Rows, StmtHandle, Val,
};
use sqlite_mpi::utils::{get_unique_id, is_valid_uuid_v4_hypenated};

static TEST_OUTPUT_DIR: &'static str = "/tmp";

fn get_test_file() -> String {
    let now: DateTime<Utc> = Utc::now();
    format!("{}/del-test-{:?}-{}.sqlite3", TEST_OUTPUT_DIR, now, get_unique_id())
}

// A file handle on a connection that opened and took its pragmas.
fn db_file(file: String) -> DbFile {
    let h = DbHandle::new(file, 1, &0).unwrap();
    DbFile::new(h, Ok(())).expect("Ok")
}

// What the driver does with the statements used here: whether it prepares
// them, and whether they leave the file as it is.
fn prepare(f: &DbFile, q: &str) -> Result<StmtHandle, ReturnStatus> {
    let read_only = q.trim_start().to_lowercase().starts_with("select");
    let names = match q {
        "INSERT INTO t1 (a, b) VALUES (1, 2), (?, ?)" => vec![None, None],
        "INSERT INTO t1 (a, b) VALUES (1, 2), (:x, :y)" => {
            vec![Some(":x".to_string()), Some(":y".to_string())]
        }
        _ => vec![],
    };
    let prepared = if q == "INVALID COMMAND" {
        Prepared {
            code: 1,
            db_msg: "near \"INVALID\": syntax error".to_string(),
            stmt: 0,
            names: vec![],
            read_only: false,
        }
    } else {
        Prepared { code: 0, db_msg: "not an error".to_string(), stmt: 1, names, read_only }
    };
    f.db_handle.new_stmt(q, prepared)
}

#[test]
fn write_tx_takes_any_statement_that_prepares() {
    let file = get_test_file();

    let f = db_file(file.clone());
    let wtx = f.get_write_tx(Ok(RSet::default())).expect("Ok");

    let q = "CREATE TABLE t1(a PRIMARY KEY, b);";
    wtx.q(prepare(&wtx.db_file, q)).expect("Ok");
    assert!(wtx.q(prepare(&wtx.db_file, "INVALID COMMAND")).is_err());

    let (f, result) = wtx.commit(Ok(RSet::default()));
    assert!(result.is_ok());
    let wtx = f.get_write_tx(Ok(RSet::default())).expect("Ok");
    wtx.q(prepare(&wtx.db_file, "INSERT INTO t1 (a, b) VALUES (1, 2), (3, 4)")).expect("Ok");
}

// A second connection that finds the file locked gets its file handle back
// with the status.
#[test]
fn second_writer_is_busy() {
    let file = get_test_file();
    let c1 = db_file(file.clone());
    let c2 = db_file(file.clone());

    let _wtx1 = c1.get_write_tx(Ok(RSet::default())).expect("Ok");

    let busy: ReturnStatus = PrimaryRC::SQLITE_BUSY.into();
    let wtx2_result = c2.get_write_tx(Err(busy));
    assert!(wtx2_result.is_err());
    if let Err((_c2, return_status)) = wtx2_result {
        assert_eq!(return_status.primary.id, PrimaryRC::SQLITE_BUSY);
    } else {
        assert!(false);
    }
}

// A read transaction only takes statements that read.
#[test]
fn test_read_tx_no_writes() {
    {
        let file = get_test_file();
        let c1 = db_file(file.clone());
        let rtx1 = c1.get_read_tx(Ok(RSet::default())).expect("Ok");

        let res = rtx1.q(prepare(&rtx1.db_file, "CREATE TABLE t1(a PRIMARY KEY, b);"));
        match res {
            Err(ReadError::QueryIsWrite) => assert!(true),
            _ => assert!(false),
        }
    }
}

// A write transaction only takes statements that are what the function used says.
#[test]
fn test_write_tx_enforce_category() {
    {
        let file = get_test_file();
        let c1 = db_file(file.clone());
        let rtx1 = c1.get_write_tx(Ok(RSet::default())).expect("Ok");
        let f = &rtx1.db_file;

        let r1 = rtx1.q(prepare(f, "CREATE TABLE t1(a PRIMARY KEY, b);"));
        assert!(r1.is_ok());

        let (a, b, c) = (
            "CREATE TABLE t2(a PRIMARY KEY, b);",
            "INSERT INTO t1 (a, b) VALUES (1, 2)",
            "SELECT * FROM t1",
        );

        let r2 = rtx1.read(prepare(f, a));
        let r3 = rtx1.read(prepare(f, b));
        let r4 = rtx1.read(prepare(f, c));

        let r5 = rtx1.write(prepare(f, a));
        let r6 = rtx1.write(prepare(f, b));
        let r7 = rtx1.write(prepare(f, c));

        match (r2, r3, r4, r5, r6, r7) {
            (
                Err(ReadError::QueryIsRead),
                Err(ReadError::QueryIsRead),
                Ok(_),
                Ok(_),
                Ok(_),
                Err(WriteError::QueryIsRead),
            ) => assert!(true),
            _ => assert!(false),
        }

        // `q` can be either read/write.
        let r8 = rtx1.q(prepare(f, "INSERT INTO t1 (a, b) VALUES (3, 4)"));
        let r9 = rtx1.q(prepare(f, c));

        match (r8, r9) {
            (Ok(_), Ok(_)) => assert!(true),
            _ => assert!(false),
        }
    }
}

#[test]
fn statements_that_do_not_prepare_are_refused_with_the_status() {
    let wtx = db_file(get_test_file()).get_write_tx(Ok(RSet::default())).unwrap();
    let f = &wtx.db_file;
    match wtx.q(prepare(f, "INVALID COMMAND")) {
        Err(rs) => {
            assert_eq!(rs.primary.id, PrimaryRC::SQLITE_ERROR);
            assert!(rs.err_msg.unwrap().contains("syntax error"));
        }
        Ok(_) => assert!(false),
    }
    assert!(matches!(wtx.read(prepare(f, "INVALID COMMAND")), Err(ReadError::ReturnStatus(_))));
    assert!(matches!(wtx.write(prepare(f, "INVALID COMMAND")), Err(WriteError::ReturnStatus(_))));
    let p = Params::Index(vec![]);
    assert!(matches!(
        wtx.q_params(prepare(f, "INVALID COMMAND"), &p),
        Err(BindRunError::ReturnStatus(_))
    ));
    assert!(matches!(
        wtx.read_params(prepare(f, "INVALID COMMAND"), &p),
        Err(ReadBindRunError::BindRunError(BindRunError::ReturnStatus(_)))
    ));
    assert!(matches!(
        wtx.write_params(prepare(f, "INVALID COMMAND"), &p),
        Err(WriteBindRunError::BindRunError(BindRunError::ReturnStatus(_)))
    ));
}

#[test]
fn statements_with_data_are_gated_before_the_data_is_looked_at() {
    let wtx = db_file(get_test_file()).get_write_tx(Ok(RSet::default())).unwrap();
    let f = &wtx.db_file;
    let insert = "INSERT INTO t1 (a, b) VALUES (1, 2), (?, ?)";
    // too few values, but the statement is no read in the first place
    let short = Params::Index(vec![Val::I64(3)]);
    assert!(matches!(
        wtx.read_params(prepare(f, insert), &short),
        Err(ReadBindRunError::QueryIsRead)
    ));
    match wtx.write_params(prepare(f, insert), &short) {
        Err(WriteBindRunError::BindRunError(BindRunError::ErrorBind(eb))) => {
            assert_eq!(eb.kind, ErrorBindType::MissingIndexesInData)
        }
        _ => assert!(false),
    }
    let full = Params::Index(vec![Val::I64(3), Val::I64(4)]);
    let bound = wtx.write_params(prepare(f, insert), &full).ok().unwrap();
    assert_eq!(bound.bindings.len(), 2);
    assert_eq!((bound.bindings[0].index, bound.bindings[0].val), (1, &Val::I64(3)));
    assert_eq!((bound.bindings[1].index, bound.bindings[1].val), (2, &Val::I64(4)));
    assert!(bound.stmt.is_iud);

    let mut kv = KeyVal::new();
    kv.insert("x".to_string(), Val::I64(3));
    kv.insert("y".to_string(), Val::I64(4));
    let keyed = Params::Key(kv);
    let by_key = "INSERT INTO t1 (a, b) VALUES (1, 2), (:x, :y)";
    let bound = wtx.q_params(prepare(f, by_key), &keyed).ok().unwrap();
    assert_eq!(bound.bindings.len(), 2);
    // the wrong kind of data
    match wtx.q_params(prepare(f, by_key), &full) {
        Err(BindRunError::ErrorBind(eb)) => {
            assert_eq!(eb.kind, ErrorBindType::PlaceholderDataTypeNotCompatible)
        }
        _ => assert!(false),
    }
    let s = prepare(f, by_key).unwrap();
    assert!(bind_params(&s, &keyed).is_ok());

    let rtx = db_file(get_test_file()).get_read_tx(Ok(RSet::default())).unwrap();
    assert!(matches!(
        rtx.q_params(prepare(&rtx.db_file, insert), &full),
        Err(ReadBindRunError::QueryIsWrite)
    ));
}

#[test]
fn free_gates_agree_with_the_methods() {
    let f = db_file(get_test_file());
    let select = "SELECT * FROM t1";
    let create = "CREATE TABLE t2(a PRIMARY KEY, b);";
    assert!(run_read_only(prepare(&f, select), false).is_ok());
    assert!(run_read_only(prepare(&f, select), true).is_ok());
    assert!(matches!(run_read_only(prepare(&f, create), false), Err(ReadError::QueryIsWrite)));
    assert!(matches!(run_read_only(prepare(&f, create), true), Err(ReadError::QueryIsRead)));
    assert!(run_write_only(prepare(&f, create)).is_ok());
    assert!(matches!(run_write_only(prepare(&f, select)), Err(WriteError::QueryIsRead)));
    let none = Params::Index(vec![]);
    assert!(matches!(
        run_params_read_only(prepare(&f, create), &none, false),
        Err(ReadBindRunError::QueryIsWrite)
    ));
    assert!(matches!(
        run_params_read_only(prepare(&f, create), &none, true),
        Err(ReadBindRunError::QueryIsRead)
    ));
    assert!(matches!(
        run_params_write_only(prepare(&f, select), &none),
        Err(WriteBindRunError::QueryIsRead)
    ));
    // no placeholders at all: index data is not compatible
    assert!(matches!(
        run_params(prepare(&f, select), &none),
        Err(BindRunError::ErrorBind(_))
    ));
}

#[test]
fn transactions_get_fresh_ids_and_keep_their_file() {
    let file = get_test_file();
    let f = db_file(file.clone());
    assert!(is_valid_uuid_v4_hypenated(&f.id).is_ok());
    assert_eq!(f.get_file_abs(), file);
    let file_id = f.id.clone();
    let wtx = f.get_write_tx(Ok(RSet::default())).unwrap();
    assert!(is_valid_uuid_v4_hypenated(&wtx.id).is_ok());
    assert_ne!(wtx.id, file_id);
    assert_eq!(wtx.db_file.id, file_id);
    assert_eq!(wtx.db_file.db_handle.file, file);
    let (f, res) = wtx.commit(Ok(RSet::default()));
    assert!(res.is_ok());
    assert_eq!(f.id, file_id);
    let rtx = f.get_read_tx(Ok(RSet::default())).unwrap();
    let busy: ReturnStatus = PrimaryRC::SQLITE_BUSY.into();
    let (f, res) = rtx.rollback(Err(busy.clone()));
    assert_eq!(res, Err(busy));
    assert_eq!(f.id, file_id);
}

#[test]
fn a_failed_begin_gives_the_file_handle_back() {
    let busy: ReturnStatus = PrimaryRC::SQLITE_BUSY.into();
    let f = db_file(get_test_file());
    let id = f.id.clone();
    let (f, rs) = f.get_write_tx(Err(busy.clone())).unwrap_err();
    assert_eq!(f.id, id);
    assert_eq!(rs, busy);
    let (f, rs) = f.get_read_tx(Err(busy.clone())).unwrap_err();
    assert_eq!(f.id, id);
    assert_eq!(rs, busy);
}

#[test]
fn pragmas_decide_whether_there_is_a_file_handle() {
    let readonly: ReturnStatus = PrimaryRC::SQLITE_READONLY.into();
    let h = DbHandle::new(get_test_file(), 1, &0).unwrap();
    assert_eq!(DbFile::new(h, Err(readonly.clone())).unwrap_err(), readonly);

    assert_eq!(DbFile::set_connection_pragmas(Err(readonly.clone()), None), Err(readonly.clone()));
    assert_eq!(DbFile::set_connection_pragmas(Ok(()), Some(Err(readonly.clone()))), Err(readonly));
    assert_eq!(DbFile::set_connection_pragmas(Ok(()), Some(Ok(RSet::default()))), Ok(()));
}

fn mode_answer(cell: Val) -> RSet {
    RSet {
        is_read_only: false,
        is_iud: false,
        rows_changed: None,
        col_names: vec![ColName { name: "journal_mode".to_string(), name_origin: None }],
        num_cols: 1,
        num_rows: 1,
        rows: Rows { data: vec![vec![cell]] },
    }
}

#[test]
fn journal_modes_by_name() {
    assert_eq!(JournalMode::new("delete"), JournalMode::Delete);
    assert_eq!(JournalMode::new("truncate"), JournalMode::Truncate);
    assert_eq!(JournalMode::new("persist"), JournalMode::Persist);
    assert_eq!(JournalMode::new("memory"), JournalMode::Memory);
    assert_eq!(JournalMode::new("wal"), JournalMode::WAL);
    assert_eq!(JournalMode::new("off"), JournalMode::Off);
    assert_eq!(JournalMode::parse("WAL"), None);
    assert_eq!(JournalMode::parse(""), None);
    assert_eq!(JournalMode::parse("wal2"), None);
}

#[test]
fn journal_mode_is_read_from_the_last_cell() {
    let answer = mode_answer(Val::String("wal".to_string()));
    assert_eq!(JournalMode::read(&answer), Some(JournalMode::WAL));
    assert_eq!(JournalMode::from_db(Ok(answer)), Ok(JournalMode::WAL));
    assert_eq!(JournalMode::read(&mode_answer(Val::I64(1))), None);
    assert_eq!(JournalMode::read(&RSet::default()), None);
    let busy: ReturnStatus = PrimaryRC::SQLITE_BUSY.into();
    assert_eq!(JournalMode::from_db(Err(busy.clone())), Err(busy));
}

#[test]
fn steps_towards_wal_mode() {
    let busy: ReturnStatus = PrimaryRC::SQLITE_BUSY.into();
    let recovering = sqlite_mpi::err::to_return_status(&261);
    let readonly: ReturnStatus = PrimaryRC::SQLITE_READONLY.into();

    assert!(matches!(
        DbFile::set_journal_mode_wal(WalEvent::Read(Ok(JournalMode::WAL))),
        WalAction::Done
    ));
    assert!(matches!(
        DbFile::set_journal_mode_wal(WalEvent::Read(Ok(JournalMode::Delete))),
        WalAction::Write
    ));
    assert!(matches!(
        DbFile::set_journal_mode_wal(WalEvent::Read(Err(busy.clone()))),
        WalAction::ReadAfter(16)
    ));
    assert!(matches!(
        DbFile::set_journal_mode_wal(WalEvent::Read(Err(recovering))),
        WalAction::ReadAfter(16)
    ));
    match DbFile::set_journal_mode_wal(WalEvent::Read(Err(readonly.clone()))) {
        WalAction::Fail(e) => assert_eq!(e, readonly),
        _ => assert!(false),
    }
    assert!(matches!(
        DbFile::set_journal_mode_wal(WalEvent::Write(Ok(RSet::default()))),
        WalAction::Read
    ));
    assert!(matches!(
        DbFile::set_journal_mode_wal(WalEvent::Write(Err(busy))),
        WalAction::ReadAfter(16)
    ));
    assert_eq!(JOURNAL_RETRY_MS, 16);
}

#[test]
fn statements_of_the_library() {
    assert_eq!(BEGIN_READ, "BEGIN;");
    assert_eq!(TAKE_READ_LOCK, "SELECT 1 FROM sqlite_master LIMIT 0");
    assert_eq!(BEGIN_WRITE, "BEGIN IMMEDIATE");
    assert_eq!(COMMIT, "COMMIT");
    assert_eq!(ROLLBACK, "ROLLBACK");
    assert_eq!(READ_JOURNAL_MODE, "PRAGMA journal_mode");
    assert_eq!(SET_JOURNAL_MODE_WAL, "PRAGMA journal_mode=WAL");
    assert_eq!(SET_SYNCHRONOUS_NORMAL, "PRAGMA synchronous=NORMAL");
}

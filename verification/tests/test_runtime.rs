use sqlite_mpi::active_txs::{ActiveTxs, QState, Removed, Repost, WriteQueue, RW, RWO};
use sqlite_mpi::db::{BindRunError, DbHandle};
use sqlite_mpi::err::ReturnStatus;
use sqlite_mpi::errmap::PrimaryRC;
use sqlite_mpi::messages::{
    ArgsFile, ArgsTx, ArgsTxParams, FileOp, FileOpErr, InMsg, OutMsg, TxIdOnly, TxOp, TxOpErr,
};
use sqlite_mpi::runtime::{
    end_reply, file_err, get_file, get_file_abs, get_tx, immediate_response, input,
    maybe_queue_write_tx_req, process_file_op, process_tx_op_body, process_tx_op_end,
    process_write_req, process_wtx_req, remove_tx, reply_of, route, tx_err, InMsgWithId,
    InputError, InputItem, Route, Shape, WriteReqStep, WtxReq, RETRY_DELAY_MS,
};
use sqlite_mpi::sma::{
    DbFile, Params, ReadBindRunError, ReadError, ReadTx, WriteBindRunError, WriteError, WriteTx,
};
use sqlite_mpi::stmt::{ErrorBindType, Prepared, RSet, StmtHandle, Val};

fn busy() -> ReturnStatus {
    PrimaryRC::SQLITE_BUSY.into()
}

fn cant_open() -> ReturnStatus {
    PrimaryRC::SQLITE_CANTOPEN.into()
}

fn db_file(file: &str, db: usize) -> DbFile {
    DbFile::new(DbHandle::new(file.to_string(), db, &0).unwrap(), Ok(())).unwrap()
}

fn read_tx(file: &str, db: usize) -> ReadTx {
    db_file(file, db).get_read_tx(Ok(RSet::default())).ok().unwrap()
}

fn write_tx(file: &str, db: usize) -> WriteTx {
    db_file(file, db).get_write_tx(Ok(RSet::default())).ok().unwrap()
}

fn wtx_req(id: &str, file: &str) -> WtxReq {
    WtxReq { id: id.to_string(), args: ArgsFile { file: file.to_string() } }
}

// A request to open a write transaction arrives; the driver answers the
// attempt, if there is one, with `acquired`. Gives the reply and the request
// to send back.
fn open_write(
    at: &mut ActiveTxs,
    id: &str,
    file: &str,
    acquired: Result<WriteTx, ReturnStatus>,
) -> (Option<Result<TxIdOnly, FileOpErr>>, Option<Repost>) {
    match process_write_req(at, wtx_req(id, file), Some(file.to_string())) {
        WriteReqStep::Respond(res) => (Some(res), None),
        WriteReqStep::Queued => (None, None),
        WriteReqStep::Acquire { wtx_req, f_abs } => {
            let out = process_wtx_req(at, wtx_req, &f_abs, acquired);
            (out.reply, out.repost)
        }
    }
}

fn is_queued(at: &mut ActiveTxs, id: &str, file: &str) -> bool {
    matches!(
        process_write_req(at, wtx_req(id, file), Some(file.to_string())),
        WriteReqStep::Queued
    )
}

fn commit(id: &str) -> TxOp {
    TxOp::Commit(TxIdOnly { tx_id: id.to_string() })
}

fn rollback(id: &str) -> TxOp {
    TxOp::Rollback(TxIdOnly { tx_id: id.to_string() })
}

fn reposted_id(next: &Option<InMsgWithId>) -> Option<&str> {
    next.as_ref().map(|m| m.id.as_str())
}

fn is_write_open_for(msg: &InMsgWithId, file: &str) -> bool {
    match &msg.msg {
        InMsg::File(FileOp::GetWriteTx(args)) => args.file == file,
        _ => false,
    }
}

#[test]
fn single_file_single_writer_single_reader() {
    let mut at = ActiveTxs::new();
    let r1 = read_tx("/tmp/a", 1);
    let r1_id = r1.id.clone();
    let res = process_file_op(&mut at, Ok(r1)).unwrap();
    assert_eq!(res.tx_id, r1_id);

    let w1 = write_tx("/tmp/a", 2);
    let w1_id = w1.id.clone();
    let (reply, repost) = open_write(&mut at, "m-w1", "/tmp/a", Ok(w1));
    assert_eq!(reply.unwrap().unwrap().tx_id, w1_id);
    assert!(repost.is_none());

    // both are found, each on its own connection
    match at.get_tx(r1_id.clone()) {
        Some(RW::Read(rt)) => assert_eq!(rt.db_file.db_handle.db, 1),
        _ => assert!(false),
    }
    match at.get_tx(w1_id.clone()) {
        Some(RW::Write(wt)) => assert_eq!(wt.db_file.db_handle.db, 2),
        _ => assert!(false),
    }
    assert!(at.contains_tx(&r1_id) && at.contains_tx(&w1_id));

    // statements go to the connection of their transaction
    let select = TxOp::Q(ArgsTx { tx_id: w1_id.clone(), q: "SELECT * FROM t1".to_string() });
    let plan = process_tx_op_body(&at, &select).unwrap();
    assert_eq!((plan.db.db, plan.shape, plan.q.as_str()), (2, Shape::Plain, "SELECT * FROM t1"));
    assert!(plan.params.is_none());
    let select = TxOp::Q(ArgsTx { tx_id: r1_id.clone(), q: "SELECT * FROM t1".to_string() });
    let plan = process_tx_op_body(&at, &select).unwrap();
    assert_eq!((plan.db.db, plan.shape), (1, Shape::Read));
    assert_eq!(plan.db.file, "/tmp/a");
    // r1 predates w1: the driver knows no such table, and says so
    let no_table = StmtHandle::new(
        &DbHandle::new("/tmp/a".to_string(), 1, &0).unwrap(),
        "SELECT * FROM t1",
        Prepared {
            code: 1,
            db_msg: "no such table: t1".to_string(),
            stmt: 0,
            names: vec![],
            read_only: false,
        },
    );
    match plan.decide(no_table) {
        Err(TxOpErr::ReadError(ReadError::ReturnStatus(rs))) => {
            assert_eq!(rs.err_msg, Some("no such table: t1".to_string()))
        }
        _ => assert!(false),
    }
}

#[test]
fn write_queue() {
    let mut at = ActiveTxs::new();
    let w1 = write_tx("/tmp/a", 1);
    let w1_id = w1.id.clone();
    let (reply, _) = open_write(&mut at, "m1", "/tmp/a", Ok(w1));
    assert!(reply.unwrap().is_ok());

    // with w1 open, w2 must not be answered yet
    assert!(is_queued(&mut at, "m2", "/tmp/a"));
    assert!(is_queued(&mut at, "m3", "/tmp/a"));

    // another file is not held up
    let wb = write_tx("/tmp/b", 9);
    let (reply, _) = open_write(&mut at, "mb", "/tmp/b", Ok(wb));
    assert!(reply.unwrap().is_ok());

    // w1 commits: it leaves the registry, and m2 is sent round
    let plan = process_tx_op_end(&mut at, &commit(&w1_id)).unwrap();
    assert_eq!(plan.sql, "COMMIT");
    assert!(matches!(plan.tx, RWO::Write(_)));
    assert_eq!(reposted_id(&plan.next), Some("m2"));
    assert!(is_write_open_for(plan.next.as_ref().unwrap(), "/tmp/a"));
    assert!(!at.contains_tx(&w1_id));
    let (reply, db_file) = end_reply(plan.tx, Ok(RSet::default()));
    assert!(reply.is_ok());
    assert_eq!(db_file.db_handle.db, 1);

    // a request that arrives before m2 is back queues behind m3
    assert!(is_queued(&mut at, "m4", "/tmp/a"));

    // m2 comes back and gets the lock
    let w2 = write_tx("/tmp/a", 2);
    let w2_id = w2.id.clone();
    let (reply, repost) = open_write(&mut at, "m2", "/tmp/a", Ok(w2));
    assert_eq!(reply.unwrap().unwrap().tx_id, w2_id);
    assert!(repost.is_none());

    // then m3, then m4
    let plan = process_tx_op_end(&mut at, &rollback(&w2_id)).unwrap();
    assert_eq!(plan.sql, "ROLLBACK");
    assert_eq!(reposted_id(&plan.next), Some("m3"));
    let w3 = write_tx("/tmp/a", 3);
    let w3_id = w3.id.clone();
    assert!(open_write(&mut at, "m3", "/tmp/a", Ok(w3)).0.unwrap().is_ok());
    let plan = process_tx_op_end(&mut at, &commit(&w3_id)).unwrap();
    assert_eq!(reposted_id(&plan.next), Some("m4"));
    let w4 = write_tx("/tmp/a", 4);
    let w4_id = w4.id.clone();
    assert!(open_write(&mut at, "m4", "/tmp/a", Ok(w4)).0.unwrap().is_ok());

    // nothing waits behind m4: the slot is empty after it
    let plan = process_tx_op_end(&mut at, &commit(&w4_id)).unwrap();
    assert!(plan.next.is_none());
    let f = "/tmp/a".to_string();
    assert!(matches!(at.wr_qstate(&f), QState::Empty));
}

#[test]
fn external_busy() {
    let mut at = ActiveTxs::new();
    let f = "/tmp/a".to_string();

    // another process holds the lock: no reply, try again in two seconds
    let (reply, repost) = open_write(&mut at, "m1", "/tmp/a", Err(busy()));
    assert!(reply.is_none());
    let repost = repost.unwrap();
    assert_eq!(repost.delay_ms, 2000);
    assert_eq!(RETRY_DELAY_MS, 2000);
    assert_eq!(repost.msg.id, "m1");
    assert!(is_write_open_for(&repost.msg, "/tmp/a"));
    assert!(matches!(at.wr_qstate(&f), QState::NextRetry(id) if id == "m1"));

    // requests that arrive meanwhile wait behind it
    assert!(is_queued(&mut at, "m2", "/tmp/a"));

    // still busy: again no reply
    let (reply, repost) = open_write(&mut at, "m1", "/tmp/a", Err(busy()));
    assert!(reply.is_none());
    assert_eq!(repost.unwrap().msg.id, "m1");

    // an extended busy code is busy too
    let (reply, repost) =
        open_write(&mut at, "m1", "/tmp/a", Err(sqlite_mpi::err::to_return_status(&517)));
    assert!(reply.is_none());
    assert_eq!(repost.unwrap().delay_ms, 2000);

    // the lock is released: m1 is answered, m2 still waits
    let w1 = write_tx("/tmp/a", 1);
    let w1_id = w1.id.clone();
    let (reply, repost) = open_write(&mut at, "m1", "/tmp/a", Ok(w1));
    assert_eq!(reply.unwrap().unwrap().tx_id, w1_id);
    assert!(repost.is_none());
    let plan = process_tx_op_end(&mut at, &commit(&w1_id)).unwrap();
    assert_eq!(reposted_id(&plan.next), Some("m2"));
}

#[test]
fn a_failed_attempt_gives_the_next_request_its_turn() {
    let mut at = ActiveTxs::new();
    let f = "/tmp/a".to_string();
    let (reply, _) = open_write(&mut at, "m1", "/tmp/a", Err(busy()));
    assert!(reply.is_none());
    assert!(is_queued(&mut at, "m2", "/tmp/a"));
    assert!(is_queued(&mut at, "m3", "/tmp/a"));

    // m1 comes back and fails for good: it is answered, m2 is sent at once
    let (reply, repost) = open_write(&mut at, "m1", "/tmp/a", Err(cant_open()));
    assert_eq!(reply.unwrap(), Err(FileOpErr::ReturnStatus(cant_open())));
    let repost = repost.unwrap();
    assert_eq!((repost.msg.id.as_str(), repost.delay_ms), ("m2", 0));
    assert!(matches!(at.wr_qstate(&f), QState::NextRetry(id) if id == "m2"));

    // m2 fails too: m3
    let (reply, repost) = open_write(&mut at, "m2", "/tmp/a", Err(cant_open()));
    assert!(reply.unwrap().is_err());
    assert_eq!(repost.unwrap().msg.id, "m3");

    // m3 fails, nothing waits: the slot is empty again
    let (reply, repost) = open_write(&mut at, "m3", "/tmp/a", Err(cant_open()));
    assert!(reply.unwrap().is_err());
    assert!(repost.is_none());
    assert!(matches!(at.wr_qstate(&f), QState::Empty));
}

#[test]
fn a_path_without_directory_is_refused() {
    let mut at = ActiveTxs::new();
    match process_write_req(&mut at, wtx_req("m1", "/no/such/dir/a"), None) {
        WriteReqStep::Respond(res) => assert_eq!(res, Err(FileOpErr::FileDirectoryDoesNotExist)),
        _ => assert!(false),
    }
    assert_eq!(get_file_abs(None), Err(FileOpErr::FileDirectoryDoesNotExist));
    assert_eq!(get_file_abs(Some("/tmp/a".to_string())), Ok("/tmp/a".to_string()));
    assert!(matches!(get_file(Err(cant_open())), Err(FileOpErr::ReturnStatus(_))));
    assert!(get_file(Ok(db_file("/tmp/a", 1))).is_ok());
    let res = process_file_op(&mut at, Err(FileOpErr::FileDirectoryDoesNotExist));
    assert_eq!(res, Err(FileOpErr::FileDirectoryDoesNotExist));
}

#[test]
fn transactions_are_live_between_open_and_end() {
    let mut at = ActiveTxs::new();
    let r1 = read_tx("/tmp/a", 1);
    let r2 = read_tx("/tmp/a", 2);
    let (id1, id2) = (r1.id.clone(), r2.id.clone());
    assert!(!at.contains_tx(&id1));
    process_file_op(&mut at, Ok(r1)).unwrap();
    process_file_op(&mut at, Ok(r2)).unwrap();
    assert!(at.contains_tx(&id1) && at.contains_tx(&id2));

    let plan = process_tx_op_end(&mut at, &commit(&id1)).unwrap();
    match &plan.tx {
        RWO::Read(rt) => assert_eq!((rt.id.as_str(), rt.db_file.db_handle.db), (id1.as_str(), 1)),
        _ => assert!(false),
    }
    assert!(plan.next.is_none());
    assert!(!at.contains_tx(&id1) && at.contains_tx(&id2));

    // a second end finds nothing
    assert!(matches!(process_tx_op_end(&mut at, &commit(&id1)), Err(TxOpErr::InvalidTxId)));
    assert!(matches!(
        process_tx_op_end(&mut at, &rollback("no-such-tx")),
        Err(TxOpErr::InvalidTxId)
    ));
    assert!(at.contains_tx(&id2));
    assert!(matches!(remove_tx(&mut at, &rollback(&id2)), Ok(Removed { tx: RWO::Read(_), .. })));
    assert!(!at.contains_tx(&id2));
}

#[test]
fn statements_for_unknown_transactions_are_refused() {
    let at = ActiveTxs::new();
    let op = TxOp::Q(ArgsTx { tx_id: "no-such-tx".to_string(), q: "SELECT 1".to_string() });
    assert!(matches!(process_tx_op_body(&at, &op), Err(TxOpErr::InvalidTxId)));
    assert!(matches!(get_tx(&at, &op), Err(TxOpErr::InvalidTxId)));
    assert!(at.get_tx("no-such-tx".to_string()).is_none());
}

fn stmt(db: usize, read_only: bool, names: Vec<Option<String>>) -> Result<StmtHandle, ReturnStatus> {
    StmtHandle::new(
        &DbHandle::new("/tmp/a".to_string(), db, &0).unwrap(),
        "SELECT 1",
        Prepared { code: 0, db_msg: String::new(), stmt: 5, names, read_only },
    )
}

fn args(id: &str) -> ArgsTx {
    ArgsTx { tx_id: id.to_string(), q: "SELECT 1".to_string() }
}

fn args_params(id: &str, params: Params) -> ArgsTxParams {
    ArgsTxParams { tx_id: id.to_string(), q: "SELECT ?".to_string(), params }
}

#[test]
fn read_transactions_take_reads_only() {
    let mut at = ActiveTxs::new();
    let r = read_tx("/tmp/a", 1);
    let id = r.id.clone();
    process_file_op(&mut at, Ok(r)).unwrap();

    // what the client calls a write is refused before anything is prepared
    let op = TxOp::Write(args(&id));
    assert!(matches!(
        process_tx_op_body(&at, &op),
        Err(TxOpErr::ReadError(ReadError::QueryIsWrite))
    ));
    let op = TxOp::WriteParams(args_params(&id, Params::Index(vec![])));
    assert!(matches!(
        process_tx_op_body(&at, &op),
        Err(TxOpErr::ReadError(ReadError::QueryIsWrite))
    ));

    // what turns out to be a write is refused when it is prepared
    for op in [TxOp::Read(args(&id)), TxOp::Q(args(&id))] {
        let plan = process_tx_op_body(&at, &op).unwrap();
        assert_eq!(plan.shape, Shape::Read);
        assert!(matches!(
            plan.decide(stmt(1, false, vec![])),
            Err(TxOpErr::ReadError(ReadError::QueryIsWrite))
        ));
        let ready = plan.decide(stmt(1, true, vec![])).ok().unwrap();
        assert!(ready.bindings.is_empty());
        assert_eq!(ready.stmt.stmt, 5);
    }
    for op in [
        TxOp::ReadParams(args_params(&id, Params::Index(vec![Val::I64(1)]))),
        TxOp::QParams(args_params(&id, Params::Index(vec![Val::I64(1)]))),
    ] {
        let plan = process_tx_op_body(&at, &op).unwrap();
        assert_eq!(plan.shape, Shape::ReadBind);
        assert!(matches!(
            plan.decide(stmt(1, false, vec![None])),
            Err(TxOpErr::ReadBindRunError(ReadBindRunError::QueryIsWrite))
        ));
        let ready = plan.decide(stmt(1, true, vec![None])).ok().unwrap();
        assert_eq!(ready.bindings.len(), 1);
        assert_eq!((ready.bindings[0].index, ready.bindings[0].val), (1, &Val::I64(1)));
    }
}

#[test]
fn write_transactions_hold_statements_to_their_category() {
    let mut at = ActiveTxs::new();
    let w = write_tx("/tmp/a", 1);
    let id = w.id.clone();
    open_write(&mut at, "m1", "/tmp/a", Ok(w));

    let op = TxOp::Q(args(&id));
    let plan = process_tx_op_body(&at, &op).unwrap();
    assert!(plan.decide(stmt(1, true, vec![])).is_ok());
    assert!(plan.decide(stmt(1, false, vec![])).is_ok());

    let op = TxOp::Read(args(&id));
    let plan = process_tx_op_body(&at, &op).unwrap();
    assert!(plan.in_write_tx);
    assert!(plan.decide(stmt(1, true, vec![])).is_ok());
    assert!(matches!(
        plan.decide(stmt(1, false, vec![])),
        Err(TxOpErr::ReadError(ReadError::QueryIsRead))
    ));
    let op = TxOp::ReadParams(args_params(&id, Params::Index(vec![Val::I64(1)])));
    let plan = process_tx_op_body(&at, &op).unwrap();
    assert!(matches!(
        plan.decide(stmt(1, false, vec![None])),
        Err(TxOpErr::ReadBindRunError(ReadBindRunError::QueryIsRead))
    ));
    assert!(plan.decide(stmt(1, true, vec![None])).is_ok());

    let op = TxOp::Write(args(&id));
    let plan = process_tx_op_body(&at, &op).unwrap();
    assert!(plan.decide(stmt(1, false, vec![])).is_ok());
    assert!(matches!(
        plan.decide(stmt(1, true, vec![])),
        Err(TxOpErr::WriteError(WriteError::QueryIsRead))
    ));

    let op = TxOp::WriteParams(args_params(&id, Params::Index(vec![])));
    let plan = process_tx_op_body(&at, &op).unwrap();
    assert_eq!(plan.shape, Shape::WriteBind);
    assert!(matches!(
        plan.decide(stmt(1, true, vec![None])),
        Err(TxOpErr::WriteBindRunError(WriteBindRunError::QueryIsRead))
    ));
    match plan.decide(stmt(1, false, vec![None])) {
        Err(TxOpErr::WriteBindRunError(WriteBindRunError::BindRunError(
            BindRunError::ErrorBind(eb),
        ))) => assert_eq!(eb.kind, ErrorBindType::MissingIndexesInData),
        _ => assert!(false),
    }

    let op = TxOp::QParams(args_params(&id, Params::Index(vec![Val::Null])));
    let plan = process_tx_op_body(&at, &op).unwrap();
    assert_eq!(plan.shape, Shape::Bind);
    match plan.decide(stmt(1, false, vec![Some(":a".to_string())])) {
        Err(TxOpErr::BindRunError(BindRunError::ErrorBind(eb))) => {
            assert_eq!(eb.kind, ErrorBindType::PlaceholderDataTypeNotCompatible)
        }
        _ => assert!(false),
    }
}

#[test]
fn failures_are_reported_in_the_shape_of_the_request() {
    let mut at = ActiveTxs::new();
    let w = write_tx("/tmp/a", 1);
    let id = w.id.clone();
    open_write(&mut at, "m1", "/tmp/a", Ok(w));
    let p = || Params::Index(vec![Val::Null]);

    let ops = vec![
        TxOp::Q(args(&id)),
        TxOp::QParams(args_params(&id, p())),
        TxOp::Read(args(&id)),
        TxOp::ReadParams(args_params(&id, p())),
        TxOp::Write(args(&id)),
        TxOp::WriteParams(args_params(&id, p())),
    ];
    let mut seen = vec![];
    for op in &ops {
        let plan = process_tx_op_body(&at, op).unwrap();
        let failed = plan.finish(Err(busy())).unwrap_err();
        let from_run = plan.run_failed(busy());
        let refused = plan.decide(Err(busy())).err().unwrap();
        seen.push(sqlite_mpi::json_out::E::from(failed).error_type);
        assert_eq!(
            sqlite_mpi::json_out::E::from(from_run).error_type,
            sqlite_mpi::json_out::E::from(refused).error_type
        );
        assert!(plan.finish(Ok(RSet::default())).is_ok());
    }
    assert_eq!(
        seen,
        vec![
            "TxOp/ReturnStatus",
            "TxOp/BindRunError/ReturnStatus",
            "TxOp/ReadError/ReturnStatus",
            "TxOp/ReadBindRunError/BindRunError/ReturnStatus",
            "TxOp/WriteError/ReturnStatus",
            "TxOp/WriteBindRunError/BindRunError/ReturnStatus",
        ]
    );

    let plan = process_tx_op_body(&at, &ops[5]).unwrap();
    let e = sqlite_mpi::json_out::E::from(
        plan.bind_failed(PrimaryRC::SQLITE_RANGE.into()),
    );
    assert_eq!(e.error_type, "TxOp/WriteBindRunError/BindRunError/ErrorBind/ReturnStatus");
    assert_eq!(e.data.return_status, Some(PrimaryRC::SQLITE_RANGE.into()));
}

#[test]
fn a_failed_end_is_reported_and_the_connection_comes_back() {
    let (reply, f) = end_reply(RWO::Write(write_tx("/tmp/a", 4)), Err(busy()));
    match reply {
        Err(TxOpErr::ReturnStatus(rs)) => assert_eq!(rs, busy()),
        _ => assert!(false),
    }
    assert_eq!(f.db_handle.db, 4);
    let (reply, f) = end_reply(RWO::Read(read_tx("/tmp/a", 5)), Ok(RSet::default()));
    assert!(reply.is_ok());
    assert_eq!(f.db_handle.db, 5);
}

#[test]
fn requests_are_routed_by_what_they_ask() {
    let file = || ArgsFile { file: "/tmp/a".to_string() };
    assert_eq!(route(&InMsg::File(FileOp::GetReadTx(file()))), Route::OpenRead);
    assert_eq!(route(&InMsg::File(FileOp::GetWriteTx(file()))), Route::OpenWrite);
    assert_eq!(route(&InMsg::Tx(TxOp::Q(args("t")))), Route::TxBody);
    assert_eq!(route(&InMsg::Tx(TxOp::Write(args("t")))), Route::TxBody);
    assert_eq!(route(&InMsg::Tx(commit("t"))), Route::TxEnd);
    assert_eq!(route(&InMsg::Tx(rollback("t"))), Route::TxEnd);
}

#[test]
fn input_is_validated() {
    let msg = |id: &str| InMsgWithId {
        id: id.to_string(),
        msg: InMsg::Tx(commit("t")),
    };
    assert_eq!(input(msg("not-an-id")).err(), Some(InputError::InvalidId));
    assert_eq!(
        input(msg("936DA01F-9ABD-4D9D-80C7-02AF85C822A8")).err(),
        Some(InputError::InvalidId)
    );
    match input(msg("936da01f-9abd-4d9d-80c7-02af85c822a8")) {
        Ok(InputItem::InMsgWithId(m)) => assert_eq!(m.id, "936da01f-9abd-4d9d-80c7-02af85c822a8"),
        _ => assert!(false),
    }
    let fresh = InMsgWithId::new_gen_id(InMsg::Tx(commit("t")));
    assert!(input(fresh).is_ok());
}

#[test]
fn replies_carry_the_id_of_their_request() {
    let out = immediate_response("m1".to_string(), tx_err(TxOpErr::InvalidTxId));
    assert_eq!(out.in_msg_id, "m1");
    assert!(matches!(out.msg, OutMsg::Tx(Err(TxOpErr::InvalidTxId))));
    let out = immediate_response(
        "m2".to_string(),
        file_err(FileOpErr::FileDirectoryDoesNotExist),
    );
    assert!(matches!(out.msg, OutMsg::File(Err(FileOpErr::FileDirectoryDoesNotExist))));
    assert!(maybe_queue_write_tx_req("m3".to_string(), None).is_none());
    let out = maybe_queue_write_tx_req(
        "m3".to_string(),
        Some(Ok(TxIdOnly { tx_id: "t".to_string() })),
    )
    .unwrap();
    assert_eq!(out.in_msg_id, "m3");
    assert!(matches!(out.msg, OutMsg::File(Ok(_))));
    let back: InMsgWithId = wtx_req("m4", "/tmp/a").into();
    assert_eq!(back.id, "m4");
    assert!(is_write_open_for(&back, "/tmp/a"));
}

#[test]
fn a_request_that_waits_gets_no_reply() {
    let mut at = ActiveTxs::new();
    open_write(&mut at, "m1", "/tmp/a", Ok(write_tx("/tmp/a", 1)));

    // queued behind the open transaction: nothing goes to the sink
    let step = process_write_req(&mut at, wtx_req("m2", "/tmp/a"), Some("/tmp/a".to_string()));
    assert!(matches!(step, WriteReqStep::Queued));
    assert!(maybe_queue_write_tx_req("m2".to_string(), reply_of(step)).is_none());

    // a request whose turn has come has no answer before the attempt
    let step = process_write_req(&mut at, wtx_req("m3", "/tmp/b"), Some("/tmp/b".to_string()));
    assert!(matches!(step, WriteReqStep::Acquire { .. }));
    assert!(reply_of(step).is_none());

    // a refused path is answered at once, under the request's id
    let step = process_write_req(&mut at, wtx_req("m4", "/nowhere/a"), None);
    let out = maybe_queue_write_tx_req("m4".to_string(), reply_of(step)).unwrap();
    assert_eq!(out.in_msg_id, "m4");
    assert!(matches!(out.msg, OutMsg::File(Err(FileOpErr::FileDirectoryDoesNotExist))));
}

#[test]
fn registry_operations() {
    let mut at = ActiveTxs::new();
    let f = "/tmp/a".to_string();
    assert!(matches!(at.wr_qstate(&f), QState::Empty));
    at.wr_queue(&f, wtx_req("m1", "/tmp/a"));
    at.wr_queue(&f, wtx_req("m2", "/tmp/a"));
    // the oldest request gets its turn
    let next = at.wr_fail(&f, wtx_req("m0", "/tmp/a"));
    assert_eq!(reposted_id(&next), Some("m1"));
    assert!(matches!(at.wr_qstate(&f), QState::NextRetry(id) if id == "m1"));
    let repost = at.wr_retry(&f, wtx_req("m1", "/tmp/a"), 250);
    assert_eq!((repost.msg.id.as_str(), repost.delay_ms), ("m1", 250));
    let w = write_tx("/tmp/a", 1);
    let id = w.id.clone();
    at.wr_active(&f, w);
    assert!(matches!(at.wr_qstate(&f), QState::Active(w) if w.id == id));
    let r = read_tx("/tmp/a", 2);
    let rid = r.id.clone();
    at.add_read(&f, rid.clone(), r);
    assert!(matches!(at.get_tx(rid.clone()), Some(RW::Read(_))));
    let removed = at.remove_tx(id.clone()).unwrap();
    assert!(matches!(removed.tx, RWO::Write(_)));
    assert_eq!(reposted_id(&removed.next), Some("m2"));
    assert!(at.remove_tx(id).is_none());
    assert!(at.contains_tx(&rid));
}

#[test]
fn write_queue_alone() {
    let mut q = WriteQueue::new();
    assert!(matches!(q.state, QState::Empty));
    assert!(q.queue.is_empty());
    assert!(q.take_active().is_none());

    // a slot without a write transaction is left as it is, with its queue
    q.state = QState::NextRetry("m0".to_string());
    q.queue.push_back(wtx_req("m1", "/tmp/a"));
    assert!(q.take_active().is_none());
    assert!(matches!(&q.state, QState::NextRetry(id) if id == "m0"));
    assert_eq!(q.queue.len(), 1);
    assert_eq!(q.queue[0].id, "m1");
    q.state = QState::Empty;
    assert!(q.take_active().is_none());
    assert!(matches!(q.state, QState::Empty));
    assert_eq!(q.queue.len(), 1);
    q.queue.clear();

    q.state = QState::Active(write_tx("/tmp/a", 1));
    q.queue.push_back(wtx_req("m1", "/tmp/a"));
    q.queue.push_back(wtx_req("m2", "/tmp/a"));
    let taken = q.take_active().unwrap();
    assert_eq!(taken.active.db_file.db_handle.db, 1);
    assert_eq!(taken.next.unwrap().id, "m1");
    assert!(matches!(&q.state, QState::NextRetry(id) if id == "m1"));
    assert_eq!(q.queue.len(), 1);

    q.state = QState::Active(write_tx("/tmp/a", 2));
    let taken = q.take_active().unwrap();
    assert_eq!(taken.next.unwrap().id, "m2");
    q.state = QState::Active(write_tx("/tmp/a", 3));
    let taken = q.take_active().unwrap();
    assert!(taken.next.is_none());
    assert!(matches!(q.state, QState::Empty));
}

#[test]
fn closing_gives_back_every_live_transaction() {
    let mut at = ActiveTxs::new();
    let mut expected = vec![];
    for (i, file) in ["/tmp/a", "/tmp/a", "/tmp/b"].iter().enumerate() {
        let r = read_tx(file, 10 + i);
        expected.push(r.id.clone());
        process_file_op(&mut at, Ok(r)).unwrap();
    }
    for (i, file) in ["/tmp/a", "/tmp/c"].iter().enumerate() {
        let w = write_tx(file, 20 + i);
        expected.push(w.id.clone());
        open_write(&mut at, "m", file, Ok(w));
    }
    // one ended before the loop did
    let ended = expected.remove(1);
    process_tx_op_end(&mut at, &commit(&ended)).unwrap();
    assert!(is_queued(&mut at, "waiting", "/tmp/a"));

    let mut closed: Vec<String> = at
        .close_all()
        .into_iter()
        .map(|tx| match tx {
            RWO::Read(rt) => rt.id,
            RWO::Write(wt) => wt.id,
        })
        .collect();
    closed.sort();
    expected.sort();
    assert_eq!(closed, expected);
}

use sqlite_mpi::db::BindRunError;
use sqlite_mpi::err::ReturnStatus;
use sqlite_mpi::errmap::PrimaryRC;
use sqlite_mpi::iop::{accept, RetI};
use sqlite_mpi::json_in::{args_shape, in_json_to_rs, Args, ArgsShape, DataError, ParseFailure};
use sqlite_mpi::json_out::{bre_match, k, km, ks, out_rs_to_json, to_path, ErrRes, Reply, E};
use sqlite_mpi::messages::{
    ArgsFile, ArgsTx, ArgsTxParams, FileOp, FileOpErr, InMsg, OutMsg, TxIdOnly, TxOp, TxOpErr,
    TxOpType,
};
use sqlite_mpi::runtime::{InMsgWithId, InputError, InputItem};
use sqlite_mpi::sma::{Params, ReadBindRunError, ReadError, WriteBindRunError, WriteError};
use sqlite_mpi::stmt::{ErrorBind, ErrorBindType, RSet, Val};

#[test]
fn test_read_tx() {
    let id = "example-uuid".to_string();
    let mut args = serde_json::Map::new();
    args.insert("file".to_string(), serde_json::Value::String("a/b/c.sqlite".to_string()));
    let mut envelope = serde_json::Map::new();
    envelope.insert("id".to_string(), serde_json::Value::String(id.clone()));
    envelope.insert("fn".to_string(), serde_json::Value::String("file/get_read_tx".to_string()));
    envelope.insert("args".to_string(), serde_json::Value::Object(args));
    let from = serde_json::Value::Object(envelope).to_string();

    let to = InMsgWithId {
        id,
        msg: InMsg::File(FileOp::GetReadTx(ArgsFile { file: "a/b/c.sqlite".to_string() })),
    };

    // the envelope is read off the text, the request is made of its parts
    let read: serde_json::Value = serde_json::from_str(&from).expect("Ok");
    let r = in_json_to_rs(
        read["id"].as_str().unwrap().to_string(),
        read["fn"].as_str().unwrap(),
        Args::File(ArgsFile { file: read["args"]["file"].as_str().unwrap().to_string() }),
    )
    .expect("Ok");

    assert_eq!(r.id, to.id);
    match (r.msg, to.msg) {
        (InMsg::File(a), InMsg::File(b)) => assert_eq!(a, b),
        _ => assert!(false),
    }
}

#[test]
fn every_function_name_has_its_request() {
    let tx = || ArgsTx { tx_id: "t".to_string(), q: "SELECT 1".to_string() };
    let txp = || ArgsTxParams {
        tx_id: "t".to_string(),
        q: "SELECT ?".to_string(),
        params: Params::Index(vec![Val::I64(1)]),
    };
    let only = || TxIdOnly { tx_id: "t".to_string() };
    let file = || ArgsFile { file: "/tmp/a".to_string() };
    let msg = |name: &str, args: Args| in_json_to_rs("m".to_string(), name, args).unwrap().msg;

    assert!(matches!(msg("file/get_read_tx", Args::File(file())), InMsg::File(FileOp::GetReadTx(_))));
    assert!(matches!(msg("file/get_write_tx", Args::File(file())), InMsg::File(FileOp::GetWriteTx(_))));
    assert!(matches!(msg("tx/q", Args::Tx(tx())), InMsg::Tx(TxOp::Q(_))));
    assert!(matches!(msg("tx/read", Args::Tx(tx())), InMsg::Tx(TxOp::Read(_))));
    assert!(matches!(msg("tx/write", Args::Tx(tx())), InMsg::Tx(TxOp::Write(_))));
    assert!(matches!(msg("tx/q_params", Args::TxParams(txp())), InMsg::Tx(TxOp::QParams(_))));
    assert!(matches!(msg("tx/read_params", Args::TxParams(txp())), InMsg::Tx(TxOp::ReadParams(_))));
    assert!(matches!(msg("tx/write_params", Args::TxParams(txp())), InMsg::Tx(TxOp::WriteParams(_))));
    assert!(matches!(msg("tx/commit", Args::TxIdOnly(only())), InMsg::Tx(TxOp::Commit(_))));
    assert!(matches!(msg("tx/rollback", Args::TxIdOnly(only())), InMsg::Tx(TxOp::Rollback(_))));

    assert_eq!(args_shape("file/get_write_tx"), Ok(ArgsShape::File));
    assert_eq!(args_shape("tx/write"), Ok(ArgsShape::Tx));
    assert_eq!(args_shape("tx/q_params"), Ok(ArgsShape::TxParams));
    assert_eq!(args_shape("tx/rollback"), Ok(ArgsShape::TxIdOnly));
}

#[test]
fn unknown_functions_and_wrong_arguments_are_refused() {
    let file = || Args::File(ArgsFile { file: "a/b/c.sqlite".to_string() });
    assert_eq!(args_shape("file/get_read_tx___"), Err(DataError::InvalidFunction));
    assert_eq!(args_shape(""), Err(DataError::InvalidFunction));
    assert_eq!(args_shape("TX/Q"), Err(DataError::InvalidFunction));
    assert!(matches!(
        in_json_to_rs("example-uuid".to_string(), "file/get_read_tx___", file()),
        Err(ParseFailure::DataError(DataError::InvalidFunction))
    ));
    assert!(matches!(
        in_json_to_rs("example-uuid".to_string(), "tx/commit", file()),
        Err(ParseFailure::DataError(DataError::InvalidArgs))
    ));
    assert!(matches!(
        in_json_to_rs(
            "example-uuid".to_string(),
            "tx/q",
            Args::TxIdOnly(TxIdOnly { tx_id: "t".to_string() })
        ),
        Err(ParseFailure::DataError(DataError::InvalidArgs))
    ));
}

#[test]
fn requests_know_their_transaction_and_type() {
    let op = TxOp::Write(ArgsTx { tx_id: "abc".to_string(), q: "DELETE FROM t".to_string() });
    assert_eq!(op.get_tx_id(), "abc");
    assert_eq!(op.get_type(), TxOpType::Write);
    let op = TxOp::Rollback(TxIdOnly { tx_id: "xyz".to_string() });
    assert_eq!(op.get_tx_id(), "xyz");
    assert_eq!(op.get_type(), TxOpType::End);
    let op = TxOp::QParams(ArgsTxParams {
        tx_id: "q".to_string(),
        q: "SELECT ?".to_string(),
        params: Params::Index(vec![]),
    });
    assert_eq!(op.get_type(), TxOpType::Q);
    let op = TxOp::ReadParams(ArgsTxParams {
        tx_id: "r".to_string(),
        q: "SELECT ?".to_string(),
        params: Params::Index(vec![]),
    });
    assert_eq!((op.get_tx_id().as_str(), op.get_type()), ("r", TxOpType::Read));
}

fn busy() -> ReturnStatus {
    PrimaryRC::SQLITE_BUSY.into()
}

fn err_of(o: OutMsg) -> ErrRes {
    match out_rs_to_json(o) {
        Reply::Failed(res) => res,
        _ => panic!("an error was expected"),
    }
}

// Result matches `{ok: true, res_type: "x", res: {}}`.
fn is_ok_res(r: &Reply) -> bool {
    matches!(r, Reply::TxIdOnly(_) | Reply::RSet(_))
}

// Result matches `{ok: false, error: {error_type: "", message: "", data: {return_status: {}}}}`.
fn is_err_res(r: &Reply) -> bool {
    match r {
        Reply::Failed(res) => !res.ok && !res.error.error_type.is_empty(),
        _ => false,
    }
}

fn err_has_rs(r: &Reply) -> bool {
    match r {
        Reply::Failed(res) => res.error.data.return_status.is_some(),
        _ => false,
    }
}

#[test]
fn test_ok() {
    let a = out_rs_to_json(OutMsg::File(Ok(TxIdOnly { tx_id: "abc".to_string() })));
    let b = out_rs_to_json(OutMsg::Tx(Ok(RSet::default())));

    assert!(is_ok_res(&a));
    assert!(is_ok_res(&b));
}

#[test]
fn test_err_file() {
    let a = out_rs_to_json(OutMsg::File(Err(FileOpErr::FileDirectoryDoesNotExist)));
    assert!(is_err_res(&a));

    let e = PrimaryRC::SQLITE_BUSY.into();
    let b = out_rs_to_json(OutMsg::File(Err(FileOpErr::ReturnStatus(e))));
    assert!(is_err_res(&b));

    assert!(err_has_rs(&b));
}

#[test]
fn test_err_tx() {
    let a = vec![
        TxOpErr::InvalidTxId,
        TxOpErr::ReturnStatus(busy()),
        TxOpErr::BindRunError(BindRunError::ReturnStatus(busy())),
    ];

    for tx_op_err in a {
        let reply = out_rs_to_json(OutMsg::Tx(Err(tx_op_err)));
        assert!(is_err_res(&reply));
    }
}

#[test]
fn results_pass_through_unchanged() {
    match out_rs_to_json(OutMsg::File(Ok(TxIdOnly { tx_id: "abc".to_string() }))) {
        Reply::TxIdOnly(t) => assert_eq!(t.tx_id, "abc"),
        _ => assert!(false),
    }
    let mut rset = RSet::default();
    rset.num_rows = 9;
    match out_rs_to_json(OutMsg::Tx(Ok(rset))) {
        Reply::RSet(r) => assert_eq!(r.num_rows, 9),
        _ => assert!(false),
    }
}

#[test]
fn file_errors_have_their_paths() {
    let e = err_of(OutMsg::File(Err(FileOpErr::FileDirectoryDoesNotExist))).error;
    assert_eq!(e.error_type, "FileOp/FileDirectoryDoesNotExist");
    assert_eq!(e.message, None);
    assert_eq!(e.data.return_status, None);
    let e = err_of(OutMsg::File(Err(FileOpErr::ReturnStatus(busy())))).error;
    assert_eq!(e.error_type, "FileOp/ReturnStatus");
    assert_eq!(e.data.return_status, Some(busy()));
}

fn bind_err(kind: ErrorBindType) -> BindRunError {
    BindRunError::ErrorBind(ErrorBind { kind, msg: "why".to_string() })
}

#[test]
fn transaction_errors_have_their_paths() {
    let path = |e: TxOpErr| E::from(e).error_type;
    assert_eq!(path(TxOpErr::InvalidTxId), "TxOp/InvalidTxId");
    assert_eq!(path(TxOpErr::ReturnStatus(busy())), "TxOp/ReturnStatus");
    assert_eq!(
        path(TxOpErr::BindRunError(BindRunError::ReturnStatus(busy()))),
        "TxOp/BindRunError/ReturnStatus"
    );
    assert_eq!(
        path(TxOpErr::BindRunError(bind_err(ErrorBindType::MissingKeysInData))),
        "TxOp/BindRunError/ErrorBind/MissingKeysInData"
    );
    assert_eq!(path(TxOpErr::ReadError(ReadError::QueryIsWrite)), "TxOp/ReadError/QueryIsWrite");
    assert_eq!(path(TxOpErr::ReadError(ReadError::QueryIsRead)), "TxOp/ReadError/QueryIsRead");
    assert_eq!(
        path(TxOpErr::ReadBindRunError(ReadBindRunError::QueryIsRead)),
        "TxOp/ReadBindRunError/QueryIsRead"
    );
    assert_eq!(
        path(TxOpErr::ReadError(ReadError::ReturnStatus(busy()))),
        "TxOp/ReadError/ReturnStatus"
    );
    assert_eq!(
        path(TxOpErr::ReadBindRunError(ReadBindRunError::QueryIsWrite)),
        "TxOp/ReadBindRunError/QueryIsWrite"
    );
    assert_eq!(
        path(TxOpErr::ReadBindRunError(ReadBindRunError::BindRunError(bind_err(
            ErrorBindType::MissingIndexesInData
        )))),
        "TxOp/ReadBindRunError/BindRunError/ErrorBind/MissingIndexesInData"
    );
    assert_eq!(path(TxOpErr::WriteError(WriteError::QueryIsRead)), "TxOp/WriteError/QueryIsRead");
    assert_eq!(
        path(TxOpErr::WriteError(WriteError::ReturnStatus(busy()))),
        "TxOp/WriteError/ReturnStatus"
    );
    assert_eq!(
        path(TxOpErr::WriteBindRunError(WriteBindRunError::QueryIsRead)),
        "TxOp/WriteBindRunError/QueryIsRead"
    );
    assert_eq!(
        path(TxOpErr::WriteBindRunError(WriteBindRunError::BindRunError(bind_err(
            ErrorBindType::MissingKeysInData
        )))),
        "TxOp/WriteBindRunError/BindRunError/ErrorBind/MissingKeysInData"
    );
    assert_eq!(
        path(TxOpErr::WriteBindRunError(WriteBindRunError::BindRunError(bind_err(
            ErrorBindType::PlaceholderDataTypeNotCompatible
        )))),
        "TxOp/WriteBindRunError/BindRunError/ErrorBind/PlaceholderDataTypeNotCompatible"
    );
    assert_eq!(
        path(TxOpErr::WriteBindRunError(WriteBindRunError::BindRunError(bind_err(
            ErrorBindType::ReturnStatus(busy())
        )))),
        "TxOp/WriteBindRunError/BindRunError/ErrorBind/ReturnStatus"
    );
}

#[test]
fn errors_carry_a_message_or_a_status() {
    let e = E::from(TxOpErr::BindRunError(bind_err(ErrorBindType::MissingKeysInData)));
    assert_eq!(e.message, Some("why".to_string()));
    assert_eq!(e.data.return_status, None);
    let e = E::from(TxOpErr::BindRunError(bind_err(ErrorBindType::ReturnStatus(busy()))));
    assert_eq!(e.message, None);
    assert_eq!(e.data.return_status, Some(busy()));
    let e = E::from(TxOpErr::ReadError(ReadError::ReturnStatus(busy())));
    assert_eq!(e.data.return_status, Some(busy()));
    let e = E::from(TxOpErr::WriteError(WriteError::QueryIsRead));
    assert_eq!((e.message, e.data.return_status), (None, None));
}

#[test]
fn error_builders() {
    let e = E::new_key("A/B".to_string());
    assert_eq!((e.error_type.as_str(), &e.message, &e.data.return_status), ("A/B", &None, &None));
    let e = E::new_key_msg("A".to_string(), "m".to_string());
    assert_eq!(e.message, Some("m".to_string()));
    assert_eq!(e.data.return_status, None);
    let e = E::new_key_status("A".to_string(), busy());
    assert_eq!(e.message, None);
    assert_eq!(e.data.return_status, Some(busy()));
    let e = E::new_key_msg_status("A".to_string(), "m".to_string(), busy());
    assert_eq!(e.message, Some("m".to_string()));
    assert_eq!(e.data.return_status, Some(busy()));
    let e = E::default();
    assert_eq!((e.error_type.as_str(), e.message, e.data.return_status), ("", None, None));
    let r = ErrRes::new(E::new_key("A".to_string()));
    assert!(!r.ok);
    assert_eq!(r.error.error_type, "A");

    assert_eq!(to_path(vec!["FileOp", "ReturnStatus"]), "FileOp/ReturnStatus");
    assert_eq!(k(vec!["TxOp"], "InvalidTxId").error_type, "TxOp/InvalidTxId");
    assert_eq!(ks(vec!["TxOp"], "ReturnStatus", busy()).data.return_status, Some(busy()));
    assert_eq!(km(vec!["X"], "Y", "m".to_string()).message, Some("m".to_string()));
    assert_eq!(
        bre_match(vec!["TxOp"], BindRunError::ReturnStatus(busy())).error_type,
        "TxOp/BindRunError/ReturnStatus"
    );
}

#[test]
fn malformed_input_is_settled_at_once() {
    let parsed: Result<serde_json::Value, serde_json::Error> =
        serde_json::from_str("this is not valid JSON");
    let failure = ParseFailure::from(parsed.unwrap_err());
    match accept(Err(failure)) {
        Err(RetI::Settled(res)) => {
            assert_eq!(res.ok, false);
            assert!(res.error.error_type.starts_with("ParseError/"));
            assert_eq!(res.error.error_type, "ParseError/ParseError");
            let message = res.error.message.unwrap();
            assert!(message.starts_with("JSON: "));
            assert!(message.len() > "JSON: ".len());
        }
        _ => assert!(false),
    }
    let e = E::from(ParseFailure::DataError(DataError::InvalidFunction));
    assert_eq!(e.error_type, "ParseError/DataError/InvalidFunction");
    let e = E::from(ParseFailure::DataError(DataError::InvalidArgs));
    assert_eq!(e.error_type, "ParseError/DataError/InvalidArgs");
}

#[test]
fn requests_with_a_bad_id_are_settled_at_once() {
    let msg = |id: &str| InMsgWithId {
        id: id.to_string(),
        msg: InMsg::File(FileOp::GetReadTx(ArgsFile { file: "/tmp/a".to_string() })),
    };
    match accept(Ok(msg("example-uuid"))) {
        Err(RetI::Settled(res)) => {
            assert!(!res.ok);
            assert_eq!(res.error.error_type, "InputError/InvalidId");
        }
        _ => assert!(false),
    }
    match accept(Ok(msg("936da01f-9abd-4d9d-80c7-02af85c822a8"))) {
        Ok(InputItem::InMsgWithId(m)) => assert_eq!(m.id, "936da01f-9abd-4d9d-80c7-02af85c822a8"),
        _ => assert!(false),
    }
    assert!(matches!(
        RetI::new_settled_from_error(E::from(InputError::ChannelError)),
        RetI::Settled(_)
    ));
    assert_eq!(E::from(InputError::ChannelError).error_type, "InputError/ChannelError");
}

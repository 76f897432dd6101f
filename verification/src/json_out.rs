//! Replies as they go on the wire: a result, or an error named by a path of
//! its kind, such as `TxOp/ReadError/QueryIsWrite`.

use vstd::prelude::*;
use vstd::std_specs::convert::FromSpecImpl;
use crate::db::BindRunError;
use crate::err::ReturnStatus;
use crate::json_in::{DataError, ParseFailure};
use crate::messages::{FileOpErr, OutMsg, TxIdOnly, TxOpErr};
use crate::runtime::InputError;
use crate::sma::{ReadBindRunError, ReadError, WriteBindRunError, WriteError};
use crate::stmt::{ErrorBindType, RSet};
use crate::text::{join, spec_join, views};

verus! {

/// The reply for a failure.
#[derive(Debug)]
pub struct ErrRes {
    pub ok: bool,
    pub error: E,
}

/// An error as clients see it.
#[derive(Debug)]
pub struct E {
    /// The path of the error's kind, its segments joined by `/`.
    pub error_type: String,
    pub message: Option<String>,
    pub data: ErrData,
}

/// What an error carries besides its kind and message. More keys may come;
/// clients must not mind them.
#[derive(Debug)]
pub struct ErrData {
    pub return_status: Option<ReturnStatus>,
}

/// A reply, ready to be written out.
#[derive(Debug)]
pub enum Reply {
    TxIdOnly(TxIdOnly),
    RSet(RSet),
    Failed(ErrRes),
}

/// The path with the segments `p`.
pub open spec fn path_text(p: Seq<Seq<char>>) -> Seq<char> {
    spec_join(p, "/"@, p.len())
}

/// The segments below `BindRunError` for a failure to bind or run.
pub open spec fn bre_path(bre: BindRunError) -> Seq<Seq<char>> {
    match bre {
        BindRunError::ReturnStatus(_) => seq!["BindRunError"@, "ReturnStatus"@],
        BindRunError::ErrorBind(eb) => seq![
            "BindRunError"@,
            "ErrorBind"@,
            match eb.kind {
                ErrorBindType::PlaceholderDataTypeNotCompatible => "PlaceholderDataTypeNotCompatible"@,
                ErrorBindType::MissingKeysInData => "MissingKeysInData"@,
                ErrorBindType::MissingIndexesInData => "MissingIndexesInData"@,
                ErrorBindType::ReturnStatus(_) => "ReturnStatus"@,
            },
        ],
    }
}

/// The message of a failure to bind or run: that of a refusal to bind data.
pub open spec fn bre_message(bre: BindRunError) -> Option<String> {
    match bre {
        BindRunError::ErrorBind(eb) => match eb.kind {
            ErrorBindType::ReturnStatus(_) => None,
            _ => Some(eb.msg),
        },
        _ => None,
    }
}

/// The driver status of a failure to bind or run.
pub open spec fn bre_status(bre: BindRunError) -> Option<ReturnStatus> {
    match bre {
        BindRunError::ReturnStatus(rs) => Some(rs),
        BindRunError::ErrorBind(eb) => match eb.kind {
            ErrorBindType::ReturnStatus(rs) => Some(rs),
            _ => None,
        },
    }
}

/// The segments of the path of a transaction error.
pub open spec fn tx_err_path(e: TxOpErr) -> Seq<Seq<char>> {
    match e {
        TxOpErr::InvalidTxId => seq!["TxOp"@, "InvalidTxId"@],
        TxOpErr::ReturnStatus(_) => seq!["TxOp"@, "ReturnStatus"@],
        TxOpErr::BindRunError(bre) => seq!["TxOp"@] + bre_path(bre),
        TxOpErr::ReadError(ReadError::QueryIsWrite) => seq![
            "TxOp"@,
            "ReadError"@,
            "QueryIsWrite"@,
        ],
        TxOpErr::ReadError(ReadError::QueryIsRead) => seq!["TxOp"@, "ReadError"@, "QueryIsRead"@],
        TxOpErr::ReadError(ReadError::ReturnStatus(_)) => seq![
            "TxOp"@,
            "ReadError"@,
            "ReturnStatus"@,
        ],
        TxOpErr::ReadBindRunError(ReadBindRunError::QueryIsWrite) => seq![
            "TxOp"@,
            "ReadBindRunError"@,
            "QueryIsWrite"@,
        ],
        TxOpErr::ReadBindRunError(ReadBindRunError::QueryIsRead) => seq![
            "TxOp"@,
            "ReadBindRunError"@,
            "QueryIsRead"@,
        ],
        TxOpErr::ReadBindRunError(ReadBindRunError::BindRunError(bre)) => seq![
            "TxOp"@,
            "ReadBindRunError"@,
        ] + bre_path(bre),
        TxOpErr::WriteError(WriteError::QueryIsRead) => seq![
            "TxOp"@,
            "WriteError"@,
            "QueryIsRead"@,
        ],
        TxOpErr::WriteError(WriteError::ReturnStatus(_)) => seq![
            "TxOp"@,
            "WriteError"@,
            "ReturnStatus"@,
        ],
        TxOpErr::WriteBindRunError(WriteBindRunError::QueryIsRead) => seq![
            "TxOp"@,
            "WriteBindRunError"@,
            "QueryIsRead"@,
        ],
        TxOpErr::WriteBindRunError(WriteBindRunError::BindRunError(bre)) => seq![
            "TxOp"@,
            "WriteBindRunError"@,
        ] + bre_path(bre),
    }
}

/// The message of a transaction error.
pub open spec fn tx_err_message(e: TxOpErr) -> Option<String> {
    match e {
        TxOpErr::BindRunError(bre) => bre_message(bre),
        TxOpErr::ReadBindRunError(ReadBindRunError::BindRunError(bre)) => bre_message(bre),
        TxOpErr::WriteBindRunError(WriteBindRunError::BindRunError(bre)) => bre_message(bre),
        _ => None,
    }
}

/// The driver status of a transaction error.
pub open spec fn tx_err_status(e: TxOpErr) -> Option<ReturnStatus> {
    match e {
        TxOpErr::ReturnStatus(rs) => Some(rs),
        TxOpErr::ReadError(ReadError::ReturnStatus(rs)) => Some(rs),
        TxOpErr::WriteError(WriteError::ReturnStatus(rs)) => Some(rs),
        TxOpErr::BindRunError(bre) => bre_status(bre),
        TxOpErr::ReadBindRunError(ReadBindRunError::BindRunError(bre)) => bre_status(bre),
        TxOpErr::WriteBindRunError(WriteBindRunError::BindRunError(bre)) => bre_status(bre),
        _ => None,
    }
}

/// The segments of the path of an error on opening a file.
pub open spec fn file_err_path(e: FileOpErr) -> Seq<Seq<char>> {
    match e {
        FileOpErr::FileDirectoryDoesNotExist => seq!["FileOp"@, "FileDirectoryDoesNotExist"@],
        FileOpErr::ReturnStatus(_) => seq!["FileOp"@, "ReturnStatus"@],
    }
}

/// The segments of the path of a request that could not be read.
pub open spec fn parse_err_path(e: ParseFailure) -> Seq<Seq<char>> {
    match e {
        ParseFailure::DataError(DataError::InvalidArgs) => seq![
            "ParseError"@,
            "DataError"@,
            "InvalidArgs"@,
        ],
        ParseFailure::DataError(DataError::InvalidFunction) => seq![
            "ParseError"@,
            "DataError"@,
            "InvalidFunction"@,
        ],
        ParseFailure::ParseError(_) => seq!["ParseError"@, "ParseError"@],
    }
}

/// The segments of the path of a request that was not taken in.
pub open spec fn input_err_path(e: InputError) -> Seq<Seq<char>> {
    match e {
        InputError::ChannelError => seq!["InputError"@, "ChannelError"@],
        InputError::InvalidId => seq!["InputError"@, "InvalidId"@],
    }
}

/// Calls `to_string` on a `serde_json::Error`: the parser's own message for
/// its error. Nothing is claimed of the text.
#[verifier::external_body]
fn serde_error_text(se: &serde_json::Error) -> (text: String) {
    se.to_string()
}

impl ErrRes {
    pub fn new(error: E) -> (r: ErrRes)
        ensures
            r == (ErrRes { ok: false, error }),
    {
        ErrRes { ok: false, error }
    }
}

impl Default for E {
    /// An error without a kind: whoever makes one sets the kind before it is
    /// written out.
    fn default() -> (e: E)
        ensures
            e.error_type@.len() == 0,
            e.message is None,
            e.data.return_status is None,
    {
        E { error_type: String::new(), message: None, data: ErrData { return_status: None } }
    }
}

impl E {
    pub fn new_key(key: String) -> (e: E)
        ensures
            e == (E { error_type: key, message: None, data: ErrData { return_status: None } }),
    {
        E { error_type: key, message: None, data: ErrData { return_status: None } }
    }

    pub fn new_key_msg(key: String, message: String) -> (e: E)
        ensures
            e == (E {
                error_type: key,
                message: Some(message),
                data: ErrData { return_status: None },
            }),
    {
        E { error_type: key, message: Some(message), data: ErrData { return_status: None } }
    }

    pub fn new_key_msg_status(key: String, message: String, return_status: ReturnStatus) -> (e: E)
        ensures
            e == (E {
                error_type: key,
                message: Some(message),
                data: ErrData { return_status: Some(return_status) },
            }),
    {
        let mut e = E {
            error_type: key,
            message: Some(message),
            data: ErrData { return_status: None },
        };
        e.data.return_status = Some(return_status);
        e
    }

    pub fn new_key_status(key: String, return_status: ReturnStatus) -> (e: E)
        ensures
            e == (E {
                error_type: key,
                message: None,
                data: ErrData { return_status: Some(return_status) },
            }),
    {
        let mut e = E { error_type: key, message: None, data: ErrData { return_status: None } };
        e.data.return_status = Some(return_status);
        e
    }
}

/// The segments of a path, joined by `/`.
pub fn to_path(p: Vec<&'static str>) -> (r: String)
    ensures
        r@ == path_text(views(p@)),
{
    join(&p, "/")
}

/// The error whose path is `p` with `a` behind it.
pub fn k(p: Vec<&'static str>, a: &'static str) -> (e: E)
    ensures
        e.error_type@ == path_text(views(p@).push(a@)),
        e.message is None,
        e.data.return_status is None,
{
    let ghost parent = views(p@);
    let mut p = p;
    p.push(a);
    assert(views(p@) =~= parent.push(a@));
    E::new_key(to_path(p))
}

/// The error whose path is `p` with `a` behind it, with a driver status.
pub fn ks(p: Vec<&'static str>, a: &'static str, b: ReturnStatus) -> (e: E)
    ensures
        e.error_type@ == path_text(views(p@).push(a@)),
        e.message is None,
        e.data.return_status == Some(b),
{
    let ghost parent = views(p@);
    let mut p = p;
    p.push(a);
    assert(views(p@) =~= parent.push(a@));
    E::new_key_status(to_path(p), b)
}

/// The error whose path is `p` with `a` behind it, with a message.
pub fn km(p: Vec<&'static str>, a: &'static str, b: String) -> (e: E)
    ensures
        e.error_type@ == path_text(views(p@).push(a@)),
        e.message == Some(b),
        e.data.return_status is None,
{
    let ghost parent = views(p@);
    let mut p = p;
    p.push(a);
    assert(views(p@) =~= parent.push(a@));
    E::new_key_msg(to_path(p), b)
}

/// The error for a failure to bind or run, below the path `p`.
pub fn bre_match(p: Vec<&'static str>, bre: BindRunError) -> (e: E)
    ensures
        e.error_type@ == path_text(views(p@) + bre_path(bre)),
        e.message == bre_message(bre),
        e.data.return_status == bre_status(bre),
{
    let ghost parent = views(p@);
    let mut p = p;
    p.push("BindRunError");
    assert(views(p@) =~= parent.push("BindRunError"@));
    match bre {
        BindRunError::ReturnStatus(rs) => {
            assert(views(p@).push("ReturnStatus"@) =~= parent + bre_path(bre));
            ks(p, "ReturnStatus", rs)
        },
        BindRunError::ErrorBind(eb) => {
            let ghost before = views(p@);
            p.push("ErrorBind");
            assert(views(p@) =~= before.push("ErrorBind"@));
            match eb.kind {
                ErrorBindType::PlaceholderDataTypeNotCompatible => {
                    assert(views(p@).push("PlaceholderDataTypeNotCompatible"@) =~= parent
                        + bre_path(bre));
                    km(p, "PlaceholderDataTypeNotCompatible", eb.msg)
                },
                ErrorBindType::MissingKeysInData => {
                    assert(views(p@).push("MissingKeysInData"@) =~= parent + bre_path(
                        bre,
                    ));
                    km(p, "MissingKeysInData", eb.msg)
                },
                ErrorBindType::MissingIndexesInData => {
                    assert(views(p@).push("MissingIndexesInData"@) =~= parent + bre_path(
                        bre,
                    ));
                    km(p, "MissingIndexesInData", eb.msg)
                },
                ErrorBindType::ReturnStatus(rs) => {
                    assert(views(p@).push("ReturnStatus"@) =~= parent + bre_path(bre));
                    ks(p, "ReturnStatus", rs)
                },
            }
        },
    }
}

fn root(a: &'static str) -> (p: Vec<&'static str>)
    ensures
        views(p@) == seq![a@],
{
    let mut p: Vec<&'static str> = Vec::new();
    p.push(a);
    assert(views(p@) =~= seq![a@]);
    p
}

fn root2(a: &'static str, b: &'static str) -> (p: Vec<&'static str>)
    ensures
        views(p@) == seq![a@, b@],
{
    let mut p: Vec<&'static str> = Vec::new();
    p.push(a);
    p.push(b);
    assert(views(p@) =~= seq![a@, b@]);
    p
}

/// `out` shows a request that could not be read: the path of the failure,
/// no driver status, and a message only for a text that is no JSON request,
/// which is the parser's own behind `JSON: `.
pub open spec fn shows_parse_failure(out: E, e: ParseFailure) -> bool {
    &&& out.error_type@ == path_text(parse_err_path(e))
    &&& out.data.return_status is None
    &&& match e {
        ParseFailure::DataError(_) => out.message is None,
        ParseFailure::ParseError(_) => out.message matches Some(m) && "JSON: "@.is_prefix_of(m@),
    }
}

/// `e` shows the error with this path, message and driver status.
pub open spec fn shows(
    e: E,
    path: Seq<Seq<char>>,
    message: Option<String>,
    status: Option<ReturnStatus>,
) -> bool {
    &&& e.error_type@ == path_text(path)
    &&& e.message == message
    &&& e.data.return_status == status
}

// The conversions into `E` build texts, which no spec function can make:
// what they return is stated on each `from` itself.
impl FromSpecImpl<FileOpErr> for E {
    open spec fn obeys_from_spec() -> bool {
        false
    }

    open spec fn from_spec(e: FileOpErr) -> Self {
        arbitrary()
    }
}

impl From<FileOpErr> for E {
    fn from(e: FileOpErr) -> (out: Self)
        ensures
            shows(
                out,
                file_err_path(e),
                None,
                match e {
                    FileOpErr::ReturnStatus(rs) => Some(rs),
                    _ => None,
                },
            ),
    {
        match e {
            FileOpErr::FileDirectoryDoesNotExist => {
                let p = root("FileOp");
                assert(views(p@).push("FileDirectoryDoesNotExist"@) =~= file_err_path(e));
                k(p, "FileDirectoryDoesNotExist")
            },
            FileOpErr::ReturnStatus(rs) => {
                let p = root("FileOp");
                assert(views(p@).push("ReturnStatus"@) =~= file_err_path(e));
                ks(p, "ReturnStatus", rs)
            },
        }
    }
}

impl FromSpecImpl<ParseFailure> for E {
    open spec fn obeys_from_spec() -> bool {
        false
    }

    open spec fn from_spec(e: ParseFailure) -> Self {
        arbitrary()
    }
}

impl From<ParseFailure> for E {
    fn from(e: ParseFailure) -> (out: Self)
        ensures
            shows_parse_failure(out, e),
    {
        match e {
            ParseFailure::DataError(de) => match de {
                DataError::InvalidArgs => {
                    let p = root2("ParseError", "DataError");
                    assert(views(p@).push("InvalidArgs"@) =~= parse_err_path(e));
                    k(p, "InvalidArgs")
                },
                DataError::InvalidFunction => {
                    let p = root2("ParseError", "DataError");
                    assert(views(p@).push("InvalidFunction"@) =~= parse_err_path(e));
                    k(p, "InvalidFunction")
                },
            },
            ParseFailure::ParseError(se) => {
                let p = root("ParseError");
                assert(views(p@).push("ParseError"@) =~= parse_err_path(e));
                let text = serde_error_text(&se);
                let message = String::from_str("JSON: ").concat(text.as_str());
                km(p, "ParseError", message)
            },
        }
    }
}

impl FromSpecImpl<InputError> for E {
    open spec fn obeys_from_spec() -> bool {
        false
    }

    open spec fn from_spec(e: InputError) -> Self {
        arbitrary()
    }
}

impl From<InputError> for E {
    fn from(e: InputError) -> (out: Self)
        ensures
            shows(out, input_err_path(e), None, None),
    {
        let p = root("InputError");
        match e {
            InputError::ChannelError => {
                assert(views(p@).push("ChannelError"@) =~= input_err_path(e));
                k(p, "ChannelError")
            },
            InputError::InvalidId => {
                assert(views(p@).push("InvalidId"@) =~= input_err_path(e));
                k(p, "InvalidId")
            },
        }
    }
}

impl FromSpecImpl<TxOpErr> for E {
    open spec fn obeys_from_spec() -> bool {
        false
    }

    open spec fn from_spec(e: TxOpErr) -> Self {
        arbitrary()
    }
}

impl From<TxOpErr> for E {
    fn from(e: TxOpErr) -> (out: Self)
        ensures
            shows(out, tx_err_path(e), tx_err_message(e), tx_err_status(e)),
    {
        match e {
            TxOpErr::InvalidTxId => {
                let p = root("TxOp");
                assert(views(p@).push("InvalidTxId"@) =~= tx_err_path(e));
                k(p, "InvalidTxId")
            },
            TxOpErr::ReturnStatus(rs) => {
                let p = root("TxOp");
                assert(views(p@).push("ReturnStatus"@) =~= tx_err_path(e));
                ks(p, "ReturnStatus", rs)
            },
            TxOpErr::BindRunError(bre) => {
                let p = root("TxOp");
                bre_match(p, bre)
            },
            TxOpErr::ReadError(re) => {
                let p = root2("TxOp", "ReadError");
                match re {
                    ReadError::QueryIsWrite => {
                        assert(views(p@).push("QueryIsWrite"@) =~= tx_err_path(e));
                        k(p, "QueryIsWrite")
                    },
                    ReadError::QueryIsRead => {
                        assert(views(p@).push("QueryIsRead"@) =~= tx_err_path(e));
                        k(p, "QueryIsRead")
                    },
                    ReadError::ReturnStatus(rs) => {
                        assert(views(p@).push("ReturnStatus"@) =~= tx_err_path(e));
                        ks(p, "ReturnStatus", rs)
                    },
                }
            },
            TxOpErr::ReadBindRunError(rbre) => {
                let p = root2("TxOp", "ReadBindRunError");
                match rbre {
                    ReadBindRunError::QueryIsWrite => {
                        assert(views(p@).push("QueryIsWrite"@) =~= tx_err_path(e));
                        k(p, "QueryIsWrite")
                    },
                    ReadBindRunError::QueryIsRead => {
                        assert(views(p@).push("QueryIsRead"@) =~= tx_err_path(e));
                        k(p, "QueryIsRead")
                    },
                    ReadBindRunError::BindRunError(bre) => bre_match(p, bre),
                }
            },
            TxOpErr::WriteError(we) => {
                let p = root2("TxOp", "WriteError");
                match we {
                    WriteError::QueryIsRead => {
                        assert(views(p@).push("QueryIsRead"@) =~= tx_err_path(e));
                        k(p, "QueryIsRead")
                    },
                    WriteError::ReturnStatus(rs) => {
                        assert(views(p@).push("ReturnStatus"@) =~= tx_err_path(e));
                        ks(p, "ReturnStatus", rs)
                    },
                }
            },
            TxOpErr::WriteBindRunError(wbre) => {
                let p = root2("TxOp", "WriteBindRunError");
                match wbre {
                    WriteBindRunError::QueryIsRead => {
                        assert(views(p@).push("QueryIsRead"@) =~= tx_err_path(e));
                        k(p, "QueryIsRead")
                    },
                    WriteBindRunError::BindRunError(bre) => bre_match(p, bre),
                }
            },
        }
    }
}

/// The reply for the outcome of a request: the result as it is, an error
/// with the path of its kind.
pub fn out_rs_to_json(o: OutMsg) -> (r: Reply)
    ensures
        match o {
            OutMsg::File(Ok(t)) => r == Reply::TxIdOnly(t),
            OutMsg::Tx(Ok(rset)) => r == Reply::RSet(rset),
            OutMsg::File(Err(e)) => r matches Reply::Failed(res) && !res.ok && shows(
                res.error,
                file_err_path(e),
                None,
                match e {
                    FileOpErr::ReturnStatus(rs) => Some(rs),
                    _ => None,
                },
            ),
            OutMsg::Tx(Err(e)) => r matches Reply::Failed(res) && !res.ok && shows(
                res.error,
                tx_err_path(e),
                tx_err_message(e),
                tx_err_status(e),
            ),
        },
{
    match o {
        OutMsg::File(f_op_res) => match f_op_res {
            Ok(tx_id) => Reply::TxIdOnly(tx_id),
            Err(e) => Reply::Failed(ErrRes::new(E::from(e))),
        },
        OutMsg::Tx(tx_op_res) => match tx_op_res {
            Ok(rset) => Reply::RSet(rset),
            Err(e) => Reply::Failed(ErrRes::new(E::from(e))),
        },
    }
}

} // verus!

//! The requests that clients send and the replies they get.

use vstd::prelude::*;
use crate::db::BindRunError;
use crate::err::ReturnStatus;
use crate::sma::{Params, ReadBindRunError, ReadError, WriteBindRunError, WriteError};
use crate::stmt::RSet;

verus! {

/// The identifier of a live transaction.
pub type TxId = String;

/// A path as the client wrote it.
pub type FilePath = String;

/// The text of a statement.
pub type Query = String;

#[derive(Debug)]
pub enum Message {
    In(InMsg),
    Out(OutMsg),
}

#[derive(Debug)]
pub enum InMsg {
    File(FileOp),
    Tx(TxOp),
}

#[derive(Debug, PartialEq)]
pub enum FileOp {
    GetReadTx(ArgsFile),
    GetWriteTx(ArgsFile),
}

#[derive(Debug)]
pub enum TxOp {
    /// A statement that the client did not classify.
    Q(ArgsTx),
    Read(ArgsTx),
    Write(ArgsTx),
    QParams(ArgsTxParams),
    ReadParams(ArgsTxParams),
    WriteParams(ArgsTxParams),
    Commit(TxIdOnly),
    Rollback(TxIdOnly),
}

/// What a request on a transaction is, apart from its arguments.
#[derive(Debug, Clone, Copy, PartialEq, Eq, Structural)]
pub enum TxOpType {
    Read,
    Write,
    /// Either: the client did not classify the statement.
    Q,
    /// Commit or rollback.
    End,
}

#[derive(Debug, PartialEq)]
pub struct ArgsFile {
    pub file: FilePath,
}

#[derive(Debug, PartialEq)]
pub struct ArgsTx {
    pub tx_id: TxId,
    pub q: Query,
}

#[derive(Debug)]
pub struct ArgsTxParams {
    pub tx_id: TxId,
    pub q: Query,
    pub params: Params,
}

#[derive(Debug)]
pub enum OutMsg {
    File(FileOpRes),
    Tx(TxOpRes),
}

#[derive(Debug, Clone, PartialEq)]
pub struct TxIdOnly {
    pub tx_id: TxId,
}

pub type FileOpRes = Result<TxIdOnly, FileOpErr>;

pub type TxOpRes = Result<RSet, TxOpErr>;

#[derive(Debug, Clone, PartialEq)]
pub enum FileOpErr {
    /// The directory that should hold the file does not exist.
    FileDirectoryDoesNotExist,
    ReturnStatus(ReturnStatus),
}

#[derive(Debug, Clone)]
pub enum TxOpErr {
    /// No live transaction has the identifier.
    InvalidTxId,
    /// An unclassified statement, a commit or a rollback failed.
    ReturnStatus(ReturnStatus),
    /// An unclassified statement with data failed.
    BindRunError(BindRunError),
    ReadError(ReadError),
    ReadBindRunError(ReadBindRunError),
    WriteError(WriteError),
    WriteBindRunError(WriteBindRunError),
}

#[derive(Debug, PartialEq)]
pub struct RSetErr;

impl TxOp {
    /// The identifier of the transaction that the request is for.
    pub open spec fn spec_tx_id(&self) -> TxId {
        match self {
            TxOp::Q(a) => a.tx_id,
            TxOp::Read(a) => a.tx_id,
            TxOp::Write(a) => a.tx_id,
            TxOp::QParams(a) => a.tx_id,
            TxOp::ReadParams(a) => a.tx_id,
            TxOp::WriteParams(a) => a.tx_id,
            TxOp::Commit(a) => a.tx_id,
            TxOp::Rollback(a) => a.tx_id,
        }
    }

    /// What the request is, apart from its arguments.
    pub open spec fn spec_type(&self) -> TxOpType {
        match self {
            TxOp::Read(_) | TxOp::ReadParams(_) => TxOpType::Read,
            TxOp::Write(_) | TxOp::WriteParams(_) => TxOpType::Write,
            TxOp::Q(_) | TxOp::QParams(_) => TxOpType::Q,
            TxOp::Commit(_) | TxOp::Rollback(_) => TxOpType::End,
        }
    }

    /// The data that comes with the statement, if any does.
    pub open spec fn spec_params(&self) -> Option<Params> {
        match self {
            TxOp::QParams(a) | TxOp::ReadParams(a) | TxOp::WriteParams(a) => Some(a.params),
            _ => None,
        }
    }

    /// The text of the statement; none for commit and rollback.
    pub open spec fn spec_query(&self) -> Option<Query> {
        match self {
            TxOp::Q(a) | TxOp::Read(a) | TxOp::Write(a) => Some(a.q),
            TxOp::QParams(a) | TxOp::ReadParams(a) | TxOp::WriteParams(a) => Some(a.q),
            _ => None,
        }
    }

    /// The invariant of the request's data.
    pub open spec fn wf(&self) -> bool {
        self.spec_params() matches Some(p) ==> p.wf()
    }

    pub fn get_tx_id(&self) -> (id: TxId)
        ensures
            id == self.spec_tx_id(),
    {
        let tx_id = match self {
            TxOp::Q(a) | TxOp::Read(a) | TxOp::Write(a) => &a.tx_id,
            TxOp::QParams(a) | TxOp::ReadParams(a) | TxOp::WriteParams(a) => &a.tx_id,
            TxOp::Commit(a) | TxOp::Rollback(a) => &a.tx_id,
        };
        tx_id.clone()
    }

    pub fn get_type(&self) -> (t: TxOpType)
        ensures
            t == self.spec_type(),
    {
        match self {
            TxOp::Read(_) | TxOp::ReadParams(_) => TxOpType::Read,
            TxOp::Write(_) | TxOp::WriteParams(_) => TxOpType::Write,
            TxOp::Q(_) | TxOp::QParams(_) => TxOpType::Q,
            TxOp::Commit(_) | TxOp::Rollback(_) => TxOpType::End,
        }
    }
}

} // verus!

//! Requests as they come off the wire: the name of the function asked for and
//! its arguments, turned into a typed request.

use vstd::prelude::*;
use vstd::std_specs::convert::FromSpecImpl;
use crate::messages::{ArgsFile, ArgsTx, ArgsTxParams, FileOp, InMsg, TxIdOnly, TxOp};
use crate::runtime::{InMsgId, InMsgWithId};
use crate::text::str_eq;

verus! {

/// `serde_json::Error`, the error of the JSON parser: carried to where its
/// message is written out, never looked into.
#[verifier::external_type_specification]
#[verifier::external_body]
pub struct ExSerdeJsonError(serde_json::Error);

/// Why a request could not be read.
#[derive(Debug)]
pub enum ParseFailure {
    DataError(DataError),
    /// The text is not a request in JSON.
    ParseError(serde_json::Error),
}

#[derive(Debug, Clone, Copy, PartialEq, Eq, Structural)]
pub enum DataError {
    /// No function has the name asked for.
    InvalidFunction,
    /// The arguments are not those of the function asked for.
    InvalidArgs,
}

impl FromSpecImpl<serde_json::Error> for ParseFailure {
    open spec fn obeys_from_spec() -> bool {
        true
    }

    open spec fn from_spec(se: serde_json::Error) -> Self {
        ParseFailure::ParseError(se)
    }
}

impl From<serde_json::Error> for ParseFailure {
    fn from(se: serde_json::Error) -> (e: Self) {
        ParseFailure::ParseError(se)
    }
}

/// The forms that the arguments of a request take.
#[derive(Debug, Clone, Copy, PartialEq, Eq, Structural)]
pub enum ArgsShape {
    /// `{ file }`
    File,
    /// `{ tx_id, q }`
    Tx,
    /// `{ tx_id, q }` with `index_based` or `key_based` data
    TxParams,
    /// `{ tx_id }`
    TxIdOnly,
}

/// The arguments of a request, read in the form its function takes.
#[derive(Debug)]
pub enum Args {
    File(ArgsFile),
    Tx(ArgsTx),
    TxParams(ArgsTxParams),
    TxIdOnly(TxIdOnly),
}

/// The form of arguments that the function of a name takes.
pub open spec fn spec_args_shape(fn_name: Seq<char>) -> Option<ArgsShape> {
    if fn_name == "file/get_read_tx"@ || fn_name == "file/get_write_tx"@ {
        Some(ArgsShape::File)
    } else if fn_name == "tx/q"@ || fn_name == "tx/read"@ || fn_name == "tx/write"@ {
        Some(ArgsShape::Tx)
    } else if fn_name == "tx/q_params"@ || fn_name == "tx/read_params"@ || fn_name
        == "tx/write_params"@ {
        Some(ArgsShape::TxParams)
    } else if fn_name == "tx/commit"@ || fn_name == "tx/rollback"@ {
        Some(ArgsShape::TxIdOnly)
    } else {
        None
    }
}

/// The request that a function name and arguments make.
pub open spec fn spec_in_msg(fn_name: Seq<char>, args: Args) -> Result<InMsg, DataError> {
    if spec_args_shape(fn_name) is None {
        Err(DataError::InvalidFunction)
    } else {
        match args {
            Args::File(a) => if fn_name == "file/get_read_tx"@ {
                Ok(InMsg::File(FileOp::GetReadTx(a)))
            } else if fn_name == "file/get_write_tx"@ {
                Ok(InMsg::File(FileOp::GetWriteTx(a)))
            } else {
                Err(DataError::InvalidArgs)
            },
            Args::Tx(a) => if fn_name == "tx/q"@ {
                Ok(InMsg::Tx(TxOp::Q(a)))
            } else if fn_name == "tx/read"@ {
                Ok(InMsg::Tx(TxOp::Read(a)))
            } else if fn_name == "tx/write"@ {
                Ok(InMsg::Tx(TxOp::Write(a)))
            } else {
                Err(DataError::InvalidArgs)
            },
            Args::TxParams(a) => if fn_name == "tx/q_params"@ {
                Ok(InMsg::Tx(TxOp::QParams(a)))
            } else if fn_name == "tx/read_params"@ {
                Ok(InMsg::Tx(TxOp::ReadParams(a)))
            } else if fn_name == "tx/write_params"@ {
                Ok(InMsg::Tx(TxOp::WriteParams(a)))
            } else {
                Err(DataError::InvalidArgs)
            },
            Args::TxIdOnly(a) => if fn_name == "tx/commit"@ {
                Ok(InMsg::Tx(TxOp::Commit(a)))
            } else if fn_name == "tx/rollback"@ {
                Ok(InMsg::Tx(TxOp::Rollback(a)))
            } else {
                Err(DataError::InvalidArgs)
            },
        }
    }
}

/// The form in which to read the arguments of the function `fn_name`.
pub fn args_shape(fn_name: &str) -> (r: Result<ArgsShape, DataError>)
    ensures
        r == match spec_args_shape(fn_name@) {
            Some(shape) => Ok::<ArgsShape, DataError>(shape),
            None => Err(DataError::InvalidFunction),
        },
{
    if str_eq(fn_name, "file/get_read_tx") || str_eq(fn_name, "file/get_write_tx") {
        Ok(ArgsShape::File)
    } else if str_eq(fn_name, "tx/q") || str_eq(fn_name, "tx/read") || str_eq(
        fn_name,
        "tx/write",
    ) {
        Ok(ArgsShape::Tx)
    } else if str_eq(fn_name, "tx/q_params") || str_eq(fn_name, "tx/read_params") || str_eq(
        fn_name,
        "tx/write_params",
    ) {
        Ok(ArgsShape::TxParams)
    } else if str_eq(fn_name, "tx/commit") || str_eq(fn_name, "tx/rollback") {
        Ok(ArgsShape::TxIdOnly)
    } else {
        Err(DataError::InvalidFunction)
    }
}

/// The typed request for the parts of an envelope: the identifier, the name
/// of the function, and the arguments as read in the form that function takes.
pub fn in_json_to_rs(id: InMsgId, fn_name: &str, args: Args) -> (r: Result<
    InMsgWithId,
    ParseFailure,
>)
    ensures
        match spec_in_msg(fn_name@, args) {
            Ok(msg) => r == Ok::<InMsgWithId, ParseFailure>(InMsgWithId { id, msg }),
            Err(e) => r matches Err(ParseFailure::DataError(d)) && d == e,
        },
{
    match args_shape(fn_name) {
        Err(e) => {
            return Err(ParseFailure::DataError(e));
        },
        Ok(_) => {},
    }
    let msg = match args {
        Args::File(a) => {
            if str_eq(fn_name, "file/get_read_tx") {
                InMsg::File(FileOp::GetReadTx(a))
            } else if str_eq(fn_name, "file/get_write_tx") {
                InMsg::File(FileOp::GetWriteTx(a))
            } else {
                return Err(ParseFailure::DataError(DataError::InvalidArgs));
            }
        },
        Args::Tx(a) => {
            if str_eq(fn_name, "tx/q") {
                InMsg::Tx(TxOp::Q(a))
            } else if str_eq(fn_name, "tx/read") {
                InMsg::Tx(TxOp::Read(a))
            } else if str_eq(fn_name, "tx/write") {
                InMsg::Tx(TxOp::Write(a))
            } else {
                return Err(ParseFailure::DataError(DataError::InvalidArgs));
            }
        },
        Args::TxParams(a) => {
            if str_eq(fn_name, "tx/q_params") {
                InMsg::Tx(TxOp::QParams(a))
            } else if str_eq(fn_name, "tx/read_params") {
                InMsg::Tx(TxOp::ReadParams(a))
            } else if str_eq(fn_name, "tx/write_params") {
                InMsg::Tx(TxOp::WriteParams(a))
            } else {
                return Err(ParseFailure::DataError(DataError::InvalidArgs));
            }
        },
        Args::TxIdOnly(a) => {
            if str_eq(fn_name, "tx/commit") {
                InMsg::Tx(TxOp::Commit(a))
            } else if str_eq(fn_name, "tx/rollback") {
                InMsg::Tx(TxOp::Rollback(a))
            } else {
                return Err(ParseFailure::DataError(DataError::InvalidArgs));
            }
        },
    };
    Ok(InMsgWithId { id, msg })
}

} // verus!

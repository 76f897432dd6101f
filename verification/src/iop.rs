//! The synchronous side of the boundary to the host: what the call that hands
//! a request in returns at once.

use vstd::prelude::*;
use crate::json_in::ParseFailure;
use crate::json_out::{E, ErrRes, input_err_path, shows, shows_parse_failure};
use crate::runtime::{InMsgWithId, InputError, InputItem, input};
use crate::utils::is_hyphenated_lower;

verus! {

/// What handing a request in returns.
#[derive(Debug)]
pub enum RetI {
    /// The request goes to the event loop; its reply will come through the
    /// output sink, under the request's identifier.
    Pending,
    /// The request is refused here and now; nothing will come through the
    /// output sink for it.
    Settled(ErrRes),
}

impl RetI {
    /// The refusal that shows the error `e`.
    pub fn new_settled_from_error(e: E) -> (r: RetI)
        ensures
            r == RetI::Settled(ErrRes { ok: false, error: e }),
    {
        RetI::Settled(ErrRes::new(e))
    }
}

/// Decides on a request that was read off the wire: one that could not be
/// read, and one whose identifier does not have the accepted shape, are
/// refused at once; any other is the item to put on the event loop's channel.
pub fn accept(parsed: Result<InMsgWithId, ParseFailure>) -> (r: Result<InputItem, RetI>)
    ensures
        match parsed {
            Ok(msg) => if is_hyphenated_lower(msg.id@) {
                r == Ok::<InputItem, RetI>(InputItem::InMsgWithId(msg))
            } else {
                &&& r matches Err(RetI::Settled(res))
                &&& !res.ok
                &&& shows(res.error, input_err_path(InputError::InvalidId), None, None)
            },
            Err(pe) => {
                &&& r matches Err(RetI::Settled(res))
                &&& !res.ok
                &&& shows_parse_failure(res.error, pe)
            },
        },
{
    match parsed {
        Err(pe) => Err(RetI::new_settled_from_error(E::from(pe))),
        Ok(msg) => match input(msg) {
            Ok(item) => Ok(item),
            Err(e) => Err(RetI::new_settled_from_error(E::from(e))),
        },
    }
}

} // verus!

//! One file as the event loop leaves it after each request: what the registry
//! holds for the file, together with the requests for its write slot that
//! were handed out to be sent back and have not arrived yet.
//!
//! The steps below are those of the event loop, each stated by what the
//! function that takes it ensures. What holds after every step holds of
//! every state that can be reached.

use vstd::prelude::*;
use crate::active_txs::{FileView, QState, Removed, removed_from, untouched};
use crate::err::ReturnStatus;
use crate::runtime::{
    WtxOutcome, WtxReq, in_flight_ok, law_attempt_answers_head, law_end_keeps_line, may_acquire,
    orderly, sent_back, waiting, ids, wtx_req_of,
};
use crate::sma::{ReadTx, WriteTx};

verus! {

/// A file and the requests for its write slot that are on their way back.
pub struct Line {
    pub view: FileView,
    /// The identifiers of the requests on their way back, oldest first.
    pub in_flight: Seq<Seq<char>>,
}

/// A file that nothing has happened to.
pub open spec fn start() -> Line {
    Line { view: untouched(), in_flight: Seq::empty() }
}

/// What holds of a line after every step: nothing queues for an empty slot,
/// and a request is on its way back exactly while the slot names it, which
/// is never while the slot holds a write transaction.
pub open spec fn line_ok(l: Line) -> bool {
    orderly(l.view) && in_flight_ok(l.view, l.in_flight)
}

/// A request from a client arrives while the slot is taken, and queues.
pub open spec fn queued_step(a: Line, b: Line, req: WtxReq) -> bool {
    &&& !a.in_flight.contains(req.id@)
    &&& !may_acquire(a.view.state, req.id@)
    &&& b.view == (FileView { queue: a.view.queue.push(req), ..a.view })
    &&& b.in_flight == a.in_flight
}

/// A request whose turn it is tries for the write lock. It came from a
/// client, under an identifier that no request on its way back bears, or it
/// is the request on its way back, arriving.
pub open spec fn attempt_step(
    a: Line,
    b: Line,
    req: WtxReq,
    from_flight: bool,
    acquired: Result<WriteTx, ReturnStatus>,
    out: WtxOutcome,
) -> bool {
    &&& may_acquire(a.view.state, req.id@)
    &&& if from_flight {
        a.in_flight == seq![req.id@]
    } else {
        !a.in_flight.contains(req.id@)
    }
    &&& wtx_req_of(a.view, b.view, req, acquired, out)
    &&& b.in_flight == match out.repost {
        Some(r) => seq![r.msg.id@],
        None => Seq::empty(),
    }
}

/// A transaction of the file is taken out to be ended.
pub open spec fn end_step(a: Line, b: Line, id: Seq<char>, r: Removed) -> bool {
    &&& removed_from(a.view, b.view, id, r)
    &&& b.in_flight == a.in_flight + sent_back(r.next)
}

/// A read transaction is opened on the file.
pub open spec fn read_step(a: Line, b: Line, tx: ReadTx) -> bool {
    &&& b.view == (FileView { reads: a.view.reads.insert(tx.id@, tx), ..a.view })
    &&& b.in_flight == a.in_flight
}

/// One step of the event loop on a file.
pub open spec fn line_step(a: Line, b: Line) -> bool {
    ||| exists|req: WtxReq| queued_step(a, b, req)
    ||| exists|
        req: WtxReq,
        from_flight: bool,
        acquired: Result<WriteTx, ReturnStatus>,
        out: WtxOutcome,
    | attempt_step(a, b, req, from_flight, acquired, out)
    ||| exists|id: Seq<char>, r: Removed| end_step(a, b, id, r)
    ||| exists|tx: ReadTx| read_step(a, b, tx)
}

/// The states of a file from its start on, each one step after the other.
pub open spec fn is_history(h: Seq<Line>) -> bool {
    &&& h.len() > 0
    &&& h[0] == start()
    &&& forall|i: int| 0 <= i < h.len() - 1 ==> line_step(#[trigger] h[i], h[i + 1])
}

/// A step leaves a line in order.
pub proof fn law_step_keeps_line_ok(a: Line, b: Line)
    requires
        line_ok(a),
        line_step(a, b),
    ensures
        line_ok(b),
{
    if exists|req: WtxReq| queued_step(a, b, req) {
    } else if exists|
        req: WtxReq,
        from_flight: bool,
        acquired: Result<WriteTx, ReturnStatus>,
        out: WtxOutcome,
    | attempt_step(a, b, req, from_flight, acquired, out) {
        let (req, from_flight, acquired, out) = choose|
            req: WtxReq,
            from_flight: bool,
            acquired: Result<WriteTx, ReturnStatus>,
            out: WtxOutcome,
        | attempt_step(a, b, req, from_flight, acquired, out);
        law_attempt_answers_head(a.view, b.view, req, acquired, out);
    } else if exists|id: Seq<char>, r: Removed| end_step(a, b, id, r) {
        let (id, r) = choose|id: Seq<char>, r: Removed| end_step(a, b, id, r);
        law_end_keeps_line(a.view, b.view, id, r, a.in_flight);
    } else {
    }
}

/// Every state that a file can reach is in order: at most one request for
/// its write slot is on its way back, it is the one that the slot names,
/// and none is while the slot holds a write transaction or is empty.
pub proof fn law_every_state_in_order(h: Seq<Line>, i: int)
    requires
        is_history(h),
        0 <= i < h.len(),
    ensures
        line_ok(h[i]),
        h[i].view.state is NextRetry ==> h[i].in_flight.len() == 1,
        !(h[i].view.state is NextRetry) ==> h[i].in_flight.len() == 0,
    decreases i,
{
    if i > 0 {
        law_every_state_in_order(h, i - 1);
        law_step_keeps_line_ok(h[i - 1], h[i]);
    }
}

/// The line for the write slot is first in, first out: a step adds at most
/// one request, at the end, or takes the first away, and it takes a request
/// away only by answering it.
pub proof fn law_line_is_fifo(a: Line, b: Line)
    requires
        line_ok(a),
        line_step(a, b),
    ensures
        waiting(a.view).is_prefix_of(waiting(b.view)) || (waiting(a.view).len() > 0 && waiting(
            b.view,
        ) == waiting(a.view).drop_first()),
        waiting(b.view).len() <= waiting(a.view).len() + 1,
        forall|
            req: WtxReq,
            from_flight: bool,
            acquired: Result<WriteTx, ReturnStatus>,
            out: WtxOutcome,
        | #[trigger]
            attempt_step(a, b, req, from_flight, acquired, out) ==> {
                &&& out.reply is Some ==> !waiting(b.view).contains(req.id@) || ids(
                    a.view.queue,
                ).contains(req.id@)
                &&& out.reply is None ==> waiting(b.view).len() > 0 && waiting(b.view)[0]
                    == req.id@
            },
{
    let wa = waiting(a.view);
    let wb = waiting(b.view);
    if exists|req: WtxReq| queued_step(a, b, req) {
        let req = choose|req: WtxReq| queued_step(a, b, req);
        assert(ids(b.view.queue) =~= ids(a.view.queue).push(req.id@));
        assert(wb =~= wa.push(req.id@));
        assert(wa =~= wb.subrange(0, wa.len() as int));
    } else if exists|
        req: WtxReq,
        from_flight: bool,
        acquired: Result<WriteTx, ReturnStatus>,
        out: WtxOutcome,
    | attempt_step(a, b, req, from_flight, acquired, out) {
        let (req, from_flight, acquired, out) = choose|
            req: WtxReq,
            from_flight: bool,
            acquired: Result<WriteTx, ReturnStatus>,
            out: WtxOutcome,
        | attempt_step(a, b, req, from_flight, acquired, out);
        law_attempt_answers_head(a.view, b.view, req, acquired, out);
        let q = ids(a.view.queue);
        if a.view.state is Empty {
            assert(q.len() == 0);
            assert(wa =~= Seq::<Seq<char>>::empty());
            assert(wa =~= wb.subrange(0, 0));
        } else {
            assert(wa =~= seq![req.id@] + q);
            if out.reply is Some {
                assert(wb =~= wa.drop_first());
            } else {
                assert(wb =~= wa);
                assert(wa =~= wb.subrange(0, wa.len() as int));
            }
        }
        assert forall|
            req2: WtxReq,
            from_flight2: bool,
            acquired2: Result<WriteTx, ReturnStatus>,
            out2: WtxOutcome,
        | #[trigger] attempt_step(a, b, req2, from_flight2, acquired2, out2) implies {
            &&& out2.reply is Some ==> !wb.contains(req2.id@) || ids(a.view.queue).contains(
                req2.id@,
            )
            &&& out2.reply is None ==> wb.len() > 0 && wb[0] == req2.id@
        } by {
            law_attempt_answers_head(a.view, b.view, req2, acquired2, out2);
            if out2.reply is Some {
                assert(wb == ids(a.view.queue));
            } else {
                assert(wb == seq![req2.id@] + ids(a.view.queue));
            }
        }
    } else if exists|id: Seq<char>, r: Removed| end_step(a, b, id, r) {
        let (id, r) = choose|id: Seq<char>, r: Removed| end_step(a, b, id, r);
        law_end_keeps_line(a.view, b.view, id, r, a.in_flight);
        assert(wa =~= wb.subrange(0, wa.len() as int));
    } else {
        assert(wa =~= wb.subrange(0, wa.len() as int));
    }
}

/// The slot changes hands in order. A step never replaces one write
/// transaction by another: the slot is given up first. And the request that
/// the slot names as on its way changes only through an attempt by that
/// request, which ends with its answer.
pub proof fn law_slot_changes_in_order(a: Line, b: Line)
    requires
        line_ok(a),
        line_step(a, b),
    ensures
        a.view.state is Active && b.view.state is Active ==> b.view.state == a.view.state,
        a.view.state is Active ==> !(exists|
            req: WtxReq,
            from_flight: bool,
            acquired: Result<WriteTx, ReturnStatus>,
            out: WtxOutcome,
        | attempt_step(a, b, req, from_flight, acquired, out)),
        (a.view.state matches QState::NextRetry(m) && b.view.state matches QState::NextRetry(m2)
            && m@ != m2@) ==> exists|
            req: WtxReq,
            from_flight: bool,
            acquired: Result<WriteTx, ReturnStatus>,
            out: WtxOutcome,
        |
            attempt_step(a, b, req, from_flight, acquired, out) && req.id@ == a.view.state->NextRetry_0@
                && out.reply is Some,
{
    if a.view.state is NextRetry && b.view.state is NextRetry && a.view.state->NextRetry_0@
        != b.view.state->NextRetry_0@ {
        if exists|req: WtxReq| queued_step(a, b, req) {
        } else if exists|
            req: WtxReq,
            from_flight: bool,
            acquired: Result<WriteTx, ReturnStatus>,
            out: WtxOutcome,
        | attempt_step(a, b, req, from_flight, acquired, out) {
            let (req, from_flight, acquired, out) = choose|
                req: WtxReq,
                from_flight: bool,
                acquired: Result<WriteTx, ReturnStatus>,
                out: WtxOutcome,
            | attempt_step(a, b, req, from_flight, acquired, out);
            law_attempt_answers_head(a.view, b.view, req, acquired, out);
            assert(attempt_step(a, b, req, from_flight, acquired, out) && req.id@
                == a.view.state->NextRetry_0@ && out.reply is Some);
        } else if exists|id: Seq<char>, r: Removed| end_step(a, b, id, r) {
        } else {
        }
    }
}

} // verus!

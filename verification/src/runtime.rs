//! The event loop's decisions: what each request does to the registry of
//! live transactions, what is replied, and what is sent round again.

use vstd::prelude::*;
use vstd::std_specs::convert::FromSpecImpl;
use crate::active_txs::{
    ActiveTxs, FileAbs, FileView, QState, RW, RWO, Removed, Repost, head, next_state,
    removed_from, tail,
};
use crate::db::{BindRunError, DbHandle};
use crate::err::ReturnStatus;
use crate::errmap::PrimaryRC;
use crate::messages::{
    ArgsFile, FileOp, FileOpErr, FileOpRes, InMsg, OutMsg, Query, TxIdOnly, TxOp, TxOpErr,
    TxOpRes, TxOpType,
};
use crate::sma::{
    Bound, DbFile, Params, ReadBindRunError, ReadError, ReadTx, WriteBindRunError, WriteError,
    WriteTx, bind_of, read_bind_refusal, read_refusal, run_params, run_params_read_only,
    run_params_write_only, run_read_only, run_write_only,
};
use crate::stmt::{ErrorBind, RSet, StmtHandle};
use crate::utils::{is_hyphenated_lower, is_valid_uuid_v4_hypenated};

verus! {

/// The identifier by which a client finds the reply to its request.
pub type InMsgId = String;

/// A request with the identifier its client gave it.
#[derive(Debug)]
pub struct InMsgWithId {
    pub id: InMsgId,
    pub msg: InMsg,
}

/// A request to open a write transaction that has not been answered yet.
#[derive(Debug)]
pub struct WtxReq {
    pub id: InMsgId,
    pub args: ArgsFile,
}

/// A reply, with the identifier of the request it answers.
#[derive(Debug)]
pub struct OutMsgWithId {
    pub in_msg_id: InMsgId,
    pub msg: OutMsg,
}

/// Why a request was not taken in.
#[derive(Debug, Clone, Copy, PartialEq, Eq, Structural)]
pub enum InputError {
    /// The event loop is gone.
    ChannelError,
    /// The request's identifier does not have the accepted shape.
    InvalidId,
}

/// What the event loop reads from its channel.
#[derive(Debug)]
pub enum InputItem {
    InMsgWithId(InMsgWithId),
    /// Leave the loop.
    BreakLoop,
}

/// A pending request, as the request it came in as.
pub open spec fn as_in_msg(f: WtxReq) -> InMsgWithId {
    InMsgWithId { id: f.id, msg: InMsg::File(FileOp::GetWriteTx(f.args)) }
}

impl FromSpecImpl<WtxReq> for InMsgWithId {
    open spec fn obeys_from_spec() -> bool {
        true
    }

    open spec fn from_spec(f: WtxReq) -> Self {
        as_in_msg(f)
    }
}

impl From<WtxReq> for InMsgWithId {
    fn from(f: WtxReq) -> (m: Self) {
        let WtxReq { id, args } = f;
        InMsgWithId { id, msg: InMsg::File(FileOp::GetWriteTx(args)) }
    }
}

/// How long a request that found its file busy waits before it tries again.
pub const RETRY_DELAY_MS: u64 = 2000;

/// What becomes of a request to open a write transaction when it arrives.
#[derive(Debug)]
pub enum WriteReqStep {
    /// It is answered at once.
    Respond(FileOpRes),
    /// It waits in the queue of its file; nothing is replied yet.
    Queued,
    /// Its turn has come: try for the write lock of the file.
    Acquire { wtx_req: WtxReq, f_abs: FileAbs },
}

/// What follows from an attempt to take the write lock.
#[derive(Debug)]
pub struct WtxOutcome {
    /// The reply to the request, unless it has to try again.
    pub reply: Option<FileOpRes>,
    /// A request to send back into the event loop.
    pub repost: Option<Repost>,
}

/// Which statements a request may run.
#[derive(Debug, Clone, Copy, PartialEq, Eq, Structural)]
pub enum Access {
    /// Any statement.
    Any,
    /// Only statements that leave the file as it is.
    ReadOnly,
    /// Only statements that change the file.
    WriteOnly,
}

/// Whether a statement with this read-only flag passes.
pub open spec fn admits(access: Access, is_read_only: bool) -> bool {
    match access {
        Access::Any => true,
        Access::ReadOnly => is_read_only,
        Access::WriteOnly => !is_read_only,
    }
}

/// Which handler a request goes to.
#[derive(Debug, Clone, Copy, PartialEq, Eq, Structural)]
pub enum Route {
    OpenRead,
    OpenWrite,
    TxBody,
    TxEnd,
}

/// How the failures of a statement are reported: by the kind of transaction
/// and of request.
#[derive(Debug, Clone, Copy, PartialEq, Eq, Structural)]
pub enum Shape {
    /// An unclassified statement in a write transaction.
    Plain,
    /// The same, with data.
    Bind,
    /// A statement that must not change the file.
    Read,
    /// The same, with data.
    ReadBind,
    /// A statement that must change the file.
    Write,
    /// The same, with data.
    WriteBind,
}

/// A statement to prepare on a connection, and what to do with the answer.
#[derive(Debug)]
pub struct BodyPlan<'a> {
    /// The connection of the transaction.
    pub db: &'a DbHandle,
    /// Whether the transaction is a write transaction.
    pub in_write_tx: bool,
    pub shape: Shape,
    pub q: &'a Query,
    pub params: Option<&'a Params>,
}

/// A transaction to end, taken out of the registry.
#[derive(Debug)]
pub struct EndPlan {
    pub tx: RWO,
    /// The statement that ends it.
    pub sql: &'static str,
    /// The request to send back into the event loop once the transaction has
    /// ended, because the write slot came free.
    pub next: Option<InMsgWithId>,
}

/// The handler for a request: by what it asks for, and for requests on a
/// transaction by whether they end it.
pub open spec fn spec_route(msg: InMsg) -> Route {
    match msg {
        InMsg::File(FileOp::GetReadTx(_)) => Route::OpenRead,
        InMsg::File(FileOp::GetWriteTx(_)) => Route::OpenWrite,
        InMsg::Tx(op) => if op.spec_type() == TxOpType::End {
            Route::TxEnd
        } else {
            Route::TxBody
        },
    }
}

/// Which statements pass under a shape.
pub open spec fn access_of(shape: Shape) -> Access {
    match shape {
        Shape::Plain | Shape::Bind => Access::Any,
        Shape::Read | Shape::ReadBind => Access::ReadOnly,
        Shape::Write | Shape::WriteBind => Access::WriteOnly,
    }
}

/// The shapes of requests that come with data.
pub open spec fn has_data(shape: Shape) -> bool {
    shape == Shape::Bind || shape == Shape::ReadBind || shape == Shape::WriteBind
}

/// The shape of a request's failures in a transaction of one kind, or the
/// error that refuses the request outright: a read transaction takes no
/// statement that the client calls a write.
pub open spec fn shape_for(in_write_tx: bool, op: TxOp) -> Result<Shape, TxOpErr> {
    if in_write_tx {
        match op {
            TxOp::Q(_) => Ok(Shape::Plain),
            TxOp::QParams(_) => Ok(Shape::Bind),
            TxOp::Read(_) => Ok(Shape::Read),
            TxOp::ReadParams(_) => Ok(Shape::ReadBind),
            TxOp::Write(_) => Ok(Shape::Write),
            TxOp::WriteParams(_) => Ok(Shape::WriteBind),
            _ => Err(TxOpErr::InvalidTxId),
        }
    } else {
        match op {
            TxOp::Read(_) | TxOp::Q(_) => Ok(Shape::Read),
            TxOp::ReadParams(_) | TxOp::QParams(_) => Ok(Shape::ReadBind),
            TxOp::Write(_) | TxOp::WriteParams(_) => Err(
                TxOpErr::ReadError(ReadError::QueryIsWrite),
            ),
            _ => Err(TxOpErr::InvalidTxId),
        }
    }
}

/// The error for a statement that the driver could not prepare or run.
pub open spec fn wrap_status(shape: Shape, rs: ReturnStatus) -> TxOpErr {
    match shape {
        Shape::Plain => TxOpErr::ReturnStatus(rs),
        Shape::Bind => TxOpErr::BindRunError(BindRunError::ReturnStatus(rs)),
        Shape::Read => TxOpErr::ReadError(ReadError::ReturnStatus(rs)),
        Shape::ReadBind => TxOpErr::ReadBindRunError(
            ReadBindRunError::BindRunError(BindRunError::ReturnStatus(rs)),
        ),
        Shape::Write => TxOpErr::WriteError(WriteError::ReturnStatus(rs)),
        Shape::WriteBind => TxOpErr::WriteBindRunError(
            WriteBindRunError::BindRunError(BindRunError::ReturnStatus(rs)),
        ),
    }
}

/// The error for data that could not be bound.
pub open spec fn wrap_bind(shape: Shape, eb: ErrorBind) -> TxOpErr
    recommends
        has_data(shape),
{
    match shape {
        Shape::ReadBind => TxOpErr::ReadBindRunError(
            ReadBindRunError::BindRunError(BindRunError::ErrorBind(eb)),
        ),
        Shape::WriteBind => TxOpErr::WriteBindRunError(
            WriteBindRunError::BindRunError(BindRunError::ErrorBind(eb)),
        ),
        _ => TxOpErr::BindRunError(BindRunError::ErrorBind(eb)),
    }
}

/// The error for a statement that is not what its request may run. A
/// statement that changes the file is refused as a write in a read
/// transaction, and as no read where a write transaction was asked for a
/// read; one that leaves the file as it is is refused as a read where a
/// write was asked for.
pub open spec fn wrap_refused(shape: Shape, in_write_tx: bool) -> TxOpErr
    recommends
        access_of(shape) != Access::Any,
{
    match shape {
        Shape::Read => TxOpErr::ReadError(read_refusal(in_write_tx)),
        Shape::ReadBind => TxOpErr::ReadBindRunError(read_bind_refusal(in_write_tx)),
        Shape::Write => TxOpErr::WriteError(WriteError::QueryIsRead),
        _ => TxOpErr::WriteBindRunError(WriteBindRunError::QueryIsRead),
    }
}

/// The connection of a transaction.
pub open spec fn db_of(tx: RWO) -> DbHandle {
    match tx {
        RWO::Read(rt) => rt.db_file.db_handle,
        RWO::Write(wt) => wt.db_file.db_handle,
    }
}

/// What a request to run a statement comes to before the driver is asked:
/// the plan for the transaction it names, or the error.
pub open spec fn body_plan_of(held: Option<RWO>, op: TxOp, r: Result<BodyPlan, TxOpErr>) -> bool {
    match held {
        None => r matches Err(TxOpErr::InvalidTxId),
        Some(tx) => match shape_for(tx is Write, op) {
            Err(e) => r == Err::<BodyPlan, TxOpErr>(e),
            Ok(shape) => {
                &&& r matches Ok(plan)
                &&& *plan.db == db_of(tx)
                &&& plan.in_write_tx == (tx is Write)
                &&& plan.shape == shape
                &&& Some(*plan.q) == op.spec_query()
                &&& match plan.params {
                    Some(p) => op.spec_params() == Some(*p),
                    None => op.spec_params() is None,
                }
            },
        },
    }
}

/// What a prepared statement comes to under a plan: ready to run with its
/// bindings, or refused. The checks come in this order: whether the driver
/// prepared it, whether it may run at all, whether its data can be bound.
pub open spec fn decision_of(
    plan: BodyPlan,
    prepared: Result<StmtHandle, ReturnStatus>,
    r: Result<Bound, TxOpErr>,
) -> bool {
    match prepared {
        Err(rs) => r == Err::<Bound, TxOpErr>(wrap_status(plan.shape, rs)),
        Ok(s) => if !admits(access_of(plan.shape), s.is_read_only) {
            r == Err::<Bound, TxOpErr>(wrap_refused(plan.shape, plan.in_write_tx))
        } else {
            match plan.params {
                None => r matches Ok(b) && b.stmt == s && b.bindings@.len() == 0,
                Some(p) => match r {
                    Ok(b) => b.stmt == s && bind_of(s, *p, Ok(b.bindings)),
                    Err(e) => exists|eb: ErrorBind|
                        e == wrap_bind(plan.shape, eb) && bind_of(s, *p, Err(eb)),
                },
            }
        },
    }
}

impl<'a> BodyPlan<'a> {
    /// The invariant: a plan has data exactly when its shape says so, and
    /// the data holds no key twice.
    pub open spec fn wf(&self) -> bool {
        &&& has_data(self.shape) <==> self.params is Some
        &&& self.params matches Some(p) ==> p.wf()
    }

    /// Decides on the statement that the driver prepared for this plan, by
    /// what the transaction allows for this kind of request.
    pub fn decide(&self, prepared: Result<StmtHandle, ReturnStatus>) -> (r: Result<
        Bound<'a>,
        TxOpErr,
    >)
        requires
            self.wf(),
            prepared matches Ok(s) ==> s.wf(),
        ensures
            decision_of(*self, prepared, r),
    {
        match self.shape {
            Shape::Plain => match prepared {
                Ok(s) => Ok(Bound { stmt: s, bindings: Vec::new() }),
                Err(rs) => Err(TxOpErr::ReturnStatus(rs)),
            },
            Shape::Bind => match run_params(prepared, self.params.unwrap()) {
                Ok(b) => Ok(b),
                Err(e) => {
                    assert(e matches BindRunError::ErrorBind(eb) ==> TxOpErr::BindRunError(e)
                        == wrap_bind(self.shape, eb));
                    Err(TxOpErr::BindRunError(e))
                },
            },
            Shape::Read => match run_read_only(prepared, self.in_write_tx) {
                Ok(s) => Ok(Bound { stmt: s, bindings: Vec::new() }),
                Err(e) => Err(TxOpErr::ReadError(e)),
            },
            Shape::ReadBind => match run_params_read_only(
                prepared,
                self.params.unwrap(),
                self.in_write_tx,
            ) {
                Ok(b) => Ok(b),
                Err(e) => {
                    assert(e matches ReadBindRunError::BindRunError(BindRunError::ErrorBind(eb))
                        ==> TxOpErr::ReadBindRunError(e) == wrap_bind(self.shape, eb));
                    Err(TxOpErr::ReadBindRunError(e))
                },
            },
            Shape::Write => match run_write_only(prepared) {
                Ok(s) => Ok(Bound { stmt: s, bindings: Vec::new() }),
                Err(e) => Err(TxOpErr::WriteError(e)),
            },
            Shape::WriteBind => match run_params_write_only(prepared, self.params.unwrap()) {
                Ok(b) => Ok(b),
                Err(e) => {
                    assert(e matches WriteBindRunError::BindRunError(BindRunError::ErrorBind(eb))
                        ==> TxOpErr::WriteBindRunError(e) == wrap_bind(self.shape, eb));
                    Err(TxOpErr::WriteBindRunError(e))
                },
            },
        }
    }

    /// The error for data that cannot be bound to the statement.
    fn data_refused(&self, eb: ErrorBind) -> (e: TxOpErr)
        ensures
            e == wrap_bind(self.shape, eb),
    {
        match self.shape {
            Shape::ReadBind => TxOpErr::ReadBindRunError(
                ReadBindRunError::BindRunError(BindRunError::ErrorBind(eb)),
            ),
            Shape::WriteBind => TxOpErr::WriteBindRunError(
                WriteBindRunError::BindRunError(BindRunError::ErrorBind(eb)),
            ),
            _ => TxOpErr::BindRunError(BindRunError::ErrorBind(eb)),
        }
    }

    /// The error to reply when the driver failed to prepare or to run the
    /// statement.
    pub fn run_failed(&self, rs: ReturnStatus) -> (e: TxOpErr)
        ensures
            e == wrap_status(self.shape, rs),
    {
        match self.shape {
            Shape::Plain => TxOpErr::ReturnStatus(rs),
            Shape::Bind => TxOpErr::BindRunError(BindRunError::ReturnStatus(rs)),
            Shape::Read => TxOpErr::ReadError(ReadError::ReturnStatus(rs)),
            Shape::ReadBind => TxOpErr::ReadBindRunError(
                ReadBindRunError::BindRunError(BindRunError::ReturnStatus(rs)),
            ),
            Shape::Write => TxOpErr::WriteError(WriteError::ReturnStatus(rs)),
            Shape::WriteBind => TxOpErr::WriteBindRunError(
                WriteBindRunError::BindRunError(BindRunError::ReturnStatus(rs)),
            ),
        }
    }

    /// The error to reply when the driver refused one of the bindings.
    pub fn bind_failed(&self, rs: ReturnStatus) -> (e: TxOpErr)
        requires
            has_data(self.shape),
        ensures
            exists|eb: ErrorBind|
                e == wrap_bind(self.shape, eb) && eb.kind == crate::stmt::ErrorBindType::ReturnStatus(
                    rs,
                ) && eb.msg@ == crate::stmt::bind_failed_msg(),
    {
        let eb = ErrorBind::bind_failed(rs);
        self.data_refused(eb)
    }

    /// The reply, from what running the statement came to.
    pub fn finish(&self, outcome: Result<RSet, ReturnStatus>) -> (r: TxOpRes)
        ensures
            r == match outcome {
                Ok(rset) => Ok::<RSet, TxOpErr>(rset),
                Err(rs) => Err(wrap_status(self.shape, rs)),
            },
    {
        match outcome {
            Ok(rset) => Ok(rset),
            Err(rs) => Err(self.run_failed(rs)),
        }
    }
}

impl InMsgWithId {
    /// Gives a request a fresh identifier.
    pub fn new_gen_id(msg: InMsg) -> (m: InMsgWithId)
        ensures
            m.msg == msg,
            is_hyphenated_lower(m.id@),
    {
        InMsgWithId { id: crate::utils::get_unique_id(), msg }
    }
}

/// Takes a request in: only one whose identifier has the accepted shape goes
/// on to the event loop.
pub fn input(msg: InMsgWithId) -> (r: Result<InputItem, InputError>)
    ensures
        r == if is_hyphenated_lower(msg.id@) {
            Ok::<InputItem, InputError>(InputItem::InMsgWithId(msg))
        } else {
            Err(InputError::InvalidId)
        },
{
    match is_valid_uuid_v4_hypenated(&msg.id) {
        Ok(_) => Ok(InputItem::InMsgWithId(msg)),
        Err(_) => Err(InputError::InvalidId),
    }
}

/// Which handler a request goes to.
pub fn route(msg: &InMsg) -> (r: Route)
    ensures
        r == spec_route(*msg),
{
    match msg {
        InMsg::File(FileOp::GetReadTx(_)) => Route::OpenRead,
        InMsg::File(FileOp::GetWriteTx(_)) => Route::OpenWrite,
        InMsg::Tx(op) => match op.get_type() {
            TxOpType::End => Route::TxEnd,
            _ => Route::TxBody,
        },
    }
}

pub fn file_err(e: FileOpErr) -> (m: OutMsg)
    ensures
        m == OutMsg::File(Err(e)),
{
    OutMsg::File(Err(e))
}

pub fn tx_err(e: TxOpErr) -> (m: OutMsg)
    ensures
        m == OutMsg::Tx(Err(e)),
{
    OutMsg::Tx(Err(e))
}

/// The registered form of a path: what normalising it gave, or the error for
/// a path whose directory does not exist.
pub fn get_file_abs(normalized: Option<FileAbs>) -> (r: Result<FileAbs, FileOpErr>)
    ensures
        r == match normalized {
            Some(s) => Ok::<FileAbs, FileOpErr>(s),
            None => Err(FileOpErr::FileDirectoryDoesNotExist),
        },
{
    match normalized {
        Some(s) => Ok(s),
        None => Err(FileOpErr::FileDirectoryDoesNotExist),
    }
}

/// A file handle, or the error for a connection that could not be opened.
pub fn get_file(opened: Result<DbFile, ReturnStatus>) -> (r: Result<DbFile, FileOpErr>)
    ensures
        r == match opened {
            Ok(f) => Ok::<DbFile, FileOpErr>(f),
            Err(rs) => Err(FileOpErr::ReturnStatus(rs)),
        },
{
    match opened {
        Ok(f) => Ok(f),
        Err(rs) => Err(FileOpErr::ReturnStatus(rs)),
    }
}

/// Whether a request may try for the write lock now: the slot is empty, or
/// it names this very request as on its way.
pub open spec fn may_acquire(state: QState, id: Seq<char>) -> bool {
    match state {
        QState::Empty => true,
        QState::NextRetry(m) => m@ == id,
        QState::Active(_) => false,
    }
}

/// What a request to open a write transaction does on arrival.
pub open spec fn write_req_of(
    before: ActiveTxs,
    after: ActiveTxs,
    wtx_req: WtxReq,
    normalized: Option<FileAbs>,
    step: WriteReqStep,
) -> bool {
    match normalized {
        None => {
            &&& step == WriteReqStep::Respond(Err(FileOpErr::FileDirectoryDoesNotExist))
            &&& forall|g: Seq<char>| #[trigger] after.file(g) == before.file(g)
        },
        Some(f) => if may_acquire(before.file(f@).state, wtx_req.id@) {
            &&& step == (WriteReqStep::Acquire { wtx_req, f_abs: f })
            &&& forall|g: Seq<char>| #[trigger] after.file(g) == before.file(g)
        } else {
            &&& step is Queued
            &&& after.file(f@) == (FileView {
                queue: before.file(f@).queue.push(wtx_req),
                ..before.file(f@)
            })
            &&& forall|g: Seq<char>| g != f@ ==> #[trigger] after.file(g) == before.file(g)
        },
    }
}

/// Decides what a request to open a write transaction does on arrival:
/// `normalized` is its path in registered form, if its directory exists.
pub fn process_write_req(at: &mut ActiveTxs, wtx_req: WtxReq, normalized: Option<FileAbs>) -> (step:
    WriteReqStep)
    requires
        old(at).wf(),
    ensures
        final(at).wf(),
        write_req_of(*old(at), *final(at), wtx_req, normalized, step),
{
    let f_abs = match get_file_abs(normalized) {
        Ok(f_abs) => f_abs,
        Err(e) => {
            return WriteReqStep::Respond(Err(e));
        },
    };
    let acquire = match at.wr_qstate(&f_abs) {
        QState::NextRetry(in_msg_id) => wtx_req.id == *in_msg_id,
        QState::Empty => true,
        QState::Active(_) => false,
    };
    if acquire {
        WriteReqStep::Acquire { wtx_req, f_abs }
    } else {
        at.wr_queue(&f_abs, wtx_req);
        WriteReqStep::Queued
    }
}

/// What an attempt to take the write lock does.
pub open spec fn wtx_req_of(
    before: FileView,
    after: FileView,
    wtx_req: WtxReq,
    acquired: Result<WriteTx, ReturnStatus>,
    out: WtxOutcome,
) -> bool {
    match acquired {
        Ok(wtx) => {
            &&& after == (FileView { state: QState::Active(wtx), ..before })
            &&& out.reply matches Some(Ok(t)) && t.tx_id@ == wtx.id@
            &&& out.repost is None
        },
        Err(rs) => if rs.primary.id == PrimaryRC::SQLITE_BUSY {
            &&& after == (FileView { state: QState::NextRetry(wtx_req.id), ..before })
            &&& out.reply is None
            &&& out.repost == Some(
                Repost { msg: as_in_msg(wtx_req), delay_ms: RETRY_DELAY_MS },
            )
        } else {
            &&& after == (FileView {
                state: next_state(before.queue),
                queue: tail(before.queue),
                ..before
            })
            &&& out.reply == Some(Err::<TxIdOnly, FileOpErr>(FileOpErr::ReturnStatus(rs)))
            &&& out.repost == match head(before.queue) {
                Some(h) => Some(Repost { msg: as_in_msg(h), delay_ms: 0 }),
                None => None,
            }
        },
    }
}

/// Decides what follows from an attempt to take the write lock of `f_abs`
/// for a request whose turn it was: the transaction takes the slot and the
/// request is answered; or the file is busy and the request goes round again
/// after a delay, unanswered; or the attempt failed, the request is answered
/// with the failure, and the oldest waiting request gets its turn.
pub fn process_wtx_req(
    at: &mut ActiveTxs,
    wtx_req: WtxReq,
    f_abs: &FileAbs,
    acquired: Result<WriteTx, ReturnStatus>,
) -> (out: WtxOutcome)
    requires
        old(at).wf(),
        may_acquire(old(at).file(f_abs@).state, wtx_req.id@),
        acquired matches Ok(wtx) ==> !old(at).is_live(wtx.id@) && wtx.db_file.db_handle.file@
            == f_abs@,
    ensures
        final(at).wf(),
        wtx_req_of(old(at).file(f_abs@), final(at).file(f_abs@), wtx_req, acquired, out),
        forall|g: Seq<char>| g != f_abs@ ==> #[trigger] final(at).file(g) == old(at).file(g),
{
    match acquired {
        Ok(wtx) => {
            let tx_id = wtx.id.clone();
            at.wr_active(f_abs, wtx);
            WtxOutcome { reply: Some(Ok(TxIdOnly { tx_id })), repost: None }
        },
        Err(rs) => {
            let busy = match rs.primary.id {
                PrimaryRC::SQLITE_BUSY => true,
                _ => false,
            };
            if busy {
                let repost = at.wr_retry(f_abs, wtx_req, RETRY_DELAY_MS);
                WtxOutcome { reply: None, repost: Some(repost) }
            } else {
                let repost = match at.wr_fail(f_abs, wtx_req) {
                    Some(msg) => Some(Repost { msg, delay_ms: 0 }),
                    None => None,
                };
                WtxOutcome { reply: Some(Err(FileOpErr::ReturnStatus(rs))), repost }
            }
        },
    }
}

/// The answer that a step on arrival holds: only a request that is answered
/// at once has one. One that queues, and one whose turn has come, has none
/// yet.
pub open spec fn spec_reply_of(step: WriteReqStep) -> Option<FileOpRes> {
    match step {
        WriteReqStep::Respond(res) => Some(res),
        _ => None,
    }
}

/// What goes to the output sink for a request to open a write transaction:
/// its answer under its identifier, or nothing while it has no answer.
pub open spec fn spec_output(id: InMsgId, file_op_res: Option<FileOpRes>) -> Option<OutMsgWithId> {
    match file_op_res {
        Some(res) => Some(OutMsgWithId { in_msg_id: id, msg: OutMsg::File(res) }),
        None => None,
    }
}

/// The answer that a step on arrival holds, if it holds one.
pub fn reply_of(step: WriteReqStep) -> (r: Option<FileOpRes>)
    ensures
        r == spec_reply_of(step),
{
    match step {
        WriteReqStep::Respond(res) => Some(res),
        _ => None,
    }
}

/// The reply to a request to open a write transaction, unless the request
/// waits: then nothing is said.
pub fn maybe_queue_write_tx_req(id: InMsgId, file_op_res: Option<FileOpRes>) -> (out: Option<
    OutMsgWithId,
>)
    ensures
        out == spec_output(id, file_op_res),
{
    match file_op_res {
        Some(res) => Some(OutMsgWithId { in_msg_id: id, msg: OutMsg::File(res) }),
        None => None,
    }
}

/// The reply to any other request.
pub fn immediate_response(id: InMsgId, msg: OutMsg) -> (out: OutMsgWithId)
    ensures
        out == (OutMsgWithId { in_msg_id: id, msg }),
{
    OutMsgWithId { in_msg_id: id, msg }
}

/// Answers a request to open a read transaction: `opened` is the
/// transaction on a fresh connection, or why there is none. A transaction
/// is registered under the file its connection was opened on.
pub fn process_file_op(at: &mut ActiveTxs, opened: Result<ReadTx, FileOpErr>) -> (res: FileOpRes)
    requires
        old(at).wf(),
        opened matches Ok(tx) ==> !old(at).is_live(tx.id@),
    ensures
        final(at).wf(),
        match opened {
            Ok(tx) => {
                let f = tx.db_file.db_handle.file@;
                &&& res matches Ok(t) && t.tx_id@ == tx.id@
                &&& final(at).file(f) == (FileView {
                    reads: old(at).file(f).reads.insert(tx.id@, tx),
                    ..old(at).file(f)
                })
                &&& forall|g: Seq<char>| g != f ==> #[trigger] final(at).file(g) == old(at).file(g)
            },
            Err(e) => {
                &&& res == Err::<TxIdOnly, FileOpErr>(e)
                &&& forall|g: Seq<char>| #[trigger] final(at).file(g) == old(at).file(g)
            },
        },
{
    match opened {
        Ok(tx) => {
            let f_abs = tx.db_file.get_file_abs();
            let res = Ok(TxIdOnly { tx_id: tx.id.clone() });
            at.add_read(&f_abs, tx.id.clone(), tx);
            res
        },
        Err(e) => Err(e),
    }
}

/// Finds the transaction that a request names.
pub fn get_tx<'a>(at: &'a ActiveTxs, tx_op: &TxOp) -> (r: Result<RW<'a>, TxOpErr>)
    requires
        at.wf(),
    ensures
        match r {
            Ok(rw) => crate::active_txs::found_is(Some(rw), at.spec_find(tx_op.spec_tx_id()@)),
            Err(e) => e is InvalidTxId && !at.is_live(tx_op.spec_tx_id()@),
        },
{
    let tx_id = tx_op.get_tx_id();
    match at.get_tx(tx_id) {
        Some(rw) => Ok(rw),
        None => Err(TxOpErr::InvalidTxId),
    }
}

/// Takes the transaction that a request names out of the registry.
pub fn remove_tx(at: &mut ActiveTxs, tx_op: &TxOp) -> (r: Result<Removed, TxOpErr>)
    requires
        old(at).wf(),
    ensures
        final(at).wf(),
        !final(at).is_live(tx_op.spec_tx_id()@),
        r is Ok <==> old(at).is_live(tx_op.spec_tx_id()@),
        r matches Ok(removed) ==> old(at).spec_find(tx_op.spec_tx_id()@) == Some(removed.tx),
        r matches Err(e) ==> e is InvalidTxId && forall|g: Seq<char>| #[trigger]
            final(at).file(g) == old(at).file(g),
        r matches Ok(removed) ==> exists|f: Seq<char>|
            {
                &&& #[trigger] old(at).holds(f, tx_op.spec_tx_id()@)
                &&& forall|g: Seq<char>| g != f ==> #[trigger] final(at).file(g) == old(at).file(g)
                &&& removed_from(
                    old(at).file(f),
                    final(at).file(f),
                    tx_op.spec_tx_id()@,
                    removed,
                )
            },
{
    let tx_id = tx_op.get_tx_id();
    match at.remove_tx(tx_id) {
        Some(removed) => Ok(removed),
        None => Err(TxOpErr::InvalidTxId),
    }
}

/// Decides what a request to run a statement comes to before the driver is
/// asked: the connection to prepare the statement on, with the rule for
/// what follows; or the error, for a transaction that is not live and for a
/// write in a read transaction.
pub fn process_tx_op_body<'a>(at: &'a ActiveTxs, op: &'a TxOp) -> (r: Result<
    BodyPlan<'a>,
    TxOpErr,
>)
    requires
        at.wf(),
        op.wf(),
        op.spec_type() != TxOpType::End,
    ensures
        body_plan_of(at.spec_find(op.spec_tx_id()@), *op, r),
        r matches Ok(plan) ==> plan.wf(),
{
    match get_tx(at, op) {
        Err(e) => Err(e),
        Ok(t) => match t {
            RW::Read(rtx) => {
                let db = &rtx.db_file.db_handle;
                let in_write_tx = false;
                match op {
                    TxOp::Read(a) | TxOp::Q(a) => Ok(
                        BodyPlan { db, in_write_tx, shape: Shape::Read, q: &a.q, params: None },
                    ),
                    TxOp::ReadParams(a) | TxOp::QParams(a) => Ok(
                        BodyPlan {
                            db,
                            in_write_tx,
                            shape: Shape::ReadBind,
                            q: &a.q,
                            params: Some(&a.params),
                        },
                    ),
                    _ => Err(TxOpErr::ReadError(ReadError::QueryIsWrite)),
                }
            },
            RW::Write(wtx) => {
                let db = &wtx.db_file.db_handle;
                let in_write_tx = true;
                match op {
                    TxOp::Q(a) => Ok(BodyPlan { db, in_write_tx, shape: Shape::Plain, q: &a.q, params: None }),
                    TxOp::QParams(a) => Ok(
                        BodyPlan {
                            db,
                            in_write_tx,
                            shape: Shape::Bind,
                            q: &a.q,
                            params: Some(&a.params),
                        },
                    ),
                    TxOp::Read(a) => Ok(BodyPlan { db, in_write_tx, shape: Shape::Read, q: &a.q, params: None }),
                    TxOp::ReadParams(a) => Ok(
                        BodyPlan {
                            db,
                            in_write_tx,
                            shape: Shape::ReadBind,
                            q: &a.q,
                            params: Some(&a.params),
                        },
                    ),
                    TxOp::Write(a) => Ok(
                        BodyPlan { db, in_write_tx, shape: Shape::Write, q: &a.q, params: None },
                    ),
                    TxOp::WriteParams(a) => Ok(
                        BodyPlan {
                            db,
                            in_write_tx,
                            shape: Shape::WriteBind,
                            q: &a.q,
                            params: Some(&a.params),
                        },
                    ),
                    _ => Err(TxOpErr::InvalidTxId),
                }
            },
        },
    }
}

/// The statement that ends a transaction on request.
pub open spec fn end_sql(op: TxOp) -> &'static str {
    if op is Commit {
        crate::sma::COMMIT
    } else {
        crate::sma::ROLLBACK
    }
}

/// Takes the transaction that a commit or rollback names out of the
/// registry, before its last statement runs, and says which statement that
/// is. Where the transaction held a write slot, the slot goes to the oldest
/// waiting request, which is to be sent back into the event loop.
pub fn process_tx_op_end(at: &mut ActiveTxs, op: &TxOp) -> (r: Result<EndPlan, TxOpErr>)
    requires
        old(at).wf(),
        op.spec_type() == TxOpType::End,
    ensures
        final(at).wf(),
        !final(at).is_live(op.spec_tx_id()@),
        r is Ok <==> old(at).is_live(op.spec_tx_id()@),
        r matches Ok(plan) ==> old(at).spec_find(op.spec_tx_id()@) == Some(plan.tx),
        r matches Err(e) ==> e is InvalidTxId && forall|g: Seq<char>| #[trigger]
            final(at).file(g) == old(at).file(g),
        r matches Ok(plan) ==> plan.sql == end_sql(*op) && exists|f: Seq<char>|
            {
                &&& #[trigger] old(at).holds(f, op.spec_tx_id()@)
                &&& forall|g: Seq<char>| g != f ==> #[trigger] final(at).file(g) == old(at).file(g)
                &&& removed_from(
                    old(at).file(f),
                    final(at).file(f),
                    op.spec_tx_id()@,
                    Removed { tx: plan.tx, next: plan.next },
                )
            },
{
    match remove_tx(at, op) {
        Err(e) => Err(e),
        Ok(removed) => {
            let Removed { tx, next } = removed;
            let sql = match op {
                TxOp::Commit(_) => crate::sma::COMMIT,
                _ => crate::sma::ROLLBACK,
            };
            Ok(EndPlan { tx, sql, next })
        },
    }
}

/// The reply to a commit or rollback, from what running it came to on the
/// transaction taken out for it; the second part is the file handle that is
/// left, to be closed.
pub fn end_reply(tx: RWO, outcome: Result<RSet, ReturnStatus>) -> (r: (TxOpRes, DbFile))
    ensures
        r.0 == match outcome {
            Ok(rset) => Ok::<RSet, TxOpErr>(rset),
            Err(e) => Err(TxOpErr::ReturnStatus(e)),
        },
        r.1 == match tx {
            RWO::Read(rt) => rt.db_file,
            RWO::Write(wt) => wt.db_file,
        },
{
    let (db_file, outcome) = match tx {
        RWO::Read(rtx) => rtx.commit(outcome),
        RWO::Write(wtx) => wtx.commit(outcome),
    };
    match outcome {
        Err(e) => (Err(TxOpErr::ReturnStatus(e)), db_file),
        Ok(rs) => (Ok(rs), db_file),
    }
}

/// The identifiers of a queue of requests, in order.
pub open spec fn ids(queue: Seq<WtxReq>) -> Seq<Seq<char>> {
    Seq::new(queue.len(), |i: int| queue[i].id@)
}

/// The line for the write slot of a file: the identifiers of the requests
/// that have not been answered, in the order in which they will be. The
/// request that is on its way back stands first, then the queue.
pub open spec fn waiting(v: FileView) -> Seq<Seq<char>> {
    match v.state {
        QState::NextRetry(m) => seq![m@] + ids(v.queue),
        _ => ids(v.queue),
    }
}

/// Nothing queues for an empty slot.
pub open spec fn orderly(v: FileView) -> bool {
    v.state is Empty ==> v.queue.len() == 0
}

/// `in_flight` are the identifiers of the requests for a file that were
/// handed out to be sent back into the event loop and have not arrived yet:
/// the one that the slot names, while it names one, and no other.
pub open spec fn in_flight_ok(v: FileView, in_flight: Seq<Seq<char>>) -> bool {
    match v.state {
        QState::NextRetry(m) => in_flight == seq![m@],
        _ => in_flight.len() == 0,
    }
}

/// The identifier of a request handed out to be sent back, as a list.
pub open spec fn sent_back(msg: Option<InMsgWithId>) -> Seq<Seq<char>> {
    match msg {
        Some(m) => seq![m.id@],
        None => Seq::empty(),
    }
}

/// A request to open a write transaction that arrives is answered, queued or
/// given its turn, and is never lost; one that queues goes to the end of the
/// line and changes nothing else. One that gets its turn while a request is
/// on its way back bears that request's identifier.
pub proof fn law_arrival_joins_line(
    before: ActiveTxs,
    after: ActiveTxs,
    wtx_req: WtxReq,
    f: FileAbs,
    step: WriteReqStep,
    in_flight: Seq<Seq<char>>,
)
    requires
        write_req_of(before, after, wtx_req, Some(f), step),
        orderly(before.file(f@)),
        in_flight_ok(before.file(f@), in_flight),
    ensures
        match step {
            WriteReqStep::Acquire { wtx_req: r, f_abs } => {
                &&& r == wtx_req
                &&& f_abs == f
                &&& may_acquire(before.file(f@).state, wtx_req.id@)
                &&& after.file(f@) == before.file(f@)
                &&& in_flight.len() > 0 ==> in_flight == seq![wtx_req.id@]
            },
            WriteReqStep::Queued => {
                &&& !may_acquire(before.file(f@).state, wtx_req.id@)
                &&& after.file(f@).state == before.file(f@).state
                &&& waiting(after.file(f@)) == waiting(before.file(f@)).push(wtx_req.id@)
                &&& after.file(f@).queue.last() == wtx_req
                &&& orderly(after.file(f@))
                &&& in_flight_ok(after.file(f@), in_flight)
            },
            WriteReqStep::Respond(_) => false,
        },
{
    if !may_acquire(before.file(f@).state, wtx_req.id@) {
        let b = before.file(f@);
        let a = after.file(f@);
        assert(ids(a.queue) =~= ids(b.queue).push(wtx_req.id@));
        assert(waiting(a) =~= waiting(b).push(wtx_req.id@));
    }
}

/// An attempt to take the write lock, by the request whose turn it is, ends
/// in one of three ways. The request is answered and leaves the line: with
/// its transaction, or with the failure. Or the file is busy: the request is
/// not answered, stays at the head of the line, and is handed out to be sent
/// back after the retry delay. Either way the slot names a request as on its
/// way exactly when one is handed out, and that one.
pub proof fn law_attempt_answers_head(
    before: FileView,
    after: FileView,
    wtx_req: WtxReq,
    acquired: Result<WriteTx, ReturnStatus>,
    out: WtxOutcome,
)
    requires
        wtx_req_of(before, after, wtx_req, acquired, out),
        may_acquire(before.state, wtx_req.id@),
        orderly(before),
    ensures
        orderly(after),
        after.reads == before.reads,
        out.reply is None <==> (acquired matches Err(rs) && rs.primary.id == PrimaryRC::SQLITE_BUSY),
        out.reply is Some ==> waiting(after) == ids(before.queue),
        out.reply is None ==> waiting(after) == seq![wtx_req.id@] + ids(before.queue) && out.repost
            == Some(Repost { msg: as_in_msg(wtx_req), delay_ms: RETRY_DELAY_MS }),
        in_flight_ok(
            after,
            match out.repost {
                Some(r) => seq![r.msg.id@],
                None => Seq::empty(),
            },
        ),
        after.state is Active <==> acquired is Ok,
{
    match acquired {
        Ok(wtx) => {},
        Err(rs) => {
            if rs.primary.id != PrimaryRC::SQLITE_BUSY {
                lemma_next_keeps_line(before.queue);
            }
        },
    }
}

/// Handing the slot to the oldest waiting request leaves the line as it is.
proof fn lemma_next_keeps_line(queue: Seq<WtxReq>)
    ensures
        waiting(FileView { reads: Map::empty(), state: next_state(queue), queue: tail(queue) })
            == ids(queue),
{
    let v = FileView { reads: Map::empty(), state: next_state(queue), queue: tail(queue) };
    if queue.len() > 0 {
        assert(ids(tail(queue)) =~= ids(queue).drop_first());
        assert(waiting(v) =~= ids(queue));
    } else {
        assert(waiting(v) =~= ids(queue));
    }
}

/// Ending a transaction leaves the line for the write slot as it is. Where
/// the transaction held the slot, the oldest waiting request is handed out to
/// be sent back, and the slot names it; where nothing waits, the slot is
/// empty. Ending a read transaction hands out nothing.
pub proof fn law_end_keeps_line(
    before: FileView,
    after: FileView,
    id: Seq<char>,
    r: Removed,
    in_flight: Seq<Seq<char>>,
)
    requires
        removed_from(before, after, id, r),
        orderly(before),
        in_flight_ok(before, in_flight),
    ensures
        orderly(after),
        waiting(after) == waiting(before),
        in_flight_ok(after, in_flight + sent_back(r.next)),
        r.tx is Read ==> r.next is None && after.state == before.state,
        r.tx is Write ==> !(after.state is Active),
{
    if before.reads.contains_key(id) {
        assert(in_flight + sent_back(r.next) =~= in_flight);
    } else {
        lemma_next_keeps_line(before.queue);
        assert(in_flight + sent_back(r.next) =~= sent_back(r.next));
    }
}

/// A statement that would change the file never runs in a read transaction:
/// whatever the request, the reply is the error that says the query is a
/// write, and no bindings are made.
pub proof fn law_read_tx_refuses_writes(
    held: ReadTx,
    op: TxOp,
    plan: BodyPlan,
    s: StmtHandle,
    r: Result<Bound, TxOpErr>,
)
    requires
        body_plan_of(Some(RWO::Read(held)), op, Ok(plan)),
        decision_of(plan, Ok(s), r),
        !s.is_read_only,
    ensures
        r matches Err(e) && (e == TxOpErr::ReadError(ReadError::QueryIsWrite) || e
            == TxOpErr::ReadBindRunError(ReadBindRunError::QueryIsWrite)),
{
}

/// A request that the client calls a write is refused in a read transaction
/// before any statement is prepared.
pub proof fn law_read_tx_takes_no_write(held: ReadTx, op: TxOp, r: Result<BodyPlan, TxOpErr>)
    requires
        body_plan_of(Some(RWO::Read(held)), op, r),
        op.spec_type() == TxOpType::Write,
    ensures
        r == Err::<BodyPlan, TxOpErr>(TxOpErr::ReadError(ReadError::QueryIsWrite)),
{
}

/// In a write transaction a statement runs only as what the client called
/// it: a read must leave the file as it is, a write must change it. What is
/// called a read and is none is refused as no read, what is called a write
/// and only reads is refused as a read.
pub proof fn law_write_tx_enforces_category(
    held: WriteTx,
    op: TxOp,
    plan: BodyPlan,
    s: StmtHandle,
    r: Result<Bound, TxOpErr>,
)
    requires
        body_plan_of(Some(RWO::Write(held)), op, Ok(plan)),
        decision_of(plan, Ok(s), r),
    ensures
        op.spec_type() == TxOpType::Read && !s.is_read_only ==> (r matches Err(e) && (e
            == TxOpErr::ReadError(ReadError::QueryIsRead) || e == TxOpErr::ReadBindRunError(
            ReadBindRunError::QueryIsRead,
        ))),
        op.spec_type() == TxOpType::Write && s.is_read_only ==> (r matches Err(e) && (e
            == TxOpErr::WriteError(WriteError::QueryIsRead) || e == TxOpErr::WriteBindRunError(
            WriteBindRunError::QueryIsRead,
        ))),
        op.spec_type() == TxOpType::Q && op.spec_params() is None ==> r is Ok,
{
}

/// On arrival, a request to open a write transaction is replied to only
/// where its path is refused. One that queues gets no reply and is the
/// last in the queue of its file; one whose turn has come gets none before
/// the attempt. A reply bears the request's identifier.
pub proof fn law_reply_on_arrival(
    before: ActiveTxs,
    after: ActiveTxs,
    wtx_req: WtxReq,
    normalized: Option<FileAbs>,
    step: WriteReqStep,
)
    requires
        write_req_of(before, after, wtx_req, normalized, step),
    ensures
        spec_output(wtx_req.id, spec_reply_of(step)) is Some <==> normalized is None,
        spec_output(wtx_req.id, spec_reply_of(step)) matches Some(o) ==> o.in_msg_id == wtx_req.id
            && o.msg == OutMsg::File(Err(FileOpErr::FileDirectoryDoesNotExist)),
        step is Queued ==> normalized is Some && after.file(normalized->0@).queue.last()
            == wtx_req && after.file(normalized->0@).state == before.file(normalized->0@).state,
        step matches WriteReqStep::Acquire { wtx_req: r, f_abs } ==> r == wtx_req && Some(f_abs)
            == normalized,
{
}

/// After an attempt, a request to open a write transaction is replied to
/// exactly when it is answered: with the identifier of its transaction, or
/// with the failure. While the file is busy nothing is replied, and the
/// request is the one handed out to be sent back. A reply bears the
/// request's identifier.
pub proof fn law_reply_on_attempt(
    before: FileView,
    after: FileView,
    wtx_req: WtxReq,
    acquired: Result<WriteTx, ReturnStatus>,
    out: WtxOutcome,
)
    requires
        wtx_req_of(before, after, wtx_req, acquired, out),
    ensures
        match acquired {
            Ok(wtx) => spec_output(wtx_req.id, out.reply) matches Some(o) && o.in_msg_id
                == wtx_req.id && (o.msg matches OutMsg::File(Ok(t)) && t.tx_id@ == wtx.id@),
            Err(rs) => if rs.primary.id == PrimaryRC::SQLITE_BUSY {
                &&& spec_output(wtx_req.id, out.reply) is None
                &&& out.repost matches Some(r) && r.msg == as_in_msg(wtx_req)
            } else {
                spec_output(wtx_req.id, out.reply) == Some(
                    OutMsgWithId {
                        in_msg_id: wtx_req.id,
                        msg: OutMsg::File(Err(FileOpErr::ReturnStatus(rs))),
                    },
                )
            },
        },
{
}

} // verus!

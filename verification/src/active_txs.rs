//! The registry of live transactions: for each file its read transactions, the
//! one slot for a write transaction, and the queue of requests that wait for
//! that slot.

use std::collections::VecDeque;
use vstd::prelude::*;
use crate::messages::TxId;
use crate::runtime::{InMsgId, InMsgWithId, WtxReq, as_in_msg};
use crate::sma::{ReadTx, WriteTx};
use crate::strmap::StrMap;

verus! {

/// A path in the form under which a file is registered.
pub type FileAbs = String;

/// The write slot of a file.
#[derive(Debug)]
pub enum QState {
    /// A write transaction is open.
    Active(WriteTx),
    /// The request with this identifier is on its way back to the event loop,
    /// at once or after a delay; requests that arrive meanwhile must queue.
    NextRetry(InMsgId),
    /// Neither: the next request may try for the write lock.
    Empty,
}

/// The write slot of a file and the requests that wait for it, oldest first.
#[derive(Debug)]
pub struct WriteQueue {
    pub state: QState,
    pub queue: VecDeque<WtxReq>,
}

/// A write transaction taken out of its slot, and the request that is next.
#[derive(Debug)]
pub struct ActiveWithNext {
    pub active: WriteTx,
    pub next: Option<WtxReq>,
}

#[derive(Debug)]
struct FileTxs {
    read_txs: StrMap<ReadTx>,
    write_queue: WriteQueue,
}

/// The live transactions and pending write requests of all files.
#[derive(Debug)]
pub struct ActiveTxs {
    txs: StrMap<FileTxs>,
}

/// A transaction found in the registry.
#[derive(Debug)]
pub enum RW<'a> {
    Read(&'a ReadTx),
    Write(&'a WriteTx),
}

/// A transaction taken out of the registry.
#[derive(Debug)]
pub enum RWO {
    Read(ReadTx),
    Write(WriteTx),
}

/// A transaction taken out of the registry to be ended, and the request to
/// send back into the event loop because the write slot came free.
#[derive(Debug)]
pub struct Removed {
    pub tx: RWO,
    pub next: Option<InMsgWithId>,
}

/// A request to send back into the event loop.
#[derive(Debug)]
pub struct Repost {
    pub msg: InMsgWithId,
    /// How long to wait before sending, in milliseconds.
    pub delay_ms: u64,
}

/// What the registry holds for one file.
pub struct FileView {
    /// The read transactions, by identifier.
    pub reads: Map<Seq<char>, ReadTx>,
    pub state: QState,
    /// The requests that wait for the write slot, oldest first.
    pub queue: Seq<WtxReq>,
}

/// What the registry holds for a file it has not been asked about.
pub open spec fn untouched() -> FileView {
    FileView { reads: Map::empty(), state: QState::Empty, queue: Seq::empty() }
}

/// The oldest waiting request.
pub open spec fn head(queue: Seq<WtxReq>) -> Option<WtxReq> {
    if queue.len() > 0 {
        Some(queue[0])
    } else {
        None
    }
}

/// The queue without its oldest request.
pub open spec fn tail(queue: Seq<WtxReq>) -> Seq<WtxReq> {
    if queue.len() > 0 {
        queue.drop_first()
    } else {
        queue
    }
}

/// The state of a write slot that has just come free: the oldest waiting
/// request is on its way, or nothing is.
pub open spec fn next_state(queue: Seq<WtxReq>) -> QState {
    if queue.len() > 0 {
        QState::NextRetry(queue[0].id)
    } else {
        QState::Empty
    }
}

/// The transaction in a write slot has the identifier `id`.
pub open spec fn writer_is(state: QState, id: Seq<char>) -> bool {
    state matches QState::Active(w) && w.id@ == id
}

/// A write transaction in the slot was opened on the file `f`.
pub open spec fn writer_on(v: FileView, f: Seq<char>) -> bool {
    v.state matches QState::Active(w) ==> w.db_file.db_handle.file@ == f
}

/// Each read transaction is kept under its own identifier.
pub open spec fn own_ids(v: FileView) -> bool {
    forall|id: Seq<char>| v.reads.contains_key(id) ==> (#[trigger] v.reads[id]).id@ == id
}

/// The identifier of a transaction.
pub open spec fn rwo_id(tx: RWO) -> Seq<char> {
    match tx {
        RWO::Read(rt) => rt.id@,
        RWO::Write(wt) => wt.id@,
    }
}

/// A file holds the transaction `id`, as a reader or as its writer.
pub open spec fn view_holds(v: FileView, id: Seq<char>) -> bool {
    v.reads.contains_key(id) || writer_is(v.state, id)
}

impl WriteQueue {
    pub fn new() -> (q: WriteQueue)
        ensures
            q.state is Empty,
            q.queue@ == Seq::<WtxReq>::empty(),
    {
        WriteQueue { state: QState::Empty, queue: VecDeque::new() }
    }

    /// Takes the write transaction out of its slot, together with the oldest
    /// waiting request, which the slot from now on names as on its way. The
    /// caller ends the transaction and then sends the request.
    ///
    /// A slot that holds no transaction is left as it is, with its queue, and
    /// gives back nothing.
    pub fn take_active(&mut self) -> (r: Option<ActiveWithNext>)
        ensures
            match old(self).state {
                QState::Active(w) => {
                    &&& r == Some(ActiveWithNext { active: w, next: head(old(self).queue@) })
                    &&& final(self).queue@ == tail(old(self).queue@)
                    &&& final(self).state == next_state(old(self).queue@)
                },
                _ => {
                    &&& r is None
                    &&& final(self).queue@ == old(self).queue@
                    &&& final(self).state == old(self).state
                },
            },
    {
        match &self.state {
            QState::Active(_) => {},
            _ => {
                return None;
            },
        }
        let next = self.queue.pop_front();
        let mut state = match &next {
            Some(wtx_req) => QState::NextRetry(wtx_req.id.clone()),
            None => QState::Empty,
        };
        std::mem::swap(&mut self.state, &mut state);
        match state {
            QState::Active(owned) => Some(ActiveWithNext { active: owned, next }),
            _ => None,
        }
    }
}

impl FileTxs {
    spec fn view(&self) -> FileView {
        FileView {
            reads: self.read_txs.to_map(),
            state: self.write_queue.state,
            queue: self.write_queue.queue@,
        }
    }

    fn new() -> (ft: FileTxs)
        ensures
            ft.read_txs.wf(),
            ft@ == untouched(),
    {
        let ft = FileTxs { read_txs: StrMap::new(), write_queue: WriteQueue::new() };
        assert(ft.read_txs.to_map() =~= Map::empty());
        ft
    }
}

impl ActiveTxs {
    /// What the registry holds for the file `f`.
    pub closed spec fn file(&self, f: Seq<char>) -> FileView {
        match self.txs.spec_get(f) {
            Some(ft) => ft@,
            None => untouched(),
        }
    }

    /// The file `f` holds the transaction `id`.
    pub open spec fn holds(&self, f: Seq<char>, id: Seq<char>) -> bool {
        view_holds(self.file(f), id)
    }

    /// Some file holds the transaction `id`.
    pub open spec fn is_live(&self, id: Seq<char>) -> bool {
        exists|f: Seq<char>| self.holds(f, id)
    }

    /// The live transaction with the identifier `id`.
    pub open spec fn spec_find(&self, id: Seq<char>) -> Option<RWO> {
        if self.is_live(id) {
            let f = choose|f: Seq<char>| self.holds(f, id);
            if self.file(f).reads.contains_key(id) {
                Some(RWO::Read(self.file(f).reads[id]))
            } else {
                Some(RWO::Write(self.file(f).state->Active_0))
            }
        } else {
            None
        }
    }

    /// The transaction `tx` is live.
    pub open spec fn finds(&self, tx: RWO) -> bool {
        exists|id: Seq<char>| self.is_live(id) && self.spec_find(id) == Some(tx)
    }

    /// The invariant of the registry: a transaction is held once only, a read
    /// transaction under its own identifier, and a write transaction in the
    /// slot of the file it was opened on.
    pub closed spec fn wf(&self) -> bool {
        &&& self.txs.wf()
        &&& forall|i: int|
            0 <= i < self.txs.spec_len() ==> (#[trigger] self.txs.spec_vals()[i]).read_txs.wf()
        &&& forall|f: Seq<char>, g: Seq<char>, id: Seq<char>|
            #[trigger] self.holds(f, id) && #[trigger] self.holds(g, id) ==> f == g
        &&& forall|f: Seq<char>, id: Seq<char>|
            !(#[trigger] self.file(f).reads.contains_key(id) && writer_is(self.file(f).state, id))
        &&& forall|f: Seq<char>| writer_on(#[trigger] self.file(f), f)
        &&& forall|f: Seq<char>| own_ids(#[trigger] self.file(f))
    }

    pub fn new() -> (at: ActiveTxs)
        ensures
            at.wf(),
            forall|f: Seq<char>| #[trigger] at.file(f) == untouched(),
    {
        ActiveTxs { txs: StrMap::new() }
    }

    /// The place of the file `f` in the registry; a file not seen before gets
    /// one, which holds nothing.
    fn get_file_txs_mut(&mut self, f: &FileAbs) -> (i: usize)
        requires
            old(self).wf(),
        ensures
            final(self).wf(),
            forall|g: Seq<char>| #[trigger] final(self).file(g) == old(self).file(g),
            i < final(self).txs.spec_len(),
            final(self).txs.spec_keys()[i as int] == f@,
            final(self).txs.spec_get(f@) == Some(final(self).txs.spec_vals()[i as int]),
    {
        match self.txs.index_of(f) {
            Some(i) => {
                proof {
                    crate::strmap::lemma_position_unique(self.txs.spec_keys(), i as int);
                }
                i
            },
            None => {
                let i = self.txs.len();
                self.txs.insert(f.clone(), FileTxs::new());
                proof {
                    assert forall|g: Seq<char>| #[trigger] self.file(g) == old(self).file(g) by {
                        if g == f@ {
                            assert(!old(self).txs.contains(g));
                        }
                    }
                    crate::strmap::lemma_position_unique(self.txs.spec_keys(), i as int);
                    assert forall|f1: Seq<char>, g1: Seq<char>, id: Seq<char>|
                        #[trigger] self.holds(f1, id) && #[trigger] self.holds(
                            g1,
                            id,
                        ) implies f1 == g1 by {
                        assert(old(self).holds(f1, id) && old(self).holds(g1, id));
                    }
                    assert forall|f1: Seq<char>, id: Seq<char>|
                        !(#[trigger] self.file(f1).reads.contains_key(id) && writer_is(
                            self.file(f1).state,
                            id,
                        )) by {
                        assert(self.file(f1) == old(self).file(f1));
                    }
                    assert forall|f1: Seq<char>| writer_on(#[trigger] self.file(f1), f1) by {
                        assert(self.file(f1) == old(self).file(f1));
                    }
                    assert forall|f1: Seq<char>| own_ids(#[trigger] self.file(f1)) by {
                        assert(self.file(f1) == old(self).file(f1));
                    }
                }
                i
            },
        }
    }

    /// What the invariant says of the write slot of one file.
    pub proof fn lemma_writer_on(&self, f: Seq<char>)
        requires
            self.wf(),
        ensures
            writer_on(self.file(f), f),
            own_ids(self.file(f)),
    {
    }

    /// What the invariant says of one transaction that a file holds.
    pub proof fn lemma_held_once(&self, f: Seq<char>, id: Seq<char>)
        requires
            self.wf(),
            self.holds(f, id),
        ensures
            forall|g: Seq<char>| #[trigger] self.holds(g, id) ==> g == f,
            !(self.file(f).reads.contains_key(id) && writer_is(self.file(f).state, id)),
            self.spec_find(id) == if self.file(f).reads.contains_key(id) {
                Some(RWO::Read(self.file(f).reads[id]))
            } else {
                Some(RWO::Write(self.file(f).state->Active_0))
            },
    {
        let g = choose|g: Seq<char>| self.holds(g, id);
        assert(self.holds(g, id));
        assert(g == f);
    }

    /// The entry at place `i` holds the transaction `id`.
    spec fn held_at(&self, i: int, id: Seq<char>) -> bool {
        0 <= i < self.txs.spec_len() && view_holds(self.txs.spec_vals()[i]@, id)
    }

    /// A live transaction is held by an entry, and the other way round.
    proof fn lemma_live_at(&self, id: Seq<char>)
        requires
            self.txs.wf(),
        ensures
            self.is_live(id) <==> exists|i: int| self.held_at(i, id),
            forall|i: int|
                0 <= i < self.txs.spec_len() ==> #[trigger] self.file(self.txs.spec_keys()[i])
                    == self.txs.spec_vals()[i]@,
    {
        assert forall|i: int| 0 <= i < self.txs.spec_len() implies #[trigger] self.file(
            self.txs.spec_keys()[i],
        ) == self.txs.spec_vals()[i]@ by {
            crate::strmap::lemma_position_unique(self.txs.spec_keys(), i);
        }
        if self.is_live(id) {
            let f = choose|f: Seq<char>| self.holds(f, id);
            assert(self.txs.spec_get(f) is Some);
            let i = crate::strmap::position_of(self.txs.spec_keys(), f)->0;
            assert(self.held_at(i, id));
        }
        if exists|i: int| self.held_at(i, id) {
            let i = choose|i: int| self.held_at(i, id);
            assert(self.holds(self.txs.spec_keys()[i], id));
        }
    }

    /// Where the transaction `id` is held: the place of its file, and whether
    /// it is among the readers there.
    fn locate(&self, tx_id: &TxId) -> (found: Option<(usize, bool)>)
        requires
            self.wf(),
        ensures
            match found {
                Some((i, is_read)) => {
                    &&& i < self.txs.spec_len()
                    &&& self.held_at(i as int, tx_id@)
                    &&& is_read == self.txs.spec_vals()[i as int].read_txs.contains(tx_id@)
                },
                None => !self.is_live(tx_id@),
            },
    {
        let n = self.txs.len();
        let mut i: usize = 0;
        while i < n
            invariant
                i <= n,
                n == self.txs.spec_len(),
                self.wf(),
                forall|j: int| 0 <= j < i ==> !self.held_at(j, tx_id@),
            decreases n - i,
        {
            let ft = self.txs.val_at(i);
            if ft.read_txs.contains_key(tx_id) {
                return Some((i, true));
            }
            if let QState::Active(wt) = &ft.write_queue.state {
                if wt.id == *tx_id {
                    return Some((i, false));
                }
            }
            i += 1;
        }
        proof {
            self.lemma_live_at(tx_id@);
        }
        None
    }

    /// Whether some file holds the transaction `tx_id`.
    pub fn contains_tx(&self, tx_id: &TxId) -> (r: bool)
        requires
            self.wf(),
        ensures
            r == self.is_live(tx_id@),
    {
        let found = self.locate(tx_id);
        proof {
            self.lemma_live_at(tx_id@);
        }
        found.is_some()
    }

    /// The live transaction with the identifier `tx_id`, to run statements in.
    pub fn get_tx(&self, tx_id: TxId) -> (found: Option<RW<'_>>)
        requires
            self.wf(),
        ensures
            found_is(found, self.spec_find(tx_id@)),
            found matches Some(RW::Write(wt)) ==> wt.id@ == tx_id@,
            found matches Some(RW::Read(rt)) ==> rt.id@ == tx_id@,
    {
        match self.locate(&tx_id) {
            None => None,
            Some((i, is_read)) => {
                proof {
                    self.lemma_live_at(tx_id@);
                }
                let ghost f = self.txs.spec_keys()[i as int];
                let ft = self.txs.val_at(i);
                assert(self.file(f) == ft@);
                assert(self.holds(f, tx_id@));
                proof {
                    let g = choose|g: Seq<char>| self.holds(g, tx_id@);
                    assert(self.holds(g, tx_id@));
                    assert(g == f);
                    assert(!(self.file(f).reads.contains_key(tx_id@) && writer_is(
                        self.file(f).state,
                        tx_id@,
                    )));
                    self.lemma_writer_on(f);
                }
                if is_read {
                    let rt = ft.read_txs.get(&tx_id).unwrap();
                    Some(RW::Read(rt))
                } else {
                    match &ft.write_queue.state {
                        QState::Active(wt) => Some(RW::Write(wt)),
                        _ => None,
                    }
                }
            },
        }
    }

    /// After a change to the entry of `f` alone that brings in no transaction
    /// held elsewhere, the invariant holds again.
    proof fn lemma_wf_after(before: ActiveTxs, after: ActiveTxs, f: Seq<char>)
        requires
            before.wf(),
            after.txs.wf(),
            forall|i: int|
                0 <= i < after.txs.spec_len() ==> (#[trigger] after.txs.spec_vals()[i]).read_txs.wf(),
            forall|g: Seq<char>| g != f ==> #[trigger] after.file(g) == before.file(g),
            forall|id: Seq<char>| #[trigger]
                view_holds(after.file(f), id) ==> view_holds(before.file(f), id)
                    || !before.is_live(id),
            forall|id: Seq<char>|
                !(#[trigger] after.file(f).reads.contains_key(id) && writer_is(
                    after.file(f).state,
                    id,
                )),
            writer_on(after.file(f), f),
            own_ids(after.file(f)),
        ensures
            after.wf(),
    {
        assert forall|f1: Seq<char>| own_ids(#[trigger] after.file(f1)) by {
            if f1 != f {
                assert(after.file(f1) == before.file(f1));
                assert(own_ids(before.file(f1)));
            }
        }
        assert forall|f1: Seq<char>, g1: Seq<char>, id: Seq<char>|
            #[trigger] after.holds(f1, id) && #[trigger] after.holds(g1, id) implies f1 == g1 by {
            if f1 != f {
                assert(before.holds(f1, id));
            }
            if g1 != f {
                assert(before.holds(g1, id));
            }
            if f1 == f && g1 != f {
                assert(view_holds(after.file(f), id));
                if view_holds(before.file(f), id) {
                    assert(before.holds(f, id));
                }
            }
            if g1 == f && f1 != f {
                assert(view_holds(after.file(f), id));
                if view_holds(before.file(f), id) {
                    assert(before.holds(f, id));
                }
            }
        }
        assert forall|f1: Seq<char>, id: Seq<char>|
            !(#[trigger] after.file(f1).reads.contains_key(id) && writer_is(
                after.file(f1).state,
                id,
            )) by {
            if f1 != f {
                assert(after.file(f1) == before.file(f1));
                assert(!(before.file(f1).reads.contains_key(id) && writer_is(
                    before.file(f1).state,
                    id,
                )));
            }
        }
        assert forall|f1: Seq<char>| writer_on(#[trigger] after.file(f1), f1) by {
            if f1 != f {
                assert(after.file(f1) == before.file(f1));
                assert(writer_on(before.file(f1), f1));
            }
        }
    }

    /// The state of the write slot of `f`.
    pub fn wr_qstate(&mut self, f: &FileAbs) -> (state: &QState)
        requires
            old(self).wf(),
        ensures
            *state == old(self).file(f@).state,
            final(self).wf(),
            forall|g: Seq<char>| #[trigger] final(self).file(g) == old(self).file(g),
    {
        let i = self.get_file_txs_mut(f);
        assert(self.file(f@) == self.txs.spec_vals()[i as int]@);
        &self.txs.val_at(i).write_queue.state
    }

    /// Puts a request at the end of the queue for the write slot of `f`.
    pub fn wr_queue(&mut self, f: &FileAbs, wtx_req: WtxReq)
        requires
            old(self).wf(),
        ensures
            final(self).wf(),
            final(self).file(f@) == (FileView {
                queue: old(self).file(f@).queue.push(wtx_req),
                ..old(self).file(f@)
            }),
            forall|g: Seq<char>| g != f@ ==> #[trigger] final(self).file(g) == old(self).file(g),
    {
        let i = self.get_file_txs_mut(f);
        let ghost mid = *self;
        let ft = self.txs.val_at_mut(i);
        ft.write_queue.queue.push_back(wtx_req);
        proof {
            Self::lemma_entry_changed(mid, *self, i as int);
            mid.lemma_writer_on(f@);
            assert(own_ids(self.file(f@)));
            Self::lemma_wf_after(mid, *self, f@);
        }
    }

    /// What a change of the entry at place `i` alone does to the files.
    proof fn lemma_entry_changed(before: ActiveTxs, after: ActiveTxs, i: int)
        requires
            before.txs.wf(),
            after.txs.wf(),
            0 <= i < before.txs.spec_len(),
            after.txs.spec_keys() == before.txs.spec_keys(),
            after.txs.spec_vals() == before.txs.spec_vals().update(
                i,
                after.txs.spec_vals()[i],
            ),
        ensures
            after.file(before.txs.spec_keys()[i]) == after.txs.spec_vals()[i]@,
            before.file(before.txs.spec_keys()[i]) == before.txs.spec_vals()[i]@,
            forall|g: Seq<char>|
                g != before.txs.spec_keys()[i] ==> #[trigger] after.file(g) == before.file(g),
            forall|j: int|
                0 <= j < after.txs.spec_len() && j != i ==> #[trigger] after.txs.spec_vals()[j]
                    == before.txs.spec_vals()[j],
    {
        crate::strmap::lemma_position_unique(before.txs.spec_keys(), i);
        crate::strmap::lemma_update_value(
            before.txs.spec_keys(),
            before.txs.spec_vals(),
            i,
            after.txs.spec_vals()[i],
        );
    }

    /// Puts a write transaction into the free slot of the file it was opened on.
    pub fn wr_active(&mut self, f: &FileAbs, wtx: WriteTx)
        requires
            old(self).wf(),
            !(old(self).file(f@).state is Active),
            !old(self).is_live(wtx.id@),
            wtx.db_file.db_handle.file@ == f@,
        ensures
            final(self).wf(),
            final(self).file(f@) == (FileView {
                state: QState::Active(wtx),
                ..old(self).file(f@)
            }),
            forall|g: Seq<char>| g != f@ ==> #[trigger] final(self).file(g) == old(self).file(g),
    {
        let i = self.get_file_txs_mut(f);
        let ghost mid = *self;
        let ft = self.txs.val_at_mut(i);
        ft.write_queue.state = QState::Active(wtx);
        proof {
            Self::lemma_entry_changed(mid, *self, i as int);
            assert forall|id: Seq<char>|
                !(#[trigger] self.file(f@).reads.contains_key(id) && writer_is(
                    self.file(f@).state,
                    id,
                )) by {
                if self.file(f@).reads.contains_key(id) && id == wtx.id@ {
                    assert(mid.holds(f@, id));
                    assert(old(self).holds(f@, id));
                }
            }
            assert forall|id: Seq<char>| #[trigger] view_holds(self.file(f@), id) implies view_holds(
                mid.file(f@),
                id,
            ) || !mid.is_live(id) by {
                if !self.file(f@).reads.contains_key(id) {
                    assert(id == wtx.id@);
                    if mid.is_live(id) {
                        let g = choose|g: Seq<char>| mid.holds(g, id);
                        assert(old(self).holds(g, id));
                    }
                }
            }
            mid.lemma_writer_on(f@);
            assert(own_ids(self.file(f@)));
            Self::lemma_wf_after(mid, *self, f@);
        }
    }

    /// Notes that a request is on its way back to the event loop, and says
    /// how to send it: after `t` milliseconds.
    pub fn wr_retry(&mut self, f: &FileAbs, wtx_req: WtxReq, t: u64) -> (repost: Repost)
        requires
            old(self).wf(),
            match old(self).file(f@).state {
                QState::Empty => true,
                QState::NextRetry(id) => id@ == wtx_req.id@,
                QState::Active(_) => false,
            },
        ensures
            final(self).wf(),
            final(self).file(f@) == (FileView {
                state: QState::NextRetry(wtx_req.id),
                ..old(self).file(f@)
            }),
            forall|g: Seq<char>| g != f@ ==> #[trigger] final(self).file(g) == old(self).file(g),
            repost.msg == as_in_msg(wtx_req),
            repost.delay_ms == t,
    {
        let i = self.get_file_txs_mut(f);
        let ghost mid = *self;
        let ft = self.txs.val_at_mut(i);
        ft.write_queue.state = QState::NextRetry(wtx_req.id.clone());
        proof {
            Self::lemma_entry_changed(mid, *self, i as int);
            assert forall|id: Seq<char>| #[trigger] view_holds(self.file(f@), id) implies view_holds(
                mid.file(f@),
                id,
            ) || !mid.is_live(id) by {}
            assert forall|id: Seq<char>|
                !(#[trigger] self.file(f@).reads.contains_key(id) && writer_is(
                    self.file(f@).state,
                    id,
                )) by {}
            mid.lemma_writer_on(f@);
            assert(own_ids(self.file(f@)));
            Self::lemma_wf_after(mid, *self, f@);
        }
        Repost { msg: InMsgWithId::from(wtx_req), delay_ms: t }
    }

    /// Gives up on a request that could not get the write lock: the oldest
    /// waiting request, if there is one, is on its way from now on and is
    /// returned to be sent; else the slot is empty.
    pub fn wr_fail(&mut self, f: &FileAbs, wtx_req: WtxReq) -> (next: Option<InMsgWithId>)
        requires
            old(self).wf(),
            !(old(self).file(f@).state is Active),
        ensures
            final(self).wf(),
            final(self).file(f@) == (FileView {
                state: next_state(old(self).file(f@).queue),
                queue: tail(old(self).file(f@).queue),
                ..old(self).file(f@)
            }),
            forall|g: Seq<char>| g != f@ ==> #[trigger] final(self).file(g) == old(self).file(g),
            next == match head(old(self).file(f@).queue) {
                Some(h) => Some(as_in_msg(h)),
                None => None,
            },
    {
        let i = self.get_file_txs_mut(f);
        let ghost mid = *self;
        let ft = self.txs.val_at_mut(i);
        let next = match ft.write_queue.queue.pop_front() {
            Some(wtx_req) => {
                ft.write_queue.state = QState::NextRetry(wtx_req.id.clone());
                Some(InMsgWithId::from(wtx_req))
            },
            None => {
                ft.write_queue.state = QState::Empty;
                None
            },
        };
        proof {
            Self::lemma_entry_changed(mid, *self, i as int);
            assert(self.file(f@).queue =~= tail(mid.file(f@).queue));
            assert forall|id: Seq<char>| #[trigger] view_holds(self.file(f@), id) implies view_holds(
                mid.file(f@),
                id,
            ) || !mid.is_live(id) by {}
            assert forall|id: Seq<char>|
                !(#[trigger] self.file(f@).reads.contains_key(id) && writer_is(
                    self.file(f@).state,
                    id,
                )) by {}
            mid.lemma_writer_on(f@);
            assert(own_ids(self.file(f@)));
            Self::lemma_wf_after(mid, *self, f@);
        }
        next
    }

    /// Registers a read transaction under a new identifier.
    pub fn add_read(&mut self, f: &FileAbs, tx_id: TxId, read_tx: ReadTx)
        requires
            old(self).wf(),
            !old(self).is_live(tx_id@),
            tx_id@ == read_tx.id@,
        ensures
            final(self).wf(),
            final(self).file(f@) == (FileView {
                reads: old(self).file(f@).reads.insert(tx_id@, read_tx),
                ..old(self).file(f@)
            }),
            forall|g: Seq<char>| g != f@ ==> #[trigger] final(self).file(g) == old(self).file(g),
    {
        let i = self.get_file_txs_mut(f);
        let ghost mid = *self;
        let ft = self.txs.val_at_mut(i);
        ft.read_txs.insert(tx_id, read_tx);
        proof {
            Self::lemma_entry_changed(mid, *self, i as int);
            assert forall|id: Seq<char>| #[trigger] view_holds(self.file(f@), id) implies view_holds(
                mid.file(f@),
                id,
            ) || !mid.is_live(id) by {
                if id == tx_id@ && mid.is_live(id) {
                    let g = choose|g: Seq<char>| mid.holds(g, id);
                    assert(old(self).holds(g, id));
                }
            }
            assert forall|id: Seq<char>|
                !(#[trigger] self.file(f@).reads.contains_key(id) && writer_is(
                    self.file(f@).state,
                    id,
                )) by {
                if writer_is(self.file(f@).state, id) {
                    assert(mid.holds(f@, id));
                    assert(old(self).holds(f@, id));
                    assert(!mid.file(f@).reads.contains_key(id));
                }
            }
            mid.lemma_writer_on(f@);
            assert(own_ids(self.file(f@)));
            Self::lemma_wf_after(mid, *self, f@);
        }
    }

    /// The transaction `tx` is the one that the entry `ft` holds under `id`.
    spec fn entry_tx(ft: FileTxs, id: Seq<char>, tx: RWO) -> bool {
        if ft.read_txs.contains(id) {
            tx == RWO::Read(ft.read_txs.spec_get(id)->0)
        } else {
            tx == RWO::Write(ft.write_queue.state->Active_0)
        }
    }

    /// Takes all transactions out of one entry.
    fn drain_entry(ft: FileTxs, all: &mut Vec<RWO>)
        requires
            ft.read_txs.wf(),
            forall|id: Seq<char>|
                !(#[trigger] ft.read_txs.contains(id) && writer_is(ft.write_queue.state, id)),
            own_ids(ft@),
        ensures
            forall|j: int| 0 <= j < old(all)@.len() ==> final(all)@[j] == old(all)@[j],
            final(all)@.len() >= old(all)@.len(),
            forall|j: int|
                old(all)@.len() <= j < final(all)@.len() ==> view_holds(
                    ft@,
                    rwo_id(#[trigger] final(all)@[j]),
                ),
            forall|j1: int, j2: int|
                old(all)@.len() <= j1 < j2 < final(all)@.len() ==> rwo_id(
                    #[trigger] final(all)@[j1],
                ) != rwo_id(#[trigger] final(all)@[j2]),
            forall|id: Seq<char>|
                view_holds(ft@, id) ==> exists|j: int|
                    0 <= j < final(all)@.len() && Self::entry_tx(ft, id, #[trigger] final(all)@[j]),
            forall|j: int|
                old(all)@.len() <= j < final(all)@.len() ==> Self::held_by(
                    ft,
                    #[trigger] final(all)@[j],
                ),
    {
        let ghost start = all@;
        let FileTxs { read_txs, write_queue } = ft;
        let mut read_txs = read_txs;
        let ghost keys = read_txs.spec_keys();
        let ghost vals = read_txs.spec_vals();
        while read_txs.len() > 0
            invariant
                read_txs.wf(),
                ft.read_txs.wf(),
                keys == ft.read_txs.spec_keys(),
                vals == ft.read_txs.spec_vals(),
                read_txs.spec_len() <= keys.len(),
                read_txs.spec_keys() == keys.take(read_txs.spec_len() as int),
                read_txs.spec_vals() == vals.take(read_txs.spec_len() as int),
                all@.len() == start.len() + keys.len() - read_txs.spec_len(),
                forall|j: int| 0 <= j < start.len() ==> all@[j] == start[j],
                forall|p: int|
                    read_txs.spec_len() <= p < keys.len() ==> all@[start.len() + keys.len() - 1
                        - p] == RWO::Read(vals[p]),
            decreases read_txs.spec_len(),
        {
            let m = read_txs.len();
            let ghost before = read_txs;
            let (_, rt) = read_txs.remove_at(m - 1);
            all.push(RWO::Read(rt));
            proof {
                assert(before.spec_keys().remove(m - 1) =~= keys.take(m - 1));
                assert(before.spec_vals().remove(m - 1) =~= vals.take(m - 1));
            }
        }
        let ghost mid = all@;
        match write_queue.state {
            QState::Active(w) => {
                all.push(RWO::Write(w));
            },
            _ => {},
        }
        proof {
            assert forall|id: Seq<char>| view_holds(ft@, id) implies exists|j: int|
                0 <= j < all@.len() && Self::entry_tx(ft, id, #[trigger] all@[j]) by {
                if ft.read_txs.contains(id) {
                    let p = crate::strmap::position_of(keys, id)->0;
                    let j = start.len() + keys.len() - 1 - p;
                    assert(mid[j] == RWO::Read(vals[p]));
                    assert(all@[j] == mid[j]);
                    assert(Self::entry_tx(ft, id, all@[j]));
                } else {
                    let j = mid.len() as int;
                    assert(Self::entry_tx(ft, id, all@[j]));
                }
            }
            assert forall|j: int| start.len() <= j < all@.len() implies Self::held_by(
                ft,
                #[trigger] all@[j],
            ) && view_holds(ft@, rwo_id(all@[j])) && (j < mid.len() ==> rwo_id(all@[j]) == keys[
                start.len() + keys.len() - 1 - j]) && (j >= mid.len() ==> !keys.contains(
                rwo_id(all@[j]),
            )) by {
                if j < mid.len() {
                    let p = start.len() + keys.len() - 1 - j;
                    assert(mid[j] == RWO::Read(vals[p]));
                    assert(all@[j] == mid[j]);
                    let id = keys[p];
                    crate::strmap::lemma_position_unique(keys, p);
                    assert(ft.read_txs.contains(id));
                    assert(ft@.reads.contains_key(id));
                    assert(ft@.reads[id] == vals[p]);
                    assert(vals[p].id@ == id);
                    assert(view_holds(ft@, id) && Self::entry_tx(ft, id, all@[j]));
                } else {
                    let id = ft.write_queue.state->Active_0.id@;
                    assert(view_holds(ft@, id));
                    assert(!(ft.read_txs.contains(id) && writer_is(ft.write_queue.state, id)));
                }
            }
            assert forall|j1: int, j2: int| start.len() <= j1 < j2 < all@.len() implies rwo_id(
                #[trigger] all@[j1],
            ) != rwo_id(#[trigger] all@[j2]) by {
                assert(Self::held_by(ft, all@[j1]));
                assert(Self::held_by(ft, all@[j2]));
                if j2 < mid.len() {
                    let p1 = start.len() + keys.len() - 1 - j1;
                    let p2 = start.len() + keys.len() - 1 - j2;
                    assert(keys[p1] != keys[p2]);
                } else {
                    let p1 = start.len() + keys.len() - 1 - j1;
                    assert(keys.contains(keys[p1]));
                }
            }
        }
    }

    /// Takes every live transaction out, for the event loop's end: what comes
    /// back is all that was live, each once, and each is to be closed.
    pub fn close_all(self) -> (all: Vec<RWO>)
        requires
            self.wf(),
        ensures
            forall|id: Seq<char>|
                self.is_live(id) ==> exists|j: int|
                    0 <= j < all@.len() && self.spec_find(id) == Some(#[trigger] all@[j]),
            forall|j: int| 0 <= j < all@.len() ==> self.finds(#[trigger] all@[j]),
            forall|j1: int, j2: int|
                0 <= j1 < j2 < all@.len() ==> rwo_id(#[trigger] all@[j1]) != rwo_id(
                    #[trigger] all@[j2],
                ),
    {
        let ghost keys = self.txs.spec_keys();
        let ghost vals = self.txs.spec_vals();
        let ghost n = keys.len() as int;
        proof {
            assert forall|i: int, id: Seq<char>| 0 <= i < n implies !(#[trigger] vals[i].read_txs.contains(
                id,
            ) && writer_is(vals[i].write_queue.state, id)) by {
                self.lemma_live_at(id);
                let f = keys[i];
                assert(self.file(f) == vals[i]@);
                assert(!(self.file(f).reads.contains_key(id) && writer_is(
                    self.file(f).state,
                    id,
                )));
            }
            assert forall|i: int| 0 <= i < n implies own_ids(#[trigger] vals[i]@) by {
                self.lemma_live_at(Seq::empty());
                self.lemma_writer_on(keys[i]);
                assert(self.file(keys[i]) == vals[i]@);
            }
            assert forall|i1: int, i2: int, id: Seq<char>|
                0 <= i1 < n && 0 <= i2 < n && #[trigger] view_holds(vals[i1]@, id)
                    && #[trigger] view_holds(vals[i2]@, id) implies i1 == i2 by {
                self.lemma_live_at(id);
                assert(self.file(keys[i1]) == vals[i1]@);
                assert(self.file(keys[i2]) == vals[i2]@);
                assert(self.holds(keys[i1], id) && self.holds(keys[i2], id));
            }
        }
        let mut txs = self.txs;
        let mut all: Vec<RWO> = Vec::new();
        while txs.len() > 0
            invariant
                txs.wf(),
                n == keys.len(),
                keys.len() == vals.len(),
                txs.spec_len() <= n,
                txs.spec_keys() == keys.take(txs.spec_len() as int),
                txs.spec_vals() == vals.take(txs.spec_len() as int),
                forall|i: int| 0 <= i < n ==> (#[trigger] vals[i]).read_txs.wf(),
                forall|i: int, id: Seq<char>|
                    0 <= i < n ==> !(#[trigger] vals[i].read_txs.contains(id) && writer_is(
                        vals[i].write_queue.state,
                        id,
                    )),
                forall|i: int, id: Seq<char>|
                    txs.spec_len() <= i < n && #[trigger] view_holds(vals[i]@, id) ==> exists|
                        j: int,
                    |
                        0 <= j < all@.len() && Self::entry_tx(vals[i], id, #[trigger] all@[j]),
                forall|j: int| 0 <= j < all@.len() ==> Self::came_from(vals, #[trigger] all@[j]),
                forall|i: int| 0 <= i < n ==> own_ids(#[trigger] vals[i]@),
                forall|i1: int, i2: int, id: Seq<char>|
                    0 <= i1 < n && 0 <= i2 < n && #[trigger] view_holds(vals[i1]@, id)
                        && #[trigger] view_holds(vals[i2]@, id) ==> i1 == i2,
                forall|j: int|
                    0 <= j < all@.len() ==> Self::id_held_from(
                        vals,
                        txs.spec_len() as int,
                        rwo_id(#[trigger] all@[j]),
                    ),
                forall|j1: int, j2: int|
                    0 <= j1 < j2 < all@.len() ==> rwo_id(#[trigger] all@[j1]) != rwo_id(
                        #[trigger] all@[j2],
                    ),
            decreases txs.spec_len(),
        {
            let m = txs.len();
            let ghost before = txs;
            let ghost seen = all@;
            let (_, ft) = txs.remove_at(m - 1);
            proof {
                assert(before.spec_keys().remove(m - 1) =~= keys.take(m - 1));
                assert(before.spec_vals().remove(m - 1) =~= vals.take(m - 1));
                assert(ft == vals[m - 1]);
            }
            Self::drain_entry(ft, &mut all);
            proof {
                assert forall|j: int| 0 <= j < all@.len() implies Self::id_held_from(
                    vals,
                    m - 1,
                    rwo_id(#[trigger] all@[j]),
                ) by {
                    if j < seen.len() {
                        assert(all@[j] == seen[j]);
                        assert(Self::id_held_from(vals, m as int, rwo_id(seen[j])));
                        let i = choose|i: int|
                            m <= i < vals.len() && view_holds(vals[i]@, rwo_id(seen[j]));
                        assert(m - 1 <= i < vals.len() && view_holds(vals[i]@, rwo_id(all@[j])));
                    } else {
                        assert(view_holds(vals[m - 1]@, rwo_id(all@[j])));
                    }
                }
                assert forall|j1: int, j2: int| 0 <= j1 < j2 < all@.len() implies rwo_id(
                    #[trigger] all@[j1],
                ) != rwo_id(#[trigger] all@[j2]) by {
                    if j2 < seen.len() {
                        assert(all@[j1] == seen[j1] && all@[j2] == seen[j2]);
                    } else if j1 < seen.len() {
                        assert(all@[j1] == seen[j1]);
                        assert(Self::id_held_from(vals, m as int, rwo_id(seen[j1])));
                        let i = choose|i: int|
                            m <= i < vals.len() && view_holds(vals[i]@, rwo_id(seen[j1]));
                        assert(view_holds(vals[m - 1]@, rwo_id(all@[j2])));
                        if rwo_id(all@[j1]) == rwo_id(all@[j2]) {
                            assert(view_holds(vals[i]@, rwo_id(all@[j2])));
                            assert(i == m - 1);
                        }
                    }
                }
                assert forall|i: int, id: Seq<char>|
                    m - 1 <= i < n && #[trigger] view_holds(vals[i]@, id) implies exists|j: int|
                    0 <= j < all@.len() && Self::entry_tx(vals[i], id, #[trigger] all@[j]) by {
                    if i >= m {
                        let j = choose|j: int|
                            0 <= j < seen.len() && Self::entry_tx(vals[i], id, #[trigger] seen[j]);
                        assert(all@[j] == seen[j]);
                    }
                }
                assert forall|j: int| 0 <= j < all@.len() implies Self::came_from(
                    vals,
                    #[trigger] all@[j],
                ) by {
                    if j < seen.len() {
                        assert(all@[j] == seen[j]);
                        assert(Self::came_from(vals, seen[j]));
                    } else {
                        assert(Self::held_by(ft, all@[j]));
                        let id = choose|id: Seq<char>|
                            view_holds(ft@, id) && Self::entry_tx(ft, id, all@[j]);
                        assert(Self::entry_tx(vals[m - 1], id, all@[j]));
                    }
                }
            }
        }
        proof {
            assert forall|id: Seq<char>| self.is_live(id) implies exists|j: int|
                0 <= j < all@.len() && self.spec_find(id) == Some(#[trigger] all@[j]) by {
                self.lemma_live_at(id);
                let i = choose|i: int| self.held_at(i, id);
                assert(view_holds(vals[i]@, id));
                let j = choose|j: int|
                    0 <= j < all@.len() && Self::entry_tx(vals[i], id, #[trigger] all@[j]);
                self.lemma_entry_is_found(i, id, all@[j]);
            }
            assert forall|j: int| 0 <= j < all@.len() implies self.finds(#[trigger] all@[j]) by {
                assert(Self::came_from(vals, all@[j]));
                let (i, id) = choose|i: int, id: Seq<char>|
                    0 <= i < vals.len() && view_holds(vals[i]@, id) && #[trigger] Self::entry_tx(
                        vals[i],
                        id,
                        all@[j],
                    );
                self.lemma_entry_is_found(i, id, all@[j]);
            }
        }
        all
    }

    /// The entry `ft` holds the transaction `tx`.
    spec fn held_by(ft: FileTxs, tx: RWO) -> bool {
        exists|id: Seq<char>| view_holds(ft@, id) && Self::entry_tx(ft, id, tx)
    }

    /// Some entry of `vals` from place `m` on holds the transaction `id`.
    spec fn id_held_from(vals: Seq<FileTxs>, m: int, id: Seq<char>) -> bool {
        exists|i: int| m <= i < vals.len() && view_holds(vals[i]@, id)
    }

    /// Some entry of `vals` holds the transaction `tx`.
    spec fn came_from(vals: Seq<FileTxs>, tx: RWO) -> bool {
        exists|i: int, id: Seq<char>|
            0 <= i < vals.len() && view_holds(vals[i]@, id) && #[trigger] Self::entry_tx(
                vals[i],
                id,
                tx,
            )
    }

    /// The transaction that an entry holds under `id` is the one found under `id`.
    proof fn lemma_entry_is_found(&self, i: int, id: Seq<char>, tx: RWO)
        requires
            self.wf(),
            self.held_at(i, id),
            Self::entry_tx(self.txs.spec_vals()[i], id, tx),
        ensures
            self.is_live(id),
            self.spec_find(id) == Some(tx),
    {
        self.lemma_live_at(id);
        let f = self.txs.spec_keys()[i];
        assert(self.file(f) == self.txs.spec_vals()[i]@);
        assert(self.holds(f, id));
        self.lemma_held_once(f, id);
    }

    /// Takes a transaction out of the registry, so that its commit or
    /// rollback can run unseen. Where it held a write slot, the slot goes to
    /// the oldest waiting request, which is returned to be sent back into the
    /// event loop once the transaction has ended.
    pub fn remove_tx(&mut self, tx_id: TxId) -> (removed: Option<Removed>)
        requires
            old(self).wf(),
        ensures
            final(self).wf(),
            !final(self).is_live(tx_id@),
            removed is Some <==> old(self).is_live(tx_id@),
            removed matches Some(r) ==> old(self).spec_find(tx_id@) == Some(r.tx),
            removed is None ==> forall|g: Seq<char>| #[trigger]
                final(self).file(g) == old(self).file(g),
            removed matches Some(r) ==> exists|f: Seq<char>|
                {
                    &&& #[trigger] old(self).holds(f, tx_id@)
                    &&& forall|g: Seq<char>|
                        g != f ==> #[trigger] final(self).file(g) == old(self).file(g)
                    &&& removed_from(old(self).file(f), final(self).file(f), tx_id@, r)
                },
    {
        match self.locate(&tx_id) {
            None => None,
            Some((i, is_read)) => {
                proof {
                    self.lemma_live_at(tx_id@);
                }
                let ghost f = self.txs.spec_keys()[i as int];
                let ghost mid = *self;
                assert(mid.holds(f, tx_id@));
                let ft = self.txs.val_at_mut(i);
                let removed = if is_read {
                    let rt = ft.read_txs.remove(&tx_id).unwrap();
                    Removed { tx: RWO::Read(rt), next: None }
                } else {
                    let ActiveWithNext { active, next } = ft.write_queue.take_active().unwrap();
                    let next = match next {
                        Some(wtx_req) => Some(InMsgWithId::from(wtx_req)),
                        None => None,
                    };
                    Removed { tx: RWO::Write(active), next }
                };
                proof {
                    Self::lemma_entry_changed(mid, *self, i as int);
                    assert forall|id: Seq<char>| #[trigger]
                        view_holds(self.file(f), id) implies view_holds(mid.file(f), id)
                        || !mid.is_live(id) by {}
                    assert forall|id: Seq<char>|
                        !(#[trigger] self.file(f).reads.contains_key(id) && writer_is(
                            self.file(f).state,
                            id,
                        )) by {
                        assert(!(mid.file(f).reads.contains_key(id) && writer_is(
                            mid.file(f).state,
                            id,
                        )));
                    }
                    mid.lemma_writer_on(f);
                    assert(own_ids(self.file(f))) by {
                        assert forall|id: Seq<char>| self.file(f).reads.contains_key(id) implies (
                        #[trigger] self.file(f).reads[id]).id@ == id by {
                            assert(mid.file(f).reads.contains_key(id));
                            assert(self.file(f).reads[id] == mid.file(f).reads[id]);
                        }
                    }
                    Self::lemma_wf_after(mid, *self, f);
                    assert(!(mid.file(f).reads.contains_key(tx_id@) && writer_is(
                        mid.file(f).state,
                        tx_id@,
                    )));
                    assert(mid.file(f).reads.contains_key(tx_id@) == is_read);
                    if is_read {
                        assert(self.file(f).reads =~= mid.file(f).reads.remove(tx_id@));
                        assert(self.file(f).state == mid.file(f).state);
                    } else {
                        assert(self.file(f).reads == mid.file(f).reads);
                        assert(!(self.file(f).state is Active));
                    }
                    assert(!view_holds(self.file(f), tx_id@));
                    if self.is_live(tx_id@) {
                        let g = choose|g: Seq<char>| self.holds(g, tx_id@);
                        assert(g != f);
                        assert(mid.holds(g, tx_id@));
                    }
                    assert(removed_from(mid.file(f), self.file(f), tx_id@, removed));
                    mid.lemma_held_once(f, tx_id@);
                }
                Some(removed)
            },
        }
    }
}

/// At most one write transaction is registered for a file: two slots that
/// hold write transactions opened on the same file are one slot, and hold
/// the same transaction.
pub proof fn law_one_writer_per_file(
    at: ActiveTxs,
    f: Seq<char>,
    g: Seq<char>,
    w1: WriteTx,
    w2: WriteTx,
)
    requires
        at.wf(),
        at.file(f).state == QState::Active(w1),
        at.file(g).state == QState::Active(w2),
        w1.db_file.db_handle.file@ == w2.db_file.db_handle.file@,
    ensures
        f == g,
        w1 == w2,
{
    at.lemma_writer_on(f);
    at.lemma_writer_on(g);
}

/// The write transaction in the slot of a file is live, is found under its
/// identifier, and was opened on that file.
pub proof fn law_active_is_registered(at: ActiveTxs, f: Seq<char>, w: WriteTx)
    requires
        at.wf(),
        at.file(f).state == QState::Active(w),
    ensures
        at.is_live(w.id@),
        at.spec_find(w.id@) == Some(RWO::Write(w)),
        w.db_file.db_handle.file@ == f,
{
    at.lemma_writer_on(f);
    assert(at.holds(f, w.id@));
    at.lemma_held_once(f, w.id@);
}

/// While a request for the write slot of a file is on its way back, no write
/// transaction opened on that file is registered anywhere.
pub proof fn law_no_writer_while_retrying(at: ActiveTxs, f: Seq<char>, g: Seq<char>, w: WriteTx)
    requires
        at.wf(),
        at.file(f).state is NextRetry,
        at.file(g).state == QState::Active(w),
    ensures
        w.db_file.db_handle.file@ != f,
{
    at.lemma_writer_on(g);
}

/// A transaction is held in one place only: by one file, and there either
/// among the readers or in the write slot.
pub proof fn law_tx_held_once(at: ActiveTxs, f: Seq<char>, g: Seq<char>, id: Seq<char>)
    requires
        at.wf(),
        at.holds(f, id),
        at.holds(g, id),
    ensures
        f == g,
        at.file(f).reads.contains_key(id) != writer_is(at.file(f).state, id),
{
    at.lemma_held_once(f, id);
    at.lemma_held_once(g, id);
}

/// The transaction found under an identifier bears that identifier.
pub proof fn law_found_bears_id(at: ActiveTxs, id: Seq<char>)
    requires
        at.wf(),
        at.is_live(id),
    ensures
        at.spec_find(id) matches Some(tx) && rwo_id(tx) == id,
{
    let f = choose|f: Seq<char>| at.holds(f, id);
    at.lemma_held_once(f, id);
    at.lemma_writer_on(f);
}

/// A transaction is live from the step that registers it: after a read
/// transaction joins the readers of a file, or a write transaction takes a
/// slot, the registry holds it.
pub proof fn law_live_once_registered(at: ActiveTxs, f: Seq<char>, id: Seq<char>)
    requires
        at.file(f).reads.contains_key(id) || writer_is(at.file(f).state, id),
    ensures
        at.is_live(id),
{
    assert(at.holds(f, id));
}

/// A transaction found is the one that the registry holds.
pub open spec fn found_is(found: Option<RW>, held: Option<RWO>) -> bool {
    match found {
        Some(RW::Read(rt)) => held == Some(RWO::Read(*rt)),
        Some(RW::Write(wt)) => held == Some(RWO::Write(*wt)),
        None => held is None,
    }
}

/// Taking the transaction `id` out of a file that holds it: a reader leaves
/// the readers and nothing else changes; the writer leaves its slot to the
/// oldest waiting request, which comes back as the request to send.
pub open spec fn removed_from(
    before: FileView,
    after: FileView,
    id: Seq<char>,
    r: Removed,
) -> bool {
    if before.reads.contains_key(id) {
        &&& r.tx == RWO::Read(before.reads[id])
        &&& r.next is None
        &&& after == (FileView { reads: before.reads.remove(id), ..before })
    } else {
        &&& before.state matches QState::Active(w)
        &&& w.id@ == id
        &&& r.tx == RWO::Write(w)
        &&& r.next == match head(before.queue) {
            Some(h) => Some(as_in_msg(h)),
            None => None,
        }
        &&& after == (FileView {
            state: next_state(before.queue),
            queue: tail(before.queue),
            ..before
        })
    }
}

} // verus!

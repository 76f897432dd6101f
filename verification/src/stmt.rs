//! Prepared statements: the values that can be bound and read, the rules for
//! binding data to placeholders, and the result set that a run produces.

use vstd::prelude::*;
use crate::db::DbHandle;
use crate::err::{ReturnStatus, is_known_cint, status_with_msg, to_return_status_cint_db_err};
use crate::errmap::{PrimaryRC, primary_code, spec_get_primary};
use crate::placeholder::{
    PlaceholderMeta, PlaceholderTypes, get_placeholder_meta, meta_of, stands_at, well_prefixed,
};
use crate::strmap::StrMap;
use crate::text::{
    debug_list, decimal, spec_decimal, starts_with, text_debug_list, text_lowercase, text_trim,
    to_lowercase, trim,
};

verus! {

/// A cell of a row, or a value to bind. There is no boolean: the integers 0
/// and 1 stand for it.
#[derive(Debug, Clone, PartialEq)]
pub enum Val {
    I64(i64),
    /// A double, held as the 64 bits of its IEEE 754 form.
    F64(u64),
    String(String),
    Null,
    Blob(Vec<u8>),
}

/// Data for index placeholders: the value for position `i + 1` at `i`.
pub type IndexVal = Vec<Val>;

/// Data for key placeholders, by key without prefix.
#[derive(Debug)]
pub struct KeyVal {
    pub data: StrMap<Val>,
}

impl KeyVal {
    pub fn new() -> (kv: KeyVal)
        ensures
            kv.data.wf(),
            kv.data.spec_len() == 0,
    {
        KeyVal { data: StrMap::new() }
    }

    /// Sets the value of a key; a later value for the same key replaces the earlier.
    pub fn insert(&mut self, key: String, val: Val)
        requires
            old(self).data.wf(),
        ensures
            final(self).data.wf(),
            final(self).data.spec_get(key@) == Some(val),
            forall|k2: Seq<char>| #[trigger]
                final(self).data.contains(k2) <==> old(self).data.contains(k2) || k2 == key@,
            forall|k2: Seq<char>|
                k2 != key@ ==> #[trigger] final(self).data.spec_get(k2) == old(
                    self,
                ).data.spec_get(k2),
    {
        self.data.insert(key, val);
    }
}

/// Why data could not be bound to a statement.
#[derive(Debug, Clone)]
pub struct ErrorBind {
    pub kind: ErrorBindType,
    pub msg: String,
}

#[derive(Debug, Clone, PartialEq)]
pub enum ErrorBindType {
    /// The statement's placeholders are not of the kind the data is for.
    PlaceholderDataTypeNotCompatible,
    /// A key placeholder has no entry in the data.
    MissingKeysInData,
    /// Fewer values than the largest position.
    MissingIndexesInData,
    /// The driver refused a value.
    ReturnStatus(ReturnStatus),
}

/// One value to hand to the driver: bind `val` at position `index`.
#[derive(Debug)]
pub struct Binding<'a> {
    pub index: u32,
    pub val: &'a Val,
}

/// The name of a column of a result set.
#[derive(Debug, PartialEq)]
pub struct ColName {
    pub name: String,
    /// The column's name in its table, where the column comes from one.
    pub name_origin: Option<String>,
}

#[derive(Debug, PartialEq)]
pub struct Rows {
    pub data: Vec<Vec<Val>>,
}

/// What a statement that ran to its end produced.
#[derive(Debug, PartialEq)]
pub struct RSet {
    pub is_read_only: bool,
    /// The statement is an `INSERT`, an `UPDATE` or a `DELETE`.
    pub is_iud: bool,
    /// How many rows the statement changed; present exactly where `is_iud`.
    pub rows_changed: Option<u64>,
    pub col_names: Vec<ColName>,
    pub num_cols: u32,
    pub num_rows: u32,
    pub rows: Rows,
}

impl Default for RSet {
    fn default() -> (r: RSet)
        ensures
            !r.is_read_only,
            !r.is_iud,
            r.rows_changed is None,
            r.col_names@.len() == 0,
            r.num_cols == 0,
            r.num_rows == 0,
            r.rows.data@.len() == 0,
    {
        RSet {
            is_read_only: false,
            is_iud: false,
            rows_changed: None,
            col_names: Vec::new(),
            num_cols: 0,
            num_rows: 0,
            rows: Rows { data: Vec::new() },
        }
    }
}

/// The storage class of a cell.
#[allow(non_camel_case_types)]
#[derive(Debug, Clone, Copy, PartialEq, Eq, Structural)]
pub enum CellType {
    SQLITE_INTEGER,
    SQLITE_FLOAT,
    SQLITE_TEXT,
    SQLITE_NULL,
    SQLITE_BLOB,
}

/// The number by which the driver names a storage class.
pub open spec fn cell_type_code(t: CellType) -> u32 {
    match t {
        CellType::SQLITE_INTEGER => 1,
        CellType::SQLITE_FLOAT => 2,
        CellType::SQLITE_TEXT => 3,
        CellType::SQLITE_BLOB => 4,
        CellType::SQLITE_NULL => 5,
    }
}

/// The storage class that the driver names by `code`.
pub fn get_cell_type(code: u32) -> (t: CellType)
    requires
        1 <= code <= 5,
    ensures
        cell_type_code(t) == code,
{
    match code {
        1 => CellType::SQLITE_INTEGER,
        2 => CellType::SQLITE_FLOAT,
        3 => CellType::SQLITE_TEXT,
        4 => CellType::SQLITE_BLOB,
        _ => CellType::SQLITE_NULL,
    }
}

/// The storage class that the driver names by `code`, if it names one.
pub fn find_cell_type(code: u32) -> (t: Option<CellType>)
    ensures
        t is Some <==> 1 <= code <= 5,
        t matches Some(c) ==> cell_type_code(c) == code,
{
    if 1 <= code && code <= 5 {
        Some(get_cell_type(code))
    } else {
        None
    }
}

/// A text that begins with `insert`, `update` or `delete`.
pub open spec fn has_iud_prefix(q: Seq<char>) -> bool {
    "insert"@.is_prefix_of(q) || "update"@.is_prefix_of(q) || "delete"@.is_prefix_of(q)
}

/// A statement whose text, trimmed and in lower case, begins with `insert`,
/// `update` or `delete`.
pub open spec fn spec_is_iud(sql: Seq<char>) -> bool {
    has_iud_prefix(text_lowercase(text_trim(sql)))
}

/// Whether a text, already trimmed and in lower case, begins with one of the
/// three words that change rows.
pub fn begins_iud(q: &str) -> (r: bool)
    ensures
        r == has_iud_prefix(q@),
{
    starts_with(q, "insert") || starts_with(q, "update") || starts_with(q, "delete")
}

/// Whether a statement is an `INSERT`, an `UPDATE` or a `DELETE`, by its text.
pub fn is_iud(sql: &str) -> (r: bool)
    ensures
        r == spec_is_iud(sql@),
{
    let q = to_lowercase(trim(sql));
    begins_iud(q.as_str())
}

pub open spec fn kv_not_compatible_msg() -> Seq<char> {
    "Input data is key-based, but the query string contains index-based (?, ?NNN) placeholders."@
}

pub open spec fn index_not_compatible_msg() -> Seq<char> {
    "Input data is index-based, but the query string contains no placeholders, or includes key-based (:x, $y, @z) placeholders."@
}

pub open spec fn bind_failed_msg() -> Seq<char> {
    "Bind failed with SQLite error code"@
}

/// The message that reports the key placeholders without data.
pub open spec fn missing_keys_msg(missing: Seq<Seq<char>>) -> Seq<char> {
    "All key-based placeholders must have data provided. Missing keys "@ + text_debug_list(missing)
}

/// The message that reports too few values for the positions of a statement.
pub open spec fn missing_indexes_msg(max_index: u32, given: nat) -> Seq<char> {
    "Max index-based placeholder in query = "@ + spec_decimal(max_index as nat)
        + ". Provided "@ + spec_decimal(given)
        + " input data elements. Every placeholder index must have data bound."@
}

/// Those of the first `n` keys that `data` has no entry for, in order.
pub open spec fn missing_upto(keys: Seq<Seq<char>>, data: StrMap<Val>, n: nat) -> Seq<Seq<char>>
    recommends
        n <= keys.len(),
    decreases n,
{
    if n == 0 {
        Seq::empty()
    } else {
        let prev = missing_upto(keys, data, (n - 1) as nat);
        if data.contains(keys[n - 1]) {
            prev
        } else {
            prev.push(keys[n - 1])
        }
    }
}

/// The key placeholders of a statement that `data` has no entry for.
pub open spec fn missing_keys_of(keys_normal: StrMap<Vec<u32>>, data: StrMap<Val>) -> Seq<
    Seq<char>,
> {
    missing_upto(keys_normal.spec_keys(), data, keys_normal.spec_len())
}

/// A key is missing exactly when it is a placeholder's and has no entry.
pub proof fn lemma_missing_contains(keys: Seq<Seq<char>>, data: StrMap<Val>, n: nat)
    requires
        n <= keys.len(),
    ensures
        forall|k: Seq<char>| #[trigger]
            missing_upto(keys, data, n).contains(k) <==> !data.contains(k) && exists|p: int|
                0 <= p < n && #[trigger] keys[p] == k,
    decreases n,
{
    if n > 0 {
        let m = (n - 1) as nat;
        lemma_missing_contains(keys, data, m);
        let prev = missing_upto(keys, data, m);
        let cur = missing_upto(keys, data, n);
        let last = keys[n - 1];
        assert forall|k: Seq<char>| #[trigger]
            cur.contains(k) <==> !data.contains(k) && exists|p: int|
                0 <= p < n && #[trigger] keys[p] == k by {
            if data.contains(last) {
                assert(cur == prev);
            } else {
                assert(cur == prev.push(last));
                assert(cur[prev.len() as int] == last);
            }
            if cur.contains(k) {
                let j = choose|j: int| 0 <= j < cur.len() && cur[j] == k;
                if j < prev.len() {
                    assert(prev[j] == k);
                    assert(prev.contains(k));
                    let p = choose|p: int| 0 <= p < m && #[trigger] keys[p] == k;
                    assert(0 <= p < n && keys[p] == k);
                } else {
                    assert(k == last);
                    assert(0 <= n - 1 < n && keys[n - 1] == k);
                }
            }
            if !data.contains(k) && exists|p: int| 0 <= p < n && #[trigger] keys[p] == k {
                let p = choose|p: int| 0 <= p < n && #[trigger] keys[p] == k;
                if p < m {
                    assert(0 <= p < m && keys[p] == k);
                    assert(prev.contains(k));
                    let j = choose|j: int| 0 <= j < prev.len() && prev[j] == k;
                    assert(cur[j] == k);
                } else {
                    assert(k == last);
                    assert(cur[prev.len() as int] == k);
                }
            }
        }
    }
}

/// Nothing is missing exactly when every key has an entry.
pub proof fn lemma_missing_none(keys: Seq<Seq<char>>, data: StrMap<Val>, n: nat)
    requires
        n <= keys.len(),
    ensures
        missing_upto(keys, data, n).len() == 0 <==> forall|p: int|
            0 <= p < n ==> data.contains(#[trigger] keys[p]),
{
    lemma_missing_contains(keys, data, n);
    let cur = missing_upto(keys, data, n);
    if cur.len() == 0 {
        assert forall|p: int| 0 <= p < n implies data.contains(#[trigger] keys[p]) by {
            if !data.contains(keys[p]) {
                assert(cur.contains(keys[p]));
            }
        }
    } else {
        assert(cur.contains(cur[0]));
    }
}

/// What binding key data to a statement is refused with, or that it is not.
pub open spec fn kv_check_of(
    types_used: PlaceholderTypes,
    keys_normal: StrMap<Vec<u32>>,
    data: StrMap<Val>,
    r: Result<(), ErrorBind>,
) -> bool {
    let missing = missing_keys_of(keys_normal, data);
    if types_used != PlaceholderTypes::Key {
        &&& r matches Err(e)
        &&& e.kind is PlaceholderDataTypeNotCompatible
        &&& e.msg@ == kv_not_compatible_msg()
    } else if missing.len() > 0 {
        &&& r matches Err(e)
        &&& e.kind is MissingKeysInData
        &&& e.msg@ == missing_keys_msg(missing)
    } else {
        r is Ok
    }
}

/// What binding index data to a statement is refused with, or that it is not.
pub open spec fn index_check_of(
    types_used: PlaceholderTypes,
    max_index: u32,
    given: nat,
    r: Result<(), ErrorBind>,
) -> bool {
    if types_used != PlaceholderTypes::Index {
        &&& r matches Err(e)
        &&& e.kind is PlaceholderDataTypeNotCompatible
        &&& e.msg@ == index_not_compatible_msg()
    } else if given < max_index {
        &&& r matches Err(e)
        &&& e.kind is MissingIndexesInData
        &&& e.msg@ == missing_indexes_msg(max_index, given)
    } else {
        r is Ok
    }
}

/// What binding key data to a statement gives: the bindings, or the refusal.
pub open spec fn kv_bind_of(
    meta: PlaceholderMeta,
    data: StrMap<Val>,
    r: Result<Vec<Binding>, ErrorBind>,
) -> bool {
    match r {
        Ok(plan) => {
            &&& kv_check_of(meta.types_used, meta.keys_normal, data, Ok(()))
            &&& plan_view(plan@) == kv_plan(meta.keys_normal, data, meta.keys_normal.spec_len())
        },
        Err(e) => kv_check_of(meta.types_used, meta.keys_normal, data, Err(e)),
    }
}

/// What binding index data to a statement gives: the bindings, or the refusal.
pub open spec fn index_bind_of(
    meta: PlaceholderMeta,
    vals: Seq<Val>,
    r: Result<Vec<Binding>, ErrorBind>,
) -> bool {
    match r {
        Ok(plan) => {
            &&& index_check_of(meta.types_used, meta.max_index, vals.len(), Ok(()))
            &&& plan_view(plan@) == index_plan(meta.max_index, vals)
        },
        Err(e) => index_check_of(meta.types_used, meta.max_index, vals.len(), Err(e)),
    }
}

/// A binding as a pair of position and value.
pub open spec fn plan_view(plan: Seq<Binding>) -> Seq<(u32, Val)> {
    Seq::new(plan.len(), |j: int| (plan[j].index, *plan[j].val))
}

/// One value at each position of a list.
pub open spec fn bindings_for(list: Seq<u32>, v: Val) -> Seq<(u32, Val)> {
    Seq::new(list.len(), |j: int| (list[j], v))
}

/// The bindings for the first `p` keys of a statement: for each key in turn,
/// its value at each position the key stands at.
pub open spec fn kv_plan(keys_normal: StrMap<Vec<u32>>, data: StrMap<Val>, p: nat) -> Seq<
    (u32, Val),
>
    recommends
        p <= keys_normal.spec_len(),
    decreases p,
{
    if p == 0 {
        Seq::empty()
    } else {
        kv_plan(keys_normal, data, (p - 1) as nat) + bindings_for(
            keys_normal.spec_vals()[p - 1]@,
            data.spec_get(keys_normal.spec_keys()[p - 1])->0,
        )
    }
}

/// The bindings for index data: the first `max_index` values, at positions 1
/// to `max_index`.
pub open spec fn index_plan(max_index: u32, vals: Seq<Val>) -> Seq<(u32, Val)> {
    Seq::new(max_index as nat, |j: int| ((j + 1) as u32, vals[j]))
}

/// The key placeholders of a statement that `key_val` has no entry for, in the
/// order of the placeholders.
pub fn missing_keys(keys_normal: &StrMap<Vec<u32>>, key_val: &KeyVal) -> (missing: Vec<String>)
    requires
        keys_normal.wf(),
        key_val.data.wf(),
    ensures
        Seq::new(missing@.len(), |i: int| missing@[i]@) == missing_keys_of(
            *keys_normal,
            key_val.data,
        ),
{
    let mut missing: Vec<String> = Vec::new();
    let n = keys_normal.len();
    let mut p: usize = 0;
    while p < n
        invariant
            p <= n,
            n == keys_normal.spec_len(),
            keys_normal.wf(),
            key_val.data.wf(),
            Seq::new(missing@.len(), |i: int| missing@[i]@) == missing_upto(
                keys_normal.spec_keys(),
                key_val.data,
                p as nat,
            ),
        decreases n - p,
    {
        let k = keys_normal.key_at(p);
        let ghost before = Seq::new(missing@.len(), |i: int| missing@[i]@);
        if !key_val.data.contains_key(k) {
            missing.push(k.clone());
            assert(Seq::new(missing@.len(), |i: int| missing@[i]@) =~= before.push(k@));
        }
        p += 1;
    }
    missing
}

/// The statement that a connection prepared from a text.
#[derive(Debug)]
pub struct StmtHandle {
    /// The connection that prepared the statement.
    pub db: usize,
    /// The driver's name for the statement.
    pub stmt: usize,
    pub placeholder_meta: PlaceholderMeta,
    pub is_read_only: bool,
    /// The statement is an `INSERT`, an `UPDATE` or a `DELETE`.
    pub is_iud: bool,
}

/// What the driver answered when asked to prepare a statement.
#[derive(Debug)]
pub struct Prepared {
    /// The result code of the call.
    pub code: i32,
    /// The connection's message for the call.
    pub db_msg: String,
    /// The driver's name for the statement.
    pub stmt: usize,
    /// The name of each position, the first position first.
    pub names: Vec<Option<String>>,
    /// Whether the statement leaves the file as it is.
    pub read_only: bool,
}

/// One step of a statement that did not fail.
#[derive(Debug, Clone, Copy, PartialEq, Eq, Structural)]
pub enum Step {
    /// A row is ready to be read.
    Row,
    /// The statement came to its end.
    Done,
}

impl ErrorBind {
    /// The error for a value that the driver refused with `rs`.
    pub fn bind_failed(rs: ReturnStatus) -> (e: ErrorBind)
        ensures
            e.kind == ErrorBindType::ReturnStatus(rs),
            e.msg@ == bind_failed_msg(),
    {
        ErrorBind {
            kind: ErrorBindType::ReturnStatus(rs),
            msg: String::from_str("Bind failed with SQLite error code"),
        }
    }
}

impl StmtHandle {
    /// The invariant: the placeholder maps hold no key twice.
    pub open spec fn wf(&self) -> bool {
        &&& self.placeholder_meta.names.wf()
        &&& self.placeholder_meta.keys.wf()
        &&& self.placeholder_meta.keys_normal.wf()
    }

    /// The statement that the driver prepared on `db` from `q`, or the status
    /// with which it refused to: any code that reports an error, with the
    /// connection's message.
    pub fn new(db: &DbHandle, q: &str, prepared: Prepared) -> (r: Result<StmtHandle, ReturnStatus>)
        requires
            is_known_cint(prepared.code),
            prepared.names.len() <= u32::MAX,
            well_prefixed(prepared.names@),
        ensures
            r is Err <==> crate::err::spec_is_error_code(prepared.code as u32),
            r matches Err(status) ==> status_with_msg(
                prepared.code as u32,
                prepared.db_msg,
                status,
            ),
            r matches Ok(s) ==> {
                &&& s.wf()
                &&& s.db == db.db
                &&& s.stmt == prepared.stmt
                &&& s.is_read_only == prepared.read_only
                &&& s.is_iud == spec_is_iud(q@)
                &&& meta_of(prepared.names@, s.placeholder_meta)
            },
    {
        let Prepared { code, db_msg, stmt, names, read_only } = prepared;
        match to_return_status_cint_db_err(&code, db_msg) {
            Err(status) => Err(status),
            Ok(_) => {
                let placeholder_meta = get_placeholder_meta(&names);
                Ok(
                    StmtHandle {
                        db: db.db,
                        stmt,
                        placeholder_meta,
                        is_read_only: read_only,
                        is_iud: is_iud(q),
                    },
                )
            },
        }
    }

    /// Says what one step of a running statement came to: a row, the end, or
    /// the failure with the connection's message.
    pub fn step(code: &i32, db_msg: String) -> (r: Result<Step, ReturnStatus>)
        requires
            is_known_cint(*code),
            spec_get_primary(*code as u32) != primary_code(PrimaryRC::SQLITE_OK),
        ensures
            r == match crate::errmap::spec_rows(*code as u32).0.id {
                PrimaryRC::SQLITE_ROW => Ok::<Step, ReturnStatus>(Step::Row),
                PrimaryRC::SQLITE_DONE => Ok(Step::Done),
                _ => Err(crate::err::spec_status(*code as u32, Some(db_msg))),
            },
    {
        match to_return_status_cint_db_err(code, db_msg) {
            Err(status) => Err(status),
            Ok(status) => {
                match status.primary.id {
                    PrimaryRC::SQLITE_ROW => Ok(Step::Row),
                    _ => Ok(Step::Done),
                }
            },
        }
    }

    /// The result set of a run: `rows` are the rows read before the last step,
    /// `headers` the column names read with the first of them, and `last` what
    /// the last step came to, the number of changed rows or the failure.
    pub fn run(
        &self,
        rows: Vec<Vec<Val>>,
        headers: Vec<ColName>,
        last: Result<u64, ReturnStatus>,
    ) -> (r: Result<RSet, ReturnStatus>)
        requires
            rows@.len() <= u32::MAX,
            rows@.len() > 0 ==> rows@[0]@.len() <= u32::MAX,
        ensures
            match last {
                Err(status) => r == Err::<RSet, ReturnStatus>(status),
                Ok(changes) => {
                    &&& r matches Ok(rset)
                    &&& rset.is_read_only == self.is_read_only
                    &&& rset.is_iud == self.is_iud
                    &&& rset.rows_changed == if self.is_iud {
                        Some(changes)
                    } else {
                        None
                    }
                    &&& rset.rows.data == rows
                    &&& rset.num_rows == rows@.len()
                    &&& if rows@.len() > 0 {
                        rset.col_names == headers && rset.num_cols == rows@[0]@.len()
                    } else {
                        rset.col_names@.len() == 0 && rset.num_cols == 0
                    }
                },
            },
    {
        match last {
            Err(status) => Err(status),
            Ok(changes) => {
                let num_rows: u32 = rows.len() as u32;
                let mut num_cols: u32 = 0;
                let mut col_names: Vec<ColName> = Vec::new();
                if rows.len() > 0 {
                    num_cols = rows[0].len() as u32;
                    col_names = headers;
                }
                let rows_changed = if self.is_iud {
                    Some(changes)
                } else {
                    None
                };
                Ok(
                    RSet {
                        is_read_only: self.is_read_only,
                        is_iud: self.is_iud,
                        rows_changed,
                        col_names,
                        num_cols,
                        num_rows,
                        rows: Rows { data: rows },
                    },
                )
            },
        }
    }

    /// Whether key data can be bound to a statement with these placeholders.
    pub fn bind_kv_check_errors(
        types_used: &PlaceholderTypes,
        keys_normal: &StrMap<Vec<u32>>,
        key_val: &KeyVal,
    ) -> (r: Result<(), ErrorBind>)
        requires
            keys_normal.wf(),
            key_val.data.wf(),
        ensures
            kv_check_of(*types_used, *keys_normal, key_val.data, r),
    {
        match types_used {
            PlaceholderTypes::Key => {},
            _ => {
                return Err(
                    ErrorBind {
                        kind: ErrorBindType::PlaceholderDataTypeNotCompatible,
                        msg: String::from_str(
                            "Input data is key-based, but the query string contains index-based (?, ?NNN) placeholders.",
                        ),
                    },
                );
            },
        }
        let missing = missing_keys(keys_normal, key_val);
        if missing.len() > 0 {
            let list = debug_list(&missing);
            let msg = String::from_str(
                "All key-based placeholders must have data provided. Missing keys ",
            ).concat(list.as_str());
            return Err(ErrorBind { kind: ErrorBindType::MissingKeysInData, msg });
        }
        Ok(())
    }

    /// The bindings that give every key placeholder its value from `key_val`:
    /// a key stands for all its occurrences, whatever their prefix, and
    /// entries of `key_val` that no placeholder asks for are left out.
    pub fn bind_kv<'a>(&self, key_val: &'a KeyVal) -> (r: Result<Vec<Binding<'a>>, ErrorBind>)
        requires
            self.wf(),
            key_val.data.wf(),
        ensures
            kv_bind_of(self.placeholder_meta, key_val.data, r),
    {
        let keys_normal = &self.placeholder_meta.keys_normal;
        match StmtHandle::bind_kv_check_errors(
            &self.placeholder_meta.types_used,
            keys_normal,
            key_val,
        ) {
            Err(e) => {
                return Err(e);
            },
            Ok(_) => {},
        }
        let mut plan: Vec<Binding<'a>> = Vec::new();
        let n = keys_normal.len();
        let mut p: usize = 0;
        proof {
            lemma_missing_none(keys_normal.spec_keys(), key_val.data, n as nat);
        }
        while p < n
            invariant
                p <= n,
                n == keys_normal.spec_len(),
                keys_normal.wf(),
                key_val.data.wf(),
                forall|q: int| 0 <= q < n ==> key_val.data.contains(#[trigger] keys_normal.spec_keys()[q]),
                plan_view(plan@) == kv_plan(*keys_normal, key_val.data, p as nat),
            decreases n - p,
        {
            let k = keys_normal.key_at(p);
            let list = keys_normal.val_at(p);
            assert(key_val.data.contains(keys_normal.spec_keys()[p as int]));
            let v: &'a Val = key_val.data.get(k).unwrap();
            let ghost before = plan_view(plan@);
            let mut j: usize = 0;
            while j < list.len()
                invariant
                    j <= list.len(),
                    plan_view(plan@) == before + bindings_for(list@, *v).subrange(0, j as int),
                decreases list.len() - j,
            {
                let ghost prev = plan_view(plan@);
                plan.push(Binding { index: list[j], val: v });
                assert(plan_view(plan@) =~= prev.push((list@[j as int], *v)));
                assert(bindings_for(list@, *v).subrange(0, j + 1) =~= bindings_for(
                    list@,
                    *v,
                ).subrange(0, j as int).push((list@[j as int], *v)));
                j += 1;
            }
            assert(bindings_for(list@, *v).subrange(0, j as int) =~= bindings_for(list@, *v));
            p += 1;
        }
        Ok(plan)
    }

    /// Whether index data can be bound to a statement with these placeholders.
    pub fn bind_index_check_errors(
        types_used: &PlaceholderTypes,
        max_index: &u32,
        vals: &Vec<Val>,
    ) -> (r: Result<(), ErrorBind>)
        ensures
            index_check_of(*types_used, *max_index, vals@.len(), r),
    {
        match types_used {
            PlaceholderTypes::Index => {},
            _ => {
                return Err(
                    ErrorBind {
                        kind: ErrorBindType::PlaceholderDataTypeNotCompatible,
                        msg: String::from_str(
                            "Input data is index-based, but the query string contains no placeholders, or includes key-based (:x, $y, @z) placeholders.",
                        ),
                    },
                );
            },
        }
        if vals.len() < *max_index as usize {
            let msg = String::from_str("Max index-based placeholder in query = ").concat(
                decimal(*max_index as u64).as_str(),
            ).concat(". Provided ").concat(decimal(vals.len() as u64).as_str()).concat(
                " input data elements. Every placeholder index must have data bound.",
            );
            return Err(ErrorBind { kind: ErrorBindType::MissingIndexesInData, msg });
        }
        Ok(())
    }

    /// The bindings that give each position of the statement, from 1 to the
    /// largest, its value from `vals`.
    pub fn bind_index<'a>(&self, vals: &'a IndexVal) -> (r: Result<Vec<Binding<'a>>, ErrorBind>)
        ensures
            index_bind_of(self.placeholder_meta, vals@, r),
    {
        let max_index = self.placeholder_meta.max_index;
        match StmtHandle::bind_index_check_errors(
            &self.placeholder_meta.types_used,
            &max_index,
            vals,
        ) {
            Err(e) => {
                return Err(e);
            },
            Ok(_) => {},
        }
        let mut plan: Vec<Binding<'a>> = Vec::new();
        let mut j: u32 = 0;
        while j < max_index
            invariant
                j <= max_index,
                max_index <= vals@.len(),
                plan_view(plan@) == index_plan(max_index, vals@).subrange(0, j as int),
            decreases max_index - j,
        {
            let ghost prev = plan_view(plan@);
            plan.push(Binding { index: j + 1, val: &vals[j as usize] });
            assert(plan_view(plan@) =~= prev.push(((j + 1) as u32, vals@[j as int])));
            assert(index_plan(max_index, vals@).subrange(0, j + 1) =~= index_plan(
                max_index,
                vals@,
            ).subrange(0, j as int).push(((j + 1) as u32, vals@[j as int])));
            j += 1;
        }
        assert(index_plan(max_index, vals@).subrange(0, j as int) =~= index_plan(max_index, vals@));
        Ok(plan)
    }
}

/// The bindings for the first `p` keys hold, for each of those keys, its
/// value at each of its positions.
pub proof fn lemma_plan_covers(
    keys_normal: StrMap<Vec<u32>>,
    data: StrMap<Val>,
    p: nat,
    q: int,
    j: int,
)
    requires
        p <= keys_normal.spec_len(),
        keys_normal.spec_keys().len() == keys_normal.spec_vals().len(),
        0 <= q < p,
        0 <= j < keys_normal.spec_vals()[q]@.len(),
    ensures
        kv_plan(keys_normal, data, p).contains(
            (keys_normal.spec_vals()[q]@[j], data.spec_get(keys_normal.spec_keys()[q])->0),
        ),
    decreases p,
{
    let prev = kv_plan(keys_normal, data, (p - 1) as nat);
    let last = bindings_for(
        keys_normal.spec_vals()[p - 1]@,
        data.spec_get(keys_normal.spec_keys()[p - 1])->0,
    );
    let item = (keys_normal.spec_vals()[q]@[j], data.spec_get(keys_normal.spec_keys()[q])->0);
    if q == p - 1 {
        assert(last[j] == item);
        assert((prev + last)[prev.len() + j] == item);
    } else {
        lemma_plan_covers(keys_normal, data, (p - 1) as nat, q, j);
        let at = choose|at: int| 0 <= at < prev.len() && prev[at] == item;
        assert((prev + last)[at] == item);
    }
}

/// A key stands for all its occurrences: where the data has an entry for
/// every key of a statement, each position that carries a key under any
/// prefix is bound to the value of that key.
pub proof fn law_key_bound_at_every_occurrence(
    reported: Seq<Option<String>>,
    meta: PlaceholderMeta,
    data: StrMap<Val>,
    name: Seq<char>,
    i: int,
)
    requires
        meta_of(reported, meta),
        reported.len() <= u32::MAX,
        missing_keys_of(meta.keys_normal, data).len() == 0,
        crate::placeholder::last_reported_at(reported, name, i, reported.len() as int),
        name.len() > 0,
        !crate::placeholder::is_index_name(name),
    ensures
        data.contains(name.drop_first()),
        kv_plan(meta.keys_normal, data, meta.keys_normal.spec_len()).contains(
            ((i + 1) as u32, data.spec_get(name.drop_first())->0),
        ),
{
    let names = meta.names;
    let keys = meta.keys;
    let normal = meta.keys_normal;
    let n = name.drop_first();
    let idx = (i + 1) as u32;
    assert(crate::placeholder::reported_at(reported, name, i));
    assert(names.contains(name));
    assert(names.spec_get(name) == Some(idx));
    let j = choose|j: int| 0 <= j < names.spec_keys().len() && names.spec_keys()[j] == name;
    assert(0 <= j < names.spec_len() && names.spec_keys()[j] == name);
    assert(keys.contains(name));
    assert(keys.spec_get(name) == Some(idx));
    let p = crate::strmap::position_of(keys.spec_keys(), name)->0;
    assert(keys.spec_keys()[p] == name && keys.spec_vals()[p] == idx);
    assert(keys.spec_keys()[p].drop_first() == n);
    assert(stands_at(keys, keys.spec_len() as int, n, idx));
    assert(normal.contains(n));
    assert(normal.spec_get(n)->0@.contains(idx));
    let q = crate::strmap::position_of(normal.spec_keys(), n)->0;
    let list = normal.spec_vals()[q]@;
    let at = choose|at: int| 0 <= at < list.len() && list[at] == idx;
    lemma_missing_none(normal.spec_keys(), data, normal.spec_len());
    assert(data.contains(normal.spec_keys()[q]));
    lemma_plan_covers(normal, data, normal.spec_len(), q, at);
}

/// A statement that uses both kinds of placeholder takes no data: key data
/// and index data are refused alike, as not compatible.
pub proof fn law_mixed_placeholders_refused(
    meta: PlaceholderMeta,
    data: StrMap<Val>,
    vals: Seq<Val>,
    by_key: Result<Vec<Binding>, ErrorBind>,
    by_index: Result<Vec<Binding>, ErrorBind>,
)
    requires
        meta.types_used == PlaceholderTypes::IndexAndKey,
        kv_bind_of(meta, data, by_key),
        index_bind_of(meta, vals, by_index),
    ensures
        by_key matches Err(e) && e.kind is PlaceholderDataTypeNotCompatible,
        by_index matches Err(e) && e.kind is PlaceholderDataTypeNotCompatible,
{
}

/// Index data with fewer values than the largest position is refused as
/// missing indexes, and no bindings are made.
pub proof fn law_too_few_values_refused(
    meta: PlaceholderMeta,
    vals: Seq<Val>,
    r: Result<Vec<Binding>, ErrorBind>,
)
    requires
        meta.types_used == PlaceholderTypes::Index,
        vals.len() < meta.max_index,
        index_bind_of(meta, vals, r),
    ensures
        r matches Err(e) && e.kind is MissingIndexesInData && e.msg@ == missing_indexes_msg(
            meta.max_index,
            vals.len(),
        ),
{
}

/// Key data that lacks a key of the statement is refused as missing keys,
/// with a message that lists exactly the keys that have no entry.
pub proof fn law_missing_key_refused(
    meta: PlaceholderMeta,
    data: StrMap<Val>,
    key: Seq<char>,
    r: Result<Vec<Binding>, ErrorBind>,
)
    requires
        meta.types_used == PlaceholderTypes::Key,
        meta.keys_normal.contains(key),
        !data.contains(key),
        kv_bind_of(meta, data, r),
    ensures
        r matches Err(e) && e.kind is MissingKeysInData && e.msg@ == missing_keys_msg(
            missing_keys_of(meta.keys_normal, data),
        ),
        missing_keys_of(meta.keys_normal, data).contains(key),
        forall|k: Seq<char>| #[trigger]
            missing_keys_of(meta.keys_normal, data).contains(k) <==> meta.keys_normal.contains(k)
                && !data.contains(k),
{
    let keys = meta.keys_normal.spec_keys();
    lemma_missing_contains(keys, data, keys.len());
    let p = choose|p: int| 0 <= p < keys.len() && keys[p] == key;
    assert(0 <= p < keys.len() && keys[p] == key);
    let missing = missing_keys_of(meta.keys_normal, data);
    assert(missing.contains(key));
    assert forall|k: Seq<char>| #[trigger]
        missing.contains(k) <==> meta.keys_normal.contains(k) && !data.contains(k) by {
        if meta.keys_normal.contains(k) {
            let p2 = choose|p2: int| 0 <= p2 < keys.len() && keys[p2] == k;
            assert(0 <= p2 < keys.len() && keys[p2] == k);
        }
    }
}

} // verus!

//! What a prepared statement says of its placeholders: how many positions it
//! has, which of them carry a name, and which kind of data can be bound to it.

use vstd::prelude::*;
use crate::strmap::{StrMap, assoc_put, position_of};

verus! {

/// The kinds of placeholder a statement uses.
#[derive(Debug, Clone, Copy, PartialEq, Eq, Structural)]
pub enum PlaceholderTypes {
    /// Only positions: `?`, `?NNN`.
    Index,
    /// Only names: `:name`, `@name`, `$name`.
    Key,
    /// Both, which no data can be bound to.
    IndexAndKey,
    /// No placeholder at all.
    NoneUsed,
}

/// The placeholders of one prepared statement.
#[derive(Debug)]
pub struct PlaceholderMeta {
    /// The largest position; positions start at 1.
    pub max_index: u32,
    /// Every name that a position carries, prefix included, with the position.
    pub names: StrMap<u32>,
    /// The names that are keys: those not written `?NNN`.
    pub keys: StrMap<u32>,
    /// The keys without their prefix, each with all the positions it stands at.
    pub keys_normal: StrMap<Vec<u32>>,
    /// Some position carries a name that only restates a position: `?NNN`.
    pub contains_integer_key: bool,
    pub types_used: PlaceholderTypes,
}

/// A name that only restates a position: `?NNN`.
pub open spec fn is_index_name(k: Seq<char>) -> bool {
    k.len() > 0 && k[0] == '?'
}

/// The characters a placeholder's name can start with.
pub open spec fn is_prefix_char(c: char) -> bool {
    c == '?' || c == ':' || c == '@' || c == '$'
}

/// A name with one of the four prefixes in front.
pub open spec fn has_prefix(k: Seq<char>) -> bool {
    k.len() > 0 && is_prefix_char(k[0])
}

/// The driver reports the name `k` for position `i + 1`.
pub open spec fn reported_at(reported: Seq<Option<String>>, k: Seq<char>, i: int) -> bool {
    &&& 0 <= i < reported.len()
    &&& reported[i] matches Some(s)
    &&& s@ == k
}

/// Among the first `n` positions, `i + 1` is the last that carries the name `k`.
pub open spec fn last_reported_at(
    reported: Seq<Option<String>>,
    k: Seq<char>,
    i: int,
    n: int,
) -> bool {
    &&& i < n
    &&& reported_at(reported, k, i)
    &&& forall|j: int| i < j < n ==> !reported_at(reported, k, j)
}

/// `names` holds the names reported for the first `n` positions, each with the
/// last position that carries it.
pub open spec fn names_of(reported: Seq<Option<String>>, n: int, names: StrMap<u32>) -> bool {
    &&& names.wf()
    &&& forall|k: Seq<char>| #[trigger]
        names.contains(k) <==> exists|i: int| i < n && reported_at(reported, k, i)
    &&& forall|k: Seq<char>, i: int| #[trigger]
        last_reported_at(reported, k, i, n) ==> names.spec_get(k) == Some((i + 1) as u32)
}

/// `keys` holds the first `n` entries of `names` that are keys, unchanged.
pub open spec fn keys_of(names: StrMap<u32>, n: int, keys: StrMap<u32>) -> bool {
    &&& keys.wf()
    &&& forall|k: Seq<char>| #[trigger]
        keys.contains(k) <==> !is_index_name(k) && exists|i: int|
            0 <= i < n && names.spec_keys()[i] == k
    &&& forall|k: Seq<char>| #[trigger]
        keys.contains(k) ==> keys.spec_get(k) == names.spec_get(k)
}

/// Position `i` is one at which the key `n`, under some prefix, stands in the
/// first `m` entries of `keys`.
pub open spec fn stands_at(keys: StrMap<u32>, m: int, n: Seq<char>, i: u32) -> bool {
    exists|p: int|
        0 <= p < m && #[trigger] keys.spec_keys()[p].drop_first() == n && keys.spec_vals()[p] == i
}

/// `normal` groups the first `m` entries of `keys` by name without prefix.
pub open spec fn keys_normal_of(keys: StrMap<u32>, m: int, normal: StrMap<Vec<u32>>) -> bool {
    &&& normal.wf()
    &&& forall|n: Seq<char>| #[trigger]
        normal.contains(n) <==> exists|p: int|
            0 <= p < m && #[trigger] keys.spec_keys()[p].drop_first() == n
    &&& forall|n: Seq<char>, i: u32|
        normal.contains(n) ==> (normal.spec_get(n)->0@.contains(i) <==> #[trigger] stands_at(
            keys,
            m,
            n,
            i,
        ))
    &&& forall|n: Seq<char>| #[trigger]
        normal.contains(n) ==> normal.spec_get(n)->0@.no_duplicates()
}

/// The names of the first `n` positions with their positions: each name once,
/// in the order of its first position, with its last position.
pub open spec fn spec_names(reported: Seq<Option<String>>, n: nat) -> (Seq<Seq<char>>, Seq<u32>)
    recommends
        n <= reported.len(),
    decreases n,
{
    if n == 0 {
        (Seq::empty(), Seq::empty())
    } else {
        let prev = spec_names(reported, (n - 1) as nat);
        match reported[n - 1] {
            Some(s) => assoc_put(prev.0, prev.1, s@, n as u32),
            None => prev,
        }
    }
}

/// Those of the first `n` names that are keys, in order, with their positions.
pub open spec fn spec_key_indexes(names: (Seq<Seq<char>>, Seq<u32>), n: nat) -> (
    Seq<Seq<char>>,
    Seq<u32>,
)
    recommends
        n <= names.0.len(),
        names.0.len() == names.1.len(),
    decreases n,
{
    if n == 0 {
        (Seq::empty(), Seq::empty())
    } else {
        let prev = spec_key_indexes(names, (n - 1) as nat);
        if is_index_name(names.0[n - 1]) {
            prev
        } else {
            (prev.0.push(names.0[n - 1]), prev.1.push(names.1[n - 1]))
        }
    }
}

/// Groups of positions by key, after the position `i` joins the group of `k`.
pub open spec fn group_put(keys: Seq<Seq<char>>, lists: Seq<Seq<u32>>, k: Seq<char>, i: u32) -> (
    Seq<Seq<char>>,
    Seq<Seq<u32>>,
) {
    match position_of(keys, k) {
        Some(p) => (
            keys,
            lists.update(
                p,
                if lists[p].contains(i) {
                    lists[p]
                } else {
                    lists[p].push(i)
                },
            ),
        ),
        None => (keys.push(k), lists.push(seq![i])),
    }
}

/// The first `n` keys grouped by name without prefix: each such name once, in
/// the order of its first key, with the positions of all its keys in order.
pub open spec fn spec_key_indexes_normal(keys: (Seq<Seq<char>>, Seq<u32>), n: nat) -> (
    Seq<Seq<char>>,
    Seq<Seq<u32>>,
)
    recommends
        n <= keys.0.len(),
        keys.0.len() == keys.1.len(),
    decreases n,
{
    if n == 0 {
        (Seq::empty(), Seq::empty())
    } else {
        let prev = spec_key_indexes_normal(keys, (n - 1) as nat);
        group_put(prev.0, prev.1, keys.0[n - 1].drop_first(), keys.1[n - 1])
    }
}

/// The groups of a map of position lists.
pub open spec fn lists_of(m: StrMap<Vec<u32>>) -> Seq<Seq<u32>> {
    Seq::new(m.spec_vals().len(), |i: int| m.spec_vals()[i]@)
}

/// Some of the names only restates a position: `?NNN`.
pub open spec fn has_index_name(names: Seq<Seq<char>>) -> bool {
    exists|j: int| 0 <= j < names.len() && is_index_name(#[trigger] names[j])
}

/// The kind of placeholders, from the number of keys and the largest position.
pub open spec fn spec_types_used(
    num_keys: nat,
    max_index: u32,
    contains_integer_key: bool,
) -> PlaceholderTypes {
    let has_keys = num_keys > 0;
    let has_indexes = contains_integer_key || (max_index > 0 && num_keys != max_index);
    if has_keys && has_indexes {
        PlaceholderTypes::IndexAndKey
    } else if has_keys {
        PlaceholderTypes::Key
    } else if has_indexes {
        PlaceholderTypes::Index
    } else {
        PlaceholderTypes::NoneUsed
    }
}

/// Every name reported has one of the four prefixes.
pub open spec fn well_prefixed(reported: Seq<Option<String>>) -> bool {
    forall|i: int|
        0 <= i < reported.len() ==> (#[trigger] reported[i] matches Some(s) ==> has_prefix(s@))
}

/// `meta` describes a statement whose positions carry the names `reported`.
pub open spec fn meta_of(reported: Seq<Option<String>>, meta: PlaceholderMeta) -> bool {
    &&& meta.max_index == reported.len()
    &&& meta.names.entries() == spec_names(reported, reported.len())
    &&& meta.keys.entries() == spec_key_indexes(meta.names.entries(), meta.names.spec_len())
    &&& (meta.keys_normal.spec_keys(), lists_of(meta.keys_normal)) == spec_key_indexes_normal(
        meta.keys.entries(),
        meta.keys.spec_len(),
    )
    &&& names_of(reported, reported.len() as int, meta.names)
    &&& keys_of(meta.names, meta.names.spec_len() as int, meta.keys)
    &&& keys_normal_of(meta.keys, meta.keys.spec_len() as int, meta.keys_normal)
    &&& meta.contains_integer_key == has_index_name(meta.names.spec_keys())
    &&& meta.types_used == spec_types_used(
        meta.keys.spec_len(),
        meta.max_index,
        meta.contains_integer_key,
    )
}

fn first_char(s: &String) -> (c: Option<char>)
    ensures
        c is Some <==> s@.len() > 0,
        c matches Some(x) ==> x == s@[0],
{
    let t = s.as_str();
    if t.unicode_len() == 0 {
        None
    } else {
        Some(t.get_char(0))
    }
}

fn starts_with_qmark(s: &String) -> (r: bool)
    ensures
        r == is_index_name(s@),
{
    match first_char(s) {
        Some(c) => c == '?',
        None => false,
    }
}

/// Whether a name has one of the four prefixes.
pub fn name_has_prefix(s: &String) -> (r: bool)
    ensures
        r == has_prefix(s@),
{
    match first_char(s) {
        Some(c) => c == '?' || c == ':' || c == '@' || c == '$',
        None => false,
    }
}

/// Whether every name reported has one of the four prefixes.
pub fn names_well_prefixed(reported: &Vec<Option<String>>) -> (r: bool)
    ensures
        r == well_prefixed(reported@),
{
    let mut i: usize = 0;
    while i < reported.len()
        invariant
            i <= reported.len(),
            forall|j: int|
                0 <= j < i ==> (#[trigger] reported@[j] matches Some(s) ==> has_prefix(s@)),
        decreases reported.len() - i,
    {
        match &reported[i] {
            Some(s) => {
                if !name_has_prefix(s) {
                    return false;
                }
            },
            None => {},
        }
        i += 1;
    }
    true
}

fn without_prefix(s: &String) -> (r: String)
    requires
        s@.len() > 0,
    ensures
        r@ == s@.drop_first(),
{
    let t = s.as_str();
    let n = t.unicode_len();
    let rest = t.substring_char(1, n);
    assert(rest@ =~= s@.drop_first());
    String::from_str(rest)
}

fn list_contains(v: &Vec<u32>, x: u32) -> (r: bool)
    ensures
        r == v@.contains(x),
{
    let mut i: usize = 0;
    while i < v.len()
        invariant
            i <= v.len(),
            forall|j: int| 0 <= j < i ==> v@[j] != x,
        decreases v.len() - i,
    {
        if v[i] == x {
            return true;
        }
        i += 1;
    }
    false
}

/// Whether some of the names only restates a position.
fn any_index_name(names: &StrMap<u32>) -> (r: bool)
    requires
        names.wf(),
    ensures
        r == has_index_name(names.spec_keys()),
{
    let n = names.len();
    let mut j: usize = 0;
    while j < n
        invariant
            j <= n,
            n == names.spec_len(),
            names.wf(),
            forall|i: int| 0 <= i < j ==> !is_index_name(#[trigger] names.spec_keys()[i]),
        decreases n - j,
    {
        if starts_with_qmark(names.key_at(j)) {
            return true;
        }
        j += 1;
    }
    false
}

impl PlaceholderMeta {
    /// The placeholders of a statement, from the names the driver reports:
    /// `reported[i]` is the name of position `i + 1`, if it has one.
    pub fn new(reported: &Vec<Option<String>>) -> (meta: PlaceholderMeta)
        requires
            reported.len() <= u32::MAX,
            well_prefixed(reported@),
        ensures
            meta_of(reported@, meta),
    {
        get_placeholder_meta(reported)
    }
}

/// The placeholders of a statement, from the names the driver reports:
/// `reported[i]` is the name of position `i + 1`, if it has one. The largest
/// position is the number of positions reported.
pub fn get_placeholder_meta(reported: &Vec<Option<String>>) -> (meta: PlaceholderMeta)
    requires
        reported.len() <= u32::MAX,
        well_prefixed(reported@),
    ensures
        meta_of(reported@, meta),
{
    let max_index: u32 = reported.len() as u32;
    let names = get_ph_names(reported);
    proof {
        assert forall|p: int| 0 <= p < names.spec_len() implies has_prefix(
            #[trigger] names.spec_keys()[p],
        ) by {
            let k = names.spec_keys()[p];
            assert(names.contains(k));
            let i = choose|i: int| i < reported.len() && reported_at(reported@, k, i);
            assert(reported@[i] is Some);
        }
    }
    let keys = get_key_indexes(&names);
    proof {
        assert forall|p: int| 0 <= p < keys.spec_len() implies has_prefix(
            #[trigger] keys.spec_keys()[p],
        ) by {
            let k = keys.spec_keys()[p];
            assert(keys.contains(k));
        }
    }
    let keys_normal = get_key_indexes_normal(&keys);
    let contains_integer_key = any_index_name(&names);
    let num_keys = keys.len();
    let has_keys = num_keys > 0;
    let has_indexes = contains_integer_key || (max_index > 0 && num_keys != max_index as usize);
    let types_used = if has_keys && has_indexes {
        PlaceholderTypes::IndexAndKey
    } else if has_keys {
        PlaceholderTypes::Key
    } else if has_indexes {
        PlaceholderTypes::Index
    } else {
        PlaceholderTypes::NoneUsed
    };
    PlaceholderMeta {
        max_index,
        names,
        keys,
        keys_normal,
        contains_integer_key,
        types_used,
    }
}

/// The names that the positions of a statement carry, each with its position.
pub fn get_ph_names(reported: &Vec<Option<String>>) -> (names: StrMap<u32>)
    requires
        reported.len() <= u32::MAX,
    ensures
        names.entries() == spec_names(reported@, reported@.len()),
        names_of(reported@, reported.len() as int, names),
{
    let mut r: StrMap<u32> = StrMap::new();
    let mut i: usize = 0;
    while i < reported.len()
        invariant
            i <= reported.len() <= u32::MAX,
            r.entries() == spec_names(reported@, i as nat),
            names_of(reported@, i as int, r),
        decreases reported.len() - i,
    {
        let ghost before = r;
        match &reported[i] {
            Some(k) => {
                r.insert(k.clone(), (i + 1) as u32);
                proof {
                    assert(reported_at(reported@, k@, i as int));
                    assert forall|k2: Seq<char>| #[trigger]
                        r.contains(k2) <==> exists|j: int|
                            j < i + 1 && reported_at(reported@, k2, j) by {
                        if before.contains(k2) {
                            let j = choose|j: int| j < i && reported_at(reported@, k2, j);
                            assert(j < i + 1 && reported_at(reported@, k2, j));
                        }
                        if exists|j: int| j < i + 1 && reported_at(reported@, k2, j) {
                            let j = choose|j: int| j < i + 1 && reported_at(reported@, k2, j);
                            if j < i {
                                assert(before.contains(k2));
                            }
                        }
                    }
                    assert forall|k2: Seq<char>, j: int| #[trigger]
                        last_reported_at(reported@, k2, j, i + 1) implies r.spec_get(k2) == Some(
                        (j + 1) as u32,
                    ) by {
                        if k2 != k@ {
                            assert(last_reported_at(reported@, k2, j, i as int));
                        } else if j < i {
                            assert(reported_at(reported@, k2, i as int));
                        }
                    }
                }
            },
            None => {
                proof {
                    assert forall|k2: Seq<char>| #[trigger]
                        r.contains(k2) <==> exists|j: int|
                            j < i + 1 && reported_at(reported@, k2, j) by {
                        if r.contains(k2) {
                            let j = choose|j: int| j < i && reported_at(reported@, k2, j);
                            assert(j < i + 1 && reported_at(reported@, k2, j));
                        }
                        if exists|j: int| j < i + 1 && reported_at(reported@, k2, j) {
                            let j = choose|j: int| j < i + 1 && reported_at(reported@, k2, j);
                            assert(j < i);
                        }
                    }
                    assert forall|k2: Seq<char>, j: int| #[trigger]
                        last_reported_at(reported@, k2, j, i + 1) implies r.spec_get(k2) == Some(
                        (j + 1) as u32,
                    ) by {
                        assert(j < i);
                        assert(last_reported_at(reported@, k2, j, i as int));
                    }
                }
            },
        }
        i += 1;
    }
    r
}

/// The names that are keys: all but those written `?NNN`.
pub fn get_key_indexes(names: &StrMap<u32>) -> (keys: StrMap<u32>)
    requires
        names.wf(),
    ensures
        keys.entries() == spec_key_indexes(names.entries(), names.spec_len()),
        keys_of(*names, names.spec_len() as int, keys),
{
    let mut r: StrMap<u32> = StrMap::new();
    let mut p: usize = 0;
    let n = names.len();
    while p < n
        invariant
            p <= n,
            n == names.spec_len(),
            names.wf(),
            r.entries() == spec_key_indexes(names.entries(), p as nat),
            keys_of(*names, p as int, r),
        decreases n - p,
    {
        let ghost before = r;
        let k = names.key_at(p);
        let i = *names.val_at(p);
        proof {
            crate::strmap::lemma_position_unique(names.spec_keys(), p as int);
        }
        if !starts_with_qmark(k) {
            proof {
                if before.contains(k@) {
                    let j = choose|j: int| 0 <= j < p && names.spec_keys()[j] == k@;
                    assert(names.spec_keys()[j] == names.spec_keys()[p as int]);
                }
                assert(position_of(before.spec_keys(), k@) is None);
            }
            r.insert(k.clone(), i);
            proof {
                assert forall|k2: Seq<char>| #[trigger]
                    r.contains(k2) <==> !is_index_name(k2) && exists|j: int|
                        0 <= j < p + 1 && names.spec_keys()[j] == k2 by {
                    if before.contains(k2) {
                        let j = choose|j: int| 0 <= j < p && names.spec_keys()[j] == k2;
                        assert(0 <= j < p + 1 && names.spec_keys()[j] == k2);
                    }
                    if k2 == k@ {
                        assert(names.spec_keys()[p as int] == k2);
                    }
                    if !is_index_name(k2) && exists|j: int|
                        0 <= j < p + 1 && names.spec_keys()[j] == k2 {
                        let j = choose|j: int| 0 <= j < p + 1 && names.spec_keys()[j] == k2;
                        if j < p {
                            assert(before.contains(k2));
                        }
                    }
                }
            }
        } else {
            proof {
                assert forall|k2: Seq<char>| #[trigger]
                    r.contains(k2) <==> !is_index_name(k2) && exists|j: int|
                        0 <= j < p + 1 && names.spec_keys()[j] == k2 by {
                    if r.contains(k2) {
                        let j = choose|j: int| 0 <= j < p && names.spec_keys()[j] == k2;
                        assert(0 <= j < p + 1 && names.spec_keys()[j] == k2);
                    }
                    if !is_index_name(k2) && exists|j: int|
                        0 <= j < p + 1 && names.spec_keys()[j] == k2 {
                        let j = choose|j: int| 0 <= j < p + 1 && names.spec_keys()[j] == k2;
                        assert(j < p);
                    }
                }
            }
        }
        p += 1;
    }
    r
}

/// The keys grouped by name without prefix: `:a`, `@a` and `$a` are one key,
/// `a`, that stands at every position of the three.
pub fn get_key_indexes_normal(keys: &StrMap<u32>) -> (normal: StrMap<Vec<u32>>)
    requires
        keys.wf(),
        forall|p: int| 0 <= p < keys.spec_len() ==> has_prefix(#[trigger] keys.spec_keys()[p]),
    ensures
        (normal.spec_keys(), lists_of(normal)) == spec_key_indexes_normal(
            keys.entries(),
            keys.spec_len(),
        ),
        keys_normal_of(*keys, keys.spec_len() as int, normal),
{
    let mut r: StrMap<Vec<u32>> = StrMap::new();
    let mut p: usize = 0;
    let m = keys.len();
    assert(lists_of(r) =~= Seq::<Seq<u32>>::empty());
    while p < m
        invariant
            p <= m,
            m == keys.spec_len(),
            keys.wf(),
            (r.spec_keys(), lists_of(r)) == spec_key_indexes_normal(keys.entries(), p as nat),
            forall|q: int| 0 <= q < keys.spec_len() ==> has_prefix(#[trigger] keys.spec_keys()[q]),
            keys_normal_of(*keys, p as int, r),
        decreases m - p,
    {
        let ghost before = r;
        let k = keys.key_at(p);
        let i = *keys.val_at(p);
        assert(has_prefix(keys.spec_keys()[p as int]));
        let normal_k = without_prefix(k);
        let ghost nk = normal_k@;
        assert(keys.spec_keys()[p as int].drop_first() == nk);
        match r.index_of(&normal_k) {
            Some(pos) => {
                proof {
                    crate::strmap::lemma_position_unique(r.spec_keys(), pos as int);
                }
                let ghost old_list = r.spec_vals()[pos as int];
                assert(before.spec_get(nk) == Some(old_list));
                assert(before.contains(nk));
                assert(old_list@.no_duplicates());
                let list = r.val_at_mut(pos);
                if !list_contains(list, i) {
                    list.push(i);
                    assert(list@ == old_list@.push(i));
                    assert forall|a: int, b: int|
                        0 <= a < list@.len() && 0 <= b < list@.len() && a != b implies list@[a]
                        != list@[b] by {
                        if a < old_list@.len() {
                            assert(old_list@.contains(list@[a]));
                        }
                        if b < old_list@.len() {
                            assert(old_list@.contains(list@[b]));
                        }
                    }
                }
                assert(list@.no_duplicates());
                proof {
                    let new_list = r.spec_vals()[pos as int];
                    crate::strmap::lemma_update_value(
                        before.spec_keys(),
                        before.spec_vals(),
                        pos as int,
                        new_list,
                    );
                    assert(r.spec_get(nk) == Some(new_list));
                    assert forall|i2: u32| new_list@.contains(i2) <==> old_list@.contains(i2) || i2
                        == i by {
                        if old_list@.contains(i) {
                            assert(new_list@ == old_list@);
                        } else {
                            assert(new_list@ == old_list@.push(i));
                            if old_list@.contains(i2) {
                                let j = choose|j: int|
                                    0 <= j < old_list@.len() && old_list@[j] == i2;
                                assert(new_list@[j] == i2);
                            }
                            assert(new_list@[old_list@.len() as int] == i);
                        }
                    }
                    lemma_group_step(*keys, p as int, before, r, nk, i, old_list@, new_list@);
                    assert(lists_of(r) =~= lists_of(before).update(pos as int, new_list@));
                    assert(lists_of(before)[pos as int] == old_list@);
                }
            },
            None => {
                let mut list: Vec<u32> = Vec::new();
                list.push(i);
                let ghost new_list = list;
                r.insert(normal_k, list);
                proof {
                    assert(new_list@ =~= seq![i]);
                    assert(new_list@.no_duplicates());
                    assert forall|i2: u32| new_list@.contains(i2) <==> i2 == i by {
                        assert(new_list@[0] == i);
                    }
                    assert(!stands_before(*keys, p as int, nk));
                    lemma_group_step(
                        *keys,
                        p as int,
                        before,
                        r,
                        nk,
                        i,
                        Seq::<u32>::empty(),
                        new_list@,
                    );
                    assert(lists_of(r) =~= lists_of(before).push(seq![i]));
                }
            },
        }
        p += 1;
    }
    r
}

/// Some entry among the first `m` of `keys` is the key `n` under a prefix.
pub open spec fn stands_before(keys: StrMap<u32>, m: int, n: Seq<char>) -> bool {
    exists|p: int| 0 <= p < m && #[trigger] keys.spec_keys()[p].drop_first() == n
}

/// One more entry of `keys` taken into the grouping: its position joins the
/// list of its key, and every other key keeps its list.
proof fn lemma_group_step(
    keys: StrMap<u32>,
    p: int,
    before: StrMap<Vec<u32>>,
    after: StrMap<Vec<u32>>,
    nk: Seq<char>,
    i: u32,
    old_list: Seq<u32>,
    new_list: Seq<u32>,
)
    requires
        0 <= p < keys.spec_len(),
        keys.spec_keys().len() == keys.spec_vals().len(),
        keys_normal_of(keys, p, before),
        after.wf(),
        keys.spec_keys()[p].drop_first() == nk,
        keys.spec_vals()[p] == i,
        before.contains(nk) ==> before.spec_get(nk)->0@ == old_list,
        !before.contains(nk) ==> old_list.len() == 0,
        after.spec_get(nk) is Some,
        after.spec_get(nk)->0@ == new_list,
        new_list.no_duplicates(),
        forall|i2: u32| new_list.contains(i2) <==> old_list.contains(i2) || i2 == i,
        forall|n2: Seq<char>| #[trigger] after.contains(n2) <==> before.contains(n2) || n2 == nk,
        forall|n2: Seq<char>| n2 != nk ==> #[trigger] after.spec_get(n2) == before.spec_get(n2),
    ensures
        keys_normal_of(keys, p + 1, after),
{
    assert forall|n: Seq<char>| #[trigger]
        after.contains(n) <==> exists|q: int|
            0 <= q < p + 1 && #[trigger] keys.spec_keys()[q].drop_first() == n by {
        if before.contains(n) {
            let q = choose|q: int| 0 <= q < p && #[trigger] keys.spec_keys()[q].drop_first() == n;
            assert(0 <= q < p + 1 && keys.spec_keys()[q].drop_first() == n);
        }
        if exists|q: int| 0 <= q < p + 1 && #[trigger] keys.spec_keys()[q].drop_first() == n {
            let q = choose|q: int|
                0 <= q < p + 1 && #[trigger] keys.spec_keys()[q].drop_first() == n;
            if q < p {
                assert(before.contains(n));
            }
        }
    }
    assert forall|n: Seq<char>, i2: u32| after.contains(n) implies (after.spec_get(
        n,
    )->0@.contains(i2) <==> #[trigger] stands_at(keys, p + 1, n, i2)) by {
        if n == nk {
            if old_list.contains(i2) {
                assert(before.contains(nk));
                assert(stands_at(keys, p, n, i2));
                let q = choose|q: int|
                    0 <= q < p && #[trigger] keys.spec_keys()[q].drop_first() == n
                        && keys.spec_vals()[q] == i2;
                assert(0 <= q < p + 1 && keys.spec_keys()[q].drop_first() == n
                    && keys.spec_vals()[q] == i2);
            }
            if i2 == i {
                assert(0 <= p < p + 1 && keys.spec_keys()[p].drop_first() == n && keys.spec_vals()[p]
                    == i2);
            }
            if stands_at(keys, p + 1, n, i2) {
                let q = choose|q: int|
                    0 <= q < p + 1 && #[trigger] keys.spec_keys()[q].drop_first() == n
                        && keys.spec_vals()[q] == i2;
                if q < p {
                    assert(before.contains(n));
                    assert(stands_at(keys, p, n, i2));
                }
            }
        } else {
            assert(before.contains(n));
            if stands_at(keys, p, n, i2) {
                let q = choose|q: int|
                    0 <= q < p && #[trigger] keys.spec_keys()[q].drop_first() == n
                        && keys.spec_vals()[q] == i2;
                assert(0 <= q < p + 1 && keys.spec_keys()[q].drop_first() == n
                    && keys.spec_vals()[q] == i2);
            }
            if stands_at(keys, p + 1, n, i2) {
                let q = choose|q: int|
                    0 <= q < p + 1 && #[trigger] keys.spec_keys()[q].drop_first() == n
                        && keys.spec_vals()[q] == i2;
                assert(q < p);
                assert(stands_at(keys, p, n, i2));
            }
        }
    }
    assert forall|n: Seq<char>| #[trigger] after.contains(n) implies after.spec_get(
        n,
    )->0@.no_duplicates() by {
        if n != nk {
            assert(before.contains(n));
        }
    }
}

/// Position `i + 1` carries the name of a key: a name that is not `?NNN`.
pub open spec fn has_key_name(reported: Seq<Option<String>>, i: int) -> bool {
    reported[i] matches Some(s) && !is_index_name(s@)
}

/// No name is reported for two positions.
pub open spec fn names_differ(reported: Seq<Option<String>>) -> bool {
    forall|i: int, j: int|
        0 <= i < j < reported.len() && (#[trigger] reported[i]) is Some && (
        #[trigger] reported[j]) is Some ==> reported[i]->0@ != reported[j]->0@
}

/// The kind of placeholders of a statement, by its positions: none where it
/// has no position; index where no position carries the name of a key; key
/// where every position does; and both where some do and some do not.
pub open spec fn kind_by_positions(reported: Seq<Option<String>>) -> PlaceholderTypes {
    if reported.len() == 0 {
        PlaceholderTypes::NoneUsed
    } else if forall|i: int| 0 <= i < reported.len() ==> !has_key_name(reported, i) {
        PlaceholderTypes::Index
    } else if forall|i: int| 0 <= i < reported.len() ==> has_key_name(reported, i) {
        PlaceholderTypes::Key
    } else {
        PlaceholderTypes::IndexAndKey
    }
}

/// One of the first `n` positions carries the name `k`.
spec fn reported_before(reported: Seq<Option<String>>, k: Seq<char>, n: nat) -> bool {
    exists|i: int| 0 <= i < n && reported_at(reported, k, i)
}

/// How many of the first `n` positions carry the name of a key.
spec fn key_positions(reported: Seq<Option<String>>, n: nat) -> nat
    decreases n,
{
    if n == 0 {
        0
    } else {
        key_positions(reported, (n - 1) as nat) + if has_key_name(reported, n - 1) {
            1nat
        } else {
            0nat
        }
    }
}

/// How many of the first `m` names are keys.
spec fn key_count(names: Seq<Seq<char>>, m: nat) -> nat
    decreases m,
{
    if m == 0 {
        0
    } else {
        key_count(names, (m - 1) as nat) + if is_index_name(names[m - 1]) {
            0nat
        } else {
            1nat
        }
    }
}

proof fn lemma_key_count_prefix(names: Seq<Seq<char>>, k: Seq<char>, m: nat)
    requires
        m <= names.len(),
    ensures
        key_count(names.push(k), m) == key_count(names, m),
    decreases m,
{
    if m > 0 {
        lemma_key_count_prefix(names, k, (m - 1) as nat);
        assert(names.push(k)[m - 1] == names[m - 1]);
    }
}

proof fn lemma_keys_counted(names: (Seq<Seq<char>>, Seq<u32>), m: nat)
    requires
        m <= names.0.len(),
    ensures
        spec_key_indexes(names, m).0.len() == key_count(names.0, m),
        spec_key_indexes(names, m).1.len() == key_count(names.0, m),
    decreases m,
{
    if m > 0 {
        lemma_keys_counted(names, (m - 1) as nat);
    }
}

proof fn lemma_key_positions(reported: Seq<Option<String>>, n: nat)
    requires
        n <= reported.len(),
    ensures
        key_positions(reported, n) <= n,
        key_positions(reported, n) == 0 <==> forall|i: int|
            0 <= i < n ==> !has_key_name(reported, i),
        key_positions(reported, n) == n <==> forall|i: int|
            0 <= i < n ==> has_key_name(reported, i),
    decreases n,
{
    if n > 0 {
        lemma_key_positions(reported, (n - 1) as nat);
        if key_positions(reported, n) == n {
            assert forall|i: int| 0 <= i < n implies has_key_name(reported, i) by {
                if i < n - 1 {
                }
            }
        }
        if forall|i: int| 0 <= i < n ==> has_key_name(reported, i) {
            assert(has_key_name(reported, n - 1));
        }
        if forall|i: int| 0 <= i < n ==> !has_key_name(reported, i) {
            assert(!has_key_name(reported, n - 1));
        }
    }
}

/// Where no name is reported twice, each name reported takes a place of its
/// own among the names, and the keys among them are as many as the positions
/// that carry the name of a key.
proof fn lemma_names_counted(reported: Seq<Option<String>>, n: nat)
    requires
        n <= reported.len(),
        names_differ(reported),
    ensures
        spec_names(reported, n).0.len() == spec_names(reported, n).1.len(),
        forall|j: int|
            0 <= j < spec_names(reported, n).0.len() ==> reported_before(
                reported,
                #[trigger] spec_names(reported, n).0[j],
                n,
            ),
        key_count(spec_names(reported, n).0, spec_names(reported, n).0.len()) == key_positions(
            reported,
            n,
        ),
    decreases n,
{
    if n > 0 {
        let m = (n - 1) as nat;
        lemma_names_counted(reported, m);
        let prev = spec_names(reported, m);
        let cur = spec_names(reported, n);
        match reported[n - 1] {
            Some(s) => {
                if position_of(prev.0, s@) is Some {
                    let j = position_of(prev.0, s@)->0;
                    assert(prev.0[j] == s@);
                    assert(reported_before(reported, prev.0[j], m));
                    let i = choose|i: int| 0 <= i < m && reported_at(reported, prev.0[j], i);
                    assert(reported[i] is Some && reported[n - 1] is Some);
                    assert(false);
                }
                assert(cur.0 == prev.0.push(s@));
                assert(cur.1 == prev.1.push(n as u32));
                lemma_key_count_prefix(prev.0, s@, prev.0.len());
                assert(cur.0[prev.0.len() as int] == s@);
                assert forall|j: int| 0 <= j < cur.0.len() implies reported_before(
                    reported,
                    #[trigger] cur.0[j],
                    n,
                ) by {
                    if j < prev.0.len() {
                        assert(cur.0[j] == prev.0[j]);
                        assert(reported_before(reported, prev.0[j], m));
                        let i = choose|i: int| 0 <= i < m && reported_at(reported, prev.0[j], i);
                        assert(0 <= i < n && reported_at(reported, cur.0[j], i));
                    } else {
                        assert(reported_at(reported, cur.0[j], n - 1));
                    }
                }
            },
            None => {
                assert(cur == prev);
                assert forall|j: int| 0 <= j < cur.0.len() implies reported_before(
                    reported,
                    #[trigger] cur.0[j],
                    n,
                ) by {
                    assert(reported_before(reported, prev.0[j], m));
                    let i = choose|i: int| 0 <= i < m && reported_at(reported, prev.0[j], i);
                    assert(0 <= i < n && reported_at(reported, cur.0[j], i));
                }
            },
        }
    }
}

/// The kind of placeholders is what the positions say: none where the
/// statement has no position; index where no position carries the name of a
/// key; key where every position does; both where some do and some do not.
/// This holds where the driver reports no name for two positions.
pub proof fn law_kinds_by_positions(reported: Seq<Option<String>>, meta: PlaceholderMeta)
    requires
        meta_of(reported, meta),
        reported.len() <= u32::MAX,
        names_differ(reported),
    ensures
        meta.types_used == kind_by_positions(reported),
{
    let n = reported.len();
    let names = spec_names(reported, n);
    lemma_names_counted(reported, n);
    lemma_keys_counted(names, names.0.len());
    lemma_key_positions(reported, n);
    assert(meta.keys.spec_len() == key_positions(reported, n));
    if has_index_name(meta.names.spec_keys()) {
        let j = choose|j: int|
            0 <= j < meta.names.spec_keys().len() && is_index_name(
                #[trigger] meta.names.spec_keys()[j],
            );
        assert(reported_before(reported, names.0[j], n));
        let i = choose|i: int| 0 <= i < n && reported_at(reported, names.0[j], i);
        assert(!has_key_name(reported, i));
    }
}

} // verus!

//! The table of cache records: at most one record for a key, and no
//! identifier used twice.

use vstd::prelude::*;
use crate::key::{CacheKey, KeyView};
use crate::laws::identifiers_stay_distinct;
use crate::record::{CacheRecord, RecordId, Row};
use crate::time::Timestamp;

verus! {

/// Whether some record of the table `table` carries the identifier `id`.
pub open spec fn id_in_use(table: Map<KeyView, Row>, id: RecordId) -> bool {
    exists|k: KeyView| #[trigger] table.contains_key(k) && table[k].id == id
}

/// Whether no two records of the table `table` share an identifier.
pub open spec fn ids_distinct(table: Map<KeyView, Row>) -> bool {
    forall|j: KeyView, k: KeyView|
        #![trigger table.contains_key(j), table.contains_key(k)]
        table.contains_key(j) && table.contains_key(k) && j != k ==> table[j].id != table[k].id
}

/// The row that a write of `incoming` leaves where `present` stood: the
/// document and both instants of the write, under the identifier that the
/// row had.
pub open spec fn overwritten(present: Row, incoming: Row) -> Row {
    Row {
        id: present.id,
        value: incoming.value,
        created_at: incoming.created_at,
        expires_at: incoming.expires_at,
    }
}

/// The table after an upsert of `incoming` under `key`.
///
/// Where the key has a row, the write replaces its document and instants and
/// keeps its identifier. Where it has none, the row is inserted as it
/// comes, unless its identifier is in use: then nothing changes.
pub open spec fn upserted(table: Map<KeyView, Row>, key: KeyView, incoming: Row) -> Map<
    KeyView,
    Row,
> {
    if table.contains_key(key) {
        table.insert(key, overwritten(table[key], incoming))
    } else if id_in_use(table, incoming.id) {
        table
    } else {
        table.insert(key, incoming)
    }
}

/// The identifier that an upsert of `incoming` under `key` reports: that of
/// the row written, or none where the insert was refused.
pub open spec fn upsert_id(table: Map<KeyView, Row>, key: KeyView, incoming: Row) -> Option<
    RecordId,
> {
    if table.contains_key(key) {
        Some(table[key].id)
    } else if id_in_use(table, incoming.id) {
        None
    } else {
        Some(incoming.id)
    }
}

/// The row `row` once it has been made to expire at `at`.
pub open spec fn expired_row(row: Row, at: Timestamp) -> Row {
    Row { id: row.id, value: row.value, created_at: row.created_at, expires_at: Some(at) }
}

/// The table after every row under `key` has been made to expire at `at`.
pub open spec fn expired(table: Map<KeyView, Row>, key: KeyView, at: Timestamp) -> Map<
    KeyView,
    Row,
> {
    if table.contains_key(key) {
        table.insert(key, expired_row(table[key], at))
    } else {
        table
    }
}

/// How many rows stand under `key`.
pub open spec fn rows_matching(table: Map<KeyView, Row>, key: KeyView) -> nat {
    if table.contains_key(key) {
        1
    } else {
        0
    }
}

spec fn holds(rows: Seq<CacheRecord>, key: KeyView, i: int) -> bool {
    0 <= i < rows.len() && rows[i].key@ == key
}

spec fn distinct(rows: Seq<CacheRecord>) -> bool {
    forall|i: int, j: int|
        0 <= i < j < rows.len() ==> rows[i].key@ != rows[j].key@ && rows[i].id != rows[j].id
}

spec fn table_of(rows: Seq<CacheRecord>) -> Map<KeyView, Row> {
    Map::new(
        |k: KeyView| exists|i: int| holds(rows, k, i),
        |k: KeyView| rows[choose|i: int| holds(rows, k, i)].row(),
    )
}

/// Each row of a well-formed sequence is what the table holds for its key.
proof fn lemma_row_in_table(rows: Seq<CacheRecord>, i: int)
    requires
        distinct(rows),
        0 <= i < rows.len(),
    ensures
        table_of(rows).contains_key(rows[i].key@),
        table_of(rows)[rows[i].key@] == rows[i].row(),
{
    let k = rows[i].key@;
    assert(holds(rows, k, i));
    let c = choose|c: int| holds(rows, k, c);
    assert(c == i);
}

/// A key that no row carries is not in the table.
proof fn lemma_key_absent(rows: Seq<CacheRecord>, key: KeyView)
    requires
        forall|i: int| 0 <= i < rows.len() ==> rows[i].key@ != key,
    ensures
        !table_of(rows).contains_key(key),
{
    assert(forall|i: int| !holds(rows, key, i));
}

/// An identifier is in use in the table exactly when a row carries it.
proof fn lemma_id_in_use(rows: Seq<CacheRecord>, id: RecordId)
    requires
        distinct(rows),
    ensures
        id_in_use(table_of(rows), id) <==> exists|i: int| 0 <= i < rows.len() && rows[i].id == id,
{
    let table = table_of(rows);
    if id_in_use(table, id) {
        let k = choose|k: KeyView| #[trigger] table.contains_key(k) && table[k].id == id;
        let i = choose|i: int| holds(rows, k, i);
        assert(holds(rows, k, i));
        assert(rows[i].id == id);
    }
    if exists|i: int| 0 <= i < rows.len() && rows[i].id == id {
        let i = choose|i: int| 0 <= i < rows.len() && rows[i].id == id;
        lemma_row_in_table(rows, i);
        assert(table.contains_key(rows[i].key@));
    }
}

/// The identifiers of a well-formed sequence are distinct in its table.
proof fn lemma_ids_distinct(rows: Seq<CacheRecord>)
    requires
        distinct(rows),
    ensures
        ids_distinct(table_of(rows)),
{
    let table = table_of(rows);
    assert forall|j: KeyView, k: KeyView|
        table.contains_key(j) && table.contains_key(k) && j != k implies table[j].id
        != table[k].id by {
        let a = choose|a: int| holds(rows, j, a);
        let b = choose|b: int| holds(rows, k, b);
        assert(holds(rows, j, a) && holds(rows, k, b));
        assert(a != b);
    }
}

/// The keys of the table are as many as the rows.
proof fn lemma_table_len(rows: Seq<CacheRecord>)
    requires
        distinct(rows),
    ensures
        table_of(rows).dom().finite(),
        table_of(rows).dom().len() == rows.len(),
    decreases rows.len(),
{
    if rows.len() == 0 {
        assert(table_of(rows).dom() =~= Set::<KeyView>::empty()) by {
            assert(forall|k: KeyView, i: int| !holds(rows, k, i));
        }
    } else {
        let front = rows.drop_last();
        let last = rows.last();
        assert(distinct(front));
        lemma_table_len(front);
        assert(table_of(rows).dom() =~= table_of(front).dom().insert(last.key@)) by {
            assert forall|k: KeyView| table_of(rows).dom().contains(k) implies table_of(
                front,
            ).dom().insert(last.key@).contains(k) by {
                let i = choose|i: int| holds(rows, k, i);
                if i < rows.len() - 1 {
                    assert(holds(front, k, i));
                }
            }
            assert forall|k: KeyView|
                table_of(front).dom().insert(last.key@).contains(k) implies table_of(
                rows,
            ).dom().contains(k) by {
                if k == last.key@ {
                    assert(holds(rows, k, rows.len() - 1));
                } else {
                    let i = choose|i: int| holds(front, k, i);
                    assert(holds(rows, k, i));
                }
            }
        }
        assert(!table_of(front).dom().contains(last.key@)) by {
            if table_of(front).dom().contains(last.key@) {
                let i = choose|i: int| holds(front, last.key@, i);
                assert(holds(front, last.key@, i));
                assert(rows[i].key@ == rows[rows.len() - 1].key@);
            }
        }
    }
}

/// Appending a row with a new key and an unused identifier inserts it.
proof fn lemma_push(rows: Seq<CacheRecord>, record: CacheRecord)
    requires
        distinct(rows),
        forall|i: int| 0 <= i < rows.len() ==> rows[i].key@ != record.key@,
        forall|i: int| 0 <= i < rows.len() ==> rows[i].id != record.id,
    ensures
        distinct(rows.push(record)),
        table_of(rows.push(record)) == table_of(rows).insert(record.key@, record.row()),
{
    let after = rows.push(record);
    assert(distinct(after));
    assert forall|k: KeyView| #[trigger]
        table_of(after).contains_key(k) <==> table_of(rows).insert(
            record.key@,
            record.row(),
        ).contains_key(k) by {
        if table_of(after).contains_key(k) {
            let i = choose|i: int| holds(after, k, i);
            if i < rows.len() {
                assert(holds(rows, k, i));
            }
        }
        if table_of(rows).contains_key(k) {
            let i = choose|i: int| holds(rows, k, i);
            assert(holds(after, k, i));
        }
        if k == record.key@ {
            assert(holds(after, k, rows.len() as int));
        }
    }
    assert forall|k: KeyView| #[trigger] table_of(after).contains_key(k) implies table_of(
        after,
    )[k] == table_of(rows).insert(record.key@, record.row())[k] by {
        let i = choose|i: int| holds(after, k, i);
        lemma_row_in_table(after, i);
        if i < rows.len() {
            lemma_row_in_table(rows, i);
        }
    }
    assert(table_of(after) =~= table_of(rows).insert(record.key@, record.row()));
}

/// Replacing a row by one with the same key and identifier replaces what the
/// table holds for that key.
proof fn lemma_update(rows: Seq<CacheRecord>, at: int, record: CacheRecord)
    requires
        distinct(rows),
        0 <= at < rows.len(),
        record.key@ == rows[at].key@,
        record.id == rows[at].id,
    ensures
        distinct(rows.update(at, record)),
        table_of(rows.update(at, record)) == table_of(rows).insert(record.key@, record.row()),
{
    let after = rows.update(at, record);
    assert(distinct(after)) by {
        assert forall|i: int, j: int| 0 <= i < j < after.len() implies after[i].key@
            != after[j].key@ && after[i].id != after[j].id by {
            assert(after[i].key@ == rows[i].key@ && after[i].id == rows[i].id);
            assert(after[j].key@ == rows[j].key@ && after[j].id == rows[j].id);
        }
    }
    assert forall|k: KeyView| #[trigger]
        table_of(after).contains_key(k) <==> table_of(rows).insert(
            record.key@,
            record.row(),
        ).contains_key(k) by {
        if table_of(after).contains_key(k) {
            let i = choose|i: int| holds(after, k, i);
            assert(holds(rows, k, i));
        }
        if table_of(rows).contains_key(k) {
            let i = choose|i: int| holds(rows, k, i);
            assert(holds(after, k, i));
        }
        if k == record.key@ {
            assert(holds(after, k, at));
        }
    }
    assert forall|k: KeyView| #[trigger] table_of(after).contains_key(k) implies table_of(
        after,
    )[k] == table_of(rows).insert(record.key@, record.row())[k] by {
        let i = choose|i: int| holds(after, k, i);
        lemma_row_in_table(after, i);
        if i != at {
            assert(after[i] == rows[i]);
            lemma_row_in_table(rows, i);
        }
    }
    assert(table_of(after) =~= table_of(rows).insert(record.key@, record.row()));
}

/// The cache table.
///
/// It holds at most one record for a key and gives no identifier to two
/// records. What it holds is its view: the map from each key that has a
/// record to the rest of that record.
pub struct CacheStore {
    rows: Vec<CacheRecord>,
}

impl View for CacheStore {
    type V = Map<KeyView, Row>;

    closed spec fn view(&self) -> Map<KeyView, Row> {
        table_of(self.rows@)
    }
}

impl CacheStore {
    #[verifier::type_invariant]
    spec fn well_formed(self) -> bool {
        distinct(self.rows@)
    }

    /// An empty table.
    pub fn new() -> (store: CacheStore)
        ensures
            store@ == Map::<KeyView, Row>::empty(),
    {
        let store = CacheStore { rows: Vec::new() };
        proof {
            lemma_key_absent_everywhere(store.rows@);
            assert(store@ =~= Map::<KeyView, Row>::empty());
        }
        store
    }

    /// The number of records.
    pub fn len(&self) -> (n: usize)
        ensures
            self@.dom().finite(),
            n == self@.dom().len(),
            ids_distinct(self@),
    {
        proof {
            use_type_invariant(self);
            lemma_table_len(self.rows@);
            lemma_ids_distinct(self.rows@);
        }
        self.rows.len()
    }

    /// Where the row under `key` stands, if there is one.
    fn position(&self, key: &CacheKey) -> (at: Option<usize>)
        ensures
            match at {
                Some(i) => i < self.rows@.len() && self.rows@[i as int].key@ == key@,
                None => forall|i: int| 0 <= i < self.rows@.len() ==> self.rows@[i].key@ != key@,
            },
    {
        let mut i: usize = 0;
        while i < self.rows.len()
            invariant
                i <= self.rows@.len(),
                forall|j: int| 0 <= j < i ==> self.rows@[j].key@ != key@,
            decreases self.rows@.len() - i,
        {
            if self.rows[i].key.same(key) {
                return Some(i);
            }
            i += 1;
        }
        None
    }

    /// Whether some row carries the identifier `id`.
    fn carries(&self, id: RecordId) -> (found: bool)
        ensures
            found == exists|i: int| 0 <= i < self.rows@.len() && self.rows@[i].id == id,
    {
        let mut i: usize = 0;
        while i < self.rows.len()
            invariant
                i <= self.rows@.len(),
                forall|j: int| 0 <= j < i ==> self.rows@[j].id != id,
            decreases self.rows@.len() - i,
        {
            if self.rows[i].id == id {
                return true;
            }
            i += 1;
        }
        false
    }

    /// The record kept under `key`, if there is one.
    pub fn find_by_key(&self, key: &CacheKey) -> (found: Option<&CacheRecord>)
        ensures
            match found {
                Some(record) => self@.contains_key(key@) && record.key@ == key@ && record.row()
                    == self@[key@],
                None => !self@.contains_key(key@),
            },
    {
        proof {
            use_type_invariant(self);
        }
        match self.position(key) {
            Some(i) => {
                proof {
                    lemma_row_in_table(self.rows@, i as int);
                }
                Some(&self.rows[i])
            },
            None => {
                proof {
                    lemma_key_absent(self.rows@, key@);
                }
                None
            },
        }
    }

    /// Writes `record` under its key, replacing what the key had.
    ///
    /// A key that has a row keeps the row's identifier and takes the
    /// document and both instants of `record`. A key that has none gets
    /// `record` as it comes, unless another row carries its identifier:
    /// then the table stays as it was and `None` is returned. Otherwise
    /// the identifier of the row written is returned.
    pub fn upsert(&mut self, record: CacheRecord) -> (id: Option<RecordId>)
        ensures
            final(self)@ == upserted(old(self)@, record.key@, record.row()),
            id == upsert_id(old(self)@, record.key@, record.row()),
            ids_distinct(final(self)@),
    {
        proof {
            use_type_invariant(&*self);
            lemma_ids_distinct(self.rows@);
            identifiers_stay_distinct(self@, record.key@, record.row(), record.created_at);
        }
        match self.position(&record.key) {
            Some(i) => {
                let kept = self.rows[i].id;
                let written = CacheRecord {
                    id: kept,
                    key: record.key,
                    value: record.value,
                    created_at: record.created_at,
                    expires_at: record.expires_at,
                };
                proof {
                    lemma_row_in_table(self.rows@, i as int);
                    lemma_update(self.rows@, i as int, written);
                }
                let mut rows: Vec<CacheRecord> = Vec::new();
                std::mem::swap(&mut rows, &mut self.rows);
                rows.set(i, written);
                self.rows = rows;
                Some(kept)
            },
            None => {
                proof {
                    lemma_key_absent(self.rows@, record.key@);
                    lemma_id_in_use(self.rows@, record.id);
                }
                if self.carries(record.id) {
                    None
                } else {
                    let id = record.id;
                    proof {
                        lemma_push(self.rows@, record);
                    }
                    let mut rows: Vec<CacheRecord> = Vec::new();
                    std::mem::swap(&mut rows, &mut self.rows);
                    rows.push(record);
                    self.rows = rows;
                    Some(id)
                }
            },
        }
    }
}

impl CacheStore {
    /// Makes every record under `key` expire at `at`, and returns how many
    /// records that were: one or none.
    pub fn expire_matching(&mut self, key: &CacheKey, at: Timestamp) -> (affected: u64)
        ensures
            final(self)@ == expired(old(self)@, key@, at),
            affected == rows_matching(old(self)@, key@),
            ids_distinct(final(self)@),
    {
        proof {
            use_type_invariant(&*self);
            lemma_ids_distinct(self.rows@);
            identifiers_stay_distinct(self@, key@, self@[key@], at);
        }
        match self.position(key) {
            Some(i) => {
                let mut rows: Vec<CacheRecord> = Vec::new();
                std::mem::swap(&mut rows, &mut self.rows);
                let ghost before = rows@;
                let row = rows.remove(i);
                let written = CacheRecord {
                    id: row.id,
                    key: row.key,
                    value: row.value,
                    created_at: row.created_at,
                    expires_at: Some(at),
                };
                rows.insert(i, written);
                proof {
                    assert(rows@ =~= before.update(i as int, written));
                    lemma_row_in_table(before, i as int);
                    lemma_update(before, i as int, written);
                }
                self.rows = rows;
                1
            },
            None => {
                proof {
                    lemma_key_absent(self.rows@, key@);
                }
                0
            },
        }
    }
}

/// A sequence without rows has an empty table.
proof fn lemma_key_absent_everywhere(rows: Seq<CacheRecord>)
    requires
        rows.len() == 0,
    ensures
        forall|k: KeyView| !table_of(rows).contains_key(k),
{
    assert(forall|k: KeyView, i: int| !holds(rows, k, i));
}

} // verus!

//! Rows kept in insertion order, each under a key that is handed out once.

use vstd::prelude::*;

verus! {

/// A row that carries its own key.
pub trait Record: Sized {
    /// The row's key.
    spec fn key(&self) -> i32;

    /// The row's key.
    fn id(&self) -> (id: i32)
        ensures
            id == self.key(),
    ;
}

/// Whether `i` is the first position at which `mask` holds.
pub open spec fn is_first_true(mask: Seq<bool>, i: int) -> bool {
    &&& 0 <= i < mask.len()
    &&& mask[i]
    &&& forall|j: int| 0 <= j < i ==> !#[trigger] mask[j]
}

/// The first position at which `mask` holds, if there is one.
pub open spec fn first_true(mask: Seq<bool>) -> Option<int> {
    if exists|i: int| is_first_true(mask, i) {
        Some(choose|i: int| is_first_true(mask, i))
    } else {
        None
    }
}

/// A position that is the first to hold is the one `first_true` names.
pub proof fn lemma_first_true_found(mask: Seq<bool>, i: int)
    requires
        is_first_true(mask, i),
    ensures
        first_true(mask) == Some(i),
{
}

/// What `first_true` says of its answer.
pub proof fn lemma_first_true(mask: Seq<bool>)
    ensures
        match first_true(mask) {
            Some(i) => is_first_true(mask, i),
            None => forall|j: int| 0 <= j < mask.len() ==> !#[trigger] mask[j],
        },
{
    if !exists|i: int| is_first_true(mask, i) {
        assert forall|j: int| 0 <= j < mask.len() implies !#[trigger] mask[j] by {
            if mask[j] {
                lemma_some_first_true(mask, j);
            }
        }
    }
}

/// A position that holds puts a first such position at or before it.
proof fn lemma_some_first_true(mask: Seq<bool>, j: int)
    requires
        0 <= j < mask.len(),
        mask[j],
    ensures
        exists|i: int| is_first_true(mask, i),
    decreases j,
{
    if forall|k: int| 0 <= k < j ==> !#[trigger] mask[k] {
        assert(is_first_true(mask, j));
    } else {
        let k = choose|k: int| 0 <= k < j && #[trigger] mask[k];
        lemma_some_first_true(mask, k);
    }
}

/// For each row of `rows`, whether its key is `key`.
pub open spec fn key_mask<T: Record>(rows: Seq<T>, key: i32) -> Seq<bool> {
    Seq::new(rows.len(), |i: int| rows[i].key() == key)
}

/// Filtering one more row either adds that row at the end or changes nothing.
pub proof fn lemma_filter_step<T>(rows: Seq<T>, keep: spec_fn(T) -> bool, i: int)
    requires
        0 <= i < rows.len(),
    ensures
        rows.take(i + 1).filter(keep) == if keep(rows[i]) {
            rows.take(i).filter(keep).push(rows[i])
        } else {
            rows.take(i).filter(keep)
        },
{
    reveal(Seq::filter);
    assert(rows.take(i + 1).drop_last() =~= rows.take(i));
}

/// Whether no two rows of `rows` share a key.
pub open spec fn keys_distinct<T: Record>(rows: Seq<T>) -> bool {
    forall|i: int, j: int|
        0 <= i < rows.len() && 0 <= j < rows.len() && i != j ==> (#[trigger] rows[i]).key() != (
        #[trigger] rows[j]).key()
}

/// Whether every key of `rows` lies below `bound`.
pub open spec fn keys_below<T: Record>(rows: Seq<T>, bound: int) -> bool {
    forall|i: int| 0 <= i < rows.len() ==> (#[trigger] rows[i]).key() < bound
}

/// The position of the row of `rows` that has the key `key`, if there is one.
pub open spec fn index_of_key<T: Record>(rows: Seq<T>, key: i32) -> Option<int> {
    first_true(key_mask(rows, key))
}

/// What a table holds: its rows in insertion order and the key that the next
/// new row gets.
pub struct TableView<T> {
    pub rows: Seq<T>,
    pub next_key: i32,
}

impl<T: Record> TableView<T> {
    /// Keys are distinct and all below the next key to hand out, which is
    /// at least 1.
    pub open spec fn wf(self) -> bool {
        &&& self.next_key >= 1
        &&& keys_distinct(self.rows)
        &&& keys_below(self.rows, self.next_key as int)
    }

    /// Whether the table is new: it has no row, and its first key will be 1.
    pub open spec fn is_new(self) -> bool {
        self.rows.len() == 0 && self.next_key == 1
    }

    /// The table with `row` added at the end and the next key moved on.
    pub open spec fn appended(self, row: T) -> TableView<T> {
        TableView { rows: self.rows.push(row), next_key: (self.next_key + 1) as i32 }
    }

    /// The table without the row at position `i`.
    pub open spec fn without(self, i: int) -> TableView<T> {
        TableView { rows: self.rows.remove(i), next_key: self.next_key }
    }

    /// The table with `row` in place of the row at position `i`.
    pub open spec fn with_row(self, i: int, row: T) -> TableView<T> {
        TableView { rows: self.rows.update(i, row), next_key: self.next_key }
    }
}

/// Adding a row under the next key keeps a table well formed, and the new
/// row is then the one found under that key.
pub proof fn lemma_appended<T: Record>(table: TableView<T>, row: T)
    requires
        table.wf(),
        row.key() == table.next_key,
        table.next_key < i32::MAX,
    ensures
        table.appended(row).wf(),
        index_of_key(table.appended(row).rows, row.key()) == Some(table.rows.len() as int),
        index_of_key(table.rows, row.key()) is None,
{
    let after = table.appended(row);
    let mask = key_mask(after.rows, row.key());
    lemma_first_true_found(mask, table.rows.len() as int);
}

/// Replacing a row by one of the same key keeps a table well formed and
/// every key where it was.
pub proof fn lemma_with_row<T: Record>(table: TableView<T>, i: int, row: T)
    requires
        table.wf(),
        0 <= i < table.rows.len(),
        row.key() == table.rows[i].key(),
    ensures
        table.with_row(i, row).wf(),
        forall|key: i32| key_mask(table.with_row(i, row).rows, key) == key_mask(table.rows, key),
{
}

/// In a well-formed table a row is found under its own key at its own place.
pub proof fn lemma_key_finds<T: Record>(table: TableView<T>, i: int)
    requires
        table.wf(),
        0 <= i < table.rows.len(),
    ensures
        index_of_key(table.rows, table.rows[i].key()) == Some(i),
{
    let mask = key_mask(table.rows, table.rows[i].key());
    lemma_first_true_found(mask, i);
}

/// Whether `next_key` is the least key that a table of `rows` can hand out
/// next: at least 1, above every key of `rows`, and no larger than that asks.
pub open spec fn is_least_next_key<T: Record>(rows: Seq<T>, next_key: int) -> bool {
    &&& next_key >= 1
    &&& keys_below(rows, next_key)
    &&& next_key == 1 || exists|i: int|
        0 <= i < rows.len() && (#[trigger] rows[i]).key() == next_key - 1
}

/// Rows in insertion order, with the key that the next new row gets. Whether
/// the keys are distinct and below that key is `TableView::wf`, which the
/// operations of the store establish and keep.
#[derive(Debug)]
pub struct Table<T: Record> {
    rows: Vec<T>,
    next_key: i32,
}

impl<T: Record> View for Table<T> {
    type V = TableView<T>;

    closed spec fn view(&self) -> TableView<T> {
        TableView { rows: self.rows@, next_key: self.next_key }
    }
}

impl<T: Record> Table<T> {
    /// An empty table whose first key will be 1.
    pub(crate) fn new() -> (table: Table<T>)
        ensures
            table@.is_new(),
            table@.wf(),
    {
        Table { rows: Vec::new(), next_key: 1 }
    }

    /// A table of `rows` whose next key is the least that fits. `None`
    /// where two rows share a key or a row has the last key there is.
    pub fn from_rows(rows: Vec<T>) -> (table: Option<Table<T>>)
        ensures
            match table {
                Some(t) => {
                    &&& t@.rows == rows@
                    &&& t@.wf()
                    &&& is_least_next_key(rows@, t@.next_key as int)
                },
                None => !keys_distinct(rows@) || !keys_below(rows@, i32::MAX as int),
            },
    {
        let mut next_key: i32 = 1;
        let mut i: usize = 0;
        while i < rows.len()
            invariant
                i <= rows@.len(),
                is_least_next_key(rows@.take(i as int), next_key as int),
            decreases rows@.len() - i,
        {
            let key = rows[i].id();
            if key == i32::MAX {
                return None;
            }
            proof {
                let after = rows@.take(i + 1);
                assert(after[i as int] == rows@[i as int]);
            }
            if key >= next_key {
                next_key = key + 1;
            }
            i += 1;
        }
        assert(rows@.take(rows@.len() as int) =~= rows@);
        let table = Table { rows, next_key };
        if table.keys_are_distinct() {
            Some(table)
        } else {
            None
        }
    }

    /// Whether no two rows share a key.
    pub fn keys_are_distinct(&self) -> (distinct: bool)
        ensures
            distinct == keys_distinct(self@.rows),
    {
        let ghost rows = self.rows@;
        let mut i: usize = 0;
        while i < self.rows.len()
            invariant
                i <= rows.len(),
                rows == self.rows@,
                forall|a: int, b: int|
                    0 <= a < i && a < b < rows.len() ==> (#[trigger] rows[a]).key() != (
                    #[trigger] rows[b]).key(),
            decreases rows.len() - i,
        {
            let key = self.rows[i].id();
            let mut j: usize = i + 1;
            while j < self.rows.len()
                invariant
                    i < j <= rows.len(),
                    rows == self.rows@,
                    key == rows[i as int].key(),
                    forall|b: int| i < b < j ==> (#[trigger] rows[b]).key() != key,
                decreases rows.len() - j,
            {
                if self.rows[j].id() == key {
                    return false;
                }
                j += 1;
            }
            i += 1;
        }
        true
    }

    /// Whether the table is well formed: see `TableView::wf`.
    pub fn is_well_formed(&self) -> (well_formed: bool)
        ensures
            well_formed == self@.wf(),
    {
        if self.next_key < 1 {
            return false;
        }
        let ghost rows = self.rows@;
        let mut i: usize = 0;
        while i < self.rows.len()
            invariant
                i <= rows.len(),
                rows == self.rows@,
                forall|j: int| 0 <= j < i ==> (#[trigger] rows[j]).key() < self.next_key,
            decreases rows.len() - i,
        {
            if self.rows[i].id() >= self.next_key {
                return false;
            }
            i += 1;
        }
        self.keys_are_distinct()
    }

    /// The number of rows.
    pub fn len(&self) -> (n: usize)
        ensures
            n == self@.rows.len(),
    {
        self.rows.len()
    }

    /// The rows in insertion order.
    pub fn rows(&self) -> (rows: &Vec<T>)
        ensures
            rows@ == self@.rows,
    {
        &self.rows
    }

    /// The key that the next new row gets.
    pub fn next_key(&self) -> (key: i32)
        ensures
            key == self@.next_key,
    {
        self.next_key
    }

    /// The row at position `i`.
    pub fn row(&self, i: usize) -> (row: &T)
        requires
            i < self@.rows.len(),
        ensures
            *row == self@.rows[i as int],
    {
        &self.rows[i]
    }

    /// The position of the row with the key `key`.
    pub fn position(&self, key: i32) -> (found: Option<usize>)
        ensures
            match found {
                Some(i) => index_of_key(self@.rows, key) == Some(i as int) && i < self@.rows.len()
                    && self@.rows[i as int].key() == key,
                None => index_of_key(self@.rows, key) is None,
            },
    {
        let ghost mask = key_mask(self.rows@, key);
        let mut i: usize = 0;
        while i < self.rows.len()
            invariant
                i <= self.rows@.len(),
                mask == key_mask(self.rows@, key),
                forall|j: int| 0 <= j < i ==> !#[trigger] mask[j],
            decreases self.rows@.len() - i,
        {
            if self.rows[i].id() == key {
                proof {
                    lemma_first_true_found(mask, i as int);
                }
                return Some(i);
            }
            i += 1;
        }
        None
    }

    /// Adds `row` at the end and moves the next key on.
    pub(crate) fn append(&mut self, row: T)
        requires
            old(self)@.next_key < i32::MAX,
        ensures
            final(self)@ == old(self)@.appended(row),
    {
        self.rows.push(row);
        self.next_key = self.next_key + 1;
    }

    /// Takes out the row at position `i` and hands it back.
    pub(crate) fn take(&mut self, i: usize) -> (row: T)
        requires
            i < old(self)@.rows.len(),
        ensures
            row == old(self)@.rows[i as int],
            final(self)@ == old(self)@.without(i as int),
    {
        self.rows.remove(i)
    }

    /// Puts `row` in place of the row at position `i`.
    pub(crate) fn put(&mut self, i: usize, row: T)
        requires
            i < old(self)@.rows.len(),
        ensures
            final(self)@ == old(self)@.with_row(i as int, row),
    {
        self.rows[i] = row;
    }
}

} // verus!

//! Tables: rows in the order in which they were inserted, no two of them
//! with the same key.

use crate::json::same_text;
use crate::views::{
    lemma_deep_view_empty, lemma_deep_view_push, lemma_deep_view_update, lemma_take_all,
    lemma_take_next,
};
use vstd::prelude::*;

verus! {

/// A row of a table: it has a key, and it can be copied.
pub trait Row: DeepView + Sized {
    /// The key of a row.
    spec fn key_of(row: Self::V) -> Seq<char>;

    /// The key of this row.
    fn key(&self) -> (key: &str)
        ensures
            key@ == Self::key_of(self.deep_view()),
    ;

    /// A copy of this row.
    fn replica(&self) -> (copy: Self)
        ensures
            copy.deep_view() == self.deep_view(),
    ;
}

/// Whether one of the rows has the key.
pub open spec fn has_key<R: Row>(rows: Seq<R::V>, key: Seq<char>) -> bool {
    exists|i: int| 0 <= i < rows.len() && #[trigger] R::key_of(rows[i]) == key
}

/// The place of a row with the key: with distinct keys, of the one row with
/// it.
pub open spec fn key_index<R: Row>(rows: Seq<R::V>, key: Seq<char>) -> int {
    choose|i: int| 0 <= i < rows.len() && #[trigger] R::key_of(rows[i]) == key
}

/// Whether no two rows have the same key.
pub open spec fn distinct_keys<R: Row>(rows: Seq<R::V>) -> bool {
    forall|i: int, j: int|
        0 <= i < j < rows.len() ==> #[trigger] R::key_of(rows[i]) != #[trigger] R::key_of(rows[j])
}

/// The rows after an insert that leaves the table as it is where the key is
/// taken.
pub open spec fn inserted_if_new<R: Row>(rows: Seq<R::V>, row: R::V) -> Seq<R::V> {
    if has_key::<R>(rows, R::key_of(row)) {
        rows
    } else {
        rows.push(row)
    }
}

/// The rows after an insert that replaces the row with the same key where
/// there is one.
pub open spec fn upserted<R: Row>(rows: Seq<R::V>, row: R::V) -> Seq<R::V> {
    if has_key::<R>(rows, R::key_of(row)) {
        rows.update(key_index::<R>(rows, R::key_of(row)), row)
    } else {
        rows.push(row)
    }
}

/// The rows after each row of a list was inserted where its key was new, in
/// the order of the list.
pub open spec fn each_inserted_if_new<R: Row>(rows: Seq<R::V>, new_rows: Seq<R::V>) -> Seq<R::V>
    decreases new_rows.len(),
{
    if new_rows.len() == 0 {
        rows
    } else {
        inserted_if_new::<R>(
            each_inserted_if_new::<R>(rows, new_rows.drop_last()),
            new_rows.last(),
        )
    }
}

/// The rows after every row of a list was appended, in the order of the
/// list; nothing where the key of one of them is taken by then.
pub open spec fn all_appended<R: Row>(rows: Seq<R::V>, new_rows: Seq<R::V>) -> Option<Seq<R::V>>
    decreases new_rows.len(),
{
    if new_rows.len() == 0 {
        Some(rows)
    } else {
        match all_appended::<R>(rows, new_rows.drop_last()) {
            None => None,
            Some(so_far) => if has_key::<R>(so_far, R::key_of(new_rows.last())) {
                None
            } else {
                Some(so_far.push(new_rows.last()))
            },
        }
    }
}

/// Where a list was appended, the rows are the old ones followed by the
/// list.
pub proof fn lemma_appended_is_concat<R: Row>(rows: Seq<R::V>, new_rows: Seq<R::V>)
    requires
        all_appended::<R>(rows, new_rows) is Some,
    ensures
        all_appended::<R>(rows, new_rows)->0 == rows + new_rows,
    decreases new_rows.len(),
{
    if new_rows.len() == 0 {
        assert(rows + new_rows =~= rows);
    } else {
        lemma_appended_is_concat::<R>(rows, new_rows.drop_last());
        assert((rows + new_rows.drop_last()).push(new_rows.last()) =~= rows + new_rows);
    }
}

/// Inserting each row of a list where its key is new keeps the keys
/// distinct, keeps the rows that were there in their places, and adds rows
/// only behind them.
pub proof fn lemma_each_inserted<R: Row>(rows: Seq<R::V>, new_rows: Seq<R::V>)
    requires
        distinct_keys::<R>(rows),
    ensures
        distinct_keys::<R>(each_inserted_if_new::<R>(rows, new_rows)),
        rows.len() <= each_inserted_if_new::<R>(rows, new_rows).len(),
        each_inserted_if_new::<R>(rows, new_rows).take(rows.len() as int) == rows,
    decreases new_rows.len(),
{
    if new_rows.len() > 0 {
        lemma_each_inserted::<R>(rows, new_rows.drop_last());
        let so_far = each_inserted_if_new::<R>(rows, new_rows.drop_last());
        lemma_inserted_distinct::<R>(so_far, new_rows.last());
        let after = each_inserted_if_new::<R>(rows, new_rows);
        assert(after.take(rows.len() as int) =~= so_far.take(rows.len() as int));
    } else {
        assert(rows.take(rows.len() as int) =~= rows);
    }
}

/// Appending rows keeps the keys distinct.
pub proof fn lemma_appended_distinct<R: Row>(rows: Seq<R::V>, new_rows: Seq<R::V>)
    requires
        distinct_keys::<R>(rows),
        all_appended::<R>(rows, new_rows) is Some,
    ensures
        distinct_keys::<R>(all_appended::<R>(rows, new_rows)->0),
    decreases new_rows.len(),
{
    if new_rows.len() > 0 {
        lemma_appended_distinct::<R>(rows, new_rows.drop_last());
        let so_far = all_appended::<R>(rows, new_rows.drop_last())->0;
        lemma_inserted_distinct::<R>(so_far, new_rows.last());
    }
}

/// Where a part of a list cannot be appended, the list cannot.
pub proof fn lemma_not_appended<R: Row>(rows: Seq<R::V>, new_rows: Seq<R::V>, n: int)
    requires
        0 <= n <= new_rows.len(),
        all_appended::<R>(rows, new_rows.take(n)) is None,
    ensures
        all_appended::<R>(rows, new_rows) is None,
    decreases new_rows.len(),
{
    if n < new_rows.len() {
        assert(new_rows.drop_last().take(n) =~= new_rows.take(n));
        lemma_not_appended::<R>(rows, new_rows.drop_last(), n);
    } else {
        assert(new_rows.take(n) =~= new_rows);
    }
}

/// The key of a row of the table is a key of the table.
pub proof fn lemma_has_key<R: Row>(rows: Seq<R::V>, i: int)
    requires
        0 <= i < rows.len(),
    ensures
        has_key::<R>(rows, R::key_of(rows[i])),
{
}

/// With distinct keys, a row that has the key is the one at the key's place.
pub proof fn lemma_key_index_unique<R: Row>(rows: Seq<R::V>, key: Seq<char>, i: int)
    requires
        distinct_keys::<R>(rows),
        0 <= i < rows.len(),
        R::key_of(rows[i]) == key,
    ensures
        has_key::<R>(rows, key),
        key_index::<R>(rows, key) == i,
{
    let j = key_index::<R>(rows, key);
    assert(0 <= j < rows.len() && R::key_of(rows[j]) == key);
    if i < j {
        assert(R::key_of(rows[i]) != R::key_of(rows[j]));
    }
    if j < i {
        assert(R::key_of(rows[j]) != R::key_of(rows[i]));
    }
}

/// Inserting where the key is new keeps the keys distinct.
pub proof fn lemma_inserted_distinct<R: Row>(rows: Seq<R::V>, row: R::V)
    requires
        distinct_keys::<R>(rows),
    ensures
        distinct_keys::<R>(inserted_if_new::<R>(rows, row)),
{
    if !has_key::<R>(rows, R::key_of(row)) {
        let after = rows.push(row);
        assert forall|i: int, j: int| 0 <= i < j < after.len() implies #[trigger] R::key_of(
            after[i],
        ) != #[trigger] R::key_of(after[j]) by {
            if j == rows.len() {
                assert(R::key_of(rows[i]) != R::key_of(row));
            } else {
                assert(R::key_of(rows[i]) != R::key_of(rows[j]));
            }
        }
    }
}

/// Replacing a row by one with the same key keeps the keys distinct.
pub proof fn lemma_update_distinct<R: Row>(rows: Seq<R::V>, i: int, row: R::V)
    requires
        distinct_keys::<R>(rows),
        0 <= i < rows.len(),
        R::key_of(row) == R::key_of(rows[i]),
    ensures
        distinct_keys::<R>(rows.update(i, row)),
        forall|key: Seq<char>| has_key::<R>(rows.update(i, row), key) == has_key::<R>(rows, key),
{
    let after = rows.update(i, row);
    assert forall|a: int, b: int| 0 <= a < b < after.len() implies #[trigger] R::key_of(after[a])
        != #[trigger] R::key_of(after[b]) by {
        assert(R::key_of(rows[a]) != R::key_of(rows[b]));
    }
    assert forall|key: Seq<char>| has_key::<R>(after, key) == has_key::<R>(rows, key) by {
        if has_key::<R>(after, key) {
            let j = key_index::<R>(after, key);
            assert(R::key_of(rows[j]) == key);
        }
        if has_key::<R>(rows, key) {
            let j = key_index::<R>(rows, key);
            assert(R::key_of(after[j]) == key);
        }
    }
}

/// Upserting keeps the keys distinct.
pub proof fn lemma_upserted_distinct<R: Row>(rows: Seq<R::V>, row: R::V)
    requires
        distinct_keys::<R>(rows),
    ensures
        distinct_keys::<R>(upserted::<R>(rows, row)),
{
    if has_key::<R>(rows, R::key_of(row)) {
        lemma_update_distinct::<R>(rows, key_index::<R>(rows, R::key_of(row)), row);
    } else {
        lemma_inserted_distinct::<R>(rows, row);
    }
}

/// A table of rows with distinct keys.
pub struct Table<R: Row> {
    rows: Vec<R>,
}

impl<R: Row> View for Table<R> {
    type V = Seq<R::V>;

    closed spec fn view(&self) -> Seq<R::V> {
        self.rows.deep_view()
    }
}

impl<R: Row> Table<R> {
    /// Whether the table is well formed: no two rows have the same key.
    pub open spec fn wf(&self) -> bool {
        distinct_keys::<R>(self@)
    }

    /// The empty table.
    pub fn new() -> (table: Self)
        ensures
            table@ == Seq::<R::V>::empty(),
            table.wf(),
    {
        let rows: Vec<R> = Vec::new();
        proof {
            lemma_deep_view_empty(rows);
        }
        Table { rows }
    }

    /// The rows of the table, in their order.
    pub fn into_rows(self) -> (rows: Vec<R>)
        ensures
            rows.deep_view() == self@,
    {
        self.rows
    }

    /// The number of rows.
    pub fn len(&self) -> (n: usize)
        ensures
            n == self@.len(),
    {
        self.rows.len()
    }

    /// The row at a place.
    pub fn row(&self, i: usize) -> (row: &R)
        requires
            i < self@.len(),
        ensures
            row.deep_view() == self@[i as int],
    {
        &self.rows[i]
    }

    /// The place of the row with the key.
    pub fn position(&self, key: &str) -> (at: Option<usize>)
        requires
            self.wf(),
        ensures
            match at {
                Some(i) => i < self@.len() && R::key_of(self@[i as int]) == key@ && has_key::<R>(
                    self@,
                    key@,
                ) && key_index::<R>(self@, key@) == i,
                None => !has_key::<R>(self@, key@),
            },
    {
        let mut i: usize = 0;
        while i < self.rows.len()
            invariant
                self.wf(),
                i <= self.rows.len(),
                forall|j: int| 0 <= j < i ==> #[trigger] R::key_of(self@[j]) != key@,
            decreases self.rows.len() - i,
        {
            if same_text(self.rows[i].key(), key) {
                proof {
                    lemma_key_index_unique::<R>(self@, key@, i as int);
                }
                return Some(i);
            }
            i = i + 1;
        }
        None
    }

    /// Adds a row unless its key is taken, and says whether it was added.
    pub fn insert_ignore(&mut self, row: R) -> (added: bool)
        requires
            old(self).wf(),
        ensures
            added == !has_key::<R>(old(self)@, R::key_of(row.deep_view())),
            final(self)@ == inserted_if_new::<R>(old(self)@, row.deep_view()),
            final(self).wf(),
    {
        proof {
            lemma_inserted_distinct::<R>(self@, row.deep_view());
        }
        match self.position(row.key()) {
            Some(_) => false,
            None => {
                let ghost before = self.rows;
                self.rows.push(row);
                proof {
                    lemma_deep_view_push(before, self.rows, row);
                }
                true
            },
        }
    }

    /// Puts a row in the place of the one with the same key.
    pub fn replace(&mut self, i: usize, row: R)
        requires
            old(self).wf(),
            i < old(self)@.len(),
            R::key_of(row.deep_view()) == R::key_of(old(self)@[i as int]),
        ensures
            final(self)@ == old(self)@.update(i as int, row.deep_view()),
            final(self).wf(),
    {
        proof {
            lemma_update_distinct::<R>(self@, i as int, row.deep_view());
        }
        let ghost before = self.rows;
        self.rows.set(i, row);
        proof {
            lemma_deep_view_update(before, self.rows, i as int, row);
        }
    }

    /// Drops the rows from a place on.
    pub fn truncate(&mut self, len: usize)
        requires
            old(self).wf(),
            len <= old(self)@.len(),
        ensures
            final(self)@ == old(self)@.take(len as int),
            final(self).wf(),
    {
        self.rows.truncate(len);
        proof {
            assert(self.rows.deep_view() =~= old(self).rows.deep_view().take(len as int));
            let before = old(self)@;
            let after = self@;
            assert forall|i: int, j: int| 0 <= i < j < after.len() implies #[trigger] R::key_of(
                after[i],
            ) != #[trigger] R::key_of(after[j]) by {
                assert(R::key_of(before[i]) != R::key_of(before[j]));
            }
        }
    }

    /// Adds each row of a list unless its key is taken, in the order of the
    /// list.
    pub fn insert_each_if_new(&mut self, new_rows: &Vec<R>)
        requires
            old(self).wf(),
        ensures
            final(self)@ == each_inserted_if_new::<R>(old(self)@, new_rows.deep_view()),
            final(self).wf(),
    {
        let ghost all = new_rows.deep_view();
        let mut i: usize = 0;
        while i < new_rows.len()
            invariant
                i <= new_rows.len(),
                all == new_rows.deep_view(),
                self.wf(),
                self@ == each_inserted_if_new::<R>(old(self)@, all.take(i as int)),
            decreases new_rows.len() - i,
        {
            proof {
                lemma_take_next(all, i as int);
            }
            self.insert_ignore(new_rows[i].replica());
            i = i + 1;
        }
        proof {
            lemma_take_all(all);
        }
    }

    /// Appends every row of a list, or none of them: where the key of one
    /// is taken when its turn comes, the table stays as it was. Says
    /// whether the rows were appended.
    pub fn append_all(&mut self, new_rows: &Vec<R>) -> (done: bool)
        requires
            old(self).wf(),
        ensures
            done == all_appended::<R>(old(self)@, new_rows.deep_view()) is Some,
            done ==> final(self)@ == all_appended::<R>(old(self)@, new_rows.deep_view())->0,
            !done ==> final(self)@ == old(self)@,
            final(self).wf(),
    {
        let ghost all = new_rows.deep_view();
        let before: usize = self.rows.len();
        let mut i: usize = 0;
        proof {
            assert(self@.take(before as int) =~= self@);
        }
        while i < new_rows.len()
            invariant
                i <= new_rows.len(),
                all == new_rows.deep_view(),
                self.wf(),
                before == old(self)@.len(),
                before <= self@.len(),
                self@.take(before as int) == old(self)@,
                all_appended::<R>(old(self)@, all.take(i as int)) == Some(self@),
            decreases new_rows.len() - i,
        {
            proof {
                lemma_take_next(all, i as int);
            }
            let ghost so_far = self@;
            let added = self.insert_ignore(new_rows[i].replica());
            if !added {
                proof {
                    lemma_not_appended::<R>(old(self)@, all, i as int + 1);
                }
                self.truncate(before);
                return false;
            }
            proof {
                assert(self@.take(before as int) =~= so_far.take(before as int));
            }
            i = i + 1;
        }
        proof {
            lemma_take_all(all);
        }
        true
    }

    /// Adds a row, or puts it in the place of the one with the same key.
    pub fn upsert(&mut self, row: R)
        requires
            old(self).wf(),
        ensures
            final(self)@ == upserted::<R>(old(self)@, row.deep_view()),
            final(self).wf(),
    {
        proof {
            lemma_upserted_distinct::<R>(self@, row.deep_view());
        }
        match self.position(row.key()) {
            Some(i) => {
                self.replace(i, row);
            },
            None => {
                self.insert_ignore(row);
            },
        }
    }
}

} // verus!

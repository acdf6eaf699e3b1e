//! The table of memos: rows with pairwise distinct identifiers, held in
//! memory, with point lookup, insertion, replacement, removal, counting and
//! ordered scans.

use vstd::prelude::*;
use crate::error::StoreError;
use crate::memo::{Memo, MemoView};
use crate::query::{
    comes_before, count_passing, is_listing, lemma_listing_inserts, lemma_listing_is_unique,
    lemma_listing_skips, listing, passes, row_comes_before, window, SortField, SortOrder,
};

verus! {

/// No two rows share an identifier.
pub open spec fn distinct_ids(rows: Seq<MemoView>) -> bool {
    forall|i: int, j: int| 0 <= i < j < rows.len() ==> (#[trigger] rows[i]).id != (#[trigger] rows[j]).id
}

/// Some row has this identifier.
pub open spec fn has_id(rows: Seq<MemoView>, id: u128) -> bool {
    exists|i: int| 0 <= i < rows.len() && (#[trigger] rows[i]).id == id
}

/// Where the row with this identifier stands, if there is one.
pub open spec fn position(rows: Seq<MemoView>, id: u128) -> int {
    choose|i: int| 0 <= i < rows.len() && (#[trigger] rows[i]).id == id
}

/// The row with this identifier, if there is one.
pub open spec fn lookup(rows: Seq<MemoView>, id: u128) -> Option<MemoView> {
    if has_id(rows, id) {
        Some(rows[position(rows, id)])
    } else {
        None
    }
}

/// Where identifiers are distinct, the row at index `i` is the one that
/// `position` and `lookup` find for its identifier.
pub proof fn lemma_position_is_index(rows: Seq<MemoView>, i: int)
    requires
        distinct_ids(rows),
        0 <= i < rows.len(),
    ensures
        has_id(rows, rows[i].id),
        position(rows, rows[i].id) == i,
        lookup(rows, rows[i].id) == Some(rows[i]),
{
    let p = position(rows, rows[i].id);
    if p < i {
        assert(rows[p].id != rows[i].id);
    } else if p > i {
        assert(rows[i].id != rows[p].id);
    }
}

/// `found` is the index of the row with this identifier, or nothing where
/// there is no such row.
spec fn finds(rows: Seq<MemoView>, id: u128, found: Option<usize>) -> bool {
    match found {
        Some(i) => i < rows.len() && rows[i as int].id == id && i == position(rows, id) && has_id(
            rows,
            id,
        ),
        None => !has_id(rows, id),
    }
}

/// The rows that stand at the given indices, in that order.
spec fn picked(rows: Seq<MemoView>, ranks: Seq<usize>) -> Seq<MemoView> {
    Seq::new(ranks.len(), |i: int| rows[ranks[i] as int])
}

/// An in-memory table of memos. Its rows keep the order in which they were
/// inserted, and no two of them share an identifier.
pub struct MemoStore {
    rows: Vec<Memo>,
}

impl View for MemoStore {
    type V = Seq<MemoView>;

    closed spec fn view(&self) -> Seq<MemoView> {
        self.rows.deep_view()
    }
}

impl MemoStore {
    /// What holds of every table: no two rows share an identifier.
    #[verifier::type_invariant]
    pub open spec fn rows_are_distinct(self) -> bool {
        distinct_ids(self@)
    }

    /// An empty table.
    pub fn new() -> (store: MemoStore)
        ensures
            store@ == Seq::<MemoView>::empty(),
    {
        let store = MemoStore { rows: Vec::new() };
        assert(store.rows.deep_view() =~= Seq::<MemoView>::empty());
        store
    }

    /// The number of rows.
    pub fn len(&self) -> (n: usize)
        ensures
            n == self@.len(),
            distinct_ids(self@),
    {
        proof {
            use_type_invariant(self);
        }
        self.rows.len()
    }

    /// The index of the row with this identifier.
    fn index_of(&self, id: u128) -> (found: Option<usize>)
        ensures
            distinct_ids(self@),
            finds(self@, id, found),
    {
        proof {
            use_type_invariant(self);
        }
        let mut i: usize = 0;
        while i < self.rows.len()
            invariant
                i <= self.rows.len(),
                self@.len() == self.rows.len(),
                distinct_ids(self@),
                forall|k: int| 0 <= k < i ==> (#[trigger] self@[k]).id != id,
            decreases self.rows.len() - i,
        {
            if self.rows[i].id == id {
                assert(self@[i as int].id == id);
                assert(has_id(self@, id));
                assert(position(self@, id) == i) by {
                    let p = position(self@, id);
                    if p < i {
                        assert(self@[p].id != self@[i as int].id);
                    } else if p > i {
                        assert(self@[i as int].id != self@[p].id);
                    }
                }
                return Some(i);
            }
            i += 1;
        }
        None
    }

    /// The row with this identifier.
    pub fn one(&self, id: u128) -> (row: Option<Memo>)
        ensures
            distinct_ids(self@),
            row.deep_view() == lookup(self@, id),
    {
        match self.index_of(id) {
            Some(i) => Some(self.rows[i].clone()),
            None => None,
        }
    }

    /// Adds a row. A row whose identifier is already taken is refused, and the
    /// table stays as it was.
    pub fn insert(&mut self, row: Memo) -> (done: Result<(), StoreError>)
        ensures
            distinct_ids(old(self)@),
            distinct_ids(final(self)@),
            has_id(old(self)@, row.id) ==> done is Err && done->Err_0.is_conflict() && final(self)@ == old(
                self,
            )@,
            !has_id(old(self)@, row.id) ==> done is Ok && final(self)@ == old(self)@.push(row@),
    {
        match self.index_of(row.id) {
            Some(_) => Err(StoreError::conflict()),
            None => {
                let ghost before = self@;
                let mut rows: Vec<Memo> = Vec::new();
                assert(rows.deep_view() =~= Seq::<MemoView>::empty());
                core::mem::swap(&mut self.rows, &mut rows);
                rows.push(row);
                proof {
                    let after = rows.deep_view();
                    assert(after =~= before.push(row@));
                    assert forall|i: int, j: int| 0 <= i < j < after.len() implies (#[trigger] after[i]).id != (#[trigger] after[j]).id by {
                        if j == before.len() {
                            assert(before[i].id != row.id);
                        } else {
                            assert(before[i].id != before[j].id);
                        }
                    }
                }
                core::mem::swap(&mut self.rows, &mut rows);
                Ok(())
            },
        }
    }

    /// Puts `row` in place of the stored row that has its identifier. Without
    /// such a row nothing changes and the result is `false`.
    pub fn replace(&mut self, row: Memo) -> (replaced: bool)
        ensures
            distinct_ids(old(self)@),
            distinct_ids(final(self)@),
            replaced == has_id(old(self)@, row.id),
            replaced ==> final(self)@ == old(self)@.update(position(old(self)@, row.id), row@),
            !replaced ==> final(self)@ == old(self)@,
    {
        match self.index_of(row.id) {
            Some(i) => {
                let ghost before = self@;
                let mut rows: Vec<Memo> = Vec::new();
                assert(rows.deep_view() =~= Seq::<MemoView>::empty());
                core::mem::swap(&mut self.rows, &mut rows);
                rows.set(i, row);
                proof {
                    let after = rows.deep_view();
                    assert(after =~= before.update(i as int, row@));
                    assert forall|a: int, b: int| 0 <= a < b < after.len() implies (#[trigger] after[a]).id != (#[trigger] after[b]).id by {
                        assert(before[a].id != before[b].id);
                    }
                }
                core::mem::swap(&mut self.rows, &mut rows);
                true
            },
            None => false,
        }
    }

    /// Removes the row with this identifier and says whether there was one.
    pub fn delete(&mut self, id: u128) -> (removed: bool)
        ensures
            distinct_ids(old(self)@),
            distinct_ids(final(self)@),
            removed == has_id(old(self)@, id),
            removed ==> final(self)@ == old(self)@.remove(position(old(self)@, id)),
            !removed ==> final(self)@ == old(self)@,
    {
        match self.index_of(id) {
            Some(i) => {
                let ghost before = self@;
                let mut rows: Vec<Memo> = Vec::new();
                assert(rows.deep_view() =~= Seq::<MemoView>::empty());
                core::mem::swap(&mut self.rows, &mut rows);
                rows.remove(i);
                proof {
                    let after = rows.deep_view();
                    assert(after =~= before.remove(i as int));
                    assert forall|a: int, b: int| 0 <= a < b < after.len() implies (#[trigger] after[a]).id != (#[trigger] after[b]).id by {
                        let a0 = if a < i { a } else { a + 1 };
                        let b0 = if b < i { b } else { b + 1 };
                        assert(before[a0].id != before[b0].id);
                    }
                }
                core::mem::swap(&mut self.rows, &mut rows);
                true
            },
            None => false,
        }
    }

    /// The indices of the rows that pass the filter, in the order of the
    /// listing.
    fn ranked(&self, filter: Option<bool>, field: SortField, order: SortOrder) -> (ranks: Vec<usize>)
        ensures
            distinct_ids(self@),
            forall|i: int| 0 <= i < ranks.len() ==> (#[trigger] ranks[i]) < self@.len(),
            is_listing(self@, filter, field, order, picked(self@, ranks@)),
    {
        proof {
            use_type_invariant(self);
        }
        let mut ranks: Vec<usize> = Vec::new();
        let mut k: usize = 0;
        proof {
            assert(self@.take(0) =~= Seq::<MemoView>::empty());
            assert(picked(self@, ranks@) =~= Seq::<MemoView>::empty());
        }
        while k < self.rows.len()
            invariant
                k <= self.rows.len(),
                self@.len() == self.rows.len(),
                distinct_ids(self@),
                forall|i: int| 0 <= i < ranks.len() ==> (#[trigger] ranks[i]) < k,
                is_listing(self@.take(k as int), filter, field, order, picked(self@, ranks@)),
            decreases self.rows.len() - k,
        {
            let ghost upto = self@.take(k + 1);
            let ghost prev = picked(self@, ranks@);
            proof {
                assert(upto.drop_last() =~= self@.take(k as int));
                assert(upto.last() == self@[k as int]);
            }
            if row_passes(filter, &self.rows[k]) {
                let mut p: usize = 0;
                while p < ranks.len() && row_comes_before(field, order, &self.rows[ranks[p]], &self.rows[k])
                    invariant
                        p <= ranks.len(),
                        k < self.rows.len(),
                        self@.len() == self.rows.len(),
                        forall|i: int| 0 <= i < ranks.len() ==> (#[trigger] ranks[i]) < k,
                        forall|i: int| 0 <= i < p ==> comes_before(
                            field,
                            order,
                            self@[(#[trigger] ranks[i]) as int],
                            self@[k as int],
                        ),
                    decreases ranks.len() - p,
                {
                    p += 1;
                }
                proof {
                    assert forall|i: int| 0 <= i < p implies comes_before(
                        field,
                        order,
                        #[trigger] prev[i],
                        upto.last(),
                    ) by {
                        assert(prev[i] == self@[ranks[i] as int]);
                    }
                    assert(distinct_ids(upto)) by {
                        assert forall|i: int, j: int| 0 <= i < j < upto.len() implies (#[trigger] upto[i]).id != (#[trigger] upto[j]).id by {
                            assert(self@[i].id != self@[j].id);
                        }
                    }
                    lemma_listing_inserts(upto, filter, field, order, prev, p as int);
                }
                ranks.insert(p, k);
                proof {
                    assert(picked(self@, ranks@) =~= prev.insert(p as int, upto.last()));
                }
            } else {
                proof {
                    lemma_listing_skips(upto, filter, field, order, prev);
                }
            }
            k += 1;
        }
        proof {
            assert(self@.take(k as int) =~= self@);
        }
        ranks
    }

    /// The page that `offset` and `limit` cut out of the listing of the rows
    /// that pass the filter.
    pub fn all(
        &self,
        filter: Option<bool>,
        field: SortField,
        order: SortOrder,
        offset: u64,
        limit: u64,
    ) -> (page: Vec<Memo>)
        ensures
            distinct_ids(self@),
            is_listing(self@, filter, field, order, listing(self@, filter, field, order)),
            page.deep_view() == window(listing(self@, filter, field, order), offset, limit),
    {
        let ranks = self.ranked(filter, field, order);
        let ghost out = picked(self@, ranks@);
        proof {
            lemma_listing_is_unique(self@, filter, field, order, out);
        }
        let n = ranks.len();
        let start: usize = if offset <= n as u64 {
            offset as usize
        } else {
            n
        };
        let room: usize = n - start;
        let end: usize = if limit <= room as u64 {
            start + limit as usize
        } else {
            n
        };
        let mut page: Vec<Memo> = Vec::new();
        let mut i: usize = start;
        assert(page.deep_view() =~= out.subrange(start as int, start as int));
        while i < end
            invariant
                start <= i <= end <= n,
                n == ranks.len(),
                out == picked(self@, ranks@),
                self@.len() == self.rows.len(),
                forall|i: int| 0 <= i < ranks.len() ==> (#[trigger] ranks[i]) < self@.len(),
                page.deep_view() == out.subrange(start as int, i as int),
            decreases end - i,
        {
            let ghost before = page.deep_view();
            let row = self.rows[ranks[i]].clone();
            page.push(row);
            assert(page.deep_view() =~= before.push(row@));
            assert(before.push(row@) =~= out.subrange(start as int, i + 1));
            i += 1;
        }
        page
    }

    /// Counts the rows that pass the filter.
    pub fn count(&self, filter: Option<bool>) -> (total: u64)
        ensures
            total == count_passing(self@, filter),
    {
        let mut total: u64 = 0;
        let mut k: usize = 0;
        assert(self@.take(0) =~= Seq::<MemoView>::empty());
        while k < self.rows.len()
            invariant
                k <= self.rows.len(),
                total == count_passing(self@.take(k as int), filter),
                total <= k,
            decreases self.rows.len() - k,
        {
            assert(self@.take(k + 1).drop_last() =~= self@.take(k as int));
            assert(self@.take(k + 1).last() == self@[k as int]);
            if row_passes(filter, &self.rows[k]) {
                total += 1;
            }
            k += 1;
        }
        assert(self@.take(k as int) =~= self@);
        total
    }
}

/// Decides `passes` on a memo.
pub fn row_passes(filter: Option<bool>, row: &Memo) -> (pass: bool)
    ensures
        pass == passes(filter, row@),
{
    match filter {
        Some(wanted) => row.completed == wanted,
        None => true,
    }
}

} // verus!

//! What a list query asks for, and what it means: which rows pass the filter,
//! the order they come in, and the window that a page cuts out of them.

use vstd::prelude::*;
use crate::memo::{Memo, MemoView};
use crate::store::distinct_ids;
use crate::text::{
    lemma_text_lt_asymmetric, lemma_text_lt_irreflexive, lemma_text_lt_total,
    lemma_text_lt_transitive, text_before, text_equal, text_lt,
};

verus! {

/// The fields a listing can be ordered by.
#[derive(Clone, Copy, Debug, PartialEq, Eq, Structural)]
pub enum SortField {
    CreatedAt,
    Title,
    DateTo,
    Completed,
    UpdatedAt,
}

/// The direction of a listing.
#[derive(Clone, Copy, Debug, PartialEq, Eq, Structural)]
pub enum SortOrder {
    Asc,
    Desc,
}

/// The field that a requested name stands for. A name that is not one of the
/// five known ones is not an error: it means `created_at`. This fallback is
/// deliberate.
pub open spec fn sort_field_of(name: Seq<char>) -> SortField {
    if name == "title"@ {
        SortField::Title
    } else if name == "date_to"@ {
        SortField::DateTo
    } else if name == "completed"@ {
        SortField::Completed
    } else if name == "updated_at"@ {
        SortField::UpdatedAt
    } else {
        SortField::CreatedAt
    }
}

/// The direction that a requested word stands for: `asc` is ascending,
/// anything else descending.
pub open spec fn sort_order_of(word: Seq<char>) -> SortOrder {
    if word == "asc"@ {
        SortOrder::Asc
    } else {
        SortOrder::Desc
    }
}

impl SortField {
    /// Reads a field name, falling back to `created_at` for an unknown one.
    pub fn parse(name: &str) -> (field: SortField)
        ensures
            field == sort_field_of(name@),
    {
        if text_equal(name, "title") {
            SortField::Title
        } else if text_equal(name, "date_to") {
            SortField::DateTo
        } else if text_equal(name, "completed") {
            SortField::Completed
        } else if text_equal(name, "updated_at") {
            SortField::UpdatedAt
        } else {
            SortField::CreatedAt
        }
    }
}

impl SortOrder {
    /// Reads a direction, falling back to descending for anything but `asc`.
    pub fn parse(word: &str) -> (order: SortOrder)
        ensures
            order == sort_order_of(word@),
    {
        if text_equal(word, "asc") {
            SortOrder::Asc
        } else {
            SortOrder::Desc
        }
    }
}

/// Whether a row passes the completion filter. No filter passes every row.
pub open spec fn passes(filter: Option<bool>, row: MemoView) -> bool {
    match filter {
        Some(wanted) => row.completed == wanted,
        None => true,
    }
}

/// How many rows pass the filter.
pub open spec fn count_passing(rows: Seq<MemoView>, filter: Option<bool>) -> nat
    decreases rows.len(),
{
    if rows.len() == 0 {
        0
    } else {
        count_passing(rows.drop_last(), filter) + if passes(filter, rows.last()) {
            1nat
        } else {
            0nat
        }
    }
}

/// `a` has the strictly smaller sort key. On `completed`, open memos come
/// before completed ones.
pub open spec fn key_lt(field: SortField, a: MemoView, b: MemoView) -> bool {
    match field {
        SortField::CreatedAt => a.created_at < b.created_at,
        SortField::Title => text_lt(a.title, b.title),
        SortField::DateTo => a.date_to < b.date_to,
        SortField::Completed => !a.completed && b.completed,
        SortField::UpdatedAt => a.updated_at < b.updated_at,
    }
}

/// `a` comes before `b` in an ascending listing: by sort key, and among rows
/// with equal keys by identifier, so that rows with different identifiers are
/// always ordered.
pub open spec fn ascends(field: SortField, a: MemoView, b: MemoView) -> bool {
    key_lt(field, a, b) || (!key_lt(field, b, a) && a.id < b.id)
}

/// `a` comes before `b` in a listing. A descending listing is the ascending
/// one read backwards.
pub open spec fn comes_before(field: SortField, order: SortOrder, a: MemoView, b: MemoView) -> bool {
    match order {
        SortOrder::Asc => ascends(field, a, b),
        SortOrder::Desc => ascends(field, b, a),
    }
}

/// `comes_before` is a strict order on rows, and it orders any two rows with
/// different identifiers.
pub proof fn lemma_comes_before_is_strict_order(
    field: SortField,
    order: SortOrder,
    a: MemoView,
    b: MemoView,
    c: MemoView,
)
    ensures
        !comes_before(field, order, a, a),
        !(comes_before(field, order, a, b) && comes_before(field, order, b, a)),
        comes_before(field, order, a, b) && comes_before(field, order, b, c) ==> comes_before(
            field,
            order,
            a,
            c,
        ),
        a.id != b.id ==> comes_before(field, order, a, b) || comes_before(field, order, b, a),
{
    lemma_text_lt_irreflexive(a.title);
    lemma_text_lt_asymmetric(a.title, b.title);
    lemma_text_lt_asymmetric(b.title, c.title);
    lemma_text_lt_asymmetric(a.title, c.title);
    lemma_text_lt_total(a.title, b.title);
    lemma_text_lt_total(b.title, c.title);
    lemma_text_lt_total(a.title, c.title);
    if text_lt(a.title, b.title) && text_lt(b.title, c.title) {
        lemma_text_lt_transitive(a.title, b.title, c.title);
    }
    if text_lt(c.title, b.title) && text_lt(b.title, a.title) {
        lemma_text_lt_transitive(c.title, b.title, a.title);
    }
}

/// `out` lists exactly the rows of `rows` that pass `filter`, each once, in the
/// order of `field` and `order`.
pub open spec fn is_listing(
    rows: Seq<MemoView>,
    filter: Option<bool>,
    field: SortField,
    order: SortOrder,
    out: Seq<MemoView>,
) -> bool {
    &&& out.len() == count_passing(rows, filter)
    &&& forall|i: int| 0 <= i < out.len() ==> rows.contains(#[trigger] out[i]) && passes(filter, out[i])
    &&& forall|k: int| 0 <= k < rows.len() && passes(filter, #[trigger] rows[k]) ==> out.contains(rows[k])
    &&& forall|i: int, j: int| 0 <= i < j < out.len() ==> comes_before(field, order, #[trigger] out[i], #[trigger] out[j])
}

/// The listing of `rows` under a filter and an order. Where the rows'
/// identifiers are distinct there is exactly one.
pub open spec fn listing(
    rows: Seq<MemoView>,
    filter: Option<bool>,
    field: SortField,
    order: SortOrder,
) -> Seq<MemoView> {
    choose|out: Seq<MemoView>| is_listing(rows, filter, field, order, out)
}

/// How many rows at the front of an ordered sequence come before `row`.
pub open spec fn rows_in_front(
    field: SortField,
    order: SortOrder,
    sorted: Seq<MemoView>,
    row: MemoView,
) -> int
    decreases sorted.len(),
{
    if sorted.len() == 0 || !comes_before(field, order, sorted[0], row) {
        0
    } else {
        1 + rows_in_front(field, order, sorted.drop_first(), row)
    }
}

/// The rows counted by `rows_in_front` come before `row`, and the one behind
/// them, if there is one, does not.
pub proof fn lemma_rows_in_front(field: SortField, order: SortOrder, sorted: Seq<MemoView>, row: MemoView)
    ensures
        0 <= rows_in_front(field, order, sorted, row) <= sorted.len(),
        forall|i: int| 0 <= i < rows_in_front(field, order, sorted, row) ==> comes_before(field, order, #[trigger] sorted[i], row),
        rows_in_front(field, order, sorted, row) < sorted.len() ==> !comes_before(
            field,
            order,
            sorted[rows_in_front(field, order, sorted, row)],
            row,
        ),
    decreases sorted.len(),
{
    if sorted.len() > 0 && comes_before(field, order, sorted[0], row) {
        let rest = sorted.drop_first();
        lemma_rows_in_front(field, order, rest, row);
        let p = rows_in_front(field, order, rest, row);
        assert forall|i: int| 0 <= i < p + 1 implies comes_before(field, order, #[trigger] sorted[i], row) by {
            if i > 0 {
                assert(sorted[i] == rest[i - 1]);
            }
        }
        if p + 1 < sorted.len() {
            assert(sorted[p + 1] == rest[p]);
        }
    }
}

/// A row that does not pass the filter leaves the listing as it is.
pub proof fn lemma_listing_skips(
    rows: Seq<MemoView>,
    filter: Option<bool>,
    field: SortField,
    order: SortOrder,
    prev: Seq<MemoView>,
)
    requires
        rows.len() > 0,
        is_listing(rows.drop_last(), filter, field, order, prev),
        !passes(filter, rows.last()),
    ensures
        is_listing(rows, filter, field, order, prev),
{
    let front = rows.drop_last();
    assert forall|i: int| 0 <= i < prev.len() implies rows.contains(#[trigger] prev[i]) by {
        assert(front.contains(prev[i]));
        let k = choose|k: int| 0 <= k < front.len() && front[k] == prev[i];
        assert(rows[k] == prev[i]);
    }
    assert forall|k: int| 0 <= k < rows.len() && passes(filter, #[trigger] rows[k]) implies prev.contains(
        rows[k],
    ) by {
        assert(front[k] == rows[k]);
    }
}

/// A row that passes the filter enters the listing behind the rows that come
/// before it and in front of the others.
pub proof fn lemma_listing_inserts(
    rows: Seq<MemoView>,
    filter: Option<bool>,
    field: SortField,
    order: SortOrder,
    prev: Seq<MemoView>,
    p: int,
)
    requires
        distinct_ids(rows),
        rows.len() > 0,
        is_listing(rows.drop_last(), filter, field, order, prev),
        passes(filter, rows.last()),
        0 <= p <= prev.len(),
        forall|i: int| 0 <= i < p ==> comes_before(field, order, #[trigger] prev[i], rows.last()),
        p < prev.len() ==> !comes_before(field, order, prev[p], rows.last()),
    ensures
        is_listing(rows, filter, field, order, prev.insert(p, rows.last())),
{
    let front = rows.drop_last();
    let row = rows.last();
    let out = prev.insert(p, row);
    assert(out.len() == count_passing(rows, filter));
    assert forall|i: int| 0 <= i < prev.len() implies (#[trigger] prev[i]).id != row.id by {
        assert(front.contains(prev[i]));
        let k = choose|k: int| 0 <= k < front.len() && front[k] == prev[i];
        assert(rows[k].id != rows[rows.len() - 1].id);
    }
    assert forall|j: int| p <= j < prev.len() implies comes_before(field, order, row, #[trigger] prev[j]) by {
        lemma_comes_before_is_strict_order(field, order, row, prev[p], prev[j]);
        if j > p {
            assert(comes_before(field, order, prev[p], prev[j]));
        }
    }
    assert forall|i: int| 0 <= i < out.len() implies rows.contains(#[trigger] out[i]) && passes(
        filter,
        out[i],
    ) by {
        if i == p {
            assert(rows[rows.len() - 1] == out[i]);
        } else {
            let i0 = if i < p { i } else { i - 1 };
            assert(out[i] == prev[i0]);
            assert(front.contains(prev[i0]));
            let k = choose|k: int| 0 <= k < front.len() && front[k] == prev[i0];
            assert(rows[k] == out[i]);
        }
    }
    assert forall|k: int| 0 <= k < rows.len() && passes(filter, #[trigger] rows[k]) implies out.contains(
        rows[k],
    ) by {
        if k == rows.len() - 1 {
            assert(out[p] == rows[k]);
        } else {
            assert(front[k] == rows[k]);
            assert(prev.contains(rows[k]));
            let i = choose|i: int| 0 <= i < prev.len() && prev[i] == rows[k];
            if i < p {
                assert(out[i] == rows[k]);
            } else {
                assert(out[i + 1] == rows[k]);
            }
        }
    }
    assert forall|i: int, j: int| 0 <= i < j < out.len() implies comes_before(
        field,
        order,
        #[trigger] out[i],
        #[trigger] out[j],
    ) by {
        let i0 = if i < p { i } else { i - 1 };
        let j0 = if j < p { j } else { j - 1 };
        if i != p {
            assert(out[i] == prev[i0]);
        }
        if j != p {
            assert(out[j] == prev[j0]);
        }
        if i != p && j != p {
            assert(comes_before(field, order, prev[i0], prev[j0]));
        }
    }
}

/// Rows with distinct identifiers have a listing under every filter and
/// order. With `lemma_listing_is_unique` this makes `listing` the one
/// sequence that `is_listing` describes.
pub proof fn lemma_listing_exists(
    rows: Seq<MemoView>,
    filter: Option<bool>,
    field: SortField,
    order: SortOrder,
)
    requires
        distinct_ids(rows),
    ensures
        is_listing(rows, filter, field, order, listing(rows, filter, field, order)),
    decreases rows.len(),
{
    if rows.len() == 0 {
        assert(is_listing(rows, filter, field, order, Seq::<MemoView>::empty()));
    } else {
        let front = rows.drop_last();
        let row = rows.last();
        assert(distinct_ids(front)) by {
            assert forall|i: int, j: int| 0 <= i < j < front.len() implies (#[trigger] front[i]).id != (#[trigger] front[j]).id by {
                assert(rows[i].id != rows[j].id);
            }
        }
        lemma_listing_exists(front, filter, field, order);
        let prev = listing(front, filter, field, order);
        if !passes(filter, row) {
            lemma_listing_skips(rows, filter, field, order, prev);
        } else {
            lemma_rows_in_front(field, order, prev, row);
            let p = rows_in_front(field, order, prev, row);
            lemma_listing_inserts(rows, filter, field, order, prev, p);
        }
    }
}

/// The page that `offset` and `limit` cut out of a listing: the rows from
/// position `offset` on, at most `limit` of them. Past the end it is empty.
pub open spec fn window(all: Seq<MemoView>, offset: u64, limit: u64) -> Seq<MemoView> {
    let start = if offset <= all.len() { offset as int } else { all.len() as int };
    let end = if start + limit <= all.len() { start + limit } else { all.len() as int };
    all.subrange(start, end)
}

/// Two sequences in strict order that hold the same rows are the same
/// sequence.
pub proof fn lemma_ordered_sequences_agree(
    field: SortField,
    order: SortOrder,
    a: Seq<MemoView>,
    b: Seq<MemoView>,
)
    requires
        forall|i: int, j: int| 0 <= i < j < a.len() ==> comes_before(field, order, #[trigger] a[i], #[trigger] a[j]),
        forall|i: int, j: int| 0 <= i < j < b.len() ==> comes_before(field, order, #[trigger] b[i], #[trigger] b[j]),
        forall|i: int| 0 <= i < a.len() ==> b.contains(#[trigger] a[i]),
        forall|i: int| 0 <= i < b.len() ==> a.contains(#[trigger] b[i]),
    ensures
        a == b,
    decreases a.len(),
{
    if a.len() == 0 {
        if b.len() > 0 {
            assert(a.contains(b[0]));
        }
        assert(a =~= b);
    } else {
        assert(b.contains(a[0]));
        let jb = choose|j: int| 0 <= j < b.len() && b[j] == a[0];
        assert(a.contains(b[0]));
        let ja = choose|j: int| 0 <= j < a.len() && a[j] == b[0];
        lemma_comes_before_is_strict_order(field, order, a[0], b[0], a[0]);
        assert(a[0] == b[0]) by {
            if jb != 0 && ja != 0 {
                assert(comes_before(field, order, b[0], b[jb]));
                assert(comes_before(field, order, a[0], a[ja]));
            }
        }
        let ta = a.drop_first();
        let tb = b.drop_first();
        assert forall|i: int| 0 <= i < ta.len() implies tb.contains(#[trigger] ta[i]) by {
            assert(ta[i] == a[i + 1]);
            assert(b.contains(a[i + 1]));
            let j = choose|j: int| 0 <= j < b.len() && b[j] == a[i + 1];
            lemma_comes_before_is_strict_order(field, order, a[0], a[i + 1], a[0]);
            assert(comes_before(field, order, a[0], a[i + 1]));
            assert(j != 0);
            assert(tb[j - 1] == b[j]);
        }
        assert forall|i: int| 0 <= i < tb.len() implies ta.contains(#[trigger] tb[i]) by {
            assert(tb[i] == b[i + 1]);
            assert(a.contains(b[i + 1]));
            let j = choose|j: int| 0 <= j < a.len() && a[j] == b[i + 1];
            lemma_comes_before_is_strict_order(field, order, b[0], b[i + 1], b[0]);
            assert(comes_before(field, order, b[0], b[i + 1]));
            assert(j != 0);
            assert(ta[j - 1] == a[j]);
        }
        assert forall|i: int, j: int| 0 <= i < j < ta.len() implies comes_before(
            field,
            order,
            #[trigger] ta[i],
            #[trigger] ta[j],
        ) by {
            assert(ta[i] == a[i + 1] && ta[j] == a[j + 1]);
        }
        assert forall|i: int, j: int| 0 <= i < j < tb.len() implies comes_before(
            field,
            order,
            #[trigger] tb[i],
            #[trigger] tb[j],
        ) by {
            assert(tb[i] == b[i + 1] && tb[j] == b[j + 1]);
        }
        lemma_ordered_sequences_agree(field, order, ta, tb);
        assert(a =~= seq![a[0]] + ta);
        assert(b =~= seq![b[0]] + tb);
    }
}

/// A listing is determined by the rows, the filter and the order: any two are
/// equal, and so each equals `listing`.
pub proof fn lemma_listing_is_unique(
    rows: Seq<MemoView>,
    filter: Option<bool>,
    field: SortField,
    order: SortOrder,
    out: Seq<MemoView>,
)
    requires
        is_listing(rows, filter, field, order, out),
    ensures
        out == listing(rows, filter, field, order),
{
    let chosen = listing(rows, filter, field, order);
    assert(is_listing(rows, filter, field, order, chosen));
    assert forall|i: int| 0 <= i < out.len() implies chosen.contains(#[trigger] out[i]) by {
        assert(rows.contains(out[i]));
        let k = choose|k: int| 0 <= k < rows.len() && rows[k] == out[i];
        assert(passes(filter, rows[k]));
    }
    assert forall|i: int| 0 <= i < chosen.len() implies out.contains(#[trigger] chosen[i]) by {
        assert(rows.contains(chosen[i]));
        let k = choose|k: int| 0 <= k < rows.len() && rows[k] == chosen[i];
        assert(passes(filter, rows[k]));
    }
    lemma_ordered_sequences_agree(field, order, out, chosen);
}

/// Decides `comes_before` on two memos.
pub fn row_comes_before(field: SortField, order: SortOrder, a: &Memo, b: &Memo) -> (before: bool)
    ensures
        before == comes_before(field, order, a@, b@),
{
    match order {
        SortOrder::Asc => row_ascends(field, a, b),
        SortOrder::Desc => row_ascends(field, b, a),
    }
}

/// Decides `ascends` on two memos.
pub fn row_ascends(field: SortField, a: &Memo, b: &Memo) -> (before: bool)
    ensures
        before == ascends(field, a@, b@),
{
    match field {
        SortField::CreatedAt => a.created_at < b.created_at || (a.created_at == b.created_at
            && a.id < b.id),
        SortField::Title => {
            if text_before(a.title.as_str(), b.title.as_str()) {
                true
            } else if text_before(b.title.as_str(), a.title.as_str()) {
                false
            } else {
                a.id < b.id
            }
        },
        SortField::DateTo => a.date_to < b.date_to || (a.date_to == b.date_to && a.id < b.id),
        SortField::Completed => (!a.completed && b.completed) || (a.completed == b.completed
            && a.id < b.id),
        SortField::UpdatedAt => a.updated_at < b.updated_at || (a.updated_at == b.updated_at
            && a.id < b.id),
    }
}

} // verus!

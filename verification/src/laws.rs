//! What holds of the service and of listings, whatever the table holds.

use vstd::prelude::*;
use crate::dto::{order_ok, CreateMemoDto, MemoResponseDto, PatchMemoDto, UpdateMemoDto};
use crate::error::AppError;
use crate::flow::{begins, continues, Operation, Reply, Step};
use crate::memo::MemoView;
use crate::query::{
    comes_before, count_passing, is_listing, lemma_comes_before_is_strict_order,
    lemma_listing_exists, lemma_listing_is_unique, listing, passes, window, SortField, SortOrder,
};
use crate::services::{
    create_memo_outcome, patch_memo_outcome, toggle_outcome, update_memo_outcome,
};
use crate::store::{distinct_ids, has_id, lemma_position_is_index, position};
use crate::text::text_lt;
use crate::validation::{
    description_ok, memo_violations, page_violations, title_ok, Violation,
};

verus! {

/// Every stored memo meets the rules on titles and descriptions.
pub open spec fn all_valid(rows: Seq<MemoView>) -> bool {
    forall|i: int| 0 <= i < rows.len() ==> title_ok((#[trigger] rows[i]).title) && (rows[i].description is Some ==> description_ok(rows[i].description->0))
}

/// No stored memo was last updated before it was created.
pub open spec fn all_updated_after_creation(rows: Seq<MemoView>) -> bool {
    forall|i: int| 0 <= i < rows.len() ==> (#[trigger] rows[i]).created_at <= rows[i].updated_at
}

/// The request of an operation breaks a rule: a listing with a page size or
/// a sort field out of bounds or with an unknown direction; a creation, an
/// update or a patch with a title or a description out of bounds.
pub open spec fn breaks_rules(op: Operation) -> bool {
    match op {
        Operation::List(params) => page_violations(params.limit, params.sort_by.deep_view()).len() > 0
            || !order_ok(params.order.deep_view()),
        Operation::Create(dto) => memo_violations(Some(dto.title@), dto.description.deep_view()).len() > 0,
        Operation::Update(_, dto) => memo_violations(Some(dto.title@), dto.description.deep_view()).len()
            > 0,
        Operation::Patch(_, dto) => memo_violations(dto.title.deep_view(), dto.description.deep_view()).len()
            > 0,
        _ => false,
    }
}

/// A request that breaks rules is refused at the first step: the store is
/// not asked.
pub proof fn law_broken_request_never_reaches_store(op: Operation, step: Step)
    requires
        begins(op, step),
        breaks_rules(op),
    ensures
        step matches Step::Finish(Err(e)) && e is Validation,
{
}

/// An operation whose request breaks no rule starts with a question to the
/// store.
pub proof fn law_sound_request_reaches_store(op: Operation, step: Step)
    requires
        begins(op, step),
        !breaks_rules(op),
    ensures
        step is Ask,
{
}

/// Every operation is over after at most two questions to the store,
/// whatever the store replies.
pub proof fn law_operation_ends_within_two_questions(
    op: Operation,
    first: Step,
    first_reply: Reply,
    second: Step,
    second_reply: Reply,
    third: Step,
)
    requires
        begins(op, first),
        first matches Step::Ask(_, pending) && continues(pending, first_reply, second),
        second matches Step::Ask(_, pending) && continues(pending, second_reply, third),
    ensures
        third is Finish,
{
}

/// A memo that was created is not completed, and it was created and last
/// updated at the same moment.
pub proof fn law_created_memo_is_open(
    before: Seq<MemoView>,
    after: Seq<MemoView>,
    id: u128,
    now: i64,
    dto: CreateMemoDto,
    created: Result<MemoResponseDto, AppError>,
)
    requires
        create_memo_outcome(before, after, id, now, dto, created),
        created is Ok,
    ensures
        !created->Ok_0.completed,
        created->Ok_0.created_at == created->Ok_0.updated_at,
        created->Ok_0.id == id,
        after.len() == before.len() + 1,
        after.last() == created->Ok_0@,
{
}

/// A creation with an empty title is refused as a broken rule, and the table
/// stays as it was.
pub proof fn law_empty_title_is_refused(
    before: Seq<MemoView>,
    after: Seq<MemoView>,
    id: u128,
    now: i64,
    dto: CreateMemoDto,
    created: Result<MemoResponseDto, AppError>,
)
    requires
        create_memo_outcome(before, after, id, now, dto, created),
        dto.title@.len() == 0,
    ensures
        created is Err,
        created->Err_0 is Validation,
        after == before,
{
    let broken = memo_violations(Some(dto.title@), dto.description.deep_view());
    assert(broken[0] == Violation::TitleLength);
}

/// A full update stamps the memo with the time of the update: as long as the
/// clock has not gone back behind the memo's last update, the time of the
/// last update does not decrease.
pub proof fn law_update_advances_time(
    before: Seq<MemoView>,
    after: Seq<MemoView>,
    id: u128,
    now: i64,
    dto: UpdateMemoDto,
    updated: Result<MemoResponseDto, AppError>,
)
    requires
        update_memo_outcome(before, after, id, now, dto, updated),
        updated is Ok,
        before[position(before, id)].updated_at <= now,
    ensures
        updated->Ok_0.updated_at == now,
        before[position(before, id)].updated_at <= updated->Ok_0.updated_at,
        updated->Ok_0.created_at == before[position(before, id)].created_at,
{
}

/// A patch stamps the memo with the time of the patch: as long as the clock
/// has not gone back behind the memo's last update, the time of the last
/// update does not decrease.
pub proof fn law_patch_advances_time(
    before: Seq<MemoView>,
    after: Seq<MemoView>,
    id: u128,
    now: i64,
    dto: PatchMemoDto,
    patched: Result<MemoResponseDto, AppError>,
)
    requires
        patch_memo_outcome(before, after, id, now, dto, patched),
        patched is Ok,
        before[position(before, id)].updated_at <= now,
    ensures
        patched->Ok_0.updated_at == now,
        before[position(before, id)].updated_at <= patched->Ok_0.updated_at,
        patched->Ok_0.created_at == before[position(before, id)].created_at,
{
}

/// A patch that names no field returns the memo as it was stored, but for the
/// time of the last update; the other memos stay as they were.
pub proof fn law_empty_patch_changes_nothing(
    before: Seq<MemoView>,
    after: Seq<MemoView>,
    id: u128,
    now: i64,
    dto: PatchMemoDto,
    patched: Result<MemoResponseDto, AppError>,
)
    requires
        patch_memo_outcome(before, after, id, now, dto, patched),
        dto.is_empty(),
        has_id(before, id),
    ensures
        patched is Ok,
        patched->Ok_0@ == (MemoView { updated_at: now, ..before[position(before, id)] }),
        after == before.update(position(before, id), patched->Ok_0@),
{
    assert(memo_violations(dto.title.deep_view(), dto.description.deep_view()) =~= Seq::<
        Violation,
    >::empty());
}

/// Two toggles in a row return a memo to its first completion state and leave
/// its other fields alone, but for the time of the last update.
pub proof fn law_toggle_twice_restores(
    start: Seq<MemoView>,
    between: Seq<MemoView>,
    end: Seq<MemoView>,
    id: u128,
    first_time: i64,
    second_time: i64,
    first: Result<MemoResponseDto, AppError>,
    second: Result<MemoResponseDto, AppError>,
)
    requires
        distinct_ids(start),
        has_id(start, id),
        toggle_outcome(start, between, id, first_time, first),
        toggle_outcome(between, end, id, second_time, second),
    ensures
        first is Ok,
        second is Ok,
        first->Ok_0.completed == !start[position(start, id)].completed,
        second->Ok_0@ == (MemoView { updated_at: second_time, ..start[position(start, id)] }),
        end == start.update(position(start, id), second->Ok_0@),
{
    let at = position(start, id);
    assert(between[at].id == id);
    assert(distinct_ids(between)) by {
        assert forall|i: int, j: int| 0 <= i < j < between.len() implies (#[trigger] between[i]).id != (#[trigger] between[j]).id by {
            assert(start[i].id != start[j].id);
        }
    }
    lemma_position_is_index(between, at);
    assert(end =~= start.update(at, second->Ok_0@));
}

/// A full update or a patch of a memo that does not exist is refused as not
/// found, never as a failure of the store, and the table stays as it was.
pub proof fn law_missing_memo_is_not_found(
    before: Seq<MemoView>,
    after: Seq<MemoView>,
    id: u128,
    now: i64,
    dto: UpdateMemoDto,
    updated: Result<MemoResponseDto, AppError>,
)
    requires
        update_memo_outcome(before, after, id, now, dto, updated),
        memo_violations(Some(dto.title@), dto.description.deep_view()).len() == 0,
        !has_id(before, id),
    ensures
        updated is Err,
        updated->Err_0.is_not_found(id),
        !(updated->Err_0 is Database),
        after == before,
{
}

/// A creation keeps every stored memo within the rules, and keeps every
/// memo's last update at or after its creation.
pub proof fn law_creation_keeps_memos_valid(
    before: Seq<MemoView>,
    after: Seq<MemoView>,
    id: u128,
    now: i64,
    dto: CreateMemoDto,
    created: Result<MemoResponseDto, AppError>,
)
    requires
        create_memo_outcome(before, after, id, now, dto, created),
    ensures
        all_valid(before) ==> all_valid(after),
        all_updated_after_creation(before) ==> all_updated_after_creation(after),
{
    if created is Ok {
        assert forall|i: int| 0 <= i < after.len() implies (#[trigger] after[i]) == (if i < before.len() {
            before[i]
        } else {
            created->Ok_0@
        }) by {}
    }
}

/// A full update keeps every stored memo within the rules; and where the
/// clock has not gone back behind the memo's creation, it keeps every memo's
/// last update at or after its creation.
pub proof fn law_update_keeps_memos_valid(
    before: Seq<MemoView>,
    after: Seq<MemoView>,
    id: u128,
    now: i64,
    dto: UpdateMemoDto,
    updated: Result<MemoResponseDto, AppError>,
)
    requires
        update_memo_outcome(before, after, id, now, dto, updated),
    ensures
        all_valid(before) ==> all_valid(after),
        all_updated_after_creation(before) && (has_id(before, id) ==> before[position(before, id)].created_at
            <= now) ==> all_updated_after_creation(after),
{
}

/// A patch keeps every stored memo within the rules; and where the clock has
/// not gone back behind the memo's creation, it keeps every memo's last update
/// at or after its creation.
pub proof fn law_patch_keeps_memos_valid(
    before: Seq<MemoView>,
    after: Seq<MemoView>,
    id: u128,
    now: i64,
    dto: PatchMemoDto,
    patched: Result<MemoResponseDto, AppError>,
)
    requires
        patch_memo_outcome(before, after, id, now, dto, patched),
    ensures
        all_valid(before) ==> all_valid(after),
        all_updated_after_creation(before) && (has_id(before, id) ==> before[position(before, id)].created_at
            <= now) ==> all_updated_after_creation(after),
{
}

/// A toggle keeps every stored memo within the rules; and where the clock has
/// not gone back behind the memo's creation, it keeps every memo's last update
/// at or after its creation.
pub proof fn law_toggle_keeps_memos_valid(
    before: Seq<MemoView>,
    after: Seq<MemoView>,
    id: u128,
    now: i64,
    toggled: Result<MemoResponseDto, AppError>,
)
    requires
        toggle_outcome(before, after, id, now, toggled),
    ensures
        all_valid(before) ==> all_valid(after),
        all_updated_after_creation(before) && (has_id(before, id) ==> before[position(before, id)].created_at
            <= now) ==> all_updated_after_creation(after),
{
}

/// Taking a memo out keeps every stored memo within the rules, and keeps
/// every memo's last update at or after its creation.
pub proof fn law_deletion_keeps_memos_valid(before: Seq<MemoView>, at: int)
    requires
        0 <= at < before.len(),
    ensures
        all_valid(before) ==> all_valid(before.remove(at)),
        all_updated_after_creation(before) ==> all_updated_after_creation(before.remove(at)),
        distinct_ids(before) ==> distinct_ids(before.remove(at)) && !has_id(
            before.remove(at),
            before[at].id,
        ),
{
    let after = before.remove(at);
    assert forall|i: int| 0 <= i < after.len() implies (#[trigger] after[i]) == before[if i < at {
        i
    } else {
        i + 1
    }] by {}
    if distinct_ids(before) {
        assert forall|i: int, j: int| 0 <= i < j < after.len() implies (#[trigger] after[i]).id != (#[trigger] after[j]).id by {
            let i0 = if i < at { i } else { i + 1 };
            let j0 = if j < at { j } else { j + 1 };
            assert(before[i0].id != before[j0].id);
        }
        assert forall|i: int| 0 <= i < after.len() implies (#[trigger] after[i]).id != before[at].id by {
            let i0 = if i < at { i } else { i + 1 };
            if i0 < at {
                assert(before[i0].id != before[at].id);
            } else {
                assert(before[at].id != before[i0].id);
            }
        }
    }
}

/// A table has exactly one listing under each filter and order: `listing`.
pub proof fn law_listing_is_determined(
    rows: Seq<MemoView>,
    filter: Option<bool>,
    field: SortField,
    order: SortOrder,
    out: Seq<MemoView>,
)
    requires
        distinct_ids(rows),
    ensures
        is_listing(rows, filter, field, order, out) <==> out == listing(rows, filter, field, order),
{
    lemma_listing_exists(rows, filter, field, order);
    if is_listing(rows, filter, field, order, out) {
        lemma_listing_is_unique(rows, filter, field, order, out);
    }
}

/// A descending listing is the ascending listing read backwards.
pub proof fn law_descending_is_ascending_reversed(
    rows: Seq<MemoView>,
    filter: Option<bool>,
    field: SortField,
    ascending: Seq<MemoView>,
)
    requires
        is_listing(rows, filter, field, SortOrder::Asc, ascending),
    ensures
        is_listing(rows, filter, field, SortOrder::Desc, ascending.reverse()),
{
    let n = ascending.len() as int;
    let down = ascending.reverse();
    assert forall|i: int| 0 <= i < down.len() implies rows.contains(#[trigger] down[i]) && passes(
        filter,
        down[i],
    ) by {
        assert(down[i] == ascending[n - 1 - i]);
    }
    assert forall|k: int| 0 <= k < rows.len() && passes(filter, #[trigger] rows[k]) implies down.contains(
        rows[k],
    ) by {
        assert(ascending.contains(rows[k]));
        let j = choose|j: int| 0 <= j < ascending.len() && ascending[j] == rows[k];
        assert(down[n - 1 - j] == rows[k]);
    }
    assert forall|i: int, j: int| 0 <= i < j < down.len() implies comes_before(
        field,
        SortOrder::Desc,
        #[trigger] down[i],
        #[trigger] down[j],
    ) by {
        assert(down[i] == ascending[n - 1 - i]);
        assert(down[j] == ascending[n - 1 - j]);
        assert(comes_before(field, SortOrder::Asc, ascending[n - 1 - j], ascending[n - 1 - i]));
    }
}

/// Every row of a page passes the filter that the listing was made with: with
/// the filter on completed memos, every row is completed.
pub proof fn law_page_passes_filter(
    rows: Seq<MemoView>,
    filter: Option<bool>,
    field: SortField,
    order: SortOrder,
    all: Seq<MemoView>,
    offset: u64,
    limit: u64,
)
    requires
        is_listing(rows, filter, field, order, all),
    ensures
        forall|i: int| 0 <= i < window(all, offset, limit).len() ==> passes(filter, #[trigger] window(all, offset, limit)[i]),
        filter == Some(true) ==> forall|i: int| 0 <= i < window(all, offset, limit).len() ==> (#[trigger] window(all, offset, limit)[i]).completed,
        all.len() == count_passing(rows, filter),
{
    let page = window(all, offset, limit);
    let start = if offset <= all.len() { offset as int } else { all.len() as int };
    assert forall|i: int| 0 <= i < page.len() implies passes(filter, #[trigger] page[i]) by {
        assert(page[i] == all[start + i]);
    }
}

/// The count of a filtered listing is that of the rows that pass the filter:
/// without a filter every row counts, and each row counts under exactly one of
/// the two filters.
pub proof fn law_count_is_filtered(rows: Seq<MemoView>)
    ensures
        count_passing(rows, None) == rows.len(),
        count_passing(rows, Some(true)) + count_passing(rows, Some(false)) == rows.len(),
    decreases rows.len(),
{
    if rows.len() > 0 {
        law_count_is_filtered(rows.drop_last());
    }
}

/// A page holds `limit` rows where the listing has that many from `offset`
/// on, else the rows that are left; from the end of the listing on it is
/// empty.
pub proof fn law_page_length(all: Seq<MemoView>, offset: u64, limit: u64)
    ensures
        offset >= all.len() ==> window(all, offset, limit).len() == 0,
        offset + limit <= all.len() ==> window(all, offset, limit).len() == limit,
        offset <= all.len() < offset + limit ==> window(all, offset, limit).len() == all.len() - offset,
        forall|i: int| 0 <= i < window(all, offset, limit).len() ==> #[trigger] window(all, offset, limit)[i] == all[offset + i],
{
}

/// The rows of a page stand in the order of the listing.
pub proof fn law_page_is_ordered(
    rows: Seq<MemoView>,
    filter: Option<bool>,
    field: SortField,
    order: SortOrder,
    all: Seq<MemoView>,
    offset: u64,
    limit: u64,
)
    requires
        is_listing(rows, filter, field, order, all),
    ensures
        forall|i: int, j: int| 0 <= i < j < window(all, offset, limit).len() ==> comes_before(
            field,
            order,
            #[trigger] window(all, offset, limit)[i],
            #[trigger] window(all, offset, limit)[j],
        ),
{
    let page = window(all, offset, limit);
    let start = if offset <= all.len() { offset as int } else { all.len() as int };
    assert forall|i: int, j: int| 0 <= i < j < page.len() implies comes_before(
        field,
        order,
        #[trigger] page[i],
        #[trigger] page[j],
    ) by {
        assert(page[i] == all[start + i]);
        assert(page[j] == all[start + j]);
    }
}

/// A page of a listing by title, ascending, has its titles in non-decreasing
/// lexical order: no row's title comes before that of a row in front of it.
pub proof fn law_titles_ascend(
    rows: Seq<MemoView>,
    filter: Option<bool>,
    all: Seq<MemoView>,
    offset: u64,
    limit: u64,
)
    requires
        is_listing(rows, filter, SortField::Title, SortOrder::Asc, all),
    ensures
        forall|i: int, j: int| 0 <= i < j < window(all, offset, limit).len() ==> !text_lt(
            (#[trigger] window(all, offset, limit)[j]).title,
            (#[trigger] window(all, offset, limit)[i]).title,
        ),
{
    let page = window(all, offset, limit);
    law_page_is_ordered(rows, filter, SortField::Title, SortOrder::Asc, all, offset, limit);
    assert forall|i: int, j: int| 0 <= i < j < page.len() implies !text_lt(
        (#[trigger] page[j]).title,
        (#[trigger] page[i]).title,
    ) by {
        assert(comes_before(SortField::Title, SortOrder::Asc, page[i], page[j]));
        lemma_comes_before_is_strict_order(SortField::Title, SortOrder::Asc, page[i], page[j], page[i]);
    }
}

} // verus!

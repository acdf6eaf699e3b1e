//! The memo service on a table of memos: what each operation does to the
//! table and returns, and the service that carries the operations out by
//! asking the repository each question that an operation comes to.

use vstd::prelude::*;
use vstd::string::StringExecFns;
use crate::clock::now_micros;
use crate::dto::{
    merged_date, merged_description, merged_flag, merged_text, order_ok, CreateMemoDto,
    MemoResponseDto, PaginatedResponse, PaginationParams, PatchMemoDto, UpdateMemoDto,
};
use crate::error::{order_text, validation_text, AppError};
use crate::flow::{resume, start, Answer, Operation, Query, Reply, Step};
use crate::ident::fresh_id;
use crate::memo::{Memo, MemoView};
use crate::query::{count_passing, is_listing, listing, sort_field_of, sort_order_of, window};
use crate::repository::{created_row, updated_row, MemoRepository};
use crate::store::{distinct_ids, has_id, position, MemoStore};
use crate::validation::{memo_violations, page_violations, report_text};

verus! {

/// The row that a patch leaves: each field that the patch names, for the
/// others what was stored, and `now` as the time of the last update.
pub open spec fn patched_row(
    prev: MemoView,
    title: Option<Seq<char>>,
    description: Option<Seq<char>>,
    date_to: Option<i64>,
    completed: Option<bool>,
    now: i64,
) -> MemoView {
    updated_row(
        prev,
        merged_text(title, prev.title),
        merged_description(description, prev.description),
        merged_date(date_to, prev.date_to),
        merged_flag(completed, prev.completed),
        now,
    )
}

/// The row that a toggle leaves: the completion flag flipped, the other
/// fields kept, and `now` as the time of the last update.
pub open spec fn toggled_row(prev: MemoView, now: i64) -> MemoView {
    updated_row(prev, prev.title, prev.description, prev.date_to, !prev.completed, now)
}

/// What a list request returns over the rows `rows`: broken rules are
/// reported first, then a direction that is neither `asc` nor `desc`;
/// otherwise the page that the request's window cuts out of the listing, with
/// the count of all rows that pass the filter and the window that was used.
pub open spec fn list_outcome(
    rows: Seq<MemoView>,
    params: PaginationParams,
    listed: Result<PaginatedResponse<MemoResponseDto>, AppError>,
) -> bool {
    let broken = page_violations(params.limit, params.sort_by.deep_view());
    if broken.len() > 0 {
        listed is Err && listed->Err_0.is_validation(validation_text(report_text(broken)))
    } else if !order_ok(params.order.deep_view()) {
        listed is Err && listed->Err_0.is_validation(order_text())
    } else {
        &&& listed is Ok
        &&& listed->Ok_0.data.deep_view() == window(
            listing(
                rows,
                params.completed,
                sort_field_of(params.sort_by_or_default()),
                sort_order_of(params.order_or_default()),
            ),
            params.offset_or_default(),
            params.limit_or_default(),
        )
        &&& listed->Ok_0.total == count_passing(rows, params.completed)
        &&& listed->Ok_0.limit == params.limit_or_default()
        &&& listed->Ok_0.offset == params.offset_or_default()
    }
}

/// What a creation under the identifier `id` at time `now` does and returns:
/// a request that breaks rules is refused before the table is touched; an
/// identifier that is taken is refused by the table; otherwise the new row is
/// appended and returned. A refusal leaves the table as it was.
pub open spec fn create_memo_outcome(
    before: Seq<MemoView>,
    after: Seq<MemoView>,
    id: u128,
    now: i64,
    dto: CreateMemoDto,
    created: Result<MemoResponseDto, AppError>,
) -> bool {
    let broken = memo_violations(Some(dto.title@), dto.description.deep_view());
    if broken.len() > 0 {
        created is Err && created->Err_0.is_validation(validation_text(report_text(broken))) && after
            == before
    } else if has_id(before, id) {
        created is Err && created->Err_0.is_conflict() && after == before
    } else {
        created is Ok && created->Ok_0@ == created_row(
            id,
            now,
            dto.title@,
            dto.description.deep_view(),
            dto.date_to,
        ) && after == before.push(created->Ok_0@)
    }
}

/// What a change of the memo `id` into the row `row` does and returns, once
/// the request has passed the rules: without such a memo it is refused as not
/// found and the table stays as it was; otherwise the row takes the place of
/// the stored one and is returned.
pub open spec fn change_outcome(
    before: Seq<MemoView>,
    after: Seq<MemoView>,
    id: u128,
    row: MemoView,
    changed: Result<MemoResponseDto, AppError>,
) -> bool {
    if has_id(before, id) {
        changed is Ok && changed->Ok_0@ == row && after == before.update(position(before, id), row)
    } else {
        changed is Err && changed->Err_0.is_not_found(id) && after == before
    }
}

/// What a full update of the memo `id` at time `now` does and returns: a
/// request that breaks rules is refused before the table is touched;
/// otherwise the memo is changed into the updated row.
pub open spec fn update_memo_outcome(
    before: Seq<MemoView>,
    after: Seq<MemoView>,
    id: u128,
    now: i64,
    dto: UpdateMemoDto,
    updated: Result<MemoResponseDto, AppError>,
) -> bool {
    let broken = memo_violations(Some(dto.title@), dto.description.deep_view());
    if broken.len() > 0 {
        updated is Err && updated->Err_0.is_validation(validation_text(report_text(broken))) && after
            == before
    } else {
        change_outcome(
            before,
            after,
            id,
            updated_row(
                before[position(before, id)],
                dto.title@,
                dto.description.deep_view(),
                dto.date_to,
                dto.completed,
                now,
            ),
            updated,
        )
    }
}

/// What a patch of the memo `id` at time `now` does and returns: a request
/// that breaks rules is refused before the table is touched; otherwise the
/// memo is changed into the patched row.
pub open spec fn patch_memo_outcome(
    before: Seq<MemoView>,
    after: Seq<MemoView>,
    id: u128,
    now: i64,
    dto: PatchMemoDto,
    patched: Result<MemoResponseDto, AppError>,
) -> bool {
    let broken = memo_violations(dto.title.deep_view(), dto.description.deep_view());
    if broken.len() > 0 {
        patched is Err && patched->Err_0.is_validation(validation_text(report_text(broken))) && after
            == before
    } else {
        change_outcome(
            before,
            after,
            id,
            patched_row(
                before[position(before, id)],
                dto.title.deep_view(),
                dto.description.deep_view(),
                dto.date_to,
                dto.completed,
                now,
            ),
            patched,
        )
    }
}

/// What a toggle of the memo `id` at time `now` does and returns: the memo is
/// changed into the toggled row.
pub open spec fn toggle_outcome(
    before: Seq<MemoView>,
    after: Seq<MemoView>,
    id: u128,
    now: i64,
    toggled: Result<MemoResponseDto, AppError>,
) -> bool {
    change_outcome(before, after, id, toggled_row(before[position(before, id)], now), toggled)
}

/// The memo that an answer holds, or the error.
pub open spec fn memo_of(result: Result<Answer, AppError>) -> Result<MemoResponseDto, AppError> {
    match result {
        Ok(Answer::Memo(memo)) => Ok(memo),
        Ok(_) => arbitrary(),
        Err(e) => Err(e),
    }
}

/// The page that an answer holds, or the error.
pub open spec fn page_of(result: Result<Answer, AppError>) -> Result<
    PaginatedResponse<MemoResponseDto>,
    AppError,
> {
    match result {
        Ok(Answer::Page(page)) => Ok(page),
        Ok(_) => arbitrary(),
        Err(e) => Err(e),
    }
}

/// What a deletion of the memo `id` does and returns: it takes the memo out,
/// or is refused as not found and leaves the table as it was.
pub open spec fn delete_outcome(
    before: Seq<MemoView>,
    after: Seq<MemoView>,
    id: u128,
    deleted: Result<(), AppError>,
) -> bool {
    if has_id(before, id) {
        deleted is Ok && after == before.remove(position(before, id))
    } else {
        deleted is Err && deleted->Err_0.is_not_found(id) && after == before
    }
}

/// What an operation does to the table and returns, where a creation uses the
/// identifier `id` and a change the time `now`: the outcome of the operation,
/// with the kind of answer that belongs to it.
pub open spec fn runs_as(
    before: Seq<MemoView>,
    after: Seq<MemoView>,
    op: Operation,
    id: u128,
    now: i64,
    result: Result<Answer, AppError>,
) -> bool {
    match op {
        Operation::List(params) => {
            &&& result is Ok ==> result->Ok_0 is Page
            &&& list_outcome(before, params, page_of(result))
            &&& after == before
        },
        Operation::Get(wanted) => {
            &&& result is Ok ==> result->Ok_0 is Memo
            &&& get_outcome(before, wanted, memo_of(result))
            &&& after == before
        },
        Operation::Create(dto) => {
            &&& result is Ok ==> result->Ok_0 is Memo
            &&& create_memo_outcome(before, after, id, now, dto, memo_of(result))
        },
        Operation::Update(target, dto) => {
            &&& result is Ok ==> result->Ok_0 is Memo
            &&& update_memo_outcome(before, after, target, now, dto, memo_of(result))
        },
        Operation::Patch(target, dto) => {
            &&& result is Ok ==> result->Ok_0 is Memo
            &&& patch_memo_outcome(before, after, target, now, dto, memo_of(result))
        },
        Operation::Delete(target) => {
            &&& result is Ok ==> result->Ok_0 is Deleted
            &&& delete_outcome(
                before,
                after,
                target,
                match result {
                    Ok(_) => Ok(()),
                    Err(e) => Err(e),
                },
            )
        },
        Operation::Toggle(target) => {
            &&& result is Ok ==> result->Ok_0 is Memo
            &&& toggle_outcome(before, after, target, now, memo_of(result))
        },
    }
}

/// What a lookup of the memo `id` returns: the memo, or that it does not
/// exist.
pub open spec fn get_outcome(rows: Seq<MemoView>, id: u128, got: Result<MemoResponseDto, AppError>) -> bool {
    if has_id(rows, id) {
        got is Ok && got->Ok_0@ == rows[position(rows, id)]
    } else {
        got is Err && got->Err_0.is_not_found(id)
    }
}

/// The memo service, bound to the table it works on.
pub struct MemoService {
    store: MemoStore,
}

impl View for MemoService {
    type V = Seq<MemoView>;

    closed spec fn view(&self) -> Seq<MemoView> {
        self.store@
    }
}

/// The error for an operation that did not come to an end as it must.
fn broken_flow() -> (e: AppError)
    ensures
        e matches AppError::Internal(text) && text@ == broken_flow_text(),
{
    AppError::Internal(String::from_str("the operation did not end within two questions"))
}

/// How an operation that did not come to an end is reported.
pub open spec fn broken_flow_text() -> Seq<char> {
    "the operation did not end within two questions"@
}

impl MemoService {
    /// A service on the given table.
    pub fn new(store: MemoStore) -> (service: MemoService)
        ensures
            service@ == store@,
    {
        MemoService { store }
    }

    /// The table that the service works on.
    pub fn store(&self) -> (store: &MemoStore)
        ensures
            store@ == self@,
    {
        &self.store
    }

    /// Gives the table back.
    pub fn into_store(self) -> (store: MemoStore)
        ensures
            store@ == self@,
    {
        self.store
    }

    /// Carries out an operation, with a new random identifier and the current
    /// time at hand.
    pub fn run(&mut self, op: Operation) -> (result: Result<Answer, AppError>)
        ensures
            distinct_ids(old(self)@),
            distinct_ids(final(self)@),
            exists|id: u128, now: i64| runs_as(old(self)@, final(self)@, op, id, now, result),
    {
        let now = now_micros();
        let id = fresh_id();
        self.run_with(op, id, now)
    }

    /// Carries out an operation, with the identifier `id` and the time `now`
    /// at hand: it asks the table each question that the operation comes to
    /// and hands each reply back, until the operation is over.
    pub fn run_with(&mut self, op: Operation, id: u128, now: i64) -> (result: Result<Answer, AppError>)
        ensures
            distinct_ids(old(self)@),
            distinct_ids(final(self)@),
            runs_as(old(self)@, final(self)@, op, id, now, result),
    {
        proof {
            use_type_invariant(&self.store);
        }
        let (first, kept) = match start(op) {
            Step::Finish(result) => {
                return result;
            },
            Step::Ask(query, pending) => (query, pending),
        };
        let reply = MemoRepository::reply_with(&mut self.store, first, id, now);
        let (second, kept) = match resume(kept, reply) {
            Step::Finish(result) => {
                return result;
            },
            Step::Ask(query, pending) => (query, pending),
        };
        let reply = MemoRepository::reply_with(&mut self.store, second, id, now);
        match resume(kept, reply) {
            Step::Finish(result) => result,
            Step::Ask(_, _) => Err(broken_flow()),
        }
    }

    /// Lists memos as the request asks: by default the first ten, newest
    /// first.
    pub fn get_all_memos(&self, params: PaginationParams) -> (listed: Result<
        PaginatedResponse<MemoResponseDto>,
        AppError,
    >)
        ensures
            distinct_ids(self@),
            list_outcome(self@, params, listed),
            listed is Ok ==> is_listing(
                self@,
                params.completed,
                sort_field_of(params.sort_by_or_default()),
                sort_order_of(params.order_or_default()),
                listing(
                    self@,
                    params.completed,
                    sort_field_of(params.sort_by_or_default()),
                    sort_order_of(params.order_or_default()),
                ),
            ),
    {
        proof {
            use_type_invariant(&self.store);
        }
        let (request, kept) = match start(Operation::List(params)) {
            Step::Finish(Err(e)) => {
                return Err(e);
            },
            Step::Ask(Query::FindAll(request), pending) => (request, pending),
            _ => {
                return Err(broken_flow());
            },
        };
        let reply = match MemoRepository::find_all(
            &self.store,
            request.limit,
            request.offset,
            request.completed,
            request.sort_by.as_str(),
            request.order.as_str(),
        ) {
            Ok((rows, total)) => Reply::Page(rows, total),
            Err(e) => Reply::Failed(e),
        };
        match resume(kept, reply) {
            Step::Finish(Ok(Answer::Page(page))) => Ok(page),
            Step::Finish(Err(e)) => Err(e),
            _ => Err(broken_flow()),
        }
    }

    /// Gets the memo `id`, or reports that it does not exist.
    pub fn get_memo_by_id(&self, id: u128) -> (got: Result<MemoResponseDto, AppError>)
        ensures
            distinct_ids(self@),
            get_outcome(self@, id, got),
    {
        proof {
            use_type_invariant(&self.store);
        }
        let kept = match start(Operation::Get(id)) {
            Step::Ask(_, pending) => pending,
            Step::Finish(_) => {
                return Err(broken_flow());
            },
        };
        let reply = match MemoRepository::find_by_id(&self.store, id) {
            Ok(found) => Reply::Row(found),
            Err(e) => Reply::Failed(e),
        };
        match resume(kept, reply) {
            Step::Finish(Ok(Answer::Memo(memo))) => Ok(memo),
            Step::Finish(Err(e)) => Err(e),
            _ => Err(broken_flow()),
        }
    }

    /// Creates a memo under a new random identifier, stamped with the current
    /// time.
    pub fn create_memo(&mut self, dto: CreateMemoDto) -> (created: Result<MemoResponseDto, AppError>)
        ensures
            distinct_ids(old(self)@),
            distinct_ids(final(self)@),
            exists|id: u128, now: i64| create_memo_outcome(old(self)@, final(self)@, id, now, dto, created),
    {
        let now = now_micros();
        let id = fresh_id();
        self.create_memo_with(id, now, dto)
    }

    /// Creates a memo under the identifier `id`, stamped with the time `now`.
    pub fn create_memo_with(&mut self, id: u128, now: i64, dto: CreateMemoDto) -> (created: Result<
        MemoResponseDto,
        AppError,
    >)
        ensures
            distinct_ids(old(self)@),
            distinct_ids(final(self)@),
            create_memo_outcome(old(self)@, final(self)@, id, now, dto, created),
    {
        match self.run_with(Operation::Create(dto), id, now) {
            Ok(Answer::Memo(memo)) => Ok(memo),
            Ok(_) => Err(broken_flow()),
            Err(e) => Err(e),
        }
    }

    /// Replaces every changeable field of the memo `id`, stamped with the
    /// current time.
    pub fn update_memo(&mut self, id: u128, dto: UpdateMemoDto) -> (updated: Result<
        MemoResponseDto,
        AppError,
    >)
        ensures
            distinct_ids(old(self)@),
            distinct_ids(final(self)@),
            exists|now: i64| update_memo_outcome(old(self)@, final(self)@, id, now, dto, updated),
    {
        let now = now_micros();
        self.update_memo_at(id, now, dto)
    }

    /// Replaces every changeable field of the memo `id`, stamped with the time
    /// `now`.
    pub fn update_memo_at(&mut self, id: u128, now: i64, dto: UpdateMemoDto) -> (updated: Result<
        MemoResponseDto,
        AppError,
    >)
        ensures
            distinct_ids(old(self)@),
            distinct_ids(final(self)@),
            update_memo_outcome(old(self)@, final(self)@, id, now, dto, updated),
    {
        match self.run_with(Operation::Update(id, dto), 0, now) {
            Ok(Answer::Memo(memo)) => Ok(memo),
            Ok(_) => Err(broken_flow()),
            Err(e) => Err(e),
        }
    }

    /// Changes the fields of the memo `id` that the patch names, stamped with
    /// the current time.
    pub fn patch_memo(&mut self, id: u128, dto: PatchMemoDto) -> (patched: Result<
        MemoResponseDto,
        AppError,
    >)
        ensures
            distinct_ids(old(self)@),
            distinct_ids(final(self)@),
            exists|now: i64| patch_memo_outcome(old(self)@, final(self)@, id, now, dto, patched),
    {
        let now = now_micros();
        self.patch_memo_at(id, now, dto)
    }

    /// Changes the fields of the memo `id` that the patch names, stamped with
    /// the time `now`.
    pub fn patch_memo_at(&mut self, id: u128, now: i64, dto: PatchMemoDto) -> (patched: Result<
        MemoResponseDto,
        AppError,
    >)
        ensures
            distinct_ids(old(self)@),
            distinct_ids(final(self)@),
            patch_memo_outcome(old(self)@, final(self)@, id, now, dto, patched),
    {
        match self.run_with(Operation::Patch(id, dto), 0, now) {
            Ok(Answer::Memo(memo)) => Ok(memo),
            Ok(_) => Err(broken_flow()),
            Err(e) => Err(e),
        }
    }

    /// Deletes the memo `id`, or reports that it does not exist.
    pub fn delete_memo(&mut self, id: u128) -> (deleted: Result<(), AppError>)
        ensures
            distinct_ids(old(self)@),
            distinct_ids(final(self)@),
            delete_outcome(old(self)@, final(self)@, id, deleted),
    {
        match self.run_with(Operation::Delete(id), 0, 0) {
            Ok(_) => Ok(()),
            Err(e) => Err(e),
        }
    }

    /// Flips the completion flag of the memo `id`, stamped with the current
    /// time.
    pub fn toggle_complete(&mut self, id: u128) -> (toggled: Result<MemoResponseDto, AppError>)
        ensures
            distinct_ids(old(self)@),
            distinct_ids(final(self)@),
            exists|now: i64| toggle_outcome(old(self)@, final(self)@, id, now, toggled),
    {
        let now = now_micros();
        self.toggle_complete_at(id, now)
    }

    /// Flips the completion flag of the memo `id`, stamped with the time
    /// `now`.
    pub fn toggle_complete_at(&mut self, id: u128, now: i64) -> (toggled: Result<
        MemoResponseDto,
        AppError,
    >)
        ensures
            distinct_ids(old(self)@),
            distinct_ids(final(self)@),
            toggle_outcome(old(self)@, final(self)@, id, now, toggled),
    {
        match self.run_with(Operation::Toggle(id), 0, now) {
            Ok(Answer::Memo(memo)) => Ok(memo),
            Ok(_) => Err(broken_flow()),
            Err(e) => Err(e),
        }
    }

    /// The answer for a stored memo: the same fields.
    pub fn entity_to_dto(entity: Memo) -> (dto: MemoResponseDto)
        ensures
            dto@ == entity@,
    {
        MemoResponseDto::from_entity(entity)
    }
}

} // verus!

//! The service as a conversation with a store: each operation asks the store
//! one or two questions and decides on each reply what comes next. Whoever
//! holds the store asks the questions; every decision is made here.

use vstd::prelude::*;
use vstd::string::StringExecFns;
use crate::dto::{
    merged_date, merged_description, merged_flag, merged_text, resolve_outcome, CreateMemoDto,
    MemoResponseDto, PageRequest, PaginatedResponse, PaginationParams, PatchMemoDto, UpdateMemoDto,
};
use crate::error::{validation_text, AppError, StoreError};
use crate::memo::Memo;
use crate::validation::{memo_violations, report_text};

verus! {

/// What the service can be asked to do.
#[derive(Debug)]
pub enum Operation {
    List(PaginationParams),
    Get(u128),
    Create(CreateMemoDto),
    Update(u128, UpdateMemoDto),
    Patch(u128, PatchMemoDto),
    Delete(u128),
    Toggle(u128),
}

/// A question to the store.
#[derive(Debug)]
pub enum Query {
    /// List the memos that the request describes, and count them.
    FindAll(PageRequest),
    /// Look up a memo.
    FindById(u128),
    /// Store a new memo under a new identifier, stamped with the current time.
    Create(CreateMemoDto),
    /// Replace every changeable field of a memo and stamp it with the current
    /// time.
    Update(u128, UpdateMemoDto),
    /// Delete a memo.
    Delete(u128),
}

/// The store's reply to a question.
#[derive(Debug)]
pub enum Reply {
    /// A page of memos, and the count of all memos that passed the filter.
    Page(Vec<Memo>, u64),
    /// The memo that was looked up, if it exists.
    Row(Option<Memo>),
    /// The memo as it was created.
    Created(Memo),
    /// The memo as it was updated.
    Updated(Memo),
    /// Whether there was a memo to delete.
    Deleted(bool),
    /// The store failed.
    Failed(StoreError),
}

/// What the service hands back when an operation succeeds.
#[derive(Debug)]
pub enum Answer {
    Page(PaginatedResponse<MemoResponseDto>),
    Memo(MemoResponseDto),
    Deleted,
}

/// What the service keeps in mind while the store is asked.
#[derive(Debug)]
pub enum Pending {
    /// A listing with this page size and offset.
    List(u64, u64),
    /// The lookup of this memo.
    Get(u128),
    /// A creation.
    Create,
    /// The update of this memo, be it a full update or the last step of a
    /// patch or a toggle.
    Update(u128),
    /// The lookup of this memo, to be patched with this patch.
    PatchFind(u128, PatchMemoDto),
    /// The deletion of this memo.
    Delete(u128),
    /// The lookup of this memo, to be toggled.
    ToggleFind(u128),
}

/// Where an operation stands: the store is to be asked a question, or the
/// operation is over.
#[derive(Debug)]
pub enum Step {
    Ask(Query, Pending),
    Finish(Result<Answer, AppError>),
}

/// How a reply that does not fit the question is reported.
pub open spec fn unexpected_reply_text() -> Seq<char> {
    "the store's reply does not fit the question"@
}

impl Step {
    /// The operation is over and was refused for broken rules.
    pub open spec fn is_refusal(&self, report: Seq<char>) -> bool {
        self matches Step::Finish(Err(e)) && e.is_validation(report)
    }

    /// The operation is over because the memo `id` does not exist.
    pub open spec fn is_not_found(&self, id: u128) -> bool {
        self matches Step::Finish(Err(e)) && e.is_not_found(id)
    }

    /// The operation is over and answers with this memo.
    pub open spec fn is_memo(&self, memo: Memo) -> bool {
        self matches Step::Finish(Ok(Answer::Memo(dto))) && dto@ == memo@
    }

    /// The store is to be asked for this update of the memo `id`.
    pub open spec fn is_update(
        &self,
        id: u128,
        title: Seq<char>,
        description: Option<Seq<char>>,
        date_to: i64,
        completed: bool,
    ) -> bool {
        &&& self matches Step::Ask(Query::Update(asked, dto), Pending::Update(kept))
        &&& asked == id
        &&& kept == id
        &&& dto.title@ == title
        &&& dto.description.deep_view() == description
        &&& dto.date_to == date_to
        &&& dto.completed == completed
    }
}

/// The first step of an operation. A request that breaks rules is refused at
/// once, so that the store is never asked; a listing asks for its page with
/// the defaults applied; a patch and a toggle first look the memo up; the
/// others ask for what they are about.
pub open spec fn begins(op: Operation, step: Step) -> bool {
    match op {
        Operation::List(params) => {
            match step {
                Step::Ask(Query::FindAll(request), Pending::List(limit, offset)) => resolve_outcome(
                    params,
                    Ok(request),
                ) && limit == request.limit && offset == request.offset,
                Step::Finish(Err(e)) => resolve_outcome(params, Err(e)),
                _ => false,
            }
        },
        Operation::Get(id) => step == Step::Ask(Query::FindById(id), Pending::Get(id)),
        Operation::Create(dto) => {
            let broken = memo_violations(Some(dto.title@), dto.description.deep_view());
            if broken.len() > 0 {
                step.is_refusal(validation_text(report_text(broken)))
            } else {
                step == Step::Ask(Query::Create(dto), Pending::Create)
            }
        },
        Operation::Update(id, dto) => {
            let broken = memo_violations(Some(dto.title@), dto.description.deep_view());
            if broken.len() > 0 {
                step.is_refusal(validation_text(report_text(broken)))
            } else {
                step == Step::Ask(Query::Update(id, dto), Pending::Update(id))
            }
        },
        Operation::Patch(id, dto) => {
            let broken = memo_violations(dto.title.deep_view(), dto.description.deep_view());
            if broken.len() > 0 {
                step.is_refusal(validation_text(report_text(broken)))
            } else {
                step == Step::Ask(Query::FindById(id), Pending::PatchFind(id, dto))
            }
        },
        Operation::Delete(id) => step == Step::Ask(Query::Delete(id), Pending::Delete(id)),
        Operation::Toggle(id) => step == Step::Ask(Query::FindById(id), Pending::ToggleFind(id)),
    }
}

/// The step that follows a reply.
///
/// A page, a memo that was found, created or updated, and a deletion that
/// found its memo finish the operation with their answer. A memo that is not
/// there finishes it as not found, and so does an update that the store
/// refused for want of the row. A lookup for a patch or a toggle is followed
/// by the update that the patch or the toggle amounts to on the stored memo.
/// Any other failure of the store is passed on, and a reply that does not fit
/// the question is an internal error.
pub open spec fn continues(pending: Pending, reply: Reply, step: Step) -> bool {
    match (pending, reply) {
        (Pending::List(limit, offset), Reply::Page(rows, total)) => {
            &&& step matches Step::Finish(Ok(Answer::Page(page)))
            &&& page.data.deep_view() == rows.deep_view()
            &&& page.total == total
            &&& page.limit == limit
            &&& page.offset == offset
        },
        (Pending::Get(id), Reply::Row(Some(memo))) => step.is_memo(memo),
        (Pending::Get(id), Reply::Row(None)) => step.is_not_found(id),
        (Pending::Create, Reply::Created(memo)) => step.is_memo(memo),
        (Pending::Update(id), Reply::Updated(memo)) => step.is_memo(memo),
        (Pending::Update(id), Reply::Failed(e)) => {
            if e is RecordNotFound {
                step.is_not_found(id)
            } else {
                step == Step::Finish(Err(AppError::Database(e)))
            }
        },
        (Pending::PatchFind(id, dto), Reply::Row(Some(memo))) => step.is_update(
            id,
            merged_text(dto.title.deep_view(), memo@.title),
            merged_description(dto.description.deep_view(), memo@.description),
            merged_date(dto.date_to, memo.date_to),
            merged_flag(dto.completed, memo.completed),
        ),
        (Pending::PatchFind(id, dto), Reply::Row(None)) => step.is_not_found(id),
        (Pending::Delete(id), Reply::Deleted(true)) => step == Step::Finish(Ok(Answer::Deleted)),
        (Pending::Delete(id), Reply::Deleted(false)) => step.is_not_found(id),
        (Pending::ToggleFind(id), Reply::Row(Some(memo))) => step.is_update(
            id,
            memo@.title,
            memo@.description,
            memo.date_to,
            !memo.completed,
        ),
        (Pending::ToggleFind(id), Reply::Row(None)) => step.is_not_found(id),
        (_, Reply::Failed(e)) => step == Step::Finish(Err(AppError::Database(e))),
        _ => step matches Step::Finish(Err(AppError::Internal(text))) && text@
            == unexpected_reply_text(),
    }
}

/// The answers for a page of stored memos, in the same order.
pub fn entities_to_dtos(memos: Vec<Memo>) -> (dtos: Vec<MemoResponseDto>)
    ensures
        dtos.deep_view() == memos.deep_view(),
{
    let mut dtos: Vec<MemoResponseDto> = Vec::new();
    let mut i: usize = 0;
    while i < memos.len()
        invariant
            i <= memos.len(),
            dtos.len() == i,
            forall|k: int| 0 <= k < i ==> (#[trigger] dtos[k])@ == memos[k]@,
        decreases memos.len() - i,
    {
        dtos.push(MemoResponseDto::from_entity(memos[i].clone()));
        i += 1;
    }
    assert(dtos.deep_view() =~= memos.deep_view());
    dtos
}

/// The error for a reply that does not fit the question.
fn unexpected_reply() -> (step: Step)
    ensures
        step matches Step::Finish(Err(AppError::Internal(text))) && text@ == unexpected_reply_text(),
{
    Step::Finish(
        Err(AppError::Internal(String::from_str("the store's reply does not fit the question"))),
    )
}

/// Takes the first step of an operation.
pub fn start(op: Operation) -> (step: Step)
    ensures
        begins(op, step),
{
    match op {
        Operation::List(params) => {
            match params.resolve() {
                Ok(request) => {
                    let limit = request.limit;
                    let offset = request.offset;
                    Step::Ask(Query::FindAll(request), Pending::List(limit, offset))
                },
                Err(e) => Step::Finish(Err(e)),
            }
        },
        Operation::Get(id) => Step::Ask(Query::FindById(id), Pending::Get(id)),
        Operation::Create(dto) => {
            match dto.validate() {
                Ok(_) => Step::Ask(Query::Create(dto), Pending::Create),
                Err(errors) => Step::Finish(Err(AppError::from_validation_errors(&errors))),
            }
        },
        Operation::Update(id, dto) => {
            match dto.validate() {
                Ok(_) => Step::Ask(Query::Update(id, dto), Pending::Update(id)),
                Err(errors) => Step::Finish(Err(AppError::from_validation_errors(&errors))),
            }
        },
        Operation::Patch(id, dto) => {
            match dto.validate() {
                Ok(_) => Step::Ask(Query::FindById(id), Pending::PatchFind(id, dto)),
                Err(errors) => Step::Finish(Err(AppError::from_validation_errors(&errors))),
            }
        },
        Operation::Delete(id) => Step::Ask(Query::Delete(id), Pending::Delete(id)),
        Operation::Toggle(id) => Step::Ask(Query::FindById(id), Pending::ToggleFind(id)),
    }
}

/// Takes the step that follows a reply of the store.
pub fn resume(pending: Pending, reply: Reply) -> (step: Step)
    ensures
        continues(pending, reply, step),
{
    match reply {
        Reply::Failed(e) => {
            match pending {
                Pending::Update(id) => Step::Finish(Err(AppError::from_update_error(e, id))),
                _ => Step::Finish(Err(AppError::from_store_error(e))),
            }
        },
        Reply::Page(rows, total) => {
            match pending {
                Pending::List(limit, offset) => {
                    let data = entities_to_dtos(rows);
                    Step::Finish(Ok(Answer::Page(PaginatedResponse::new(data, total, limit, offset))))
                },
                _ => unexpected_reply(),
            }
        },
        Reply::Row(found) => {
            match pending {
                Pending::Get(id) => {
                    match found {
                        Some(memo) => Step::Finish(Ok(Answer::Memo(MemoResponseDto::from_entity(memo)))),
                        None => Step::Finish(Err(AppError::not_found(id))),
                    }
                },
                Pending::PatchFind(id, dto) => {
                    match found {
                        Some(memo) => Step::Ask(Query::Update(id, dto.merge(&memo)), Pending::Update(id)),
                        None => Step::Finish(Err(AppError::not_found(id))),
                    }
                },
                Pending::ToggleFind(id) => {
                    match found {
                        Some(memo) => Step::Ask(
                            Query::Update(id, UpdateMemoDto::toggled(&memo)),
                            Pending::Update(id),
                        ),
                        None => Step::Finish(Err(AppError::not_found(id))),
                    }
                },
                _ => unexpected_reply(),
            }
        },
        Reply::Created(memo) => {
            match pending {
                Pending::Create => Step::Finish(Ok(Answer::Memo(MemoResponseDto::from_entity(memo)))),
                _ => unexpected_reply(),
            }
        },
        Reply::Updated(memo) => {
            match pending {
                Pending::Update(_) => Step::Finish(Ok(Answer::Memo(MemoResponseDto::from_entity(memo)))),
                _ => unexpected_reply(),
            }
        },
        Reply::Deleted(found) => {
            match pending {
                Pending::Delete(id) => {
                    if found {
                        Step::Finish(Ok(Answer::Deleted))
                    } else {
                        Step::Finish(Err(AppError::not_found(id)))
                    }
                },
                _ => unexpected_reply(),
            }
        },
    }
}

} // verus!

//! The shapes in which requests arrive and answers leave.

use vstd::prelude::*;
use vstd::string::StringExecFns;
use crate::error::{order_text, validation_text, AppError};
use crate::memo::{Memo, MemoView};
use crate::text::{borrow_text, clone_text, text_equal};
use crate::validation::{
    check_memo_fields, check_page_fields, memo_violations, page_violations, report_text,
    ValidationErrors,
};

verus! {

/// The page size used where a request names none.
pub const DEFAULT_LIMIT: u64 = 10;

/// The offset used where a request names none.
pub const DEFAULT_OFFSET: u64 = 0;

/// A request to create a memo.
#[derive(Debug)]
pub struct CreateMemoDto {
    pub title: String,
    pub description: Option<String>,
    pub date_to: i64,
}

/// A request to replace every changeable field of a memo.
#[derive(Debug)]
pub struct UpdateMemoDto {
    pub title: String,
    pub description: Option<String>,
    pub date_to: i64,
    pub completed: bool,
}

/// A request to change some fields of a memo. A field that is absent stays
/// as it is; so an absent description keeps the stored one and cannot clear
/// it.
#[derive(Debug)]
pub struct PatchMemoDto {
    pub title: Option<String>,
    pub description: Option<String>,
    pub date_to: Option<i64>,
    pub completed: Option<bool>,
}

/// A memo as it is handed to a client.
#[derive(Debug)]
pub struct MemoResponseDto {
    pub id: u128,
    pub title: String,
    pub description: Option<String>,
    pub date_to: i64,
    pub completed: bool,
    pub created_at: i64,
    pub updated_at: i64,
}

/// What a list request may ask for.
#[derive(Debug)]
pub struct PaginationParams {
    pub limit: Option<u64>,
    pub offset: Option<u64>,
    pub completed: Option<bool>,
    pub sort_by: Option<String>,
    pub order: Option<String>,
}

/// A list request that has passed the rules, with a value for every setting:
/// the request's own where it names one, else the default.
#[derive(Debug)]
pub struct PageRequest {
    pub limit: u64,
    pub offset: u64,
    pub completed: Option<bool>,
    pub sort_by: String,
    pub order: String,
}

/// One page of a listing, with the number of rows in the whole listing and
/// the window that was asked for.
#[derive(Debug)]
pub struct PaginatedResponse<T> {
    pub data: Vec<T>,
    pub total: u64,
    pub limit: u64,
    pub offset: u64,
}

impl View for MemoResponseDto {
    type V = MemoView;

    open spec fn view(&self) -> MemoView {
        MemoView {
            id: self.id,
            title: self.title@,
            description: self.description.deep_view(),
            date_to: self.date_to,
            completed: self.completed,
            created_at: self.created_at,
            updated_at: self.updated_at,
        }
    }
}

impl DeepView for MemoResponseDto {
    type V = MemoView;

    open spec fn deep_view(&self) -> MemoView {
        self@
    }
}

impl Clone for MemoResponseDto {
    fn clone(&self) -> (copy: MemoResponseDto)
        ensures
            copy@ == self@,
    {
        MemoResponseDto {
            id: self.id,
            title: self.title.clone(),
            description: clone_text(&self.description),
            date_to: self.date_to,
            completed: self.completed,
            created_at: self.created_at,
            updated_at: self.updated_at,
        }
    }
}

impl MemoResponseDto {
    /// The answer for a stored memo: the same fields.
    pub fn from_entity(entity: Memo) -> (dto: MemoResponseDto)
        ensures
            dto@ == entity@,
    {
        MemoResponseDto {
            id: entity.id,
            title: entity.title,
            description: entity.description,
            date_to: entity.date_to,
            completed: entity.completed,
            created_at: entity.created_at,
            updated_at: entity.updated_at,
        }
    }
}

impl CreateMemoDto {
    /// Checks the title and the description.
    pub fn validate(&self) -> (checked: Result<(), ValidationErrors>)
        ensures
            checked is Ok <==> memo_violations(Some(self.title@), self.description.deep_view()).len()
                == 0,
            checked is Err ==> checked->Err_0.violations@ == memo_violations(
                Some(self.title@),
                self.description.deep_view(),
            ),
    {
        check_memo_fields(Some(self.title.as_str()), borrow_text(&self.description))
    }
}

impl UpdateMemoDto {
    /// Checks the title and the description.
    pub fn validate(&self) -> (checked: Result<(), ValidationErrors>)
        ensures
            checked is Ok <==> memo_violations(Some(self.title@), self.description.deep_view()).len()
                == 0,
            checked is Err ==> checked->Err_0.violations@ == memo_violations(
                Some(self.title@),
                self.description.deep_view(),
            ),
    {
        check_memo_fields(Some(self.title.as_str()), borrow_text(&self.description))
    }

    /// The full update that flips the completion flag of `existing` and keeps
    /// its other fields.
    pub fn toggled(existing: &Memo) -> (dto: UpdateMemoDto)
        ensures
            dto.title@ == existing@.title,
            dto.description.deep_view() == existing@.description,
            dto.date_to == existing.date_to,
            dto.completed == !existing.completed,
    {
        UpdateMemoDto {
            title: existing.title.clone(),
            description: clone_text(&existing.description),
            date_to: existing.date_to,
            completed: !existing.completed,
        }
    }
}

/// The title after a patch: the patch's where it has one.
pub open spec fn merged_text(patch: Option<Seq<char>>, stored: Seq<char>) -> Seq<char> {
    match patch {
        Some(text) => text,
        None => stored,
    }
}

/// The description after a patch: the patch's where it has one, else the
/// stored one.
pub open spec fn merged_description(patch: Option<Seq<char>>, stored: Option<Seq<char>>) -> Option<Seq<char>> {
    match patch {
        Some(text) => Some(text),
        None => stored,
    }
}

/// The due date after a patch: the patch's where it has one.
pub open spec fn merged_date(patch: Option<i64>, stored: i64) -> i64 {
    match patch {
        Some(date) => date,
        None => stored,
    }
}

/// The completion flag after a patch: the patch's where it has one.
pub open spec fn merged_flag(patch: Option<bool>, stored: bool) -> bool {
    match patch {
        Some(flag) => flag,
        None => stored,
    }
}

impl PatchMemoDto {
    /// A patch that names no field.
    pub open spec fn is_empty(&self) -> bool {
        self.title is None && self.description is None && self.date_to is None && self.completed is None
    }

    /// Checks the title and the description, each where it is present.
    pub fn validate(&self) -> (checked: Result<(), ValidationErrors>)
        ensures
            checked is Ok <==> memo_violations(self.title.deep_view(), self.description.deep_view()).len()
                == 0,
            checked is Err ==> checked->Err_0.violations@ == memo_violations(
                self.title.deep_view(),
                self.description.deep_view(),
            ),
    {
        check_memo_fields(borrow_text(&self.title), borrow_text(&self.description))
    }

    /// The full update that this patch amounts to on `existing`: each field
    /// that the patch names, and for the others what is stored.
    pub fn merge(self, existing: &Memo) -> (dto: UpdateMemoDto)
        ensures
            dto.title@ == merged_text(self.title.deep_view(), existing@.title),
            dto.description.deep_view() == merged_description(
                self.description.deep_view(),
                existing@.description,
            ),
            dto.date_to == merged_date(self.date_to, existing.date_to),
            dto.completed == merged_flag(self.completed, existing.completed),
    {
        let title = match self.title {
            Some(text) => text,
            None => existing.title.clone(),
        };
        let description = match self.description {
            Some(text) => Some(text),
            None => clone_text(&existing.description),
        };
        let date_to = match self.date_to {
            Some(date) => date,
            None => existing.date_to,
        };
        let completed = match self.completed {
            Some(flag) => flag,
            None => existing.completed,
        };
        UpdateMemoDto { title, description, date_to, completed }
    }
}

/// A direction is acceptable when it is absent, `asc` or `desc`.
pub open spec fn order_ok(order: Option<Seq<char>>) -> bool {
    order is Some ==> order->0 == "asc"@ || order->0 == "desc"@
}

impl PaginationParams {
    /// The page size that a request means.
    pub open spec fn limit_or_default(&self) -> u64 {
        match self.limit {
            Some(limit) => limit,
            None => DEFAULT_LIMIT,
        }
    }

    /// The offset that a request means.
    pub open spec fn offset_or_default(&self) -> u64 {
        match self.offset {
            Some(offset) => offset,
            None => DEFAULT_OFFSET,
        }
    }

    /// The name of the sort field that a request means.
    pub open spec fn sort_by_or_default(&self) -> Seq<char> {
        match self.sort_by {
            Some(name) => name@,
            None => "created_at"@,
        }
    }

    /// The direction that a request means.
    pub open spec fn order_or_default(&self) -> Seq<char> {
        match self.order {
            Some(word) => word@,
            None => "desc"@,
        }
    }

    /// Checks the page size and the name of the sort field. An offset cannot
    /// be out of range.
    pub fn validate(&self) -> (checked: Result<(), ValidationErrors>)
        ensures
            checked is Ok <==> page_violations(self.limit, self.sort_by.deep_view()).len() == 0,
            checked is Err ==> checked->Err_0.violations@ == page_violations(
                self.limit,
                self.sort_by.deep_view(),
            ),
    {
        check_page_fields(self.limit, borrow_text(&self.sort_by))
    }

    /// Checks the direction: where there is one it must be `asc` or `desc`.
    pub fn validate_order(&self) -> (checked: Result<(), String>)
        ensures
            checked is Ok <==> order_ok(self.order.deep_view()),
            checked is Err ==> checked->Err_0@ == order_text(),
    {
        match &self.order {
            Some(order) => {
                if !text_equal(order.as_str(), "asc") && !text_equal(order.as_str(), "desc") {
                    return Err(String::from_str("Order must be 'asc' or 'desc'"));
                }
            },
            None => {},
        }
        Ok(())
    }
}

/// What resolving a list request gives: broken rules are reported first, then
/// a direction that is neither `asc` nor `desc`; otherwise the request with
/// its defaults applied.
pub open spec fn resolve_outcome(params: PaginationParams, resolved: Result<PageRequest, AppError>) -> bool {
    let broken = page_violations(params.limit, params.sort_by.deep_view());
    if broken.len() > 0 {
        resolved is Err && resolved->Err_0.is_validation(validation_text(report_text(broken)))
    } else if !order_ok(params.order.deep_view()) {
        resolved is Err && resolved->Err_0.is_validation(order_text())
    } else {
        &&& resolved is Ok
        &&& resolved->Ok_0.limit == params.limit_or_default()
        &&& resolved->Ok_0.offset == params.offset_or_default()
        &&& resolved->Ok_0.completed == params.completed
        &&& resolved->Ok_0.sort_by@ == params.sort_by_or_default()
        &&& resolved->Ok_0.order@ == params.order_or_default()
    }
}

impl PaginationParams {
    /// Checks the request against the rules and applies the defaults: ten
    /// rows from the start, ordered by `created_at`, descending.
    pub fn resolve(&self) -> (resolved: Result<PageRequest, AppError>)
        ensures
            resolve_outcome(*self, resolved),
    {
        match self.validate() {
            Err(errors) => {
                return Err(AppError::from_validation_errors(&errors));
            },
            Ok(_) => {},
        }
        match self.validate_order() {
            Err(text) => {
                return Err(AppError::from_message(text));
            },
            Ok(_) => {},
        }
        let limit = match self.limit {
            Some(limit) => limit,
            None => DEFAULT_LIMIT,
        };
        let offset = match self.offset {
            Some(offset) => offset,
            None => DEFAULT_OFFSET,
        };
        let sort_by = match &self.sort_by {
            Some(name) => name.clone(),
            None => String::from_str("created_at"),
        };
        let order = match &self.order {
            Some(word) => word.clone(),
            None => String::from_str("desc"),
        };
        Ok(PageRequest { limit, offset, completed: self.completed, sort_by, order })
    }
}

impl Default for PaginationParams {
    /// The first page of ten, newest first.
    fn default() -> (params: PaginationParams)
        ensures
            params.limit == Some(DEFAULT_LIMIT),
            params.offset == Some(DEFAULT_OFFSET),
            params.completed is None,
            params.sort_by.deep_view() == Some("created_at"@),
            params.order.deep_view() == Some("desc"@),
    {
        PaginationParams {
            limit: Some(DEFAULT_LIMIT),
            offset: Some(DEFAULT_OFFSET),
            completed: None,
            sort_by: Some(String::from_str("created_at")),
            order: Some(String::from_str("desc")),
        }
    }
}

impl<T> PaginatedResponse<T> {
    /// Puts a page together with the count and the window it was cut with.
    pub fn new(data: Vec<T>, total: u64, limit: u64, offset: u64) -> (response: PaginatedResponse<T>)
        ensures
            response.data == data,
            response.total == total,
            response.limit == limit,
            response.offset == offset,
    {
        PaginatedResponse { data, total, limit, offset }
    }
}

} // verus!

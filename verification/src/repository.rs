//! Typed operations on the table of memos: create, find, list, update and
//! delete. No rule on what a memo may hold is enforced here, only existence.

use vstd::prelude::*;
use crate::clock::now_micros;
use crate::error::StoreError;
use crate::flow::{Query, Reply};
use crate::ident::fresh_id;
use crate::memo::{Memo, MemoView};
use crate::query::{
    count_passing, is_listing, listing, sort_field_of, sort_order_of, window, SortField, SortOrder,
};
use crate::store::{distinct_ids, has_id, lookup, position, MemoStore};

verus! {

/// The row that a creation stores: not completed, and created and last
/// updated at the same moment.
pub open spec fn created_row(
    id: u128,
    now: i64,
    title: Seq<char>,
    description: Option<Seq<char>>,
    date_to: i64,
) -> MemoView {
    MemoView { id, title, description, date_to, completed: false, created_at: now, updated_at: now }
}

/// The row that a full update leaves: the identifier and the creation time of
/// the row before, the new fields, and `now` as the time of the last update.
pub open spec fn updated_row(
    prev: MemoView,
    title: Seq<char>,
    description: Option<Seq<char>>,
    date_to: i64,
    completed: bool,
    now: i64,
) -> MemoView {
    MemoView {
        id: prev.id,
        title,
        description,
        date_to,
        completed,
        created_at: prev.created_at,
        updated_at: now,
    }
}

/// What a creation with identifier `id` at time `now` does to the table and
/// returns: an identifier that is taken is refused and nothing changes;
/// otherwise the new row is appended and returned.
pub open spec fn create_outcome(
    before: Seq<MemoView>,
    after: Seq<MemoView>,
    id: u128,
    now: i64,
    title: Seq<char>,
    description: Option<Seq<char>>,
    date_to: i64,
    created: Result<Memo, StoreError>,
) -> bool {
    if has_id(before, id) {
        created is Err && created->Err_0.is_conflict() && after == before
    } else {
        created is Ok && created->Ok_0@ == created_row(id, now, title, description, date_to) && after
            == before.push(created->Ok_0@)
    }
}

/// What a full update of the memo `id` at time `now` does to the table and
/// returns: without such a memo it fails and nothing changes; otherwise the
/// updated row takes the place of the old one and is returned.
pub open spec fn update_outcome(
    before: Seq<MemoView>,
    after: Seq<MemoView>,
    id: u128,
    now: i64,
    title: Seq<char>,
    description: Option<Seq<char>>,
    date_to: i64,
    completed: bool,
    updated: Result<Memo, StoreError>,
) -> bool {
    if has_id(before, id) {
        updated is Ok && updated->Ok_0@ == updated_row(
            before[position(before, id)],
            title,
            description,
            date_to,
            completed,
            now,
        ) && after == before.update(position(before, id), updated->Ok_0@)
    } else {
        updated is Err && updated->Err_0.is_missing(id) && after == before
    }
}

/// What the table replies to a question, and what the question does to it,
/// where a creation uses the identifier `id` and a creation or an update the
/// time `now`.
pub open spec fn replies(
    before: Seq<MemoView>,
    after: Seq<MemoView>,
    query: Query,
    id: u128,
    now: i64,
    reply: Reply,
) -> bool {
    match query {
        Query::FindAll(request) => {
            &&& reply matches Reply::Page(rows, total)
            &&& rows.deep_view() == window(
                listing(
                    before,
                    request.completed,
                    sort_field_of(request.sort_by@),
                    sort_order_of(request.order@),
                ),
                request.offset,
                request.limit,
            )
            &&& total == count_passing(before, request.completed)
            &&& after == before
        },
        Query::FindById(wanted) => {
            &&& reply matches Reply::Row(found)
            &&& found.deep_view() == lookup(before, wanted)
            &&& after == before
        },
        Query::Create(dto) => {
            if has_id(before, id) {
                &&& reply matches Reply::Failed(e)
                &&& e.is_conflict()
                &&& after == before
            } else {
                &&& reply matches Reply::Created(memo)
                &&& memo@ == created_row(id, now, dto.title@, dto.description.deep_view(), dto.date_to)
                &&& after == before.push(memo@)
            }
        },
        Query::Update(target, dto) => {
            if has_id(before, target) {
                &&& reply matches Reply::Updated(memo)
                &&& memo@ == updated_row(
                    before[position(before, target)],
                    dto.title@,
                    dto.description.deep_view(),
                    dto.date_to,
                    dto.completed,
                    now,
                )
                &&& after == before.update(position(before, target), memo@)
            } else {
                &&& reply matches Reply::Failed(e)
                &&& e.is_missing(target)
                &&& after == before
            }
        },
        Query::Delete(target) => {
            if has_id(before, target) {
                reply == Reply::Deleted(true) && after == before.remove(position(before, target))
            } else {
                reply == Reply::Deleted(false) && after == before
            }
        },
    }
}

/// The repository of memos. It holds nothing: every operation is handed the
/// table it works on.
pub struct MemoRepository;

impl MemoRepository {
    /// Lists memos: those that pass the completion filter, ordered by the field
    /// that `sort_by` names (an unknown name means `created_at`) in the
    /// direction that `order` names (anything but `asc` means descending),
    /// from position `offset` on and at most `limit` of them. The count is that
    /// of all memos that pass the filter, whatever the window.
    pub fn find_all(
        store: &MemoStore,
        limit: u64,
        offset: u64,
        completed: Option<bool>,
        sort_by: &str,
        order: &str,
    ) -> (found: Result<(Vec<Memo>, u64), StoreError>)
        ensures
            distinct_ids(store@),
            is_listing(
                store@,
                completed,
                sort_field_of(sort_by@),
                sort_order_of(order@),
                listing(store@, completed, sort_field_of(sort_by@), sort_order_of(order@)),
            ),
            found is Ok,
            found->Ok_0.0.deep_view() == window(
                listing(store@, completed, sort_field_of(sort_by@), sort_order_of(order@)),
                offset,
                limit,
            ),
            found->Ok_0.1 == count_passing(store@, completed),
    {
        let field = SortField::parse(sort_by);
        let direction = SortOrder::parse(order);
        let total = store.count(completed);
        let page = store.all(completed, field, direction, offset, limit);
        Ok((page, total))
    }

    /// Finds a memo by its identifier. A memo that is not there is no error.
    pub fn find_by_id(store: &MemoStore, id: u128) -> (found: Result<Option<Memo>, StoreError>)
        ensures
            distinct_ids(store@),
            found is Ok,
            found->Ok_0.deep_view() == lookup(store@, id),
    {
        Ok(store.one(id))
    }

    /// Creates a memo under a new random identifier, stamped with the current
    /// time.
    pub fn create(store: &mut MemoStore, title: String, description: Option<String>, date_to: i64) -> (created:
        Result<Memo, StoreError>)
        ensures
            distinct_ids(old(store)@),
            distinct_ids(final(store)@),
            exists|id: u128, now: i64|
                create_outcome(
                    old(store)@,
                    final(store)@,
                    id,
                    now,
                    title@,
                    description.deep_view(),
                    date_to,
                    created,
                ),
    {
        let now = now_micros();
        let id = fresh_id();
        Self::create_with(store, id, now, title, description, date_to)
    }

    /// Creates a memo under the identifier `id`, stamped with the time `now`.
    pub fn create_with(
        store: &mut MemoStore,
        id: u128,
        now: i64,
        title: String,
        description: Option<String>,
        date_to: i64,
    ) -> (created: Result<Memo, StoreError>)
        ensures
            distinct_ids(old(store)@),
            distinct_ids(final(store)@),
            create_outcome(
                old(store)@,
                final(store)@,
                id,
                now,
                title@,
                description.deep_view(),
                date_to,
                created,
            ),
    {
        let row = Memo {
            id,
            title,
            description,
            date_to,
            completed: false,
            created_at: now,
            updated_at: now,
        };
        let stored = row.clone();
        match store.insert(row) {
            Ok(_) => Ok(stored),
            Err(e) => Err(e),
        }
    }

    /// Replaces every changeable field of the memo `id` and stamps it with the
    /// current time.
    pub fn update(
        store: &mut MemoStore,
        id: u128,
        title: String,
        description: Option<String>,
        date_to: i64,
        completed: bool,
    ) -> (updated: Result<Memo, StoreError>)
        ensures
            distinct_ids(old(store)@),
            distinct_ids(final(store)@),
            exists|now: i64|
                update_outcome(
                    old(store)@,
                    final(store)@,
                    id,
                    now,
                    title@,
                    description.deep_view(),
                    date_to,
                    completed,
                    updated,
                ),
    {
        let now = now_micros();
        Self::update_at(store, id, now, title, description, date_to, completed)
    }

    /// Replaces every changeable field of the memo `id` and stamps it with the
    /// time `now`.
    pub fn update_at(
        store: &mut MemoStore,
        id: u128,
        now: i64,
        title: String,
        description: Option<String>,
        date_to: i64,
        completed: bool,
    ) -> (updated: Result<Memo, StoreError>)
        ensures
            distinct_ids(old(store)@),
            distinct_ids(final(store)@),
            update_outcome(
                old(store)@,
                final(store)@,
                id,
                now,
                title@,
                description.deep_view(),
                date_to,
                completed,
                updated,
            ),
    {
        match store.one(id) {
            Some(existing) => {
                let row = Memo {
                    id: existing.id,
                    title,
                    description,
                    date_to,
                    completed,
                    created_at: existing.created_at,
                    updated_at: now,
                };
                let stored = row.clone();
                let replaced = store.replace(row);
                if replaced {
                    Ok(stored)
                } else {
                    Err(StoreError::missing(id))
                }
            },
            None => Err(StoreError::missing(id)),
        }
    }

    /// Replies to a question, with a new random identifier and the current
    /// time at hand.
    pub fn reply(store: &mut MemoStore, query: Query) -> (reply: Reply)
        ensures
            distinct_ids(old(store)@),
            distinct_ids(final(store)@),
            exists|id: u128, now: i64| replies(old(store)@, final(store)@, query, id, now, reply),
    {
        let now = now_micros();
        let id = fresh_id();
        Self::reply_with(store, query, id, now)
    }

    /// Replies to a question, with the identifier `id` and the time `now` at
    /// hand.
    pub fn reply_with(store: &mut MemoStore, query: Query, id: u128, now: i64) -> (reply: Reply)
        ensures
            distinct_ids(old(store)@),
            distinct_ids(final(store)@),
            replies(old(store)@, final(store)@, query, id, now, reply),
    {
        match query {
            Query::FindAll(request) => {
                match Self::find_all(
                    store,
                    request.limit,
                    request.offset,
                    request.completed,
                    request.sort_by.as_str(),
                    request.order.as_str(),
                ) {
                    Ok((rows, total)) => Reply::Page(rows, total),
                    Err(e) => Reply::Failed(e),
                }
            },
            Query::FindById(wanted) => {
                match Self::find_by_id(store, wanted) {
                    Ok(found) => Reply::Row(found),
                    Err(e) => Reply::Failed(e),
                }
            },
            Query::Create(dto) => {
                match Self::create_with(store, id, now, dto.title, dto.description, dto.date_to) {
                    Ok(memo) => Reply::Created(memo),
                    Err(e) => Reply::Failed(e),
                }
            },
            Query::Update(target, dto) => {
                match Self::update_at(
                    store,
                    target,
                    now,
                    dto.title,
                    dto.description,
                    dto.date_to,
                    dto.completed,
                ) {
                    Ok(memo) => Reply::Updated(memo),
                    Err(e) => Reply::Failed(e),
                }
            },
            Query::Delete(target) => {
                match Self::delete(store, target) {
                    Ok(found) => Reply::Deleted(found),
                    Err(e) => Reply::Failed(e),
                }
            },
        }
    }

    /// Deletes the memo `id` and says whether there was one. A memo that is
    /// not there is no error.
    pub fn delete(store: &mut MemoStore, id: u128) -> (deleted: Result<bool, StoreError>)
        ensures
            distinct_ids(old(store)@),
            distinct_ids(final(store)@),
            deleted is Ok,
            deleted->Ok_0 == has_id(old(store)@, id),
            has_id(old(store)@, id) ==> final(store)@ == old(store)@.remove(position(old(store)@, id)),
            !has_id(old(store)@, id) ==> final(store)@ == old(store)@,
    {
        Ok(store.delete(id))
    }
}

} // verus!

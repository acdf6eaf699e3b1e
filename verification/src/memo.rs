//! The memo record and its mathematical view.

use vstd::prelude::*;
use crate::text::clone_text;

verus! {

/// A stored memo.
///
/// Identifiers are the 128-bit value of a UUID. Timestamps are microseconds
/// since the Unix epoch, in UTC.
#[derive(Debug)]
pub struct Memo {
    pub id: u128,
    pub title: String,
    pub description: Option<String>,
    pub date_to: i64,
    pub completed: bool,
    pub created_at: i64,
    pub updated_at: i64,
}

/// What a memo is to the contracts: its fields, with text as sequences of
/// characters.
pub struct MemoView {
    pub id: u128,
    pub title: Seq<char>,
    pub description: Option<Seq<char>>,
    pub date_to: i64,
    pub completed: bool,
    pub created_at: i64,
    pub updated_at: i64,
}

impl View for Memo {
    type V = MemoView;

    open spec fn view(&self) -> MemoView {
        MemoView {
            id: self.id,
            title: self.title@,
            description: self.description.deep_view(),
            date_to: self.date_to,
            completed: self.completed,
            created_at: self.created_at,
            updated_at: self.updated_at,
        }
    }
}

impl DeepView for Memo {
    type V = MemoView;

    open spec fn deep_view(&self) -> MemoView {
        self@
    }
}

impl Clone for Memo {
    fn clone(&self) -> (copy: Memo)
        ensures
            copy@ == self@,
    {
        Memo {
            id: self.id,
            title: self.title.clone(),
            description: clone_text(&self.description),
            date_to: self.date_to,
            completed: self.completed,
            created_at: self.created_at,
            updated_at: self.updated_at,
        }
    }
}

} // verus!

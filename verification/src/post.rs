//! The post data model: one micro-blog entry, and its mathematical model.

use vstd::prelude::*;

verus! {

/// Mathematical model of one persisted row of the post table.
pub ghost struct RowModel {
    pub id: i64,
    pub user: Seq<char>,
    pub content: Seq<char>,
    pub created_at: i64,
}

/// Ids strictly increase in insertion order: every id is unique, and
/// insertion order coincides with ascending id order.
pub open spec fn rows_ascending(rows: Seq<RowModel>) -> bool {
    forall|i: int, j: int| 0 <= i < j < rows.len() ==> rows[i].id < rows[j].id
}

/// No row text contains a NUL character. The engine's text interface hands
/// strings back NUL-terminated, so only NUL-free text round-trips exactly;
/// the store keeps every persisted row in this set.
pub open spec fn rows_text_clean(rows: Seq<RowModel>) -> bool {
    forall|i: int|
        0 <= i < rows.len() ==> (!rows[i].user.contains('\0') && !rows[i].content.contains('\0'))
}

/// One micro-blog entry. `id` and `created_at` are assigned by the store on
/// insertion and are `None` only for a value that was never persisted.
pub struct Post {
    pub id: Option<i64>,
    pub user: String,
    pub content: String,
    pub created_at: Option<i64>,
}

impl Post {
    /// A fully populated post, as the store returns it for a persisted row.
    pub open spec fn matches_row(&self, row: RowModel) -> bool {
        &&& self.id == Some(row.id)
        &&& self.user@ == row.user
        &&& self.content@ == row.content
        &&& self.created_at == Some(row.created_at)
    }
}

} // verus!

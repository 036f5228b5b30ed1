use vstd::prelude::*;
use crate::models::bookmark::Bookmark;
use crate::text::string_of;

verus! {

// ── DTOs ────────────────────────────────────────────────────────────────────

/// Body of a new bookmark.
pub struct AddBookmarkBody {
    pub kind: String,
    pub entity_id: String,
    pub label: Option<String>,
}

/// Body naming the bookmark to remove.
pub struct RemoveBookmarkBody {
    pub kind: String,
    pub entity_id: String,
}

/// Acknowledgement of a successful action.
pub struct SuccessResponse {
    pub success: bool,
}

/// The bookmark a user saves: label empty when none is given.
pub fn new_bookmark(id: String, user_id: &str, req: AddBookmarkBody, now: i64) -> (b: Bookmark)
    ensures
        b.id == id,
        b.user_id@ == user_id@,
        b.kind == req.kind,
        b.entity_id == req.entity_id,
        b.label@ == (match req.label {
            Some(l) => l@,
            None => Seq::<char>::empty(),
        }),
        b.created_at == now,
{
    Bookmark {
        id,
        user_id: string_of(user_id),
        kind: req.kind,
        entity_id: req.entity_id,
        label: match req.label {
            Some(l) => l,
            None => String::new(),
        },
        created_at: now,
    }
}

} // verus!

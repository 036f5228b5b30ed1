use vstd::prelude::*;

verus! {

/// A direct chat message between two users.
pub struct Message {
    pub id: String,
    pub from_user_id: String,
    pub to_user_id: String,
    pub content: String,
    pub read: bool,
    pub created_at: i64,
}

} // verus!

use vstd::prelude::*;

verus! {

/// An in-app notification addressed to one user.
pub struct Notification {
    pub id: String,
    pub user_id: String,
    /// invite | invite_accepted | invite_declined | join_request | join_accepted
    /// | join_declined | review | message | competition_recommend | system
    pub kind: String,
    pub title: String,
    pub body: String,
    pub link: Option<String>,
    pub read: bool,
    pub created_at: i64,
}

} // verus!

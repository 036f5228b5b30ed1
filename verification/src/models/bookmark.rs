use vstd::prelude::*;

verus! {

/// A saved reference to a user, project, competition, study group or team.
pub struct Bookmark {
    pub id: String,
    pub user_id: String,
    /// user | project | competition | study_group | competition_team
    pub kind: String,
    pub entity_id: String,
    pub label: String,
    pub created_at: i64,
}

} // verus!

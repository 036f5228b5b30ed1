use vstd::prelude::*;

verus! {

/// An invitation from one user to another to join a project, a study group
/// or a competition team.
pub struct Invite {
    pub id: String,
    pub from_user_id: String,
    pub to_user_id: String,
    pub project_id: Option<String>,
    pub study_group_id: Option<String>,
    pub competition_team_id: Option<String>,
    pub message: Option<String>,
    /// pending | accepted | declined
    pub status: String,
    pub is_read: bool,
    pub created_at: i64,
    pub expires_at: i64,
}

/// The status an invite document gets when none is stored.
pub fn default_pending() -> (s: String)
    ensures
        s@ == "pending"@,
{
    "pending".to_string()
}

} // verus!

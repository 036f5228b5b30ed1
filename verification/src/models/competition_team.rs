use vstd::prelude::*;

verus! {

/// A member of a competition team.
pub struct CompTeamMember {
    pub user_id: String,
    pub name: String,
    pub initials: String,
    pub role: Option<String>,
    pub joined_at: i64,
}

/// A team formed to enter a competition.
pub struct CompetitionTeam {
    pub id: String,
    pub competition_id: String,
    pub competition_name: String,
    pub name: String,
    pub description: String,
    pub lead_user_id: String,
    pub members: Vec<CompTeamMember>,
    pub max_members: u8,
    pub looking_for: Vec<String>,
    pub open_roles: Vec<String>,
    /// recruiting | full | ...
    pub status: String,
    pub created_at: i64,
    pub updated_at: i64,
}

/// Size limit of a team stored without one.
pub fn default_max_members() -> (n: u8)
    ensures
        n == 5,
{
    5
}

/// Status of a team stored without one.
pub fn default_recruiting() -> (s: String)
    ensures
        s@ == "recruiting"@,
{
    "recruiting".to_string()
}

} // verus!

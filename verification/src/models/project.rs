use vstd::prelude::*;

verus! {

// ── Sub-structs ──────────────────────────────────────────────────────────────

/// A role a project recruits for, with how many people it needs and how many
/// have joined in it.
pub struct ProjectRole {
    pub name: String,
    pub count_needed: u8,
    pub filled: u8,
}

/// A member of a project team.
pub struct TeamMember {
    pub user_id: String,
    pub initials: String,
    pub color: String,
    pub joined_at: i64,
    pub role: Option<String>,
}

// ── Main document ────────────────────────────────────────────────────────────

/// A project looking for collaborators.
pub struct Project {
    pub id: String,
    pub name: String,
    pub lead_user_id: String,
    pub icon: String,
    pub icon_bg: String,
    /// recruiting | active | completed | ...
    pub status: String,
    pub description: String,
    pub goals: Option<String>,
    pub roles: Vec<ProjectRole>,
    pub skills: Vec<String>,
    pub team: Vec<TeamMember>,
    pub deadline: Option<String>,
    pub collab: Option<String>,
    pub duration: Option<String>,
    pub category: Option<String>,
    pub is_public: bool,
    pub join_mode: String,
    pub is_promoted: bool,
    pub banner_image: Option<String>,
    pub created_at: i64,
    pub updated_at: i64,
}

/// Icon of a project stored without one.
pub fn default_project_icon() -> (s: String)
    ensures
        s@ == "Pr"@,
{
    "Pr".to_string()
}

/// Status of a project stored without one.
pub fn default_recruiting() -> (s: String)
    ensures
        s@ == "recruiting"@,
{
    "recruiting".to_string()
}

/// Visibility of a project stored without one.
pub fn default_true() -> (b: bool)
    ensures
        b,
{
    true
}

/// Join mode of a project stored without one.
pub fn default_join_mode() -> (s: String)
    ensures
        s@ == "direct"@,
{
    "direct".to_string()
}

// ── DTOs ─────────────────────────────────────────────────────────────────────

/// Body of a project creation.
pub struct CreateProjectRequest {
    pub name: String,
    pub description: Option<String>,
    pub goals: Option<String>,
    pub roles: Option<Vec<ProjectRole>>,
    pub skills: Option<Vec<String>>,
    pub deadline: Option<String>,
    pub collab: Option<String>,
    pub duration: Option<String>,
    pub category: Option<String>,
    pub is_public: Option<bool>,
    pub join_mode: Option<String>,
    pub icon: Option<String>,
    pub icon_bg: Option<String>,
    pub banner_image: Option<String>,
}

/// Partial update of a project: every field optional.
pub struct UpdateProjectRequest {
    pub name: Option<String>,
    pub description: Option<String>,
    pub goals: Option<String>,
    pub roles: Option<Vec<ProjectRole>>,
    pub skills: Option<Vec<String>>,
    pub deadline: Option<String>,
    pub collab: Option<String>,
    pub duration: Option<String>,
    pub category: Option<String>,
    pub status: Option<String>,
    pub is_public: Option<bool>,
    pub join_mode: Option<String>,
    pub icon: Option<String>,
    pub icon_bg: Option<String>,
    pub is_promoted: Option<bool>,
    pub banner_image: Option<String>,
}

/// A project as returned by the API.
pub struct ProjectResponse {
    pub id: String,
    pub name: String,
    pub lead_user_id: String,
    pub icon: String,
    pub icon_bg: String,
    pub status: String,
    pub description: String,
    pub goals: Option<String>,
    pub roles: Vec<ProjectRole>,
    pub skills: Vec<String>,
    pub team: Vec<TeamMember>,
    pub deadline: Option<String>,
    pub collab: Option<String>,
    pub duration: Option<String>,
    pub category: Option<String>,
    pub is_public: bool,
    pub join_mode: String,
    pub is_promoted: bool,
    pub banner_image: Option<String>,
    pub created_at: i64,
    pub updated_at: i64,
}

impl From<Project> for ProjectResponse {
    fn from(p: Project) -> (r: Self) {
        ProjectResponse {
            id: p.id,
            name: p.name,
            lead_user_id: p.lead_user_id,
            icon: p.icon,
            icon_bg: p.icon_bg,
            status: p.status,
            description: p.description,
            goals: p.goals,
            roles: p.roles,
            skills: p.skills,
            team: p.team,
            deadline: p.deadline,
            collab: p.collab,
            duration: p.duration,
            category: p.category,
            is_public: p.is_public,
            join_mode: p.join_mode,
            is_promoted: p.is_promoted,
            banner_image: p.banner_image,
            created_at: p.created_at,
            updated_at: p.updated_at,
        }
    }
}

impl vstd::std_specs::convert::FromSpecImpl<Project> for ProjectResponse {
    open spec fn obeys_from_spec() -> bool {
        true
    }

    open spec fn from_spec(p: Project) -> ProjectResponse {
        ProjectResponse {
            id: p.id,
            name: p.name,
            lead_user_id: p.lead_user_id,
            icon: p.icon,
            icon_bg: p.icon_bg,
            status: p.status,
            description: p.description,
            goals: p.goals,
            roles: p.roles,
            skills: p.skills,
            team: p.team,
            deadline: p.deadline,
            collab: p.collab,
            duration: p.duration,
            category: p.category,
            is_public: p.is_public,
            join_mode: p.join_mode,
            is_promoted: p.is_promoted,
            banner_image: p.banner_image,
            created_at: p.created_at,
            updated_at: p.updated_at,
        }
    }
}

} // verus!

use vstd::prelude::*;
use crate::clock::timestamp_in_range;
use crate::error::{TeamderError, fails_with};
use crate::models::project::{CreateProjectRequest, Project, ProjectResponse, ProjectRole, TeamMember};
use crate::text::{str_eq, string_of};

verus! {

// ── DTOs ────────────────────────────────────────────────────────────────────

/// One page of projects.
pub struct PaginatedProjects {
    pub projects: Vec<ProjectResponse>,
    pub total: u64,
    pub page: u64,
    pub limit: i64,
}

/// Acknowledgement of a successful action.
pub struct SuccessResponse {
    pub success: bool,
}

/// Body of a role assignment.
pub struct SetRoleBody {
    pub role: String,
}

// ── Paging ──────────────────────────────────────────────────────────────────

/// The page number requested, first page when absent.
pub open spec fn page_or_first(page: Option<u64>) -> u64 {
    match page {
        Some(p) => p,
        None => 1,
    }
}

/// How many documents precede a page: `(page - 1) * limit`, pages counted
/// from 1 (page 0 is read as page 1), the limit read as unsigned.
pub open spec fn skip_for(page: u64, limit: i64) -> int {
    (if page == 0 {
        0
    } else {
        page - 1
    }) * (limit as u64)
}

/// Page, limit and number of skipped documents of a listing request.
pub fn paging(page: Option<u64>, limit: Option<i64>, default_limit: i64) -> (r: (u64, i64, u64))
    requires
        skip_for(
            page_or_first(page),
            match limit {
                Some(l) => l,
                None => default_limit,
            },
        ) <= u64::MAX,
    ensures
        r.0 == page_or_first(page),
        r.1 == match limit {
            Some(l) => l,
            None => default_limit,
        },
        r.2 == skip_for(r.0, r.1),
{
    let page = match page {
        Some(p) => p,
        None => 1,
    };
    let limit = match limit {
        Some(l) => l,
        None => default_limit,
    };
    let before = if page == 0 {
        0
    } else {
        page - 1
    };
    let skip = before * (limit as u64);
    (page, limit, skip)
}

/// Whether the skip of a listing request fits in 64 bits: what `paging`
/// requires.
pub fn paging_fits(page: Option<u64>, limit: Option<i64>, default_limit: i64) -> (r: bool)
    ensures
        r == (skip_for(
            page_or_first(page),
            match limit {
                Some(l) => l,
                None => default_limit,
            },
        ) <= u64::MAX),
{
    let page = match page {
        Some(p) => p,
        None => 1,
    };
    let limit = match limit {
        Some(l) => l,
        None => default_limit,
    };
    let before = if page == 0 {
        0
    } else {
        page - 1
    };
    before.checked_mul(limit as u64).is_some()
}

// ── Creating ────────────────────────────────────────────────────────────────

/// The creator of a project as its first team member, in the Lead role.
pub fn lead_member(user_id: &str, initials: &str, color: &str, now: i64) -> (m: TeamMember)
    ensures
        m.user_id@ == user_id@,
        m.initials@ == initials@,
        m.color@ == color@,
        m.joined_at == now,
        m.role matches Some(r) && r@ == "Lead"@,
{
    TeamMember {
        user_id: string_of(user_id),
        initials: string_of(initials),
        color: string_of(color),
        joined_at: now,
        role: Some("Lead".to_string()),
    }
}

/// The value of an optional text field, or `dflt` when absent.
pub open spec fn text_or(v: Option<String>, dflt: Seq<char>) -> Seq<char> {
    match v {
        Some(s) => s@,
        None => dflt,
    }
}

/// The value of an optional text field, or `dflt` when absent.
pub fn string_or(v: Option<String>, dflt: &str) -> (r: String)
    ensures
        r@ == text_or(v, dflt@),
{
    match v {
        Some(s) => s,
        None => string_of(dflt),
    }
}

/// A new recruiting project led by `lead_user_id`, with the lead as its only
/// member.
pub fn new_project(id: String, lead_user_id: String, lead: TeamMember, req: CreateProjectRequest, now: i64) -> (p: Project)
    requires
        timestamp_in_range(now),
    ensures
        p.id == id,
        p.name == req.name,
        p.lead_user_id == lead_user_id,
        p.icon@ == text_or(req.icon, "Pr"@),
        p.icon_bg@ == text_or(req.icon_bg, ""@),
        p.status@ == "recruiting"@,
        p.description@ == text_or(req.description, ""@),
        p.goals == req.goals,
        p.roles@ == match req.roles {
            Some(r) => r@,
            None => Seq::<ProjectRole>::empty(),
        },
        p.skills@ == match req.skills {
            Some(s) => s@,
            None => Seq::<String>::empty(),
        },
        p.team@ == seq![lead],
        p.deadline == req.deadline,
        p.collab == req.collab,
        p.duration == req.duration,
        p.category == req.category,
        p.is_public == match req.is_public {
            Some(b) => b,
            None => true,
        },
        p.join_mode@ == text_or(req.join_mode, "direct"@),
        !p.is_promoted,
        p.banner_image == req.banner_image,
        p.created_at == now,
        p.updated_at == now,
{
    let mut team: Vec<TeamMember> = Vec::new();
    team.push(lead);
    let roles = match req.roles {
        Some(r) => r,
        None => Vec::new(),
    };
    let skills = match req.skills {
        Some(s) => s,
        None => Vec::new(),
    };
    let is_public = match req.is_public {
        Some(b) => b,
        None => true,
    };
    Project {
        id,
        name: req.name,
        lead_user_id,
        icon: string_or(req.icon, "Pr"),
        icon_bg: string_or(req.icon_bg, ""),
        status: "recruiting".to_string(),
        description: string_or(req.description, ""),
        goals: req.goals,
        roles,
        skills,
        team,
        deadline: req.deadline,
        collab: req.collab,
        duration: req.duration,
        category: req.category,
        is_public,
        join_mode: string_or(req.join_mode, "direct"),
        is_promoted: false,
        banner_image: req.banner_image,
        created_at: now,
        updated_at: now,
    }
}

// ── Permissions ─────────────────────────────────────────────────────────────

/// Only the lead of a project may perform the action; `refusal` explains why.
pub fn require_lead(project: &Project, caller: &str, refusal: &str) -> (r: Result<(), TeamderError>)
    ensures
        caller@ == project.lead_user_id@ ==> r is Ok,
        caller@ != project.lead_user_id@ ==> fails_with(r, 403, refusal@),
{
    if !str_eq(project.lead_user_id.as_str(), caller) {
        Err(TeamderError::Forbidden(string_of(refusal)))
    } else {
        Ok(())
    }
}

/// The lead or an admin may delete a project.
pub fn delete_project_check(project: &Project, caller: &str, caller_is_admin: bool) -> (r: Result<(), TeamderError>)
    ensures
        (caller@ == project.lead_user_id@ || caller_is_admin) ==> r is Ok,
        !(caller@ == project.lead_user_id@ || caller_is_admin) ==> fails_with(
            r,
            403,
            "Only the lead or an admin can delete"@,
        ),
{
    if !str_eq(project.lead_user_id.as_str(), caller) && !caller_is_admin {
        Err(TeamderError::Forbidden("Only the lead or an admin can delete".to_string()))
    } else {
        Ok(())
    }
}

/// The lead cannot leave their own project.
pub fn leave_project_check(project: &Project, caller: &str) -> (r: Result<(), TeamderError>)
    ensures
        caller@ == project.lead_user_id@ ==> fails_with(r, 422, "Lead cannot leave the project"@),
        caller@ != project.lead_user_id@ ==> r is Ok,
{
    if str_eq(project.lead_user_id.as_str(), caller) {
        Err(TeamderError::Validation("Lead cannot leave the project".to_string()))
    } else {
        Ok(())
    }
}

/// Index of the first member of `team` with id `user`, if any.
pub open spec fn first_member_index(team: Seq<TeamMember>, user: Seq<char>) -> Option<int> {
    if exists|i: int| 0 <= i < team.len() && team[i].user_id@ == user {
        Some(
            choose|i: int|
                0 <= i < team.len() && team[i].user_id@ == user && forall|j: int|
                    0 <= j < i ==> team[j].user_id@ != user,
        )
    } else {
        None
    }
}

/// The role held by the first member of `team` with id `user`: the role
/// whose filled count drops when they leave.
pub fn member_role(team: &Vec<TeamMember>, user: &str) -> (r: Option<String>)
    ensures
        match first_member_index(team@, user@) {
            Some(i) => r == team@[i].role,
            None => r is None,
        },
{
    let n = team.len();
    let mut i: usize = 0;
    while i < n
        invariant
            n == team@.len(),
            i <= n,
            forall|j: int| 0 <= j < i ==> team@[j].user_id@ != user@,
        decreases n - i,
    {
        if str_eq(team[i].user_id.as_str(), user) {
            proof {
                let k = choose|k: int|
                    0 <= k < team@.len() && team@[k].user_id@ == user@ && forall|j: int|
                        0 <= j < k ==> team@[j].user_id@ != user@;
                assert(k == i as int) by {
                    if k < i {
                    } else if k > i {
                        assert(team@[i as int].user_id@ == user@);
                    }
                }
            }
            return team[i].role.clone();
        }
        i = i + 1;
    }
    None
}

} // verus!

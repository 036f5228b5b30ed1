use vstd::prelude::*;
use crate::clock::timestamp_in_range;
use crate::error::{TeamderError, fails_with};
use crate::models::join_request::{CreateJoinRequestBody, JoinRequest};
use crate::models::competition_team::CompTeamMember;
use crate::models::project::{ProjectRole, TeamMember};
use crate::models::study_group::GroupMember;
use crate::text::{concat, concat3, str_eq, string_of};

verus! {

// ── DTOs ────────────────────────────────────────────────────────────────────

/// Body of an owner's answer to a join request.
pub struct RespondBody {
    pub accept: bool,
    pub note: Option<String>,
}

/// Acknowledgement of a successful action.
pub struct SuccessResponse {
    pub success: bool,
}

// ── Creating ────────────────────────────────────────────────────────────────

/// What a join request targets.
#[derive(Clone, Copy, Debug, PartialEq, Eq, Structural)]
pub enum EntityKind {
    Project,
    StudyGroup,
    CompetitionTeam,
}

/// The kind named by an `entity_type` field, if it names one.
pub open spec fn entity_kind_of(s: Seq<char>) -> Option<EntityKind> {
    if s == "project"@ {
        Some(EntityKind::Project)
    } else if s == "study_group"@ {
        Some(EntityKind::StudyGroup)
    } else if s == "competition_team"@ {
        Some(EntityKind::CompetitionTeam)
    } else {
        None
    }
}

/// Reads the `entity_type` of a join request.
pub fn parse_entity_type(s: &str) -> (r: Result<EntityKind, TeamderError>)
    ensures
        match entity_kind_of(s@) {
            Some(k) => r == Ok::<EntityKind, TeamderError>(k),
            None => fails_with(r, 422, "Invalid entity_type"@),
        },
{
    if str_eq(s, "project") {
        Ok(EntityKind::Project)
    } else if str_eq(s, "study_group") {
        Ok(EntityKind::StudyGroup)
    } else if str_eq(s, "competition_team") {
        Ok(EntityKind::CompetitionTeam)
    } else {
        Err(TeamderError::Validation("Invalid entity_type".to_string()))
    }
}

/// A request may be filed unless one is already pending for the same entity.
pub fn create_join_request_check(pending_exists: bool) -> (r: Result<(), TeamderError>)
    ensures
        pending_exists ==> fails_with(r, 409, "A pending request already exists"@),
        !pending_exists ==> r is Ok,
{
    if pending_exists {
        Err(TeamderError::Conflict("A pending request already exists".to_string()))
    } else {
        Ok(())
    }
}

/// The list of an optional list field, empty when absent.
pub open spec fn list_or_empty(v: Option<Vec<String>>) -> Seq<String> {
    match v {
        Some(l) => l@,
        None => Seq::empty(),
    }
}

fn vec_or_empty(v: Option<Vec<String>>) -> (r: Vec<String>)
    ensures
        r@ == list_or_empty(v),
{
    match v {
        Some(l) => l,
        None => Vec::new(),
    }
}

/// The pending join request filed by `from_user_id` from the form `req`,
/// addressed to the entity's owner.
pub fn build_join_request(
    id: String,
    from_user_id: &str,
    req: CreateJoinRequestBody,
    entity_name: String,
    owner_id: String,
    now: i64,
) -> (jr: JoinRequest)
    requires
        timestamp_in_range(now),
    ensures
        jr.id == id,
        jr.from_user_id@ == from_user_id@,
        jr.entity_type == req.entity_type,
        jr.entity_id == req.entity_id,
        jr.entity_name == entity_name,
        jr.owner_id == owner_id,
        jr.message == req.message,
        jr.status@ == "pending"@,
        jr.motivation == req.motivation,
        jr.role_wanted == req.role_wanted,
        jr.hours_per_week == req.hours_per_week,
        jr.portfolio_url == req.portfolio_url,
        jr.relevant_experience == req.relevant_experience,
        jr.availability_start == req.availability_start,
        jr.can_meet_in_person == req.can_meet_in_person,
        jr.additional_links@ == list_or_empty(req.additional_links),
        jr.comm_channels@ == list_or_empty(req.comm_channels),
        jr.timezone == req.timezone,
        jr.agreed_to_coc == (req.agreed_to_coc == Some(true)),
        jr.skill_confidence@ == list_or_empty(req.skill_confidence),
        jr.created_at == now,
{
    let agreed = match req.agreed_to_coc {
        Some(b) => b,
        None => false,
    };
    JoinRequest {
        id,
        from_user_id: string_of(from_user_id),
        entity_type: req.entity_type,
        entity_id: req.entity_id,
        entity_name,
        owner_id,
        message: req.message,
        status: "pending".to_string(),
        motivation: req.motivation,
        role_wanted: req.role_wanted,
        hours_per_week: req.hours_per_week,
        portfolio_url: req.portfolio_url,
        relevant_experience: req.relevant_experience,
        availability_start: req.availability_start,
        can_meet_in_person: req.can_meet_in_person,
        additional_links: vec_or_empty(req.additional_links),
        comm_channels: vec_or_empty(req.comm_channels),
        timezone: req.timezone,
        agreed_to_coc: agreed,
        skill_confidence: vec_or_empty(req.skill_confidence),
        created_at: now,
    }
}

/// Title of the notification telling the owner about a request.
pub fn join_request_title(applicant_name: &str, entity_name: &str) -> (t: String)
    ensures
        t@ == applicant_name@ + " wants to join "@ + entity_name@,
{
    concat3(applicant_name, " wants to join ", entity_name)
}

// ── Responding ──────────────────────────────────────────────────────────────

/// Only the owner of the requested entity may answer a request.
pub fn respond_request_check(jr: &JoinRequest, caller: &str) -> (r: Result<(), TeamderError>)
    ensures
        caller@ == jr.owner_id@ ==> r is Ok,
        caller@ != jr.owner_id@ ==> fails_with(r, 403, "Only the owner can respond"@),
{
    if !str_eq(jr.owner_id.as_str(), caller) {
        Err(TeamderError::Forbidden("Only the owner can respond".to_string()))
    } else {
        Ok(())
    }
}

/// The status a request gets from an answer.
pub fn answered_request_status(accept: bool) -> (s: &'static str)
    ensures
        s@ == (if accept {
            "accepted"@
        } else {
            "declined"@
        }),
{
    if accept {
        "accepted"
    } else {
        "declined"
    }
}

/// Every role of `roles` has as many members as it needs.
pub open spec fn all_roles_filled(roles: Seq<ProjectRole>) -> bool {
    forall|i: int| 0 <= i < roles.len() ==> roles[i].filled >= roles[i].count_needed
}

/// A recruiting project becomes active when it has roles and all of them
/// are filled.
pub open spec fn activates(status: Seq<char>, roles: Seq<ProjectRole>) -> bool {
    status == "recruiting"@ && roles.len() > 0 && all_roles_filled(roles)
}

/// Whether a project should switch from recruiting to active.
pub fn project_should_activate(status: &str, roles: &Vec<ProjectRole>) -> (r: bool)
    ensures
        r == activates(status@, roles@),
{
    if !str_eq(status, "recruiting") || roles.len() == 0 {
        return false;
    }
    let n = roles.len();
    let mut i: usize = 0;
    while i < n
        invariant
            n == roles@.len(),
            i <= n,
            forall|k: int| 0 <= k < i ==> roles@[k].filled >= roles@[k].count_needed,
        decreases n - i,
    {
        if roles[i].filled < roles[i].count_needed {
            return false;
        }
        i = i + 1;
    }
    true
}

/// A recruiting project with at least one role becomes active exactly when
/// every role has at least as many members as it needs; a role filled to
/// exactly its count counts as filled. Other projects never switch.
pub proof fn law_fully_staffed_project_activates(status: Seq<char>, roles: Seq<ProjectRole>)
    ensures
        activates(status, roles) <==> (status == "recruiting"@ && roles.len() > 0 && forall|i: int|
            0 <= i < roles.len() ==> roles[i].filled >= roles[i].count_needed),
        status == "recruiting"@ && roles.len() > 0 && (forall|i: int|
            0 <= i < roles.len() ==> roles[i].filled == roles[i].count_needed) ==> activates(status, roles),
        (exists|i: int| 0 <= i < roles.len() && roles[i].filled < roles[i].count_needed) ==> !activates(
            status,
            roles,
        ),
{
}

/// A team with at least as many members as its limit is full.
pub fn team_is_full(member_count: usize, max_members: u8) -> (r: bool)
    ensures
        r == (member_count >= max_members),
{
    member_count >= max_members as usize
}

/// Title of the notification telling the applicant about the answer.
pub fn join_answer_title(entity_name: &str, accept: bool) -> (t: String)
    ensures
        t@ == "Your request to join "@ + entity_name@ + (if accept {
            " was accepted!"@
        } else {
            " was declined"@
        }),
{
    if accept {
        concat3("Your request to join ", entity_name, " was accepted!")
    } else {
        concat3("Your request to join ", entity_name, " was declined")
    }
}

/// Body of the notification telling the applicant about the answer: the
/// owner's note on a decline, empty otherwise.
pub fn join_answer_body(accept: bool, note: &Option<String>) -> (b: String)
    ensures
        b@ == (if !accept && note is Some {
            note->0@
        } else {
            Seq::<char>::empty()
        }),
{
    if accept {
        String::new()
    } else {
        match note {
            Some(n) => n.clone(),
            None => String::new(),
        }
    }
}

// ── Accepting ───────────────────────────────────────────────────────────────

/// The member entry an accepted join request adds, to the entity it names.
pub enum JoinAddition {
    /// A project team member, in the role the applicant asked for.
    ProjectMember(TeamMember),
    /// A study group member, without check-ins yet.
    GroupMember(GroupMember),
    /// A competition team member, in the role the applicant asked for.
    TeamMember(CompTeamMember),
}

/// Two optional texts are the same text, or both absent.
pub open spec fn same_text(a: Option<String>, b: Option<String>) -> bool {
    match (a, b) {
        (Some(x), Some(y)) => x@ == y@,
        (None, None) => true,
        _ => false,
    }
}

/// A copy of an optional text.
fn copy_text(t: &Option<String>) -> (r: Option<String>)
    ensures
        same_text(r, *t),
{
    match t {
        Some(x) => Some(string_of(x.as_str())),
        None => None,
    }
}

/// What accepting a join request adds, given the applicant's name, initials
/// and gradient: a member entry of the kind the request names, joined at
/// `now`; nothing for a request naming no known kind.
pub fn join_addition(jr: &JoinRequest, name: &str, initials: &str, gradient: &str, now: i64) -> (r: Option<JoinAddition>)
    ensures
        match entity_kind_of(jr.entity_type@) {
            Some(EntityKind::Project) => r matches Some(JoinAddition::ProjectMember(m)) && m.user_id@
                == jr.from_user_id@ && m.initials@ == initials@ && m.color@ == gradient@ && m.joined_at
                == now && same_text(m.role, jr.role_wanted),
            Some(EntityKind::StudyGroup) => r matches Some(JoinAddition::GroupMember(m)) && m.user_id@
                == jr.from_user_id@ && m.initials@ == initials@ && m.color@ == gradient@ && m.joined_at
                == now && m.last_checkin is None && m.streak == 0,
            Some(EntityKind::CompetitionTeam) => r matches Some(JoinAddition::TeamMember(m)) && m.user_id@
                == jr.from_user_id@ && m.name@ == name@ && m.initials@ == initials@ && m.joined_at == now
                && same_text(m.role, jr.role_wanted),
            None => r is None,
        },
{
    match parse_entity_type(jr.entity_type.as_str()) {
        Ok(EntityKind::Project) => Some(
            JoinAddition::ProjectMember(
                TeamMember {
                    user_id: string_of(jr.from_user_id.as_str()),
                    initials: string_of(initials),
                    color: string_of(gradient),
                    joined_at: now,
                    role: copy_text(&jr.role_wanted),
                },
            ),
        ),
        Ok(EntityKind::StudyGroup) => Some(
            JoinAddition::GroupMember(
                GroupMember {
                    user_id: string_of(jr.from_user_id.as_str()),
                    initials: string_of(initials),
                    color: string_of(gradient),
                    joined_at: now,
                    last_checkin: None,
                    streak: 0,
                },
            ),
        ),
        Ok(EntityKind::CompetitionTeam) => Some(
            JoinAddition::TeamMember(
                CompTeamMember {
                    user_id: string_of(jr.from_user_id.as_str()),
                    name: string_of(name),
                    initials: string_of(initials),
                    role: copy_text(&jr.role_wanted),
                    joined_at: now,
                },
            ),
        ),
        Err(_) => None,
    }
}

} // verus!

use vstd::prelude::*;
use crate::clock::timestamp_in_range;
use crate::error::{TeamderError, fails_with};
use crate::models::competition_team::{CompTeamMember, CompetitionTeam};
use crate::models::join_request::JoinRequest;
use crate::api::routes::projects::{string_or, text_or};
use crate::text::{concat, str_eq, string_of};

verus! {

// ── DTOs ────────────────────────────────────────────────────────────────────

/// Body of a team creation.
pub struct CreateCompTeamBody {
    pub competition_id: String,
    pub competition_name: String,
    pub name: String,
    pub description: Option<String>,
    pub max_members: Option<u8>,
    pub looking_for: Option<Vec<String>>,
    pub open_roles: Option<Vec<String>>,
}

/// Partial update of a team.
pub struct UpdateCompTeamBody {
    pub name: Option<String>,
    pub description: Option<String>,
    pub max_members: Option<u8>,
    pub looking_for: Option<Vec<String>>,
    pub open_roles: Option<Vec<String>>,
    pub status: Option<String>,
}

/// Body of an application to a team.
pub struct ApplyBody {
    pub message: Option<String>,
}

/// Acknowledgement of a successful action.
pub struct SuccessResponse {
    pub success: bool,
}

// ── Creating ────────────────────────────────────────────────────────────────

/// A member of a team: the lead (role `Lead`) when `lead` holds, an accepted
/// applicant without role otherwise.
pub fn team_member(user_id: &str, name: &str, initials: &str, lead: bool, now: i64) -> (m: CompTeamMember)
    ensures
        m.user_id@ == user_id@,
        m.name@ == name@,
        m.initials@ == initials@,
        m.joined_at == now,
        lead ==> (m.role matches Some(r) && r@ == "Lead"@),
        !lead ==> m.role is None,
{
    CompTeamMember {
        user_id: string_of(user_id),
        name: string_of(name),
        initials: string_of(initials),
        role: if lead {
            Some("Lead".to_string())
        } else {
            None
        },
        joined_at: now,
    }
}

/// A new recruiting team whose only member is its lead.
pub fn new_team(id: String, lead_user_id: String, lead: CompTeamMember, req: CreateCompTeamBody, now: i64) -> (t: CompetitionTeam)
    requires
        timestamp_in_range(now),
    ensures
        t.id == id,
        t.competition_id == req.competition_id,
        t.competition_name == req.competition_name,
        t.name == req.name,
        t.description@ == text_or(req.description, ""@),
        t.lead_user_id == lead_user_id,
        t.members@ == seq![lead],
        t.max_members == match req.max_members {
            Some(n) => n,
            None => 5u8,
        },
        t.looking_for@ == match req.looking_for {
            Some(v) => v@,
            None => Seq::<String>::empty(),
        },
        t.open_roles@ == match req.open_roles {
            Some(v) => v@,
            None => Seq::<String>::empty(),
        },
        t.status@ == "recruiting"@,
        t.created_at == now,
        t.updated_at == now,
{
    let mut members: Vec<CompTeamMember> = Vec::new();
    members.push(lead);
    let max = match req.max_members {
        Some(n) => n,
        None => 5,
    };
    let looking_for = match req.looking_for {
        Some(v) => v,
        None => Vec::new(),
    };
    let open_roles = match req.open_roles {
        Some(v) => v,
        None => Vec::new(),
    };
    CompetitionTeam {
        id,
        competition_id: req.competition_id,
        competition_name: req.competition_name,
        name: req.name,
        description: string_or(req.description, ""),
        lead_user_id,
        members,
        max_members: max,
        looking_for,
        open_roles,
        status: "recruiting".to_string(),
        created_at: now,
        updated_at: now,
    }
}

// ── Permissions ─────────────────────────────────────────────────────────────

/// Only the lead of a team may perform the action; `refusal` explains why.
pub fn require_team_lead(team: &CompetitionTeam, caller: &str, refusal: &str) -> (r: Result<(), TeamderError>)
    ensures
        caller@ == team.lead_user_id@ ==> r is Ok,
        caller@ != team.lead_user_id@ ==> fails_with(r, 403, refusal@),
{
    if !str_eq(team.lead_user_id.as_str(), caller) {
        Err(TeamderError::Forbidden(string_of(refusal)))
    } else {
        Ok(())
    }
}

/// `user` is among the members of `members`.
pub open spec fn is_team_member(members: Seq<CompTeamMember>, user: Seq<char>) -> bool {
    exists|i: int| 0 <= i < members.len() && members[i].user_id@ == user
}

/// Whether `user` is a member of the team.
pub fn has_member(members: &Vec<CompTeamMember>, user: &str) -> (r: bool)
    ensures
        r == is_team_member(members@, user@),
{
    let n = members.len();
    let mut i: usize = 0;
    while i < n
        invariant
            n == members@.len(),
            i <= n,
            forall|k: int| 0 <= k < i ==> members@[k].user_id@ != user@,
        decreases n - i,
    {
        if str_eq(members[i].user_id.as_str(), user) {
            return true;
        }
        i = i + 1;
    }
    false
}

/// A user may apply to a team they are not in and have not applied to yet.
pub fn apply_check(team: &CompetitionTeam, caller: &str, pending_exists: bool) -> (r: Result<(), TeamderError>)
    ensures
        is_team_member(team.members@, caller@) ==> fails_with(r, 409, "Already a member"@),
        !is_team_member(team.members@, caller@) && pending_exists ==> fails_with(
            r,
            409,
            "Already applied"@,
        ),
        !is_team_member(team.members@, caller@) && !pending_exists ==> r is Ok,
{
    if has_member(&team.members, caller) {
        return Err(TeamderError::Conflict("Already a member".to_string()));
    }
    if pending_exists {
        return Err(TeamderError::Conflict("Already applied".to_string()));
    }
    Ok(())
}

/// The pending join request an application to `team` files.
pub fn team_application(id: String, from_user_id: &str, team: &CompetitionTeam, message: Option<String>, now: i64) -> (jr: JoinRequest)
    ensures
        jr.id == id,
        jr.from_user_id@ == from_user_id@,
        jr.entity_type@ == "competition_team"@,
        jr.entity_id@ == team.id@,
        jr.entity_name@ == team.name@,
        jr.owner_id@ == team.lead_user_id@,
        jr.message == message,
        jr.status@ == "pending"@,
        jr.motivation is None,
        jr.role_wanted is None,
        jr.hours_per_week is None,
        jr.portfolio_url is None,
        jr.relevant_experience is None,
        jr.availability_start is None,
        jr.can_meet_in_person is None,
        jr.additional_links@.len() == 0,
        jr.comm_channels@.len() == 0,
        jr.timezone is None,
        !jr.agreed_to_coc,
        jr.skill_confidence@.len() == 0,
        jr.created_at == now,
{
    JoinRequest {
        id,
        from_user_id: string_of(from_user_id),
        entity_type: "competition_team".to_string(),
        entity_id: team.id.clone(),
        entity_name: team.name.clone(),
        owner_id: team.lead_user_id.clone(),
        message,
        status: "pending".to_string(),
        motivation: None,
        role_wanted: None,
        hours_per_week: None,
        portfolio_url: None,
        relevant_experience: None,
        availability_start: None,
        can_meet_in_person: None,
        additional_links: Vec::new(),
        comm_channels: Vec::new(),
        timezone: None,
        agreed_to_coc: false,
        skill_confidence: Vec::new(),
        created_at: now,
    }
}

/// Link to a team's page.
pub fn team_link(team_id: &str) -> (l: String)
    ensures
        l@ == "/competition-teams/"@ + team_id@,
{
    concat("/competition-teams/", team_id)
}

/// Title of the notification telling an applicant they were accepted.
pub fn accepted_title(team_name: &str) -> (t: String)
    ensures
        t@ == "You were accepted to "@ + team_name@,
{
    concat("You were accepted to ", team_name)
}

/// The lead cannot leave their own team.
pub fn leave_team_check(team: &CompetitionTeam, caller: &str) -> (r: Result<(), TeamderError>)
    ensures
        caller@ == team.lead_user_id@ ==> fails_with(r, 422, "Lead cannot leave the team"@),
        caller@ != team.lead_user_id@ ==> r is Ok,
{
    if str_eq(team.lead_user_id.as_str(), caller) {
        Err(TeamderError::Validation("Lead cannot leave the team".to_string()))
    } else {
        Ok(())
    }
}

/// A request is an application to the team `team_id`.
pub open spec fn is_application_to(jr: JoinRequest, team_id: Seq<char>) -> bool {
    jr.entity_id@ == team_id && jr.entity_type@ == "competition_team"@
}

/// The requests of `requests` that are applications to the team, in order.
pub fn team_applications(requests: Vec<JoinRequest>, team_id: &str) -> (r: Vec<JoinRequest>)
    ensures
        r@ == requests@.filter(|jr: JoinRequest| is_application_to(jr, team_id@)),
{
    let mut r: Vec<JoinRequest> = Vec::new();
    let mut rest = requests;
    let ghost orig = rest@;
    let n = rest.len();
    let mut i: usize = 0;
    while i < n
        invariant
            n == orig.len(),
            i <= n,
            rest@ == orig.skip(i as int),
            r@ == orig.take(i as int).filter(|jr: JoinRequest| is_application_to(jr, team_id@)),
        decreases n - i,
    {
        let jr = rest.remove(0);
        proof {
            assert(jr == orig[i as int]);
            assert(orig.take(i + 1) == orig.take(i as int).push(jr));
            assert(rest@ == orig.skip(i + 1));
            orig.take(i as int).lemma_filter_push(jr, |jr: JoinRequest| is_application_to(jr, team_id@));
        }
        if str_eq(jr.entity_id.as_str(), team_id) && str_eq(jr.entity_type.as_str(), "competition_team") {
            r.push(jr);
        }
        i = i + 1;
    }
    proof {
        assert(orig.take(n as int) == orig);
    }
    r
}

} // verus!

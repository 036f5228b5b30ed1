use vstd::prelude::*;

verus! {

/// A request by a user to join a project, study group or competition team.
pub struct JoinRequest {
    pub id: String,
    pub from_user_id: String,
    /// "project" | "study_group" | "competition_team"
    pub entity_type: String,
    pub entity_id: String,
    pub entity_name: String,
    pub owner_id: String,
    pub message: Option<String>,
    /// pending | accepted | declined
    pub status: String,
    pub motivation: Option<String>,
    pub role_wanted: Option<String>,
    pub hours_per_week: Option<String>,
    pub portfolio_url: Option<String>,
    pub relevant_experience: Option<String>,
    pub availability_start: Option<String>,
    pub can_meet_in_person: Option<bool>,
    pub additional_links: Vec<String>,
    pub comm_channels: Vec<String>,
    pub timezone: Option<String>,
    pub agreed_to_coc: bool,
    pub skill_confidence: Vec<String>,
    pub created_at: i64,
}

/// Status of a join request stored without one.
pub fn default_pending() -> (s: String)
    ensures
        s@ == "pending"@,
{
    "pending".to_string()
}

/// The rich join-request form body from the frontend.
pub struct CreateJoinRequestBody {
    pub entity_type: String,
    pub entity_id: String,
    pub message: Option<String>,
    pub motivation: Option<String>,
    pub role_wanted: Option<String>,
    pub hours_per_week: Option<String>,
    pub portfolio_url: Option<String>,
    pub relevant_experience: Option<String>,
    pub availability_start: Option<String>,
    pub can_meet_in_person: Option<bool>,
    pub additional_links: Option<Vec<String>>,
    pub comm_channels: Option<Vec<String>>,
    pub timezone: Option<String>,
    pub agreed_to_coc: Option<bool>,
    pub skill_confidence: Option<Vec<String>>,
}

/// A join request as returned by the API.
pub struct JoinRequestResponse {
    pub id: String,
    pub from_user_id: String,
    pub entity_type: String,
    pub entity_id: String,
    pub entity_name: String,
    pub owner_id: String,
    pub message: Option<String>,
    pub status: String,
    pub motivation: Option<String>,
    pub role_wanted: Option<String>,
    pub hours_per_week: Option<String>,
    pub portfolio_url: Option<String>,
    pub relevant_experience: Option<String>,
    pub availability_start: Option<String>,
    pub can_meet_in_person: Option<bool>,
    pub additional_links: Vec<String>,
    pub comm_channels: Vec<String>,
    pub timezone: Option<String>,
    pub agreed_to_coc: bool,
    pub skill_confidence: Vec<String>,
    pub created_at: i64,
}

impl From<JoinRequest> for JoinRequestResponse {
    fn from(jr: JoinRequest) -> (r: Self) {
        JoinRequestResponse {
            id: jr.id,
            from_user_id: jr.from_user_id,
            entity_type: jr.entity_type,
            entity_id: jr.entity_id,
            entity_name: jr.entity_name,
            owner_id: jr.owner_id,
            message: jr.message,
            status: jr.status,
            motivation: jr.motivation,
            role_wanted: jr.role_wanted,
            hours_per_week: jr.hours_per_week,
            portfolio_url: jr.portfolio_url,
            relevant_experience: jr.relevant_experience,
            availability_start: jr.availability_start,
            can_meet_in_person: jr.can_meet_in_person,
            additional_links: jr.additional_links,
            comm_channels: jr.comm_channels,
            timezone: jr.timezone,
            agreed_to_coc: jr.agreed_to_coc,
            skill_confidence: jr.skill_confidence,
            created_at: jr.created_at,
        }
    }
}

impl vstd::std_specs::convert::FromSpecImpl<JoinRequest> for JoinRequestResponse {
    open spec fn obeys_from_spec() -> bool {
        true
    }

    open spec fn from_spec(jr: JoinRequest) -> JoinRequestResponse {
        JoinRequestResponse {
            id: jr.id,
            from_user_id: jr.from_user_id,
            entity_type: jr.entity_type,
            entity_id: jr.entity_id,
            entity_name: jr.entity_name,
            owner_id: jr.owner_id,
            message: jr.message,
            status: jr.status,
            motivation: jr.motivation,
            role_wanted: jr.role_wanted,
            hours_per_week: jr.hours_per_week,
            portfolio_url: jr.portfolio_url,
            relevant_experience: jr.relevant_experience,
            availability_start: jr.availability_start,
            can_meet_in_person: jr.can_meet_in_person,
            additional_links: jr.additional_links,
            comm_channels: jr.comm_channels,
            timezone: jr.timezone,
            agreed_to_coc: jr.agreed_to_coc,
            skill_confidence: jr.skill_confidence,
            created_at: jr.created_at,
        }
    }
}

} // verus!

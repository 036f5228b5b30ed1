use vstd::prelude::*;
use crate::text::str_eq;

verus! {

// ── Sub-structs ──────────────────────────────────────────────────────────────

/// A user's registration for a competition.
pub struct Registration {
    pub user_id: String,
    pub team_name: Option<String>,
    pub registered_at: i64,
    pub motivation: Option<String>,
    pub skills: Option<Vec<String>>,
    pub contact_email: Option<String>,
}

// ── Main document ────────────────────────────────────────────────────────────

/// A competition listed on the platform.
pub struct Competition {
    pub id: String,
    pub name: String,
    pub organizer: String,
    pub icon: String,
    pub icon_bg: String,
    pub status: String,
    pub prize: String,
    pub team_size_min: u8,
    pub team_size_max: u8,
    pub deadline: Option<String>,
    pub duration: String,
    pub tags: Vec<String>,
    pub description: String,
    pub is_featured: bool,
    pub banner_image: Option<String>,
    pub publish_status: String,
    pub publisher_id: Option<String>,
    pub rejected_note: Option<String>,
    pub registrations: Vec<Registration>,
    pub interested_user_ids: Vec<String>,
    pub winners: Vec<String>,
    pub created_at: i64,
    pub updated_at: i64,
}

/// Icon of a competition stored without one.
pub fn default_comp_icon() -> (s: String)
    ensures
        s@ == "Cp"@,
{
    "Cp".to_string()
}

/// Status of a competition stored without one.
pub fn default_open() -> (s: String)
    ensures
        s@ == "open"@,
{
    "open".to_string()
}

/// Minimum team size of a competition stored without one.
pub fn default_min_team() -> (n: u8)
    ensures
        n == 2,
{
    2
}

/// Maximum team size of a competition stored without one.
pub fn default_max_team() -> (n: u8)
    ensures
        n == 5,
{
    5
}

/// Publish status of a competition stored without one.
pub fn default_published() -> (s: String)
    ensures
        s@ == "published"@,
{
    "published".to_string()
}

// ── DTOs ─────────────────────────────────────────────────────────────────────

/// Body of a competition creation.
pub struct CreateCompetitionRequest {
    pub name: String,
    pub organizer: String,
    pub icon: Option<String>,
    pub icon_bg: Option<String>,
    pub status: Option<String>,
    pub prize: Option<String>,
    pub team_size_min: Option<u8>,
    pub team_size_max: Option<u8>,
    pub deadline: Option<String>,
    pub duration: Option<String>,
    pub tags: Option<Vec<String>>,
    pub description: Option<String>,
    pub is_featured: Option<bool>,
    pub banner_image: Option<String>,
    pub publish_status: Option<String>,
}

/// Partial update of a competition: every field optional.
pub struct UpdateCompetitionRequest {
    pub name: Option<String>,
    pub organizer: Option<String>,
    pub icon: Option<String>,
    pub icon_bg: Option<String>,
    pub status: Option<String>,
    pub prize: Option<String>,
    pub team_size_min: Option<u8>,
    pub team_size_max: Option<u8>,
    pub deadline: Option<String>,
    pub duration: Option<String>,
    pub tags: Option<Vec<String>>,
    pub description: Option<String>,
    pub is_featured: Option<bool>,
    pub banner_image: Option<String>,
    pub publish_status: Option<String>,
    pub rejected_note: Option<String>,
}

/// API response — includes computed viewer-state fields.
pub struct CompetitionResponse {
    pub id: String,
    pub name: String,
    pub organizer: String,
    pub icon: String,
    pub icon_bg: String,
    pub status: String,
    pub prize: String,
    pub team_size_min: u8,
    pub team_size_max: u8,
    pub deadline: Option<String>,
    pub duration: String,
    pub tags: Vec<String>,
    pub description: String,
    pub is_featured: bool,
    pub banner_image: Option<String>,
    pub publish_status: String,
    pub publisher_id: Option<String>,
    pub rejected_note: Option<String>,
    pub winners: Vec<String>,
    pub created_at: i64,
    pub updated_at: i64,
    /// Number of registrations.
    pub registration_count: usize,
    /// Number of users who marked interest.
    pub interested_count: usize,
    /// Set at response time based on the authenticated viewer.
    pub is_registered_by_viewer: Option<bool>,
    pub is_interested_by_viewer: Option<bool>,
    /// Full registrations, only for owners / admins.
    pub registrations: Option<Vec<Registration>>,
}

/// `user` holds one of the registrations of `regs`.
pub open spec fn has_registration(regs: Seq<Registration>, user: Seq<char>) -> bool {
    exists|i: int| 0 <= i < regs.len() && regs[i].user_id@ == user
}

/// `user` is among `ids`.
pub open spec fn has_id(ids: Seq<String>, user: Seq<char>) -> bool {
    exists|i: int| 0 <= i < ids.len() && ids[i]@ == user
}

/// Whether some registration belongs to `user`.
pub fn any_registration(regs: &Vec<Registration>, user: &str) -> (r: bool)
    ensures
        r == has_registration(regs@, user@),
{
    let n = regs.len();
    let mut i: usize = 0;
    while i < n
        invariant
            n == regs@.len(),
            i <= n,
            forall|k: int| 0 <= k < i ==> regs@[k].user_id@ != user@,
        decreases n - i,
    {
        if str_eq(regs[i].user_id.as_str(), user) {
            return true;
        }
        i = i + 1;
    }
    false
}

/// Whether `user` is in `ids`.
pub fn any_id(ids: &Vec<String>, user: &str) -> (r: bool)
    ensures
        r == has_id(ids@, user@),
{
    let n = ids.len();
    let mut i: usize = 0;
    while i < n
        invariant
            n == ids@.len(),
            i <= n,
            forall|k: int| 0 <= k < i ==> ids@[k]@ != user@,
        decreases n - i,
    {
        if str_eq(ids[i].as_str(), user) {
            return true;
        }
        i = i + 1;
    }
    false
}

impl CompetitionResponse {
    /// Build a response from a Competition document.
    ///
    /// `viewer_id` is the currently authenticated user (if any).
    /// `include_registrations` controls whether the full list is exposed.
    pub fn from_competition(c: Competition, viewer_id: Option<&str>, include_registrations: bool) -> (r: Self)
        ensures
            r.id == c.id,
            r.name == c.name,
            r.organizer == c.organizer,
            r.icon == c.icon,
            r.icon_bg == c.icon_bg,
            r.status == c.status,
            r.prize == c.prize,
            r.team_size_min == c.team_size_min,
            r.team_size_max == c.team_size_max,
            r.deadline == c.deadline,
            r.duration == c.duration,
            r.tags == c.tags,
            r.description == c.description,
            r.is_featured == c.is_featured,
            r.banner_image == c.banner_image,
            r.publish_status == c.publish_status,
            r.publisher_id == c.publisher_id,
            r.rejected_note == c.rejected_note,
            r.winners == c.winners,
            r.created_at == c.created_at,
            r.updated_at == c.updated_at,
            r.registration_count == c.registrations@.len(),
            r.interested_count == c.interested_user_ids@.len(),
            r.is_registered_by_viewer == (match viewer_id {
                Some(v) => Some(has_registration(c.registrations@, v@)),
                None => None,
            }),
            r.is_interested_by_viewer == (match viewer_id {
                Some(v) => Some(has_id(c.interested_user_ids@, v@)),
                None => None,
            }),
            r.registrations == (if include_registrations {
                Some(c.registrations)
            } else {
                None
            }),
    {
        let registration_count = c.registrations.len();
        let interested_count = c.interested_user_ids.len();
        let is_registered = match viewer_id {
            Some(vid) => Some(any_registration(&c.registrations, vid)),
            None => None,
        };
        let is_interested = match viewer_id {
            Some(vid) => Some(any_id(&c.interested_user_ids, vid)),
            None => None,
        };
        CompetitionResponse {
            id: c.id,
            name: c.name,
            organizer: c.organizer,
            icon: c.icon,
            icon_bg: c.icon_bg,
            status: c.status,
            prize: c.prize,
            team_size_min: c.team_size_min,
            team_size_max: c.team_size_max,
            deadline: c.deadline,
            duration: c.duration,
            tags: c.tags,
            description: c.description,
            is_featured: c.is_featured,
            banner_image: c.banner_image,
            publish_status: c.publish_status,
            publisher_id: c.publisher_id,
            rejected_note: c.rejected_note,
            winners: c.winners,
            created_at: c.created_at,
            updated_at: c.updated_at,
            registration_count,
            interested_count,
            is_registered_by_viewer: is_registered,
            is_interested_by_viewer: is_interested,
            registrations: if include_registrations {
                Some(c.registrations)
            } else {
                None
            },
        }
    }
}

} // verus!

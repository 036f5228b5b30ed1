use vstd::prelude::*;
use crate::clock::timestamp_in_range;
use crate::error::{TeamderError, fails_with};
use crate::models::competition::{
    Competition, CompetitionResponse, CreateCompetitionRequest, Registration, any_registration,
    has_registration,
};
use crate::api::routes::projects::{string_or, text_or};
use crate::text::{str_eq, string_of};

verus! {

// ── DTOs ────────────────────────────────────────────────────────────────────

/// One page of competitions.
pub struct PaginatedCompetitions {
    pub competitions: Vec<CompetitionResponse>,
    pub total: u64,
    pub page: u64,
    pub limit: i64,
}

/// Acknowledgement of a successful action.
pub struct SuccessResponse {
    pub success: bool,
}

/// Body of a registration for a competition.
pub struct RegisterBody {
    pub team_name: Option<String>,
    pub motivation: Option<String>,
    pub skills: Option<Vec<String>>,
    pub contact_email: Option<String>,
}

/// Whether the caller is now interested in the competition.
pub struct InterestResponse {
    pub interested: bool,
}

/// Body naming the winners of a competition.
pub struct WinnersBody {
    pub winner_user_ids: Vec<String>,
}

/// Body of a rejection, with an optional note for the publisher.
pub struct RejectBody {
    pub note: Option<String>,
}

// ── Creating ────────────────────────────────────────────────────────────────

/// A new competition published by `publisher_id`, a draft unless the request
/// says otherwise, with no registrations, interest or winners.
pub fn new_competition(id: String, publisher_id: &str, req: CreateCompetitionRequest, now: i64) -> (c: Competition)
    requires
        timestamp_in_range(now),
    ensures
        c.id == id,
        c.name == req.name,
        c.organizer == req.organizer,
        c.icon@ == text_or(req.icon, "Cp"@),
        c.icon_bg@ == text_or(req.icon_bg, ""@),
        c.status@ == text_or(req.status, "open"@),
        c.prize@ == text_or(req.prize, ""@),
        c.team_size_min == match req.team_size_min {
            Some(n) => n,
            None => 2u8,
        },
        c.team_size_max == match req.team_size_max {
            Some(n) => n,
            None => 5u8,
        },
        c.deadline == req.deadline,
        c.duration@ == text_or(req.duration, ""@),
        c.tags@ == match req.tags {
            Some(t) => t@,
            None => Seq::<String>::empty(),
        },
        c.description@ == text_or(req.description, ""@),
        c.is_featured == (req.is_featured == Some(true)),
        c.banner_image == req.banner_image,
        c.publish_status@ == text_or(req.publish_status, "draft"@),
        c.publisher_id matches Some(p) && p@ == publisher_id@,
        c.rejected_note is None,
        c.registrations@.len() == 0,
        c.interested_user_ids@.len() == 0,
        c.winners@.len() == 0,
        c.created_at == now,
        c.updated_at == now,
{
    let tags = match req.tags {
        Some(t) => t,
        None => Vec::new(),
    };
    let min = match req.team_size_min {
        Some(n) => n,
        None => 2,
    };
    let max = match req.team_size_max {
        Some(n) => n,
        None => 5,
    };
    let featured = match req.is_featured {
        Some(b) => b,
        None => false,
    };
    Competition {
        id,
        name: req.name,
        organizer: req.organizer,
        icon: string_or(req.icon, "Cp"),
        icon_bg: string_or(req.icon_bg, ""),
        status: string_or(req.status, "open"),
        prize: string_or(req.prize, ""),
        team_size_min: min,
        team_size_max: max,
        deadline: req.deadline,
        duration: string_or(req.duration, ""),
        tags,
        description: string_or(req.description, ""),
        is_featured: featured,
        banner_image: req.banner_image,
        publish_status: string_or(req.publish_status, "draft"),
        publisher_id: Some(string_of(publisher_id)),
        rejected_note: None,
        registrations: Vec::new(),
        interested_user_ids: Vec::new(),
        winners: Vec::new(),
        created_at: now,
        updated_at: now,
    }
}

// ── Listing ─────────────────────────────────────────────────────────────────

/// The competitions of `comps` that are published, in order.
pub fn published_only(comps: Vec<Competition>) -> (r: Vec<Competition>)
    ensures
        r@ == comps@.filter(|c: Competition| c.publish_status@ == "published"@),
{
    let mut r: Vec<Competition> = Vec::new();
    let mut comps = comps;
    let ghost orig = comps@;
    let n = comps.len();
    let mut i: usize = 0;
    while i < n
        invariant
            n == orig.len(),
            i <= n,
            comps@ == orig.skip(i as int),
            r@ == orig.take(i as int).filter(|c: Competition| c.publish_status@ == "published"@),
        decreases n - i,
    {
        let c = comps.remove(0);
        proof {
            assert(c == orig[i as int]);
            assert(orig.take(i + 1) == orig.take(i as int).push(c));
            assert(comps@ == orig.skip(i + 1));
            orig.take(i as int).lemma_filter_push(c, |c: Competition| c.publish_status@ == "published"@);
        }
        if str_eq(c.publish_status.as_str(), "published") {
            r.push(c);
        }
        i = i + 1;
    }
    proof {
        assert(orig.take(n as int) == orig);
    }
    r
}

/// Full registrations are shown to the viewer who published the competition.
pub fn include_registrations_for(publisher_id: &Option<String>, viewer: Option<&str>) -> (r: bool)
    ensures
        r == (viewer is Some && publisher_id is Some && publisher_id->0@ == viewer->0@),
{
    match viewer {
        None => false,
        Some(v) => match publisher_id {
            Some(p) => str_eq(p.as_str(), v),
            None => false,
        },
    }
}

// ── Permissions ─────────────────────────────────────────────────────────────

/// `caller` published the competition.
pub fn is_publisher_of(comp: &Competition, caller: &str) -> (r: bool)
    ensures
        r == (comp.publisher_id is Some && comp.publisher_id->0@ == caller@),
{
    match &comp.publisher_id {
        Some(p) => str_eq(p.as_str(), caller),
        None => false,
    }
}

/// Editing a competition and reading its registrations is for its publisher
/// and for admins.
pub fn manage_check(is_owner: bool, is_admin: bool) -> (r: Result<(), TeamderError>)
    ensures
        (is_owner || is_admin) ==> r is Ok,
        !(is_owner || is_admin) ==> fails_with(r, 403, "Not authorized"@),
{
    if !is_owner && !is_admin {
        Err(TeamderError::Forbidden("Not authorized".to_string()))
    } else {
        Ok(())
    }
}

/// A user registers for a competition at most once.
pub fn register_check(comp: &Competition, caller: &str) -> (r: Result<(), TeamderError>)
    ensures
        has_registration(comp.registrations@, caller@) ==> fails_with(r, 409, "Already registered"@),
        !has_registration(comp.registrations@, caller@) ==> r is Ok,
{
    if any_registration(&comp.registrations, caller) {
        Err(TeamderError::Conflict("Already registered".to_string()))
    } else {
        Ok(())
    }
}

/// The registration of `user_id` from the form `body`, made at `now`.
pub fn new_registration(user_id: String, body: RegisterBody, now: i64) -> (r: Registration)
    ensures
        r.user_id == user_id,
        r.team_name == body.team_name,
        r.registered_at == now,
        r.motivation == body.motivation,
        r.skills == body.skills,
        r.contact_email == body.contact_email,
{
    Registration {
        user_id,
        team_name: body.team_name,
        registered_at: now,
        motivation: body.motivation,
        skills: body.skills,
        contact_email: body.contact_email,
    }
}

/// Only the publisher may submit a competition for review, and only a draft.
pub fn submit_review_check(comp: &Competition, caller: &str) -> (r: Result<(), TeamderError>)
    ensures
        !(comp.publisher_id is Some && comp.publisher_id->0@ == caller@) ==> fails_with(
            r,
            403,
            "Not the publisher"@,
        ),
        (comp.publisher_id is Some && comp.publisher_id->0@ == caller@) && comp.publish_status@
            != "draft"@ ==> fails_with(r, 422, "Only drafts can be submitted for review"@),
        (comp.publisher_id is Some && comp.publisher_id->0@ == caller@) && comp.publish_status@
            == "draft"@ ==> r is Ok,
{
    if !is_publisher_of(comp, caller) {
        return Err(TeamderError::Forbidden("Not the publisher".to_string()));
    }
    if !str_eq(comp.publish_status.as_str(), "draft") {
        return Err(TeamderError::Validation("Only drafts can be submitted for review".to_string()));
    }
    Ok(())
}

} // verus!

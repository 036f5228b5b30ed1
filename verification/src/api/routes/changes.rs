//! The fields a partial update sets: each given field of the request, in the
//! order the routes list them.
use vstd::prelude::*;
use crate::models::competition::UpdateCompetitionRequest;
use crate::models::project::{ProjectRole, UpdateProjectRequest};
use crate::api::routes::competition_teams::UpdateCompTeamBody;
use crate::api::routes::study_groups::UpdateStudyGroupRequest;

verus! {

/// The new value of a field.
pub enum FieldValue {
    Text(String),
    Number(i32),
    Flag(bool),
    Texts(Vec<String>),
    Roles(Vec<ProjectRole>),
    Time(i64),
}

/// One field a partial update sets.
pub struct FieldChange {
    pub field: &'static str,
    pub value: FieldValue,
}

/// The change setting a text field, when a value is given.
pub open spec fn text_change(field: &'static str, v: Option<String>) -> Seq<FieldChange> {
    match v {
        Some(s) => seq![FieldChange { field, value: FieldValue::Text(s) }],
        None => Seq::empty(),
    }
}

/// The change setting a number field, when a value is given.
pub open spec fn number_change(field: &'static str, v: Option<u8>) -> Seq<FieldChange> {
    match v {
        Some(n) => seq![FieldChange { field, value: FieldValue::Number(n as i32) }],
        None => Seq::empty(),
    }
}

/// The change setting an integer field, when a value is given.
pub open spec fn int_change(field: &'static str, v: Option<i32>) -> Seq<FieldChange> {
    match v {
        Some(n) => seq![FieldChange { field, value: FieldValue::Number(n) }],
        None => Seq::empty(),
    }
}

/// The change setting a flag, when a value is given.
pub open spec fn flag_change(field: &'static str, v: Option<bool>) -> Seq<FieldChange> {
    match v {
        Some(b) => seq![FieldChange { field, value: FieldValue::Flag(b) }],
        None => Seq::empty(),
    }
}

/// The change setting a list of texts, when one is given.
pub open spec fn texts_change(field: &'static str, v: Option<Vec<String>>) -> Seq<FieldChange> {
    match v {
        Some(l) => seq![FieldChange { field, value: FieldValue::Texts(l) }],
        None => Seq::empty(),
    }
}

/// The change setting the roles, when they are given.
pub open spec fn roles_change(field: &'static str, v: Option<Vec<ProjectRole>>) -> Seq<FieldChange> {
    match v {
        Some(l) => seq![FieldChange { field, value: FieldValue::Roles(l) }],
        None => Seq::empty(),
    }
}

/// The change recording the update time.
pub open spec fn time_change(now: i64) -> Seq<FieldChange> {
    seq![FieldChange { field: "updated_at", value: FieldValue::Time(now) }]
}

pub(crate) fn push_text(r: &mut Vec<FieldChange>, field: &'static str, v: Option<String>)
    ensures
        final(r)@ == old(r)@ + text_change(field, v),
{
    match v {
        Some(s) => r.push(FieldChange { field, value: FieldValue::Text(s) }),
        None => {},
    }
    proof {
        assert(final(r)@ =~= old(r)@ + text_change(field, v));
    }
}

fn push_number(r: &mut Vec<FieldChange>, field: &'static str, v: Option<u8>)
    ensures
        final(r)@ == old(r)@ + number_change(field, v),
{
    match v {
        Some(n) => r.push(FieldChange { field, value: FieldValue::Number(n as i32) }),
        None => {},
    }
    proof {
        assert(final(r)@ =~= old(r)@ + number_change(field, v));
    }
}

pub(crate) fn push_int(r: &mut Vec<FieldChange>, field: &'static str, v: Option<i32>)
    ensures
        final(r)@ == old(r)@ + int_change(field, v),
{
    match v {
        Some(n) => r.push(FieldChange { field, value: FieldValue::Number(n) }),
        None => {},
    }
    proof {
        assert(final(r)@ =~= old(r)@ + int_change(field, v));
    }
}

pub(crate) fn push_flag(r: &mut Vec<FieldChange>, field: &'static str, v: Option<bool>)
    ensures
        final(r)@ == old(r)@ + flag_change(field, v),
{
    match v {
        Some(b) => r.push(FieldChange { field, value: FieldValue::Flag(b) }),
        None => {},
    }
    proof {
        assert(final(r)@ =~= old(r)@ + flag_change(field, v));
    }
}

fn push_texts(r: &mut Vec<FieldChange>, field: &'static str, v: Option<Vec<String>>)
    ensures
        final(r)@ == old(r)@ + texts_change(field, v),
{
    match v {
        Some(l) => r.push(FieldChange { field, value: FieldValue::Texts(l) }),
        None => {},
    }
    proof {
        assert(final(r)@ =~= old(r)@ + texts_change(field, v));
    }
}

fn push_roles(r: &mut Vec<FieldChange>, field: &'static str, v: Option<Vec<ProjectRole>>)
    ensures
        final(r)@ == old(r)@ + roles_change(field, v),
{
    match v {
        Some(l) => r.push(FieldChange { field, value: FieldValue::Roles(l) }),
        None => {},
    }
    proof {
        assert(final(r)@ =~= old(r)@ + roles_change(field, v));
    }
}

pub(crate) fn push_time(r: &mut Vec<FieldChange>, now: i64)
    ensures
        final(r)@ == old(r)@ + time_change(now),
{
    r.push(FieldChange { field: "updated_at", value: FieldValue::Time(now) });
    proof {
        assert(final(r)@ =~= old(r)@ + time_change(now));
    }
}

// ── Competitions ────────────────────────────────────────────────────────────

/// The fields a competition update sets, then its update time.
pub open spec fn competition_changes_of(req: UpdateCompetitionRequest, now: i64) -> Seq<FieldChange> {
    text_change("name", req.name) + text_change("organizer", req.organizer) + text_change(
        "icon",
        req.icon,
    ) + text_change("icon_bg", req.icon_bg) + text_change("status", req.status) + text_change(
        "prize",
        req.prize,
    ) + number_change("team_size_min", req.team_size_min) + number_change(
        "team_size_max",
        req.team_size_max,
    ) + text_change("deadline", req.deadline) + text_change("duration", req.duration)
        + texts_change("tags", req.tags) + text_change("description", req.description)
        + flag_change("is_featured", req.is_featured) + text_change(
        "banner_image",
        req.banner_image,
    ) + text_change("publish_status", req.publish_status) + text_change(
        "rejected_note",
        req.rejected_note,
    ) + time_change(now)
}

/// The fields a competition update sets.
pub fn competition_changes(req: UpdateCompetitionRequest, now: i64) -> (r: Vec<FieldChange>)
    ensures
        r@ == competition_changes_of(req, now),
{
    let ghost g = req;
    let mut r: Vec<FieldChange> = Vec::new();
    push_text(&mut r, "name", req.name);
    push_text(&mut r, "organizer", req.organizer);
    push_text(&mut r, "icon", req.icon);
    push_text(&mut r, "icon_bg", req.icon_bg);
    push_text(&mut r, "status", req.status);
    push_text(&mut r, "prize", req.prize);
    push_number(&mut r, "team_size_min", req.team_size_min);
    push_number(&mut r, "team_size_max", req.team_size_max);
    push_text(&mut r, "deadline", req.deadline);
    push_text(&mut r, "duration", req.duration);
    push_texts(&mut r, "tags", req.tags);
    push_text(&mut r, "description", req.description);
    push_flag(&mut r, "is_featured", req.is_featured);
    push_text(&mut r, "banner_image", req.banner_image);
    push_text(&mut r, "publish_status", req.publish_status);
    push_text(&mut r, "rejected_note", req.rejected_note);
    push_time(&mut r, now);
    proof {
        assert(r@ =~= competition_changes_of(g, now));
    }
    r
}

// ── Projects ────────────────────────────────────────────────────────────────

/// The fields a project update sets, then its update time.
pub open spec fn project_changes_of(req: UpdateProjectRequest, now: i64) -> Seq<FieldChange> {
    text_change("name", req.name) + text_change("description", req.description) + text_change(
        "goals",
        req.goals,
    ) + roles_change("roles", req.roles) + texts_change("skills", req.skills) + text_change(
        "deadline",
        req.deadline,
    ) + text_change("collab", req.collab) + text_change("duration", req.duration) + text_change(
        "category",
        req.category,
    ) + text_change("status", req.status) + flag_change("is_public", req.is_public)
        + text_change("join_mode", req.join_mode) + text_change("icon", req.icon) + text_change(
        "icon_bg",
        req.icon_bg,
    ) + flag_change("is_promoted", req.is_promoted) + text_change(
        "banner_image",
        req.banner_image,
    ) + time_change(now)
}

/// The fields a project update sets.
pub fn project_changes(req: UpdateProjectRequest, now: i64) -> (r: Vec<FieldChange>)
    ensures
        r@ == project_changes_of(req, now),
{
    let ghost g = req;
    let mut r: Vec<FieldChange> = Vec::new();
    push_text(&mut r, "name", req.name);
    push_text(&mut r, "description", req.description);
    push_text(&mut r, "goals", req.goals);
    push_roles(&mut r, "roles", req.roles);
    push_texts(&mut r, "skills", req.skills);
    push_text(&mut r, "deadline", req.deadline);
    push_text(&mut r, "collab", req.collab);
    push_text(&mut r, "duration", req.duration);
    push_text(&mut r, "category", req.category);
    push_text(&mut r, "status", req.status);
    push_flag(&mut r, "is_public", req.is_public);
    push_text(&mut r, "join_mode", req.join_mode);
    push_text(&mut r, "icon", req.icon);
    push_text(&mut r, "icon_bg", req.icon_bg);
    push_flag(&mut r, "is_promoted", req.is_promoted);
    push_text(&mut r, "banner_image", req.banner_image);
    push_time(&mut r, now);
    proof {
        assert(r@ =~= project_changes_of(g, now));
    }
    r
}

// ── Competition teams ───────────────────────────────────────────────────────

/// The fields a team update sets, then its update time.
pub open spec fn team_changes_of(req: UpdateCompTeamBody, now: i64) -> Seq<FieldChange> {
    text_change("name", req.name) + text_change("description", req.description) + number_change(
        "max_members",
        req.max_members,
    ) + texts_change("looking_for", req.looking_for) + texts_change("open_roles", req.open_roles)
        + text_change("status", req.status) + time_change(now)
}

/// The fields a team update sets.
pub fn team_changes(req: UpdateCompTeamBody, now: i64) -> (r: Vec<FieldChange>)
    ensures
        r@ == team_changes_of(req, now),
{
    let ghost g = req;
    let mut r: Vec<FieldChange> = Vec::new();
    push_text(&mut r, "name", req.name);
    push_text(&mut r, "description", req.description);
    push_number(&mut r, "max_members", req.max_members);
    push_texts(&mut r, "looking_for", req.looking_for);
    push_texts(&mut r, "open_roles", req.open_roles);
    push_text(&mut r, "status", req.status);
    push_time(&mut r, now);
    proof {
        assert(r@ =~= team_changes_of(g, now));
    }
    r
}

// ── Study groups ────────────────────────────────────────────────────────────

/// The fields a study group update sets (no update time is recorded).
pub open spec fn group_changes_of(req: UpdateStudyGroupRequest) -> Seq<FieldChange> {
    text_change("name", req.name) + text_change("goal", req.goal) + text_change(
        "description",
        req.description,
    ) + text_change("subject", req.subject) + texts_change("tags", req.tags) + text_change(
        "schedule",
        req.schedule,
    ) + number_change("max_members", req.max_members) + flag_change("is_open", req.is_open)
        + text_change("join_mode", req.join_mode) + text_change("banner_image", req.banner_image)
}

/// The fields a study group update sets; none means nothing is written.
pub fn group_changes(req: UpdateStudyGroupRequest) -> (r: Vec<FieldChange>)
    ensures
        r@ == group_changes_of(req),
{
    let ghost g = req;
    let mut r: Vec<FieldChange> = Vec::new();
    push_text(&mut r, "name", req.name);
    push_text(&mut r, "goal", req.goal);
    push_text(&mut r, "description", req.description);
    push_text(&mut r, "subject", req.subject);
    push_texts(&mut r, "tags", req.tags);
    push_text(&mut r, "schedule", req.schedule);
    push_number(&mut r, "max_members", req.max_members);
    push_flag(&mut r, "is_open", req.is_open);
    push_text(&mut r, "join_mode", req.join_mode);
    push_text(&mut r, "banner_image", req.banner_image);
    proof {
        assert(r@ =~= group_changes_of(g));
    }
    r
}

} // verus!

use vstd::prelude::*;
use crate::clock::{utc_day, utc_day_index};
use crate::error::{TeamderError, fails_with};
use crate::models::study_group::{GroupMember, StudyGroup, StudyNote};
use crate::api::routes::projects::{string_or, text_or};
use crate::text::{concat, concat3, str_eq, string_of};

verus! {

// ── DTOs ────────────────────────────────────────────────────────────────────

/// Body of a study group creation.
pub struct CreateStudyGroupRequest {
    pub name: String,
    pub goal: String,
    pub subject: String,
    pub tags: Vec<String>,
    pub max_members: Option<u8>,
    pub schedule: String,
    pub duration_weeks: u8,
    pub icon: Option<String>,
    pub icon_bg: Option<String>,
    pub join_mode: Option<String>,
    pub banner_image: Option<String>,
    pub description: Option<String>,
}

/// Partial update of a study group.
pub struct UpdateStudyGroupRequest {
    pub name: Option<String>,
    pub goal: Option<String>,
    pub description: Option<String>,
    pub subject: Option<String>,
    pub tags: Option<Vec<String>>,
    pub schedule: Option<String>,
    pub max_members: Option<u8>,
    pub is_open: Option<bool>,
    pub join_mode: Option<String>,
    pub banner_image: Option<String>,
}

/// Body of a new note.
pub struct CreateStudyNoteRequest {
    pub title: String,
    pub body: String,
}

/// Body of a progress update.
pub struct UpdateProgressRequest {
    pub current_week: u8,
}

/// Body naming the member to promote.
pub struct AdminBody {
    pub user_id: String,
}

/// A member of a group with the name of their account.
pub struct GroupMemberEnriched {
    pub user_id: String,
    pub name: String,
    pub initials: String,
    pub color: String,
    pub joined_at: i64,
    pub streak: u32,
}

// ── Listing ─────────────────────────────────────────────────────────────────

/// The page size of a listing: 20 by default, at most 100.
pub open spec fn group_page_limit(limit: Option<i64>) -> i64 {
    let l = match limit {
        Some(l) => l,
        None => 20,
    };
    if l < 100 {
        l
    } else {
        100
    }
}

/// Documents skipped before a page: `(page - 1) * limit` (the limit read as
/// unsigned, page 0 as page 1), but never fewer than an explicit `skip`.
pub open spec fn group_skip(skip: Option<u64>, page: Option<u64>, limit: i64) -> int {
    let s: int = match skip {
        Some(s) => s as int,
        None => 0,
    };
    match page {
        Some(p) => {
            let before: int = (if p == 0 {
                0
            } else {
                p - 1
            }) * (limit as u64);
            if s < before {
                before
            } else {
                s
            }
        },
        None => s,
    }
}

/// Limit, skip and open-filter of a study group listing; `is_open` wins
/// over its older alias `open`.
pub fn group_list_params(
    limit: Option<i64>,
    skip: Option<u64>,
    page: Option<u64>,
    open: Option<bool>,
    is_open: Option<bool>,
) -> (r: (i64, u64, Option<bool>))
    requires
        page matches Some(p) ==> (if p == 0 {
            0
        } else {
            p - 1
        }) * (group_page_limit(limit) as u64) <= u64::MAX,
    ensures
        r.0 == group_page_limit(limit),
        r.1 == group_skip(skip, page, r.0),
        r.2 == (match is_open {
            Some(b) => Some(b),
            None => open,
        }),
{
    let l = match limit {
        Some(l) => l,
        None => 20,
    };
    let limit = if l < 100 {
        l
    } else {
        100
    };
    let effective_open = match is_open {
        Some(b) => Some(b),
        None => open,
    };
    let s = match skip {
        Some(s) => s,
        None => 0,
    };
    let skip = match page {
        Some(p) => {
            let before_pages = if p == 0 {
                0
            } else {
                p - 1
            };
            let before = before_pages * (limit as u64);
            if s < before {
                before
            } else {
                s
            }
        },
        None => s,
    };
    (limit, skip, effective_open)
}

// ── Creating ────────────────────────────────────────────────────────────────

/// A member entry for a user joining at `now`, without check-ins yet.
pub fn new_group_member(user_id: &str, initials: &str, now: i64) -> (m: GroupMember)
    ensures
        m.user_id@ == user_id@,
        m.initials@ == initials@,
        m.color@ == "#4F6D7A"@,
        m.joined_at == now,
        m.last_checkin is None,
        m.streak == 0,
{
    GroupMember {
        user_id: string_of(user_id),
        initials: string_of(initials),
        color: "#4F6D7A".to_string(),
        joined_at: now,
        last_checkin: None,
        streak: 0,
    }
}

/// A new study group from its creation request, created by `created_by`:
/// week one of an open, active group with no members yet (the creator joins
/// like anyone else); unset choices take their defaults (six members, icon
/// `Sg`, direct joining).
pub fn new_study_group(id: String, req: CreateStudyGroupRequest, created_by: &str, now: i64) -> (g: StudyGroup)
    ensures
        g.id == id,
        g.name == req.name,
        g.goal == req.goal,
        g.icon@ == text_or(req.icon, "Sg"@),
        g.icon_bg@ == text_or(req.icon_bg, ""@),
        g.subject == req.subject,
        g.tags == req.tags,
        g.members@.len() == 0,
        g.max_members == (match req.max_members {
            Some(m) => m,
            None => 6u8,
        }),
        g.schedule == req.schedule,
        g.duration_weeks == req.duration_weeks,
        g.current_week == 1,
        g.is_open,
        g.status@ == "active"@,
        g.join_mode@ == text_or(req.join_mode, "direct"@),
        g.banner_image == req.banner_image,
        g.notes@.len() == 0,
        g.description == req.description,
        g.admins@.len() == 0,
        g.created_by@ == created_by@,
        g.created_at == now,
        g.updated_at == now,
{
    StudyGroup {
        id,
        name: req.name,
        goal: req.goal,
        icon: string_or(req.icon, "Sg"),
        icon_bg: string_or(req.icon_bg, ""),
        subject: req.subject,
        tags: req.tags,
        members: Vec::new(),
        max_members: match req.max_members {
            Some(m) => m,
            None => 6,
        },
        schedule: req.schedule,
        duration_weeks: req.duration_weeks,
        current_week: 1,
        is_open: true,
        status: "active".to_string(),
        join_mode: string_or(req.join_mode, "direct"),
        banner_image: req.banner_image,
        notes: Vec::new(),
        description: req.description,
        admins: Vec::new(),
        created_by: string_of(created_by),
        created_at: now,
        updated_at: now,
    }
}

// ── Membership ──────────────────────────────────────────────────────────────

/// `user` has a member entry.
pub open spec fn has_entry(members: Seq<GroupMember>, user: Seq<char>) -> bool {
    exists|i: int| 0 <= i < members.len() && members[i].user_id@ == user
}

/// `user` created the group or has a member entry in it.
pub open spec fn in_group(created_by: Seq<char>, members: Seq<GroupMember>, user: Seq<char>) -> bool {
    created_by == user || has_entry(members, user)
}

/// Whether `user` has a member entry.
pub fn has_member_entry(members: &Vec<GroupMember>, user: &str) -> (r: bool)
    ensures
        r == has_entry(members@, user@),
{
    let n = members.len();
    let mut i: usize = 0;
    while i < n
        invariant
            n == members@.len(),
            i <= n,
            forall|k: int| 0 <= k < i ==> members@[k].user_id@ != user@,
        decreases n - i,
    {
        if str_eq(members[i].user_id.as_str(), user) {
            return true;
        }
        i = i + 1;
    }
    false
}

/// Whether `user` created the group or is a member of it.
pub fn is_group_member(group: &StudyGroup, user: &str) -> (r: bool)
    ensures
        r == in_group(group.created_by@, group.members@, user@),
{
    str_eq(group.created_by.as_str(), user) || has_member_entry(&group.members, user)
}

/// A group admits one more member: it is open and has room.
pub open spec fn may_join(group: StudyGroup) -> bool {
    group.is_open && group.members@.len() < group.max_members
}

/// A group can be joined while it is open and has room.
pub fn join_check(group: &StudyGroup) -> (r: Result<(), TeamderError>)
    ensures
        r is Ok <==> may_join(*group),
        !group.is_open ==> fails_with(r, 409, "This study group is closed"@),
        group.is_open && group.members@.len() >= group.max_members ==> fails_with(
            r,
            409,
            "Study group is full"@,
        ),
        group.is_open && group.members@.len() < group.max_members ==> r is Ok,
{
    if !group.is_open {
        return Err(TeamderError::Conflict("This study group is closed".to_string()));
    }
    if group.members.len() >= group.max_members as usize {
        return Err(TeamderError::Conflict("Study group is full".to_string()));
    }
    Ok(())
}

/// Joins never overfill a group: when `join_check` lets a member in, the
/// group with that member's entry added is still within its capacity.
pub proof fn law_join_respects_capacity(group: StudyGroup, newcomer: GroupMember)
    requires
        may_join(group),
    ensures
        group.members@.push(newcomer).len() <= group.max_members,
{
}

/// The creator of a group may not leave it.
pub fn leave_group_check(group: &StudyGroup, caller: &str) -> (r: Result<(), TeamderError>)
    ensures
        group.created_by@ == caller@ ==> fails_with(r, 409, "Creator cannot leave the group"@),
        group.created_by@ != caller@ ==> r is Ok,
{
    if str_eq(group.created_by.as_str(), caller) {
        Err(TeamderError::Conflict("Creator cannot leave the group".to_string()))
    } else {
        Ok(())
    }
}

/// Only the creator of a group may act on it.
pub fn creator_check(group: &StudyGroup, caller: &str) -> (r: Result<(), TeamderError>)
    ensures
        group.created_by@ == caller@ ==> r is Ok,
        group.created_by@ != caller@ ==> fails_with(r, 403, "Not authorized"@),
{
    if str_eq(group.created_by.as_str(), caller) {
        Ok(())
    } else {
        Err(TeamderError::Forbidden("Not authorized".to_string()))
    }
}

/// The creator or a platform admin may delete a group.
pub fn delete_group_check(group: &StudyGroup, caller: &str, caller_is_admin: bool) -> (r: Result<(), TeamderError>)
    ensures
        group.created_by@ == caller@ || caller_is_admin ==> r is Ok,
        group.created_by@ != caller@ && !caller_is_admin ==> fails_with(r, 403, "Not authorized"@),
{
    if !str_eq(group.created_by.as_str(), caller) && !caller_is_admin {
        Err(TeamderError::Forbidden("Not authorized".to_string()))
    } else {
        Ok(())
    }
}

/// The creator may promote members, and only members, to group admins.
pub fn add_admin_check(group: &StudyGroup, caller: &str, target: &str) -> (r: Result<(), TeamderError>)
    ensures
        group.created_by@ != caller@ ==> fails_with(r, 403, "Not authorized"@),
        group.created_by@ == caller@ && !has_entry(group.members@, target@) ==> fails_with(
            r,
            422,
            "User must be a member first"@,
        ),
        group.created_by@ == caller@ && has_entry(group.members@, target@) ==> r is Ok,
{
    creator_check(group, caller)?;
    if !has_member_entry(&group.members, target) {
        return Err(TeamderError::Validation("User must be a member first".to_string()));
    }
    Ok(())
}

// ── Check-ins ───────────────────────────────────────────────────────────────

/// The creator of a group without a member entry of their own (groups made
/// before creators were added) gets one before checking in.
pub fn creator_needs_entry(group: &StudyGroup, caller: &str) -> (r: bool)
    ensures
        r == (group.created_by@ == caller@ && !has_entry(group.members@, caller@)),
{
    str_eq(group.created_by.as_str(), caller) && !has_member_entry(&group.members, caller)
}

/// Index of the first member entry of `user`, if any.
pub open spec fn first_entry_index(members: Seq<GroupMember>, user: Seq<char>) -> Option<int> {
    if has_entry(members, user) {
        Some(
            choose|i: int|
                0 <= i < members.len() && members[i].user_id@ == user && forall|j: int|
                    0 <= j < i ==> members[j].user_id@ != user,
        )
    } else {
        None
    }
}

/// The outcome of a check-in at `now`: refused for non-members, and for a
/// member whose last check-in fell on the same UTC day.
pub open spec fn checkin_outcome(members: Seq<GroupMember>, user: Seq<char>, now: i64) -> Option<(u16, Seq<char>)> {
    match first_entry_index(members, user) {
        None => Some((403u16, "Not authorized"@)),
        Some(i) => match members[i].last_checkin {
            Some(last) => if utc_day(last) == utc_day(now) {
                Some((409u16, "Already checked in today"@))
            } else {
                None
            },
            None => None,
        },
    }
}

/// Check-ins are once per UTC day, for members.
pub fn checkin_check(group: &StudyGroup, caller: &str, now: i64) -> (r: Result<(), TeamderError>)
    ensures
        match checkin_outcome(group.members@, caller@, now) {
            None => r is Ok,
            Some((status, msg)) => fails_with(r, status, msg),
        },
{
    let n = group.members.len();
    let mut i: usize = 0;
    while i < n
        invariant
            n == group.members@.len(),
            i <= n,
            forall|k: int| 0 <= k < i ==> group.members@[k].user_id@ != caller@,
        decreases n - i,
    {
        if str_eq(group.members[i].user_id.as_str(), caller) {
            proof {
                let ms = group.members@;
                let k = choose|k: int|
                    0 <= k < ms.len() && ms[k].user_id@ == caller@ && forall|j: int|
                        0 <= j < k ==> ms[j].user_id@ != caller@;
                assert(k == i as int) by {
                    if k < i {
                    } else if k > i {
                        assert(ms[i as int].user_id@ == caller@);
                    }
                }
            }
            match group.members[i].last_checkin {
                Some(last) => {
                    if utc_day_index(last) == utc_day_index(now) {
                        return Err(TeamderError::Conflict("Already checked in today".to_string()));
                    }
                    return Ok(());
                },
                None => {
                    return Ok(());
                },
            }
        }
        i = i + 1;
    }
    Err(TeamderError::Forbidden("Not authorized".to_string()))
}

/// Once a member has checked in, a second check-in on the same UTC day is
/// refused.
pub proof fn law_checkin_once_per_day(members: Seq<GroupMember>, user: Seq<char>, last: i64, now: i64)
    requires
        first_entry_index(members, user) matches Some(i) && members[i].last_checkin == Some(last),
        utc_day(last) == utc_day(now),
    ensures
        checkin_outcome(members, user, now) == Some((409u16, "Already checked in today"@)),
{
}

/// Check-ins are counted per UTC calendar day: a member whose last
/// check-in fell on an earlier (or any other) UTC day than `now` may check
/// in, however few hours ago that was; only a check-in on the same UTC day
/// is refused with 409. A member who never checked in may always check in.
pub proof fn law_checkin_per_utc_day(
    r: Result<(), TeamderError>,
    members: Seq<GroupMember>,
    user: Seq<char>,
    now: i64,
    i: int,
)
    requires
        match checkin_outcome(members, user, now) {
            None => r is Ok,
            Some((status, msg)) => fails_with(r, status, msg),
        },
        0 <= i < members.len(),
        members[i].user_id@ == user,
        forall|j: int| 0 <= j < i ==> members[j].user_id@ != user,
    ensures
        members[i].last_checkin is None ==> r is Ok,
        members[i].last_checkin matches Some(last) ==> (r is Ok <==> (last as int) / 86_400_000 != (now as int)
            / 86_400_000),
        members[i].last_checkin matches Some(last) && (last as int) / 86_400_000 < (now as int) / 86_400_000
            ==> r is Ok,
        members[i].last_checkin matches Some(last) && (last as int) / 86_400_000 == (now as int) / 86_400_000
            ==> fails_with(r, 409, "Already checked in today"@),
{
    assert(has_entry(members, user));
    let k = choose|k: int|
        0 <= k < members.len() && members[k].user_id@ == user && forall|j: int|
            0 <= j < k ==> members[j].user_id@ != user;
    assert(k == i) by {
        if k < i {
        } else if k > i {
            assert(members[i].user_id@ == user);
        }
    }
    assert(first_entry_index(members, user) == Some(i));
}

// ── Notes ───────────────────────────────────────────────────────────────────

/// Members and the creator may add notes.
pub fn add_note_check(group: &StudyGroup, caller: &str) -> (r: Result<(), TeamderError>)
    ensures
        in_group(group.created_by@, group.members@, caller@) ==> r is Ok,
        !in_group(group.created_by@, group.members@, caller@) ==> fails_with(r, 403, "Not authorized"@),
{
    if is_group_member(group, caller) {
        Ok(())
    } else {
        Err(TeamderError::Forbidden("Not authorized".to_string()))
    }
}

/// A note written now by `author`.
pub fn new_note(id: String, author_id: &str, author_name: &str, req: CreateStudyNoteRequest, now: i64) -> (n: StudyNote)
    ensures
        n.id == id,
        n.author_id@ == author_id@,
        n.author_name@ == author_name@,
        n.title == req.title,
        n.body == req.body,
        n.created_at == now,
{
    StudyNote {
        id,
        author_id: string_of(author_id),
        author_name: string_of(author_name),
        title: req.title,
        body: req.body,
        created_at: now,
    }
}

/// `note_id` names a note of the group.
pub open spec fn has_note(notes: Seq<StudyNote>, note_id: Seq<char>) -> bool {
    exists|i: int| 0 <= i < notes.len() && notes[i].id@ == note_id
}

/// The author of the first note with id `note_id`.
pub open spec fn note_author(notes: Seq<StudyNote>, note_id: Seq<char>) -> Seq<char> {
    let i = choose|i: int|
        0 <= i < notes.len() && notes[i].id@ == note_id && forall|j: int|
            0 <= j < i ==> notes[j].id@ != note_id;
    notes[i].author_id@
}

/// A note can be deleted by its author or by the group's creator.
pub fn delete_note_check(group: &StudyGroup, note_id: &str, caller: &str) -> (r: Result<(), TeamderError>)
    ensures
        !has_note(group.notes@, note_id@) ==> fails_with(r, 404, "Note not found"@),
        has_note(group.notes@, note_id@) ==> (if note_author(group.notes@, note_id@) == caller@
            || group.created_by@ == caller@ {
            r is Ok
        } else {
            fails_with(r, 403, "Not authorized"@)
        }),
{
    let n = group.notes.len();
    let mut i: usize = 0;
    while i < n
        invariant
            n == group.notes@.len(),
            i <= n,
            forall|k: int| 0 <= k < i ==> group.notes@[k].id@ != note_id@,
        decreases n - i,
    {
        if str_eq(group.notes[i].id.as_str(), note_id) {
            proof {
                let ns = group.notes@;
                let k = choose|k: int|
                    0 <= k < ns.len() && ns[k].id@ == note_id@ && forall|j: int|
                        0 <= j < k ==> ns[j].id@ != note_id@;
                assert(ns[i as int].id@ == note_id@);
                assert(k == i as int) by {
                    if k < i {
                    } else if k > i {
                        assert(ns[i as int].id@ == note_id@);
                    }
                }
            }
            if !str_eq(group.notes[i].author_id.as_str(), caller) && !str_eq(
                group.created_by.as_str(),
                caller,
            ) {
                return Err(TeamderError::Forbidden("Not authorized".to_string()));
            }
            return Ok(());
        }
        i = i + 1;
    }
    Err(TeamderError::NotFound("Note not found".to_string()))
}

// ── Progress and completion ─────────────────────────────────────────────────

/// The creator moves an unfinished group to a week within its duration.
pub fn progress_check(group: &StudyGroup, caller: &str, current_week: u8) -> (r: Result<(), TeamderError>)
    ensures
        group.created_by@ != caller@ ==> fails_with(r, 403, "Not authorized"@),
        group.created_by@ == caller@ && group.status@ == "completed"@ ==> fails_with(
            r,
            409,
            "Study group is already completed"@,
        ),
        group.created_by@ == caller@ && group.status@ != "completed"@ && current_week
            > group.duration_weeks ==> fails_with(
            r,
            422,
            "current_week cannot exceed duration_weeks"@,
        ),
        group.created_by@ == caller@ && group.status@ != "completed"@ && current_week
            <= group.duration_weeks ==> r is Ok,
{
    creator_check(group, caller)?;
    if str_eq(group.status.as_str(), "completed") {
        return Err(TeamderError::Conflict("Study group is already completed".to_string()));
    }
    if current_week > group.duration_weeks {
        return Err(
            TeamderError::Validation("current_week cannot exceed duration_weeks".to_string()),
        );
    }
    Ok(())
}

/// The creator completes a group once.
pub fn complete_check(group: &StudyGroup, caller: &str) -> (r: Result<(), TeamderError>)
    ensures
        group.created_by@ != caller@ ==> fails_with(r, 403, "Not authorized"@),
        group.created_by@ == caller@ && group.status@ == "completed"@ ==> fails_with(
            r,
            409,
            "Study group is already completed"@,
        ),
        group.created_by@ == caller@ && group.status@ != "completed"@ ==> r is Ok,
{
    creator_check(group, caller)?;
    if str_eq(group.status.as_str(), "completed") {
        return Err(TeamderError::Conflict("Study group is already completed".to_string()));
    }
    Ok(())
}

/// Title of the notice sent to members when a group completes.
pub fn completion_title(group_name: &str) -> (t: String)
    ensures
        t@ == group_name@ + " is completed!"@,
{
    concat(group_name, " is completed!")
}

/// Body of the notice sent to members when a group completes.
pub fn completion_body(creator_name: &str, group_name: &str) -> (t: String)
    ensures
        t@ == creator_name@ + " marked \""@ + group_name@
            + "\" as completed. You can now leave reviews for your groupmates."@,
{
    let mut t = concat3(creator_name, " marked \"", group_name);
    t.append("\" as completed. You can now leave reviews for your groupmates.");
    t
}

/// Link to a study group page.
pub fn group_link(group_id: &str) -> (l: String)
    ensures
        l@ == "/study-groups/"@ + group_id@,
{
    concat("/study-groups/", group_id)
}

// ── Member names ────────────────────────────────────────────────────────────

/// The name looked up for `id` among `(id, name)` pairs (the last pair with
/// that id), empty when there is none.
pub open spec fn name_in(names: Seq<(String, String)>, id: Seq<char>) -> Seq<char>
    decreases names.len(),
{
    if names.len() == 0 {
        ""@
    } else if names.last().0@ == id {
        names.last().1@
    } else {
        name_in(names.drop_last(), id)
    }
}

/// The name of `id` among `(id, name)` pairs, empty when unknown.
pub fn lookup_name(names: &Vec<(String, String)>, id: &str) -> (r: String)
    ensures
        r@ == name_in(names@, id@),
{
    let mut i: usize = names.len();
    proof {
        assert(names@.take(i as int) =~= names@);
    }
    while i > 0
        invariant
            i <= names@.len(),
            name_in(names@, id@) == name_in(names@.take(i as int), id@),
        decreases i,
    {
        let k = i - 1;
        proof {
            assert(names@.take(i as int).drop_last() =~= names@.take(k as int));
        }
        if str_eq(names[k].0.as_str(), id) {
            return names[k].1.clone();
        }
        i = k;
    }
    proof {
        assert(names@.take(0) =~= Seq::<(String, String)>::empty());
    }
    "".to_string()
}

/// `e` is member `m` with the name `names` give their id.
pub open spec fn enriched_from(e: GroupMemberEnriched, m: GroupMember, names: Seq<(String, String)>) -> bool {
    &&& e.user_id == m.user_id
    &&& e.name@ == name_in(names, m.user_id@)
    &&& e.initials == m.initials
    &&& e.color == m.color
    &&& e.joined_at == m.joined_at
    &&& e.streak == m.streak
}

/// The members of a group with their names.
pub fn enriched_members(members: &Vec<GroupMember>, names: &Vec<(String, String)>) -> (r: Vec<GroupMemberEnriched>)
    ensures
        r@.len() == members@.len(),
        forall|i: int| 0 <= i < members@.len() ==> enriched_from(#[trigger] r@[i], members@[i], names@),
{
    let mut r: Vec<GroupMemberEnriched> = Vec::new();
    let n = members.len();
    let mut i: usize = 0;
    while i < n
        invariant
            n == members@.len(),
            i <= n,
            r@.len() == i,
            forall|k: int| 0 <= k < i ==> enriched_from(#[trigger] r@[k], members@[k], names@),
        decreases n - i,
    {
        let m = &members[i];
        let name = lookup_name(names, m.user_id.as_str());
        r.push(
            GroupMemberEnriched {
                user_id: m.user_id.clone(),
                name,
                initials: m.initials.clone(),
                color: m.color.clone(),
                joined_at: m.joined_at,
                streak: m.streak,
            },
        );
        i = i + 1;
    }
    r
}

// ── The groups of a user ────────────────────────────────────────────────────

/// Some group of `groups` has id `id`.
pub open spec fn has_group_id(groups: Seq<StudyGroup>, id: Seq<char>) -> bool {
    exists|i: int| 0 <= i < groups.len() && groups[i].id@ == id
}

/// The groups a user belongs to, followed by each group they created that is
/// not listed yet, in order.
pub open spec fn merged_groups(member_of: Seq<StudyGroup>, created: Seq<StudyGroup>) -> Seq<StudyGroup>
    decreases created.len(),
{
    if created.len() == 0 {
        member_of
    } else {
        let m = merged_groups(member_of, created.drop_last());
        if has_group_id(m, created.last().id@) {
            m
        } else {
            m.push(created.last())
        }
    }
}

/// Adds to the groups a user belongs to those they created and that are not
/// listed yet.
pub fn merge_created_groups(member_of: Vec<StudyGroup>, created: Vec<StudyGroup>) -> (r: Vec<StudyGroup>)
    ensures
        r@ == merged_groups(member_of@, created@),
{
    let mut all = member_of;
    let ghost base = all@;
    let mut rest = created;
    let ghost orig = rest@;
    let total = rest.len();
    let mut i: usize = 0;
    while i < total
        invariant
            total == orig.len(),
            i <= orig.len(),
            rest@ == orig.skip(i as int),
            all@ == merged_groups(base, orig.take(i as int)),
        decreases total - i,
    {
        let g = rest.remove(0);
        proof {
            assert(g == orig[i as int]);
            assert(orig.take(i as int + 1).drop_last() =~= orig.take(i as int));
            assert(orig.take(i as int + 1).last() == g);
            assert(rest@ =~= orig.skip(i as int + 1));
        }
        let n = all.len();
        let mut j: usize = 0;
        let mut found = false;
        while j < n
            invariant
                n == all@.len(),
                j <= n,
                !found ==> forall|k: int| 0 <= k < j ==> all@[k].id@ != g.id@,
                found ==> has_group_id(all@, g.id@),
            decreases n - j,
        {
            if str_eq(all[j].id.as_str(), g.id.as_str()) {
                found = true;
            }
            j = j + 1;
        }
        if !found {
            all.push(g);
        }
        i = i + 1;
    }
    proof {
        assert(orig.take(orig.len() as int) =~= orig);
    }
    all
}

} // verus!

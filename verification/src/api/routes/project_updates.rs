use vstd::prelude::*;
use crate::error::{TeamderError, fails_with};
use crate::models::notification::Notification;
use crate::models::project::{Project, TeamMember};
use crate::models::project_update::ProjectUpdate;
use crate::text::{concat, str_eq, string_of};

verus! {

// ── DTOs ────────────────────────────────────────────────────────────────────

/// Body of a new project update.
pub struct CreateUpdateBody {
    pub kind: String,
    pub title: String,
    pub body: Option<String>,
}

/// Acknowledgement of a successful action.
pub struct SuccessResponse {
    pub success: bool,
}

// ── Posting ─────────────────────────────────────────────────────────────────

/// `user` is on the team of the project.
pub open spec fn on_team(team: Seq<TeamMember>, user: Seq<char>) -> bool {
    exists|i: int| 0 <= i < team.len() && team[i].user_id@ == user
}

/// Only team members post updates.
pub fn post_update_check(project: &Project, caller: &str) -> (r: Result<(), TeamderError>)
    ensures
        on_team(project.team@, caller@) ==> r is Ok,
        !on_team(project.team@, caller@) ==> fails_with(r, 403, "Only team members can post updates"@),
{
    let n = project.team.len();
    let mut i: usize = 0;
    while i < n
        invariant
            n == project.team@.len(),
            i <= n,
            forall|k: int| 0 <= k < i ==> project.team@[k].user_id@ != caller@,
        decreases n - i,
    {
        if str_eq(project.team[i].user_id.as_str(), caller) {
            return Ok(());
        }
        i = i + 1;
    }
    Err(TeamderError::Forbidden("Only team members can post updates".to_string()))
}

/// The update a member posts: body empty when none is given.
pub fn new_update(
    id: String,
    project_id: &str,
    author_id: &str,
    author_name: &str,
    req: CreateUpdateBody,
    now: i64,
) -> (u: ProjectUpdate)
    ensures
        u.id == id,
        u.project_id@ == project_id@,
        u.author_id@ == author_id@,
        u.author_name@ == author_name@,
        u.kind == req.kind,
        u.title == req.title,
        u.body@ == (match req.body {
            Some(b) => b@,
            None => Seq::<char>::empty(),
        }),
        u.created_at == now,
{
    ProjectUpdate {
        id,
        project_id: string_of(project_id),
        author_id: string_of(author_id),
        author_name: string_of(author_name),
        kind: req.kind,
        title: req.title,
        body: match req.body {
            Some(b) => b,
            None => String::new(),
        },
        created_at: now,
    }
}

/// The team members other than the author, in team order: those told of a
/// new update.
pub open spec fn others(team: Seq<TeamMember>, author: Seq<char>) -> Seq<TeamMember> {
    team.filter(|m: TeamMember| m.user_id@ != author)
}

/// The ids of the members to notify of a new update.
pub fn update_recipients(team: &Vec<TeamMember>, author: &str) -> (r: Vec<String>)
    ensures
        r@.len() == others(team@, author@).len(),
        forall|i: int| 0 <= i < r@.len() ==> #[trigger] r@[i] == others(team@, author@)[i].user_id,
{
    let mut r: Vec<String> = Vec::new();
    let n = team.len();
    let mut i: usize = 0;
    while i < n
        invariant
            n == team@.len(),
            i <= n,
            r@.len() == others(team@.take(i as int), author@).len(),
            forall|k: int|
                0 <= k < r@.len() ==> #[trigger] r@[k] == others(team@.take(i as int), author@)[k].user_id,
        decreases n - i,
    {
        proof {
            assert(team@.take(i + 1) == team@.take(i as int).push(team@[i as int]));
            team@.take(i as int).lemma_filter_push(team@[i as int], |m: TeamMember| m.user_id@ != author@);
        }
        if !str_eq(team[i].user_id.as_str(), author) {
            r.push(team[i].user_id.clone());
        }
        i = i + 1;
    }
    proof {
        assert(team@.take(n as int) == team@);
    }
    r
}

/// The notice a member receives about a new update.
pub fn update_notification(
    id: String,
    user_id: String,
    project_id: &str,
    project_name: &str,
    update_title: &str,
    now: i64,
) -> (n: Notification)
    ensures
        n.id == id,
        n.user_id == user_id,
        n.kind@ == "project_update"@,
        n.title@ == "New update in "@ + project_name@,
        n.body@ == update_title@,
        n.link matches Some(l) && l@ == "/projects/"@ + project_id@,
        !n.read,
        n.created_at == now,
{
    Notification {
        id,
        user_id,
        kind: "project_update".to_string(),
        title: concat("New update in ", project_name),
        body: string_of(update_title),
        link: Some(concat("/projects/", project_id)),
        read: false,
        created_at: now,
    }
}

// ── Deleting ────────────────────────────────────────────────────────────────

/// `id` names an update of the list.
pub open spec fn has_update(updates: Seq<ProjectUpdate>, id: Seq<char>) -> bool {
    exists|i: int| 0 <= i < updates.len() && updates[i].id@ == id
}

/// The author of the first update named `id`.
pub open spec fn update_author(updates: Seq<ProjectUpdate>, id: Seq<char>) -> Seq<char> {
    let i = choose|i: int|
        0 <= i < updates.len() && updates[i].id@ == id && forall|j: int|
            0 <= j < i ==> updates[j].id@ != id;
    updates[i].author_id@
}

/// Its author or the project lead deletes an update.
pub fn delete_update_check(updates: &Vec<ProjectUpdate>, update_id: &str, lead_user_id: &str, caller: &str) -> (r: Result<(), TeamderError>)
    ensures
        !has_update(updates@, update_id@) ==> fails_with(r, 404, "Update not found"@),
        has_update(updates@, update_id@) ==> (if update_author(updates@, update_id@) == caller@
            || lead_user_id@ == caller@ {
            r is Ok
        } else {
            fails_with(r, 403, "Not authorized to delete this update"@)
        }),
{
    let n = updates.len();
    let mut i: usize = 0;
    while i < n
        invariant
            n == updates@.len(),
            i <= n,
            forall|k: int| 0 <= k < i ==> updates@[k].id@ != update_id@,
        decreases n - i,
    {
        if str_eq(updates[i].id.as_str(), update_id) {
            proof {
                let us = updates@;
                let k = choose|k: int|
                    0 <= k < us.len() && us[k].id@ == update_id@ && forall|j: int|
                        0 <= j < k ==> us[j].id@ != update_id@;
                assert(us[i as int].id@ == update_id@);
                assert(k == i as int) by {
                    if k < i {
                    } else if k > i {
                        assert(us[i as int].id@ == update_id@);
                    }
                }
            }
            if !str_eq(updates[i].author_id.as_str(), caller) && !str_eq(lead_user_id, caller) {
                return Err(TeamderError::Forbidden("Not authorized to delete this update".to_string()));
            }
            return Ok(());
        }
        i = i + 1;
    }
    Err(TeamderError::NotFound("Update not found".to_string()))
}

} // verus!

use vstd::prelude::*;
use crate::error::{TeamderError, fails_with};
use crate::models::study_group::StudyGroup;
use crate::models::study_group_event::{CreateEventBody, StudyGroupEvent};
use crate::api::routes::study_groups::{in_group, is_group_member};
use crate::text::str_eq;

verus! {

/// `user` is the creator of the group or one of its admins.
pub open spec fn moderates(admins: Seq<String>, created_by: Seq<char>, user: Seq<char>) -> bool {
    created_by == user || exists|i: int| 0 <= i < admins.len() && admins[i]@ == user
}

/// Whether `user_id` created the group or is one of its admins.
pub fn is_admin_or_creator(group_admins: &[String], created_by: &str, user_id: &str) -> (r: bool)
    ensures
        r == moderates(group_admins@, created_by@, user_id@),
{
    if str_eq(created_by, user_id) {
        return true;
    }
    let n = group_admins.len();
    let mut i: usize = 0;
    while i < n
        invariant
            n == group_admins@.len(),
            i <= n,
            forall|k: int| 0 <= k < i ==> group_admins@[k]@ != user_id@,
        decreases n - i,
    {
        if str_eq(group_admins[i].as_str(), user_id) {
            return true;
        }
        i = i + 1;
    }
    false
}

/// Only the creator and the admins of a group create or delete its events.
pub fn event_manage_check(group: &StudyGroup, caller: &str) -> (r: Result<(), TeamderError>)
    ensures
        moderates(group.admins@, group.created_by@, caller@) ==> r is Ok,
        !moderates(group.admins@, group.created_by@, caller@) ==> fails_with(r, 403, "Not authorized"@),
{
    if is_admin_or_creator(group.admins.as_slice(), group.created_by.as_str(), caller) {
        Ok(())
    } else {
        Err(TeamderError::Forbidden("Not authorized".to_string()))
    }
}

/// The event a moderator schedules: a new event with the end time and
/// description of the body.
pub fn new_event(group_id: &str, author_id: &str, author_name: &str, body: CreateEventBody) -> (e: StudyGroupEvent)
    ensures
        e.group_id@ == group_id@,
        e.author_id@ == author_id@,
        e.author_name@ == author_name@,
        e.title@ == body.title@,
        e.location@ == body.location@,
        e.starts_at == body.starts_at,
        e.ends_at == body.ends_at,
        e.description == body.description,
        e.attendees@.len() == 0,
{
    let mut event = StudyGroupEvent::new(
        group_id,
        author_id,
        author_name,
        body.title.as_str(),
        body.location.as_str(),
        body.starts_at,
    );
    event.ends_at = body.ends_at;
    event.description = body.description;
    event
}

/// `user` is among the attendees.
pub open spec fn attends(attendees: Seq<String>, user: Seq<char>) -> bool {
    exists|i: int| 0 <= i < attendees.len() && attendees[i]@ == user
}

/// An RSVP toggles attendance: members only; the result is whether the
/// caller attends afterwards, that is whether they did not attend before.
pub fn rsvp_decision(group: &StudyGroup, event: &StudyGroupEvent, caller: &str) -> (r: Result<bool, TeamderError>)
    ensures
        !in_group(group.created_by@, group.members@, caller@) ==> fails_with(r, 403, "Not authorized"@),
        in_group(group.created_by@, group.members@, caller@) ==> r == Ok::<bool, TeamderError>(
            !attends(event.attendees@, caller@),
        ),
{
    if !is_group_member(group, caller) {
        return Err(TeamderError::Forbidden("Not authorized".to_string()));
    }
    let n = event.attendees.len();
    let mut i: usize = 0;
    while i < n
        invariant
            n == event.attendees@.len(),
            i <= n,
            in_group(group.created_by@, group.members@, caller@),
            forall|k: int| 0 <= k < i ==> event.attendees@[k]@ != caller@,
        decreases n - i,
    {
        if str_eq(event.attendees[i].as_str(), caller) {
            return Ok(false);
        }
        i = i + 1;
    }
    Ok(true)
}

} // verus!

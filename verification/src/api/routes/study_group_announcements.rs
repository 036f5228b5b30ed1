use vstd::prelude::*;
use crate::error::{TeamderError, fails_with};
use crate::models::study_group::StudyGroup;
use crate::models::study_group_announcement::{CreateAnnouncementBody, StudyGroupAnnouncement};
use crate::text::str_eq;

verus! {

/// `user` is the creator of the group or one of its admins.
pub open spec fn moderates(admins: Seq<String>, created_by: Seq<char>, user: Seq<char>) -> bool {
    created_by == user || exists|i: int| 0 <= i < admins.len() && admins[i]@ == user
}

/// Whether `user_id` created the group or is one of its admins.
pub fn is_admin_or_creator(group_admins: &[String], created_by: &str, user_id: &str) -> (r: bool)
    ensures
        r == moderates(group_admins@, created_by@, user_id@),
{
    if str_eq(created_by, user_id) {
        return true;
    }
    let n = group_admins.len();
    let mut i: usize = 0;
    while i < n
        invariant
            n == group_admins@.len(),
            i <= n,
            forall|k: int| 0 <= k < i ==> group_admins@[k]@ != user_id@,
        decreases n - i,
    {
        if str_eq(group_admins[i].as_str(), user_id) {
            return true;
        }
        i = i + 1;
    }
    false
}

/// Only the creator and the admins of a group manage its announcements.
pub fn announcement_manage_check(group: &StudyGroup, caller: &str) -> (r: Result<(), TeamderError>)
    ensures
        moderates(group.admins@, group.created_by@, caller@) ==> r is Ok,
        !moderates(group.admins@, group.created_by@, caller@) ==> fails_with(r, 403, "Not authorized"@),
{
    if is_admin_or_creator(group.admins.as_slice(), group.created_by.as_str(), caller) {
        Ok(())
    } else {
        Err(TeamderError::Forbidden("Not authorized".to_string()))
    }
}

/// The announcement a moderator posts: a new announcement, pinned as the body asks.
pub fn new_announcement(group_id: &str, author_id: &str, author_name: &str, body: &CreateAnnouncementBody) -> (a: StudyGroupAnnouncement)
    ensures
        a.group_id@ == group_id@,
        a.author_id@ == author_id@,
        a.author_name@ == author_name@,
        a.title@ == body.title@,
        a.content@ == body.content@,
        a.pinned == body.pinned,
{
    let mut ann = StudyGroupAnnouncement::new(
        group_id,
        author_id,
        author_name,
        body.title.as_str(),
        body.content.as_str(),
    );
    ann.pinned = body.pinned;
    ann
}

} // verus!

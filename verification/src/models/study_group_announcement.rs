use vstd::prelude::*;
use crate::clock::{new_uuid, now_millis, timestamp_in_range};

verus! {

/// An announcement posted in a study group.
pub struct StudyGroupAnnouncement {
    pub id: String,
    pub group_id: String,
    pub author_id: String,
    pub author_name: String,
    pub title: String,
    pub content: String,
    pub pinned: bool,
    pub created_at: i64,
}

impl StudyGroupAnnouncement {
    /// A new, unpinned announcement created now.
    pub fn new(group_id: &str, author_id: &str, author_name: &str, title: &str, content: &str) -> (r: Self)
        ensures
            r.group_id@ == group_id@,
            r.author_id@ == author_id@,
            r.author_name@ == author_name@,
            r.title@ == title@,
            r.content@ == content@,
            !r.pinned,
            r.id@.len() == 36,
            timestamp_in_range(r.created_at),
    {
        StudyGroupAnnouncement {
            id: new_uuid(),
            group_id: group_id.to_string(),
            author_id: author_id.to_string(),
            author_name: author_name.to_string(),
            title: title.to_string(),
            content: content.to_string(),
            pinned: false,
            created_at: now_millis(),
        }
    }
}

/// Body of an announcement.
pub struct CreateAnnouncementBody {
    pub title: String,
    pub content: String,
    pub pinned: bool,
}

} // verus!

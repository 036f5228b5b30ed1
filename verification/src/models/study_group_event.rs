use vstd::prelude::*;
use crate::clock::{new_uuid, now_millis, timestamp_in_range};

verus! {

/// A scheduled meeting of a study group.
pub struct StudyGroupEvent {
    pub id: String,
    pub group_id: String,
    pub author_id: String,
    pub author_name: String,
    pub title: String,
    pub location: String,
    pub starts_at: i64,
    pub ends_at: Option<i64>,
    pub description: Option<String>,
    /// user_ids of members who have RSVP'd
    pub attendees: Vec<String>,
    pub created_at: i64,
}

impl StudyGroupEvent {
    /// A new event without end time, description or attendees, created now.
    pub fn new(
        group_id: &str,
        author_id: &str,
        author_name: &str,
        title: &str,
        location: &str,
        starts_at: i64,
    ) -> (r: Self)
        ensures
            r.group_id@ == group_id@,
            r.author_id@ == author_id@,
            r.author_name@ == author_name@,
            r.title@ == title@,
            r.location@ == location@,
            r.starts_at == starts_at,
            r.ends_at is None,
            r.description is None,
            r.attendees@.len() == 0,
            r.id@.len() == 36,
            timestamp_in_range(r.created_at),
    {
        StudyGroupEvent {
            id: new_uuid(),
            group_id: group_id.to_string(),
            author_id: author_id.to_string(),
            author_name: author_name.to_string(),
            title: title.to_string(),
            location: location.to_string(),
            starts_at,
            ends_at: None,
            description: None,
            attendees: Vec::new(),
            created_at: now_millis(),
        }
    }
}

/// Body of an event creation.
pub struct CreateEventBody {
    pub title: String,
    pub location: String,
    pub starts_at: i64,
    pub ends_at: Option<i64>,
    pub description: Option<String>,
}

} // verus!

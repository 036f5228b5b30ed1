use vstd::prelude::*;

verus! {

/// A post in a project's update feed.
pub struct ProjectUpdate {
    pub id: String,
    pub project_id: String,
    pub author_id: String,
    pub author_name: String,
    /// progress | milestone | announcement | help_wanted
    pub kind: String,
    pub title: String,
    pub body: String,
    pub created_at: i64,
}

} // verus!

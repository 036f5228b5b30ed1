use vstd::prelude::*;

verus! {

/// A member of a study group, with their check-in streak.
pub struct GroupMember {
    pub user_id: String,
    pub initials: String,
    pub color: String,
    pub joined_at: i64,
    pub last_checkin: Option<i64>,
    pub streak: u32,
}

/// A note shared in a study group.
pub struct StudyNote {
    pub id: String,
    pub author_id: String,
    pub author_name: String,
    pub title: String,
    pub body: String,
    pub created_at: i64,
}

/// A study group.
pub struct StudyGroup {
    pub id: String,
    pub name: String,
    pub goal: String,
    pub icon: String,
    pub icon_bg: String,
    pub subject: String,
    pub tags: Vec<String>,
    pub members: Vec<GroupMember>,
    pub max_members: u8,
    pub schedule: String,
    pub duration_weeks: u8,
    pub current_week: u8,
    pub is_open: bool,
    /// active | completed
    pub status: String,
    pub join_mode: String,
    pub banner_image: Option<String>,
    pub notes: Vec<StudyNote>,
    pub description: Option<String>,
    /// Members the creator made group admins.
    pub admins: Vec<String>,
    pub created_by: String,
    pub created_at: i64,
    pub updated_at: i64,
}

/// Icon of a group stored without one.
pub fn default_sg_icon() -> (s: String)
    ensures
        s@ == "Sg"@,
{
    "Sg".to_string()
}

/// Subject of a group stored without one.
pub fn default_subject() -> (s: String)
    ensures
        s@ == "General"@,
{
    "General".to_string()
}

/// Size limit of a group stored without one.
pub fn default_max_members() -> (n: u8)
    ensures
        n == 6,
{
    6
}

/// Current week of a group stored without one.
pub fn default_one() -> (n: u8)
    ensures
        n == 1,
{
    1
}

/// Openness of a group stored without one.
pub fn default_true() -> (b: bool)
    ensures
        b,
{
    true
}

/// Status of a group stored without one.
pub fn default_active() -> (s: String)
    ensures
        s@ == "active"@,
{
    "active".to_string()
}

/// Join mode of a group stored without one.
pub fn default_join_mode() -> (s: String)
    ensures
        s@ == "direct"@,
{
    "direct".to_string()
}

} // verus!

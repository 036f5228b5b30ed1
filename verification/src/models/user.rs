use vstd::prelude::*;

verus! {

/// A skill on a profile with a self-assessed level from 0 to 100.
pub struct Skill {
    pub name: String,
    pub level: u8,
}

/// An item of a profile's portfolio.
pub struct PortfolioItem {
    pub title: String,
    pub kind: String,
    pub description: Option<String>,
    pub url: Option<String>,
}

/// A link to another profile of the user.
pub struct SocialLink {
    pub label: String,
    pub url: String,
}

/// A review cached on the reviewee's profile for fast display.
pub struct CachedReview {
    pub reviewer_id: String,
    pub reviewer_name: String,
    pub project_name: String,
    pub stars: u8,
    pub body: String,
    pub created_at: i64,
}

/// University of a profile stored without one.
pub fn default_university() -> (s: String)
    ensures
        s@ == "Fu Jen Catholic University"@,
{
    "Fu Jen Catholic University".to_string()
}

/// Year of study of a profile stored without one.
pub fn default_year() -> (s: String)
    ensures
        s@ == "N/A"@,
{
    "N/A".to_string()
}

/// Languages of a profile stored without any.
pub fn default_languages() -> (v: Vec<String>)
    ensures
        v@.len() == 2,
        v@[0]@ == "Chinese"@,
        v@[1]@ == "English"@,
{
    let mut v: Vec<String> = Vec::new();
    v.push("Chinese".to_string());
    v.push("English".to_string());
    v
}

/// Notification preferences and visibility of a profile stored without them.
pub fn default_true() -> (b: bool)
    ensures
        b,
{
    true
}

/// Registration / create-user payload.
pub struct CreateUserRequest {
    pub email: String,
    pub password: String,
    pub name: String,
    pub role: Option<String>,
    pub department: Option<String>,
    pub university: Option<String>,
    pub year: Option<String>,
    pub bio: Option<Vec<String>>,
    pub skills: Option<Vec<Skill>>,
    pub skill_tags: Option<Vec<String>>,
    pub languages: Option<Vec<String>>,
    pub interests: Option<Vec<String>>,
}

/// Partial-update payload — every field optional.
pub struct UpdateUserRequest {
    pub name: Option<String>,
    pub initials: Option<String>,
    pub role: Option<String>,
    pub department: Option<String>,
    pub university: Option<String>,
    pub year: Option<String>,
    pub location: Option<String>,
    pub bio: Option<Vec<String>>,
    pub skills: Option<Vec<Skill>>,
    pub skill_tags: Option<Vec<String>>,
    pub gradient: Option<String>,
    pub work_mode: Option<String>,
    pub availability: Option<String>,
    pub hours_per_week: Option<String>,
    pub languages: Option<Vec<String>>,
    pub portfolio: Option<Vec<PortfolioItem>>,
    pub avatar_url: Option<String>,
    pub resume_url: Option<String>,
    pub is_public: Option<bool>,
    pub onboarded: Option<bool>,
    pub headline: Option<String>,
    pub notify_email: Option<bool>,
    pub notify_in_app: Option<bool>,
    pub social_links: Option<Vec<SocialLink>>,
    pub interests: Option<Vec<String>>,
    pub timezone: Option<String>,
    pub goals: Option<String>,
    pub free_days: Option<Vec<String>>,
    pub password: Option<String>,
}

} // verus!

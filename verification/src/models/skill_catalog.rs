use vstd::prelude::*;

verus! {

/// Persisted skill category (collection `skill_categories`).
pub struct StoredSkillCategory {
    /// Key string, e.g. "frontend", "backend".
    pub id: String,
    pub label: String,
    pub label_zh: String,
    pub order: i32,
    pub created_at: i64,
    pub updated_at: i64,
}

/// Persisted skill tag (collection `skill_tags`).
pub struct StoredSkillTag {
    pub id: String,
    pub name: String,
    pub name_zh: String,
    pub category_key: String,
    pub order: i32,
    pub is_active: bool,
    pub created_at: i64,
    pub updated_at: i64,
}

/// A stored tag without an `is_active` flag is active.
pub fn default_true() -> (b: bool)
    ensures
        b,
{
    true
}

} // verus!

use vstd::prelude::*;
use crate::models::skill_catalog::{StoredSkillCategory, StoredSkillTag};

verus! {

/// The stored skill catalog: its categories and tags.
pub struct SkillCatalogResponse {
    pub categories: Vec<StoredSkillCategory>,
    pub tags: Vec<StoredSkillTag>,
}

} // verus!

use vstd::prelude::*;
use crate::models::skill_catalog::{StoredSkillCategory, StoredSkillTag};
use crate::api::routes::changes::{
    FieldChange, flag_change, int_change, push_flag, push_int, push_text, push_time, text_change,
    time_change,
};

verus! {

// ── DTOs ────────────────────────────────────────────────────────────────────

/// Body of a new skill category.
pub struct CreateCategoryBody {
    pub key: String,
    pub label: String,
    pub label_zh: String,
    pub order: Option<i32>,
}

/// Partial update of a skill category.
pub struct UpdateCategoryBody {
    pub label: Option<String>,
    pub label_zh: Option<String>,
    pub order: Option<i32>,
}

/// Body of a new skill tag.
pub struct CreateTagBody {
    pub name: String,
    pub name_zh: String,
    pub category_key: String,
    pub order: Option<i32>,
    pub is_active: Option<bool>,
}

/// Partial update of a skill tag.
pub struct UpdateTagBody {
    pub name: Option<String>,
    pub name_zh: Option<String>,
    pub category_key: Option<String>,
    pub order: Option<i32>,
    pub is_active: Option<bool>,
}

/// Acknowledgement of a successful action.
pub struct SuccessResponse {
    pub success: bool,
}

// ── Creating ────────────────────────────────────────────────────────────────

/// A category keyed by the body's key, ordered first unless told otherwise.
pub fn new_category(req: CreateCategoryBody, now: i64) -> (c: StoredSkillCategory)
    ensures
        c.id == req.key,
        c.label == req.label,
        c.label_zh == req.label_zh,
        c.order == (match req.order {
            Some(o) => o,
            None => 0,
        }),
        c.created_at == now,
        c.updated_at == now,
{
    StoredSkillCategory {
        id: req.key,
        label: req.label,
        label_zh: req.label_zh,
        order: match req.order {
            Some(o) => o,
            None => 0,
        },
        created_at: now,
        updated_at: now,
    }
}

/// A tag, active and ordered first unless told otherwise.
pub fn new_tag(id: String, req: CreateTagBody, now: i64) -> (t: StoredSkillTag)
    ensures
        t.id == id,
        t.name == req.name,
        t.name_zh == req.name_zh,
        t.category_key == req.category_key,
        t.order == (match req.order {
            Some(o) => o,
            None => 0,
        }),
        t.is_active == (match req.is_active {
            Some(b) => b,
            None => true,
        }),
        t.created_at == now,
        t.updated_at == now,
{
    StoredSkillTag {
        id,
        name: req.name,
        name_zh: req.name_zh,
        category_key: req.category_key,
        order: match req.order {
            Some(o) => o,
            None => 0,
        },
        is_active: match req.is_active {
            Some(b) => b,
            None => true,
        },
        created_at: now,
        updated_at: now,
    }
}

// ── Updating ────────────────────────────────────────────────────────────────

/// The fields a category update sets, then its update time.
pub open spec fn category_changes_of(req: UpdateCategoryBody, now: i64) -> Seq<FieldChange> {
    text_change("label", req.label) + text_change("label_zh", req.label_zh) + int_change(
        "order",
        req.order,
    ) + time_change(now)
}

/// The fields a category update sets.
pub fn category_changes(req: UpdateCategoryBody, now: i64) -> (r: Vec<FieldChange>)
    ensures
        r@ == category_changes_of(req, now),
{
    let ghost g = req;
    let mut r: Vec<FieldChange> = Vec::new();
    push_text(&mut r, "label", req.label);
    push_text(&mut r, "label_zh", req.label_zh);
    push_int(&mut r, "order", req.order);
    push_time(&mut r, now);
    proof {
        assert(r@ =~= category_changes_of(g, now));
    }
    r
}

/// The fields a tag update sets, then its update time.
pub open spec fn tag_changes_of(req: UpdateTagBody, now: i64) -> Seq<FieldChange> {
    text_change("name", req.name) + text_change("name_zh", req.name_zh) + text_change(
        "category_key",
        req.category_key,
    ) + int_change("order", req.order) + flag_change("is_active", req.is_active) + time_change(now)
}

/// The fields a tag update sets.
pub fn tag_changes(req: UpdateTagBody, now: i64) -> (r: Vec<FieldChange>)
    ensures
        r@ == tag_changes_of(req, now),
{
    let ghost g = req;
    let mut r: Vec<FieldChange> = Vec::new();
    push_text(&mut r, "name", req.name);
    push_text(&mut r, "name_zh", req.name_zh);
    push_text(&mut r, "category_key", req.category_key);
    push_int(&mut r, "order", req.order);
    push_flag(&mut r, "is_active", req.is_active);
    push_time(&mut r, now);
    proof {
        assert(r@ =~= tag_changes_of(g, now));
    }
    r
}

} // verus!

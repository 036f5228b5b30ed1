use vstd::prelude::*;
use crate::error::{TeamderError, fails_with};
use crate::text::{str_eq, string_of};

verus! {

// ── DTOs ────────────────────────────────────────────────────────────────────

/// One hit of a search.
pub struct SearchResultItem {
    /// user | project | competition | study_group
    pub kind: String,
    pub id: String,
    pub name: String,
    pub description: Option<String>,
    pub icon: Option<String>,
}

/// The hits of a search.
pub struct SearchResponse {
    pub results: Vec<SearchResultItem>,
}

// ── Query ───────────────────────────────────────────────────────────────────

/// A search needs a non-empty query; each source is asked for up to `limit`
/// hits (20 by default).
pub fn search_params(q: &str, limit: Option<i64>) -> (r: Result<i64, TeamderError>)
    ensures
        q@.len() == 0 ==> fails_with(r, 422, "Query parameter q is required"@),
        q@.len() > 0 ==> r == Ok::<i64, TeamderError>(
            match limit {
                Some(l) => l,
                None => 20,
            },
        ),
{
    if q.unicode_len() == 0 {
        return Err(TeamderError::Validation("Query parameter q is required".to_string()));
    }
    Ok(
        match limit {
            Some(l) => l,
            None => 20,
        },
    )
}

/// Whether results of `kind` are wanted: always without a filter, else when
/// the filter names that kind.
pub fn searches_kind(filter: Option<&str>, kind: &str) -> (r: bool)
    ensures
        r == match filter {
            Some(f) => f@ == kind@,
            None => true,
        },
{
    match filter {
        Some(f) => str_eq(f, kind),
        None => true,
    }
}

// ── Hits ────────────────────────────────────────────────────────────────────

/// A user hit: headline as description, avatar as icon.
pub fn user_hit(id: String, name: String, headline: Option<String>, avatar_url: Option<String>) -> (h: SearchResultItem)
    ensures
        h.kind@ == "user"@,
        h.id == id,
        h.name == name,
        h.description == headline,
        h.icon == avatar_url,
{
    SearchResultItem { kind: "user".to_string(), id, name, description: headline, icon: avatar_url }
}

/// A project hit.
pub fn project_hit(id: String, name: String, description: String, icon: String) -> (h: SearchResultItem)
    ensures
        h.kind@ == "project"@,
        h.id == id,
        h.name == name,
        h.description == Some(description),
        h.icon == Some(icon),
{
    SearchResultItem {
        kind: "project".to_string(),
        id,
        name,
        description: Some(description),
        icon: Some(icon),
    }
}

/// A competition hit.
pub fn competition_hit(id: String, name: String, description: String, icon: String) -> (h: SearchResultItem)
    ensures
        h.kind@ == "competition"@,
        h.id == id,
        h.name == name,
        h.description == Some(description),
        h.icon == Some(icon),
{
    SearchResultItem {
        kind: "competition".to_string(),
        id,
        name,
        description: Some(description),
        icon: Some(icon),
    }
}

/// A study group hit.
pub fn study_group_hit(id: String, name: String, description: Option<String>, icon: String) -> (h: SearchResultItem)
    ensures
        h.kind@ == "study_group"@,
        h.id == id,
        h.name == name,
        h.description == description,
        h.icon == Some(icon),
{
    SearchResultItem {
        kind: "study_group".to_string(),
        id,
        name,
        description,
        icon: Some(icon),
    }
}

/// The hits kept: the first `limit` (read as an unsigned size) of all
/// sources' hits, in order.
pub fn limit_results(results: Vec<SearchResultItem>, limit: i64) -> (r: Vec<SearchResultItem>)
    ensures
        r@ == (if (limit as usize) < results@.len() {
            results@.take(limit as usize as int)
        } else {
            results@
        }),
{
    let mut results = results;
    let n = limit as usize;
    results.truncate(n);
    results
}

/// A search never returns more hits than a non-negative limit.
pub proof fn law_search_bounded(results: Seq<SearchResultItem>, limit: i64)
    requires
        0 <= limit,
    ensures
        (if (limit as usize) < results.len() {
            results.take(limit as usize as int)
        } else {
            results
        }).len() <= limit,
{
}

} // verus!

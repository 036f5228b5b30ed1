use vstd::prelude::*;
use crate::api::routes::study_groups::group_page_limit;
use crate::error::{TeamderError, fails_with};
use crate::models::auth_code::AuthCode;
use crate::models::competition_team::CompetitionTeam;
use crate::models::user::{Skill, UpdateUserRequest};
use crate::skills::{filter_valid_skills, is_known_skill};
use crate::text::{concat, eq_ascii_ci, eq_ignore_ascii_case, str_eq, string_of, trim, trimmed};
use vstd::utf8::encode_utf8;

verus! {

// ── Listing ─────────────────────────────────────────────────────────────────

/// Page size (20 by default, at most 100) and offset of a user listing.
pub fn user_list_params(limit: Option<i64>, skip: Option<u64>) -> (r: (i64, u64))
    ensures
        r.0 == group_page_limit(limit),
        r.1 == (match skip {
            Some(s) => s,
            None => 0,
        }),
{
    let l = match limit {
        Some(l) => l,
        None => 20,
    };
    let limit = if l < 100 {
        l
    } else {
        100
    };
    (
        limit,
        match skip {
            Some(s) => s,
            None => 0,
        },
    )
}

/// Where the match score shown for a user comes from.
pub enum ScoreSource {
    /// No viewer: the score is 0.
    Zero,
    /// The viewer looks at themselves: the stored score stays.
    Stored,
    /// Another viewer: the score is computed between the two.
    Computed,
}

/// The source of the match score a viewer sees for a target.
pub fn score_source(viewer_id: Option<&str>, target_id: &str) -> (s: ScoreSource)
    ensures
        viewer_id is None ==> s is Zero,
        viewer_id matches Some(v) && v@ == target_id@ ==> s is Stored,
        viewer_id matches Some(v) && v@ != target_id@ ==> s is Computed,
{
    match viewer_id {
        None => ScoreSource::Zero,
        Some(v) => if str_eq(v, target_id) {
            ScoreSource::Stored
        } else {
            ScoreSource::Computed
        },
    }
}

/// Position `a` comes before position `b` when ranking by score: a higher
/// score first, equal scores in their original order.
pub open spec fn ranks_before(scores: Seq<u8>, a: int, b: int) -> bool {
    scores[a] > scores[b] || (scores[a] == scores[b] && a < b)
}

/// `order` lists every position of `scores` once, best match first (the
/// stable descending sort).
pub open spec fn is_ranking(scores: Seq<u8>, order: Seq<usize>) -> bool {
    &&& order.len() == scores.len()
    &&& order.no_duplicates()
    &&& forall|k: int| 0 <= k < order.len() ==> #[trigger] order[k] < scores.len()
    &&& forall|a: int, b: int|
        0 <= a < b < order.len() ==> ranks_before(scores, #[trigger] order[a] as int, #[trigger] order[b] as int)
}

/// The order in which users are listed to a signed-in viewer: by match score,
/// highest first, ties in their original order.
pub fn rank_by_score(scores: &Vec<u8>) -> (order: Vec<usize>)
    ensures
        is_ranking(scores@, order@),
{
    let n = scores.len();
    let mut order: Vec<usize> = Vec::new();
    let mut i: usize = 0;
    while i < n
        invariant
            n == scores@.len(),
            i <= n,
            order@.len() == i,
            order@.no_duplicates(),
            forall|k: int| 0 <= k < order@.len() ==> #[trigger] order@[k] < i,
            forall|a: int, b: int|
                0 <= a < b < order@.len() ==> ranks_before(
                    scores@,
                    #[trigger] order@[a] as int,
                    #[trigger] order@[b] as int,
                ),
        decreases n - i,
    {
        let s = scores[i];
        let mut p: usize = 0;
        while p < order.len() && scores[order[p]] >= s
            invariant
                n == scores@.len(),
                i < n,
                s == scores@[i as int],
                p <= order@.len(),
                forall|k: int| 0 <= k < order@.len() ==> #[trigger] order@[k] < i,
                forall|k: int| 0 <= k < p ==> scores@[#[trigger] order@[k] as int] >= s,
            decreases order@.len() - p,
        {
            p = p + 1;
        }
        proof {
            assert forall|k: int| p <= k < order@.len() implies scores@[#[trigger] order@[k] as int] < s by {
                if p < order@.len() && k > p {
                    assert(ranks_before(scores@, order@[p as int] as int, order@[k] as int));
                }
            }
        }
        let ghost old_order = order@;
        order.insert(p, i);
        proof {
            assert(order@ == old_order.insert(p as int, i));
            assert forall|k: int| 0 <= k < order@.len() implies #[trigger] order@[k] < i + 1 by {
                if k < p {
                    assert(order@[k] == old_order[k]);
                } else if k > p {
                    assert(order@[k] == old_order[k - 1]);
                }
            }
            assert(order@.no_duplicates()) by {
                assert forall|a: int, b: int| 0 <= a < b < order@.len() implies order@[a] != order@[b] by {
                    if a < p && b < p {
                        assert(order@[a] == old_order[a] && order@[b] == old_order[b]);
                    } else if a < p && b == p {
                        assert(order@[a] == old_order[a]);
                    } else if a < p && b > p {
                        assert(order@[a] == old_order[a] && order@[b] == old_order[b - 1]);
                    } else if a == p {
                        assert(order@[b] == old_order[b - 1]);
                    } else {
                        assert(order@[a] == old_order[a - 1] && order@[b] == old_order[b - 1]);
                    }
                }
            }
            assert forall|a: int, b: int| 0 <= a < b < order@.len() implies ranks_before(
                scores@,
                #[trigger] order@[a] as int,
                #[trigger] order@[b] as int,
            ) by {
                if a < p && b < p {
                    assert(order@[a] == old_order[a] && order@[b] == old_order[b]);
                } else if a < p && b == p {
                    assert(order@[a] == old_order[a]);
                } else if a < p && b > p {
                    assert(order@[a] == old_order[a] && order@[b] == old_order[b - 1]);
                } else if a == p {
                    assert(order@[b] == old_order[b - 1]);
                } else {
                    assert(order@[a] == old_order[a - 1] && order@[b] == old_order[b - 1]);
                }
            }
        }
        i = i + 1;
    }
    order
}

// ── Profile updates ─────────────────────────────────────────────────────────

/// A profile is changed or deleted by its owner or by an admin.
pub fn manage_user_check(caller: &str, caller_is_admin: bool, target: &str) -> (r: Result<(), TeamderError>)
    ensures
        caller@ == target@ || caller_is_admin ==> r is Ok,
        caller@ != target@ && !caller_is_admin ==> fails_with(r, 403, "Not authorized"@),
{
    if !str_eq(caller, target) && !caller_is_admin {
        Err(TeamderError::Forbidden("Not authorized".to_string()))
    } else {
        Ok(())
    }
}

/// The names of the listed skills that the catalog knows.
pub open spec fn valid_skill_names(skills: Seq<Skill>) -> Seq<String> {
    skills.map_values(|s: Skill| s.name).filter(|n: String| is_known_skill(n@))
}

/// A skill is kept when some known name among the list matches its name,
/// ignoring ASCII case.
pub open spec fn skill_kept(valid: Seq<String>, s: Skill) -> bool {
    exists|k: int| 0 <= k < valid.len() && eq_ascii_ci(valid[k]@, s.name@)
}

/// Whether some name of `valid` matches `name` ignoring ASCII case.
fn matches_any(valid: &Vec<String>, name: &str) -> (r: bool)
    ensures
        r == exists|k: int| 0 <= k < valid@.len() && eq_ascii_ci(valid@[k]@, name@),
{
    let n = valid.len();
    let mut i: usize = 0;
    while i < n
        invariant
            n == valid@.len(),
            i <= n,
            forall|k: int| 0 <= k < i ==> !eq_ascii_ci(#[trigger] valid@[k]@, name@),
        decreases n - i,
    {
        if eq_ignore_ascii_case(valid[i].as_str(), name) {
            return true;
        }
        i = i + 1;
    }
    false
}

/// The skills of a profile update that the catalog knows, in order.
pub fn sanitize_skills(skills: &Vec<Skill>) -> (r: Vec<Skill>)
    ensures
        r@ == skills@.filter(|s: Skill| skill_kept(valid_skill_names(skills@), s)),
{
    let mut names: Vec<String> = Vec::new();
    let n = skills.len();
    let mut i: usize = 0;
    while i < n
        invariant
            n == skills@.len(),
            i <= n,
            names@ == skills@.take(i as int).map_values(|s: Skill| s.name),
        decreases n - i,
    {
        proof {
            assert(skills@.take(i + 1).map_values(|s: Skill| s.name) =~= skills@.take(
                i as int,
            ).map_values(|s: Skill| s.name).push(skills@[i as int].name));
        }
        names.push(skills[i].name.clone());
        i = i + 1;
    }
    proof {
        assert(skills@.take(n as int) =~= skills@);
    }
    let valid = filter_valid_skills(names.as_slice());
    let ghost v = valid_skill_names(skills@);
    let mut r: Vec<Skill> = Vec::new();
    let mut j: usize = 0;
    while j < n
        invariant
            n == skills@.len(),
            j <= n,
            valid@ == v,
            v == valid_skill_names(skills@),
            r@ == skills@.take(j as int).filter(|s: Skill| skill_kept(v, s)),
        decreases n - j,
    {
        proof {
            assert(skills@.take(j + 1) == skills@.take(j as int).push(skills@[j as int]));
            skills@.take(j as int).lemma_filter_push(skills@[j as int], |s: Skill| skill_kept(v, s));
        }
        if matches_any(&valid, skills[j].name.as_str()) {
            r.push(Skill { name: skills[j].name.clone(), level: skills[j].level });
        }
        j = j + 1;
    }
    proof {
        assert(skills@.take(n as int) == skills@);
    }
    r
}

/// A profile update with its skill tags and skills checked against the
/// catalog; every other field as sent.
pub fn sanitize_update(req: UpdateUserRequest) -> (r: UpdateUserRequest)
    ensures
        match req.skill_tags {
            Some(t) => r.skill_tags matches Some(u) && u@ == t@.filter(|s: String| is_known_skill(s@)),
            None => r.skill_tags is None,
        },
        match req.skills {
            Some(s) => r.skills matches Some(u) && u@ == s@.filter(
                |k: Skill| skill_kept(valid_skill_names(s@), k),
            ),
            None => r.skills is None,
        },
        r == (UpdateUserRequest { skill_tags: r.skill_tags, skills: r.skills, ..req }),
{
    let mut req = req;
    let tags = match &req.skill_tags {
        Some(t) => Some(filter_valid_skills(t.as_slice())),
        None => None,
    };
    req.skill_tags = tags;
    let skills = match &req.skills {
        Some(s) => Some(sanitize_skills(s)),
        None => None,
    };
    req.skills = skills;
    req
}

// ── Passwords ───────────────────────────────────────────────────────────────

/// The length of a text in UTF-8 bytes, as `str::len` counts it.
pub open spec fn byte_len(s: Seq<char>) -> int {
    (encode_utf8(s).len() as usize) as int
}

/// A first password needs at least six bytes and an account without one.
pub fn set_password_check(new_password: &str, has_password: bool) -> (r: Result<(), TeamderError>)
    ensures
        byte_len(new_password@) < 6 ==> fails_with(r, 422, "Password must be at least 6 characters"@),
        byte_len(new_password@) >= 6 && has_password ==> fails_with(
            r,
            409,
            "A password is already set — use change-password instead"@,
        ),
        byte_len(new_password@) >= 6 && !has_password ==> r is Ok,
{
    if new_password.len() < 6 {
        return Err(TeamderError::Validation("Password must be at least 6 characters".to_string()));
    }
    if has_password {
        return Err(
            TeamderError::Conflict(
                "A password is already set — use change-password instead".to_string(),
            ),
        );
    }
    Ok(())
}

/// What `bcrypt::verify` reports for a password and a stored hash: whether
/// they match, or the message of the error for a malformed hash.
pub uninterp spec fn bcrypt_verdict(password: Seq<char>, hash: Seq<char>) -> Result<bool, Seq<char>>;

/// Calls `bcrypt::verify`; the verdict is named by `bcrypt_verdict`, a
/// function of the password and the hash (which carries its own salt and
/// cost).
#[verifier::external_body]
fn bcrypt_verify(password: &str, hash: &str) -> (r: Result<bool, String>)
    ensures
        match r {
            Ok(b) => bcrypt_verdict(password@, hash@) == Ok::<bool, Seq<char>>(b),
            Err(m) => bcrypt_verdict(password@, hash@) == Err::<bool, Seq<char>>(m@),
        },
{
    bcrypt::verify(password, hash).map_err(|e| e.to_string())
}

/// Calls `bcrypt::hash` with `bcrypt::DEFAULT_COST`. The salt is random, so
/// which hash comes back is not stated; what holds of every hash it returns
/// is that `bcrypt::verify` accepts the password against it (the hash
/// carries the salt and cost it was made with). An error (the operating
/// system's random source failing) comes back as its message.
#[verifier::external_body]
fn bcrypt_hash(password: &str) -> (r: Result<String, String>)
    ensures
        match r {
            Ok(h) => bcrypt_verdict(password@, h@) == Ok::<bool, Seq<char>>(true),
            Err(_) => true,
        },
{
    bcrypt::hash(password, bcrypt::DEFAULT_COST).map_err(|e| e.to_string())
}

/// Hashes a first password, after its checks.
pub fn set_password_hash(new_password: &str, has_password: bool) -> (r: Result<String, TeamderError>)
    ensures
        byte_len(new_password@) < 6 ==> fails_with(r, 422, "Password must be at least 6 characters"@),
        byte_len(new_password@) >= 6 && has_password ==> fails_with(
            r,
            409,
            "A password is already set — use change-password instead"@,
        ),
        byte_len(new_password@) >= 6 && !has_password ==> (r is Ok || r matches Err(
            TeamderError::Internal(_),
        )),
        r matches Ok(h) ==> bcrypt_verdict(new_password@, h@) == Ok::<bool, Seq<char>>(true),
{
    match set_password_check(new_password, has_password) {
        Ok(()) => {},
        Err(e) => return Err(e),
    }
    match bcrypt_hash(new_password) {
        Ok(h) => Ok(h),
        Err(m) => Err(TeamderError::Internal(m)),
    }
}

/// The outcome of a password change before the new hash is made: refused
/// without a password, on a malformed stored hash, on a wrong current
/// password, and for a new password under six bytes.
pub open spec fn change_outcome(stored: Option<Seq<char>>, old: Seq<char>, new: Seq<char>) -> Option<(u16, Seq<char>)> {
    match stored {
        None => Some((422u16, "No password is set yet — use set-password instead"@)),
        Some(h) => match bcrypt_verdict(old, h) {
            Err(m) => Some((500u16, m)),
            Ok(false) => Some((401u16, "Current password is incorrect"@)),
            Ok(true) => if byte_len(new) < 6 {
                Some((422u16, "New password must be at least 6 characters"@))
            } else {
                None
            },
        },
    }
}

/// Changes a password: checks the current one against the stored hash, then
/// hashes the new one.
pub fn change_password_hash(stored: Option<&str>, old_password: &str, new_password: &str) -> (r: Result<String, TeamderError>)
    ensures
        match change_outcome(
            match stored {
                Some(h) => Some(h@),
                None => None,
            },
            old_password@,
            new_password@,
        ) {
            Some((status, msg)) => fails_with(r, status, msg),
            None => r is Ok || r matches Err(TeamderError::Internal(_)),
        },
        r matches Ok(h) ==> bcrypt_verdict(new_password@, h@) == Ok::<bool, Seq<char>>(true),
{
    let hash = match stored {
        Some(h) => h,
        None => {
            return Err(
                TeamderError::Validation(
                    "No password is set yet — use set-password instead".to_string(),
                ),
            )
        },
    };
    let valid = match bcrypt_verify(old_password, hash) {
        Ok(v) => v,
        Err(m) => return Err(TeamderError::Internal(m)),
    };
    if !valid {
        return Err(TeamderError::Unauthorized("Current password is incorrect".to_string()));
    }
    if new_password.len() < 6 {
        return Err(
            TeamderError::Validation("New password must be at least 6 characters".to_string()),
        );
    }
    match bcrypt_hash(new_password) {
        Ok(h) => Ok(h),
        Err(m) => Err(TeamderError::Internal(m)),
    }
}

// ── Closing an account ──────────────────────────────────────────────────────

/// The message refusing a deletion code that does not verify.
pub open spec fn bad_deletion_code() -> Seq<char> {
    "Invalid or expired verification code"@
}

/// Self-service deletion needs an unexpired deletion code matching the one
/// sent (surrounding whitespace ignored).
pub fn delete_account_check(record: Option<&AuthCode>, code: &str, now: i64) -> (r: Result<(), TeamderError>)
    ensures
        record is None ==> fails_with(r, 401, bad_deletion_code()),
        record matches Some(rec) && (rec.expires_at <= now || rec.code@ != trimmed(code@)) ==> fails_with(
            r,
            401,
            bad_deletion_code(),
        ),
        record matches Some(rec) && !(rec.expires_at <= now || rec.code@ != trimmed(code@)) ==> r is Ok,
{
    match record {
        None => Err(TeamderError::Unauthorized("Invalid or expired verification code".to_string())),
        Some(rec) => {
            if rec.is_expired_at(now) || !str_eq(rec.code.as_str(), trim(code)) {
                Err(TeamderError::Unauthorized("Invalid or expired verification code".to_string()))
            } else {
                Ok(())
            }
        },
    }
}

/// One step of removing an account and the data tied to it.
pub enum CleanupStep {
    DeleteLedProjects,
    LeaveProjects,
    DeleteCreatedGroups,
    LeaveGroups,
    DeleteLedTeams,
    LeaveTeams,
    DeleteInvites,
    DeleteJoinRequests,
    DeleteMessages,
    DeleteNotifications,
    DeleteBookmarks,
    DeleteReviews,
    RemoveUploads,
    DeleteAccount,
}

/// The steps of an account deletion, in order: owned content first, the
/// account itself last.
pub open spec fn cleanup_order() -> Seq<CleanupStep> {
    seq![
        CleanupStep::DeleteLedProjects,
        CleanupStep::LeaveProjects,
        CleanupStep::DeleteCreatedGroups,
        CleanupStep::LeaveGroups,
        CleanupStep::DeleteLedTeams,
        CleanupStep::LeaveTeams,
        CleanupStep::DeleteInvites,
        CleanupStep::DeleteJoinRequests,
        CleanupStep::DeleteMessages,
        CleanupStep::DeleteNotifications,
        CleanupStep::DeleteBookmarks,
        CleanupStep::DeleteReviews,
        CleanupStep::RemoveUploads,
        CleanupStep::DeleteAccount,
    ]
}

/// The steps of an account deletion, in order.
pub fn cleanup_steps() -> (r: Vec<CleanupStep>)
    ensures
        r@ == cleanup_order(),
{
    let mut r: Vec<CleanupStep> = Vec::new();
    r.push(CleanupStep::DeleteLedProjects);
    r.push(CleanupStep::LeaveProjects);
    r.push(CleanupStep::DeleteCreatedGroups);
    r.push(CleanupStep::LeaveGroups);
    r.push(CleanupStep::DeleteLedTeams);
    r.push(CleanupStep::LeaveTeams);
    r.push(CleanupStep::DeleteInvites);
    r.push(CleanupStep::DeleteJoinRequests);
    r.push(CleanupStep::DeleteMessages);
    r.push(CleanupStep::DeleteNotifications);
    r.push(CleanupStep::DeleteBookmarks);
    r.push(CleanupStep::DeleteReviews);
    r.push(CleanupStep::RemoveUploads);
    r.push(CleanupStep::DeleteAccount);
    proof {
        assert(r@ =~= cleanup_order());
    }
    r
}

/// Whether a failure of the step ends the deletion with an error: only the
/// account's own removal; the other cleanups are best effort.
pub fn step_failure_aborts(step: &CleanupStep) -> (r: bool)
    ensures
        r == (*step is DeleteAccount),
{
    match step {
        CleanupStep::DeleteAccount => true,
        _ => false,
    }
}

/// The account is removed last, after every other cleanup, and only its
/// removal can fail the deletion.
pub proof fn law_account_removed_last()
    ensures
        cleanup_order().last() is DeleteAccount,
        forall|k: int| 0 <= k < cleanup_order().len() - 1 ==> !(cleanup_order()[k] is DeleteAccount),
{
    assert forall|k: int| 0 <= k < cleanup_order().len() - 1 implies !(
    cleanup_order()[k] is DeleteAccount) by {}
}

/// The teams among `teams` that `user` leads.
pub open spec fn led_by(teams: Seq<CompetitionTeam>, user: Seq<char>) -> Seq<CompetitionTeam> {
    teams.filter(|t: CompetitionTeam| t.lead_user_id@ == user)
}

/// The ids of the teams the user leads: those deleted with the account.
pub fn led_team_ids(teams: &Vec<CompetitionTeam>, user: &str) -> (r: Vec<String>)
    ensures
        r@.len() == led_by(teams@, user@).len(),
        forall|i: int| 0 <= i < r@.len() ==> #[trigger] r@[i] == led_by(teams@, user@)[i].id,
{
    let mut r: Vec<String> = Vec::new();
    let n = teams.len();
    let mut i: usize = 0;
    while i < n
        invariant
            n == teams@.len(),
            i <= n,
            r@.len() == led_by(teams@.take(i as int), user@).len(),
            forall|k: int|
                0 <= k < r@.len() ==> #[trigger] r@[k] == led_by(teams@.take(i as int), user@)[k].id,
        decreases n - i,
    {
        proof {
            assert(teams@.take(i + 1) == teams@.take(i as int).push(teams@[i as int]));
            teams@.take(i as int).lemma_filter_push(
                teams@[i as int],
                |t: CompetitionTeam| t.lead_user_id@ == user@,
            );
        }
        if str_eq(teams[i].lead_user_id.as_str(), user) {
            r.push(teams[i].id.clone());
        }
        i = i + 1;
    }
    proof {
        assert(teams@.take(n as int) == teams@);
    }
    r
}

/// The directory holding a user's uploaded files.
pub fn user_uploads_dir(user_id: &str) -> (d: String)
    ensures
        d@ == "uploads/"@ + user_id@,
{
    concat("uploads/", user_id)
}

} // verus!

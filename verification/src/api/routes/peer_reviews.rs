use vstd::prelude::*;
use crate::clock::MILLIS_PER_DAY;
use crate::error::{TeamderError, fails_with};
use crate::models::peer_review::{PeerReview, ReviewScores, star_rating};
use crate::skills::{filter_valid_skills, is_known_skill};
use crate::models::project::{Project, TeamMember};
use crate::api::routes::projects::first_member_index;
use crate::api::routes::join_requests::same_text;
use crate::models::study_group::{GroupMember, StudyGroup};
use crate::models::user::CachedReview;
use crate::text::{parse_i64, parsed_i64, string_of, concat, concat3, digits, decimal_string, str_eq, trim, trimmed};
use vstd::utf8::encode_utf8;

verus! {

// ── Settings ────────────────────────────────────────────────────────────────

/// The minimum number of days two users must have collaborated before one
/// may review the other, from the `REVIEW_MIN_COLLAB_DAYS` setting: unset or
/// unparsable means no minimum, and negative values count as zero.
pub open spec fn min_collab_days_of(configured: Option<Seq<char>>) -> i64 {
    match configured {
        Some(v) => match parsed_i64(v) {
            Ok(n) => if n < 0 {
                0
            } else {
                n
            },
            Err(_) => 0,
        },
        None => 0,
    }
}

/// Reads the minimum collaboration age from its configured value.
pub fn review_min_collab_days(configured: Option<&str>) -> (d: i64)
    ensures
        d == min_collab_days_of(match configured {
            Some(v) => Some(v@),
            None => None,
        }),
{
    match configured {
        Some(v) => match parse_i64(v) {
            Ok(n) => if n < 0 {
                0
            } else {
                n
            },
            Err(_) => 0,
        },
        None => 0,
    }
}

// ── Who took part, and since when ───────────────────────────────────────────

/// When `user` joined the project: its creation for the lead, the joining
/// time of their first membership entry otherwise.
pub open spec fn project_since(lead: Seq<char>, created_at: i64, team: Seq<TeamMember>, user: Seq<char>) -> Option<i64> {
    if lead == user {
        Some(created_at)
    } else {
        match first_member_index(team, user) {
            Some(i) => Some(team[i].joined_at),
            None => None,
        }
    }
}

/// Since when `user` took part in the project, if they did.
pub fn project_participant_since(project: &Project, user_id: &str) -> (r: Option<i64>)
    ensures
        r == project_since(project.lead_user_id@, project.created_at, project.team@, user_id@),
{
    if str_eq(project.lead_user_id.as_str(), user_id) {
        return Some(project.created_at);
    }
    let n = project.team.len();
    let mut i: usize = 0;
    while i < n
        invariant
            n == project.team@.len(),
            i <= n,
            project.lead_user_id@ != user_id@,
            forall|j: int| 0 <= j < i ==> project.team@[j].user_id@ != user_id@,
        decreases n - i,
    {
        if str_eq(project.team[i].user_id.as_str(), user_id) {
            proof {
                let team = project.team@;
                let k = choose|k: int|
                    0 <= k < team.len() && team[k].user_id@ == user_id@ && forall|j: int|
                        0 <= j < k ==> team[j].user_id@ != user_id@;
                assert(k == i as int) by {
                    if k < i {
                    } else if k > i {
                        assert(team[i as int].user_id@ == user_id@);
                    }
                }
            }
            return Some(project.team[i].joined_at);
        }
        i = i + 1;
    }
    None
}

/// Index of the first entry of `members` with id `user`, if any.
pub open spec fn first_group_member_index(members: Seq<GroupMember>, user: Seq<char>) -> Option<int> {
    if exists|i: int| 0 <= i < members.len() && members[i].user_id@ == user {
        Some(
            choose|i: int|
                0 <= i < members.len() && members[i].user_id@ == user && forall|j: int|
                    0 <= j < i ==> members[j].user_id@ != user,
        )
    } else {
        None
    }
}

/// When `user` joined the study group: its creation for the creator, the
/// joining time of their first membership entry otherwise.
pub open spec fn group_since(creator: Seq<char>, created_at: i64, members: Seq<GroupMember>, user: Seq<char>) -> Option<i64> {
    if creator == user {
        Some(created_at)
    } else {
        match first_group_member_index(members, user) {
            Some(i) => Some(members[i].joined_at),
            None => None,
        }
    }
}

/// Since when `user` took part in the study group, if they did.
pub fn study_group_participant_since(group: &StudyGroup, user_id: &str) -> (r: Option<i64>)
    ensures
        r == group_since(group.created_by@, group.created_at, group.members@, user_id@),
{
    if str_eq(group.created_by.as_str(), user_id) {
        return Some(group.created_at);
    }
    let n = group.members.len();
    let mut i: usize = 0;
    while i < n
        invariant
            n == group.members@.len(),
            i <= n,
            group.created_by@ != user_id@,
            forall|j: int| 0 <= j < i ==> group.members@[j].user_id@ != user_id@,
        decreases n - i,
    {
        if str_eq(group.members[i].user_id.as_str(), user_id) {
            proof {
                let ms = group.members@;
                let k = choose|k: int|
                    0 <= k < ms.len() && ms[k].user_id@ == user_id@ && forall|j: int|
                        0 <= j < k ==> ms[j].user_id@ != user_id@;
                assert(k == i as int) by {
                    if k < i {
                    } else if k > i {
                        assert(ms[i as int].user_id@ == user_id@);
                    }
                }
            }
            return Some(group.members[i].joined_at);
        }
        i = i + 1;
    }
    None
}

// ── Collaboration age ───────────────────────────────────────────────────────

/// The largest day count `Duration::days` accepts.
pub const MAX_DURATION_DAYS: i64 = 106_751_991_167;

/// The message refusing a review between too recent collaborators.
pub open spec fn too_recent_message(min_days: i64) -> Seq<char> {
    "Reviews require at least "@ + digits(min_days as nat, 10) + " days of shared collaboration"@
}

/// The outcome of the collaboration-age check: `None` when it passes, else
/// the status and message of the refusal.
pub open spec fn age_outcome(min_days: i64, a: Option<i64>, b: Option<i64>, now: i64) -> Option<(u16, Seq<char>)> {
    if min_days <= 0 {
        None
    } else if a is None || b is None {
        Some((403u16, "Not authorized"@))
    } else if now - a->0 < min_days * MILLIS_PER_DAY || now - b->0 < min_days * MILLIS_PER_DAY {
        Some((422u16, too_recent_message(min_days)))
    } else {
        None
    }
}

/// `r` is the result `age_outcome` describes.
pub open spec fn age_result_matches(r: Result<(), TeamderError>, min_days: i64, a: Option<i64>, b: Option<i64>, now: i64) -> bool {
    match age_outcome(min_days, a, b, now) {
        None => r is Ok,
        Some((status, msg)) => fails_with(r, status, msg),
    }
}

/// Both parties must have collaborated for at least `min_days` days before
/// `now` (no requirement when `min_days` is not positive).
pub fn ensure_review_collaboration_age(
    min_days: i64,
    reviewer_since: Option<i64>,
    reviewee_since: Option<i64>,
    now: i64,
) -> (r: Result<(), TeamderError>)
    requires
        min_days <= MAX_DURATION_DAYS,
    ensures
        age_result_matches(r, min_days, reviewer_since, reviewee_since, now),
{
    if min_days <= 0 {
        return Ok(());
    }
    let (a, b) = match (reviewer_since, reviewee_since) {
        (Some(a), Some(b)) => (a, b),
        _ => return Err(TeamderError::Forbidden("Not authorized".to_string())),
    };
    let min_ms: i128 = min_days as i128 * MILLIS_PER_DAY as i128;
    if (now as i128) - (a as i128) < min_ms || (now as i128) - (b as i128) < min_ms {
        let count = decimal_string(min_days as u64);
        let mut msg = concat("Reviews require at least ", count.as_str());
        msg.append(" days of shared collaboration");
        return Err(TeamderError::Validation(msg));
    }
    Ok(())
}

/// With a positive minimum and both membership dates known, a review is
/// allowed exactly when both the author and the reviewee have been members
/// for at least the minimum number of days; an author who joined more
/// recently is refused with 422, whatever the reviewee's date.
pub proof fn law_both_parties_need_the_minimum_age(
    r: Result<(), TeamderError>,
    min_days: i64,
    author_since: i64,
    reviewee_since: i64,
    now: i64,
)
    requires
        min_days > 0,
        age_result_matches(r, min_days, Some(author_since), Some(reviewee_since), now),
    ensures
        r is Ok <==> (now - author_since >= min_days * 86_400_000 && now - reviewee_since
            >= min_days * 86_400_000),
        now - author_since < min_days * 86_400_000 ==> fails_with(r, 422, too_recent_message(min_days)),
        now - reviewee_since < min_days * 86_400_000 ==> fails_with(r, 422, too_recent_message(min_days)),
{
}

// ── The review gate ─────────────────────────────────────────────────────────

/// Nobody reviews themselves.
pub fn review_self_check(reviewer_id: &str, reviewee_id: &str) -> (r: Result<(), TeamderError>)
    ensures
        reviewer_id@ == reviewee_id@ ==> fails_with(r, 422, "Cannot review yourself"@),
        reviewer_id@ != reviewee_id@ ==> r is Ok,
{
    if str_eq(reviewer_id, reviewee_id) {
        Err(TeamderError::Validation("Cannot review yourself".to_string()))
    } else {
        Ok(())
    }
}

/// A review names the project or study group it is about.
pub fn review_context_check(project_id: &Option<String>, study_group_id: &Option<String>) -> (r: Result<(), TeamderError>)
    ensures
        (project_id is None && study_group_id is None) ==> fails_with(
            r,
            422,
            "Either project_id or study_group_id is required"@,
        ),
        (project_id is Some || study_group_id is Some) ==> r is Ok,
{
    if project_id.is_none() && study_group_id.is_none() {
        Err(TeamderError::Validation("Either project_id or study_group_id is required".to_string()))
    } else {
        Ok(())
    }
}

/// A review about a project needs the project completed and both parties on
/// it, for long enough.
pub fn project_review_check(
    project: &Project,
    reviewer_id: &str,
    reviewee_id: &str,
    min_days: i64,
    now: i64,
) -> (r: Result<(), TeamderError>)
    requires
        min_days <= MAX_DURATION_DAYS,
    ensures
        project.status@ != "completed"@ ==> fails_with(
            r,
            422,
            "Reviews can only be submitted after the project is completed"@,
        ),
        project.status@ == "completed"@ ==> age_result_matches(
            r,
            min_days_or_membership(
                min_days,
                project_since(project.lead_user_id@, project.created_at, project.team@, reviewer_id@),
                project_since(project.lead_user_id@, project.created_at, project.team@, reviewee_id@),
            ),
            project_since(project.lead_user_id@, project.created_at, project.team@, reviewer_id@),
            project_since(project.lead_user_id@, project.created_at, project.team@, reviewee_id@),
            now,
        ),
{
    if !str_eq(project.status.as_str(), "completed") {
        return Err(
            TeamderError::Validation(
                "Reviews can only be submitted after the project is completed".to_string(),
            ),
        );
    }
    let a = project_participant_since(project, reviewer_id);
    let b = project_participant_since(project, reviewee_id);
    if a.is_none() || b.is_none() {
        return Err(TeamderError::Forbidden("Not authorized".to_string()));
    }
    ensure_review_collaboration_age(min_days, a, b, now)
}

/// Participation is required whatever the minimum age: a missing party is
/// refused as if a positive minimum applied.
pub open spec fn min_days_or_membership(min_days: i64, a: Option<i64>, b: Option<i64>) -> i64 {
    if a is None || b is None {
        if min_days <= 0 {
            1
        } else {
            min_days
        }
    } else {
        min_days
    }
}

/// A review about a study group needs the group completed and both parties in
/// it, for long enough.
pub fn group_review_check(
    group: &StudyGroup,
    reviewer_id: &str,
    reviewee_id: &str,
    min_days: i64,
    now: i64,
) -> (r: Result<(), TeamderError>)
    requires
        min_days <= MAX_DURATION_DAYS,
    ensures
        group.status@ != "completed"@ ==> fails_with(
            r,
            422,
            "Reviews can only be submitted after the study group is completed"@,
        ),
        group.status@ == "completed"@ ==> age_result_matches(
            r,
            min_days_or_membership(
                min_days,
                group_since(group.created_by@, group.created_at, group.members@, reviewer_id@),
                group_since(group.created_by@, group.created_at, group.members@, reviewee_id@),
            ),
            group_since(group.created_by@, group.created_at, group.members@, reviewer_id@),
            group_since(group.created_by@, group.created_at, group.members@, reviewee_id@),
            now,
        ),
{
    if !str_eq(group.status.as_str(), "completed") {
        return Err(
            TeamderError::Validation(
                "Reviews can only be submitted after the study group is completed".to_string(),
            ),
        );
    }
    let a = study_group_participant_since(group, reviewer_id);
    let b = study_group_participant_since(group, reviewee_id);
    if a.is_none() || b.is_none() {
        return Err(TeamderError::Forbidden("Not authorized".to_string()));
    }
    ensure_review_collaboration_age(min_days, a, b, now)
}

/// A collaborator is reviewed once per project or study group.
pub fn duplicate_review_check(exists: bool) -> (r: Result<(), TeamderError>)
    ensures
        exists ==> fails_with(r, 409, "You already reviewed this collaborator for this project"@),
        !exists ==> r is Ok,
{
    if exists {
        Err(
            TeamderError::Conflict(
                "You already reviewed this collaborator for this project".to_string(),
            ),
        )
    } else {
        Ok(())
    }
}

/// A stored review has the same author, reviewee and context (project
/// and study group) as a new one.
pub open spec fn same_review_key(
    stored: PeerReview,
    reviewer_id: Seq<char>,
    reviewee_id: Seq<char>,
    project_id: Option<String>,
    study_group_id: Option<String>,
) -> bool {
    stored.reviewer_id@ == reviewer_id && stored.reviewee_id@ == reviewee_id && same_text(
        stored.project_id,
        project_id,
    ) && same_text(stored.study_group_id, study_group_id)
}

/// Some stored review has that key.
pub open spec fn review_exists(
    stored: Seq<PeerReview>,
    reviewer_id: Seq<char>,
    reviewee_id: Seq<char>,
    project_id: Option<String>,
    study_group_id: Option<String>,
) -> bool {
    exists|i: int|
        0 <= i < stored.len() && same_review_key(
            #[trigger] stored[i],
            reviewer_id,
            reviewee_id,
            project_id,
            study_group_id,
        )
}

/// No two stored reviews share author, reviewee and context.
pub open spec fn reviews_unique(stored: Seq<PeerReview>) -> bool {
    forall|i: int, j: int|
        0 <= i < j < stored.len() ==> !same_review_key(
            #[trigger] stored[i],
            stored[j].reviewer_id@,
            stored[j].reviewee_id@,
            stored[j].project_id,
            #[trigger] stored[j].study_group_id,
        )
}

/// Two optional texts are the same.
fn same_opt_text(a: &Option<String>, b: &Option<String>) -> (r: bool)
    ensures
        r == same_text(*a, *b),
{
    match (a, b) {
        (Some(x), Some(y)) => str_eq(x.as_str(), y.as_str()),
        (None, None) => true,
        _ => false,
    }
}

/// A new review is refused while a stored one has the same author,
/// reviewee and context.
pub fn review_store_check(
    stored: &Vec<PeerReview>,
    reviewer_id: &str,
    reviewee_id: &str,
    project_id: &Option<String>,
    study_group_id: &Option<String>,
) -> (r: Result<(), TeamderError>)
    ensures
        review_exists(stored@, reviewer_id@, reviewee_id@, *project_id, *study_group_id) ==> fails_with(
            r,
            409,
            "You already reviewed this collaborator for this project"@,
        ),
        !review_exists(stored@, reviewer_id@, reviewee_id@, *project_id, *study_group_id) ==> r is Ok,
{
    let n = stored.len();
    let mut i: usize = 0;
    while i < n
        invariant
            n == stored@.len(),
            i <= n,
            forall|k: int|
                0 <= k < i ==> !same_review_key(
                    #[trigger] stored@[k],
                    reviewer_id@,
                    reviewee_id@,
                    *project_id,
                    *study_group_id,
                ),
        decreases n - i,
    {
        let r = &stored[i];
        if str_eq(r.reviewer_id.as_str(), reviewer_id) && str_eq(r.reviewee_id.as_str(), reviewee_id)
            && same_opt_text(&r.project_id, project_id) && same_opt_text(&r.study_group_id, study_group_id) {
            return duplicate_review_check(true);
        }
        i = i + 1;
    }
    duplicate_review_check(false)
}

/// Reviews stay unique: a store without two reviews of the same author,
/// reviewee and context keeps that property when a review passes
/// `review_store_check` and is added.
pub proof fn law_reviews_stay_unique(stored: Seq<PeerReview>, review: PeerReview)
    requires
        reviews_unique(stored),
        !review_exists(
            stored,
            review.reviewer_id@,
            review.reviewee_id@,
            review.project_id,
            review.study_group_id,
        ),
    ensures
        reviews_unique(stored.push(review)),
{
    let s2 = stored.push(review);
    assert forall|i: int, j: int| 0 <= i < j < s2.len() implies !same_review_key(
        #[trigger] s2[i],
        s2[j].reviewer_id@,
        s2[j].reviewee_id@,
        s2[j].project_id,
        #[trigger] s2[j].study_group_id,
    ) by {
        if j == stored.len() {
            assert(s2[i] == stored[i]);
            if same_review_key(s2[i], review.reviewer_id@, review.reviewee_id@, review.project_id, review.study_group_id) {
                assert(same_review_key(stored[i], review.reviewer_id@, review.reviewee_id@, review.project_id, review.study_group_id));
            }
        } else {
            assert(s2[i] == stored[i]);
            assert(s2[j] == stored[j]);
        }
    }
}

/// The body of a review: trimmed, at least five bytes long.
pub fn review_body(body: &str) -> (r: Result<String, TeamderError>)
    ensures
        (encode_utf8(trimmed(body@)).len() as usize) < 5 ==> fails_with(
            r,
            422,
            "Review body must be at least 5 characters"@,
        ),
        (encode_utf8(trimmed(body@)).len() as usize) >= 5 ==> (r matches Ok(b) && b@ == trimmed(
            body@,
        )),
{
    let t = trim(body);
    if t.len() < 5 {
        Err(TeamderError::Validation("Review body must be at least 5 characters".to_string()))
    } else {
        Ok(string_of(t))
    }
}

/// The summary of a review cached on the reviewee's profile.
pub fn cached_review(review: &PeerReview) -> (c: CachedReview)
    ensures
        c.reviewer_id == review.reviewer_id,
        c.reviewer_name == review.reviewer_name,
        c.project_name == review.project_name,
        c.stars == star_rating(review.scores),
        c.body == review.body,
        c.created_at == review.created_at,
{
    CachedReview {
        reviewer_id: review.reviewer_id.clone(),
        reviewer_name: review.reviewer_name.clone(),
        project_name: review.project_name.clone(),
        stars: review.scores.stars(),
        body: review.body.clone(),
        created_at: review.created_at,
    }
}

/// Body of the notification telling the reviewee about a review.
pub fn review_notification_body(reviewer_name: &str, project_name: &str) -> (t: String)
    ensures
        t@ == reviewer_name@ + " left you a review on "@ + project_name@,
{
    concat3(reviewer_name, " left you a review on ", project_name)
}

/// Link to a profile.
pub fn profile_link(user_id: &str) -> (l: String)
    ensures
        l@ == "/profile/"@ + user_id@,
{
    concat("/profile/", user_id)
}

// ── The review itself ───────────────────────────────────────────────────────

/// Body of a peer review submission.
pub struct CreatePeerReviewRequest {
    pub reviewee_id: String,
    pub project_id: Option<String>,
    pub study_group_id: Option<String>,
    pub project_name: String,
    pub scores: ReviewScores,
    pub body: String,
    pub endorsed_skills: Vec<String>,
}

/// A score kept within 1..=5.
pub open spec fn clamp_score(s: u8) -> u8 {
    if s < 1 {
        1
    } else if s > 5 {
        5
    } else {
        s
    }
}

/// Scores with each dimension kept within 1..=5.
pub fn clamped_scores(s: &ReviewScores) -> (r: ReviewScores)
    ensures
        r.skill == clamp_score(s.skill),
        r.communication == clamp_score(s.communication),
        r.reliability == clamp_score(s.reliability),
        r.teamwork == clamp_score(s.teamwork),
{
    ReviewScores {
        skill: if s.skill < 1 {
            1
        } else if s.skill > 5 {
            5
        } else {
            s.skill
        },
        communication: if s.communication < 1 {
            1
        } else if s.communication > 5 {
            5
        } else {
            s.communication
        },
        reliability: if s.reliability < 1 {
            1
        } else if s.reliability > 5 {
            5
        } else {
            s.reliability
        },
        teamwork: if s.teamwork < 1 {
            1
        } else if s.teamwork > 5 {
            5
        } else {
            s.teamwork
        },
    }
}

/// The review a collaborator submits, once its checks succeed: scores kept
/// within 1..=5, the body trimmed (at least five bytes), only catalog skills
/// endorsed.
pub fn new_review(id: String, reviewer_id: &str, reviewer_name: &str, req: CreatePeerReviewRequest, now: i64) -> (r: Result<PeerReview, TeamderError>)
    ensures
        (encode_utf8(trimmed(req.body@)).len() as usize) < 5 ==> fails_with(
            r,
            422,
            "Review body must be at least 5 characters"@,
        ),
        (encode_utf8(trimmed(req.body@)).len() as usize) >= 5 ==> (r matches Ok(rv) && {
            &&& rv.id == id
            &&& rv.reviewer_id@ == reviewer_id@
            &&& rv.reviewer_name@ == reviewer_name@
            &&& rv.reviewee_id == req.reviewee_id
            &&& rv.project_id == req.project_id
            &&& rv.study_group_id == req.study_group_id
            &&& rv.project_name == req.project_name
            &&& rv.scores.skill == clamp_score(req.scores.skill)
            &&& rv.scores.communication == clamp_score(req.scores.communication)
            &&& rv.scores.reliability == clamp_score(req.scores.reliability)
            &&& rv.scores.teamwork == clamp_score(req.scores.teamwork)
            &&& rv.body@ == trimmed(req.body@)
            &&& rv.endorsed_skills@ == req.endorsed_skills@.filter(|s: String| is_known_skill(s@))
            &&& rv.created_at == now
        }),
{
    let scores = clamped_scores(&req.scores);
    let body = match review_body(req.body.as_str()) {
        Ok(b) => b,
        Err(e) => return Err(e),
    };
    let endorsed = filter_valid_skills(req.endorsed_skills.as_slice());
    Ok(
        PeerReview {
            id,
            reviewer_id: string_of(reviewer_id),
            reviewer_name: string_of(reviewer_name),
            reviewee_id: req.reviewee_id,
            project_id: req.project_id,
            study_group_id: req.study_group_id,
            project_name: req.project_name,
            scores,
            body,
            endorsed_skills: endorsed,
            created_at: now,
        },
    )
}

/// The commenter's initial comment for the review assistant: trimmed, at
/// least five bytes long.
pub fn initial_comment(body: &str) -> (r: Result<String, TeamderError>)
    ensures
        (encode_utf8(trimmed(body@)).len() as usize) < 5 ==> fails_with(
            r,
            422,
            "Initial comment must be at least 5 characters"@,
        ),
        (encode_utf8(trimmed(body@)).len() as usize) >= 5 ==> (r matches Ok(b) && b@ == trimmed(
            body@,
        )),
{
    let t = trim(body);
    if t.len() < 5 {
        Err(TeamderError::Validation("Initial comment must be at least 5 characters".to_string()))
    } else {
        Ok(string_of(t))
    }
}

} // verus!

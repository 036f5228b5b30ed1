use teamder::api::mailer::mail_addresses_check;
use teamder::api::routes::auth::{redeem_code, redemption_check, Redemption};
use teamder::api::routes::invites::{invite_recipient_check, invitee_entries};
use teamder::api::routes::join_requests::{build_join_request, join_addition, JoinAddition};
use teamder::api::routes::peer_reviews::review_store_check;
use teamder::api::routes::projects::{paging, paging_fits};
use teamder::api::routes::users::{change_password_hash, set_password_hash};
use teamder::error::TeamderError;
use teamder::models::auth_code::AuthCode;
use teamder::models::join_request::CreateJoinRequestBody;
use teamder::models::peer_review::{PeerReview, ReviewScores};

fn failure<T>(r: Result<T, TeamderError>) -> (u16, String) {
    match r {
        Ok(_) => panic!("expected an error"),
        Err(e) => (e.status_code(), e.message().to_string()),
    }
}

#[test]
fn a_first_password_logs_in_afterwards() {
    let hash = set_password_hash("secret-one", false).ok().unwrap();
    assert!(bcrypt::verify("secret-one", &hash).unwrap());
    assert!(!bcrypt::verify("", &hash).unwrap());
}

#[test]
fn a_changed_password_logs_in_and_the_old_one_does_not() {
    let old = bcrypt::hash("old-secret", 4).unwrap();
    let new_hash = change_password_hash(Some(&old), "old-secret", "new-secret").ok().unwrap();
    assert!(bcrypt::verify("new-secret", &new_hash).unwrap());
    assert!(!bcrypt::verify("old-secret", &new_hash).unwrap());
    assert_eq!(
        failure(change_password_hash(Some(&old), "wrong", "new-secret")),
        (401, "Current password is incorrect".to_string())
    );
}

#[test]
fn mail_addresses_are_checked_sender_first() {
    assert!(mail_addresses_check("Teamder <no-reply@teamder.dev>", "ann@example.com").is_ok());
    assert_eq!(failure(mail_addresses_check("no-reply@teamder.dev", "not an address")), (422, "Invalid email address".to_string()));
    let (status, msg) = failure(mail_addresses_check("broken", "not an address"));
    assert_eq!(status, 500);
    assert!(msg.starts_with("bad SMTP_FROM address: "));
}

#[test]
fn redeemed_codes_register_or_sign_in() {
    assert!(matches!(redemption_check("a@cloud.fju.edu.tw", "register", true, false), Ok(Redemption::CreateAccount)));
    assert_eq!(
        failure(redemption_check("a@cloud.fju.edu.tw", "register", true, true)),
        (409, "a@cloud.fju.edu.tw is already registered".to_string())
    );
    assert_eq!(
        failure(redemption_check("a@gmail.com", "register", false, false)),
        (422, "Registration is restricted to @cloud.fju.edu.tw email addresses".to_string())
    );
    assert!(matches!(redemption_check("a@x.com", "login", false, true), Ok(Redemption::SignIn)));
    assert_eq!(failure(redemption_check("a@x.com", "login", true, false)), (401, "Invalid or expired verification code".to_string()));
    assert_eq!(failure(redemption_check("a@x.com", "delete", true, true)), (422, "Unknown verification purpose".to_string()));
}

#[test]
fn invites_to_unknown_users_are_not_found() {
    assert!(invite_recipient_check(true).is_ok());
    assert_eq!(failure(invite_recipient_check(false)), (404, "User not found".to_string()));
}

#[test]
fn paging_that_fits() {
    assert!(paging_fits(Some(3), Some(20), 20));
    assert_eq!(paging(Some(3), Some(20), 20), (3, 20, 40));
    assert!(paging_fits(None, None, 50));
    assert!(!paging_fits(Some(u64::MAX), Some(2), 20));
    assert!(!paging_fits(Some(3), Some(-1), 20));
    assert!(paging_fits(Some(1), Some(-1), 20));
}

fn join_body(kind: &str, role: Option<&str>) -> CreateJoinRequestBody {
    CreateJoinRequestBody {
        entity_type: kind.to_string(),
        entity_id: "e1".to_string(),
        message: None,
        motivation: None,
        role_wanted: role.map(|r| r.to_string()),
        hours_per_week: None,
        portfolio_url: None,
        relevant_experience: None,
        availability_start: None,
        can_meet_in_person: None,
        additional_links: None,
        comm_channels: None,
        timezone: None,
        agreed_to_coc: None,
        skill_confidence: None,
    }
}

#[test]
fn accepted_join_requests_add_the_right_entry() {
    let jr = build_join_request("j1".to_string(), "u2", join_body("project", Some("Backend")), "P".to_string(), "u1".to_string(), 7);
    match join_addition(&jr, "Bob", "BL", "#123", 9) {
        Some(JoinAddition::ProjectMember(m)) => {
            assert_eq!((m.user_id.as_str(), m.initials.as_str(), m.color.as_str(), m.joined_at), ("u2", "BL", "#123", 9));
            assert_eq!(m.role.as_deref(), Some("Backend"));
        }
        _ => panic!("expected a project member"),
    }
    let jr = build_join_request("j2".to_string(), "u2", join_body("study_group", None), "G".to_string(), "u1".to_string(), 7);
    match join_addition(&jr, "Bob", "BL", "#123", 9) {
        Some(JoinAddition::GroupMember(m)) => {
            assert_eq!((m.user_id.as_str(), m.color.as_str(), m.streak), ("u2", "#123", 0));
            assert!(m.last_checkin.is_none());
        }
        _ => panic!("expected a group member"),
    }
    let jr = build_join_request("j3".to_string(), "u2", join_body("competition_team", Some("ML")), "T".to_string(), "u1".to_string(), 7);
    match join_addition(&jr, "Bob", "BL", "#123", 9) {
        Some(JoinAddition::TeamMember(m)) => {
            assert_eq!((m.name.as_str(), m.role.as_deref()), ("Bob", Some("ML")));
        }
        _ => panic!("expected a team member"),
    }
    let jr = build_join_request("j4".to_string(), "u2", join_body("club", None), "C".to_string(), "u1".to_string(), 7);
    assert!(join_addition(&jr, "Bob", "BL", "#123", 9).is_none());
}

#[test]
fn accepted_invites_add_entries_without_a_role() {
    let (t, g, c) = invitee_entries("u3", "Cy", "CY", "#abc", 11);
    assert_eq!((t.user_id.as_str(), t.color.as_str(), t.joined_at), ("u3", "#abc", 11));
    assert!(t.role.is_none());
    assert_eq!((g.initials.as_str(), g.streak), ("CY", 0));
    assert_eq!((c.name.as_str(), c.role.is_none()), ("Cy", true));
}

#[test]
fn codes_are_single_use() {
    let rec = AuthCode::issued_at("a@x.com", "123456", "login", 10, 1_000);
    assert_eq!((rec.created_at, rec.expires_at), (1_000, 601_000));
    let (verdict, kept) = redeem_code("login", Some(rec), "123456", 2_000);
    assert!(verdict.is_ok());
    assert!(kept.is_none());
    let (again, _) = redeem_code("login", kept, "123456", 3_000);
    assert_eq!(failure(again), (401, "Invalid or expired verification code".to_string()));
    let rec = AuthCode::issued_at("a@x.com", "123456", "login", 10, 1_000);
    let (wrong, kept) = redeem_code("login", Some(rec), "654321", 2_000);
    assert_eq!(failure(wrong), (401, "Invalid or expired verification code".to_string()));
    assert_eq!(kept.unwrap().code, "123456");
}

fn stored_review(reviewer: &str, reviewee: &str, project: Option<&str>) -> PeerReview {
    PeerReview {
        id: "r".to_string(),
        reviewer_id: reviewer.to_string(),
        reviewer_name: "R".to_string(),
        reviewee_id: reviewee.to_string(),
        project_id: project.map(|p| p.to_string()),
        study_group_id: None,
        project_name: "P".to_string(),
        scores: ReviewScores { skill: 3, communication: 3, reliability: 3, teamwork: 3 },
        body: "Solid work".to_string(),
        endorsed_skills: vec![],
        created_at: 0,
    }
}

#[test]
fn one_review_per_reviewer_reviewee_and_context() {
    let stored = vec![stored_review("a", "b", Some("p1"))];
    assert_eq!(
        failure(review_store_check(&stored, "a", "b", &Some("p1".to_string()), &None)),
        (409, "You already reviewed this collaborator for this project".to_string())
    );
    assert!(review_store_check(&stored, "a", "b", &Some("p2".to_string()), &None).is_ok());
    assert!(review_store_check(&stored, "b", "a", &Some("p1".to_string()), &None).is_ok());
    assert!(review_store_check(&stored, "a", "b", &None, &Some("p1".to_string())).is_ok());
}

use teamder::api::routes::uploads::{
    delete_upload_check, get_extension, portfolio_item, sanitize_filename, stored_filename, upload_dir,
    upload_path, upload_url, UploadKind,
};
use teamder::api::routes::users::{
    change_password_hash, cleanup_steps, delete_account_check, led_team_ids, manage_user_check,
    rank_by_score, sanitize_skills, sanitize_update, score_source, set_password_check, set_password_hash,
    step_failure_aborts, user_list_params, user_uploads_dir, CleanupStep, ScoreSource,
};
use teamder::error::TeamderError;
use teamder::models::auth_code::AuthCode;
use teamder::models::competition_team::CompetitionTeam;
use teamder::models::user::{Skill, UpdateUserRequest};

fn failure<T>(r: Result<T, TeamderError>) -> (u16, String) {
    match r {
        Ok(_) => panic!("expected an error"),
        Err(e) => (e.status_code(), e.message().to_string()),
    }
}

#[test]
fn file_names_are_sanitized() {
    assert_eq!(sanitize_filename("my photo (1).PNG"), "myphoto1.PNG");
    assert_eq!(sanitize_filename("../../etc/passwd"), "....etcpasswd");
    assert_eq!(sanitize_filename("r\u{e9}sum\u{e9}.pdf"), "rsum.pdf");
    let once = sanitize_filename("a b/c?.TXT");
    assert_eq!(sanitize_filename(&once), once);
}

#[test]
fn extensions_are_lower_cased() {
    assert_eq!(get_extension("photo.PNG"), "png");
    assert_eq!(get_extension("archive.tar.GZ"), "gz");
    assert_eq!(get_extension("README"), "readme");
    assert_eq!(get_extension("trailing."), "");
}

#[test]
fn upload_locations() {
    assert_eq!(UploadKind::Banner.folder(), "banners");
    assert_eq!(UploadKind::Resume.default_name(), "resume.pdf");
    let name = stored_filename("id-1", "My Pic.JPG");
    assert_eq!(name, "id-1.jpg");
    let dir = upload_dir("u1", &UploadKind::Avatar);
    assert_eq!(dir, "uploads/u1/avatar");
    assert_eq!(upload_path(&dir, &name), "uploads/u1/avatar/id-1.jpg");
    let url = upload_url("u1", &UploadKind::Application, &name);
    assert_eq!(url, "/uploads/u1/applications/id-1.jpg");
}

#[test]
fn own_uploads_can_be_deleted() {
    let name = stored_filename("abc", "x.pdf");
    let url = upload_url("u1", &UploadKind::Portfolio, &name);
    let disk = delete_upload_check(&url, "u1").ok().unwrap();
    assert_eq!(disk, upload_path(&upload_dir("u1", &UploadKind::Portfolio), &name));
}

#[test]
fn deletion_refusals() {
    assert_eq!(failure(delete_upload_check("/uploads/u1/../u2/x", "u1")), (422, "Invalid path".to_string()));
    assert_eq!(
        failure(delete_upload_check("/uploads/u2/avatar/x.png", "u1")),
        (403, "Cannot delete another user's files".to_string())
    );
    assert_eq!(
        failure(delete_upload_check("/uploads/u1", "u1")),
        (403, "Cannot delete another user's files".to_string())
    );
}

#[test]
fn portfolio_entries() {
    let p = portfolio_item("", "", "deck.pdf", "/uploads/u/portfolio/1.pdf");
    assert_eq!(p.title, "deck.pdf");
    assert_eq!(p.kind, "file");
    assert!(p.description.is_none());
    assert_eq!(p.url.as_deref(), Some("/uploads/u/portfolio/1.pdf"));
    let q = portfolio_item("Deck", "slides", "deck.pdf", "/x");
    assert_eq!(q.title, "Deck");
    assert_eq!(q.kind, "slides");
}

#[test]
fn user_listing_and_scores() {
    assert_eq!(user_list_params(None, None), (20, 0));
    assert_eq!(user_list_params(Some(1000), Some(3)), (100, 3));
    assert!(matches!(score_source(None, "u"), ScoreSource::Zero));
    assert!(matches!(score_source(Some("u"), "u"), ScoreSource::Stored));
    assert!(matches!(score_source(Some("v"), "u"), ScoreSource::Computed));
}

#[test]
fn ranking_is_stable_and_descending() {
    assert_eq!(rank_by_score(&vec![10, 50, 10, 90, 50]), vec![3, 1, 4, 0, 2]);
    assert_eq!(rank_by_score(&vec![]), Vec::<usize>::new());
    assert_eq!(rank_by_score(&vec![7, 7, 7]), vec![0, 1, 2]);
}

#[test]
fn profile_management_rights() {
    assert!(manage_user_check("u", false, "u").is_ok());
    assert!(manage_user_check("a", true, "u").is_ok());
    assert_eq!(failure(manage_user_check("a", false, "u")), (403, "Not authorized".to_string()));
}

fn skill(name: &str, level: u8) -> Skill {
    Skill { name: name.to_string(), level }
}

#[test]
fn skills_are_checked_against_the_catalog() {
    let kept = sanitize_skills(&vec![skill("React", 3), skill("Fake", 2), skill("docker", 1)]);
    let names: Vec<String> = kept.iter().map(|s| s.name.clone()).collect();
    assert_eq!(names, vec!["React", "docker"]);
    assert_eq!(kept[1].level, 1);
}

fn empty_update() -> UpdateUserRequest {
    UpdateUserRequest {
        name: Some("Ann".to_string()), initials: None, role: None, department: None, university: None,
        year: None, location: None, bio: None, skills: None, skill_tags: None, gradient: None,
        work_mode: None, availability: None, hours_per_week: None, languages: None, portfolio: None,
        avatar_url: None, resume_url: None, is_public: None, onboarded: None, headline: None,
        notify_email: None, notify_in_app: None, social_links: None, interests: None, timezone: None,
        goals: None, free_days: None, password: None,
    }
}

#[test]
fn profile_updates_are_sanitized() {
    let mut req = empty_update();
    req.skill_tags = Some(vec!["Go".to_string(), "Nope".to_string()]);
    req.skills = Some(vec![skill("Nope", 1), skill("Rust", 4)]);
    let out = sanitize_update(req);
    assert_eq!(out.name.as_deref(), Some("Ann"));
    assert_eq!(out.skill_tags.unwrap(), vec!["Go"]);
    assert_eq!(out.skills.unwrap().len(), 1);
    let untouched = sanitize_update(empty_update());
    assert!(untouched.skill_tags.is_none());
    assert!(untouched.skills.is_none());
}

#[test]
fn first_password_rules() {
    assert_eq!(failure(set_password_check("12345", false)), (422, "Password must be at least 6 characters".to_string()));
    assert_eq!(
        failure(set_password_check("123456", true)),
        (409, "A password is already set \u{2014} use change-password instead".to_string())
    );
    assert!(set_password_check("123456", false).is_ok());
    let h = set_password_hash("secret1", false).ok().unwrap();
    assert!(bcrypt::verify("secret1", &h).unwrap());
}

#[test]
fn password_changes() {
    let stored = bcrypt::hash("oldpass", 4).unwrap();
    assert_eq!(
        failure(change_password_hash(None, "x", "yyyyyy")),
        (422, "No password is set yet \u{2014} use set-password instead".to_string())
    );
    assert_eq!(failure(change_password_hash(Some(&stored), "wrong", "newpass")), (401, "Current password is incorrect".to_string()));
    assert_eq!(
        failure(change_password_hash(Some(&stored), "oldpass", "short")),
        (422, "New password must be at least 6 characters".to_string())
    );
    let bad = failure(change_password_hash(Some("not-a-hash"), "oldpass", "newpass"));
    assert_eq!(bad.0, 500);
    let new_hash = change_password_hash(Some(&stored), "oldpass", "newpass").ok().unwrap();
    assert!(bcrypt::verify("newpass", &new_hash).unwrap());
}

fn code(c: &str, expires_at: i64) -> AuthCode {
    AuthCode {
        id: "i".to_string(),
        email: "a@b.c".to_string(),
        code: c.to_string(),
        purpose: "delete".to_string(),
        expires_at,
        created_at: 0,
    }
}

#[test]
fn account_deletion_needs_a_fresh_code() {
    let msg = "Invalid or expired verification code".to_string();
    assert_eq!(failure(delete_account_check(None, "123456", 5)), (401, msg.clone()));
    assert_eq!(failure(delete_account_check(Some(&code("123456", 5)), "123456", 5)), (401, msg.clone()));
    assert_eq!(failure(delete_account_check(Some(&code("123456", 9)), "654321", 5)), (401, msg));
    assert!(delete_account_check(Some(&code("123456", 9)), " 123456 ", 5).is_ok());
}

fn team(id: &str, lead: &str) -> CompetitionTeam {
    CompetitionTeam {
        id: id.to_string(), competition_id: "c".to_string(), competition_name: "C".to_string(),
        name: "T".to_string(), description: String::new(), lead_user_id: lead.to_string(),
        members: vec![], max_members: 5, looking_for: vec![], open_roles: vec![],
        status: "recruiting".to_string(), created_at: 0, updated_at: 0,
    }
}

#[test]
fn account_cleanup_plan() {
    let steps = cleanup_steps();
    assert_eq!(steps.len(), 14);
    assert!(matches!(steps[0], CleanupStep::DeleteLedProjects));
    assert!(matches!(steps[13], CleanupStep::DeleteAccount));
    assert!(step_failure_aborts(&steps[13]));
    assert!(steps[..13].iter().all(|s| !step_failure_aborts(s)));
    assert_eq!(led_team_ids(&vec![team("t1", "u"), team("t2", "v"), team("t3", "u")], "u"), vec!["t1", "t3"]);
    assert_eq!(user_uploads_dir("u7"), "uploads/u7");
}

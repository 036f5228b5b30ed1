use teamder::api::error::ApiError;
use teamder::api::guards::{admin_outcome, auth_user_outcome, bearer_token, optional_auth_outcome, publisher_outcome};
use teamder::api::routes::admin::{timeseries_buckets, timeseries_days, users_csv, UserCsvRow};
use teamder::api::routes::admin_skills::{
    category_changes, new_category, new_tag, tag_changes, CreateCategoryBody, CreateTagBody, UpdateCategoryBody,
    UpdateTagBody,
};
use teamder::api::routes::bookmarks::{new_bookmark, AddBookmarkBody};
use teamder::api::routes::changes::{competition_changes, project_changes, team_changes, FieldValue};
use teamder::api::routes::chat::{chat_step, conversation_entry, new_message, ChatAction, ChatEvent, PartnerProfile};
use teamder::api::routes::competition_teams::{apply_check, new_team, team_member, CreateCompTeamBody, UpdateCompTeamBody};
use teamder::api::routes::competitions::{
    new_competition, published_only, register_check, submit_review_check,
};
use teamder::api::routes::contact_exchange::{create_exchange_check, expire_if_due, respond_exchange_decision, revoke_exchange_check};
use teamder::api::routes::invites::{invite_answer_title, new_invite, respond_invite_plan, SendInviteBody};
use teamder::api::routes::project_updates::{
    delete_update_check, new_update, post_update_check, update_notification, update_recipients, CreateUpdateBody,
};
use teamder::api::routes::projects::paging;
use teamder::api::routes::reports::{file_report, report_check};
use teamder::api::routes::search::{limit_results, project_hit, search_params, searches_kind, user_hit};
use teamder::error::{ErrorResponse, TeamderError};
use teamder::models::competition::{CreateCompetitionRequest, UpdateCompetitionRequest};
use teamder::models::contact_exchange::{ContactExchange, ContactExchangeStatus};
use teamder::models::project::{Project, TeamMember, UpdateProjectRequest};
use teamder::models::project_update::ProjectUpdate;
use teamder::models::report::{CreateReportRequest, ReportEntityType, ReportStatus};

const DAY: i64 = 86_400_000;

fn failure<T>(r: Result<T, TeamderError>) -> (u16, String) {
    match r {
        Ok(_) => panic!("expected an error"),
        Err(e) => (e.status_code(), e.message().to_string()),
    }
}

#[test]
fn every_error_variant_maps_to_its_status_and_code() {
    let cases = vec![
        (TeamderError::NotFound("a".to_string()), 404, "NOT_FOUND", "Not found: a"),
        (TeamderError::Unauthorized("b".to_string()), 401, "UNAUTHORIZED", "Unauthorized: b"),
        (TeamderError::Forbidden("c".to_string()), 403, "FORBIDDEN", "Forbidden: c"),
        (TeamderError::Validation("d".to_string()), 422, "VALIDATION_ERROR", "Validation error: d"),
        (TeamderError::Conflict("e".to_string()), 409, "CONFLICT", "Conflict: e"),
        (TeamderError::Database("f".to_string()), 500, "DATABASE_ERROR", "Database error: f"),
        (TeamderError::Internal("g".to_string()), 500, "INTERNAL_ERROR", "Internal error: g"),
    ];
    for (err, status, code, shown) in cases {
        assert_eq!(err.status_code(), status);
        assert_eq!(err.display(), shown);
        let body = ErrorResponse::from_error(&err);
        assert_eq!(body.status, status);
        assert_eq!(body.error, shown);
        let api = ApiError::from(err);
        assert_eq!(api.code_string(), code);
        let (s, resp) = api.response();
        assert_eq!(s, status);
        assert_eq!(resp.error.code, code);
    }
}

#[test]
fn request_guards() {
    assert_eq!(bearer_token("Bearer abc"), "abc");
    assert_eq!(bearer_token("abc"), "abc");
    assert_eq!(bearer_token("bearer abc"), "bearer abc");
    let f = auth_user_outcome(false, None).err().unwrap();
    assert_eq!((f.status, f.reason), (401, "Missing Authorization header"));
    let g = auth_user_outcome(true, None).err().unwrap();
    assert_eq!(g.reason, "Invalid or expired token");
    assert_eq!(auth_user_outcome(true, Some("u".to_string())).ok().unwrap().user_id, "u");
    assert!(optional_auth_outcome(false, Some("u".to_string())).0.is_none());
    assert_eq!(admin_outcome("u".to_string(), Some(false)).err().unwrap().status, 403);
    assert_eq!(admin_outcome("u".to_string(), None).err().unwrap().status, 401);
    assert!(admin_outcome("u".to_string(), Some(true)).is_ok());
    assert_eq!(publisher_outcome("u".to_string(), Some((false, false))).err().unwrap().reason, "Publisher access required");
    assert!(publisher_outcome("u".to_string(), Some((false, true))).is_ok());
}

#[test]
fn timeseries_ranges_and_buckets() {
    assert_eq!(timeseries_days(None), 30);
    assert_eq!(timeseries_days(Some("7d")), 7);
    assert_eq!(timeseries_days(Some("90d")), 90);
    assert_eq!(timeseries_days(Some("1y")), 365);
    assert_eq!(timeseries_days(Some("365d")), 365);
    assert_eq!(timeseries_days(Some("2w")), 30);
    let b = timeseries_buckets(3, 19_800 * DAY + 5);
    let dates: Vec<String> = b.iter().map(|x| x.date.clone()).collect();
    assert_eq!(dates, vec!["2024-03-16", "2024-03-17", "2024-03-18"]);
    assert!(b.iter().all(|x| x.users == 0 && x.projects == 0));
}

#[test]
fn users_export() {
    let rows = vec![UserCsvRow {
        id: "u1".to_string(), name: "Ann".to_string(), email: "a@x".to_string(), role: "Dev".to_string(),
        department: "CS".to_string(), university: "FJU".to_string(), is_admin: true, created_at: 0,
    }];
    assert_eq!(
        users_csv(&rows),
        "id,name,email,role,department,university,is_admin,created_at\nu1,Ann,a@x,Dev,CS,FJU,true,1970-01-01 00:00:00 UTC\n"
    );
    assert_eq!(users_csv(&vec![]), "id,name,email,role,department,university,is_admin,created_at\n");
}

#[test]
fn skill_catalog_administration() {
    let c = new_category(CreateCategoryBody { key: "ai".to_string(), label: "AI".to_string(), label_zh: "AI".to_string(), order: None }, 3);
    assert_eq!((c.id.as_str(), c.order, c.created_at), ("ai", 0, 3));
    let t = new_tag("t".to_string(), CreateTagBody { name: "ML".to_string(), name_zh: "ML".to_string(), category_key: "ai".to_string(), order: Some(4), is_active: None }, 3);
    assert!(t.is_active);
    assert_eq!(t.order, 4);
    let ch = category_changes(UpdateCategoryBody { label: None, label_zh: Some("x".to_string()), order: Some(2) }, 9);
    let f: Vec<&str> = ch.iter().map(|c| c.field).collect();
    assert_eq!(f, vec!["label_zh", "order", "updated_at"]);
    assert!(matches!(ch[2].value, FieldValue::Time(9)));
    let tc = tag_changes(UpdateTagBody { name: None, name_zh: None, category_key: None, order: None, is_active: Some(false) }, 1);
    let g: Vec<&str> = tc.iter().map(|c| c.field).collect();
    assert_eq!(g, vec!["is_active", "updated_at"]);
}

#[test]
fn partial_updates_list_given_fields() {
    let req = UpdateCompetitionRequest {
        name: None, organizer: Some("O".to_string()), icon: None, icon_bg: None, status: None, prize: None,
        team_size_min: Some(3), team_size_max: None, deadline: None, duration: None, tags: Some(vec![]),
        description: None, is_featured: Some(true), banner_image: None, publish_status: None, rejected_note: None,
    };
    let f: Vec<&str> = competition_changes(req, 5).iter().map(|c| c.field).collect();
    assert_eq!(f, vec!["organizer", "team_size_min", "tags", "is_featured", "updated_at"]);
    let p = UpdateProjectRequest {
        name: Some("N".to_string()), description: None, goals: None, roles: None, skills: None, deadline: None,
        collab: None, duration: None, category: None, status: Some("completed".to_string()), is_public: None,
        join_mode: None, icon: None, icon_bg: None, is_promoted: None, banner_image: None,
    };
    let g: Vec<&str> = project_changes(p, 5).iter().map(|c| c.field).collect();
    assert_eq!(g, vec!["name", "status", "updated_at"]);
    let t = UpdateCompTeamBody { name: None, description: None, max_members: Some(4), looking_for: None, open_roles: None, status: None };
    let h = team_changes(t, 5);
    assert_eq!(h.len(), 2);
    assert!(matches!(h[0].value, FieldValue::Number(4)));
}

#[test]
fn search_rules() {
    assert_eq!(failure(search_params("", None)), (422, "Query parameter q is required".to_string()));
    assert!(matches!(search_params("rust", None), Ok(20)));
    assert!(matches!(search_params("rust", Some(3)), Ok(3)));
    assert!(searches_kind(None, "user"));
    assert!(searches_kind(Some("user"), "user"));
    assert!(!searches_kind(Some("user"), "project"));
    let u = user_hit("1".to_string(), "Ann".to_string(), None, Some("/a.png".to_string()));
    assert_eq!(u.kind, "user");
    let hits = vec![u, project_hit("2".to_string(), "P".to_string(), "d".to_string(), "i".to_string())];
    assert_eq!(limit_results(hits, 1).len(), 1);
    let more = vec![project_hit("2".to_string(), "P".to_string(), "d".to_string(), "i".to_string())];
    assert_eq!(limit_results(more, 5).len(), 1);
}

#[test]
fn chat_decisions() {
    let c = conversation_entry("p".to_string(), None, "hi".to_string(), 2, 9);
    assert_eq!((c.partner_name.as_str(), c.partner_initials.as_str(), c.partner_gradient.as_str()), ("Unknown", "??", ""));
    let d = conversation_entry(
        "p".to_string(),
        Some(PartnerProfile { name: "Pat".to_string(), avatar_url: None, initials: "PT".to_string(), gradient: "g".to_string() }),
        "hi".to_string(), 0, 0,
    );
    assert_eq!(d.partner_name, "Pat");
    let m = new_message("m".to_string(), "a", "b".to_string(), "yo".to_string(), 4);
    assert!(!m.read);
    match chat_step("a", ChatEvent::ClientText(Some(("b".to_string(), "hey".to_string()))), "id".to_string(), 7) {
        ChatAction::StoreAndForward(msg) => {
            assert_eq!((msg.from_user_id.as_str(), msg.to_user_id.as_str(), msg.content.as_str()), ("a", "b", "hey"));
        }
        _ => panic!("expected a stored message"),
    }
    assert!(matches!(chat_step("a", ChatEvent::ClientText(None), String::new(), 0), ChatAction::Continue));
    assert!(matches!(chat_step("a", ChatEvent::BroadcastLagged, String::new(), 0), ChatAction::Continue));
    assert!(matches!(chat_step("a", ChatEvent::ClientClosed, String::new(), 0), ChatAction::Stop));
    assert!(matches!(chat_step("a", ChatEvent::SendFailed, String::new(), 0), ChatAction::Stop));
    match chat_step("a", ChatEvent::Broadcast("payload".to_string()), String::new(), 0) {
        ChatAction::Deliver(p) => assert_eq!(p, "payload"),
        _ => panic!("expected delivery"),
    }
}

fn project() -> Project {
    let m = |id: &str| TeamMember { user_id: id.to_string(), initials: String::new(), color: String::new(), joined_at: 0, role: None };
    Project {
        id: "p1".to_string(), name: "Teamder".to_string(), lead_user_id: "lead".to_string(), icon: String::new(),
        icon_bg: String::new(), status: "active".to_string(), description: String::new(), goals: None,
        roles: vec![], skills: vec![], team: vec![m("lead"), m("a"), m("b")], deadline: None, collab: None,
        duration: None, category: None, is_public: true, join_mode: "direct".to_string(), is_promoted: false,
        banner_image: None, created_at: 0, updated_at: 0,
    }
}

#[test]
fn project_update_feed() {
    let p = project();
    assert!(post_update_check(&p, "a").is_ok());
    assert_eq!(failure(post_update_check(&p, "z")), (403, "Only team members can post updates".to_string()));
    let u = new_update("u".to_string(), "p1", "a", "Ann", CreateUpdateBody { kind: "progress".to_string(), title: "T".to_string(), body: None }, 1);
    assert_eq!(u.body, "");
    assert_eq!(update_recipients(&p.team, "a"), vec!["lead", "b"]);
    let n = update_notification("n".to_string(), "b".to_string(), "p1", "Teamder", "T", 1);
    assert_eq!((n.title.as_str(), n.kind.as_str(), n.link.as_deref()), ("New update in Teamder", "project_update", Some("/projects/p1")));
    let feed = vec![ProjectUpdate { id: "u".to_string(), project_id: "p1".to_string(), author_id: "a".to_string(), author_name: "Ann".to_string(), kind: "progress".to_string(), title: "T".to_string(), body: String::new(), created_at: 0 }];
    assert_eq!(failure(delete_update_check(&feed, "x", "lead", "a")), (404, "Update not found".to_string()));
    assert_eq!(failure(delete_update_check(&feed, "u", "lead", "b")), (403, "Not authorized to delete this update".to_string()));
    assert!(delete_update_check(&feed, "u", "lead", "lead").is_ok());
    assert!(delete_update_check(&feed, "u", "lead", "a").is_ok());
}

#[test]
fn paging_and_reports_and_bookmarks() {
    assert_eq!(paging(None, None, 20), (1, 20, 0));
    assert_eq!(paging(Some(3), Some(10), 20), (3, 10, 20));
    assert_eq!(paging(Some(0), Some(10), 20), (0, 10, 0));
    let req = CreateReportRequest { entity_type: ReportEntityType::User, entity_id: "u".to_string(), reason: "   ".to_string(), details: None };
    assert_eq!(failure(report_check(&req)), (422, "reason is required".to_string()));
    let ok = CreateReportRequest { entity_type: ReportEntityType::Project, entity_id: "p".to_string(), reason: "spam".to_string(), details: None };
    assert!(report_check(&ok).is_ok());
    let r = file_report("me", ok);
    assert_eq!(r.status, ReportStatus::Pending);
    let b = new_bookmark("b".to_string(), "me", AddBookmarkBody { kind: "project".to_string(), entity_id: "p".to_string(), label: None }, 2);
    assert_eq!(b.label, "");
}

#[test]
fn invitations_are_answered_once_by_their_recipient() {
    let inv = new_invite(
        "i".to_string(), "from",
        SendInviteBody { to_user_id: "to".to_string(), project_id: Some("p".to_string()), study_group_id: None, competition_team_id: None, message: None },
        1_000,
    );
    assert_eq!(inv.status, "pending");
    assert_eq!(inv.expires_at, 1_000 + 7 * DAY);
    assert_eq!(failure(respond_invite_plan(&inv, "from", true)), (403, "Only the recipient can respond".to_string()));
    let plan = respond_invite_plan(&inv, "to", true).ok().unwrap();
    assert_eq!(plan.new_status, "accepted");
    assert_eq!(plan.join_project.as_deref(), Some("p"));
    let mut answered = inv;
    answered.status = plan.new_status.to_string();
    assert_eq!(failure(respond_invite_plan(&answered, "to", false)), (409, "Invite has already been responded to".to_string()));
    assert_eq!(invite_answer_title("Bo", false), "Bo declined your invite");
}

fn exchange(status: ContactExchangeStatus, expires_at: Option<i64>) -> ContactExchange {
    ContactExchange { id: "x".to_string(), from_user_id: "a".to_string(), to_user_id: "b".to_string(), status, expires_at, created_at: 0 }
}

#[test]
fn contact_exchanges() {
    assert_eq!(failure(create_exchange_check("a", "a", None, 0)), (409, "Cannot exchange with yourself".to_string()));
    let pending = exchange(ContactExchangeStatus::Pending, None);
    assert_eq!(failure(create_exchange_check("a", "b", Some(&pending), 0)), (409, "Request already pending".to_string()));
    assert!(create_exchange_check("a", "b", Some(&exchange(ContactExchangeStatus::Declined, None)), 0).is_ok());
    assert!(create_exchange_check("a", "b", Some(&exchange(ContactExchangeStatus::Revoked, None)), 0).is_ok());
    assert!(create_exchange_check("a", "b", None, 0).is_ok());
    assert_eq!(failure(respond_exchange_decision(&pending, "a", true, 0)), (403, "Only the recipient can respond".to_string()));
    let (s, e) = respond_exchange_decision(&pending, "b", true, 10).ok().unwrap();
    assert_eq!(s, ContactExchangeStatus::Accepted);
    assert_eq!(e, Some(10 + 7 * DAY));
    let accepted = exchange(ContactExchangeStatus::Accepted, Some(100));
    assert_eq!(failure(respond_exchange_decision(&accepted, "b", true, 0)), (409, "Already responded".to_string()));
    assert!(revoke_exchange_check(&accepted, "a").is_ok());
    assert_eq!(failure(revoke_exchange_check(&accepted, "z")), (403, "Only a party to the exchange can revoke it".to_string()));
    assert_eq!(failure(revoke_exchange_check(&pending, "a")), (409, "Can only revoke accepted exchanges".to_string()));
    let (later, changed) = expire_if_due(exchange(ContactExchangeStatus::Accepted, Some(100)), 101);
    assert!(changed);
    assert_eq!(later.status, ContactExchangeStatus::Revoked);
    let (same, unchanged) = expire_if_due(exchange(ContactExchangeStatus::Accepted, Some(100)), 100);
    assert!(!unchanged);
    assert_eq!(same.status, ContactExchangeStatus::Accepted);
}

fn competition_request() -> CreateCompetitionRequest {
    CreateCompetitionRequest {
        name: "Hack".to_string(), organizer: "FJU".to_string(), icon: None, icon_bg: None, status: None,
        prize: None, team_size_min: None, team_size_max: None, deadline: None, duration: None, tags: None,
        description: None, is_featured: None, banner_image: None, publish_status: None,
    }
}

#[test]
fn competitions_and_teams() {
    let c = new_competition("c1".to_string(), "pub", competition_request(), 5);
    assert_eq!((c.icon.as_str(), c.status.as_str(), c.publish_status.as_str()), ("Cp", "open", "draft"));
    assert_eq!((c.team_size_min, c.team_size_max), (2, 5));
    assert!(submit_review_check(&c, "pub").is_ok());
    assert_eq!(failure(submit_review_check(&c, "other")), (403, "Not the publisher".to_string()));
    assert!(register_check(&c, "u").is_ok());
    assert_eq!(published_only(vec![c]).len(), 0);
    let lead = team_member("l", "Lee", "L", true, 1);
    assert_eq!(lead.role.as_deref(), Some("Lead"));
    let t = new_team(
        "t".to_string(), "l".to_string(), lead,
        CreateCompTeamBody { competition_id: "c1".to_string(), competition_name: "Hack".to_string(), name: "T".to_string(), description: None, max_members: None, looking_for: None, open_roles: None },
        1,
    );
    assert_eq!((t.max_members, t.status.as_str()), (5, "recruiting"));
    assert_eq!(failure(apply_check(&t, "l", false)), (409, "Already a member".to_string()));
    assert_eq!(failure(apply_check(&t, "x", true)), (409, "Already applied".to_string()));
    assert!(apply_check(&t, "x", false).is_ok());
}

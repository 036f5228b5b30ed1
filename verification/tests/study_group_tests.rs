use teamder::api::routes::changes::{group_changes, FieldValue};
use teamder::api::routes::study_group_announcements::{announcement_manage_check, is_admin_or_creator, new_announcement};
use teamder::api::routes::study_group_events::{event_manage_check, new_event, rsvp_decision};
use teamder::api::routes::study_groups::{
    add_admin_check, add_note_check, checkin_check, complete_check, completion_body, completion_title,
    creator_needs_entry, delete_group_check, delete_note_check, enriched_members, group_link,
    group_list_params, join_check, leave_group_check, lookup_name, merge_created_groups, new_group_member,
    new_note, new_study_group, progress_check, CreateStudyGroupRequest, CreateStudyNoteRequest,
    UpdateStudyGroupRequest,
};
use teamder::error::TeamderError;
use teamder::models::study_group::{GroupMember, StudyGroup, StudyNote};
use teamder::models::study_group_announcement::CreateAnnouncementBody;
use teamder::models::study_group_event::{CreateEventBody, StudyGroupEvent};

const DAY: i64 = 86_400_000;

fn failure<T>(r: Result<T, TeamderError>) -> (u16, String) {
    match r {
        Ok(_) => panic!("expected an error"),
        Err(e) => (e.status_code(), e.message().to_string()),
    }
}

fn member(id: &str, last: Option<i64>) -> GroupMember {
    GroupMember {
        user_id: id.to_string(),
        initials: "AB".to_string(),
        color: "#000".to_string(),
        joined_at: 0,
        last_checkin: last,
        streak: 0,
    }
}

fn group(creator: &str, members: Vec<GroupMember>, max: u8, open: bool) -> StudyGroup {
    StudyGroup {
        id: "g1".to_string(),
        name: "Rustaceans".to_string(),
        goal: String::new(),
        icon: "Sg".to_string(),
        icon_bg: String::new(),
        subject: "General".to_string(),
        tags: vec![],
        members,
        max_members: max,
        schedule: String::new(),
        duration_weeks: 8,
        current_week: 1,
        is_open: open,
        status: "active".to_string(),
        join_mode: "direct".to_string(),
        banner_image: None,
        notes: vec![],
        description: None,
        admins: vec!["adm".to_string()],
        created_by: creator.to_string(),
        created_at: 0,
        updated_at: 0,
    }
}

#[test]
fn listing_parameters() {
    assert_eq!(group_list_params(None, None, None, None, None), (20, 0, None));
    assert_eq!(group_list_params(Some(500), Some(7), None, Some(true), None), (100, 7, Some(true)));
    assert_eq!(group_list_params(Some(10), Some(5), Some(3), Some(true), Some(false)), (10, 20, Some(false)));
    assert_eq!(group_list_params(Some(10), Some(50), Some(3), None, None), (10, 50, None));
    assert_eq!(group_list_params(Some(10), None, Some(0), None, None), (10, 0, None));
}

#[test]
fn creating_a_group() {
    let req = CreateStudyGroupRequest {
        name: "Algo".to_string(),
        goal: "Pass".to_string(),
        subject: "CS".to_string(),
        tags: vec!["dp".to_string()],
        max_members: None,
        schedule: "Mon".to_string(),
        duration_weeks: 6,
        icon: None,
        icon_bg: Some("#fff".to_string()),
        join_mode: None,
        banner_image: None,
        description: Some("d".to_string()),
    };
    let creator = new_group_member("u1", "U", 5);
    assert_eq!(creator.color, "#4F6D7A");
    let g = new_study_group("g9".to_string(), req, "u1", 5);
    assert_eq!(g.max_members, 6);
    assert_eq!(g.icon, "Sg");
    assert_eq!(g.icon_bg, "#fff");
    assert_eq!(g.join_mode, "direct");
    assert_eq!(g.status, "active");
    assert_eq!(g.created_by, "u1");
    assert_eq!(g.members.len(), 0);
    assert!(g.is_open);
    assert_eq!(g.current_week, 1);
}

#[test]
fn joining_checks_capacity() {
    assert_eq!(failure(join_check(&group("c", vec![], 6, false))), (409, "This study group is closed".to_string()));
    let full = group("c", vec![member("a", None), member("b", None)], 2, true);
    assert_eq!(failure(join_check(&full)), (409, "Study group is full".to_string()));
    let room = group("c", vec![member("a", None)], 2, true);
    assert!(join_check(&room).is_ok());
}

#[test]
fn creator_rules() {
    let g = group("c", vec![member("a", None)], 6, true);
    assert_eq!(failure(leave_group_check(&g, "c")), (409, "Creator cannot leave the group".to_string()));
    assert!(leave_group_check(&g, "a").is_ok());
    assert_eq!(failure(delete_group_check(&g, "a", false)), (403, "Not authorized".to_string()));
    assert!(delete_group_check(&g, "a", true).is_ok());
    assert!(delete_group_check(&g, "c", false).is_ok());
    assert_eq!(failure(add_admin_check(&g, "a", "a")), (403, "Not authorized".to_string()));
    assert_eq!(failure(add_admin_check(&g, "c", "zz")), (422, "User must be a member first".to_string()));
    assert!(add_admin_check(&g, "c", "a").is_ok());
}

#[test]
fn checkins_once_per_day() {
    let now = 10 * DAY + 5_000;
    let g = group("c", vec![member("a", Some(10 * DAY + 1)), member("b", Some(9 * DAY)), member("d", None)], 6, true);
    assert_eq!(failure(checkin_check(&g, "a", now)), (409, "Already checked in today".to_string()));
    assert!(checkin_check(&g, "b", now).is_ok());
    assert!(checkin_check(&g, "d", now).is_ok());
    assert_eq!(failure(checkin_check(&g, "zz", now)), (403, "Not authorized".to_string()));
    assert!(creator_needs_entry(&g, "c"));
    assert!(!creator_needs_entry(&g, "a"));
}

#[test]
fn notes() {
    let mut g = group("c", vec![member("a", None)], 6, true);
    assert!(add_note_check(&g, "c").is_ok());
    assert!(add_note_check(&g, "a").is_ok());
    assert_eq!(failure(add_note_check(&g, "x")), (403, "Not authorized".to_string()));
    let n = new_note("n1".to_string(), "a", "Ann", CreateStudyNoteRequest { title: "T".to_string(), body: "B".to_string() }, 7);
    assert_eq!(n.author_name, "Ann");
    g.notes.push(StudyNote { id: n.id, author_id: n.author_id, author_name: n.author_name, title: n.title, body: n.body, created_at: n.created_at });
    assert_eq!(failure(delete_note_check(&g, "n2", "a")), (404, "Note not found".to_string()));
    assert_eq!(failure(delete_note_check(&g, "n1", "x")), (403, "Not authorized".to_string()));
    assert!(delete_note_check(&g, "n1", "a").is_ok());
    assert!(delete_note_check(&g, "n1", "c").is_ok());
}

#[test]
fn progress_and_completion() {
    let mut g = group("c", vec![], 6, true);
    assert_eq!(failure(progress_check(&g, "x", 2)), (403, "Not authorized".to_string()));
    assert_eq!(failure(progress_check(&g, "c", 9)), (422, "current_week cannot exceed duration_weeks".to_string()));
    assert!(progress_check(&g, "c", 8).is_ok());
    assert!(complete_check(&g, "c").is_ok());
    g.status = "completed".to_string();
    assert_eq!(failure(complete_check(&g, "c")), (409, "Study group is already completed".to_string()));
    assert_eq!(failure(progress_check(&g, "c", 1)), (409, "Study group is already completed".to_string()));
    assert_eq!(completion_title("Algo"), "Algo is completed!");
    assert_eq!(
        completion_body("Ann", "Algo"),
        "Ann marked \"Algo\" as completed. You can now leave reviews for your groupmates."
    );
    assert_eq!(group_link("g1"), "/study-groups/g1");
}

#[test]
fn member_names() {
    let names = vec![("a".to_string(), "Ann".to_string()), ("a".to_string(), "Anna".to_string())];
    assert_eq!(lookup_name(&names, "a"), "Anna");
    assert_eq!(lookup_name(&names, "b"), "");
    let e = enriched_members(&vec![member("a", None), member("b", None)], &names);
    assert_eq!(e.len(), 2);
    assert_eq!(e[0].name, "Anna");
    assert_eq!(e[1].name, "");
}

#[test]
fn groups_of_a_user_without_repeats() {
    let mut g2 = group("c", vec![], 6, true);
    g2.id = "g2".to_string();
    let mut g3 = group("c", vec![], 6, true);
    g3.id = "g3".to_string();
    let mut g3b = group("c", vec![], 6, true);
    g3b.id = "g3".to_string();
    let merged = merge_created_groups(vec![group("c", vec![], 6, true)], vec![g2, group("c", vec![], 6, true), g3, g3b]);
    let ids: Vec<String> = merged.iter().map(|g| g.id.clone()).collect();
    assert_eq!(ids, vec!["g1", "g2", "g3"]);
}

#[test]
fn group_update_fields() {
    let req = UpdateStudyGroupRequest {
        name: Some("N".to_string()),
        goal: None,
        description: None,
        subject: None,
        tags: None,
        schedule: None,
        max_members: Some(9),
        is_open: Some(false),
        join_mode: None,
        banner_image: None,
    };
    let ch = group_changes(req);
    let fields: Vec<&str> = ch.iter().map(|c| c.field).collect();
    assert_eq!(fields, vec!["name", "max_members", "is_open"]);
    assert!(matches!(ch[1].value, FieldValue::Number(9)));
    let empty = UpdateStudyGroupRequest {
        name: None, goal: None, description: None, subject: None, tags: None, schedule: None,
        max_members: None, is_open: None, join_mode: None, banner_image: None,
    };
    assert!(group_changes(empty).is_empty());
}

#[test]
fn announcements_and_events_moderation() {
    let g = group("c", vec![member("a", None)], 6, true);
    assert!(is_admin_or_creator(&g.admins, "c", "c"));
    assert!(is_admin_or_creator(&g.admins, "c", "adm"));
    assert!(!is_admin_or_creator(&g.admins, "c", "a"));
    assert!(announcement_manage_check(&g, "adm").is_ok());
    assert_eq!(failure(announcement_manage_check(&g, "a")), (403, "Not authorized".to_string()));
    assert_eq!(failure(event_manage_check(&g, "a")), (403, "Not authorized".to_string()));
    let ann = new_announcement("g1", "c", "Cat", &CreateAnnouncementBody { title: "T".to_string(), content: "C".to_string(), pinned: true });
    assert!(ann.pinned);
    assert_eq!(ann.id.len(), 36);
    let ev = new_event("g1", "c", "Cat", CreateEventBody { title: "Meet".to_string(), location: "Lib".to_string(), starts_at: 5, ends_at: Some(9), description: None });
    assert_eq!(ev.ends_at, Some(9));
    assert!(ev.attendees.is_empty());
}

#[test]
fn rsvp_toggles() {
    let g = group("c", vec![member("a", None)], 6, true);
    let mut ev = StudyGroupEvent {
        id: "e".to_string(), group_id: "g1".to_string(), author_id: "c".to_string(), author_name: "C".to_string(),
        title: "T".to_string(), location: "L".to_string(), starts_at: 0, ends_at: None, description: None,
        attendees: vec![], created_at: 0,
    };
    assert!(matches!(rsvp_decision(&g, &ev, "a"), Ok(true)));
    ev.attendees.push("a".to_string());
    assert!(matches!(rsvp_decision(&g, &ev, "a"), Ok(false)));
    assert!(matches!(rsvp_decision(&g, &ev, "c"), Ok(true)));
    assert_eq!(failure(rsvp_decision(&g, &ev, "x")), (403, "Not authorized".to_string()));
}

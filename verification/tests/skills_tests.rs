use teamder::models::user::Skill;
use teamder::skills::{
    availability_points, category_of, filter_valid_skills, is_valid_skill, novel_tag_count,
    overlap_counts, shared_texts, skill_catalog, skill_level, tag_categories,
};

fn strings(v: &[&str]) -> Vec<String> {
    v.iter().map(|s| s.to_string()).collect()
}

#[test]
fn test_is_valid_skill() {
    assert!(is_valid_skill("React"));
    assert!(is_valid_skill("react")); // case insensitive
    assert!(is_valid_skill("Next.js"));
    assert!(!is_valid_skill("FakeSkill123"));
}

#[test]
fn test_category_of() {
    assert_eq!(category_of("React"), Some("frontend"));
    assert_eq!(category_of("Docker"), Some("devops"));
    assert_eq!(category_of("Unity"), Some("game"));
    assert_eq!(category_of("nonexistent"), None);
}

#[test]
fn test_filter_valid_skills() {
    let input = vec!["React".to_string(), "Fake".to_string(), "Docker".to_string()];
    let valid = filter_valid_skills(&input);
    assert_eq!(valid, vec!["React", "Docker"]);
}

#[test]
fn test_catalog_has_12_categories() {
    assert_eq!(skill_catalog().len(), 12);
}

#[test]
fn validity_ignores_case() {
    assert_eq!(is_valid_skill("DOCKER"), is_valid_skill("docker"));
    assert!(is_valid_skill("DOCKER"));
    assert_eq!(category_of("UNITY"), category_of("unity"));
}

#[test]
fn filtering_twice_changes_nothing() {
    let input = strings(&["React", "Fake", "docker", "Nope", "Unity"]);
    let once = filter_valid_skills(&input);
    let twice = filter_valid_skills(&once);
    assert_eq!(once, twice);
    assert_eq!(once, vec!["React", "docker", "Unity"]);
}

#[test]
fn filtering_an_empty_list() {
    assert!(filter_valid_skills(&[]).is_empty());
}

#[test]
fn overlap_counts_distinct_texts() {
    let a = strings(&["React", "React", "Docker", "Go"]);
    let b = strings(&["Docker", "Rust", "Go", "Go"]);
    assert_eq!(overlap_counts(&a, &b), (2, 4));
    assert_eq!(overlap_counts(&b, &a), (2, 4));
    assert_eq!(overlap_counts(&a, &Vec::new()), (0, 3));
    assert_eq!(overlap_counts(&Vec::new(), &Vec::new()), (0, 0));
}

#[test]
fn overlap_is_case_sensitive() {
    let a = strings(&["react"]);
    let b = strings(&["React"]);
    assert_eq!(overlap_counts(&a, &b), (0, 2));
}

#[test]
fn shared_texts_in_first_order() {
    let a = strings(&["Go", "Docker", "Go", "React"]);
    let b = strings(&["React", "Go"]);
    assert_eq!(shared_texts(&a, &b), vec!["Go", "React"]);
}

#[test]
fn novel_tags_count_duplicates() {
    let viewer = strings(&["React"]);
    let target = strings(&["Go", "Go", "React", "Rust"]);
    assert_eq!(novel_tag_count(&viewer, &target), 3);
    assert_eq!(novel_tag_count(&target, &viewer), 0);
}

#[test]
fn categories_of_known_tags() {
    let tags = strings(&["React", "Fake", "Docker"]);
    assert_eq!(tag_categories(&tags), vec!["frontend", "devops"]);
}

#[test]
fn skill_levels_default_to_fifty() {
    let skills = vec![
        Skill { name: "Rust".to_string(), level: 80 },
        Skill { name: "Rust".to_string(), level: 20 },
    ];
    assert_eq!(skill_level(&skills, "Rust"), 80);
    assert_eq!(skill_level(&skills, "rust"), 50);
    assert_eq!(skill_level(&Vec::new(), "Go"), 50);
}

#[test]
fn availability_points_table() {
    assert_eq!(availability_points(Some("busy"), Some("busy")), 100);
    assert_eq!(availability_points(Some("busy"), Some("open_for_collab")), 80);
    assert_eq!(availability_points(Some("open_for_collab"), Some("busy")), 30);
    assert_eq!(availability_points(Some("busy"), Some("unavailable")), 10);
    assert_eq!(availability_points(None, Some("open_for_collab")), 70);
    assert_eq!(availability_points(None, Some("busy")), 30);
    assert_eq!(availability_points(Some("busy"), None), 50);
    assert_eq!(availability_points(None, None), 50);
}

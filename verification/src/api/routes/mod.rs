//! Decisions of the HTTP routes: checks, defaults and the documents they build.
pub mod admin;
pub mod admin_skills;
pub mod auth;
pub mod bookmarks;
pub mod changes;
pub mod chat;
pub mod competition_teams;
pub mod competitions;
pub mod contact_exchange;
pub mod invites;
pub mod join_requests;
pub mod peer_reviews;
pub mod project_updates;
pub mod projects;
pub mod reports;
pub mod search;
pub mod skills;
pub mod study_group_announcements;
pub mod study_group_events;
pub mod study_groups;
pub mod uploads;
pub mod users;

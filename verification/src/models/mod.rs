//! Documents and request/response shapes of the Teamder domain.
//! Instants are milliseconds since the Unix epoch (UTC).
pub mod auth_code;
pub mod bookmark;
pub mod competition;
pub mod competition_team;
pub mod contact_exchange;
pub mod invite;
pub mod join_request;
pub mod message;
pub mod notification;
pub mod peer_review;
pub mod project;
pub mod project_update;
pub mod report;
pub mod skill_catalog;
pub mod study_group;
pub mod study_group_announcement;
pub mod study_group_event;
pub mod user;

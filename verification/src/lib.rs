//! Request logic of the assistant's web UI API: authentication decisions,
//! access rules, message runs, conversations, attachments, webhooks,
//! personas, skills, workflows and the read-only dashboards.
use vstd::prelude::*;

pub mod access;
pub mod account;
pub mod agents;
pub mod analytics;
pub mod api_keys;
pub mod attachments;
pub mod audio;
pub mod auth;
pub mod commands;
pub mod conversations;
pub mod http;
pub mod listing;
pub mod logs;
pub mod messages;
pub mod personas;
pub mod push;
pub mod skills;
pub mod spaces;
pub mod templates;
pub mod tenancy;
pub mod text;
pub mod time;
pub mod traces;
pub mod turns;
pub mod users;
pub mod webhooks;
pub mod workflows;

verus! {

} // verus!

//! Registered remote agents and their summaries.
use vstd::prelude::*;

use crate::http::{is_error, ApiError};
use crate::text::to_owned_string;

verus! {

/// What an agent card says that the summaries show.
#[derive(Debug, Clone)]
pub struct AgentCardInfo {
    pub name: String,
    pub version: String,
    pub description: String,
    /// The names of the skills the card advertises.
    pub skills: Vec<String>,
    /// The interfaces the card advertises.
    pub supported_interfaces: Vec<String>,
}

/// An agent as the agent store keeps it.
#[derive(Debug, Clone)]
pub struct RegisteredAgent {
    pub id: String,
    pub is_default: bool,
    pub card: AgentCardInfo,
}

/// An agent in a list.
#[derive(Debug, Clone)]
pub struct AgentSummary {
    pub id: String,
    pub name: String,
    pub version: String,
    pub description: String,
    pub is_default: bool,
    pub skill_count: usize,
    pub interface_count: usize,
}

/// The summary of an agent: its card's identity and how many skills and
/// interfaces it advertises.
pub fn to_summary(agent: &RegisteredAgent) -> (s: AgentSummary)
    ensures
        s.id@ == agent.id@,
        s.name@ == agent.card.name@,
        s.version@ == agent.card.version@,
        s.description@ == agent.card.description@,
        s.is_default == agent.is_default,
        s.skill_count == agent.card.skills.len(),
        s.interface_count == agent.card.supported_interfaces.len(),
{
    AgentSummary {
        id: agent.id.clone(),
        name: agent.card.name.clone(),
        version: agent.card.version.clone(),
        description: agent.card.description.clone(),
        is_default: agent.is_default,
        skill_count: agent.card.skills.len(),
        interface_count: agent.card.supported_interfaces.len(),
    }
}

/// The answer for an agent card that does not parse: `400` (JSON) with the
/// parser's message.
pub fn invalid_card(reason: &str) -> (e: ApiError)
    ensures
        e.status == 400 && e.json && e.message@ == "Invalid agent card: "@ + reason@,
{
    let mut m = to_owned_string("Invalid agent card: ");
    m.append(reason);
    ApiError { status: 400, message: m, json: true }
}

/// The answer for an unknown agent: `404` (JSON).
pub fn agent_not_found() -> (e: ApiError)
    ensures
        is_error(e, 404, "Agent not found"@, true),
{
    ApiError::json(404, "Agent not found")
}

/// Whether a new agent becomes the default: only when asked to.
pub fn registers_as_default(set_default: Option<bool>) -> (r: bool)
    ensures
        r == (set_default == Some(true)),
{
    match set_default {
        Some(b) => b,
        None => false,
    }
}

} // verus!

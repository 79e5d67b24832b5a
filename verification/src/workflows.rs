//! Workflows: ids, the counts that summarise a workflow's graph, the URL of
//! its webhook, and the answers of runs and triggers.
use vstd::prelude::*;

use crate::http::{parse_uuid_str, uuid_parse, uuid_text, uuid_to_string};
use crate::text::{to_owned_string, trim_spec, trim_str};
use crate::time::Timestamp;

verus! {

/// Parses a workflow or run id; one that does not parse is `400 Invalid
/// workflow ID`.
pub fn parse_uuid(s: &str) -> (r: Result<u128, (u16, String)>)
    ensures
        uuid_parse(s@) is Some ==> r == Ok::<u128, (u16, String)>(uuid_parse(s@)->0),
        uuid_parse(s@) is None ==> r is Err && r->Err_0.0 == 400 && r->Err_0.1@
            == "Invalid workflow ID"@,
{
    match parse_uuid_str(s) {
        Some(u) => Ok(u),
        None => Err((400, to_owned_string("Invalid workflow ID"))),
    }
}

/// The kinds of workflow nodes.
#[derive(Debug, Clone, Copy, PartialEq, Eq)]
pub enum NodeKind {
    Trigger,
    Action,
}

/// The number of trigger nodes.
pub open spec fn trigger_count(kinds: Seq<NodeKind>) -> nat
    decreases kinds.len(),
{
    if kinds.len() == 0 {
        0
    } else {
        trigger_count(kinds.drop_last()) + if kinds.last() == NodeKind::Trigger {
            1nat
        } else {
            0nat
        }
    }
}

proof fn lemma_trigger_count_bound(kinds: Seq<NodeKind>)
    ensures
        trigger_count(kinds) <= kinds.len(),
    decreases kinds.len(),
{
    if kinds.len() > 0 {
        lemma_trigger_count_bound(kinds.drop_last());
    }
}

/// The number of trigger nodes and of the other (action) nodes.
pub fn count_nodes(kinds: &[NodeKind]) -> (r: (usize, usize))
    ensures
        r.0 == trigger_count(kinds@),
        r.0 + r.1 == kinds.len(),
{
    let mut triggers: usize = 0;
    let mut i: usize = 0;
    while i < kinds.len()
        invariant
            i <= kinds.len(),
            triggers == trigger_count(kinds@.take(i as int)),
            triggers <= i,
        decreases kinds.len() - i,
    {
        proof {
            let t = kinds@.take(i + 1);
            assert(t.drop_last() =~= kinds@.take(i as int));
            assert(t.last() == kinds@[i as int]);
        }
        match kinds[i] {
            NodeKind::Trigger => {
                triggers = triggers + 1;
            },
            NodeKind::Action => {},
        }
        i = i + 1;
    }
    assert(kinds@.take(kinds.len() as int) =~= kinds@);
    (triggers, kinds.len() - triggers)
}

/// A workflow as the store keeps it, with its graph read down to what the
/// summaries show.
#[derive(Debug, Clone)]
pub struct WorkflowRecord {
    pub id: u128,
    pub name: String,
    pub description: String,
    pub active: bool,
    /// The kind of each node of the graph.
    pub node_kinds: Vec<NodeKind>,
    pub edge_count: usize,
    pub max_steps: u32,
    pub max_visits_per_node: u32,
    pub created_at: Timestamp,
    pub updated_at: Timestamp,
}

/// A workflow in a list.
#[derive(Debug, Clone)]
pub struct WorkflowSummary {
    pub id: String,
    pub name: String,
    pub description: String,
    pub active: bool,
    pub node_count: usize,
    pub edge_count: usize,
    pub trigger_count: usize,
    pub action_count: usize,
    pub max_steps: u32,
    pub max_visits_per_node: u32,
    pub created_at: Timestamp,
    pub updated_at: Timestamp,
}

/// The summary of a workflow: its graph's node, edge, trigger and action
/// counts and execution limits.
pub fn to_summary(w: &WorkflowRecord) -> (s: WorkflowSummary)
    ensures
        s.id@ == uuid_text(w.id),
        s.name@ == w.name@ && s.description@ == w.description@ && s.active == w.active,
        s.node_count == w.node_kinds.len(),
        s.edge_count == w.edge_count,
        s.trigger_count == trigger_count(w.node_kinds@),
        s.trigger_count + s.action_count == s.node_count,
        s.max_steps == w.max_steps && s.max_visits_per_node == w.max_visits_per_node,
        s.created_at == w.created_at && s.updated_at == w.updated_at,
{
    let (triggers, actions) = count_nodes(w.node_kinds.as_slice());
    WorkflowSummary {
        id: uuid_to_string(w.id),
        name: w.name.clone(),
        description: w.description.clone(),
        active: w.active,
        node_count: w.node_kinds.len(),
        edge_count: w.edge_count,
        trigger_count: triggers,
        action_count: actions,
        max_steps: w.max_steps,
        max_visits_per_node: w.max_visits_per_node,
        created_at: w.created_at,
        updated_at: w.updated_at,
    }
}

/// The name and description that a create or update stores: both trimmed.
pub fn upsert_texts(name: &str, description: &str) -> (r: (String, String))
    ensures
        r.0@ == trim_spec(name@),
        r.1@ == trim_spec(description@),
{
    (to_owned_string(trim_str(name)), to_owned_string(trim_str(description)))
}

/// The answer for a workflow that does not exist: `404`.
pub fn workflow_not_found() -> (r: (u16, String))
    ensures
        r.0 == 404 && r.1@ == "Workflow not found"@,
{
    (404, to_owned_string("Workflow not found"))
}

/// The webhook address of a workflow and its token.
#[derive(Debug, Clone)]
pub struct WorkflowWebhookSecrets {
    pub webhook_url: String,
    pub webhook_token: String,
}

/// The webhook address of a workflow: `/workflow-hooks/{id}/{token}`.
pub fn webhook_secrets(workflow_id: u128, token: String) -> (r: WorkflowWebhookSecrets)
    ensures
        r.webhook_url@ == "/workflow-hooks/"@ + uuid_text(workflow_id) + "/"@ + token@,
        r.webhook_token == token,
{
    let mut url = to_owned_string("/workflow-hooks/");
    let id = uuid_to_string(workflow_id);
    url.append(id.as_str());
    url.append("/");
    url.append(token.as_str());
    WorkflowWebhookSecrets { webhook_url: url, webhook_token: token }
}

/// A missing webhook endpoint: `404`.
pub fn webhook_endpoint_not_found() -> (r: (u16, String))
    ensures
        r.0 == 404 && r.1@ == "Workflow webhook endpoint not found"@,
{
    (404, to_owned_string("Workflow webhook endpoint not found"))
}

/// The answer of a test run: the run is accepted and queued.
#[derive(Debug, Clone)]
pub struct WorkflowRunPreview {
    pub workflow_id: String,
    pub run_id: String,
    pub status: String,
    pub message: String,
    pub started_at: Timestamp,
    pub max_steps: u32,
    pub max_visits_per_node: u32,
}

/// The answer of a test run of a workflow.
pub fn run_preview(w: &WorkflowRecord, run_id: u128, started_at: Timestamp) -> (r:
    WorkflowRunPreview)
    ensures
        r.workflow_id@ == uuid_text(w.id),
        r.run_id@ == uuid_text(run_id),
        r.status@ == "accepted"@,
        r.message@ == "Workflow run accepted and queued for execution worker"@,
        r.started_at == started_at,
        r.max_steps == w.max_steps && r.max_visits_per_node == w.max_visits_per_node,
{
    WorkflowRunPreview {
        workflow_id: uuid_to_string(w.id),
        run_id: uuid_to_string(run_id),
        status: to_owned_string("accepted"),
        message: to_owned_string("Workflow run accepted and queued for execution worker"),
        started_at,
        max_steps: w.max_steps,
        max_visits_per_node: w.max_visits_per_node,
    }
}

/// The answer of an accepted webhook trigger.
#[derive(Debug, Clone)]
pub struct WorkflowWebhookTriggerAccepted {
    pub workflow_id: String,
    pub run_id: String,
    pub status: String,
}

/// The answer of a webhook trigger: an unknown workflow or a wrong token is
/// `404`; otherwise the queued run is `202` with status `accepted`.
pub fn webhook_trigger_answer(resolved: Option<u128>, run_id: u128) -> (r: Result<
    WorkflowWebhookTriggerAccepted,
    (u16, String),
>)
    ensures
        resolved is None ==> r is Err && r->Err_0.0 == 404 && r->Err_0.1@
            == "Workflow webhook not found"@,
        resolved is Some ==> r is Ok && r->Ok_0.workflow_id@ == uuid_text(resolved->0)
            && r->Ok_0.run_id@ == uuid_text(run_id) && r->Ok_0.status@ == "accepted"@,
{
    match resolved {
        None => Err((404, to_owned_string("Workflow webhook not found"))),
        Some(w) => Ok(
            WorkflowWebhookTriggerAccepted {
                workflow_id: uuid_to_string(w),
                run_id: uuid_to_string(run_id),
                status: to_owned_string("accepted"),
            },
        ),
    }
}

/// A missing run: `404`.
pub fn run_not_found() -> (r: (u16, String))
    ensures
        r.0 == 404 && r.1@ == "Run not found"@,
{
    (404, to_owned_string("Run not found"))
}

} // verus!

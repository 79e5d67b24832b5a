use web_ui::time::Timestamp;
use web_ui::workflows::{
    count_nodes, parse_uuid, run_preview, to_summary, upsert_texts, webhook_secrets,
    webhook_trigger_answer, NodeKind, WorkflowRecord,
};

#[test]
fn parse_uuid_accepts_valid_string() {
    let s = uuid::Uuid::new_v4().to_string();
    assert!(parse_uuid(&s).is_ok());
}

#[test]
fn parse_uuid_rejects_garbage() {
    let err = parse_uuid("not-a-uuid").unwrap_err();
    assert_eq!(err.0, 400);
    assert!(err.1.contains("workflow ID"));
}

#[test]
fn count_nodes_splits_triggers_and_actions() {
    assert_eq!(count_nodes(&[NodeKind::Trigger, NodeKind::Action]), (1, 1));
    assert_eq!(count_nodes(&[]), (0, 0));
    assert_eq!(count_nodes(&[NodeKind::Action, NodeKind::Action, NodeKind::Trigger]), (1, 2));
}

fn record() -> WorkflowRecord {
    WorkflowRecord {
        id: 1,
        name: "n".into(),
        description: "d".into(),
        active: false,
        node_kinds: vec![NodeKind::Trigger, NodeKind::Action, NodeKind::Action],
        edge_count: 2,
        max_steps: 100,
        max_visits_per_node: 10,
        created_at: Timestamp { secs: 0, nanos: 0 },
        updated_at: Timestamp { secs: 1, nanos: 0 },
    }
}

#[test]
fn summaries_count_the_graph() {
    let s = to_summary(&record());
    assert_eq!(s.id, "00000000-0000-0000-0000-000000000001");
    assert_eq!((s.node_count, s.edge_count, s.trigger_count, s.action_count), (3, 2, 1, 2));
    assert_eq!(upsert_texts("  a ", " b"), ("a".to_string(), "b".to_string()));
}

#[test]
fn webhook_urls_and_trigger_answers() {
    let s = webhook_secrets(1, "tok".into());
    assert_eq!(s.webhook_url, "/workflow-hooks/00000000-0000-0000-0000-000000000001/tok");
    assert_eq!(s.webhook_token, "tok");
    let e = webhook_trigger_answer(None, 2).unwrap_err();
    assert_eq!((e.0, e.1.as_str()), (404, "Workflow webhook not found"));
    let ok = webhook_trigger_answer(Some(1), 2).unwrap();
    assert_eq!(ok.status, "accepted");
    assert_eq!(ok.run_id, "00000000-0000-0000-0000-000000000002");
    let p = run_preview(&record(), 2, Timestamp { secs: 5, nanos: 0 });
    assert_eq!(p.message, "Workflow run accepted and queued for execution worker");
    assert_eq!(p.max_steps, 100);
}

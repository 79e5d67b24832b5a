use web_ui::attachments::AttachmentMeta;
use web_ui::conversations::{
    conversation_detail, history_view, rename_failed, snapshot_agent, stream_delta, summarize,
    title_or_untitled, ConversationDelta, ConversationEvent, ConversationRecord, HistoryMessage,
    MessageRole, StreamConversationsQuery,
};

fn record(id: u128, agent: &str, title: Option<&str>) -> ConversationRecord {
    ConversationRecord {
        id,
        agent_id: agent.to_string(),
        title: title.map(|t| t.to_string()),
        created_at: "2024-01-01T00:00:00Z".to_string(),
        updated_at: "2024-01-02T00:00:00Z".to_string(),
    }
}

fn msg(id: u128, role: MessageRole, content: &str, turn: i64) -> HistoryMessage {
    HistoryMessage {
        id,
        role,
        role_name: format!("{role:?}").to_lowercase(),
        content: content.to_string(),
        turn,
        created_at: "t".to_string(),
        tool_calls_json: None,
        skill_name: None,
    }
}

#[test]
fn test_create_conversation_without_title_leaves_title_null() {
    assert_eq!(title_or_untitled(&None), "Untitled");
    let s = summarize(&record(1, "default", None));
    assert_eq!(s.title, "Untitled");
    let s = summarize(&record(1, "default", Some("Plans")));
    assert_eq!(s.title, "Plans");
    assert_eq!(s.created_at, "2024-01-01T00:00:00Z");
}

#[test]
fn stream_filters_other_personas() {
    let q = StreamConversationsQuery { agent_id: Some("work".to_string()) };
    assert_eq!(snapshot_agent(&q, "default"), "work");
    assert!(stream_delta(&q, &ConversationEvent::Upserted(record(1, "default", None))).is_none());
    match stream_delta(&q, &ConversationEvent::Upserted(record(1, "work", None))) {
        Some(ConversationDelta::Upserted(s)) => assert_eq!(s.id, 1),
        other => panic!("unexpected {other:?}"),
    }
    let del = ConversationEvent::Deleted { conversation_id: 5, agent_id: "work".to_string() };
    assert!(matches!(stream_delta(&q, &del), Some(ConversationDelta::Deleted(5))));
    let all = StreamConversationsQuery { agent_id: None };
    assert_eq!(snapshot_agent(&all, "default"), "default");
    assert!(stream_delta(&all, &ConversationEvent::Upserted(record(1, "x", None))).is_some());
}

#[test]
fn patch_conversation_rename_errors() {
    let e = rename_failed("conversation not found");
    assert_eq!((e.status, e.message.as_str()), (404, "Conversation not found"));
    let e = rename_failed("disk full");
    assert_eq!((e.status, e.message.as_str()), (500, "Failed to update conversation"));
}

#[test]
fn get_conversation_returns_detail_with_empty_messages() {
    let d = conversation_detail(&record(3, "default", None), None, None, false);
    assert_eq!(d.id, 3);
    assert_eq!(d.title, "Untitled");
    assert!(d.messages.is_empty());
}

#[test]
fn history_joins_tool_calls_with_their_results() {
    let mut assistant = msg(2, MessageRole::Assistant, "Let me look.", 1);
    assistant.tool_calls_json = Some(
        r#"[{"name":"search","params":{"q":"x"}},{"params":{}},{"name":"deny_me"},{"name":"quiet"}]"#
            .to_string(),
    );
    let mut tool = msg(3, MessageRole::Tool, "Error executing search: boom", 1);
    tool.skill_name = Some("search".to_string());
    let mut denied = msg(4, MessageRole::Tool, "User denied the call", 1);
    denied.skill_name = Some("deny_me".to_string());
    let history = vec![
        msg(1, MessageRole::System, "system prompt", 0),
        msg(5, MessageRole::User, "find x", 1),
        assistant,
        tool,
        denied,
    ];
    let view = history_view(&history, &[], true);
    assert_eq!(view.len(), 2);
    assert_eq!(view[0].id, 5);
    assert!(view[0].tool_calls.is_none());
    assert!(!view[0].tts_available);
    let calls = view[1].tool_calls.as_ref().unwrap();
    assert_eq!(calls.len(), 3);
    assert_eq!(calls[0].name, "search");
    assert_eq!(calls[0].status, "error");
    assert_eq!(calls[0].result.as_deref(), Some("Error executing search: boom"));
    let args: serde_json::Value = serde_json::from_str(calls[0].arguments.as_deref().unwrap()).unwrap();
    assert_eq!(args, serde_json::from_str::<serde_json::Value>("{\"q\": \"x\"}").unwrap());
    assert!(calls[1].arguments.is_none());
    assert_eq!(calls[1].name, "deny_me");
    assert_eq!(calls[1].status, "denied");
    assert_eq!(calls[2].name, "quiet");
    assert_eq!(calls[2].status, "ok");
    assert!(calls[2].result.is_none());
    assert!(view[1].tts_available);
}

#[test]
fn long_tool_results_are_cut_at_512_bytes() {
    let mut assistant = msg(2, MessageRole::Assistant, "", 7);
    assistant.tool_calls_json = Some(r#"[{"name":"dump"}]"#.to_string());
    let mut tool = msg(3, MessageRole::Tool, &"a".repeat(600), 7);
    tool.skill_name = Some("dump".to_string());
    let view = history_view(&[assistant, tool], &[], true);
    let result = view[0].tool_calls.as_ref().unwrap()[0].result.clone().unwrap();
    assert_eq!(result, format!("{}…", "a".repeat(512)));
    assert!(!view[0].tts_available, "empty assistant replies are not spoken");
}

#[test]
fn a_cut_inside_a_character_backs_off_to_the_character_start() {
    let mut assistant = msg(2, MessageRole::Assistant, "x", 1);
    assistant.tool_calls_json = Some(r#"[{"name":"dump"}]"#.to_string());
    let mut tool = msg(3, MessageRole::Tool, &format!("{}é{}", "a".repeat(511), "b".repeat(10)), 1);
    tool.skill_name = Some("dump".to_string());
    let view = history_view(&[assistant, tool], &[], false);
    let result = view[0].tool_calls.as_ref().unwrap()[0].result.clone().unwrap();
    assert_eq!(result, format!("{}…", "a".repeat(511)));
}

#[test]
fn a_cut_after_a_whole_character_keeps_it() {
    let mut assistant = msg(2, MessageRole::Assistant, "x", 1);
    assistant.tool_calls_json = Some(r#"[{"name":"dump"}]"#.to_string());
    let mut tool = msg(3, MessageRole::Tool, &format!("{}é{}", "a".repeat(510), "b".repeat(10)), 1);
    tool.skill_name = Some("dump".to_string());
    let view = history_view(&[assistant, tool], &[], false);
    let result = view[0].tool_calls.as_ref().unwrap()[0].result.clone().unwrap();
    assert_eq!(result, format!("{}é…", "a".repeat(510)));
}

#[test]
fn unparsable_or_empty_tool_calls_show_none() {
    let mut a = msg(2, MessageRole::Assistant, "x", 1);
    a.tool_calls_json = Some("not json".to_string());
    let mut b = msg(3, MessageRole::Assistant, "y", 1);
    b.tool_calls_json = Some("[]".to_string());
    let view = history_view(&[a, b], &[], false);
    assert!(view[0].tool_calls.is_none());
    assert!(view[1].tool_calls.is_none());
}

#[test]
fn attachments_go_to_their_message() {
    let id: u128 = 0x550e8400e29b41d4a716446655440000;
    let att = AttachmentMeta {
        id,
        message_id: Some(9),
        conversation_id: 1,
        agent_id: "default".to_string(),
        filename: "a.png".to_string(),
        mime_type: "image/png".to_string(),
        size_bytes: 10,
        created_at: "t".to_string(),
    };
    let other = AttachmentMeta { message_id: None, ..att.clone() };
    let view = history_view(&[msg(9, MessageRole::User, "look", 1)], &[att, other], false);
    assert_eq!(view[0].attachments.len(), 1);
    assert_eq!(view[0].attachments[0].url, "/api/attachments/550e8400-e29b-41d4-a716-446655440000");
}

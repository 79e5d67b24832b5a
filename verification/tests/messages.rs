use web_ui::http::Lookup;
use web_ui::messages::{
    caller_can_post, check_quick_message, check_run_stream, check_send_message, check_transcript,
    check_voice_request, is_audio_field, is_terminal_event, quick_message_persona,
    quick_message_result, quick_prompt, replay_from, run_already_complete, run_stream_preflight,
    send_message_preflight, should_tail, voice_preflight, Frame, RunAction, RunRecorder,
    StreamRunEventsQuery, TerminalEvent, TurnOutcome, VoiceRelay, VoiceUpload, MAX_AUDIO_BYTES,
};

fn frame(event: &str, data: &str, content: Option<&str>) -> Frame {
    Frame {
        event: event.to_string(),
        sse_data: data.to_string(),
        content: content.map(|c| c.to_string()),
        success: None,
        skill_name: None,
        summary: None,
    }
}

#[test]
fn send_message_without_conversations_write_scope_returns_403() {
    assert!(!caller_can_post(false, &[false, false]));
    let e = check_send_message(false, Some(1), "hello").unwrap_err();
    assert_eq!(e.status, 403);
    assert_eq!(e.message, "Missing conversations:write scope");
}

#[test]
fn org_admins_and_write_scopes_may_post() {
    assert!(caller_can_post(true, &[]));
    assert!(caller_can_post(false, &[false, true]));
}

#[test]
fn send_message_bad_uuid_returns_400() {
    let e = send_message_preflight(true, "not-a-uuid", "hi").unwrap_err();
    assert_eq!(e.status, 400);
    assert_eq!(e.message, "Invalid conversation ID");
}

#[test]
fn send_message_empty_body_returns_400() {
    let id = "550e8400-e29b-41d4-a716-446655440000";
    let e = send_message_preflight(true, id, "   \n").unwrap_err();
    assert_eq!(e.status, 400);
    assert_eq!(e.message, "Message cannot be empty");
    let (uid, text) = send_message_preflight(true, id, "  hello  ").unwrap();
    assert_eq!(uid, 0x550e8400e29b41d4a716446655440000);
    assert_eq!(text, "hello");
}

#[test]
fn run_numbers_events_and_batches_thinking() {
    let mut rec = RunRecorder::new(true);
    let mut persisted: Vec<(i64, String)> = Vec::new();
    for i in 0..25 {
        let c = format!("t{i}");
        for a in rec.on_frame(&frame("thinking", &c, Some(&c))) {
            if let RunAction::PersistThinking { seq, content } = a {
                persisted.push((seq, content));
            }
        }
    }
    assert_eq!(persisted.len(), 1);
    assert_eq!(persisted[0].0, 1);
    let first: String = (0..20).map(|i| format!("t{i}")).collect();
    assert_eq!(persisted[0].1, first);

    let actions = rec.on_frame(&frame("token", "Hello", None));
    assert_eq!(actions.len(), 2);
    match &actions[0] {
        RunAction::PersistThinking { seq, content } => {
            assert_eq!(*seq, 2);
            assert_eq!(content, "t20t21t22t23t24");
        }
        other => panic!("unexpected {other:?}"),
    }
    assert!(matches!(actions[1], RunAction::PersistFrame { seq: 3, .. }));
    assert_eq!(rec.full_text(), "Hello");

    let actions = rec.on_frame(&frame("token", " world", None));
    assert!(matches!(actions[0], RunAction::PersistFrame { seq: 4, .. }));
    assert_eq!(rec.full_text(), "Hello world");

    let (actions, terminal) = rec.finish(TurnOutcome::Completed {
        answer: "Hello world".to_string(),
        message_id: Some("m1".to_string()),
        attachment_ids: vec![],
    });
    assert!(matches!(actions[0], RunAction::PersistTerminal { seq: 5 }));
    match &actions[1] {
        RunAction::Push { title, body } => {
            assert_eq!(title, "New message");
            assert_eq!(body, "Hello world");
        }
        other => panic!("unexpected {other:?}"),
    }
    match terminal {
        TerminalEvent::Done { content, message_id, .. } => {
            assert_eq!(content, "Hello world");
            assert_eq!(message_id.as_deref(), Some("m1"));
        }
        other => panic!("unexpected {other:?}"),
    }
}

#[test]
fn pending_thinking_is_flushed_before_the_terminal_event() {
    let mut rec = RunRecorder::new(false);
    rec.on_frame(&frame("thinking", "a", Some("a")));
    rec.on_frame(&frame("token", "partial", None));
    rec.on_frame(&frame("thinking", "b", Some("b")));
    let (actions, terminal) = rec.finish(TurnOutcome::Failed {
        message: "turn_cancelled".to_string(),
        cancelled: true,
    });
    assert_eq!(actions.len(), 2);
    match &actions[0] {
        RunAction::PersistThinking { seq, content } => {
            assert_eq!(*seq, 3);
            assert_eq!(content, "b");
        }
        other => panic!("unexpected {other:?}"),
    }
    assert!(matches!(actions[1], RunAction::PersistTerminal { seq: 4 }));
    match terminal {
        TerminalEvent::Cancelled { partial_content } => assert_eq!(partial_content, "partial"),
        other => panic!("unexpected {other:?}"),
    }
}

#[test]
fn failed_and_dropped_turns_end_with_agent_error() {
    let rec = RunRecorder::new(false);
    let (_, t) = rec.finish(TurnOutcome::Failed { message: "boom".to_string(), cancelled: false });
    match t {
        TerminalEvent::Errored { message, partial_content } => {
            assert_eq!(message, "boom");
            assert_eq!(partial_content, "");
        }
        other => panic!("unexpected {other:?}"),
    }
    let rec = RunRecorder::new(false);
    let (_, t) = rec.finish(TurnOutcome::Dropped);
    match t {
        TerminalEvent::Errored { message, .. } => assert_eq!(message, "submit_turn channel dropped"),
        other => panic!("unexpected {other:?}"),
    }
}

#[test]
fn skill_and_error_frames_push_notifications() {
    let mut rec = RunRecorder::new(true);
    let mut f = frame("skill_complete", "{}", None);
    f.success = Some(true);
    f.skill_name = Some("search".to_string());
    f.summary = Some("3 results".to_string());
    let actions = rec.on_frame(&f);
    match &actions[0] {
        RunAction::Push { title, body } => {
            assert_eq!(title, "Skill complete");
            assert_eq!(body, "search: 3 results");
        }
        other => panic!("unexpected {other:?}"),
    }
    let long: String = "x".repeat(100);
    let actions = rec.on_frame(&frame("agent_error", &long, None));
    match &actions[0] {
        RunAction::Push { title, body } => {
            assert_eq!(title, "Assistant error");
            assert_eq!(body.chars().count(), 80);
        }
        other => panic!("unexpected {other:?}"),
    }
    assert!(RunRecorder::is_thinking_frame(&frame("thinking", "", None)));
    assert!(!RunRecorder::is_thinking_frame(&frame("token", "", None)));
}

#[test]
fn stream_run_events_returns_404_for_unknown_run() {
    let e = check_run_stream(Some(7), Some(false), false).unwrap_err();
    assert_eq!(e.status, 404);
    assert_eq!(e.message, "run not found");
    assert!(e.json);
}

#[test]
fn stream_run_events_live_only_when_no_db_events_yet() {
    assert_eq!(check_run_stream(Some(7), Some(false), true).unwrap(), 7);
    assert_eq!(check_run_stream(Some(7), None, true).unwrap_err().status, 500);
    assert_eq!(run_stream_preflight("garbage", Some(true), true).unwrap_err().status, 400);
}

#[test]
fn stream_run_events_replays_completed_run() {
    let types = vec!["run_started".to_string(), "token".to_string(), "done".to_string()];
    assert!(run_already_complete(&types));
    assert!(!should_tail(true, true));
    assert!(!run_already_complete(&types[..2]));
    assert!(should_tail(false, true));
    assert!(!should_tail(false, false));
    assert!(is_terminal_event("agent_error"));
    assert!(!is_terminal_event("token"));
}

#[test]
fn stream_run_events_since_defaults_to_zero() {
    assert_eq!(replay_from(StreamRunEventsQuery { since: None }), 0);
    assert_eq!(replay_from(StreamRunEventsQuery { since: Some(3) }), 3);
}

#[test]
fn quick_message_empty_body_returns_400() {
    let e = check_quick_message(true, "  ").unwrap_err();
    assert_eq!(e.status, 400);
    assert!(e.json);
    assert_eq!(check_quick_message(false, "x").unwrap_err().status, 403);
    assert_eq!(check_quick_message(true, " hi ").unwrap(), "hi");
}

#[test]
fn quick_message_with_context_prepends_to_prompt() {
    assert_eq!(
        quick_prompt("What is this?", Some("  some clipboard text \n")),
        "<context>\nsome clipboard text\n</context>\n\nWhat is this?"
    );
    assert_eq!(quick_prompt("hi", Some("   ")), "hi");
    assert_eq!(quick_prompt("hi", None), "hi");
}

#[test]
fn quick_message_with_invalid_persona_falls_back() {
    assert_eq!(quick_message_persona(Some("work"), true, "default"), "work");
    assert_eq!(quick_message_persona(Some("nope"), false, "default"), "default");
    assert_eq!(quick_message_persona(None, false, "default"), "default");
}

#[test]
fn quick_message_returns_201_with_answer() {
    let r = quick_message_result(9, Ok((Some(4), "answer".to_string()))).unwrap();
    assert_eq!(r.conversation_id, 9);
    assert_eq!(r.message_id, Some(4));
    assert_eq!(r.answer, "answer");
    let e = quick_message_result(9, Err(())).unwrap_err();
    assert_eq!(e.status, 500);
    assert_eq!(e.message, "Failed to process message");
}

#[test]
fn voice_upload_without_transcription_provider_returns_503() {
    let e = check_voice_request(true, Some(1), false).unwrap_err();
    assert_eq!(e.status, 503);
    assert_eq!(e.message, "Voice transcription not configured");
}

#[test]
fn voice_upload_invalid_conversation_id_returns_400() {
    let e = voice_preflight(true, "not-a-uuid", true).unwrap_err();
    assert_eq!(e.status, 400);
    assert_eq!(e.message, "Invalid conversation ID");
}

#[test]
fn voice_upload_fields() {
    assert!(is_audio_field(Some("audio")));
    assert!(!is_audio_field(Some("file")));
    assert!(!is_audio_field(None));

    let up = VoiceUpload::new();
    assert_eq!(up.finish().unwrap_err().message, "Missing audio field");

    let mut up = VoiceUpload::new();
    up.accept_audio(None, Some(vec![1, 2, 3])).unwrap();
    let (bytes, mime) = up.finish().unwrap();
    assert_eq!(bytes, vec![1, 2, 3]);
    assert_eq!(mime, "audio/webm");

    let mut up = VoiceUpload::new();
    up.accept_audio(Some("video/mp4"), Some(vec![1])).unwrap();
    assert_eq!(up.finish().unwrap_err().message, "Invalid MIME type — expected audio/*");

    let mut up = VoiceUpload::new();
    let e = up.accept_audio(Some("audio/wav"), Some(vec![0u8; MAX_AUDIO_BYTES + 1])).unwrap_err();
    assert_eq!(e.message, "Audio too large (max 25 MB)");
    assert_eq!(up.accept_audio(None, None).unwrap_err().message, "Failed to read audio data");
}

#[test]
fn voice_transcript_checks_and_relay() {
    assert_eq!(check_transcript(None).unwrap_err().status, 500);
    assert_eq!(check_transcript(Some("  ".to_string())).unwrap_err().status, 400);
    assert_eq!(check_transcript(Some("hi".to_string())).unwrap(), "hi");

    let mut relay = VoiceRelay::new();
    relay.on_frame("token", "Hel");
    relay.on_frame("thinking", "hmm");
    relay.on_frame("token", "lo");
    let (done, push) = relay.finish(TurnOutcome::Dropped);
    match done {
        TerminalEvent::Done { content, message_id, attachment_ids } => {
            assert_eq!(content, "Hello");
            assert!(message_id.is_none());
            assert!(attachment_ids.is_empty());
        }
        other => panic!("unexpected {other:?}"),
    }
    assert_eq!(push, "Hello");
}

#[test]
fn lookups_answer_not_found_and_failures() {
    assert!(web_ui::http::require_found(Lookup::Found, "Conversation not found").is_ok());
    let e = web_ui::http::require_found(Lookup::Missing, "Conversation not found").unwrap_err();
    assert_eq!((e.status, e.message.as_str()), (404, "Conversation not found"));
    assert_eq!(web_ui::http::require_found(Lookup::Failed, "x").unwrap_err().message, "Database error");
}

#[test]
fn a_recorded_end_closes_the_replay() {
    let mut rec = RunRecorder::new(false);
    let _ = rec.on_frame(&frame("token", "hi", None));
    let (_, end) = rec.finish(TurnOutcome::Failed { message: "boom".into(), cancelled: true });
    let name = match end {
        TerminalEvent::Done { .. } => "done",
        _ => "agent_error",
    };
    let replayed = vec!["run_started".to_string(), "token".to_string(), name.to_string()];
    assert!(run_already_complete(&replayed));
    assert!(!should_tail(true, true));
}

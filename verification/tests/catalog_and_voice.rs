use web_ui::agents::{agent_not_found, invalid_card, registers_as_default, to_summary, AgentCardInfo, RegisteredAgent};
use web_ui::audio::{capabilities, check_message_audio, check_speakable, stored_audio};
use web_ui::commands::{
    command_payload, unknown_command, CommandArg, CommandDef, CommandDefResponse, CommandPayload,
    ExecuteCommandRequest,
};
use web_ui::conversations::MessageRole;
use web_ui::push::push_change_status;
use web_ui::templates::{
    onboarding_status, persona_from_template, resolve_template, template_response,
    CreateFromTemplateRequest,
};
use web_ui::tenancy::{CatalogItem, ResourceType};

fn model_def() -> CommandDef {
    CommandDef {
        name: "model".into(),
        description: "Switch model".into(),
        category: "session".into(),
        args: vec![CommandArg {
            name: "model_name".into(),
            required: true,
            completions_endpoint: Some("/api/models".into()),
        }],
    }
}

#[test]
fn command_def_response_keeps_arguments() {
    let resp = CommandDefResponse::from_def(&model_def());
    assert_eq!(resp.name, "model");
    assert_eq!(resp.category, "session");
    assert_eq!(resp.args.len(), 1);
    assert_eq!(resp.args[0].name, "model_name");
    assert!(resp.args[0].required);
    assert!(resp.args[0].completions_endpoint.is_some());
}

#[test]
fn unknown_command_is_named() {
    let e = unknown_command("nonexistent");
    assert_eq!((e.status, e.message.as_str()), (400, "Unknown command: nonexistent"));
}

#[test]
fn command_payloads() {
    let req = |c: &str, args: &[&str]| ExecuteCommandRequest {
        command: c.into(),
        args: args.iter().map(|a| a.to_string()).collect(),
    };
    match command_payload(&req("model", &["gpt", "4o"])) {
        CommandPayload::ModelName(m) => assert_eq!(m, "gpt 4o"),
        other => panic!("unexpected {other:?}"),
    }
    match command_payload(&req("help", &["a", "b"])) {
        CommandPayload::Args(a) => assert_eq!(a, vec!["a".to_string(), "b".to_string()]),
        other => panic!("unexpected {other:?}"),
    }
    assert!(matches!(command_payload(&req("model", &[])), CommandPayload::Nothing));
}

fn item(kind: ResourceType) -> CatalogItem {
    CatalogItem {
        id: "c1".into(),
        org_id: "o1".into(),
        resource_type: kind,
        resource_type_name: "template".into(),
        name: "Helper".into(),
        description: "A helper".into(),
        created_at: "t0".into(),
    }
}

#[test]
fn templates_resolve_and_name_personas() {
    let t = template_response(&item(ResourceType::Template));
    assert_eq!((t.id.as_str(), t.name.as_str()), ("c1", "Helper"));
    assert!(resolve_template(Ok(Some(item(ResourceType::Template)))).is_ok());
    let e = resolve_template(Ok(Some(item(ResourceType::Skill)))).unwrap_err();
    assert_eq!((e.status, e.message.as_str()), (400, "catalog item is not a template"));
    assert_eq!(resolve_template(Ok(None)).unwrap_err().status, 404);
    assert_eq!(resolve_template(Err(())).unwrap_err().status, 500);

    let body = CreateFromTemplateRequest { template_id: "c1".into(), name: None };
    let p = persona_from_template(body, &item(ResourceType::Template), 1);
    assert_eq!(p.persona_id, "persona_00000000-0000-0000-0000-000000000001");
    assert_eq!(p.name, "Helper");
    let body = CreateFromTemplateRequest { template_id: "c1".into(), name: Some("Mine".into()) };
    assert_eq!(persona_from_template(body, &item(ResourceType::Template), 1).name, "Mine");

    assert!(onboarding_status(Some(true)).has_persona);
    assert!(!onboarding_status(Some(false)).has_persona);
    assert!(!onboarding_status(None).has_persona);
}

#[test]
fn agent_summaries_count_skills_and_interfaces() {
    let a = RegisteredAgent {
        id: "a1".into(),
        is_default: true,
        card: AgentCardInfo {
            name: "Helper".into(),
            version: "1.0".into(),
            description: "d".into(),
            skills: vec!["x".into(), "y".into()],
            supported_interfaces: vec!["jsonrpc".into()],
        },
    };
    let s = to_summary(&a);
    assert_eq!((s.id.as_str(), s.name.as_str(), s.version.as_str()), ("a1", "Helper", "1.0"));
    assert!(s.is_default);
    assert_eq!((s.skill_count, s.interface_count), (2, 1));
    assert_eq!(invalid_card("bad json").message, "Invalid agent card: bad json");
    assert_eq!(agent_not_found().status, 404);
    assert!(registers_as_default(Some(true)));
    assert!(!registers_as_default(None));
}

#[test]
fn voice_capabilities_and_audio_checks() {
    let c = capabilities(true, false);
    assert!(c.voice_send && !c.voice_receive);
    let e = check_message_audio(false, "x").unwrap_err();
    assert_eq!((e.status, e.message.as_str()), (503, "TTS not configured"));
    let e = check_message_audio(true, "not-a-uuid").unwrap_err();
    assert_eq!((e.status, e.message.as_str()), (400, "Invalid message ID"));
    assert_eq!(check_message_audio(true, "00000000-0000-0000-0000-00000000002a").unwrap(), 42);
    assert!(check_speakable(MessageRole::Assistant).is_ok());
    assert_eq!(check_speakable(MessageRole::User).unwrap_err().status, 400);
    assert_eq!(stored_audio(None, true).unwrap_err().message, "Invalid audio ID");
    assert_eq!(stored_audio(Some(7), false).unwrap_err().status, 404);
    assert_eq!(stored_audio(Some(7), true).unwrap(), 7);
}

#[test]
fn push_changes_answer_created_or_no_content() {
    assert_eq!(push_change_status(true, Ok(())), Ok(201));
    assert_eq!(push_change_status(false, Ok(())), Ok(204));
    assert_eq!(push_change_status(true, Err("db".into())), Err((500, "db".to_string())));
}

use web_ui::http::Lookup;
use web_ui::personas::{
    check_access_mode, check_create_persona, check_file_path, check_file_write, check_set_active,
    create_persona_failed, file_slots, is_valid_filename, persona_summary, require_persona,
    skill_access, CreatePersonaRequest, PersonaRecord, SetActivePersonaRequest,
    SetSkillAccessModeRequest, WritePersonaFileRequest, MAX_FILE_BYTES,
};

#[test]
fn slot_files_are_the_only_valid_filenames() {
    assert!(is_valid_filename("SOUL.md"));
    assert!(is_valid_filename("HEARTBEAT.md"));
    assert!(!is_valid_filename("soul.md"));
    assert!(!is_valid_filename("../etc/passwd"));
    let slots = file_slots(&[true, false, false, false, false, false, false, true]);
    assert_eq!(slots.len(), 8);
    assert_eq!(slots[0].filename, "SOUL.md");
    assert_eq!(slots[0].display_name, "Soul");
    assert!(slots[0].exists);
    assert_eq!(slots[7].description, "Periodic task checklist for the scheduler");
}

#[test]
fn create_persona_invalid_id_returns_400() {
    let body = CreatePersonaRequest { id: "bad id".into(), name: "x".into() };
    assert_eq!(check_create_persona(&body, false).unwrap_err().message, "Invalid persona ID");
    let body = CreatePersonaRequest { id: " work ".into(), name: "  ".into() };
    assert_eq!(check_create_persona(&body, true).unwrap_err().message, "Name is required");
    let body = CreatePersonaRequest { id: " work ".into(), name: " Work ".into() };
    assert_eq!(check_create_persona(&body, true).unwrap(), ("work".to_string(), "Work".to_string()));
}

#[test]
fn create_persona_duplicate_returns_409() {
    let e = create_persona_failed("UNIQUE constraint failed: personas.id");
    assert_eq!((e.status, e.json), (409, true));
    assert_eq!(create_persona_failed("disk I/O error").status, 500);
}

#[test]
fn set_active_persona_unknown_id_returns_404() {
    assert_eq!(require_persona(Lookup::Missing).unwrap_err().status, 404);
    assert_eq!(require_persona(Lookup::Failed).unwrap_err().message, "Database error");
    assert_eq!(check_set_active(&SetActivePersonaRequest { id: " ".into() }).unwrap_err().status, 400);
    assert_eq!(check_set_active(&SetActivePersonaRequest { id: " work ".into() }).unwrap(), "work");
}

#[test]
fn get_persona_file_invalid_filename_returns_400() {
    assert_eq!(check_file_path(true, "NOTES.md").unwrap_err().message, "Invalid filename");
    assert_eq!(check_file_path(false, "SOUL.md").unwrap_err().message, "Invalid persona ID");
    assert!(check_file_path(true, "SOUL.md").is_ok());
}

#[test]
fn put_persona_file_oversized_returns_413() {
    let big = WritePersonaFileRequest { content: "x".repeat(MAX_FILE_BYTES + 1) };
    assert_eq!(check_file_write(true, "SOUL.md", &big).unwrap_err().status, 413);
    let ok = WritePersonaFileRequest { content: "x".repeat(MAX_FILE_BYTES) };
    assert!(check_file_write(true, "SOUL.md", &ok).is_ok());
}

#[test]
fn patch_skill_access_mode_invalid_mode_returns_400() {
    let e = check_access_mode(&SetSkillAccessModeRequest { mode: "some".into() }).unwrap_err();
    assert_eq!(e.message, "Mode must be one of: all, whitelist, blacklist");
    assert_eq!(check_access_mode(&SetSkillAccessModeRequest { mode: " whitelist ".into() }).unwrap(), "whitelist");
}

#[test]
fn get_skill_access_returns_defaults() {
    let a = skill_access(None, None);
    assert_eq!(a.mode, "all");
    assert!(a.skills.is_empty());
    let s = persona_summary(PersonaRecord {
        id: "default".into(),
        name: "Default".into(),
        is_default: true,
        skill_access_mode: "all".into(),
        turn_timeout_secs: None,
        created_at: "t".into(),
        updated_at: "t".into(),
    });
    assert_eq!(s.description, "");
    assert!(s.is_default);
}

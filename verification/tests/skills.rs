use web_ui::skills::{
    check_persona_skills_access, create_skill_failed, delete_skill_failed, is_skill_enabled,
    listed_contains, persona_skill_entries, skill_detail, skill_not_found, update_skill_failed,
    SkillInfo,
};

fn skill(name: &str) -> SkillInfo {
    SkillInfo {
        name: name.into(),
        description: format!("{name} skill"),
        body: "body".into(),
        source: "builtin".into(),
        is_builtin: true,
    }
}

#[test]
fn access_modes_decide_enabled_skills() {
    let listed = vec!["web".to_string(), "mail".to_string()];
    assert!(listed_contains(&listed, "mail"));
    assert!(!listed_contains(&listed, "calendar"));
    assert!(is_skill_enabled("whitelist", &listed, "web"));
    assert!(!is_skill_enabled("whitelist", &listed, "calendar"));
    assert!(!is_skill_enabled("blacklist", &listed, "web"));
    assert!(is_skill_enabled("blacklist", &listed, "calendar"));
    assert!(is_skill_enabled("all", &listed, "calendar"));
    assert!(is_skill_enabled("anything", &[], "x"));
}

#[test]
fn whitelist_and_blacklist_are_opposites() {
    let listed = vec!["a".to_string()];
    for name in ["a", "b"] {
        assert_eq!(
            is_skill_enabled("whitelist", &listed, name),
            !is_skill_enabled("blacklist", &listed, name)
        );
    }
}

#[test]
fn persona_entries_follow_mode_and_defaults() {
    let skills = vec![skill("web"), skill("mail")];
    let entries =
        persona_skill_entries(&skills, Some("whitelist".into()), Some(vec!["mail".into()]));
    assert_eq!(entries.len(), 2);
    assert_eq!(entries[0].name, "web");
    assert_eq!(entries[0].description, "web skill");
    assert!(!entries[0].enabled);
    assert!(entries[1].enabled);

    let entries = persona_skill_entries(&skills, None, None);
    assert!(entries.iter().all(|e| e.enabled));
}

#[test]
fn persona_skill_visibility() {
    assert!(check_persona_skills_access(Ok(Some(None)), "u1").is_ok());
    assert!(check_persona_skills_access(Ok(Some(Some("u1".into()))), "u1").is_ok());
    let e = check_persona_skills_access(Ok(Some(Some("u2".into()))), "u1").unwrap_err();
    assert_eq!((e.status, e.message.as_str(), e.json), (403, "Access denied", true));
    let e = check_persona_skills_access(Ok(None), "u1").unwrap_err();
    assert_eq!((e.status, e.message.as_str()), (404, "Persona not found"));
    let e = check_persona_skills_access(Err(()), "u1").unwrap_err();
    assert_eq!((e.status, e.message.as_str(), e.json), (500, "Database error", false));
}

#[test]
fn skill_detail_keeps_fields() {
    let d = skill_detail(skill("web"));
    assert_eq!(d.name, "web");
    assert_eq!(d.body, "body");
    assert_eq!(d.source, "builtin");
    assert!(d.is_builtin);
}

#[test]
fn registry_errors_map_to_statuses() {
    assert_eq!(skill_not_found().status, 404);
    let e = create_skill_failed("UNIQUE constraint failed");
    assert_eq!((e.status, e.message.as_str()), (409, "Skill already exists"));
    assert_eq!(create_skill_failed("disk full").status, 500);

    let e = update_skill_failed("skill does not exist");
    assert_eq!((e.status, e.message.as_str()), (404, "Skill not found"));
    let e = update_skill_failed("cannot modify builtin");
    assert_eq!((e.status, e.message.as_str()), (403, "Cannot modify a builtin skill"));
    let e = update_skill_failed("io");
    assert_eq!((e.status, e.message.as_str()), (500, "Failed to update skill"));

    assert_eq!(delete_skill_failed("not found").status, 404);
    assert_eq!(delete_skill_failed("boom").message, "Failed to delete skill");
}

//! Skills: which skills a persona may use under its access mode, who may
//! see a persona's skills, and how registry failures are answered.
use vstd::prelude::*;

use crate::http::{is_error, ApiError};
use crate::text::{has_substr, str_contains, str_eq, to_owned_string};

verus! {

/// A skill as the registry lists it.
#[derive(Debug, Clone)]
pub struct SkillInfo {
    pub name: String,
    pub description: String,
    pub body: String,
    /// Where the skill comes from, as the lower-cased name of its source.
    pub source: String,
    pub is_builtin: bool,
}

/// A skill in a persona's skill list.
#[derive(Debug, Clone)]
pub struct SkillEntryResponse {
    pub name: String,
    pub description: String,
    /// Whether the persona may use the skill.
    pub enabled: bool,
}

/// A skill with its body and source.
#[derive(Debug, Clone)]
pub struct SkillDetail {
    pub name: String,
    pub description: String,
    pub body: String,
    pub source: String,
    pub is_builtin: bool,
}

/// Body of `POST /api/skills`.
#[derive(Debug, Clone)]
pub struct CreateSkillRequest {
    pub name: String,
    pub description: String,
    pub body: String,
}

/// Body of `PUT /api/skills/{name}`.
#[derive(Debug, Clone)]
pub struct UpdateSkillRequest {
    pub description: String,
    pub body: String,
}

/// Whether a name is among the listed skill names.
pub open spec fn is_listed(listed: Seq<String>, name: Seq<char>) -> bool {
    exists|i: int| 0 <= i < listed.len() && listed[i]@ == name
}

/// Whether a persona may use a skill: in `whitelist` mode only the listed
/// skills, in `blacklist` mode all but the listed ones, in any other mode
/// every skill.
pub open spec fn skill_enabled(mode: Seq<char>, listed: Seq<String>, name: Seq<char>) -> bool {
    if mode == "whitelist"@ {
        is_listed(listed, name)
    } else if mode == "blacklist"@ {
        !is_listed(listed, name)
    } else {
        true
    }
}

/// Whether a name is among the listed skill names.
pub fn listed_contains(listed: &[String], name: &str) -> (r: bool)
    ensures
        r == is_listed(listed@, name@),
{
    let mut i: usize = 0;
    while i < listed.len()
        invariant
            i <= listed.len(),
            forall|j: int| 0 <= j < i ==> listed@[j]@ != name@,
        decreases listed.len() - i,
    {
        if str_eq(listed[i].as_str(), name) {
            return true;
        }
        i = i + 1;
    }
    false
}

/// Whether a persona may use a skill.
pub fn is_skill_enabled(mode: &str, listed: &[String], name: &str) -> (r: bool)
    ensures
        r == skill_enabled(mode@, listed@, name@),
{
    if str_eq(mode, "whitelist") {
        listed_contains(listed, name)
    } else if str_eq(mode, "blacklist") {
        !listed_contains(listed, name)
    } else {
        true
    }
}

/// The whitelist and the blacklist built from the same list enable exactly
/// opposite skills; a mode that is neither enables every skill.
pub proof fn law_access_modes(listed: Seq<String>, name: Seq<char>, mode: Seq<char>)
    ensures
        skill_enabled("whitelist"@, listed, name) == !skill_enabled("blacklist"@, listed, name),
        mode != "whitelist"@ && mode != "blacklist"@ ==> skill_enabled(mode, listed, name),
{
    reveal_strlit("whitelist");
    reveal_strlit("blacklist");
    assert("blacklist"@ != "whitelist"@) by {
        assert("blacklist"@[0] != "whitelist"@[0]);
    }
}

/// The skill list of a persona: every registered skill, in order, with
/// whether the persona may use it. The mode defaults to `all` and the list
/// to empty when they could not be read.
pub fn persona_skill_entries(skills: &[SkillInfo], mode: Option<String>, listed: Option<Vec<String>>) -> (r:
    Vec<SkillEntryResponse>)
    ensures
        r.len() == skills.len(),
        forall|i: int|
            0 <= i < skills.len() ==> {
                let e = #[trigger] r[i];
                &&& e.name@ == skills[i].name@
                &&& e.description@ == skills[i].description@
                &&& e.enabled == skill_enabled(
                    match mode {
                        Some(m) => m@,
                        None => "all"@,
                    },
                    match listed {
                        Some(l) => l@,
                        None => Seq::<String>::empty(),
                    },
                    skills[i].name@,
                )
            },
{
    let m = match mode {
        Some(m) => m,
        None => to_owned_string("all"),
    };
    let l = match listed {
        Some(l) => l,
        None => Vec::new(),
    };
    let mut out: Vec<SkillEntryResponse> = Vec::new();
    let mut i: usize = 0;
    while i < skills.len()
        invariant
            i <= skills.len(),
            out.len() == i,
            forall|k: int|
                0 <= k < i ==> {
                    let e = #[trigger] out[k];
                    &&& e.name@ == skills[k].name@
                    &&& e.description@ == skills[k].description@
                    &&& e.enabled == skill_enabled(m@, l@, skills[k].name@)
                },
        decreases skills.len() - i,
    {
        let s = &skills[i];
        let enabled = is_skill_enabled(m.as_str(), l.as_slice(), s.name.as_str());
        out.push(
            SkillEntryResponse {
                name: s.name.clone(),
                description: s.description.clone(),
                enabled,
            },
        );
        i = i + 1;
    }
    out
}

/// Who may see a persona's skills: anyone when the persona has no owner,
/// otherwise only its owner (`403`, JSON). An unknown persona is `404`
/// (JSON), a store failure `500 Database error`. `persona` is the owner of
/// the persona when it was found.
pub fn check_persona_skills_access(persona: Result<Option<Option<String>>, ()>, user_id: &str) -> (r:
    Result<(), ApiError>)
    ensures
        match persona {
            Ok(Some(owner)) => match owner {
                Some(o) => if o@ != user_id@ {
                    r is Err && is_error(r->Err_0, 403, "Access denied"@, true)
                } else {
                    r is Ok
                },
                None => r is Ok,
            },
            Ok(None) => r is Err && is_error(r->Err_0, 404, "Persona not found"@, true),
            Err(()) => r is Err && is_error(r->Err_0, 500, "Database error"@, false),
        },
{
    match persona {
        Ok(Some(owner)) => match owner {
            Some(o) => {
                if !str_eq(o.as_str(), user_id) {
                    Err(ApiError::json(403, "Access denied"))
                } else {
                    Ok(())
                }
            },
            None => Ok(()),
        },
        Ok(None) => Err(ApiError::json(404, "Persona not found")),
        Err(()) => Err(ApiError::text(500, "Database error")),
    }
}

/// The detail of a skill.
pub fn skill_detail(s: SkillInfo) -> (d: SkillDetail)
    ensures
        d.name == s.name && d.description == s.description && d.body == s.body && d.source
            == s.source && d.is_builtin == s.is_builtin,
{
    SkillDetail {
        name: s.name,
        description: s.description,
        body: s.body,
        source: s.source,
        is_builtin: s.is_builtin,
    }
}

/// The answer for a skill that does not exist: `404` (JSON).
pub fn skill_not_found() -> (e: ApiError)
    ensures
        is_error(e, 404, "Skill not found"@, true),
{
    ApiError::json(404, "Skill not found")
}

/// The answer when the registry failed to create a skill: a taken name is
/// `409` (JSON), anything else `500`.
pub fn create_skill_failed(error: &str) -> (e: ApiError)
    ensures
        (has_substr(error@, "already exists"@) || has_substr(error@, "UNIQUE"@) || has_substr(
            error@,
            "unique"@,
        )) ==> is_error(e, 409, "Skill already exists"@, true),
        !(has_substr(error@, "already exists"@) || has_substr(error@, "UNIQUE"@) || has_substr(
            error@,
            "unique"@,
        )) ==> is_error(e, 500, "Failed to create skill"@, false),
{
    if str_contains(error, "already exists") || str_contains(error, "UNIQUE") || str_contains(
        error,
        "unique",
    ) {
        ApiError::json(409, "Skill already exists")
    } else {
        ApiError::text(500, "Failed to create skill")
    }
}

/// Whether a registry error says that the skill does not exist.
pub open spec fn says_missing(error: Seq<char>) -> bool {
    has_substr(error, "not found"@) || has_substr(error, "does not exist"@)
}

/// Whether a registry error says that the skill cannot be changed.
pub open spec fn says_read_only(error: Seq<char>) -> bool {
    has_substr(error, "builtin"@) || has_substr(error, "cannot modify"@) || has_substr(
        error,
        "read-only"@,
    )
}

/// The answer when the registry failed to update a skill: a missing skill
/// is `404`, a built-in one `403` (both JSON), anything else `500`.
pub fn update_skill_failed(error: &str) -> (e: ApiError)
    ensures
        says_missing(error@) ==> is_error(e, 404, "Skill not found"@, true),
        !says_missing(error@) && says_read_only(error@) ==> is_error(
            e,
            403,
            "Cannot modify a builtin skill"@,
            true,
        ),
        !says_missing(error@) && !says_read_only(error@) ==> is_error(
            e,
            500,
            "Failed to update skill"@,
            false,
        ),
{
    if str_contains(error, "not found") || str_contains(error, "does not exist") {
        return skill_not_found();
    }
    if str_contains(error, "builtin") || str_contains(error, "cannot modify") || str_contains(
        error,
        "read-only",
    ) {
        return ApiError::json(403, "Cannot modify a builtin skill");
    }
    ApiError::text(500, "Failed to update skill")
}

/// The answer when the registry failed to delete a skill: a missing skill
/// is `404` (JSON), anything else `500`.
pub fn delete_skill_failed(error: &str) -> (e: ApiError)
    ensures
        says_missing(error@) ==> is_error(e, 404, "Skill not found"@, true),
        !says_missing(error@) ==> is_error(e, 500, "Failed to delete skill"@, false),
{
    if str_contains(error, "not found") || str_contains(error, "does not exist") {
        return skill_not_found();
    }
    ApiError::text(500, "Failed to delete skill")
}

} // verus!

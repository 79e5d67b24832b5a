//! Personas: their identity checks, the fixed set of persona files, the
//! size limit on those files, and the skill-access mode.
use vstd::prelude::*;

use crate::http::{is_error, ApiError, Lookup};
use crate::text::{has_substr, str_contains, str_eq, to_owned_string, trim_spec, trim_str};

verus! {

// -- File slots --------------------------------------------------------------------------

/// The number of persona file slots.
pub const PERSONA_FILE_SLOT_COUNT: usize = 8;

/// Largest persona file, in bytes: 2 MiB.
pub const MAX_FILE_BYTES: usize = 2097152;

/// The file name, display name and description of a persona file slot.
pub open spec fn slot(i: int) -> (Seq<char>, Seq<char>, Seq<char>) {
    if i == 0 {
        ("SOUL.md"@, "Soul"@, "Personality, values, and core truths"@)
    } else if i == 1 {
        ("IDENTITY.md"@, "Identity"@, "Name, role, and structured identity profile"@)
    } else if i == 2 {
        ("USER.md"@, "User"@, "User profile, preferences, and timezone"@)
    } else if i == 3 {
        ("MEMORY.md"@, "Memory"@, "Curated long-term memory"@)
    } else if i == 4 {
        ("AGENTS.md"@, "Agents"@, "Workspace rules and session startup ritual"@)
    } else if i == 5 {
        ("TOOLS.md"@, "Tools"@, "Environment-specific tool notes"@)
    } else if i == 6 {
        ("BOOTSTRAP.md"@, "Bootstrap"@, "First-run onboarding ritual"@)
    } else {
        ("HEARTBEAT.md"@, "Heartbeat"@, "Periodic task checklist for the scheduler"@)
    }
}

/// The file name, display name and description of slot `i` (below 8).
pub fn slot_entry(i: usize) -> (r: (&'static str, &'static str, &'static str))
    requires
        i < PERSONA_FILE_SLOT_COUNT,
    ensures
        (r.0@, r.1@, r.2@) == slot(i as int),
{
    if i == 0 {
        ("SOUL.md", "Soul", "Personality, values, and core truths")
    } else if i == 1 {
        ("IDENTITY.md", "Identity", "Name, role, and structured identity profile")
    } else if i == 2 {
        ("USER.md", "User", "User profile, preferences, and timezone")
    } else if i == 3 {
        ("MEMORY.md", "Memory", "Curated long-term memory")
    } else if i == 4 {
        ("AGENTS.md", "Agents", "Workspace rules and session startup ritual")
    } else if i == 5 {
        ("TOOLS.md", "Tools", "Environment-specific tool notes")
    } else if i == 6 {
        ("BOOTSTRAP.md", "Bootstrap", "First-run onboarding ritual")
    } else {
        ("HEARTBEAT.md", "Heartbeat", "Periodic task checklist for the scheduler")
    }
}

/// Whether a file name is one of the persona file slots.
pub open spec fn is_slot_file(filename: Seq<char>) -> bool {
    exists|i: int| 0 <= i < PERSONA_FILE_SLOT_COUNT && slot(i).0 == filename
}

/// Whether a file name is one of the persona file slots.
pub fn is_valid_filename(filename: &str) -> (r: bool)
    ensures
        r == is_slot_file(filename@),
{
    let mut i: usize = 0;
    while i < PERSONA_FILE_SLOT_COUNT
        invariant
            i <= PERSONA_FILE_SLOT_COUNT,
            forall|j: int| 0 <= j < i ==> slot(j).0 != filename@,
        decreases PERSONA_FILE_SLOT_COUNT - i,
    {
        let (f, _, _) = slot_entry(i);
        if str_eq(f, filename) {
            return true;
        }
        i = i + 1;
    }
    false
}

/// A persona file slot and whether the file exists.
#[derive(Debug, Clone)]
pub struct PersonaFileSlot {
    pub filename: String,
    pub display_name: String,
    pub description: String,
    pub exists: bool,
}

/// The file slots of a persona, in their fixed order; `exists[i]` is
/// whether the `i`-th file exists.
pub fn file_slots(exists: &[bool]) -> (r: Vec<PersonaFileSlot>)
    requires
        exists.len() == PERSONA_FILE_SLOT_COUNT,
    ensures
        r.len() == PERSONA_FILE_SLOT_COUNT,
        forall|i: int|
            0 <= i < PERSONA_FILE_SLOT_COUNT ==> {
                let s = #[trigger] r[i];
                &&& (s.filename@, s.display_name@, s.description@) == slot(i)
                &&& s.exists == exists[i]
            },
{
    let mut out: Vec<PersonaFileSlot> = Vec::new();
    let mut i: usize = 0;
    while i < PERSONA_FILE_SLOT_COUNT
        invariant
            i <= PERSONA_FILE_SLOT_COUNT,
            exists.len() == PERSONA_FILE_SLOT_COUNT,
            out.len() == i,
            forall|k: int|
                0 <= k < i ==> {
                    let s = #[trigger] out[k];
                    &&& (s.filename@, s.display_name@, s.description@) == slot(k)
                    &&& s.exists == exists[k]
                },
        decreases PERSONA_FILE_SLOT_COUNT - i,
    {
        let (f, d, desc) = slot_entry(i);
        out.push(
            PersonaFileSlot {
                filename: to_owned_string(f),
                display_name: to_owned_string(d),
                description: to_owned_string(desc),
                exists: exists[i],
            },
        );
        i = i + 1;
    }
    out
}

// -- Records and bodies ---------------------------------------------------------------------

/// A persona as the store keeps it.
#[derive(Debug, Clone)]
pub struct PersonaRecord {
    pub id: String,
    pub name: String,
    pub is_default: bool,
    pub skill_access_mode: String,
    pub turn_timeout_secs: Option<u64>,
    pub created_at: String,
    pub updated_at: String,
}

/// A persona in a list.
#[derive(Debug, Clone)]
pub struct PersonaSummary {
    pub id: String,
    pub name: String,
    /// Always empty.
    pub description: String,
    pub is_default: bool,
}

/// A persona with its file slots.
#[derive(Debug, Clone)]
pub struct PersonaDetail {
    pub id: String,
    pub name: String,
    pub is_default: bool,
    pub skill_access_mode: String,
    pub turn_timeout_secs: Option<u64>,
    pub created_at: String,
    pub updated_at: String,
    pub files: Vec<PersonaFileSlot>,
}

/// The content of a persona file.
#[derive(Debug, Clone)]
pub struct PersonaFileContent {
    pub filename: String,
    pub content: String,
}

/// A persona's skill access: its mode and the skills listed for it.
#[derive(Debug, Clone)]
pub struct PersonaSkillAccess {
    pub mode: String,
    pub skills: Vec<String>,
}

/// Body of `POST /api/personas/active`.
#[derive(Debug, Clone)]
pub struct SetActivePersonaRequest {
    pub id: String,
}

/// Body of `POST /api/personas`.
#[derive(Debug, Clone)]
pub struct CreatePersonaRequest {
    pub id: String,
    pub name: String,
}

/// Body of `PUT /api/personas/{id}/files/{filename}`.
#[derive(Debug, Clone)]
pub struct WritePersonaFileRequest {
    pub content: String,
}

/// Body of `PATCH /api/personas/{id}/skill-access`.
#[derive(Debug, Clone)]
pub struct SetSkillAccessModeRequest {
    pub mode: String,
}

/// Body of `POST /api/personas/{id}/skill-access/skills`.
#[derive(Debug, Clone)]
pub struct AddSkillAccessRequest {
    pub skill_name: String,
}

/// The summary of a persona.
pub fn persona_summary(p: PersonaRecord) -> (s: PersonaSummary)
    ensures
        s.id == p.id && s.name == p.name && s.description@.len() == 0 && s.is_default
            == p.is_default,
{
    PersonaSummary { id: p.id, name: p.name, description: String::new(), is_default: p.is_default }
}

/// The detail of a persona with its file slots.
pub fn persona_detail(p: PersonaRecord, files: Vec<PersonaFileSlot>) -> (d: PersonaDetail)
    ensures
        d.id == p.id && d.name == p.name && d.is_default == p.is_default && d.skill_access_mode
            == p.skill_access_mode && d.turn_timeout_secs == p.turn_timeout_secs && d.created_at
            == p.created_at && d.updated_at == p.updated_at && d.files == files,
{
    PersonaDetail {
        id: p.id,
        name: p.name,
        is_default: p.is_default,
        skill_access_mode: p.skill_access_mode,
        turn_timeout_secs: p.turn_timeout_secs,
        created_at: p.created_at,
        updated_at: p.updated_at,
        files,
    }
}

// -- Checks ------------------------------------------------------------------------------------

/// The answer for a malformed persona id: `400` (JSON).
pub fn invalid_persona_id() -> (e: ApiError)
    ensures
        is_error(e, 400, "Invalid persona ID"@, true),
{
    ApiError::json(400, "Invalid persona ID")
}

/// The persona lookup of every persona endpoint: absent is `404` (JSON), a
/// store failure `500 Database error`.
pub fn require_persona(l: Lookup) -> (r: Result<(), ApiError>)
    ensures
        l == Lookup::Found ==> r is Ok,
        l == Lookup::Missing ==> r is Err && is_error(r->Err_0, 404, "Persona not found"@, true),
        l == Lookup::Failed ==> r is Err && is_error(r->Err_0, 500, "Database error"@, false),
{
    match l {
        Lookup::Found => Ok(()),
        Lookup::Missing => Err(ApiError::json(404, "Persona not found")),
        Lookup::Failed => Err(ApiError::text(500, "Database error")),
    }
}

/// The checks of `POST /api/personas`: the trimmed id must be a valid
/// persona id (`id_valid`, `400`), the trimmed name must not be empty
/// (`400`). On success, the trimmed id and name.
pub fn check_create_persona(body: &CreatePersonaRequest, id_valid: bool) -> (r: Result<
    (String, String),
    ApiError,
>)
    ensures
        !id_valid ==> r is Err && is_error(r->Err_0, 400, "Invalid persona ID"@, true),
        id_valid && trim_spec(body.name@).len() == 0 ==> r is Err && is_error(
            r->Err_0,
            400,
            "Name is required"@,
            true,
        ),
        id_valid && trim_spec(body.name@).len() > 0 ==> r is Ok && r->Ok_0.0@ == trim_spec(
            body.id@,
        ) && r->Ok_0.1@ == trim_spec(body.name@),
{
    if !id_valid {
        return Err(invalid_persona_id());
    }
    let name = trim_str(body.name.as_str());
    if name.is_empty() {
        return Err(ApiError::json(400, "Name is required"));
    }
    Ok((to_owned_string(trim_str(body.id.as_str())), to_owned_string(name)))
}

/// Whether a store error says that the id is taken.
pub open spec fn is_duplicate_error(msg: Seq<char>) -> bool {
    has_substr(msg, "UNIQUE"@) || has_substr(msg, "unique"@) || has_substr(msg, "already exists"@)
}

/// The answer when the store failed to create a persona: a taken id is
/// `409` (JSON), anything else `500 Database error`.
pub fn create_persona_failed(error: &str) -> (e: ApiError)
    ensures
        is_duplicate_error(error@) ==> is_error(e, 409, "Persona ID already exists"@, true),
        !is_duplicate_error(error@) ==> is_error(e, 500, "Database error"@, false),
{
    if str_contains(error, "UNIQUE") || str_contains(error, "unique") || str_contains(
        error,
        "already exists",
    ) {
        ApiError::json(409, "Persona ID already exists")
    } else {
        ApiError::text(500, "Database error")
    }
}

/// The id of `POST /api/personas/active`: trimmed, and required (`400`).
pub fn check_set_active(body: &SetActivePersonaRequest) -> (r: Result<String, ApiError>)
    ensures
        trim_spec(body.id@).len() == 0 ==> r is Err && is_error(
            r->Err_0,
            400,
            "Persona ID is required"@,
            false,
        ),
        trim_spec(body.id@).len() > 0 ==> r is Ok && r->Ok_0@ == trim_spec(body.id@),
{
    let id = trim_str(body.id.as_str());
    if id.is_empty() {
        return Err(ApiError::text(400, "Persona ID is required"));
    }
    Ok(to_owned_string(id))
}

/// The checks on the path of the persona file endpoints: a valid persona
/// id (`id_valid`) and one of the slot file names, both `400` (JSON).
pub fn check_file_path(id_valid: bool, filename: &str) -> (r: Result<(), ApiError>)
    ensures
        !id_valid ==> r is Err && is_error(r->Err_0, 400, "Invalid persona ID"@, true),
        id_valid && !is_slot_file(filename@) ==> r is Err && is_error(
            r->Err_0,
            400,
            "Invalid filename"@,
            true,
        ),
        id_valid && is_slot_file(filename@) ==> r is Ok,
{
    if !id_valid {
        return Err(invalid_persona_id());
    }
    if !is_valid_filename(filename) {
        return Err(ApiError::json(400, "Invalid filename"));
    }
    Ok(())
}

/// The checks of a persona file write: those of the path, then a content
/// of at most 2 MiB of UTF-8 (`413`, JSON).
pub fn check_file_write(id_valid: bool, filename: &str, body: &WritePersonaFileRequest) -> (r:
    Result<(), ApiError>)
    ensures
        !id_valid ==> r is Err && is_error(r->Err_0, 400, "Invalid persona ID"@, true),
        id_valid && !is_slot_file(filename@) ==> r is Err && is_error(
            r->Err_0,
            400,
            "Invalid filename"@,
            true,
        ),
        id_valid && is_slot_file(filename@) && vstd::utf8::encode_utf8(
            body.content@,
        ).len() > MAX_FILE_BYTES ==> r is Err && is_error(
            r->Err_0,
            413,
            "Content too large (max 2 MB)"@,
            true,
        ),
        id_valid && is_slot_file(filename@) && vstd::utf8::encode_utf8(body.content@).len()
            <= MAX_FILE_BYTES ==> r is Ok,
{
    check_file_path(id_valid, filename)?;
    if body.content.as_str().as_bytes().len() > MAX_FILE_BYTES {
        return Err(ApiError::json(413, "Content too large (max 2 MB)"));
    }
    Ok(())
}

// -- Skill access -----------------------------------------------------------------------------

/// The skill-access modes.
pub open spec fn is_access_mode(m: Seq<char>) -> bool {
    m == "all"@ || m == "whitelist"@ || m == "blacklist"@
}

/// The mode of a skill-access change: trimmed, and one of `all`,
/// `whitelist`, `blacklist` (`400`, JSON).
pub fn check_access_mode(body: &SetSkillAccessModeRequest) -> (r: Result<String, ApiError>)
    ensures
        is_access_mode(trim_spec(body.mode@)) ==> r is Ok && r->Ok_0@ == trim_spec(body.mode@),
        !is_access_mode(trim_spec(body.mode@)) ==> r is Err && is_error(
            r->Err_0,
            400,
            "Mode must be one of: all, whitelist, blacklist"@,
            true,
        ),
{
    let m = trim_str(body.mode.as_str());
    if str_eq(m, "all") || str_eq(m, "whitelist") || str_eq(m, "blacklist") {
        Ok(to_owned_string(m))
    } else {
        Err(ApiError::json(400, "Mode must be one of: all, whitelist, blacklist"))
    }
}

/// A persona's skill access from what the store answered: the mode
/// defaults to `all` when it could not be read, the skills to none.
pub fn skill_access(mode: Option<String>, skills: Option<Vec<String>>) -> (r: PersonaSkillAccess)
    ensures
        r.mode@ == (match mode {
            Some(m) => m@,
            None => "all"@,
        }),
        r.skills@ == (match skills {
            Some(s) => s@,
            None => Seq::<String>::empty(),
        }),
{
    let mode = match mode {
        Some(m) => m,
        None => to_owned_string("all"),
    };
    let skills = match skills {
        Some(s) => s,
        None => Vec::new(),
    };
    PersonaSkillAccess { mode, skills }
}

} // verus!

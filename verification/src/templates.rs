//! Persona templates from the catalog, and whether a user has a persona.
use vstd::prelude::*;

use crate::http::{is_error, uuid_text, uuid_to_string, ApiError};
use crate::tenancy::{CatalogItem, ResourceType};
use crate::text::to_owned_string;

verus! {

/// A template of the catalog.
#[derive(Debug, Clone)]
pub struct TemplateResponse {
    pub id: String,
    pub name: String,
    pub description: String,
    pub created_at: String,
}

/// Body of `POST .../personas/from-template`.
#[derive(Debug, Clone)]
pub struct CreateFromTemplateRequest {
    pub template_id: String,
    /// The persona's name; the template's name when absent.
    pub name: Option<String>,
}

/// Answer of a persona created from a template.
#[derive(Debug, Clone)]
pub struct PersonaFromTemplateResponse {
    pub persona_id: String,
    pub name: String,
}

/// Whether the signed-in user owns a persona yet.
#[derive(Debug, Clone, Copy)]
pub struct OnboardingStatusResponse {
    pub has_persona: bool,
}

/// The API form of a template.
pub fn template_response(item: &CatalogItem) -> (r: TemplateResponse)
    ensures
        r.id@ == item.id@ && r.name@ == item.name@ && r.description@ == item.description@
            && r.created_at@ == item.created_at@,
{
    TemplateResponse {
        id: item.id.clone(),
        name: item.name.clone(),
        description: item.description.clone(),
        created_at: item.created_at.clone(),
    }
}

/// The template a persona is created from: the catalog item must exist
/// (`404`) and be a template (`400`); a store failure is `500`.
pub fn resolve_template(found: Result<Option<CatalogItem>, ()>) -> (r: Result<CatalogItem, ApiError>)
    ensures
        match found {
            Ok(Some(i)) => if i.resource_type == ResourceType::Template {
                r == Ok::<CatalogItem, ApiError>(i)
            } else {
                r is Err && is_error(r->Err_0, 400, "catalog item is not a template"@, false)
            },
            Ok(None) => r is Err && is_error(r->Err_0, 404, "template not found"@, false),
            Err(()) => r is Err && is_error(r->Err_0, 500, "internal server error"@, false),
        },
{
    match found {
        Ok(Some(i)) => {
            match i.resource_type {
                ResourceType::Template => Ok(i),
                _ => Err(ApiError::text(400, "catalog item is not a template")),
            }
        },
        Ok(None) => Err(ApiError::text(404, "template not found")),
        Err(()) => Err(ApiError::text(500, "internal server error")),
    }
}

/// The persona that a template gives: id `persona_` and a fresh UUID, named
/// as requested or after the template.
pub fn persona_from_template(body: CreateFromTemplateRequest, template: &CatalogItem, new_id: u128) -> (r:
    PersonaFromTemplateResponse)
    ensures
        r.persona_id@ == "persona_"@ + uuid_text(new_id),
        r.name@ == (match body.name {
            Some(n) => n@,
            None => template.name@,
        }),
{
    let mut id = to_owned_string("persona_");
    let u = uuid_to_string(new_id);
    id.append(u.as_str());
    let name = match body.name {
        Some(n) => n,
        None => template.name.clone(),
    };
    PersonaFromTemplateResponse { persona_id: id, name }
}

/// The onboarding status: a failed count reads as no persona.
pub fn onboarding_status(has_persona: Option<bool>) -> (r: OnboardingStatusResponse)
    ensures
        r.has_persona == (has_persona == Some(true)),
{
    OnboardingStatusResponse {
        has_persona: match has_persona {
            Some(b) => b,
            None => false,
        },
    }
}

} // verus!

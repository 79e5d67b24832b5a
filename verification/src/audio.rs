//! Voice: which voice features the server offers, and the checks in front
//! of synthesised and stored audio.
use vstd::prelude::*;

use crate::conversations::MessageRole;
use crate::http::{id_or_bad_request, is_error, parse_uuid_str, uuid_parse, ApiError};

verus! {

/// The voice features of the server.
#[derive(Debug, Clone, Copy)]
pub struct ServerCapabilities {
    /// Voice messages can be sent: a transcription provider is configured.
    pub voice_send: bool,
    /// Replies can be spoken: a speech provider is configured.
    pub voice_receive: bool,
}

/// The voice features given the configured providers.
pub fn capabilities(transcription: bool, tts: bool) -> (r: ServerCapabilities)
    ensures
        r.voice_send == transcription && r.voice_receive == tts,
{
    ServerCapabilities { voice_send: transcription, voice_receive: tts }
}

/// The checks of `GET /api/messages/{id}/audio` before the message is
/// read: a speech provider (`503`) and a message id that parses (`400`).
pub fn check_message_audio(tts: bool, id: &str) -> (r: Result<u128, ApiError>)
    ensures
        !tts ==> r is Err && is_error(r->Err_0, 503, "TTS not configured"@, false),
        tts && uuid_parse(id@) is None ==> r is Err && is_error(
            r->Err_0,
            400,
            "Invalid message ID"@,
            false,
        ),
        tts && uuid_parse(id@) is Some ==> r == Ok::<u128, ApiError>(uuid_parse(id@)->0),
{
    if !tts {
        return Err(ApiError::text(503, "TTS not configured"));
    }
    id_or_bad_request(parse_uuid_str(id), "Invalid message ID")
}

/// Only assistant messages are spoken (`400`).
pub fn check_speakable(role: MessageRole) -> (r: Result<(), ApiError>)
    ensures
        role == MessageRole::Assistant ==> r is Ok,
        role != MessageRole::Assistant ==> r is Err && is_error(
            r->Err_0,
            400,
            "Only assistant messages can be synthesized"@,
            false,
        ),
{
    match role {
        MessageRole::Assistant => Ok(()),
        _ => Err(ApiError::text(400, "Only assistant messages can be synthesized")),
    }
}

/// The answer of `GET /api/audio/{id}`: an id that does not parse is
/// `400`; audio that is not (or no longer) stored is `404`.
pub fn stored_audio(id_parsed: Option<u128>, found: bool) -> (r: Result<u128, ApiError>)
    ensures
        id_parsed is None ==> r is Err && is_error(r->Err_0, 400, "Invalid audio ID"@, false),
        id_parsed is Some && !found ==> r is Err && is_error(
            r->Err_0,
            404,
            "Audio not found or expired"@,
            false,
        ),
        id_parsed is Some && found ==> r == Ok::<u128, ApiError>(id_parsed->0),
{
    let id = id_or_bad_request(id_parsed, "Invalid audio ID")?;
    if !found {
        return Err(ApiError::text(404, "Audio not found or expired"));
    }
    Ok(id)
}

} // verus!

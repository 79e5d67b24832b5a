//! Web Push subscriptions.
use vstd::prelude::*;

verus! {

/// Body of `POST /api/push/subscribe`: a browser push subscription.
#[derive(Debug, Clone)]
pub struct SubscribeRequest {
    pub endpoint: String,
    pub p256dh: String,
    pub auth: String,
}

/// Body of `DELETE /api/push/subscribe`.
#[derive(Debug, Clone)]
pub struct UnsubscribeRequest {
    pub endpoint: String,
}

/// The public key that browsers subscribe with.
#[derive(Debug, Clone)]
pub struct VapidKeyResponse {
    pub public_key: String,
}

/// The answer of a subscription change: `201` for a new subscription, `204`
/// for a removal, `500` with the store's message when it failed.
pub fn push_change_status(subscribing: bool, stored: Result<(), String>) -> (r: Result<u16, (u16, String)>)
    ensures
        match stored {
            Ok(()) => r == Ok::<u16, (u16, String)>(if subscribing { 201u16 } else { 204u16 }),
            Err(e) => r is Err && r->Err_0.0 == 500 && r->Err_0.1 == e,
        },
{
    match stored {
        Ok(()) => Ok(if subscribing { 201 } else { 204 }),
        Err(e) => Err((500, e)),
    }
}

} // verus!

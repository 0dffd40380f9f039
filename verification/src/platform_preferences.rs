//! Owners' spending preferences for platform-funded operations.
use vstd::prelude::*;
use crate::errors::{AppError, AuthMethod, is_forbidden};

verus! {

/// Whose preferences a request addresses; the caller's own by default.
pub struct PlatformPreferenceOwnerQuery {
    pub owner_id: Option<String>,
}

/// A preference update; `O` is the per-operation override record.
pub struct UpdatePlatformPreferenceRequest<O> {
    pub platform_enabled: bool,
    pub max_credits_per_call: String,
    pub max_credits_per_day: String,
    pub operation_overrides: Vec<O>,
}

/// A stored preference, with its times as RFC 3339 text.
pub struct PlatformServicePreference<O> {
    pub id: String,
    pub owner_id: String,
    pub catalog_service_id: String,
    pub platform_enabled: bool,
    pub max_credits_per_call: String,
    pub max_credits_per_day: String,
    pub operation_overrides: Vec<O>,
    pub created_by: String,
    pub updated_by: String,
    pub created_at: String,
    pub updated_at: String,
}

pub struct PlatformPreferenceResponse<O> {
    pub id: String,
    pub owner_id: String,
    pub catalog_service_id: String,
    pub platform_enabled: bool,
    pub max_credits_per_call: String,
    pub max_credits_per_day: String,
    pub operation_overrides: Vec<O>,
    pub created_by: String,
    pub updated_by: String,
    pub created_at: String,
    pub updated_at: String,
}

pub struct PlatformPreferenceListResponse<O> {
    pub preferences: Vec<PlatformPreferenceResponse<O>>,
}

impl<O> PlatformPreferenceResponse<O> {
    /// The API form of a stored preference.
    pub fn from(preference: PlatformServicePreference<O>) -> (r: Self)
        ensures
            r.id == preference.id,
            r.owner_id == preference.owner_id,
            r.catalog_service_id == preference.catalog_service_id,
            r.platform_enabled == preference.platform_enabled,
            r.max_credits_per_call == preference.max_credits_per_call,
            r.max_credits_per_day == preference.max_credits_per_day,
            r.operation_overrides == preference.operation_overrides,
            r.created_by == preference.created_by,
            r.updated_by == preference.updated_by,
            r.created_at == preference.created_at,
            r.updated_at == preference.updated_at,
    {
        PlatformPreferenceResponse {
            id: preference.id,
            owner_id: preference.owner_id,
            catalog_service_id: preference.catalog_service_id,
            platform_enabled: preference.platform_enabled,
            max_credits_per_call: preference.max_credits_per_call,
            max_credits_per_day: preference.max_credits_per_day,
            operation_overrides: preference.operation_overrides,
            created_by: preference.created_by,
            updated_by: preference.updated_by,
            created_at: preference.created_at,
            updated_at: preference.updated_at,
        }
    }
}

/// Spending preferences are managed only from a human browser session.
pub fn ensure_human_owner(auth_method: AuthMethod) -> (r: Result<(), AppError>)
    ensures
        auth_method == AuthMethod::Session ==> r is Ok,
        auth_method != AuthMethod::Session ==> (r matches Err(e) && is_forbidden(
            e,
            "Platform spending preferences require a human session"@,
        )),
{
    if auth_method != AuthMethod::Session {
        return Err(
            AppError::Forbidden(
                String::from_str("Platform spending preferences require a human session"),
            ),
        );
    }
    Ok(())
}

/// The owner a preference request addresses: the queried owner, else the caller.
pub fn preference_owner(query_owner: Option<String>, actor: &str) -> (r: String)
    ensures
        match query_owner {
            Some(o) => r == o,
            None => r@ == actor@,
        },
{
    match query_owner {
        Some(o) => o,
        None => String::from_str(actor),
    }
}

} // verus!

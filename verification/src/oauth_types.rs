//! Request and response shapes of the OAuth endpoints.
use vstd::prelude::*;

verus! {

/// Parameters of an authorization request (`GET /oauth/authorize`).
pub struct AuthorizeQuery {
    pub response_type: String,
    pub client_id: String,
    pub redirect_uri: String,
    pub scope: Option<String>,
    pub state: Option<String>,
    pub code_challenge: Option<String>,
    pub code_challenge_method: Option<String>,
    pub nonce: Option<String>,
    pub external_subject_platform: Option<String>,
    pub external_subject_tenant: Option<String>,
    pub external_subject_external_user_id: Option<String>,
    /// SHA-256 identifier of an existing broker binding under review.
    pub binding_grant_id: Option<String>,
    /// OIDC `prompt`: space-separated `none`, `login`, `consent`.
    pub prompt: Option<String>,
    pub request_uri: Option<String>,
    pub resource: Vec<String>,
}

/// The consent page's allow/deny submission.
pub struct ConsentDecisionForm {
    pub response_type: String,
    pub client_id: String,
    pub redirect_uri: String,
    pub scope: Option<String>,
    pub state: Option<String>,
    pub code_challenge: Option<String>,
    pub code_challenge_method: Option<String>,
    pub nonce: Option<String>,
    pub external_subject_platform: Option<String>,
    pub external_subject_tenant: Option<String>,
    pub external_subject_external_user_id: Option<String>,
    pub binding_grant_id: Option<String>,
    pub prompt: Option<String>,
    pub allow_all_services: bool,
    pub allowed_service_ids: Vec<String>,
    pub consent_request: Option<String>,
    pub resource: Vec<String>,
    pub decision: String,
}

/// Service access a consent form grants when it does not say: deny all.
pub fn default_allow_all_services_form() -> (r: bool)
    ensures
        !r,
{
    false
}

pub struct AuthorizeResponse {
    pub redirect_url: String,
}

pub struct TokenRequest {
    pub grant_type: String,
    pub code: Option<String>,
    pub redirect_uri: Option<String>,
    pub client_id: Option<String>,
    pub client_secret: Option<String>,
    pub code_verifier: Option<String>,
    pub refresh_token: Option<String>,
    pub subject_token: Option<String>,
    pub subject_token_type: Option<String>,
    pub scope: Option<String>,
    pub provider: Option<String>,
    pub resource: Vec<String>,
}

pub struct TokenResponse {
    pub access_token: String,
    pub token_type: String,
    pub expires_in: i64,
    pub refresh_token: Option<String>,
    pub id_token: Option<String>,
    pub scope: Option<String>,
    pub resource: Option<Vec<String>>,
    pub binding_id: Option<String>,
    pub binding_updated: Option<bool>,
    pub issued_token_type: Option<String>,
}

pub struct UserinfoResponse {
    pub sub: String,
    pub email: Option<String>,
    pub email_verified: Option<bool>,
    pub name: Option<String>,
    pub picture: Option<String>,
    pub roles: Option<Vec<String>>,
    pub groups: Option<Vec<String>>,
    pub permissions: Option<Vec<String>>,
}

pub struct IntrospectRequest {
    pub token: String,
    pub token_type_hint: Option<String>,
    pub client_id: Option<String>,
    pub client_secret: Option<String>,
}

pub struct IntrospectResponse {
    pub active: bool,
    pub scope: Option<String>,
    pub client_id: Option<String>,
    pub username: Option<String>,
    pub token_type: Option<String>,
    pub exp: Option<i64>,
    pub iat: Option<i64>,
    pub sub: Option<String>,
    pub iss: Option<String>,
    pub jti: Option<String>,
    pub roles: Option<Vec<String>>,
    pub groups: Option<Vec<String>>,
    pub permissions: Option<Vec<String>>,
    pub resource: Option<Vec<String>>,
}

pub struct RevokeRequest {
    pub token: String,
    pub token_type_hint: Option<String>,
    pub client_id: Option<String>,
    pub client_secret: Option<String>,
}

pub struct GetBindingQuery {
    pub client_id: Option<String>,
    pub client_secret: Option<String>,
}

/// External identity a broker binding is tied to.
pub struct ExternalSubjectRef {
    pub platform: String,
    pub tenant: Option<String>,
    pub external_user_id: String,
}

pub struct GetBindingResponse {
    pub binding_id: String,
    pub client_id: String,
    pub nyx_subject: String,
    pub external_subject_ref: Option<ExternalSubjectRef>,
    pub scopes: Vec<String>,
    pub created_at: String,
    pub last_used_at: Option<String>,
    pub revoked: bool,
}

pub struct ListBindingsByExternalSubjectQuery {
    pub client_id: Option<String>,
    pub client_secret: Option<String>,
    pub external_subject_platform: Option<String>,
    pub external_subject_tenant: Option<String>,
    pub external_subject_external_user_id: Option<String>,
}

pub struct BindingSummary {
    pub binding_hash: String,
    pub client_id: String,
    pub external_subject_ref: Option<ExternalSubjectRef>,
    pub scopes: Vec<String>,
    pub created_at: String,
    pub last_used_at: Option<String>,
    pub revoked: bool,
}

pub struct ListBindingsResponse {
    pub bindings: Vec<BindingSummary>,
}

/// Pushed authorization request form (`POST /oauth/par`).
pub struct PushedAuthorizationRequestForm {
    pub response_type: String,
    pub client_id: Option<String>,
    pub client_secret: Option<String>,
    pub redirect_uri: String,
    pub scope: Option<String>,
    pub state: Option<String>,
    pub code_challenge: Option<String>,
    pub code_challenge_method: Option<String>,
    pub nonce: Option<String>,
    pub prompt: Option<String>,
    pub resource: Vec<String>,
    pub external_subject_platform: Option<String>,
    pub external_subject_tenant: Option<String>,
    pub external_subject_external_user_id: Option<String>,
    pub binding_grant_id: Option<String>,
}

pub struct PushedAuthorizationRequestResponse {
    pub request_uri: String,
    pub expires_in: i64,
}

/// RFC 7591 dynamic client registration request.
pub struct RegisterClientRequest {
    pub client_name: Option<String>,
    pub redirect_uris: Option<Vec<String>>,
    pub grant_types: Option<Vec<String>>,
    pub response_types: Option<Vec<String>>,
    pub token_endpoint_auth_method: Option<String>,
    pub scope: Option<String>,
}

pub struct RegisterClientResponse {
    pub client_id: String,
    pub client_name: String,
    pub redirect_uris: Vec<String>,
    pub grant_types: Vec<String>,
    pub response_types: Vec<String>,
    pub token_endpoint_auth_method: String,
    pub scope: String,
    pub client_id_issued_at: i64,
}

} // verus!

//! The application error kinds the handler logic produces, and how each one
//! is reported on the OAuth token endpoint (RFC 6749 §5.2).
use vstd::prelude::*;

verus! {

/// How the caller of a request authenticated.
#[derive(Clone, Copy, Debug, PartialEq, Eq, Structural)]
pub enum AuthMethod {
    Session,
    ApiKey,
    Delegated,
    ServiceAccount,
    AccessToken,
    Relay,
}

/// Errors raised by the handler logic.
#[derive(Debug)]
pub enum AppError {
    BadRequest(String),
    ValidationError(String),
    Unauthorized(String),
    Forbidden(String),
    NotFound(String),
    Internal(String),
    DatabaseError(String),
    InvalidTarget(String),
    InvalidDpopProof(String),
    UnsupportedGrantType(String),
    ExternalTokenInvalid(String),
    ConsentRequired { consent_url: String },
    RateLimited,
    TokenExpired,
    InsufficientCredits,
    PlatformOperationOwnConnectionUnsupported { vendor: String },
    PlatformOperationOwnConnectionUnusable { vendor: String, detail: String },
    PlatformOperationApprovalRequired { vendor: String },
    PlatformOperationOwnConnectionOutOfScope { vendor: String },
    PlatformOperationUnavailable,
    OraclePayloadTooLarge(String),
    RequestBodyTooLarge { max_bytes: usize, context: String },
    OracleWorkerTokenInvalid,
}

/// RFC 6749 §5.2 error body of the token endpoint, with its HTTP status.
pub struct OAuthErrorBody {
    pub status: u16,
    pub error: String,
    pub error_description: String,
}

/// `e` is a bad request with exactly the message `msg`.
pub open spec fn is_bad_request(e: AppError, msg: Seq<char>) -> bool {
    e matches AppError::BadRequest(m) && m@ == msg
}

/// `e` is a validation error with exactly the message `msg`.
pub open spec fn is_validation_error(e: AppError, msg: Seq<char>) -> bool {
    e matches AppError::ValidationError(m) && m@ == msg
}

/// `e` is an authentication failure with exactly the message `msg`.
pub open spec fn is_unauthorized(e: AppError, msg: Seq<char>) -> bool {
    e matches AppError::Unauthorized(m) && m@ == msg
}

/// `e` is a refusal with exactly the message `msg`.
pub open spec fn is_forbidden(e: AppError, msg: Seq<char>) -> bool {
    e matches AppError::Forbidden(m) && m@ == msg
}

/// `e` is a not-found error with exactly the message `msg`.
pub open spec fn is_not_found(e: AppError, msg: Seq<char>) -> bool {
    e matches AppError::NotFound(m) && m@ == msg
}

/// `e` is an invalid-target error with exactly the message `msg`.
pub open spec fn is_invalid_target(e: AppError, msg: Seq<char>) -> bool {
    e matches AppError::InvalidTarget(m) && m@ == msg
}

/// `e` is an invalid-grant error with exactly the message `msg`.
pub open spec fn is_external_token_invalid(e: AppError, msg: Seq<char>) -> bool {
    e matches AppError::ExternalTokenInvalid(m) && m@ == msg
}

/// `e` reports an oversized payload with exactly the message `msg`.
pub open spec fn is_payload_too_large(e: AppError, msg: Seq<char>) -> bool {
    e matches AppError::OraclePayloadTooLarge(m) && m@ == msg
}

/// HTTP status and OAuth `error` code reported for an error.
pub open spec fn oauth_status_code(err: AppError) -> (u16, Seq<char>) {
    match err {
        AppError::BadRequest(_) | AppError::ValidationError(_) => (400, "invalid_request"@),
        AppError::Unauthorized(_) => (401, "invalid_client"@),
        AppError::Forbidden(_) => (403, "access_denied"@),
        AppError::NotFound(_) => (404, "invalid_request"@),
        AppError::InvalidTarget(_) => (400, "invalid_target"@),
        AppError::InvalidDpopProof(_) => (400, "invalid_dpop_proof"@),
        AppError::UnsupportedGrantType(_) => (400, "unsupported_grant_type"@),
        AppError::ExternalTokenInvalid(_) => (400, "invalid_grant"@),
        AppError::RateLimited => (429, "temporarily_unavailable"@),
        _ => (500, "server_error"@),
    }
}

/// The error's text, as error bodies and error pages report it: the message
/// of an error that carries one, a fixed sentence (naming the vendor where
/// there is one) for the others; an empty message reads as the error's key.
pub open spec fn error_message(err: AppError) -> Seq<char> {
    match err {
        AppError::BadRequest(m) | AppError::ValidationError(m) | AppError::Unauthorized(m)
        | AppError::Forbidden(m) | AppError::NotFound(m) | AppError::Internal(m)
        | AppError::DatabaseError(m) | AppError::InvalidTarget(m) | AppError::InvalidDpopProof(m)
        | AppError::UnsupportedGrantType(m) | AppError::ExternalTokenInvalid(m)
        | AppError::OraclePayloadTooLarge(m) => if m@.len() == 0 {
            spec_error_key(err)
        } else {
            m@
        },
        AppError::ConsentRequired { .. } => "User consent is required"@,
        AppError::RateLimited => "Rate limit exceeded"@,
        AppError::TokenExpired => "Token expired"@,
        AppError::InsufficientCredits => "Insufficient credits"@,
        AppError::PlatformOperationOwnConnectionUnsupported { vendor } => "Own "@ + vendor@
            + " connections are not supported for this operation"@,
        AppError::PlatformOperationOwnConnectionUnusable { vendor, detail } => "Your "@ + vendor@
            + " connection cannot be used. "@ + detail@,
        AppError::PlatformOperationApprovalRequired { vendor } => "Approval is required to use "@
            + vendor@,
        AppError::PlatformOperationOwnConnectionOutOfScope { vendor } => "Your "@ + vendor@
            + " connection is outside this credential's scope"@,
        AppError::PlatformOperationUnavailable => "Platform operation unavailable"@,
        AppError::RequestBodyTooLarge { context, .. } => "Request body too large: "@ + context@,
        AppError::OracleWorkerTokenInvalid => "Invalid worker token"@,
    }
}

/// Whether the error's detail must not leave the server.
pub open spec fn is_internal(err: AppError) -> bool {
    err is Internal || err is DatabaseError
}

fn oauth_status_and_code(err: &AppError) -> (r: (u16, &'static str))
    ensures
        r.0 == oauth_status_code(*err).0,
        r.1@ == oauth_status_code(*err).1,
{
    proof {
        reveal_strlit("invalid_request");
        reveal_strlit("invalid_client");
        reveal_strlit("access_denied");
        reveal_strlit("invalid_target");
        reveal_strlit("invalid_dpop_proof");
        reveal_strlit("unsupported_grant_type");
        reveal_strlit("invalid_grant");
        reveal_strlit("temporarily_unavailable");
        reveal_strlit("server_error");
    }
    match err {
        AppError::BadRequest(_) | AppError::ValidationError(_) => (400, "invalid_request"),
        AppError::Unauthorized(_) => (401, "invalid_client"),
        AppError::Forbidden(_) => (403, "access_denied"),
        AppError::NotFound(_) => (404, "invalid_request"),
        AppError::InvalidTarget(_) => (400, "invalid_target"),
        AppError::InvalidDpopProof(_) => (400, "invalid_dpop_proof"),
        AppError::UnsupportedGrantType(_) => (400, "unsupported_grant_type"),
        AppError::ExternalTokenInvalid(_) => (400, "invalid_grant"),
        AppError::RateLimited => (429, "temporarily_unavailable"),
        _ => (500, "server_error"),
    }
}

fn joined(parts: &[&str]) -> (m: String)
    ensures
        m@ == concat_views(parts@),
{
    let mut m = String::new();
    let mut i: usize = 0;
    while i < parts.len()
        invariant
            i <= parts.len(),
            m@ == concat_views(parts@.take(i as int)),
        decreases parts.len() - i,
    {
        assert(parts@.take(i + 1).drop_last() =~= parts@.take(i as int));
        m.append(parts[i]);
        i = i + 1;
    }
    assert(parts@.take(parts.len() as int) =~= parts@);
    m
}

/// The strings of `parts`, concatenated.
pub open spec fn concat_views(parts: Seq<&str>) -> Seq<char>
    decreases parts.len(),
{
    if parts.len() == 0 {
        Seq::empty()
    } else {
        concat_views(parts.drop_last()) + parts.last()@
    }
}

fn message_or_key(m: &String, err: &AppError) -> (r: String)
    ensures
        r@ == (if m@.len() == 0 {
            spec_error_key(*err)
        } else {
            m@
        }),
{
    if m.as_str().is_empty() {
        String::from_str(err.error_key())
    } else {
        m.clone()
    }
}

fn error_message_of(err: &AppError) -> (m: String)
    ensures
        m@ == error_message(*err),
{
    match err {
        AppError::BadRequest(m) | AppError::ValidationError(m) | AppError::Unauthorized(m)
        | AppError::Forbidden(m) | AppError::NotFound(m) | AppError::Internal(m)
        | AppError::DatabaseError(m) | AppError::InvalidTarget(m) | AppError::InvalidDpopProof(m)
        | AppError::UnsupportedGrantType(m) | AppError::ExternalTokenInvalid(m)
        | AppError::OraclePayloadTooLarge(m) => message_or_key(m, err),
        AppError::ConsentRequired { .. } => String::from_str("User consent is required"),
        AppError::RateLimited => String::from_str("Rate limit exceeded"),
        AppError::TokenExpired => String::from_str("Token expired"),
        AppError::InsufficientCredits => String::from_str("Insufficient credits"),
        AppError::PlatformOperationOwnConnectionUnsupported { vendor } => {
            let parts = ["Own ", vendor.as_str(), " connections are not supported for this operation"];
            let r = joined(&parts);
            proof {
                reveal_with_fuel(concat_views, 4);
            }
            r
        },
        AppError::PlatformOperationOwnConnectionUnusable { vendor, detail } => {
            let parts = ["Your ", vendor.as_str(), " connection cannot be used. ", detail.as_str()];
            let r = joined(&parts);
            proof {
                reveal_with_fuel(concat_views, 5);
            }
            r
        },
        AppError::PlatformOperationApprovalRequired { vendor } => {
            let parts = ["Approval is required to use ", vendor.as_str()];
            let r = joined(&parts);
            proof {
                reveal_with_fuel(concat_views, 3);
            }
            r
        },
        AppError::PlatformOperationOwnConnectionOutOfScope { vendor } => {
            let parts = ["Your ", vendor.as_str(), " connection is outside this credential's scope"];
            let r = joined(&parts);
            proof {
                reveal_with_fuel(concat_views, 4);
            }
            r
        },
        AppError::PlatformOperationUnavailable => String::from_str("Platform operation unavailable"),
        AppError::RequestBodyTooLarge { context, .. } => {
            let parts = ["Request body too large: ", context.as_str()];
            let r = joined(&parts);
            proof {
                reveal_with_fuel(concat_views, 3);
            }
            r
        },
        AppError::OracleWorkerTokenInvalid => String::from_str("Invalid worker token"),
    }
}

/// Stable key of an error, as error pages and clients see it.
pub open spec fn spec_error_key(err: AppError) -> Seq<char> {
    match err {
        AppError::BadRequest(_) => "bad_request"@,
        AppError::ValidationError(_) => "validation_error"@,
        AppError::Unauthorized(_) => "unauthorized"@,
        AppError::Forbidden(_) => "forbidden"@,
        AppError::NotFound(_) => "not_found"@,
        AppError::Internal(_) => "internal_error"@,
        AppError::DatabaseError(_) => "database_error"@,
        AppError::InvalidTarget(_) => "invalid_target"@,
        AppError::InvalidDpopProof(_) => "invalid_dpop_proof"@,
        AppError::UnsupportedGrantType(_) => "unsupported_grant_type"@,
        AppError::ExternalTokenInvalid(_) => "external_token_invalid"@,
        AppError::ConsentRequired { .. } => "consent_required"@,
        AppError::RateLimited => "rate_limited"@,
        AppError::TokenExpired => "token_expired"@,
        AppError::InsufficientCredits => "insufficient_credits"@,
        AppError::PlatformOperationOwnConnectionUnsupported { .. } =>
            "platform_operation_own_connection_unsupported"@,
        AppError::PlatformOperationOwnConnectionUnusable { .. } =>
            "platform_operation_own_connection_unusable"@,
        AppError::PlatformOperationApprovalRequired { .. } =>
            "platform_operation_approval_required"@,
        AppError::PlatformOperationOwnConnectionOutOfScope { .. } =>
            "platform_operation_own_connection_out_of_scope"@,
        AppError::PlatformOperationUnavailable => "platform_operation_unavailable"@,
        AppError::OraclePayloadTooLarge(_) => "oracle_payload_too_large"@,
        AppError::RequestBodyTooLarge { .. } => "request_body_too_large"@,
        AppError::OracleWorkerTokenInvalid => "oracle_worker_token_invalid"@,
    }
}

impl AppError {
    /// The error's stable key.
    pub fn error_key(&self) -> (k: &'static str)
        ensures
            k@ == spec_error_key(*self),
    {
        match self {
            AppError::BadRequest(_) => "bad_request",
            AppError::ValidationError(_) => "validation_error",
            AppError::Unauthorized(_) => "unauthorized",
            AppError::Forbidden(_) => "forbidden",
            AppError::NotFound(_) => "not_found",
            AppError::Internal(_) => "internal_error",
            AppError::DatabaseError(_) => "database_error",
            AppError::InvalidTarget(_) => "invalid_target",
            AppError::InvalidDpopProof(_) => "invalid_dpop_proof",
            AppError::UnsupportedGrantType(_) => "unsupported_grant_type",
            AppError::ExternalTokenInvalid(_) => "external_token_invalid",
            AppError::ConsentRequired { .. } => "consent_required",
            AppError::RateLimited => "rate_limited",
            AppError::TokenExpired => "token_expired",
            AppError::InsufficientCredits => "insufficient_credits",
            AppError::PlatformOperationOwnConnectionUnsupported { .. } =>
                "platform_operation_own_connection_unsupported",
            AppError::PlatformOperationOwnConnectionUnusable { .. } =>
                "platform_operation_own_connection_unusable",
            AppError::PlatformOperationApprovalRequired { .. } =>
                "platform_operation_approval_required",
            AppError::PlatformOperationOwnConnectionOutOfScope { .. } =>
                "platform_operation_own_connection_out_of_scope",
            AppError::PlatformOperationUnavailable => "platform_operation_unavailable",
            AppError::OraclePayloadTooLarge(_) => "oracle_payload_too_large",
            AppError::RequestBodyTooLarge { .. } => "request_body_too_large",
            AppError::OracleWorkerTokenInvalid => "oracle_worker_token_invalid",
        }
    }

    /// The error's text, as error bodies and pages report it.
    pub fn message(&self) -> (m: String)
        ensures
            m@ == error_message(*self),
    {
        error_message_of(self)
    }
}

/// RFC 6749 §5.2 body for a failed token request. Internal and database
/// errors are described generically so that no server detail leaks.
pub fn oauth_error_response(err: &AppError) -> (body: OAuthErrorBody)
    ensures
        body.status == oauth_status_code(*err).0,
        body.error@ == oauth_status_code(*err).1,
        is_internal(*err) ==> body.error_description@ == "An internal error occurred"@,
        !is_internal(*err) ==> body.error_description@ == error_message(*err),
{
    let (status, code) = oauth_status_and_code(err);
    let description = match err {
        AppError::Internal(_) | AppError::DatabaseError(_) => String::from_str(
            "An internal error occurred",
        ),
        _ => error_message_of(err),
    };
    OAuthErrorBody { status, error: String::from_str(code), error_description: description }
}

} // verus!

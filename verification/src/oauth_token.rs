//! Decisions of the token, introspection, userinfo and registration
//! endpoints: which grant a token request asks for and with what, how the
//! issued tokens are reported, and what a registration may ask for.
use vstd::prelude::*;
use crate::client_auth::{
    is_invalid_client_credentials,
    parse_basic_client_credentials,
    spec_basic_credentials,
    spec_token_exchange_client,
    token_exchange_client,
    pair_view,
};
use crate::errors::{AppError, is_bad_request, is_forbidden, is_external_token_invalid};
use crate::oauth_types::{
    ExternalSubjectRef,
    IntrospectResponse,
    RegisterClientResponse,
    TokenRequest,
    TokenResponse,
    UserinfoResponse,
};
use crate::text::{contains_string, opt_view, split_words, str_eq, trim, trim_str, views, words};

verus! {

/// RFC 8693 token-exchange grant type.
pub const TOKEN_EXCHANGE_GRANT_TYPE: &'static str = "urn:ietf:params:oauth:grant-type:token-exchange";

/// RFC 8693 token type of an access token.
pub const ACCESS_TOKEN_TYPE: &'static str = "urn:ietf:params:oauth:token-type:access_token";

/// Scope that asks for a refresh token.
pub const OFFLINE_ACCESS_SCOPE: &'static str = "offline_access";

/// What a token request asks the token services to do.
#[allow(inconsistent_fields)]
pub enum TokenGrant {
    /// Redeem an authorization code.
    AuthorizationCode {
        code: String,
        redirect_uri: String,
        client_id: String,
        code_verifier: Option<String>,
        client_secret: Option<String>,
        resources: Vec<String>,
    },
    /// Rotate a refresh token.
    RefreshToken { refresh_token: String, resources: Vec<String> },
    /// Exchange a social provider's token.
    SocialExchange {
        client_id: String,
        client_secret: Option<String>,
        subject_token: String,
        subject_token_type: String,
        provider: String,
    },
    /// Exchange a NyxID access token for a delegated token.
    DelegatedExchange {
        client_id: String,
        client_secret: String,
        subject_token: String,
        subject_token_type: String,
        scope: Option<String>,
    },
    /// Exchange a broker binding for an access token.
    BrokerExchange {
        client_id: String,
        client_secret: Option<String>,
        subject_token: String,
        scope: Option<String>,
    },
    /// Service-account client credentials.
    ClientCredentials { client_id: String, client_secret: String, scope: Option<String> },
}

/// The abstract content of a [`TokenGrant`].
#[allow(inconsistent_fields)]
pub enum GrantRequest {
    AuthorizationCode {
        code: Seq<char>,
        redirect_uri: Seq<char>,
        client_id: Seq<char>,
        code_verifier: Option<Seq<char>>,
        client_secret: Option<Seq<char>>,
        resources: Seq<Seq<char>>,
    },
    RefreshToken { refresh_token: Seq<char>, resources: Seq<Seq<char>> },
    SocialExchange {
        client_id: Seq<char>,
        client_secret: Option<Seq<char>>,
        subject_token: Seq<char>,
        subject_token_type: Seq<char>,
        provider: Seq<char>,
    },
    DelegatedExchange {
        client_id: Seq<char>,
        client_secret: Seq<char>,
        subject_token: Seq<char>,
        subject_token_type: Seq<char>,
        scope: Option<Seq<char>>,
    },
    BrokerExchange {
        client_id: Seq<char>,
        client_secret: Option<Seq<char>>,
        subject_token: Seq<char>,
        scope: Option<Seq<char>>,
    },
    ClientCredentials { client_id: Seq<char>, client_secret: Seq<char>, scope: Option<Seq<char>> },
}

impl View for TokenGrant {
    type V = GrantRequest;

    open spec fn view(&self) -> GrantRequest {
        match *self {
            TokenGrant::AuthorizationCode {
                code,
                redirect_uri,
                client_id,
                code_verifier,
                client_secret,
                resources,
            } => GrantRequest::AuthorizationCode {
                code: code@,
                redirect_uri: redirect_uri@,
                client_id: client_id@,
                code_verifier: opt_view(code_verifier),
                client_secret: opt_view(client_secret),
                resources: views(resources@),
            },
            TokenGrant::RefreshToken { refresh_token, resources } => GrantRequest::RefreshToken {
                refresh_token: refresh_token@,
                resources: views(resources@),
            },
            TokenGrant::SocialExchange {
                client_id,
                client_secret,
                subject_token,
                subject_token_type,
                provider,
            } => GrantRequest::SocialExchange {
                client_id: client_id@,
                client_secret: opt_view(client_secret),
                subject_token: subject_token@,
                subject_token_type: subject_token_type@,
                provider: provider@,
            },
            TokenGrant::DelegatedExchange {
                client_id,
                client_secret,
                subject_token,
                subject_token_type,
                scope,
            } => GrantRequest::DelegatedExchange {
                client_id: client_id@,
                client_secret: client_secret@,
                subject_token: subject_token@,
                subject_token_type: subject_token_type@,
                scope: opt_view(scope),
            },
            TokenGrant::BrokerExchange { client_id, client_secret, subject_token, scope } =>
                GrantRequest::BrokerExchange {
                client_id: client_id@,
                client_secret: opt_view(client_secret),
                subject_token: subject_token@,
                scope: opt_view(scope),
            },
            TokenGrant::ClientCredentials { client_id, client_secret, scope } =>
                GrantRequest::ClientCredentials {
                client_id: client_id@,
                client_secret: client_secret@,
                scope: opt_view(scope),
            },
        }
    }
}

/// Why a token request is refused before any token service is asked.
pub enum GrantFailure {
    /// A missing or unusable parameter, with the message reported.
    BadRequest(Seq<char>),
    /// Malformed or conflicting client credentials.
    InvalidClientCredentials,
    /// A grant type this server does not offer.
    UnsupportedGrantType(Seq<char>),
}

/// Whether `e` reports `f`.
pub open spec fn failure_is(e: AppError, f: GrantFailure) -> bool {
    match f {
        GrantFailure::BadRequest(m) => is_bad_request(e, m),
        GrantFailure::InvalidClientCredentials => is_invalid_client_credentials(e),
        GrantFailure::UnsupportedGrantType(g) => e matches AppError::UnsupportedGrantType(x) && x@
            == g,
    }
}

/// The token-exchange branch: client resolution, required subject token
/// and type, then routing by `provider` and subject token type.
pub open spec fn spec_exchange_grant(
    body: TokenRequest,
    basic: Result<Option<(Seq<char>, Seq<char>)>, ()>,
    broker_subject_token_type: Seq<char>,
) -> Result<GrantRequest, GrantFailure> {
    match basic {
        Err(_) => Err(GrantFailure::InvalidClientCredentials),
        Ok(b) => match spec_token_exchange_client(opt_view(body.client_id), opt_view(body.client_secret), b) {
            Err(_) => if body.client_id is Some {
                Err(GrantFailure::InvalidClientCredentials)
            } else {
                Err(GrantFailure::BadRequest("Missing client_id"@))
            },
            Ok((client_id, secret)) => match body.subject_token {
                None => Err(GrantFailure::BadRequest("Missing subject_token"@)),
                Some(subject_token) => match body.subject_token_type {
                    None => Err(GrantFailure::BadRequest("Missing subject_token_type"@)),
                    Some(token_type) => match body.provider {
                        Some(provider) => Ok(
                            GrantRequest::SocialExchange {
                                client_id,
                                client_secret: secret,
                                subject_token: subject_token@,
                                subject_token_type: token_type@,
                                provider: provider@,
                            },
                        ),
                        None => if token_type@ == ACCESS_TOKEN_TYPE@ {
                            match secret {
                                Some(s) => Ok(
                                    GrantRequest::DelegatedExchange {
                                        client_id,
                                        client_secret: s,
                                        subject_token: subject_token@,
                                        subject_token_type: token_type@,
                                        scope: opt_view(body.scope),
                                    },
                                ),
                                None => Err(GrantFailure::BadRequest("Missing client_secret"@)),
                            }
                        } else if token_type@ == broker_subject_token_type {
                            Ok(
                                GrantRequest::BrokerExchange {
                                    client_id,
                                    client_secret: secret,
                                    subject_token: subject_token@,
                                    scope: opt_view(body.scope),
                                },
                            )
                        } else {
                            Err(
                                GrantFailure::BadRequest(
                                    "Unsupported subject_token_type: "@ + token_type@,
                                ),
                            )
                        },
                    },
                },
            },
        },
    }
}

/// The grant a token request asks for, or why it is refused. `basic` is
/// what the request's Basic credentials hold; only token exchange reads them.
pub open spec fn spec_token_grant(
    body: TokenRequest,
    basic: Result<Option<(Seq<char>, Seq<char>)>, ()>,
    broker_subject_token_type: Seq<char>,
) -> Result<GrantRequest, GrantFailure> {
    if body.grant_type@ == "authorization_code"@ {
        match (body.code, body.redirect_uri, body.client_id) {
            (None, _, _) => Err(GrantFailure::BadRequest("Missing code parameter"@)),
            (Some(_), None, _) => Err(GrantFailure::BadRequest("Missing redirect_uri parameter"@)),
            (Some(_), Some(_), None) => Err(GrantFailure::BadRequest("Missing client_id parameter"@)),
            (Some(code), Some(redirect_uri), Some(client_id)) => Ok(
                GrantRequest::AuthorizationCode {
                    code: code@,
                    redirect_uri: redirect_uri@,
                    client_id: client_id@,
                    code_verifier: opt_view(body.code_verifier),
                    client_secret: opt_view(body.client_secret),
                    resources: views(body.resource@),
                },
            ),
        }
    } else if body.grant_type@ == "refresh_token"@ {
        match body.refresh_token {
            None => Err(GrantFailure::BadRequest("Missing refresh_token parameter"@)),
            Some(t) => Ok(
                GrantRequest::RefreshToken { refresh_token: t@, resources: views(body.resource@) },
            ),
        }
    } else if body.grant_type@ == TOKEN_EXCHANGE_GRANT_TYPE@ {
        spec_exchange_grant(body, basic, broker_subject_token_type)
    } else if body.grant_type@ == "client_credentials"@ {
        match (body.client_id, body.client_secret) {
            (None, _) => Err(GrantFailure::BadRequest("Missing client_id"@)),
            (Some(_), None) => Err(GrantFailure::BadRequest("Missing client_secret"@)),
            (Some(id), Some(secret)) => Ok(
                GrantRequest::ClientCredentials {
                    client_id: id@,
                    client_secret: secret@,
                    scope: opt_view(body.scope),
                },
            ),
        }
    } else {
        Err(GrantFailure::UnsupportedGrantType(body.grant_type@))
    }
}

/// A token request's grant carries the request's own parameters unchanged:
/// an authorization-code grant its code, redirect URI, client, PKCE
/// verifier, secret and resources; a refresh grant its token and resources;
/// a client-credentials grant its client, secret and scope; an exchange its
/// subject token (and, for a social exchange, its type and provider). Each
/// kind of grant comes only from its own `grant_type`, and a request that
/// names the parameters its grant type needs is granted.
pub proof fn lemma_token_grant_carries_request(
    body: TokenRequest,
    basic: Result<Option<(Seq<char>, Seq<char>)>, ()>,
    broker_subject_token_type: Seq<char>,
)
    ensures
        match spec_token_grant(body, basic, broker_subject_token_type) {
            Ok(GrantRequest::AuthorizationCode {
                code,
                redirect_uri,
                client_id,
                code_verifier,
                client_secret,
                resources,
            }) => {
                &&& body.grant_type@ == "authorization_code"@
                &&& opt_view(body.code) == Some(code)
                &&& opt_view(body.redirect_uri) == Some(redirect_uri)
                &&& opt_view(body.client_id) == Some(client_id)
                &&& code_verifier == opt_view(body.code_verifier)
                &&& client_secret == opt_view(body.client_secret)
                &&& resources == views(body.resource@)
            },
            Ok(GrantRequest::RefreshToken { refresh_token, resources }) => {
                &&& body.grant_type@ == "refresh_token"@
                &&& opt_view(body.refresh_token) == Some(refresh_token)
                &&& resources == views(body.resource@)
            },
            Ok(GrantRequest::ClientCredentials { client_id, client_secret, scope }) => {
                &&& body.grant_type@ == "client_credentials"@
                &&& opt_view(body.client_id) == Some(client_id)
                &&& opt_view(body.client_secret) == Some(client_secret)
                &&& scope == opt_view(body.scope)
            },
            Ok(GrantRequest::SocialExchange { subject_token, subject_token_type, provider, .. }) => {
                &&& body.grant_type@ == TOKEN_EXCHANGE_GRANT_TYPE@
                &&& opt_view(body.subject_token) == Some(subject_token)
                &&& opt_view(body.subject_token_type) == Some(subject_token_type)
                &&& opt_view(body.provider) == Some(provider)
            },
            Ok(GrantRequest::DelegatedExchange { subject_token, subject_token_type, scope, .. }) => {
                &&& body.grant_type@ == TOKEN_EXCHANGE_GRANT_TYPE@
                &&& body.provider is None
                &&& opt_view(body.subject_token) == Some(subject_token)
                &&& subject_token_type == ACCESS_TOKEN_TYPE@
                &&& opt_view(body.subject_token_type) == Some(subject_token_type)
                &&& scope == opt_view(body.scope)
            },
            Ok(GrantRequest::BrokerExchange { subject_token, scope, .. }) => {
                &&& body.grant_type@ == TOKEN_EXCHANGE_GRANT_TYPE@
                &&& body.provider is None
                &&& opt_view(body.subject_token) == Some(subject_token)
                &&& opt_view(body.subject_token_type) == Some(broker_subject_token_type)
                &&& scope == opt_view(body.scope)
            },
            Err(_) => true,
        },
        (body.grant_type@ == "authorization_code"@ && body.code is Some && body.redirect_uri is Some
            && body.client_id is Some) ==> spec_token_grant(
            body,
            basic,
            broker_subject_token_type,
        ) is Ok,
        (body.grant_type@ == "refresh_token"@ && body.refresh_token is Some) ==> spec_token_grant(
            body,
            basic,
            broker_subject_token_type,
        ) is Ok,
        (body.grant_type@ == "client_credentials"@ && body.client_id is Some && body.client_secret
            is Some) ==> spec_token_grant(body, basic, broker_subject_token_type) is Ok,
{
    reveal_strlit("authorization_code");
    reveal_strlit("refresh_token");
    reveal_strlit("client_credentials");
    reveal_strlit("urn:ietf:params:oauth:grant-type:token-exchange");
    assert("client_credentials"@[0] != "authorization_code"@[0]);
    assert("client_credentials"@[0] != "refresh_token"@[0]);
    assert("client_credentials"@[0] != TOKEN_EXCHANGE_GRANT_TYPE@[0]);
}

fn bad_request(msg: &str) -> (e: AppError)
    ensures
        is_bad_request(e, msg@),
{
    AppError::BadRequest(String::from_str(msg))
}

fn plan_token_exchange(
    body: TokenRequest,
    authorization: Option<&[u8]>,
    broker_subject_token_type: &str,
) -> (r: Result<TokenGrant, AppError>)
    ensures
        match r {
            Ok(g) => spec_exchange_grant(
                body,
                spec_basic_credentials(
                    match authorization {
                        Some(b) => Some(b@),
                        None => None,
                    },
                ),
                broker_subject_token_type@,
            ) == Ok::<GrantRequest, GrantFailure>(g@),
            Err(e) => spec_exchange_grant(
                body,
                spec_basic_credentials(
                    match authorization {
                        Some(b) => Some(b@),
                        None => None,
                    },
                ),
                broker_subject_token_type@,
            ) matches Err(f) && failure_is(e, f),
        },
{
    let ghost header = match authorization {
        Some(b) => Some(b@),
        None => None,
    };
    let basic = match parse_basic_client_credentials(authorization) {
        Ok(b) => b,
        Err(e) => return Err(e),
    };
    assert(spec_basic_credentials(header) == Ok::<Option<(Seq<char>, Seq<char>)>, ()>(
        pair_view(basic),
    ));
    let TokenRequest {
        grant_type: _,
        code: _,
        redirect_uri: _,
        client_id,
        client_secret,
        code_verifier: _,
        refresh_token: _,
        subject_token,
        subject_token_type,
        scope,
        provider,
        resource: _,
    } = body;
    let (client_id, secret) = match token_exchange_client(client_id, client_secret, basic) {
        Ok(c) => c,
        Err(e) => return Err(e),
    };
    let subject_token = match subject_token {
        Some(t) => t,
        None => return Err(bad_request("Missing subject_token")),
    };
    let token_type = match subject_token_type {
        Some(t) => t,
        None => return Err(bad_request("Missing subject_token_type")),
    };
    if let Some(provider) = provider {
        return Ok(
            TokenGrant::SocialExchange {
                client_id,
                client_secret: secret,
                subject_token,
                subject_token_type: token_type,
                provider,
            },
        );
    }
    if str_eq(token_type.as_str(), ACCESS_TOKEN_TYPE) {
        match secret {
            Some(s) => Ok(
                TokenGrant::DelegatedExchange {
                    client_id,
                    client_secret: s,
                    subject_token,
                    subject_token_type: token_type,
                    scope,
                },
            ),
            None => Err(bad_request("Missing client_secret")),
        }
    } else if str_eq(token_type.as_str(), broker_subject_token_type) {
        Ok(TokenGrant::BrokerExchange { client_id, client_secret: secret, subject_token, scope })
    } else {
        let mut msg = String::from_str("Unsupported subject_token_type: ");
        msg.append(token_type.as_str());
        Err(AppError::BadRequest(msg))
    }
}

/// Reads a token request: its grant type, the parameters that grant needs,
/// and for token exchange the client (from the form or the Basic
/// `Authorization` header) and the kind of exchange.
pub fn plan_token_grant(
    body: TokenRequest,
    authorization: Option<&[u8]>,
    broker_subject_token_type: &str,
) -> (r: Result<TokenGrant, AppError>)
    ensures
        match r {
            Ok(g) => spec_token_grant(
                body,
                spec_basic_credentials(
                    match authorization {
                        Some(b) => Some(b@),
                        None => None,
                    },
                ),
                broker_subject_token_type@,
            ) == Ok::<GrantRequest, GrantFailure>(g@),
            Err(e) => spec_token_grant(
                body,
                spec_basic_credentials(
                    match authorization {
                        Some(b) => Some(b@),
                        None => None,
                    },
                ),
                broker_subject_token_type@,
            ) matches Err(f) && failure_is(e, f),
        },
        r matches Ok(TokenGrant::AuthorizationCode {
            code,
            redirect_uri,
            client_id,
            code_verifier,
            client_secret,
            resources,
        }) ==> Some(code) == body.code && Some(redirect_uri) == body.redirect_uri && Some(
            client_id,
        ) == body.client_id && code_verifier == body.code_verifier && client_secret
            == body.client_secret && resources == body.resource,
        r matches Ok(TokenGrant::RefreshToken { refresh_token, resources }) ==> Some(refresh_token)
            == body.refresh_token && resources == body.resource,
        r matches Ok(TokenGrant::ClientCredentials { client_id, client_secret, scope }) ==> Some(
            client_id,
        ) == body.client_id && Some(client_secret) == body.client_secret && scope == body.scope,
{
    if str_eq(body.grant_type.as_str(), "authorization_code") {
        let TokenRequest {
            grant_type: _,
            code,
            redirect_uri,
            client_id,
            client_secret,
            code_verifier,
            refresh_token: _,
            subject_token: _,
            subject_token_type: _,
            scope: _,
            provider: _,
            resource,
        } = body;
        let code = match code {
            Some(c) => c,
            None => return Err(bad_request("Missing code parameter")),
        };
        let redirect_uri = match redirect_uri {
            Some(u) => u,
            None => return Err(bad_request("Missing redirect_uri parameter")),
        };
        let client_id = match client_id {
            Some(i) => i,
            None => return Err(bad_request("Missing client_id parameter")),
        };
        Ok(
            TokenGrant::AuthorizationCode {
                code,
                redirect_uri,
                client_id,
                code_verifier,
                client_secret,
                resources: resource,
            },
        )
    } else if str_eq(body.grant_type.as_str(), "refresh_token") {
        match body.refresh_token {
            Some(t) => Ok(TokenGrant::RefreshToken { refresh_token: t, resources: body.resource }),
            None => Err(bad_request("Missing refresh_token parameter")),
        }
    } else if str_eq(body.grant_type.as_str(), TOKEN_EXCHANGE_GRANT_TYPE) {
        plan_token_exchange(body, authorization, broker_subject_token_type)
    } else if str_eq(body.grant_type.as_str(), "client_credentials") {
        match (body.client_id, body.client_secret) {
            (None, _) => Err(bad_request("Missing client_id")),
            (Some(_), None) => Err(bad_request("Missing client_secret")),
            (Some(id), Some(secret)) => Ok(
                TokenGrant::ClientCredentials { client_id: id, client_secret: secret, scope: body.scope },
            ),
        }
    } else {
        Err(AppError::UnsupportedGrantType(body.grant_type))
    }
}

/// Whether a granted scope string holds `offline_access`.
pub open spec fn grants_offline_access(granted_scope: Seq<char>) -> bool {
    words(granted_scope).contains(OFFLINE_ACCESS_SCOPE@)
}

/// What happens to a redeemed code of a broker client.
#[derive(PartialEq, Eq, Structural)]
pub enum BrokerCodeDecision {
    /// A sender constraint is required and the request proved none: the
    /// new refresh token is withdrawn and the grant refused.
    RejectUnpinned,
    /// A binding is issued; the refresh token is returned only with
    /// `offline_access`.
    Issue { return_refresh_token: bool },
}

pub open spec fn spec_broker_code_decision(
    granted_scope: Seq<char>,
    require_sender_constraint: bool,
    sender_constrained: bool,
) -> BrokerCodeDecision {
    if require_sender_constraint && !sender_constrained {
        BrokerCodeDecision::RejectUnpinned
    } else {
        BrokerCodeDecision::Issue { return_refresh_token: grants_offline_access(granted_scope) }
    }
}

pub fn broker_code_decision(
    granted_scope: &str,
    require_sender_constraint: bool,
    sender_constrained: bool,
) -> (r: BrokerCodeDecision)
    ensures
        r == spec_broker_code_decision(
            granted_scope@,
            require_sender_constraint,
            sender_constrained,
        ),
{
    if require_sender_constraint && !sender_constrained {
        return BrokerCodeDecision::RejectUnpinned;
    }
    let scopes = split_words(granted_scope);
    BrokerCodeDecision::Issue {
        return_refresh_token: contains_string(scopes.as_slice(), OFFLINE_ACCESS_SCOPE),
    }
}

/// The error a refused unpinned broker grant reports.
pub fn unpinned_broker_grant_error() -> (e: AppError)
    ensures
        is_external_token_invalid(e, "invalid_grant"@),
{
    AppError::ExternalTokenInvalid(String::from_str("invalid_grant"))
}

/// A broker client never receives a refresh token without `offline_access`,
/// and never receives a binding without a sender constraint when one is required.
pub proof fn lemma_broker_refresh_needs_offline_access(
    granted_scope: Seq<char>,
    require_sender_constraint: bool,
    sender_constrained: bool,
)
    ensures
        spec_broker_code_decision(granted_scope, require_sender_constraint, sender_constrained)
            == (BrokerCodeDecision::Issue { return_refresh_token: true }) ==> grants_offline_access(
            granted_scope,
        ),
        require_sender_constraint && !sender_constrained ==> spec_broker_code_decision(
            granted_scope,
            require_sender_constraint,
            sender_constrained,
        ) == BrokerCodeDecision::RejectUnpinned,
{
}

/// Token type of an issued access token: `DPoP` when bound to a DPoP key.
pub fn token_type_for(dpop_bound: bool) -> (t: String)
    ensures
        t@ == (if dpop_bound {
            "DPoP"@
        } else {
            "Bearer"@
        }),
{
    if dpop_bound {
        String::from_str("DPoP")
    } else {
        String::from_str("Bearer")
    }
}

/// The requested resources, or `None` when there are none.
pub fn non_empty_resources(resources: &[String]) -> (r: Option<&[String]>)
    ensures
        resources@.len() == 0 ==> r is None,
        resources@.len() > 0 ==> r == Some(resources),
{
    if resources.len() == 0 {
        None
    } else {
        Some(resources)
    }
}

/// Resources reported in a response: omitted when empty.
pub fn response_resources(resources: Vec<String>) -> (r: Option<Vec<String>>)
    ensures
        resources@.len() == 0 ==> r is None,
        resources@.len() > 0 ==> r == Some(resources),
{
    if resources.len() == 0 {
        None
    } else {
        Some(resources)
    }
}

/// A DPoP validation failure on the token endpoint is an invalid DPoP
/// proof, not a failed client authentication.
pub fn dpop_token_error(err: AppError) -> (r: AppError)
    ensures
        match err {
            AppError::Unauthorized(m) => r == AppError::InvalidDpopProof(m),
            _ => r == err,
        },
{
    match err {
        AppError::Unauthorized(message) => AppError::InvalidDpopProof(message),
        other => other,
    }
}

/// Token response for a redeemed code of a broker client.
pub fn broker_code_token_response(
    access_token: String,
    dpop_bound: bool,
    expires_in: i64,
    return_refresh_token: bool,
    refresh_token: String,
    id_token: Option<String>,
    granted_scope: String,
    resource_uris: Vec<String>,
    binding_id: Option<String>,
    binding_updated: bool,
) -> (r: TokenResponse)
    ensures
        r.access_token == access_token,
        r.token_type@ == (if dpop_bound {
            "DPoP"@
        } else {
            "Bearer"@
        }),
        r.expires_in == expires_in,
        r.refresh_token == (if return_refresh_token {
            Some(refresh_token)
        } else {
            None
        }),
        r.id_token == id_token,
        r.scope == Some(granted_scope),
        resource_uris@.len() == 0 ==> r.resource is None,
        resource_uris@.len() > 0 ==> r.resource == Some(resource_uris),
        r.binding_id == binding_id,
        r.binding_updated == (if binding_updated {
            Some(true)
        } else {
            None
        }),
        r.issued_token_type is None,
{
    TokenResponse {
        access_token,
        token_type: token_type_for(dpop_bound),
        expires_in,
        refresh_token: if return_refresh_token {
            Some(refresh_token)
        } else {
            None
        },
        id_token,
        scope: Some(granted_scope),
        resource: response_resources(resource_uris),
        binding_id,
        binding_updated: if binding_updated {
            Some(true)
        } else {
            None
        },
        issued_token_type: None,
    }
}

/// Token response for a redeemed code of an ordinary client: the refresh
/// token is always returned.
pub fn code_token_response(
    access_token: String,
    dpop_bound: bool,
    expires_in: i64,
    refresh_token: String,
    id_token: Option<String>,
    granted_scope: String,
    resource_uris: Vec<String>,
) -> (r: TokenResponse)
    ensures
        r.access_token == access_token,
        r.token_type@ == (if dpop_bound {
            "DPoP"@
        } else {
            "Bearer"@
        }),
        r.expires_in == expires_in,
        r.refresh_token == Some(refresh_token),
        r.id_token == id_token,
        r.scope == Some(granted_scope),
        resource_uris@.len() == 0 ==> r.resource is None,
        resource_uris@.len() > 0 ==> r.resource == Some(resource_uris),
        r.binding_id is None,
        r.binding_updated is None,
        r.issued_token_type is None,
{
    TokenResponse {
        access_token,
        token_type: token_type_for(dpop_bound),
        expires_in,
        refresh_token: Some(refresh_token),
        id_token,
        scope: Some(granted_scope),
        resource: response_resources(resource_uris),
        binding_id: None,
        binding_updated: None,
        issued_token_type: None,
    }
}

/// Token response for a rotated refresh token.
pub fn refresh_token_response(
    access_token: String,
    expires_in: i64,
    refresh_token: String,
    resource_uris: Vec<String>,
) -> (r: TokenResponse)
    ensures
        r.access_token == access_token,
        r.token_type@ == "Bearer"@,
        r.expires_in == expires_in,
        r.refresh_token == Some(refresh_token),
        r.id_token is None,
        r.scope is None,
        resource_uris@.len() == 0 ==> r.resource is None,
        resource_uris@.len() > 0 ==> r.resource == Some(resource_uris),
        r.binding_id is None,
        r.binding_updated is None,
        r.issued_token_type is None,
{
    TokenResponse {
        access_token,
        token_type: String::from_str("Bearer"),
        expires_in,
        refresh_token: Some(refresh_token),
        id_token: None,
        scope: None,
        resource: response_resources(resource_uris),
        binding_id: None,
        binding_updated: None,
        issued_token_type: None,
    }
}

/// Token response of a token exchange or client-credentials grant: no
/// resources and no binding.
pub fn exchange_token_response(
    access_token: String,
    token_type: String,
    expires_in: i64,
    refresh_token: Option<String>,
    id_token: Option<String>,
    scope: String,
    issued_token_type: Option<String>,
) -> (r: TokenResponse)
    ensures
        r.access_token == access_token,
        r.token_type == token_type,
        r.expires_in == expires_in,
        r.refresh_token == refresh_token,
        r.id_token == id_token,
        r.scope == Some(scope),
        r.resource is None,
        r.binding_id is None,
        r.binding_updated is None,
        r.issued_token_type == issued_token_type,
{
    TokenResponse {
        access_token,
        token_type,
        expires_in,
        refresh_token,
        id_token,
        scope: Some(scope),
        resource: None,
        binding_id: None,
        binding_updated: None,
        issued_token_type,
    }
}

/// The words of `v` joined by `sep`.
pub open spec fn join(v: Seq<Seq<char>>, sep: Seq<char>) -> Seq<char>
    decreases v.len(),
{
    if v.len() == 0 {
        Seq::empty()
    } else if v.len() == 1 {
        v[0]
    } else {
        join(v.drop_last(), sep) + sep + v.last()
    }
}

/// Joins strings with a separator, as `[String]::join` does.
pub fn join_strings(v: &Vec<String>, sep: &str) -> (r: String)
    ensures
        r@ == join(views(v@), sep@),
{
    let mut out = String::new();
    let mut i: usize = 0;
    while i < v.len()
        invariant
            i <= v.len(),
            out@ == join(views(v@).take(i as int), sep@),
        decreases v.len() - i,
    {
        assert(views(v@).take(i + 1).drop_last() =~= views(v@).take(i as int));
        if i > 0 {
            out.append(sep);
        }
        out.append(v[i].as_str());
        proof {
            if i == 0 {
                assert(out@ =~= views(v@).take(1)[0]);
            }
        }
        i = i + 1;
    }
    assert(views(v@).take(v.len() as int) =~= views(v@));
    out
}

/// The answer for a token that is not active, or for a caller that may not ask.
pub fn inactive_introspection() -> (r: IntrospectResponse)
    ensures
        !r.active,
        r.scope is None,
        r.client_id is None,
        r.username is None,
        r.token_type is None,
        r.exp is None,
        r.iat is None,
        r.sub is None,
        r.iss is None,
        r.jti is None,
        r.roles is None,
        r.groups is None,
        r.permissions is None,
        r.resource is None,
{
    IntrospectResponse {
        active: false,
        scope: None,
        client_id: None,
        username: None,
        token_type: None,
        exp: None,
        iat: None,
        sub: None,
        iss: None,
        jti: None,
        roles: None,
        groups: None,
        permissions: None,
        resource: None,
    }
}

/// The answer for an active broker binding: its scopes, client, subject and
/// creation time.
pub fn broker_binding_introspection(
    scopes: &Vec<String>,
    client_id: String,
    created_at: i64,
    user_id: String,
) -> (r: IntrospectResponse)
    ensures
        r.active,
        r.scope matches Some(s) && s@ == join(views(scopes@), " "@),
        r.client_id == Some(client_id),
        r.username is None,
        r.token_type matches Some(t) && t@ == "broker_binding"@,
        r.exp is None,
        r.iat == Some(created_at),
        r.sub == Some(user_id),
        r.iss is None,
        r.jti is None,
        r.roles is None,
        r.groups is None,
        r.permissions is None,
        r.resource is None,
{
    IntrospectResponse {
        active: true,
        scope: Some(join_strings(scopes, " ")),
        client_id: Some(client_id),
        username: None,
        token_type: Some(String::from_str("broker_binding")),
        exp: None,
        iat: Some(created_at),
        sub: Some(user_id),
        iss: None,
        jti: None,
        roles: None,
        groups: None,
        permissions: None,
        resource: None,
    }
}

/// Claims of a verified JWT, as introspection reports them.
pub struct IntrospectedClaims {
    pub sub: String,
    pub iss: String,
    pub jti: String,
    pub scope: String,
    pub token_type: String,
    pub exp: i64,
    pub iat: i64,
    pub resources: Option<Vec<String>>,
}

/// The answer for an active JWT, with the subject's current roles, groups
/// and permissions.
pub fn token_introspection(
    claims: IntrospectedClaims,
    username: Option<String>,
    roles: Vec<String>,
    groups: Vec<String>,
    permissions: Vec<String>,
) -> (r: IntrospectResponse)
    ensures
        r.active,
        r.scope == Some(claims.scope),
        r.client_id is None,
        r.username == username,
        r.token_type == Some(claims.token_type),
        r.exp == Some(claims.exp),
        r.iat == Some(claims.iat),
        r.sub == Some(claims.sub),
        r.iss == Some(claims.iss),
        r.jti == Some(claims.jti),
        r.roles == Some(roles),
        r.groups == Some(groups),
        r.permissions == Some(permissions),
        match claims.resources {
            Some(v) => if v@.len() > 0 {
                r.resource == Some(v)
            } else {
                r.resource is None
            },
            None => r.resource is None,
        },
{
    let resource = match claims.resources {
        Some(v) => response_resources(v),
        None => None,
    };
    IntrospectResponse {
        active: true,
        scope: Some(claims.scope),
        client_id: None,
        username,
        token_type: Some(claims.token_type),
        exp: Some(claims.exp),
        iat: Some(claims.iat),
        sub: Some(claims.sub),
        iss: Some(claims.iss),
        jti: Some(claims.jti),
        roles: Some(roles),
        groups: Some(groups),
        permissions: Some(permissions),
        resource,
    }
}

/// Which RBAC claims userinfo includes: `(roles, groups)`, by the `roles`
/// and `groups` scopes of the access token.
pub fn userinfo_claims_wanted(scope: &str) -> (r: (bool, bool))
    ensures
        r.0 == words(scope@).contains("roles"@),
        r.1 == words(scope@).contains("groups"@),
{
    let scopes = split_words(scope);
    (contains_string(scopes.as_slice(), "roles"), contains_string(scopes.as_slice(), "groups"))
}

/// RBAC claims of a userinfo response: roles and permissions under the
/// `roles` scope, groups under the `groups` scope.
pub fn userinfo_rbac_claims(
    include_roles: bool,
    include_groups: bool,
    role_slugs: Vec<String>,
    group_slugs: Vec<String>,
    permissions: Vec<String>,
) -> (r: (Option<Vec<String>>, Option<Vec<String>>, Option<Vec<String>>))
    ensures
        r.0 == (if include_roles {
            Some(role_slugs)
        } else {
            None
        }),
        r.1 == (if include_groups {
            Some(group_slugs)
        } else {
            None
        }),
        r.2 == (if include_roles {
            Some(permissions)
        } else {
            None
        }),
{
    (
        if include_roles {
            Some(role_slugs)
        } else {
            None
        },
        if include_groups {
            Some(group_slugs)
        } else {
            None
        },
        if include_roles {
            Some(permissions)
        } else {
            None
        },
    )
}

/// Userinfo of a service account: its id and name, no email or picture.
pub fn service_account_userinfo(
    id: String,
    name: String,
    rbac: (Option<Vec<String>>, Option<Vec<String>>, Option<Vec<String>>),
) -> (r: UserinfoResponse)
    ensures
        r.sub == id,
        r.email is None,
        r.email_verified is None,
        r.name == Some(name),
        r.picture is None,
        r.roles == rbac.0,
        r.groups == rbac.1,
        r.permissions == rbac.2,
{
    UserinfoResponse {
        sub: id,
        email: None,
        email_verified: None,
        name: Some(name),
        picture: None,
        roles: rbac.0,
        groups: rbac.1,
        permissions: rbac.2,
    }
}

/// Userinfo of a person.
pub fn user_userinfo(
    id: String,
    email: String,
    email_verified: bool,
    display_name: Option<String>,
    avatar_url: Option<String>,
    rbac: (Option<Vec<String>>, Option<Vec<String>>, Option<Vec<String>>),
) -> (r: UserinfoResponse)
    ensures
        r.sub == id,
        r.email == Some(email),
        r.email_verified == Some(email_verified),
        r.name == display_name,
        r.picture == avatar_url,
        r.roles == rbac.0,
        r.groups == rbac.1,
        r.permissions == rbac.2,
{
    UserinfoResponse {
        sub: id,
        email: Some(email),
        email_verified: Some(email_verified),
        name: display_name,
        picture: avatar_url,
        roles: rbac.0,
        groups: rbac.1,
        permissions: rbac.2,
    }
}

/// What a lookup of a stored token (refresh or service-account) found.
pub enum StoredTokenLookup {
    Found { revoked: bool },
    NotFound,
    Failed,
}

/// Whether introspection may still report a verified token active after
/// its stored record was looked up: not when it is revoked, nor when the
/// lookup failed.
pub fn stored_token_allows_active(lookup: StoredTokenLookup) -> (r: bool)
    ensures
        r == (match lookup {
            StoredTokenLookup::Found { revoked } => !revoked,
            StoredTokenLookup::NotFound => true,
            StoredTokenLookup::Failed => false,
        }),
{
    match lookup {
        StoredTokenLookup::Found { revoked } => !revoked,
        StoredTokenLookup::NotFound => true,
        StoredTokenLookup::Failed => false,
    }
}

/// The steps of introspecting a token, in order. A broker binding is looked
/// up and answered directly; any other token is verified as a JWT, checked
/// against its stored record (refresh and service-account tokens), and
/// answered with the subject's current RBAC claims.
#[derive(Clone, Copy, Debug, PartialEq, Eq, Structural)]
pub enum IntrospectStage {
    /// Nothing done yet: the caller must name itself.
    Start,
    /// Authenticate the calling client.
    Authenticate,
    /// Tell a broker binding from a JWT.
    Route,
    /// Look up the binding among the caller's bindings.
    BindingLookup,
    /// Verify the JWT.
    Verify,
    /// Look up a stored refresh token; then the service-account record if
    /// `service_account`.
    RefreshCheck { service_account: bool },
    /// Look up the stored service-account token.
    ServiceAccountCheck,
    /// Resolve the subject's roles, groups and permissions.
    Rbac,
}

/// What a binding lookup found.
pub enum BindingLookup {
    Found { client_id: String, revoked: bool },
    NotFound,
}

/// What a step of introspection reports.
pub enum IntrospectEvent {
    /// The request arrived.
    Begin,
    /// Client authentication succeeded or failed.
    ClientAuthenticated(bool),
    /// Whether the token is a broker binding (see `is_broker_binding_token`).
    TokenKind { broker_binding: bool },
    /// The binding lookup's answer.
    Binding(BindingLookup),
    /// The JWT verified (`Some`, with what kind of token it is) or not.
    Verified(Option<(bool, bool)>),
    /// A stored-token lookup's answer.
    Stored(StoredTokenLookup),
    /// The RBAC claims resolved or not.
    RbacResolved(bool),
}

/// The next move of an introspection.
#[derive(Clone, Copy, Debug, PartialEq, Eq, Structural)]
pub enum IntrospectAction {
    Continue(IntrospectStage),
    /// Answer `{"active": false}` (`inactive_introspection`).
    Inactive,
    /// Answer the found binding (`broker_binding_introspection`).
    ActiveBinding,
    /// Answer the verified token (`token_introspection`).
    ActiveToken,
}

/// Whether an event is what a stage reports.
pub open spec fn introspect_event_fits(stage: IntrospectStage, event: IntrospectEvent) -> bool {
    match stage {
        IntrospectStage::Start => event is Begin,
        IntrospectStage::Authenticate => event is ClientAuthenticated,
        IntrospectStage::Route => event is TokenKind,
        IntrospectStage::BindingLookup => event is Binding,
        IntrospectStage::Verify => event is Verified,
        IntrospectStage::RefreshCheck { .. } | IntrospectStage::ServiceAccountCheck => event is Stored,
        IntrospectStage::Rbac => event is RbacResolved,
    }
}

/// Whether a stored-token lookup lets the token stay active.
pub open spec fn stored_allows(lookup: StoredTokenLookup) -> bool {
    match lookup {
        StoredTokenLookup::Found { revoked } => !revoked,
        StoredTokenLookup::NotFound => true,
        StoredTokenLookup::Failed => false,
    }
}

/// Where a verified JWT goes next: its stored refresh record, its stored
/// service-account record, or straight to RBAC.
pub open spec fn after_verification(refresh: bool, service_account: bool) -> IntrospectStage {
    if refresh {
        IntrospectStage::RefreshCheck { service_account }
    } else if service_account {
        IntrospectStage::ServiceAccountCheck
    } else {
        IntrospectStage::Rbac
    }
}

pub open spec fn spec_introspect_step(
    stage: IntrospectStage,
    caller_client_id: Seq<char>,
    event: IntrospectEvent,
) -> IntrospectAction {
    match event {
        IntrospectEvent::Begin => if caller_client_id.len() == 0 {
            IntrospectAction::Inactive
        } else {
            IntrospectAction::Continue(IntrospectStage::Authenticate)
        },
        IntrospectEvent::ClientAuthenticated(ok) => if ok {
            IntrospectAction::Continue(IntrospectStage::Route)
        } else {
            IntrospectAction::Inactive
        },
        IntrospectEvent::TokenKind { broker_binding } => if broker_binding {
            IntrospectAction::Continue(IntrospectStage::BindingLookup)
        } else {
            IntrospectAction::Continue(IntrospectStage::Verify)
        },
        IntrospectEvent::Binding(found) => match found {
            BindingLookup::Found { client_id, revoked } => if !revoked && client_id@
                == caller_client_id {
                IntrospectAction::ActiveBinding
            } else {
                IntrospectAction::Inactive
            },
            BindingLookup::NotFound => IntrospectAction::Inactive,
        },
        IntrospectEvent::Verified(v) => match v {
            Some((refresh, service_account)) => IntrospectAction::Continue(
                after_verification(refresh, service_account),
            ),
            None => IntrospectAction::Inactive,
        },
        IntrospectEvent::Stored(lookup) => if !stored_allows(lookup) {
            IntrospectAction::Inactive
        } else {
            match stage {
                IntrospectStage::RefreshCheck { service_account } => if service_account {
                    IntrospectAction::Continue(IntrospectStage::ServiceAccountCheck)
                } else {
                    IntrospectAction::Continue(IntrospectStage::Rbac)
                },
                _ => IntrospectAction::Continue(IntrospectStage::Rbac),
            }
        },
        IntrospectEvent::RbacResolved(ok) => if ok {
            IntrospectAction::ActiveToken
        } else {
            IntrospectAction::Inactive
        },
    }
}

/// One step of token introspection (RFC 7662): where to go next, or how to
/// answer. `caller_client_id` is the request's `client_id`, empty when it
/// has none. Unauthenticated and unauthorized callers, and tokens that are
/// missing, foreign, revoked or unverifiable, are answered inactive.
pub fn introspect_step(
    stage: IntrospectStage,
    caller_client_id: &str,
    event: IntrospectEvent,
) -> (r: IntrospectAction)
    requires
        introspect_event_fits(stage, event),
    ensures
        r == spec_introspect_step(stage, caller_client_id@, event),
{
    match event {
        IntrospectEvent::Begin => if caller_client_id.is_empty() {
            IntrospectAction::Inactive
        } else {
            IntrospectAction::Continue(IntrospectStage::Authenticate)
        },
        IntrospectEvent::ClientAuthenticated(ok) => if ok {
            IntrospectAction::Continue(IntrospectStage::Route)
        } else {
            IntrospectAction::Inactive
        },
        IntrospectEvent::TokenKind { broker_binding } => if broker_binding {
            IntrospectAction::Continue(IntrospectStage::BindingLookup)
        } else {
            IntrospectAction::Continue(IntrospectStage::Verify)
        },
        IntrospectEvent::Binding(found) => match found {
            BindingLookup::Found { client_id, revoked } => if !revoked && str_eq(
                client_id.as_str(),
                caller_client_id,
            ) {
                IntrospectAction::ActiveBinding
            } else {
                IntrospectAction::Inactive
            },
            BindingLookup::NotFound => IntrospectAction::Inactive,
        },
        IntrospectEvent::Verified(v) => match v {
            Some((refresh, service_account)) => if refresh {
                IntrospectAction::Continue(IntrospectStage::RefreshCheck { service_account })
            } else if service_account {
                IntrospectAction::Continue(IntrospectStage::ServiceAccountCheck)
            } else {
                IntrospectAction::Continue(IntrospectStage::Rbac)
            },
            None => IntrospectAction::Inactive,
        },
        IntrospectEvent::Stored(lookup) => if !stored_token_allows_active(lookup) {
            IntrospectAction::Inactive
        } else {
            match stage {
                IntrospectStage::RefreshCheck { service_account } => if service_account {
                    IntrospectAction::Continue(IntrospectStage::ServiceAccountCheck)
                } else {
                    IntrospectAction::Continue(IntrospectStage::Rbac)
                },
                _ => IntrospectAction::Continue(IntrospectStage::Rbac),
            }
        },
        IntrospectEvent::RbacResolved(ok) => if ok {
            IntrospectAction::ActiveToken
        } else {
            IntrospectAction::Inactive
        },
    }
}

/// Whether an event reports a binding that exists, is not revoked and
/// belongs to `caller_client_id`.
pub open spec fn reports_live_binding_of(event: IntrospectEvent, caller_client_id: Seq<char>) -> bool {
    match event {
        IntrospectEvent::Binding(BindingLookup::Found { client_id, revoked }) => !revoked
            && client_id@ == caller_client_id,
        _ => false,
    }
}

/// Introspection answers `{"active": false}` to a caller without a client
/// id or that fails authentication, for a binding that is missing, revoked
/// or another client's, for a token that does not verify, and for a stored
/// token that is revoked or whose lookup fails. It answers a binding only
/// when it is the caller's and not revoked, and a token only once its RBAC
/// claims resolved; authentication is attempted only for a named caller,
/// and routing only after authentication succeeded.
pub proof fn lemma_introspect_inactive_unless_authorized(
    stage: IntrospectStage,
    caller_client_id: Seq<char>,
    event: IntrospectEvent,
)
    requires
        introspect_event_fits(stage, event),
    ensures
        ({
            let r = spec_introspect_step(stage, caller_client_id, event);
            &&& (stage == IntrospectStage::Start && caller_client_id.len() == 0) ==> r
                == IntrospectAction::Inactive
            &&& event == IntrospectEvent::ClientAuthenticated(false) ==> r
                == IntrospectAction::Inactive
            &&& (event is Binding && !reports_live_binding_of(event, caller_client_id)) ==> r
                == IntrospectAction::Inactive
            &&& (event matches IntrospectEvent::Verified(v) && v is None) ==> r
                == IntrospectAction::Inactive
            &&& (event matches IntrospectEvent::Stored(l) && !stored_allows(l)) ==> r
                == IntrospectAction::Inactive
            &&& r == IntrospectAction::ActiveBinding ==> (stage == IntrospectStage::BindingLookup
                && reports_live_binding_of(event, caller_client_id))
            &&& r == IntrospectAction::ActiveToken ==> (stage == IntrospectStage::Rbac
                && event == IntrospectEvent::RbacResolved(true))
            &&& r == IntrospectAction::Continue(IntrospectStage::Authenticate) ==> (stage
                == IntrospectStage::Start && caller_client_id.len() > 0)
            &&& r == IntrospectAction::Continue(IntrospectStage::Route) ==> stage
                == IntrospectStage::Authenticate && event == IntrospectEvent::ClientAuthenticated(
                true,
            )
        }),
{
}

/// Whether an introspection step's report is a failure: no caller, a
/// failed authentication, a binding that is missing, revoked or another
/// client's, a token that does not verify, a revoked or unreadable stored
/// record, unresolved RBAC. Telling a binding from a JWT is never one.
pub open spec fn introspect_event_failed(caller_client_id: Seq<char>, event: IntrospectEvent) -> bool {
    match event {
        IntrospectEvent::Begin => caller_client_id.len() == 0,
        IntrospectEvent::ClientAuthenticated(ok) => !ok,
        IntrospectEvent::TokenKind { .. } => false,
        IntrospectEvent::Binding(_) => !reports_live_binding_of(event, caller_client_id),
        IntrospectEvent::Verified(v) => v is None,
        IntrospectEvent::Stored(l) => !stored_allows(l),
        IntrospectEvent::RbacResolved(ok) => !ok,
    }
}

/// Introspection answers inactive exactly on a failed report: any other
/// report, such as a token that is not a binding or a JWT that verifies,
/// goes on (or answers active).
pub proof fn lemma_introspect_inactive_exactly_on_failure(
    stage: IntrospectStage,
    caller_client_id: Seq<char>,
    event: IntrospectEvent,
)
    requires
        introspect_event_fits(stage, event),
    ensures
        (spec_introspect_step(stage, caller_client_id, event) == IntrospectAction::Inactive)
            <==> introspect_event_failed(caller_client_id, event),
        !introspect_event_failed(caller_client_id, event) && !(stage is BindingLookup) && !(stage
            is Rbac) ==> spec_introspect_step(stage, caller_client_id, event) is Continue,
{
}

/// An introspection run from `stage` on the reported events (while each is
/// what its stage reports): the action of the first step that does not
/// continue, or where it stands when the events run out.
pub open spec fn introspect_run(stage: IntrospectStage, caller_client_id: Seq<char>, events: Seq<IntrospectEvent>) -> IntrospectAction
    decreases events.len(),
{
    if events.len() == 0 || !introspect_event_fits(stage, events[0]) {
        IntrospectAction::Continue(stage)
    } else {
        match spec_introspect_step(stage, caller_client_id, events[0]) {
            IntrospectAction::Continue(next) => introspect_run(
                next,
                caller_client_id,
                events.drop_first(),
            ),
            a => a,
        }
    }
}

/// A named, authenticated caller's JWT that verifies, whose stored records
/// (if any) are live and whose subject's RBAC resolves is answered active;
/// the caller's own live binding is answered as a binding.
pub proof fn lemma_introspect_verified_token_is_active(
    caller_client_id: Seq<char>,
    refresh: bool,
    service_account: bool,
    refresh_record: StoredTokenLookup,
    service_account_record: StoredTokenLookup,
    binding_client_id: String,
)
    requires
        caller_client_id.len() > 0,
        stored_allows(refresh_record),
        stored_allows(service_account_record),
    ensures
        ({
            let head = seq![
                IntrospectEvent::Begin,
                IntrospectEvent::ClientAuthenticated(true),
                IntrospectEvent::TokenKind { broker_binding: false },
                IntrospectEvent::Verified(Some((refresh, service_account))),
            ];
            let stored = if refresh {
                if service_account {
                    seq![
                        IntrospectEvent::Stored(refresh_record),
                        IntrospectEvent::Stored(service_account_record),
                    ]
                } else {
                    seq![IntrospectEvent::Stored(refresh_record)]
                }
            } else if service_account {
                seq![IntrospectEvent::Stored(service_account_record)]
            } else {
                Seq::empty()
            };
            introspect_run(
                IntrospectStage::Start,
                caller_client_id,
                head + stored + seq![IntrospectEvent::RbacResolved(true)],
            ) == IntrospectAction::ActiveToken
        }),
        binding_client_id@ == caller_client_id ==> introspect_run(
            IntrospectStage::Start,
            caller_client_id,
            seq![
                IntrospectEvent::Begin,
                IntrospectEvent::ClientAuthenticated(true),
                IntrospectEvent::TokenKind { broker_binding: true },
                IntrospectEvent::Binding(
                    BindingLookup::Found { client_id: binding_client_id, revoked: false },
                ),
            ],
        ) == IntrospectAction::ActiveBinding,
{
    let head = seq![
        IntrospectEvent::Begin,
        IntrospectEvent::ClientAuthenticated(true),
        IntrospectEvent::TokenKind { broker_binding: false },
        IntrospectEvent::Verified(Some((refresh, service_account))),
    ];
    let stored = if refresh {
        if service_account {
            seq![
                IntrospectEvent::Stored(refresh_record),
                IntrospectEvent::Stored(service_account_record),
            ]
        } else {
            seq![IntrospectEvent::Stored(refresh_record)]
        }
    } else if service_account {
        seq![IntrospectEvent::Stored(service_account_record)]
    } else {
        Seq::empty()
    };
    let c = caller_client_id;
    let last = seq![IntrospectEvent::RbacResolved(true)];
    let ev = head + stored + last;
    let tail = stored + last;
    let e1 = ev.drop_first();
    let e2 = e1.drop_first();
    let e3 = e2.drop_first();
    let e4 = e3.drop_first();
    assert(e1 =~= seq![head[1], head[2], head[3]] + tail);
    assert(e2 =~= seq![head[2], head[3]] + tail);
    assert(e3 =~= seq![head[3]] + tail);
    assert(e4 =~= tail);
    assert(ev[0] == head[0]);
    assert(e1[0] == head[1]);
    assert(e2[0] == head[2]);
    assert(e3[0] == head[3]);
    assert(introspect_run(IntrospectStage::Rbac, c, last) == IntrospectAction::ActiveToken);
    if refresh && service_account {
        let t1 = tail.drop_first();
        assert(t1 =~= seq![stored[1]] + last);
        assert(t1.drop_first() =~= last);
        assert(introspect_run(IntrospectStage::ServiceAccountCheck, c, t1)
            == introspect_run(IntrospectStage::Rbac, c, last));
        assert(introspect_run(IntrospectStage::RefreshCheck { service_account: true }, c, tail)
            == introspect_run(IntrospectStage::ServiceAccountCheck, c, t1));
    } else if refresh {
        assert(tail.drop_first() =~= last);
        assert(introspect_run(IntrospectStage::RefreshCheck { service_account: false }, c, tail)
            == introspect_run(IntrospectStage::Rbac, c, last));
    } else if service_account {
        assert(tail.drop_first() =~= last);
        assert(introspect_run(IntrospectStage::ServiceAccountCheck, c, tail)
            == introspect_run(IntrospectStage::Rbac, c, last));
    } else {
        assert(tail =~= last);
    }
    assert(introspect_run(IntrospectStage::Verify, c, e3) == introspect_run(
        after_verification(refresh, service_account),
        c,
        e4,
    ));
    assert(introspect_run(IntrospectStage::Route, c, e2) == introspect_run(IntrospectStage::Verify, c, e3));
    assert(introspect_run(IntrospectStage::Authenticate, c, e1) == introspect_run(
        IntrospectStage::Route,
        c,
        e2,
    ));
    assert(introspect_run(IntrospectStage::Start, c, ev) == introspect_run(
        IntrospectStage::Authenticate,
        c,
        e1,
    ));
    let bnd = seq![
        IntrospectEvent::Begin,
        IntrospectEvent::ClientAuthenticated(true),
        IntrospectEvent::TokenKind { broker_binding: true },
        IntrospectEvent::Binding(
            BindingLookup::Found { client_id: binding_client_id, revoked: false },
        ),
    ];
    let b1 = bnd.drop_first();
    let b2 = b1.drop_first();
    let b3 = b2.drop_first();
    assert(b1 =~= seq![bnd[1], bnd[2], bnd[3]]);
    assert(b2 =~= seq![bnd[2], bnd[3]]);
    assert(b3 =~= seq![bnd[3]]);
    if binding_client_id@ == c {
        assert(introspect_run(IntrospectStage::BindingLookup, c, b3) == IntrospectAction::ActiveBinding);
        assert(introspect_run(IntrospectStage::Route, c, b2) == introspect_run(
            IntrospectStage::BindingLookup,
            c,
            b3,
        ));
        assert(introspect_run(IntrospectStage::Authenticate, c, b1) == introspect_run(
            IntrospectStage::Route,
            c,
            b2,
        ));
        assert(introspect_run(IntrospectStage::Start, c, bnd) == introspect_run(
            IntrospectStage::Authenticate,
            c,
            b1,
        ));
    }
}

/// What revoking a verified JWT does.
#[derive(Clone, Copy, Debug, PartialEq, Eq, Structural)]
pub enum RevocationAction {
    /// Mark the stored refresh token revoked.
    RevokeRefreshToken,
    /// Mark the stored service-account token revoked.
    RevokeServiceAccountToken,
    /// Access tokens are short-lived and stateless: nothing to revoke.
    Nothing,
}

/// Refresh tokens and service-account tokens are revoked in storage; other
/// tokens are left to expire.
pub fn revocation_action(token_type: &str, service_account: Option<bool>) -> (r: RevocationAction)
    ensures
        token_type@ == "refresh"@ ==> r == RevocationAction::RevokeRefreshToken,
        token_type@ != "refresh"@ && service_account == Some(true) ==> r
            == RevocationAction::RevokeServiceAccountToken,
        token_type@ != "refresh"@ && service_account != Some(true) ==> r == RevocationAction::Nothing,
{
    if str_eq(token_type, "refresh") {
        RevocationAction::RevokeRefreshToken
    } else if service_account == Some(true) {
        RevocationAction::RevokeServiceAccountToken
    } else {
        RevocationAction::Nothing
    }
}

/// The steps of revoking a token (RFC 7009), in order.
#[derive(Clone, Copy, Debug, PartialEq, Eq, Structural)]
pub enum RevokeStage {
    /// Nothing done yet: the caller must name itself.
    Start,
    /// Authenticate the calling client.
    Authenticate,
    /// Tell a broker binding from a JWT.
    Route,
    /// Verify the JWT.
    Verify,
}

/// What a step of revocation reports.
pub enum RevokeEvent {
    /// The request arrived.
    Begin,
    /// Client authentication succeeded or failed.
    ClientAuthenticated(bool),
    /// Whether the token is a broker binding (see `is_broker_binding_token`).
    TokenKind { broker_binding: bool },
    /// The JWT verified (`Some`, with whether it is a refresh token and
    /// whether it is a service-account token) or not.
    Verified(Option<(bool, bool)>),
}

/// The next move of a revocation. Every answer is `200 OK`.
#[derive(Clone, Copy, Debug, PartialEq, Eq, Structural)]
pub enum RevokeOutcome {
    Continue(RevokeStage),
    /// Answer without changing anything.
    Done,
    /// Revoke the caller's binding named by the token (if it has one), then answer.
    RevokeBinding,
    /// Apply the stored-token revocation, then answer.
    RevokeStored(RevocationAction),
}

/// The stored-token revocation for a verified JWT (as `revocation_action`).
pub open spec fn stored_revocation(refresh: bool, service_account: bool) -> RevocationAction {
    if refresh {
        RevocationAction::RevokeRefreshToken
    } else if service_account {
        RevocationAction::RevokeServiceAccountToken
    } else {
        RevocationAction::Nothing
    }
}

pub open spec fn spec_revoke_step(stage: RevokeStage, caller_client_id: Seq<char>, event: RevokeEvent) -> RevokeOutcome {
    match (stage, event) {
        (RevokeStage::Start, RevokeEvent::Begin) => if caller_client_id.len() == 0 {
            RevokeOutcome::Done
        } else {
            RevokeOutcome::Continue(RevokeStage::Authenticate)
        },
        (RevokeStage::Authenticate, RevokeEvent::ClientAuthenticated(ok)) => if ok {
            RevokeOutcome::Continue(RevokeStage::Route)
        } else {
            RevokeOutcome::Done
        },
        (RevokeStage::Route, RevokeEvent::TokenKind { broker_binding }) => if broker_binding {
            RevokeOutcome::RevokeBinding
        } else {
            RevokeOutcome::Continue(RevokeStage::Verify)
        },
        (RevokeStage::Verify, RevokeEvent::Verified(v)) => match v {
            Some((refresh, service_account)) => RevokeOutcome::RevokeStored(
                stored_revocation(refresh, service_account),
            ),
            None => RevokeOutcome::Done,
        },
        _ => RevokeOutcome::Done,
    }
}

/// One step of token revocation: where to go next, or what to revoke
/// before answering. `caller_client_id` is the client the request's
/// credentials name (`revocation_caller`), empty when they name none. An
/// event that is not what the stage reports changes nothing.
pub fn revoke_step(stage: RevokeStage, caller_client_id: &str, event: RevokeEvent) -> (r: RevokeOutcome)
    ensures
        r == spec_revoke_step(stage, caller_client_id@, event),
{
    match (stage, event) {
        (RevokeStage::Start, RevokeEvent::Begin) => if caller_client_id.is_empty() {
            RevokeOutcome::Done
        } else {
            RevokeOutcome::Continue(RevokeStage::Authenticate)
        },
        (RevokeStage::Authenticate, RevokeEvent::ClientAuthenticated(ok)) => if ok {
            RevokeOutcome::Continue(RevokeStage::Route)
        } else {
            RevokeOutcome::Done
        },
        (RevokeStage::Route, RevokeEvent::TokenKind { broker_binding }) => if broker_binding {
            RevokeOutcome::RevokeBinding
        } else {
            RevokeOutcome::Continue(RevokeStage::Verify)
        },
        (RevokeStage::Verify, RevokeEvent::Verified(v)) => match v {
            Some((refresh, service_account)) => RevokeOutcome::RevokeStored(
                if refresh {
                    RevocationAction::RevokeRefreshToken
                } else if service_account {
                    RevocationAction::RevokeServiceAccountToken
                } else {
                    RevocationAction::Nothing
                },
            ),
            None => RevokeOutcome::Done,
        },
        _ => RevokeOutcome::Done,
    }
}

/// The HTTP status a revocation answers with once it stops: always 200.
pub open spec fn spec_revoke_status(o: RevokeOutcome) -> Option<u16> {
    match o {
        RevokeOutcome::Continue(_) => None,
        _ => Some(200),
    }
}

/// The status to answer after a step (`None` while the revocation goes on).
pub fn revoke_status(o: RevokeOutcome) -> (r: Option<u16>)
    ensures
        r == spec_revoke_status(o),
{
    match o {
        RevokeOutcome::Continue(_) => None,
        _ => Some(200),
    }
}

/// Whether an outcome changes stored state.
pub open spec fn changes_storage(o: RevokeOutcome) -> bool {
    match o {
        RevokeOutcome::RevokeBinding => true,
        RevokeOutcome::RevokeStored(a) => a != RevocationAction::Nothing,
        _ => false,
    }
}

/// A revocation run from `stage` on the reported events: the outcome of the
/// first step that does not continue, or where it stands when they run out.
pub open spec fn revoke_run(stage: RevokeStage, caller_client_id: Seq<char>, events: Seq<RevokeEvent>) -> RevokeOutcome
    decreases events.len(),
{
    if events.len() == 0 {
        RevokeOutcome::Continue(stage)
    } else {
        match spec_revoke_step(stage, caller_client_id, events[0]) {
            RevokeOutcome::Continue(next) => revoke_run(next, caller_client_id, events.drop_first()),
            o => o,
        }
    }
}

proof fn lemma_revoke_run_from(stage: RevokeStage, caller_client_id: Seq<char>, events: Seq<RevokeEvent>)
    ensures
        changes_storage(revoke_run(stage, caller_client_id, events)) ==> (stage
            == RevokeStage::Route || stage == RevokeStage::Verify || (stage
            == RevokeStage::Authenticate && events.contains(RevokeEvent::ClientAuthenticated(true)))
            || (stage == RevokeStage::Start && caller_client_id.len() > 0 && events.contains(
            RevokeEvent::ClientAuthenticated(true),
        ))),
    decreases events.len(),
{
    if events.len() > 0 {
        let rest = events.drop_first();
        match spec_revoke_step(stage, caller_client_id, events[0]) {
            RevokeOutcome::Continue(next) => {
                lemma_revoke_run_from(next, caller_client_id, rest);
                if changes_storage(revoke_run(stage, caller_client_id, events)) {
                    if stage == RevokeStage::Authenticate {
                        assert(events[0] == RevokeEvent::ClientAuthenticated(true));
                        assert(events.contains(RevokeEvent::ClientAuthenticated(true)));
                    } else if stage == RevokeStage::Start {
                        assert(next == RevokeStage::Authenticate);
                        assert(rest.contains(RevokeEvent::ClientAuthenticated(true)));
                        let i = choose|i: int| 0 <= i < rest.len() && rest[i]
                            == RevokeEvent::ClientAuthenticated(true);
                        assert(events[i + 1] == rest[i]);
                    }
                }
            },
            _ => {},
        }
    }
}

/// Whether an event is what a revocation stage reports.
pub open spec fn revoke_event_fits(stage: RevokeStage, event: RevokeEvent) -> bool {
    match stage {
        RevokeStage::Start => event is Begin,
        RevokeStage::Authenticate => event is ClientAuthenticated,
        RevokeStage::Route => event is TokenKind,
        RevokeStage::Verify => event is Verified,
    }
}

/// Whether a revocation step's report is a failure: no caller, a failed
/// authentication, a token that does not verify. Telling a binding from a
/// JWT is never one.
pub open spec fn revoke_event_failed(caller_client_id: Seq<char>, event: RevokeEvent) -> bool {
    match event {
        RevokeEvent::Begin => caller_client_id.len() == 0,
        RevokeEvent::ClientAuthenticated(ok) => !ok,
        RevokeEvent::TokenKind { .. } => false,
        RevokeEvent::Verified(v) => v is None,
    }
}

/// A revocation ends without revoking anything exactly on a failed report;
/// a token that is not a binding goes on to verification, and a verified
/// refresh or service-account token is revoked in storage.
pub proof fn lemma_revoke_done_exactly_on_failure(
    stage: RevokeStage,
    caller_client_id: Seq<char>,
    event: RevokeEvent,
)
    requires
        revoke_event_fits(stage, event),
    ensures
        (spec_revoke_step(stage, caller_client_id, event) == RevokeOutcome::Done) <==> revoke_event_failed(
            caller_client_id,
            event,
        ),
        event == (RevokeEvent::TokenKind { broker_binding: false }) ==> spec_revoke_step(
            stage,
            caller_client_id,
            event,
        ) == RevokeOutcome::Continue(RevokeStage::Verify),
        (event matches RevokeEvent::Verified(Some((refresh, sa))) && (refresh || sa))
            ==> changes_storage(spec_revoke_step(stage, caller_client_id, event)),
{
}

/// An authenticated client's request revokes what it names: its own
/// binding; a verified refresh token in the refresh-token store; a verified
/// service-account token in that store; a verified access token is left to
/// expire.
pub proof fn lemma_revoke_authenticated_request_revokes(
    caller_client_id: Seq<char>,
    refresh: bool,
    service_account: bool,
)
    requires
        caller_client_id.len() > 0,
    ensures
        ({
            let o = revoke_run(
                RevokeStage::Start,
                caller_client_id,
                seq![
                    RevokeEvent::Begin,
                    RevokeEvent::ClientAuthenticated(true),
                    RevokeEvent::TokenKind { broker_binding: false },
                    RevokeEvent::Verified(Some((refresh, service_account))),
                ],
            );
            &&& refresh ==> o == RevokeOutcome::RevokeStored(RevocationAction::RevokeRefreshToken)
            &&& (!refresh && service_account) ==> o == RevokeOutcome::RevokeStored(
                RevocationAction::RevokeServiceAccountToken,
            )
            &&& (!refresh && !service_account) ==> o == RevokeOutcome::RevokeStored(
                RevocationAction::Nothing,
            )
        }),
        revoke_run(
            RevokeStage::Start,
            caller_client_id,
            seq![
                RevokeEvent::Begin,
                RevokeEvent::ClientAuthenticated(true),
                RevokeEvent::TokenKind { broker_binding: true },
            ],
        ) == RevokeOutcome::RevokeBinding,
{
    let ev = seq![
        RevokeEvent::Begin,
        RevokeEvent::ClientAuthenticated(true),
        RevokeEvent::TokenKind { broker_binding: false },
        RevokeEvent::Verified(Some((refresh, service_account))),
    ];
    let c = caller_client_id;
    let e1 = ev.drop_first();
    let e2 = e1.drop_first();
    let e3 = e2.drop_first();
    assert(e1 =~= seq![ev[1], ev[2], ev[3]]);
    assert(e2 =~= seq![ev[2], ev[3]]);
    assert(e3 =~= seq![ev[3]]);
    assert(revoke_run(RevokeStage::Verify, c, e3) == spec_revoke_step(RevokeStage::Verify, c, ev[3]));
    assert(revoke_run(RevokeStage::Route, c, e2) == revoke_run(RevokeStage::Verify, c, e3));
    assert(revoke_run(RevokeStage::Authenticate, c, e1) == revoke_run(RevokeStage::Route, c, e2));
    assert(revoke_run(RevokeStage::Start, c, ev) == revoke_run(RevokeStage::Authenticate, c, e1));
    let b = seq![
        RevokeEvent::Begin,
        RevokeEvent::ClientAuthenticated(true),
        RevokeEvent::TokenKind { broker_binding: true },
    ];
    let b1 = b.drop_first();
    let b2 = b1.drop_first();
    assert(b1 =~= seq![b[1], b[2]]);
    assert(b2 =~= seq![b[2]]);
    assert(revoke_run(RevokeStage::Route, c, b2) == RevokeOutcome::RevokeBinding);
    assert(revoke_run(RevokeStage::Authenticate, c, b1) == revoke_run(RevokeStage::Route, c, b2));
    assert(revoke_run(RevokeStage::Start, c, b) == revoke_run(RevokeStage::Authenticate, c, b1));
}

/// Revocation always answers `200 OK`, whatever the credentials and the
/// token; and nothing stored changes unless the request named a client and
/// that client authenticated.
pub proof fn lemma_revoke_always_ok_and_authenticated(
    caller_client_id: Seq<char>,
    events: Seq<RevokeEvent>,
)
    ensures
        !(revoke_run(RevokeStage::Start, caller_client_id, events) is Continue) ==> spec_revoke_status(
            revoke_run(RevokeStage::Start, caller_client_id, events),
        ) == Some(200u16),
        changes_storage(revoke_run(RevokeStage::Start, caller_client_id, events)) ==> (
        caller_client_id.len() > 0 && events.contains(RevokeEvent::ClientAuthenticated(true))),
{
    lemma_revoke_run_from(RevokeStage::Start, caller_client_id, events);
}

/// The header carrying an mTLS client certificate to read: only when no
/// DPoP proof binds the token, and only a configured, non-blank header name.
pub fn mtls_header_to_read(dpop_proven: bool, configured_header: Option<&str>) -> (r: Option<String>)
    ensures
        dpop_proven ==> r is None,
        !dpop_proven ==> match configured_header {
            Some(h) => if trim(h@).len() > 0 {
                r matches Some(n) && n@ == h@
            } else {
                r is None
            },
            None => r is None,
        },
{
    if dpop_proven {
        return None;
    }
    match configured_header {
        Some(h) => {
            let t = trim_str(h);
            if t.as_str().is_empty() {
                None
            } else {
                Some(String::from_str(h))
            }
        },
        None => None,
    }
}

/// The certificate an mTLS header carries: none for an absent or blank
/// header; a header that is not visible ASCII is refused.
pub fn mtls_certificate(value: Option<&[u8]>) -> (r: Result<Option<String>, AppError>)
    ensures
        match value {
            None => r == Ok::<Option<String>, AppError>(None),
            Some(b) => match crate::client_auth::header_chars(b@) {
                None => r matches Err(e) && crate::errors::is_unauthorized(
                    e,
                    "invalid mTLS client certificate header"@,
                ),
                Some(t) => if trim(t).len() == 0 {
                    r == Ok::<Option<String>, AppError>(None)
                } else {
                    r matches Ok(Some(c)) && c@ == t
                },
            },
        },
{
    let bytes = match value {
        None => return Ok(None),
        Some(b) => b,
    };
    let text = match crate::client_auth::header_text(bytes) {
        Some(t) => t,
        None => return Err(
            AppError::Unauthorized(String::from_str("invalid mTLS client certificate header")),
        ),
    };
    if trim_str(text.as_str()).as_str().is_empty() {
        Ok(None)
    } else {
        Ok(Some(text))
    }
}

/// OpenID Connect discovery metadata of this provider.
pub struct OpenIdConfiguration {
    pub issuer: String,
    pub authorization_endpoint: String,
    pub token_endpoint: String,
    pub userinfo_endpoint: String,
    pub jwks_uri: String,
    pub response_types_supported: Vec<String>,
    pub grant_types_supported: Vec<String>,
    pub subject_types_supported: Vec<String>,
    pub id_token_signing_alg_values_supported: Vec<String>,
    pub scopes_supported: Vec<String>,
    pub claims_supported: Vec<String>,
    pub code_challenge_methods_supported: Vec<String>,
    pub token_endpoint_auth_methods_supported: Vec<String>,
}

fn string_list(items: &[&str]) -> (r: Vec<String>)
    ensures
        r@.len() == items@.len(),
        forall|i: int| 0 <= i < items@.len() ==> (#[trigger] r@[i])@ == items@[i]@,
{
    let mut out: Vec<String> = Vec::new();
    let mut i: usize = 0;
    while i < items.len()
        invariant
            i <= items@.len(),
            out@.len() == i,
            forall|k: int| 0 <= k < i ==> (#[trigger] out@[k])@ == items@[k]@,
        decreases items.len() - i,
    {
        out.push(String::from_str(items[i]));
        i = i + 1;
    }
    out
}

fn endpoint(base: &str, path: &str) -> (r: String)
    ensures
        r@ == base@ + path@,
{
    let mut s = String::from_str(base);
    s.append(path);
    s
}

/// The discovery document: endpoints under `base_url`, the code flow with
/// PKCE `S256`, RS256 ID tokens, and the supported scopes and claims.
pub fn openid_configuration_document(base_url: &str, issuer: &str) -> (r: OpenIdConfiguration)
    ensures
        r.issuer@ == issuer@,
        r.authorization_endpoint@ == base_url@ + "/oauth/authorize"@,
        r.token_endpoint@ == base_url@ + "/oauth/token"@,
        r.userinfo_endpoint@ == base_url@ + "/oauth/userinfo"@,
        r.jwks_uri@ == base_url@ + "/.well-known/jwks.json"@,
        views(r.response_types_supported@) == seq!["code"@],
        views(r.grant_types_supported@) == seq!["authorization_code"@, "refresh_token"@],
        views(r.subject_types_supported@) == seq!["public"@],
        views(r.id_token_signing_alg_values_supported@) == seq!["RS256"@],
        views(r.scopes_supported@) == seq!["openid"@, "profile"@, "email"@],
        views(r.claims_supported@) == seq![
            "sub"@,
            "iss"@,
            "aud"@,
            "exp"@,
            "iat"@,
            "email"@,
            "email_verified"@,
            "name"@,
            "picture"@,
            "nonce"@,
        ],
        views(r.code_challenge_methods_supported@) == seq!["S256"@],
        views(r.token_endpoint_auth_methods_supported@) == seq!["client_secret_post"@, "none"@],
{
    let response_types = string_list(&["code"]);
    let grant_types = string_list(&["authorization_code", "refresh_token"]);
    let subject_types = string_list(&["public"]);
    let algs = string_list(&["RS256"]);
    let scopes = string_list(&["openid", "profile", "email"]);
    let claims = string_list(
        &["sub", "iss", "aud", "exp", "iat", "email", "email_verified", "name", "picture", "nonce"],
    );
    let methods = string_list(&["S256"]);
    let auth_methods = string_list(&["client_secret_post", "none"]);
    assert(views(response_types@) =~= seq!["code"@]);
    assert(views(grant_types@) =~= seq!["authorization_code"@, "refresh_token"@]);
    assert(views(subject_types@) =~= seq!["public"@]);
    assert(views(algs@) =~= seq!["RS256"@]);
    assert(views(scopes@) =~= seq!["openid"@, "profile"@, "email"@]);
    assert(views(claims@) =~= seq![
        "sub"@,
        "iss"@,
        "aud"@,
        "exp"@,
        "iat"@,
        "email"@,
        "email_verified"@,
        "name"@,
        "picture"@,
        "nonce"@,
    ]);
    assert(views(methods@) =~= seq!["S256"@]);
    assert(views(auth_methods@) =~= seq!["client_secret_post"@, "none"@]);
    OpenIdConfiguration {
        issuer: String::from_str(issuer),
        authorization_endpoint: endpoint(base_url, "/oauth/authorize"),
        token_endpoint: endpoint(base_url, "/oauth/token"),
        userinfo_endpoint: endpoint(base_url, "/oauth/userinfo"),
        jwks_uri: endpoint(base_url, "/.well-known/jwks.json"),
        response_types_supported: response_types,
        grant_types_supported: grant_types,
        subject_types_supported: subject_types,
        id_token_signing_alg_values_supported: algs,
        scopes_supported: scopes,
        claims_supported: claims,
        code_challenge_methods_supported: methods,
        token_endpoint_auth_methods_supported: auth_methods,
    }
}

/// Name given to a dynamically registered client that names none.
pub const DYNAMIC_CLIENT_NAME: &'static str = "Dynamic MCP Client";

/// The name a dynamic registration gets.
pub fn registration_client_name(client_name: Option<String>) -> (r: String)
    ensures
        match client_name {
            Some(n) => r == n,
            None => r@ == DYNAMIC_CLIENT_NAME@,
        },
{
    match client_name {
        Some(n) => n,
        None => String::from_str(DYNAMIC_CLIENT_NAME),
    }
}

/// Dynamic registration creates public clients only:
/// `token_endpoint_auth_method` must be `none` (the default).
pub fn check_registration_auth_method(method: Option<&str>) -> (r: Result<(), AppError>)
    ensures
        match method {
            Some(m) => if m@ == "none"@ {
                r is Ok
            } else {
                r matches Err(e) && is_bad_request(
                    e,
                    "Only token_endpoint_auth_method=none (public clients) is supported for dynamic registration"@,
                )
            },
            None => r is Ok,
        },
{
    match method {
        Some(m) => {
            if str_eq(m, "none") {
                Ok(())
            } else {
                Err(
                    bad_request(
                        "Only token_endpoint_auth_method=none (public clients) is supported for dynamic registration",
                    ),
                )
            }
        },
        None => Ok(()),
    }
}

/// The scope a registration asks for, trimmed; `None` when absent or blank
/// (the default MCP scopes then apply).
pub fn requested_registration_scope(scope: Option<&str>) -> (r: Option<String>)
    ensures
        match scope {
            Some(s) => if trim(s@).len() > 0 {
                r matches Some(t) && t@ == trim(s@)
            } else {
                r is None
            },
            None => r is None,
        },
{
    match scope {
        Some(s) => {
            let t = trim_str(s);
            if t.as_str().is_empty() {
                None
            } else {
                Some(t)
            }
        },
        None => None,
    }
}

/// When broker capability is reserved to platform admins, a registration
/// may not ask for the broker binding scope.
pub fn check_broker_scope_allowed(
    allowed_scopes: &str,
    broker_require_admin_capability: bool,
    broker_binding_scope: &str,
) -> (r: Result<(), AppError>)
    ensures
        (broker_require_admin_capability && words(allowed_scopes@).contains(broker_binding_scope@))
            ==> (r matches Err(e) && is_forbidden(
            e,
            "Broker capability must be provisioned by a platform admin"@,
        )),
        !(broker_require_admin_capability && words(allowed_scopes@).contains(
            broker_binding_scope@,
        )) ==> r is Ok,
{
    if broker_require_admin_capability {
        let scopes = split_words(allowed_scopes);
        if contains_string(scopes.as_slice(), broker_binding_scope) {
            return Err(
                AppError::Forbidden(
                    String::from_str("Broker capability must be provisioned by a platform admin"),
                ),
            );
        }
    }
    Ok(())
}

/// The registration response of a new public client: code and refresh
/// grants, `code` responses, no client authentication.
pub fn register_client_response(
    client_id: String,
    client_name: String,
    redirect_uris: Vec<String>,
    allowed_scopes: String,
    issued_at: i64,
) -> (r: RegisterClientResponse)
    ensures
        r.client_id == client_id,
        r.client_name == client_name,
        r.redirect_uris == redirect_uris,
        views(r.grant_types@) == seq!["authorization_code"@, "refresh_token"@],
        views(r.response_types@) == seq!["code"@],
        r.token_endpoint_auth_method@ == "none"@,
        r.scope == allowed_scopes,
        r.client_id_issued_at == issued_at,
{
    let mut grant_types: Vec<String> = Vec::new();
    grant_types.push(String::from_str("authorization_code"));
    grant_types.push(String::from_str("refresh_token"));
    let mut response_types: Vec<String> = Vec::new();
    response_types.push(String::from_str("code"));
    assert(views(grant_types@) =~= seq!["authorization_code"@, "refresh_token"@]);
    assert(views(response_types@) =~= seq!["code"@]);
    RegisterClientResponse {
        client_id,
        client_name,
        redirect_uris,
        grant_types,
        response_types,
        token_endpoint_auth_method: String::from_str("none"),
        scope: allowed_scopes,
        client_id_issued_at: issued_at,
    }
}

/// Listing bindings by external subject needs the subject's platform and user id.
pub fn require_external_subject(subject: Option<ExternalSubjectRef>) -> (r: Result<ExternalSubjectRef, AppError>)
    ensures
        match subject {
            Some(s) => r == Ok::<ExternalSubjectRef, AppError>(s),
            None => r matches Err(e) && is_bad_request(
                e,
                "external_subject_platform and external_subject_external_user_id are required"@,
            ),
        },
{
    match subject {
        Some(s) => Ok(s),
        None => Err(
            bad_request(
                "external_subject_platform and external_subject_external_user_id are required",
            ),
        ),
    }
}

} // verus!

use base64::Engine as _;
use nyxid_handlers::errors::AppError;
use nyxid_handlers::oauth_token::{
    broker_binding_introspection, broker_code_decision, broker_code_token_response,
    code_token_response, exchange_token_response, inactive_introspection, non_empty_resources,
    refresh_token_response, require_external_subject, service_account_userinfo,
    token_introspection, unpinned_broker_grant_error, user_userinfo, userinfo_rbac_claims,
    IntrospectedClaims, introspect_step, BindingLookup, IntrospectAction, IntrospectEvent,
    IntrospectStage, revoke_status, revoke_step, RevokeEvent, RevokeOutcome, RevokeStage, check_broker_scope_allowed,
    check_registration_auth_method, dpop_token_error, join_strings, mtls_certificate,
    mtls_header_to_read, openid_configuration_document, plan_token_grant,
    register_client_response, registration_client_name, requested_registration_scope,
    revocation_action, stored_token_allows_active, RevocationAction, userinfo_claims_wanted, BrokerCodeDecision, StoredTokenLookup,
    TokenGrant,
};
use nyxid_handlers::oauth_types::{ExternalSubjectRef, TokenRequest};

const BROKER_TYPE: &str = "urn:nyxid:params:oauth:token-type:broker-binding";

fn request(grant_type: &str) -> TokenRequest {
    TokenRequest {
        grant_type: grant_type.to_string(),
        code: None,
        redirect_uri: None,
        client_id: None,
        client_secret: None,
        code_verifier: None,
        refresh_token: None,
        subject_token: None,
        subject_token_type: None,
        scope: None,
        provider: None,
        resource: vec![],
    }
}

fn bad_request_message(r: Result<TokenGrant, AppError>) -> String {
    match r {
        Err(AppError::BadRequest(m)) => m,
        _ => panic!("expected a bad request"),
    }
}

#[test]
fn token_request_requires_code_redirect_and_client() {
    let body = request("authorization_code");
    assert_eq!(bad_request_message(plan_token_grant(body, None, BROKER_TYPE)), "Missing code parameter");
    let mut body = request("authorization_code");
    body.code = Some("c".to_string());
    assert_eq!(bad_request_message(plan_token_grant(body, None, BROKER_TYPE)), "Missing redirect_uri parameter");
    let mut body = request("authorization_code");
    body.code = Some("c".to_string());
    body.redirect_uri = Some("http://localhost/cb".to_string());
    body.client_id = Some("client".to_string());
    body.resource = vec!["https://r/1".to_string()];
    match plan_token_grant(body, None, BROKER_TYPE).unwrap() {
        TokenGrant::AuthorizationCode { code, client_id, resources, .. } => {
            assert_eq!(code, "c");
            assert_eq!(client_id, "client");
            assert_eq!(resources, vec!["https://r/1".to_string()]);
        }
        _ => panic!("expected an authorization code grant"),
    }
}

#[test]
fn token_request_refresh_and_unsupported_grants() {
    let body = request("refresh_token");
    assert_eq!(bad_request_message(plan_token_grant(body, None, BROKER_TYPE)), "Missing refresh_token parameter");
    let body = request("magic_grant");
    assert!(matches!(
        plan_token_grant(body, None, BROKER_TYPE),
        Err(AppError::UnsupportedGrantType(g)) if g == "magic_grant"
    ));
    let mut body = request("client_credentials");
    body.client_id = Some("sa".to_string());
    assert_eq!(bad_request_message(plan_token_grant(body, None, BROKER_TYPE)), "Missing client_secret");
    let body = request("client_credentials");
    assert_eq!(bad_request_message(plan_token_grant(body, None, BROKER_TYPE)), "Missing client_id");
}

#[test]
fn token_exchange_routes_by_provider_and_subject_type() {
    let exchange = "urn:ietf:params:oauth:grant-type:token-exchange";
    let mut body = request(exchange);
    body.client_id = Some("c".to_string());
    assert_eq!(bad_request_message(plan_token_grant(body, None, BROKER_TYPE)), "Missing subject_token");
    let mut body = request(exchange);
    body.client_id = Some("c".to_string());
    body.subject_token = Some("t".to_string());
    body.subject_token_type = Some("urn:other".to_string());
    assert_eq!(
        bad_request_message(plan_token_grant(body, None, BROKER_TYPE)),
        "Unsupported subject_token_type: urn:other"
    );
    let mut body = request(exchange);
    body.subject_token = Some("bnd_raw".to_string());
    body.subject_token_type = Some(BROKER_TYPE.to_string());
    let header = format!(
        "Basic {}",
        base64::engine::general_purpose::STANDARD.encode("public-client:")
    );
    match plan_token_grant(body, Some(header.as_bytes()), BROKER_TYPE).unwrap() {
        TokenGrant::BrokerExchange { client_id, client_secret, .. } => {
            assert_eq!(client_id, "public-client");
            assert_eq!(client_secret.as_deref(), Some(""));
        }
        _ => panic!("expected a broker exchange"),
    }
    let mut body = request(exchange);
    body.client_id = Some("c".to_string());
    body.subject_token = Some("t".to_string());
    body.subject_token_type = Some("urn:ietf:params:oauth:token-type:access_token".to_string());
    assert_eq!(bad_request_message(plan_token_grant(body, None, BROKER_TYPE)), "Missing client_secret");
    let mut body = request(exchange);
    body.client_id = Some("c".to_string());
    body.subject_token = Some("t".to_string());
    body.subject_token_type = Some("id_token".to_string());
    body.provider = Some("google".to_string());
    assert!(matches!(
        plan_token_grant(body, None, BROKER_TYPE).unwrap(),
        TokenGrant::SocialExchange { provider, .. } if provider == "google"
    ));
    let mut body = request(exchange);
    body.client_id = Some("c".to_string());
    assert!(matches!(
        plan_token_grant(body, Some("Basic !!!".as_bytes()), BROKER_TYPE),
        Err(AppError::Unauthorized(_))
    ));
}

#[test]
fn broker_codes_need_offline_access_for_refresh_and_pinning_when_required() {
    assert!(matches!(
        broker_code_decision("openid offline_access", true, false),
        BrokerCodeDecision::RejectUnpinned
    ));
    assert!(matches!(
        broker_code_decision("openid offline_access", true, true),
        BrokerCodeDecision::Issue { return_refresh_token: true }
    ));
    assert!(matches!(
        broker_code_decision("openid", false, false),
        BrokerCodeDecision::Issue { return_refresh_token: false }
    ));
    let r = broker_code_token_response(
        "at".to_string(),
        true,
        300,
        false,
        "rt".to_string(),
        None,
        "openid".to_string(),
        vec![],
        Some("bnd_1".to_string()),
        false,
    );
    assert_eq!(r.token_type, "DPoP");
    assert!(r.refresh_token.is_none());
    assert!(r.resource.is_none());
    assert!(r.binding_updated.is_none());
}

#[test]
fn registration_rules() {
    assert_eq!(registration_client_name(None), "Dynamic MCP Client");
    assert!(check_registration_auth_method(None).is_ok());
    assert!(matches!(check_registration_auth_method(Some("client_secret_basic")), Err(AppError::BadRequest(_))));
    assert_eq!(requested_registration_scope(Some("  openid proxy ")).as_deref(), Some("openid proxy"));
    assert!(requested_registration_scope(Some("   ")).is_none());
    let broker = "urn:nyxid:scope:broker_binding";
    assert!(matches!(
        check_broker_scope_allowed("openid urn:nyxid:scope:broker_binding", true, broker),
        Err(AppError::Forbidden(_))
    ));
    assert!(check_broker_scope_allowed("openid urn:nyxid:scope:broker_binding", false, broker).is_ok());
    let r = register_client_response("id".to_string(), "n".to_string(), vec![], "proxy".to_string(), 5);
    assert_eq!(r.grant_types, vec!["authorization_code".to_string(), "refresh_token".to_string()]);
    assert_eq!(r.token_endpoint_auth_method, "none");
}

#[test]
fn introspection_and_userinfo_helpers() {
    assert!(!stored_token_allows_active(StoredTokenLookup::Found { revoked: true }));
    assert!(!stored_token_allows_active(StoredTokenLookup::Failed));
    assert!(stored_token_allows_active(StoredTokenLookup::NotFound));
    assert_eq!(userinfo_claims_wanted("openid roles"), (true, false));
    assert_eq!(join_strings(&vec!["a".to_string(), "b".to_string()], " "), "a b");
    assert!(matches!(
        dpop_token_error(AppError::Unauthorized("x".to_string())),
        AppError::InvalidDpopProof(m) if m == "x"
    ));
    assert!(mtls_header_to_read(true, Some("x-client-cert")).is_none());
    assert_eq!(mtls_header_to_read(false, Some("x-client-cert")).as_deref(), Some("x-client-cert"));
    assert!(mtls_header_to_read(false, Some("  ")).is_none());
    assert!(mtls_certificate(Some(b"  ")).unwrap().is_none());
    assert!(matches!(mtls_certificate(Some(&[0x80])), Err(AppError::Unauthorized(_))));
    let doc = openid_configuration_document("https://id.example", "https://id.example");
    assert_eq!(doc.token_endpoint, "https://id.example/oauth/token");
    assert_eq!(doc.code_challenge_methods_supported, vec!["S256".to_string()]);
}

#[test]
fn revocation_targets_refresh_and_service_account_tokens() {
    assert!(revocation_action("refresh", None) == RevocationAction::RevokeRefreshToken);
    assert!(revocation_action("refresh", Some(true)) == RevocationAction::RevokeRefreshToken);
    assert!(revocation_action("access", Some(true)) == RevocationAction::RevokeServiceAccountToken);
    assert!(revocation_action("access", Some(false)) == RevocationAction::Nothing);
    assert!(revocation_action("access", None) == RevocationAction::Nothing);
}

#[test]
fn token_responses_by_grant() {
    let code = code_token_response(
        "at".to_string(), true, 900, "rt".to_string(), None, "openid".to_string(), vec![],
    );
    assert_eq!(code.token_type, "DPoP");
    assert_eq!(code.refresh_token.as_deref(), Some("rt"));
    assert_eq!(code.scope.as_deref(), Some("openid"));
    assert!(code.resource.is_none() && code.binding_id.is_none());
    let refreshed = refresh_token_response(
        "at2".to_string(), 900, "rt2".to_string(), vec!["https://api.example".to_string()],
    );
    assert_eq!(refreshed.token_type, "Bearer");
    assert!(refreshed.scope.is_none());
    assert_eq!(refreshed.resource, Some(vec!["https://api.example".to_string()]));
    let exchanged = exchange_token_response(
        "at3".to_string(), "Bearer".to_string(), 300, None, None, "read".to_string(),
        Some("urn:ietf:params:oauth:token-type:access_token".to_string()),
    );
    assert_eq!(exchanged.scope.as_deref(), Some("read"));
    assert!(exchanged.resource.is_none());
    assert!(matches!(unpinned_broker_grant_error(), AppError::ExternalTokenInvalid(m) if m == "invalid_grant"));
    let some = vec!["r".to_string()];
    assert!(non_empty_resources(&[]).is_none());
    assert_eq!(non_empty_resources(&some).map(|r| r.len()), Some(1));
}

#[test]
fn introspection_answers() {
    let inactive = inactive_introspection();
    assert!(!inactive.active && inactive.sub.is_none() && inactive.scope.is_none());
    let scopes = vec!["openid".to_string(), "profile".to_string()];
    let binding = broker_binding_introspection(&scopes, "c1".to_string(), 42, "u1".to_string());
    assert!(binding.active);
    assert_eq!(binding.scope.as_deref(), Some("openid profile"));
    assert_eq!(binding.token_type.as_deref(), Some("broker_binding"));
    assert_eq!((binding.iat, binding.sub.as_deref()), (Some(42), Some("u1")));
    let claims = IntrospectedClaims {
        sub: "u1".to_string(),
        iss: "https://id.example".to_string(),
        jti: "j1".to_string(),
        scope: "openid".to_string(),
        token_type: "access".to_string(),
        exp: 200,
        iat: 100,
        resources: Some(vec![]),
    };
    let jwt = token_introspection(claims, Some("a@b.c".to_string()), vec!["admin".to_string()], vec![], vec![]);
    assert!(jwt.active && jwt.client_id.is_none());
    assert_eq!((jwt.exp, jwt.iat), (Some(200), Some(100)));
    assert_eq!(jwt.roles, Some(vec!["admin".to_string()]));
    assert!(jwt.resource.is_none());
}

#[test]
fn userinfo_claims_by_scope() {
    let rbac = userinfo_rbac_claims(true, false, vec!["admin".to_string()], vec!["g".to_string()], vec!["p".to_string()]);
    assert_eq!(rbac.0, Some(vec!["admin".to_string()]));
    assert_eq!(rbac.1, None);
    assert_eq!(rbac.2, Some(vec!["p".to_string()]));
    let sa = service_account_userinfo("sa1".to_string(), "bot".to_string(), (None, None, None));
    assert_eq!(sa.sub, "sa1");
    assert!(sa.email.is_none() && sa.picture.is_none());
    assert_eq!(sa.name.as_deref(), Some("bot"));
    let person = user_userinfo("u1".to_string(), "a@b.c".to_string(), true, None, None, rbac);
    assert_eq!(person.email.as_deref(), Some("a@b.c"));
    assert_eq!(person.email_verified, Some(true));
    assert_eq!(person.roles, Some(vec!["admin".to_string()]));
    let subject = ExternalSubjectRef { platform: "slack".to_string(), tenant: None, external_user_id: "U1".to_string() };
    assert_eq!(require_external_subject(Some(subject)).unwrap().platform, "slack");
    assert!(matches!(require_external_subject(None), Err(AppError::BadRequest(m)) if m.contains("external_subject_platform")));
}

#[test]
fn introspection_flow_answers_inactive_unless_authorized() {
    assert_eq!(introspect_step(IntrospectStage::Start, "", IntrospectEvent::Begin), IntrospectAction::Inactive);
    assert_eq!(
        introspect_step(IntrospectStage::Start, "c1", IntrospectEvent::Begin),
        IntrospectAction::Continue(IntrospectStage::Authenticate)
    );
    assert_eq!(
        introspect_step(IntrospectStage::Authenticate, "c1", IntrospectEvent::ClientAuthenticated(false)),
        IntrospectAction::Inactive
    );
    assert_eq!(
        introspect_step(IntrospectStage::Authenticate, "c1", IntrospectEvent::ClientAuthenticated(true)),
        IntrospectAction::Continue(IntrospectStage::Route)
    );
    assert_eq!(
        introspect_step(IntrospectStage::Route, "c1", IntrospectEvent::TokenKind { broker_binding: true }),
        IntrospectAction::Continue(IntrospectStage::BindingLookup)
    );
    let found = |client: &str, revoked: bool| {
        IntrospectEvent::Binding(BindingLookup::Found { client_id: client.to_string(), revoked })
    };
    assert_eq!(introspect_step(IntrospectStage::BindingLookup, "c1", found("c1", false)), IntrospectAction::ActiveBinding);
    assert_eq!(introspect_step(IntrospectStage::BindingLookup, "c1", found("c1", true)), IntrospectAction::Inactive);
    assert_eq!(introspect_step(IntrospectStage::BindingLookup, "c1", found("c2", false)), IntrospectAction::Inactive);
    assert_eq!(
        introspect_step(IntrospectStage::BindingLookup, "c1", IntrospectEvent::Binding(BindingLookup::NotFound)),
        IntrospectAction::Inactive
    );
    assert_eq!(introspect_step(IntrospectStage::Verify, "c1", IntrospectEvent::Verified(None)), IntrospectAction::Inactive);
    assert_eq!(
        introspect_step(IntrospectStage::Verify, "c1", IntrospectEvent::Verified(Some((true, true)))),
        IntrospectAction::Continue(IntrospectStage::RefreshCheck { service_account: true })
    );
    assert_eq!(
        introspect_step(
            IntrospectStage::RefreshCheck { service_account: true },
            "c1",
            IntrospectEvent::Stored(StoredTokenLookup::NotFound)
        ),
        IntrospectAction::Continue(IntrospectStage::ServiceAccountCheck)
    );
    assert_eq!(
        introspect_step(
            IntrospectStage::ServiceAccountCheck,
            "c1",
            IntrospectEvent::Stored(StoredTokenLookup::Found { revoked: true })
        ),
        IntrospectAction::Inactive
    );
    assert_eq!(
        introspect_step(IntrospectStage::RefreshCheck { service_account: false }, "c1", IntrospectEvent::Stored(StoredTokenLookup::Failed)),
        IntrospectAction::Inactive
    );
    assert_eq!(
        introspect_step(IntrospectStage::Verify, "c1", IntrospectEvent::Verified(Some((false, false)))),
        IntrospectAction::Continue(IntrospectStage::Rbac)
    );
    assert_eq!(introspect_step(IntrospectStage::Rbac, "c1", IntrospectEvent::RbacResolved(false)), IntrospectAction::Inactive);
    assert_eq!(introspect_step(IntrospectStage::Rbac, "c1", IntrospectEvent::RbacResolved(true)), IntrospectAction::ActiveToken);
}

#[test]
fn revocation_answers_200_and_changes_nothing_without_authentication() {
    assert_eq!(revoke_step(RevokeStage::Start, "", RevokeEvent::Begin), RevokeOutcome::Done);
    assert_eq!(
        revoke_step(RevokeStage::Start, "c1", RevokeEvent::Begin),
        RevokeOutcome::Continue(RevokeStage::Authenticate)
    );
    assert_eq!(
        revoke_step(RevokeStage::Authenticate, "c1", RevokeEvent::ClientAuthenticated(false)),
        RevokeOutcome::Done
    );
    assert_eq!(
        revoke_step(RevokeStage::Route, "c1", RevokeEvent::TokenKind { broker_binding: true }),
        RevokeOutcome::RevokeBinding
    );
    assert_eq!(
        revoke_step(RevokeStage::Verify, "c1", RevokeEvent::Verified(Some((true, false)))),
        RevokeOutcome::RevokeStored(RevocationAction::RevokeRefreshToken)
    );
    assert_eq!(
        revoke_step(RevokeStage::Verify, "c1", RevokeEvent::Verified(Some((false, true)))),
        RevokeOutcome::RevokeStored(RevocationAction::RevokeServiceAccountToken)
    );
    assert_eq!(revoke_step(RevokeStage::Verify, "c1", RevokeEvent::Verified(None)), RevokeOutcome::Done);
    assert_eq!(
        revoke_step(RevokeStage::Start, "c1", RevokeEvent::TokenKind { broker_binding: true }),
        RevokeOutcome::Done
    );
    assert_eq!(revoke_status(RevokeOutcome::Done), Some(200));
    assert_eq!(revoke_status(RevokeOutcome::RevokeBinding), Some(200));
    assert_eq!(revoke_status(RevokeOutcome::Continue(RevokeStage::Route)), None);
}

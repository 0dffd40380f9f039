use base64::Engine as _;
use nyxid_handlers::client_auth::{
    client_credentials_from_basic_or_params, credentials_from_decoded, introspection_caller, is_broker_binding_token,
    par_client_credentials,
    parse_basic_client_credentials, revocation_caller, token_exchange_client,
};
use nyxid_handlers::errors::{oauth_error_response, AppError};
use nyxid_handlers::oauth_authorize::{
    accepts_json, access_denied_redirect, authorize_entry, consent_required_redirect, binding_review_subject, check_authorize_request,
    check_grantable_services, check_pushed_binding_grant, check_pushed_request_shape,
    check_selected_resources, consent_decision_allows, consent_request_claims, consent_step,
    consent_surface, has_non_par_authorize_params, merge_required_service_ids, needs_success_page,
    oauth_success_page, params_from_consent_claims, params_from_consent_form,
    params_from_pushed_request, parse_prompt, AuthorizeEntry, ConsentStep,
    PushedAuthorizationRecord,
};
use nyxid_handlers::oauth_consent::{
    authorization_grant, consent_requires_prompt, default_service_hints_from,
    intersect_service_ids, normalize_allowed_service_ids, AppDefaultServiceHints,
    BindingGrantSnapshot, CatalogServiceEntry, Consent, ResolvedOAuthResources, UserServiceEntry,
};
use nyxid_handlers::oauth_types::{
    default_allow_all_services_form, AuthorizeQuery, ConsentDecisionForm, ExternalSubjectRef,
};
use nyxid_handlers::oauth_urls::{
    build_authorize_url, build_callback_error_url, build_callback_url, build_consent_url,
    build_login_url,
};

fn strings(v: &[&str]) -> Vec<String> {
    v.iter().map(|s| s.to_string()).collect()
}

fn query() -> AuthorizeQuery {
    AuthorizeQuery {
        response_type: "code".to_string(),
        client_id: "c1".to_string(),
        redirect_uri: "http://localhost/cb".to_string(),
        scope: Some("openid".to_string()),
        state: None,
        code_challenge: None,
        code_challenge_method: None,
        nonce: None,
        external_subject_platform: None,
        external_subject_tenant: None,
        external_subject_external_user_id: None,
        binding_grant_id: None,
        prompt: None,
        request_uri: None,
        resource: vec![],
    }
}

#[test]
fn parse_prompt_empty_returns_empty_set() {
    assert!(parse_prompt(None).is_empty());
    assert!(parse_prompt(Some("")).is_empty());
}

#[test]
fn parse_prompt_splits_space_separated_values() {
    let prompts = parse_prompt(Some("login consent"));
    assert!(prompts.contains("login"));
    assert!(prompts.contains("consent"));
    assert_eq!(prompts.len(), 2);
}

#[test]
fn intersect_service_ids_preserves_requested_order_and_dedupes() {
    let requested = vec![
        "svc-2".to_string(),
        "svc-1".to_string(),
        "svc-2".to_string(),
        "svc-3".to_string(),
    ];
    let consented = vec!["svc-1".to_string(), "svc-2".to_string()];
    assert_eq!(
        intersect_service_ids(&requested, &consented),
        vec!["svc-2".to_string(), "svc-1".to_string()]
    );
}

#[test]
fn intersect_service_ids_empty_when_disjoint() {
    let requested = vec!["svc-3".to_string()];
    let consented = vec!["svc-1".to_string(), "svc-2".to_string()];
    assert!(intersect_service_ids(&requested, &consented).is_empty());
}

#[test]
fn consent_decision_form_defaults_service_access_to_deny() {
    assert!(!default_allow_all_services_form());
}

#[test]
fn oauth_error_response_maps_unsupported_grant_type() {
    let err = AppError::UnsupportedGrantType("magic_grant".to_string());
    let response = oauth_error_response(&err);
    assert_eq!(response.status, 400);
}

#[test]
fn oauth_error_response_maps_internal_error_without_leak() {
    let err = AppError::Internal("secret DB detail".to_string());
    let response = oauth_error_response(&err);
    assert_eq!(response.status, 500);
    assert!(!response.error_description.contains("secret"));
}

#[test]
fn parse_basic_client_credentials_returns_none_for_missing_header() {
    let result = parse_basic_client_credentials(None).unwrap();
    assert!(result.is_none());
}

#[test]
fn parse_basic_client_credentials_decodes_valid_basic() {
    let encoded = base64::engine::general_purpose::STANDARD.encode("my_client:my_secret");
    let header = format!("Basic {encoded}");
    let (client_id, client_secret) =
        parse_basic_client_credentials(Some(header.as_bytes())).unwrap().unwrap();
    assert_eq!(client_id, "my_client");
    assert_eq!(client_secret, "my_secret");
}

#[test]
fn parse_basic_client_credentials_rejects_invalid_base64() {
    let err = parse_basic_client_credentials(Some("Basic not!valid!base64!!!".as_bytes()));
    assert!(err.is_err());
}

#[test]
fn client_credentials_from_basic_or_params_prefers_basic() {
    let basic = Some(("basic_id".to_string(), "basic_secret".to_string()));
    let result = client_credentials_from_basic_or_params(basic, None, None);
    assert_eq!(result.unwrap().0, "basic_id");
}

#[test]
fn client_credentials_from_basic_or_params_rejects_conflicting_ids() {
    let basic = Some(("basic_id".to_string(), "basic_secret".to_string()));
    let result =
        client_credentials_from_basic_or_params(basic, Some("different_id".to_string()), None);
    assert!(result.is_none());
}

#[test]
fn client_credentials_from_basic_or_params_falls_back_to_form() {
    let result = client_credentials_from_basic_or_params(
        None,
        Some("form_id".to_string()),
        Some("form_secret".to_string()),
    );
    let (id, secret) = result.unwrap();
    assert_eq!(id, "form_id");
    assert_eq!(secret.unwrap(), "form_secret");
}

#[test]
fn client_credentials_from_basic_or_params_returns_none_for_empty() {
    let result = client_credentials_from_basic_or_params(None, None, None);
    assert!(result.is_none());
}

#[test]
fn needs_success_page_returns_true_for_loopback() {
    assert!(needs_success_page("http://127.0.0.1/callback"));
    assert!(needs_success_page("http://localhost/callback"));
    assert!(needs_success_page("http://[::1]/callback"));
}

#[test]
fn needs_success_page_returns_true_for_custom_scheme() {
    assert!(needs_success_page("cursor://callback"));
    assert!(needs_success_page("vscode://callback"));
}

#[test]
fn needs_success_page_returns_false_for_remote_url() {
    assert!(!needs_success_page("https://app.example.com/callback"));
}

#[test]
fn accepts_json_returns_true_for_json_accept() {
    assert!(accepts_json(Some("application/json".as_bytes())));
}

#[test]
fn accepts_json_returns_false_for_html_accept() {
    assert!(!accepts_json(Some("text/html".as_bytes())));
}

#[test]
fn build_consent_url_appends_default_service_hints_as_repeated_params() {
    let params = query();
    let hints = AppDefaultServiceHints {
        preselect_service_ids: vec!["svc-1".to_string(), "svc-2".to_string()],
        unmatched_names: vec!["Lark Bot".to_string()],
        ..AppDefaultServiceHints::default()
    };
    let url = build_consent_url("https://app.example", &params, "Hint App", "openid", None, &hints);
    assert!(url.contains("preselect_service_ids=svc-1"));
    assert!(url.contains("preselect_service_ids=svc-2"));
    assert!(url.contains("unmatched_defaults=Lark%20Bot"));

    let none = build_consent_url(
        "https://app.example",
        &params,
        "Hint App",
        "openid",
        None,
        &AppDefaultServiceHints::default(),
    );
    assert!(!none.contains("preselect_service_ids"));
    assert!(!none.contains("unmatched_defaults"));
}

#[test]
fn build_consent_url_lists_every_parameter_in_order() {
    let mut params = query();
    params.state = Some("s 1".to_string());
    params.code_challenge = Some("abc".to_string());
    params.code_challenge_method = Some("S256".to_string());
    params.external_subject_platform = Some(String::new());
    params.resource = strings(&["https://r/1"]);
    let mut hints = AppDefaultServiceHints::default();
    hints.binding_review = true;
    let url = build_consent_url(
        "https://app.example",
        &params,
        "My App",
        "openid email",
        Some("tok"),
        &hints,
    );
    assert_eq!(
        url,
        "https://app.example/oauth-consent?response_type=code&client_id=c1&client_name=My%20App\
&redirect_uri=http%3A%2F%2Flocalhost%2Fcb&scope=openid%20email&state=s%201&code_challenge=abc\
&code_challenge_method=S256&resource=https%3A%2F%2Fr%2F1&binding_review=true&consent_request=tok"
    );
}

#[test]
fn authorize_url_round_trips_pushed_requests_by_reference() {
    let mut params = query();
    params.request_uri = Some("urn:par:1".to_string());
    assert_eq!(
        build_authorize_url("https://f", &params),
        "https://f/oauth/authorize?client_id=c1&request_uri=urn%3Apar%3A1"
    );
    params.request_uri = None;
    params.prompt = Some("login".to_string());
    assert_eq!(
        build_authorize_url("https://f", &params),
        "https://f/oauth/authorize?response_type=code&client_id=c1\
&redirect_uri=http%3A%2F%2Flocalhost%2Fcb&scope=openid&prompt=login"
    );
    let login = build_login_url("https://f", &params);
    assert!(login.starts_with("https://f/login?return_to=https%3A%2F%2Ff%2Foauth%2Fauthorize%3F"));
}

#[test]
fn callback_urls_carry_code_or_error_and_state() {
    let mut params = query();
    params.state = Some("xyz".to_string());
    assert_eq!(build_callback_url(&params, "c o"), "http://localhost/cb?code=c%20o&state=xyz");
    assert_eq!(
        build_callback_error_url(&params, "access_denied", "The resource owner denied the request"),
        "http://localhost/cb?error=access_denied\
&error_description=The%20resource%20owner%20denied%20the%20request&state=xyz"
    );
}

#[test]
fn prompt_none_never_shows_login_or_consent_pages() {
    let prompts = parse_prompt(Some("none"));
    assert!(matches!(authorize_entry(&prompts, true, false), Ok(AuthorizeEntry::LoginRequired)));
    let step = consent_step(&prompts, true, false, None, None);
    assert!(matches!(step, ConsentStep::ConsentRequired));
    let conflicting = parse_prompt(Some("none login"));
    assert!(matches!(authorize_entry(&conflicting, true, true), Err(AppError::BadRequest(_))));
}

#[test]
fn prompt_login_forces_login_and_consent_forces_the_page() {
    let login = parse_prompt(Some("login"));
    assert!(matches!(authorize_entry(&login, true, true), Ok(AuthorizeEntry::RedirectToLogin)));
    assert!(matches!(authorize_entry(&login, false, true), Ok(AuthorizeEntry::Proceed)));
    assert!(matches!(authorize_entry(&parse_prompt(None), false, false), Ok(AuthorizeEntry::AuthenticationRequired)));
    let consent = Consent { allow_all_services: true, allowed_service_ids: None };
    let plain = parse_prompt(None);
    assert!(matches!(consent_step(&plain, true, false, Some(&consent), None), ConsentStep::IssueCode));
    let forced = parse_prompt(Some("consent"));
    assert!(matches!(consent_step(&forced, true, false, Some(&consent), None), ConsentStep::ShowConsentPage));
    assert!(matches!(consent_step(&forced, false, false, Some(&consent), None), ConsentStep::ReportConsentUrl));
    assert!(matches!(consent_step(&plain, true, true, Some(&consent), None), ConsentStep::ShowConsentPage));
}

#[test]
fn consent_prompt_rules_for_legacy_scoped_and_missing_grants() {
    let resolved = ResolvedOAuthResources {
        resource_uris: strings(&["https://r/a"]),
        service_ids: strings(&["svc-a"]),
    };
    assert!(consent_requires_prompt(None, Some(&resolved)));
    let legacy = Consent { allow_all_services: false, allowed_service_ids: None };
    assert!(consent_requires_prompt(Some(&legacy), None));
    let scoped = Consent { allow_all_services: false, allowed_service_ids: Some(strings(&["svc-b"])) };
    assert!(consent_requires_prompt(Some(&scoped), Some(&resolved)));
    assert!(!consent_requires_prompt(Some(&scoped), None));
    let covering = Consent { allow_all_services: false, allowed_service_ids: Some(strings(&["svc-a"])) };
    assert!(!consent_requires_prompt(Some(&covering), Some(&resolved)));
}

#[test]
fn authorization_grant_narrows_resources_to_consented_services() {
    let resolved = ResolvedOAuthResources {
        resource_uris: strings(&["https://r/a", "https://r/b"]),
        service_ids: strings(&["svc-a", "svc-b"]),
    };
    let consent = Consent { allow_all_services: false, allowed_service_ids: Some(strings(&["svc-b"])) };
    let grant = authorization_grant(Some(resolved), &consent);
    assert_eq!(grant.resource_uris, strings(&["https://r/b"]));
    assert_eq!(grant.allowed_service_ids, strings(&["svc-b"]));
    assert!(!grant.allow_all_services);
    let all = Consent { allow_all_services: true, allowed_service_ids: None };
    let grant = authorization_grant(None, &all);
    assert!(grant.allow_all_services);
}

#[test]
fn normalized_and_merged_service_selection() {
    assert_eq!(
        normalize_allowed_service_ids(strings(&[" a ", "", "b", "a", "  "])),
        strings(&["a", "b"])
    );
    assert_eq!(
        merge_required_service_ids(strings(&["b ", "a"]), strings(&["a", "c", "c"])),
        strings(&["b", "a", "c"])
    );
}

#[test]
fn authorize_request_checks_response_type_and_pkce() {
    let mut params = query();
    assert!(matches!(check_authorize_request(&params), Err(AppError::BadRequest(_))));
    params.code_challenge = Some("x".to_string());
    assert!(matches!(check_authorize_request(&params), Err(AppError::BadRequest(_))));
    params.code_challenge_method = Some("plain".to_string());
    assert!(matches!(check_authorize_request(&params), Err(AppError::BadRequest(_))));
    params.code_challenge_method = Some("S256".to_string());
    assert!(check_authorize_request(&params).is_ok());
    params.response_type = "token".to_string();
    assert!(matches!(check_authorize_request(&params), Err(AppError::BadRequest(_))));
}

#[test]
fn consent_request_claims_round_trip_for_the_same_user() {
    let mut params = query();
    params.state = Some("st".to_string());
    params.resource = strings(&["https://r/1"]);
    let claims = consent_request_claims("user-1", "https://issuer", 1000, &params, "openid email");
    assert_eq!(claims.exp, 1900);
    assert_eq!(claims.aud, "nyxid/oauth-consent");
    let back = params_from_consent_claims(claims, "user-1").unwrap();
    assert_eq!(back.scope.as_deref(), Some("openid email"));
    assert_eq!(back.state.as_deref(), Some("st"));
    assert_eq!(back.resource, strings(&["https://r/1"]));
    let claims = consent_request_claims("user-1", "https://issuer", 1000, &params, "openid");
    assert!(matches!(params_from_consent_claims(claims, "user-2"), Err(AppError::BadRequest(_))));
}

#[test]
fn success_page_escapes_the_redirect() {
    let html = oauth_success_page("http://127.0.0.1/cb?a=1&b=\"<x>'");
    assert!(html.contains("content=\"2;url=http://127.0.0.1/cb?a=1&amp;b=&quot;&lt;x&gt;'\""));
    assert!(html.contains("window.location.replace('http://127.0.0.1/cb?a=1&b=\"<x>\\'')"));
    assert!(html.starts_with("<!DOCTYPE html>"));
}

#[test]
fn consent_surface_by_redirect_kind() {
    assert_eq!(consent_surface("cursor://cb"), "sdk");
    assert_eq!(consent_surface("http://localhost:3000/cb"), "cli");
    assert_eq!(consent_surface("https://app.example/cb"), "ui");
    assert_eq!(consent_surface("not a url"), "ui");
}

#[test]
fn client_selection_for_par_exchange_and_revocation() {
    let basic = Some(("id".to_string(), "secret".to_string()));
    assert!(matches!(
        par_client_credentials(basic.clone(), Some("other".to_string()), None),
        Err(AppError::BadRequest(_))
    ));
    assert!(matches!(par_client_credentials(None, Some("id".to_string()), None), Err(AppError::Unauthorized(_))));
    assert_eq!(
        par_client_credentials(None, Some("id".to_string()), Some("s".to_string())).unwrap(),
        ("id".to_string(), "s".to_string())
    );
    assert!(matches!(token_exchange_client(Some("x".to_string()), None, basic.clone()), Err(AppError::Unauthorized(_))));
    assert!(matches!(token_exchange_client(None, None, None), Err(AppError::BadRequest(_))));
    assert_eq!(
        token_exchange_client(None, None, basic.clone()).unwrap(),
        ("id".to_string(), Some("secret".to_string()))
    );
    assert!(revocation_caller(None, Some(String::new()), None).is_none());
    assert!(is_broker_binding_token(None, "bnd_abc", "urn:x"));
    assert!(is_broker_binding_token(Some("urn:x"), "abc", "urn:x"));
    assert!(!is_broker_binding_token(Some("refresh_token"), "abc", "urn:x"));
}

#[test]
fn pushed_requests_are_checked_and_replayed() {
    assert!(check_pushed_request_shape("code", None).is_ok());
    assert!(check_pushed_request_shape("code", Some("S256")).is_ok());
    assert!(matches!(check_pushed_request_shape("token", None), Err(AppError::BadRequest(m)) if m == "Unsupported response_type"));
    assert!(matches!(check_pushed_request_shape("code", Some("plain")), Err(AppError::BadRequest(m)) if m.contains("S256")));
    assert!(check_pushed_binding_grant(None, false).is_ok());
    assert!(check_pushed_binding_grant(Some(true), true).is_ok());
    assert!(matches!(check_pushed_binding_grant(Some(true), false), Err(AppError::InvalidTarget(_))));
    assert!(matches!(check_pushed_binding_grant(Some(false), true), Err(AppError::InvalidTarget(_))));
    let record = PushedAuthorizationRecord {
        response_type: "code".to_string(),
        client_id: "c1".to_string(),
        redirect_uri: "https://app.example/cb".to_string(),
        scope: Some("openid".to_string()),
        state: Some("s".to_string()),
        code_challenge: None,
        code_challenge_method: None,
        nonce: None,
        prompt: Some("consent".to_string()),
        resources: strings(&["https://api.example"]),
        external_subject: Some(ExternalSubjectRef {
            platform: "slack".to_string(),
            tenant: Some("T1".to_string()),
            external_user_id: "U1".to_string(),
        }),
        binding_grant_id: None,
    };
    let params = params_from_pushed_request(record);
    assert_eq!(params.client_id, "c1");
    assert_eq!(params.external_subject_platform.as_deref(), Some("slack"));
    assert_eq!(params.external_subject_tenant.as_deref(), Some("T1"));
    assert_eq!(params.external_subject_external_user_id.as_deref(), Some("U1"));
    assert_eq!(params.resource, strings(&["https://api.example"]));
    assert!(params.request_uri.is_none());
    let mut plain = query();
    plain.request_uri = Some("urn:ietf:params:oauth:request_uri:abc".to_string());
    assert!(has_non_par_authorize_params(&plain));
    let mut by_reference = query();
    by_reference.response_type = String::new();
    by_reference.redirect_uri = String::new();
    by_reference.scope = None;
    by_reference.request_uri = Some("urn:ietf:params:oauth:request_uri:abc".to_string());
    assert!(!has_non_par_authorize_params(&by_reference));
}

#[test]
fn consent_decisions_and_selections() {
    assert_eq!(consent_decision_allows("allow").unwrap(), true);
    assert_eq!(consent_decision_allows("deny").unwrap(), false);
    assert!(matches!(consent_decision_allows("maybe"), Err(AppError::BadRequest(m)) if m == "Invalid consent decision"));
    let requested = strings(&["https://a", "https://b"]);
    assert!(check_selected_resources(&requested, &strings(&["https://b"])).is_ok());
    assert!(matches!(
        check_selected_resources(&requested, &strings(&["https://c"])),
        Err(AppError::InvalidTarget(m)) if m == "selected resource was not in the original authorization request"
    ));
    assert!(check_grantable_services(true).is_ok());
    assert!(matches!(check_grantable_services(false), Err(AppError::BadRequest(_))));
    let subject = ExternalSubjectRef { platform: "slack".to_string(), tenant: None, external_user_id: "U1".to_string() };
    assert_eq!(binding_review_subject(None, None).unwrap(), false);
    assert_eq!(binding_review_subject(Some("h"), Some(&subject)).unwrap(), true);
    assert!(matches!(binding_review_subject(Some("h"), None), Err(AppError::InvalidTarget(_))));
    let form = ConsentDecisionForm {
        response_type: "code".to_string(),
        client_id: "c1".to_string(),
        redirect_uri: "https://app.example/cb".to_string(),
        scope: Some("openid profile".to_string()),
        state: Some("xyz".to_string()),
        code_challenge: Some("cc".to_string()),
        code_challenge_method: Some("S256".to_string()),
        nonce: None,
        external_subject_platform: None,
        external_subject_tenant: None,
        external_subject_external_user_id: None,
        binding_grant_id: None,
        prompt: None,
        allow_all_services: false,
        allowed_service_ids: vec![],
        consent_request: None,
        resource: strings(&["https://a"]),
        decision: "allow".to_string(),
    };
    let params = params_from_consent_form(&form);
    assert_eq!(params.scope.as_deref(), Some("openid profile"));
    assert_eq!(params.code_challenge_method.as_deref(), Some("S256"));
    assert_eq!(params.resource, strings(&["https://a"]));
    assert!(params.request_uri.is_none());
    assert_eq!(introspection_caller(Some("c1".to_string())).as_deref(), Some("c1"));
    assert_eq!(introspection_caller(Some(String::new())), None);
    assert_eq!(introspection_caller(None), None);
}

#[test]
fn default_service_hints_match_catalog_to_grantable_user_services() {
    let catalog = vec![
        CatalogServiceEntry { id: "cat-a".to_string(), name: "Alpha".to_string() },
        CatalogServiceEntry { id: "cat-b".to_string(), name: "Beta".to_string() },
        CatalogServiceEntry { id: "cat-c".to_string(), name: "Gamma".to_string() },
    ];
    let user_services = vec![
        UserServiceEntry { id: "us-1".to_string(), catalog_service_id: Some("cat-a".to_string()), allowed: true },
        UserServiceEntry { id: "us-2".to_string(), catalog_service_id: Some("cat-b".to_string()), allowed: false },
        UserServiceEntry { id: "us-3".to_string(), catalog_service_id: None, allowed: true },
        UserServiceEntry { id: "us-4".to_string(), catalog_service_id: Some("other".to_string()), allowed: true },
    ];
    let mut hints = default_service_hints_from(&catalog, &user_services);
    assert_eq!(hints.preselect_service_ids, strings(&["us-1"]));
    assert_eq!(hints.unmatched_names, strings(&["Beta", "Gamma"]));
    assert!(hints.required_service_ids.is_empty() && !hints.binding_review);

    let resolved = ResolvedOAuthResources {
        resource_uris: strings(&["https://a"]),
        service_ids: strings(&["s-a"]),
    };
    let binding = BindingGrantSnapshot { allowed_service_ids: strings(&["s-old"]), allow_all_services: false };
    hints.include_flow_grants(Some(&resolved), Some(&binding));
    assert_eq!(hints.required_service_ids, strings(&["s-a"]));
    assert!(hints.binding_review);
    assert_eq!(hints.current_binding_service_ids, strings(&["s-old"]));
    assert_eq!(hints.preselect_service_ids, strings(&["us-1"]));
}

#[test]
fn basic_credentials_are_percent_decoded_utf8() {
    let (id, secret) = credentials_from_decoded(Some(b"my%3Aclient:s%20cr%C3%A9t".to_vec())).unwrap();
    assert_eq!(id, "my:client");
    assert_eq!(secret, "s cr\u{e9}t");
    let (id, secret) = credentials_from_decoded(Some(b"100%:a%2".to_vec())).unwrap();
    assert_eq!((id.as_str(), secret.as_str()), ("100%", "a%2"));
    assert!(credentials_from_decoded(Some(b"%FF:x".to_vec())).is_err());
    assert!(credentials_from_decoded(Some(vec![0xff, b':', b'a'])).is_err());
    assert!(credentials_from_decoded(Some(b"no-separator".to_vec())).is_err());
    assert!(credentials_from_decoded(None).is_err());
    let encoded = base64::engine::general_purpose::STANDARD.encode("app%201:pa%24%24");
    let header = format!("Basic {encoded}");
    let (id, secret) = parse_basic_client_credentials(Some(header.as_bytes())).unwrap().unwrap();
    assert_eq!((id.as_str(), secret.as_str()), ("app 1", "pa$$"));
}

#[test]
fn consent_required_and_denied_redirect_to_the_client() {
    let mut params = query();
    params.state = Some("xyz".to_string());
    assert_eq!(
        consent_required_redirect(&params),
        "http://localhost/cb?error=consent_required&error_description=User%20consent%20is%20required&state=xyz"
    );
    assert_eq!(
        access_denied_redirect(&params),
        "http://localhost/cb?error=access_denied\
&error_description=The%20resource%20owner%20denied%20the%20request&state=xyz"
    );
}

#[test]
fn oauth_error_descriptions_use_the_error_text() {
    let limited = oauth_error_response(&AppError::RateLimited);
    assert_eq!(limited.status, 429);
    assert_eq!(limited.error, "temporarily_unavailable");
    assert_eq!(limited.error_description, "Rate limit exceeded");
    let bad = oauth_error_response(&AppError::BadRequest("Missing code parameter".to_string()));
    assert_eq!(bad.error_description, "Missing code parameter");
    let approval = AppError::PlatformOperationApprovalRequired { vendor: "Twilio".to_string() };
    assert_eq!(approval.message(), "Approval is required to use Twilio");
    assert_eq!(AppError::BadRequest(String::new()).message(), "bad_request");
}

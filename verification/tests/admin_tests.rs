use nyxid_handlers::branding::{
    build_connect_start_url, check_logo_chunk, check_logo_field, check_service_account_owner,
    options_owner_org, require_logo, strip_login_prompt,
};
use nyxid_handlers::errors::AppError;
use nyxid_handlers::feature_flags::{
    feature_flag_wire, FeatureFlagOverride, FeatureFlagOverrideWire, FlagDefinition,
    FlagTargetKind, FlagTargetKindWire,
};
use nyxid_handlers::platform_preferences::preference_owner;
use nyxid_handlers::providers::{
    delete_provider_response, provider_to_response, ProviderRecord, provider_type_config, update_provider_urls, validate_provider_basics, validate_slug,
    CreateProviderRequest, UpdateProviderRequest,
};

fn provider(provider_type: &str) -> CreateProviderRequest {
    CreateProviderRequest {
        name: "GitHub".to_string(),
        slug: "github".to_string(),
        description: None,
        provider_type: provider_type.to_string(),
        authorization_url: None,
        token_url: None,
        revocation_url: None,
        default_scopes: None,
        client_id: None,
        client_secret: None,
        supports_pkce: None,
        device_code_url: None,
        device_token_url: None,
        device_verification_url: None,
        hosted_callback_url: None,
        api_key_instructions: None,
        api_key_url: None,
        icon_url: None,
        documentation_url: None,
    }
}

fn validation_message(r: Result<(), AppError>) -> String {
    match r {
        Err(AppError::ValidationError(m)) => m,
        _ => panic!("expected a validation error"),
    }
}

#[test]
fn slugs_are_lowercase_words_joined_by_single_hyphens() {
    assert!(validate_slug("github-enterprise-2").is_ok());
    for bad in ["-github", "github-", "git--hub", "GitHub", "git_hub"] {
        assert!(matches!(validate_slug(bad), Err(AppError::ValidationError(_))));
    }
    assert_eq!(validation_message(validate_slug("")), "slug must be between 1 and 100 characters");
    assert!(validate_slug(&"a".repeat(100)).is_ok());
    assert!(validate_slug(&"a".repeat(101)).is_err());
}

#[test]
fn provider_basics_and_type_requirements() {
    let mut p = provider("saml");
    assert_eq!(
        validation_message(validate_provider_basics(&p)),
        "provider_type must be one of: oauth2, api_key, device_code"
    );
    p.name = String::new();
    assert_eq!(validation_message(validate_provider_basics(&p)), "name and slug are required");
    let mut p = provider("oauth2");
    assert!(validate_provider_basics(&p).is_ok());
    match provider_type_config(&p) {
        Err(AppError::ValidationError(m)) => assert_eq!(m, "client_id is required for OAuth2 providers"),
        _ => panic!("expected a missing client id"),
    }
    p.client_id = Some("id".to_string());
    p.client_secret = Some("secret".to_string());
    p.authorization_url = Some("https://a".to_string());
    p.token_url = Some("https://t".to_string());
    let config = provider_type_config(&p).unwrap();
    assert!(!config.oauth.unwrap().supports_pkce);
    assert_eq!(config.urls_to_validate, vec!["https://a".to_string(), "https://t".to_string()]);

    let mut d = provider("device_code");
    d.client_id = Some("id".to_string());
    d.authorization_url = Some("https://a".to_string());
    d.token_url = Some("https://t".to_string());
    d.device_code_url = Some("https://dc".to_string());
    d.device_token_url = Some("https://dt".to_string());
    d.hosted_callback_url = Some("https://cb".to_string());
    let config = provider_type_config(&d).unwrap();
    assert!(config.device_code.unwrap().supports_pkce);
    assert_eq!(config.urls_to_validate.len(), 5);
    assert_eq!(config.urls_to_validate[4], "https://cb");
    let a = provider_type_config(&provider("api_key")).unwrap();
    assert!(a.api_key.is_some() && a.urls_to_validate.is_empty());
}

#[test]
fn provider_update_urls_in_order() {
    let body = UpdateProviderRequest {
        name: None,
        description: None,
        is_active: None,
        authorization_url: None,
        token_url: Some("https://t".to_string()),
        revocation_url: None,
        default_scopes: None,
        client_id: None,
        client_secret: None,
        supports_pkce: None,
        device_code_url: None,
        device_token_url: None,
        device_verification_url: Some("https://v".to_string()),
        hosted_callback_url: None,
        api_key_instructions: None,
        api_key_url: None,
        icon_url: None,
        documentation_url: None,
    };
    assert_eq!(update_provider_urls(&body), vec!["https://t".to_string(), "https://v".to_string()]);
}

#[test]
fn feature_flag_wire_shapes() {
    assert_eq!(FlagTargetKind::from(FlagTargetKindWire::Role), FlagTargetKind::Role);
    let o = FeatureFlagOverride {
        target_kind: FlagTargetKind::Org,
        target_key: None,
        enabled: true,
        updated_at: "t".to_string(),
        updated_by: "u".to_string(),
    };
    let wire = FeatureFlagOverrideWire::from(o);
    assert_eq!(wire.target_kind, "org");
    assert!(wire.enabled);
    let flag = feature_flag_wire(
        FlagDefinition {
            key: "platform_services".to_string(),
            description: "d".to_string(),
            default_enabled: false,
            org_manageable: true,
        },
        vec![FeatureFlagOverride {
            target_kind: FlagTargetKind::User,
            target_key: Some("member".to_string()),
            enabled: false,
            updated_at: "t".to_string(),
            updated_by: "u".to_string(),
        }],
    );
    assert_eq!(flag.overrides.len(), 1);
    assert_eq!(flag.overrides[0].target_kind, "user");
}

#[test]
fn logo_upload_and_resume_rules() {
    assert!(check_logo_field(Some("logo"), false).is_ok());
    assert!(matches!(check_logo_field(Some("logo"), true), Err(AppError::ValidationError(_))));
    assert!(matches!(check_logo_field(Some("file"), false), Err(AppError::ValidationError(_))));
    assert!(check_logo_chunk(10, 5, 15).is_ok());
    assert!(matches!(
        check_logo_chunk(10, 6, 15),
        Err(AppError::RequestBodyTooLarge { max_bytes: 15, .. })
    ));
    assert!(matches!(require_logo(None), Err(AppError::ValidationError(_))));
    assert_eq!(strip_login_prompt(Some("login consent".to_string())).as_deref(), Some("consent"));
    assert!(strip_login_prompt(Some(" login ".to_string())).is_none());
    assert!(strip_login_prompt(None).is_none());
    assert_eq!(
        build_connect_start_url("https://app.example//", "ctx1"),
        "https://app.example/connect/app/start/ctx1"
    );
    assert!(options_owner_org("me", "me").is_none());
    assert_eq!(options_owner_org("org", "me").as_deref(), Some("org"));
    assert!(matches!(check_service_account_owner("a", "b"), Err(AppError::ValidationError(_))));
}

#[test]
fn provider_records_are_reported_without_secrets() {
    let record = ProviderRecord {
        id: "p1".to_string(),
        slug: "github".to_string(),
        name: "GitHub".to_string(),
        description: None,
        provider_type: "oauth2".to_string(),
        client_id_encrypted: Some(vec![1, 2, 3]),
        default_scopes: Some(vec!["repo".to_string()]),
        supports_pkce: true,
        device_code_url: None,
        device_token_url: None,
        device_verification_url: None,
        hosted_callback_url: None,
        api_key_instructions: None,
        api_key_url: None,
        icon_url: Some("https://icons.example/gh.png".to_string()),
        documentation_url: None,
        is_active: true,
        created_at: "2024-01-01T00:00:00Z".to_string(),
        updated_at: "2024-01-02T00:00:00Z".to_string(),
    };
    let response = provider_to_response(record);
    assert!(response.has_oauth_config);
    assert_eq!(response.slug, "github");
    assert_eq!(response.default_scopes, Some(vec!["repo".to_string()]));
    assert_eq!(response.icon_url.as_deref(), Some("https://icons.example/gh.png"));
    assert_eq!(delete_provider_response().message, "Provider deactivated and user tokens revoked");
    assert_eq!(preference_owner(Some("org-1".to_string()), "me"), "org-1");
    assert_eq!(preference_owner(None, "me"), "me");
}

#[test]
fn provider_slug_errors_are_validation_errors_and_scopes_are_kept() {
    let mut bad = provider("oauth2");
    bad.slug = "Bad--Slug".to_string();
    assert!(validation_message(validate_provider_basics(&bad)).starts_with("slug must contain only"));
    bad.slug = "a".repeat(101);
    assert_eq!(validation_message(validate_provider_basics(&bad)), "slug must be between 1 and 100 characters");

    let mut oauth = provider("oauth2");
    oauth.client_id = Some("id".to_string());
    oauth.client_secret = Some("secret".to_string());
    oauth.authorization_url = Some("https://gh.example/authorize".to_string());
    oauth.token_url = Some("https://gh.example/token".to_string());
    oauth.default_scopes = Some(vec!["repo".to_string(), "user".to_string()]);
    let config = provider_type_config(&oauth).ok().unwrap();
    assert_eq!(config.oauth.unwrap().default_scopes, Some(vec!["repo".to_string(), "user".to_string()]));

    let mut device = provider("device_code");
    device.client_id = Some("id".to_string());
    device.authorization_url = Some("https://d.example/authorize".to_string());
    device.token_url = Some("https://d.example/token".to_string());
    device.device_code_url = Some("https://d.example/code".to_string());
    device.device_token_url = Some("https://d.example/device-token".to_string());
    device.default_scopes = Some(vec!["read".to_string()]);
    let config = provider_type_config(&device).ok().unwrap();
    assert_eq!(config.device_code.unwrap().default_scopes, Some(vec!["read".to_string()]));
}

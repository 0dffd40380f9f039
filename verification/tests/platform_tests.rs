use nyxid_handlers::errors::{AppError, AuthMethod};
use nyxid_handlers::platform_ops::{
    agent_key_verdict, call_and_say_form_body, platform_spend_caller_class, execution_owner_id, approval_subject, approval_verdict, audit_outcome, own_connection_owner,
    platform_ops_enabled, AuthContext, PlatformOperationCaller, call_and_say_estimated_seconds, call_completion,
    daily_limit_for, discovery_source, execution_refusal, failure_settles, metered_step,
    operation_billable, platform_caller_class, platform_tool_credential_sentence,
    spend_scope_check, unreadable_response_cleanup, ApprovalOutcome, AttemptFailure,
    CallCompletion, CallerClassCheck, CredentialIntent, CredentialResolution, ExecutionTargetKind,
    MeteredAction, MeteredCleanup, MeteredEvent, MeteredStage, OperationBilling,
    OwnConnectionMetadata, PlatformCredentialSource, PlatformUnavailableReason, PricingComponent,
};
use nyxid_handlers::platform_preferences::ensure_human_owner;

#[test]
fn audit_payloads_are_metadata_only() {
    let result: Result<(), AppError> = Ok(());
    assert_eq!(audit_outcome(&result), "succeeded");
    let unusable: Result<(), AppError> = Err(AppError::PlatformOperationOwnConnectionUnusable {
        vendor: "X".to_string(),
        detail: "The credential is unavailable.".to_string(),
    });
    assert_eq!(audit_outcome(&unusable), "own_connection_unusable");
    let approval_required: Result<(), AppError> =
        Err(AppError::PlatformOperationApprovalRequired { vendor: "X".to_string() });
    assert_eq!(audit_outcome(&approval_required), "approval_required");
    let invalid_shape: Result<(), AppError> =
        Err(AppError::BadRequest("query must contain between 1 and 512 characters.".to_string()));
    assert_eq!(audit_outcome(&invalid_shape), "rejected");
}

#[test]
fn preference_management_requires_a_human_session() {
    assert!(ensure_human_owner(AuthMethod::Session).is_ok());
    for method in [AuthMethod::ApiKey, AuthMethod::AccessToken] {
        assert!(matches!(ensure_human_owner(method), Err(AppError::Forbidden(_))));
    }
}

#[test]
fn spend_requires_scope_for_tokens_and_keys() {
    assert!(spend_scope_check(AuthMethod::Session, "").is_ok());
    assert!(matches!(spend_scope_check(AuthMethod::AccessToken, "read write"), Err(AppError::Forbidden(_))));
    assert!(spend_scope_check(AuthMethod::ApiKey, "read platform:spend").is_ok());
    assert!(matches!(platform_caller_class(AuthMethod::Relay, None), Err(AppError::Forbidden(_))));
    assert!(matches!(platform_caller_class(AuthMethod::ApiKey, None), Err(AppError::Unauthorized(_))));
    assert!(matches!(
        platform_caller_class(AuthMethod::ApiKey, Some("k1")),
        Ok(CallerClassCheck::AgentKeyRequired(k)) if k == "k1"
    ));
    assert!(matches!(platform_caller_class(AuthMethod::Session, None), Ok(CallerClassCheck::Allowed)));
}

fn connection() -> OwnConnectionMetadata {
    OwnConnectionMetadata {
        user_service_id: "us-1".to_string(),
        slug: "elevenlabs".to_string(),
        label: "My key".to_string(),
        is_active: true,
    }
}

#[test]
fn refused_connections_are_reported_as_own_and_unusable() {
    let r = discovery_source(CredentialResolution::OutOfScope {
        connection: connection(),
        intent: CredentialIntent::Auto,
    });
    assert_eq!(r.credential_source, PlatformCredentialSource::OwnConnection);
    let c = r.own_connection.unwrap();
    assert!(!c.usable);
    assert_eq!(c.reason.as_deref(), Some("out_of_scope"));
    let r = discovery_source(CredentialResolution::Unavailable {
        connection: Some(connection()),
        reason: PlatformUnavailableReason::OwnConnectionDisabled,
        intent: CredentialIntent::Auto,
    });
    assert_eq!(r.credential_source, PlatformCredentialSource::Unavailable);
    assert_eq!(r.own_connection.unwrap().reason.as_deref(), Some("disabled"));
}

fn billing(price: &str) -> OperationBilling {
    OperationBilling {
        metric: "characters".to_string(),
        price_per_unit: price.to_string(),
        secondary: None,
        base_fee_per_call: None,
    }
}

#[test]
fn credential_sentences() {
    let own = CredentialResolution::OwnConnection { connection: connection(), intent: CredentialIntent::Auto };
    assert_eq!(
        platform_tool_credential_sentence(&own, "ElevenLabs", &billing("0"), true, "", None),
        "Uses your connected ElevenLabs account."
    );
    let platform = CredentialResolution::Platform {
        intent: CredentialIntent::Auto,
        fallback_reason: nyxid_handlers::platform_ops::PlatformFallbackReason::OwnCredentialAbsent,
    };
    let voices = vec!["v1".to_string(), "v2".to_string()];
    assert_eq!(
        platform_tool_credential_sentence(&platform, "ElevenLabs", &billing("0"), true, "", Some(&voices)),
        "Uses the platform credential (free). Allowed voice ids: v1, v2."
    );
    assert_eq!(
        platform_tool_credential_sentence(&platform, "ElevenLabs", &billing("2"), true, "2 credits / 1k chars", None),
        "Uses the platform credential (2 credits / 1k chars)."
    );
    assert_eq!(
        platform_tool_credential_sentence(&platform, "ElevenLabs", &billing("2"), false, "2", None),
        "Uses the platform credential (free)."
    );
    let mut with_fee = billing("0");
    with_fee.secondary = Some(PricingComponent { metric: "seconds".to_string(), price_per_unit: "1".to_string() });
    assert!(operation_billable(&with_fee, true));
    assert!(!operation_billable(&billing("0"), true));
}

#[test]
fn execution_refusals_and_approval_subjects() {
    let routed = CredentialResolution::NodeRouted { connection: connection(), intent: CredentialIntent::Auto };
    assert!(matches!(
        execution_refusal(routed, "Twilio"),
        Some(AppError::PlatformOperationOwnConnectionUnsupported { vendor }) if vendor == "Twilio"
    ));
    let unusable = CredentialResolution::Unusable { connection: connection(), intent: CredentialIntent::Auto, error: None };
    assert!(matches!(
        execution_refusal(unusable, "Twilio"),
        Some(AppError::PlatformOperationOwnConnectionUnusable { detail, .. }) if detail == "Reconnect it before retrying."
    ));
    let (owner, service, auto) = approval_subject(
        &ExecutionTargetKind::Platform { billing_owner_id: "org".to_string() },
        "cat-1",
    );
    assert_eq!((owner.as_str(), service.as_str(), auto), ("org", "cat-1", false));
    assert!(daily_limit_for(PlatformCredentialSource::OwnConnection, "20260101", 5).is_none());
    assert_eq!(daily_limit_for(PlatformCredentialSource::Platform, "20260101", 5).unwrap().cap, 5);
}

#[test]
fn metered_platform_call_walks_every_stage() {
    let mut stage = MeteredStage::Approval;
    let mut seen = vec![stage];
    let first = metered_step(stage, true, MeteredEvent::Approval(ApprovalOutcome::Allowed));
    assert_eq!(first, MeteredAction::Continue(MeteredStage::RateLimit));
    stage = MeteredStage::RateLimit;
    while stage != MeteredStage::VendorCheck {
        seen.push(stage);
        match metered_step(stage, true, MeteredEvent::Step(true)) {
            MeteredAction::Continue(next) => stage = next,
            other => panic!("unexpected {:?}", other),
        }
    }
    seen.push(stage);
    assert_eq!(seen.len(), 10);
    assert_eq!(
        metered_step(stage, true, MeteredEvent::VendorAnswer { success: true, server_error: false }),
        MeteredAction::Forwarded
    );
}

#[test]
fn metered_failures_release_or_settle() {
    assert_eq!(
        metered_step(MeteredStage::Approval, false, MeteredEvent::Approval(ApprovalOutcome::Allowed)),
        MeteredAction::Continue(MeteredStage::MarkForwarded)
    );
    assert_eq!(
        metered_step(MeteredStage::Approval, true, MeteredEvent::Approval(ApprovalOutcome::NeedsApproval)),
        MeteredAction::Stop(MeteredCleanup::Nothing)
    );
    assert_eq!(
        metered_step(MeteredStage::DailyReservation, true, MeteredEvent::Step(false)),
        MeteredAction::Stop(MeteredCleanup::ReleaseSpend)
    );
    assert_eq!(
        metered_step(MeteredStage::BillingOpen, true, MeteredEvent::Step(false)),
        MeteredAction::Stop(MeteredCleanup::ReleaseLimits)
    );
    assert_eq!(
        metered_step(MeteredStage::Materialize, true, MeteredEvent::Step(false)),
        MeteredAction::Stop(MeteredCleanup::FailAttempt(AttemptFailure::CredentialUnavailable))
    );
    assert_eq!(
        metered_step(MeteredStage::Forward, false, MeteredEvent::Step(false)),
        MeteredAction::Stop(MeteredCleanup::FailAttempt(AttemptFailure::VendorRequestFailed))
    );
    let five_xx = MeteredEvent::VendorAnswer { success: false, server_error: true };
    assert_eq!(metered_step(MeteredStage::VendorCheck, true, five_xx), MeteredAction::Stop(MeteredCleanup::Settle));
    let five_xx = MeteredEvent::VendorAnswer { success: false, server_error: true };
    assert_eq!(
        metered_step(MeteredStage::VendorCheck, false, five_xx),
        MeteredAction::Stop(MeteredCleanup::FailAttempt(AttemptFailure::VendorNonSuccess))
    );
    assert_eq!(AttemptFailure::VendorNonSuccess.as_str(), "vendor_non_success");
    assert_eq!(unreadable_response_cleanup(true), MeteredCleanup::Settle);
    assert_eq!(
        unreadable_response_cleanup(false),
        MeteredCleanup::FailAttempt(AttemptFailure::VendorResponseInvalid)
    );
    assert!(failure_settles(true, true));
    assert!(!failure_settles(false, true));
    assert_eq!(call_and_say_estimated_seconds(30, 120), 30);
    assert_eq!(call_and_say_estimated_seconds(600, 120), 120);
    assert_eq!(call_completion(true, true), CallCompletion::DeferToCallEnd);
    assert_eq!(call_completion(true, false), CallCompletion::SettleEstimateAndFail);
    assert_eq!(call_completion(false, false), CallCompletion::SettleWithoutSeconds);
}

fn api_key_context() -> AuthContext {
    AuthContext {
        user_id: "u1".to_string(),
        resolution_user_id: "org1".to_string(),
        api_key_id: Some("k1".to_string()),
        auth_method: AuthMethod::ApiKey,
        acting_client_id: None,
        allow_all_services: false,
        allowed_service_ids: vec!["s1".to_string()],
        scope: "platform:spend".to_string(),
    }
}

#[test]
fn platform_callers_and_verdicts() {
    let caller = PlatformOperationCaller::from_auth_user(&api_key_context());
    assert_eq!(caller.actor_user_id, "u1");
    assert_eq!(caller.resolution_user_id, "org1");
    assert_eq!(caller.approval_requester_type(), Some("api_key"));
    assert_eq!(caller.approval_requester_id(), "u1");
    let resolution = caller.credential_caller();
    assert!(!resolution.bypass_approval_flow);
    assert_eq!(resolution.allowed_service_ids, vec!["s1".to_string()]);

    let mut session = api_key_context();
    session.auth_method = AuthMethod::Session;
    session.acting_client_id = Some("client-9".to_string());
    let caller = PlatformOperationCaller::from_auth_user(&session);
    assert_eq!(caller.approval_requester_type(), None);
    assert_eq!(caller.approval_requester_id(), "client-9");
    assert!(caller.credential_caller().bypass_approval_flow);

    assert!(agent_key_verdict(true).is_ok());
    assert!(matches!(agent_key_verdict(false), Err(AppError::Forbidden(m)) if m.contains("nyxid_ag_")));
    assert!(approval_verdict(ApprovalOutcome::Allowed, "Twilio").is_ok());
    assert!(matches!(approval_verdict(ApprovalOutcome::Denied, "Twilio"), Err(AppError::Forbidden(m)) if m == "Operation denied by approval policy"));
    assert!(matches!(
        approval_verdict(ApprovalOutcome::NeedsApproval, "Twilio"),
        Err(AppError::PlatformOperationApprovalRequired { vendor }) if vendor == "Twilio"
    ));
    let features = vec!["other".to_string(), "platform_services".to_string()];
    assert!(platform_ops_enabled(&features, "platform_services").is_ok());
    assert!(matches!(platform_ops_enabled(&features[..1], "platform_services"), Err(AppError::NotFound(_))));
    assert_eq!(own_connection_owner(Some("org".to_string()), "me"), "org");
    assert_eq!(own_connection_owner(None, "me"), "me");
}

#[test]
fn call_forms_and_execution_owners() {
    let form = vec![
        ("To".to_string(), "+6512345678".to_string()),
        ("Twiml".to_string(), "<Response><Say>hi there</Say></Response>".to_string()),
        ("TimeLimit".to_string(), "600".to_string()),
    ];
    assert_eq!(
        call_and_say_form_body(&form),
        "To=%2B6512345678&Twiml=%3CResponse%3E%3CSay%3Ehi+there%3C%2FSay%3E%3C%2FResponse%3E&TimeLimit=600"
    );
    assert_eq!(call_and_say_form_body(&[]), "");
    let caller = PlatformOperationCaller::from_auth_user(&api_key_context());
    let own = ExecutionTargetKind::OwnConnection {
        service_owner_id: "org-owner".to_string(),
        user_service_id: "us-1".to_string(),
        is_auto_connected: false,
    };
    assert_eq!(execution_owner_id(&own, &caller), "org1");
    let platform = ExecutionTargetKind::Platform { billing_owner_id: "payer".to_string() };
    assert_eq!(execution_owner_id(&platform, &caller), "payer");
}

#[test]
fn spend_scope_is_checked_before_the_caller_class() {
    assert!(matches!(
        platform_spend_caller_class(AuthMethod::ApiKey, "read", None),
        Err(AppError::Forbidden(m)) if m.contains("platform:spend")
    ));
    assert!(matches!(
        platform_spend_caller_class(AuthMethod::ApiKey, "read platform:spend", None),
        Err(AppError::Unauthorized(m)) if m == "Agent API key identity is missing"
    ));
    assert!(matches!(
        platform_spend_caller_class(AuthMethod::ApiKey, "platform:spend", Some("k1")),
        Ok(CallerClassCheck::AgentKeyRequired(id)) if id == "k1"
    ));
    assert!(matches!(platform_spend_caller_class(AuthMethod::Session, "", None), Ok(CallerClassCheck::Allowed)));
    assert!(matches!(
        platform_spend_caller_class(AuthMethod::Delegated, "", None),
        Err(AppError::Forbidden(m)) if m == "This token type cannot access platform operations."
    ));
}

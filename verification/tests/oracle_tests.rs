use base64::Engine as _;
use nyxid_handlers::errors::AppError;
use nyxid_handlers::oracle::{
    ack_response, binding_info, heartbeat_response, WorkerCommandDto, binding_requires_upgrade, command_bundle, command_info,
    decimal_text, decode_login_snapshot_envelope, login_envelope_needed, login_snapshot_response,
    parse_command, poll_response, requested_worker_label, result_response, supports_commands,
    transcript_response, unbound_login_response, worker_bearer_token, worker_info, AckOutcome,
    LoginBinding, PollTaskResponse, ResultOutcome, TranscriptOutcome, WorkerBundle,
    WorkerCommandKind, WorkerCommandRecord, WorkerCommandStatus, WorkerDesiredState, WorkerRecord,
    WorkerTaskPayload,
};

/// Largest Base64 envelope these tests accept.
const MAX_LOGIN_SNAPSHOT_BASE64_CHARS: usize = 4096;

#[test]
fn manager_command_parser_rejects_internal_session_import() {
    assert!(parse_command("drain").is_ok());
    assert!(parse_command("session_import").is_err());
    assert!(parse_command("unknown").is_err());
}

#[test]
fn login_snapshot_rejects_oversized_base64_before_decoding() {
    let oversized = "!".repeat(MAX_LOGIN_SNAPSHOT_BASE64_CHARS + 1);
    assert!(matches!(
        decode_login_snapshot_envelope(&oversized, MAX_LOGIN_SNAPSHOT_BASE64_CHARS),
        Err(AppError::OraclePayloadTooLarge(_))
    ));
    assert!(matches!(
        decode_login_snapshot_envelope("not base64", MAX_LOGIN_SNAPSHOT_BASE64_CHARS),
        Err(AppError::ValidationError(_))
    ));
}

#[test]
fn login_snapshot_size_message_and_valid_decode() {
    match decode_login_snapshot_envelope("AAAAAA==", 4) {
        Err(AppError::OraclePayloadTooLarge(m)) => {
            assert_eq!(m, "login snapshot must be at most 4 base64 characters")
        }
        _ => panic!("expected payload too large"),
    }
    let encoded = base64::engine::general_purpose::STANDARD.encode([1u8, 2, 3, 250]);
    assert_eq!(
        decode_login_snapshot_envelope(&encoded, MAX_LOGIN_SNAPSHOT_BASE64_CHARS).unwrap(),
        vec![1u8, 2, 3, 250]
    );
}

#[test]
fn decimal_text_matches_display() {
    for n in [0u64, 7, 10, 99, 100, 4096, 18_446_744_073_709_551_615] {
        assert_eq!(decimal_text(n), n.to_string());
    }
}

#[test]
fn command_names_round_trip() {
    for name in ["drain", "resume", "restart", "relaunch_browser", "relogin", "upgrade"] {
        assert_eq!(parse_command(name).unwrap().as_str(), name);
    }
    assert_eq!(WorkerCommandKind::SessionImport.as_str(), "session_import");
}

#[test]
fn poll_response_wire_format() {
    match poll_response(None, Some("https://chatgpt.com/g/g-p-x/project".to_string())) {
        PollTaskResponse::Idle { required_project_url } => assert_eq!(
            required_project_url.as_deref(),
            Some("https://chatgpt.com/g/g-p-x/project")
        ),
        PollTaskResponse::Task { .. } => panic!("expected idle"),
    }
    let task = WorkerTaskPayload {
        task_id: "t1".to_string(),
        attempts: 1,
        retry_count: 0,
        max_retries: 3,
        dispatch_attempt_id: Some("attempt-1".to_string()),
        kind: "prompt".to_string(),
        prompt: "p".to_string(),
        target_url: None,
        conversation_id: Some("conv_1".to_string()),
        conversation_url: None,
        is_followup: false,
        model: Some("chatgpt-5.5-pro".to_string()),
        tag: None,
        pdf_base64: None,
        pdf_name: None,
        attachment_base64: None,
        attachment_name: None,
        required_project_url: None,
        assigned_worker: "tab_1".to_string(),
        submitted_at: "2026-06-11T00:00:00Z".to_string(),
    };
    match poll_response(Some(task), None) {
        PollTaskResponse::Task { task } => {
            assert_eq!(task.task_id, "t1");
            assert_eq!(task.assigned_worker, "tab_1");
            assert!(!task.is_followup);
        }
        PollTaskResponse::Idle { .. } => panic!("expected task"),
    }
}

#[test]
fn worker_token_is_read_from_bearer_header() {
    assert_eq!(worker_bearer_token(Some(b"Bearer nyx_owk_abc")).unwrap(), "nyx_owk_abc");
    assert!(matches!(worker_bearer_token(Some(b"Basic abc")), Err(AppError::OracleWorkerTokenInvalid)));
    assert!(matches!(worker_bearer_token(None), Err(AppError::OracleWorkerTokenInvalid)));
    assert!(matches!(worker_bearer_token(Some(&[0x42, 0xff])), Err(AppError::OracleWorkerTokenInvalid)));
}

fn worker(last_seen_at_ms: i64) -> WorkerRecord {
    WorkerRecord {
        worker_label: "tab_1".to_string(),
        last_seen_at_ms,
        last_seen_at: "2026-01-01T00:00:00+00:00".to_string(),
        script_version: None,
        platform: Some("mac".to_string()),
        logged_in: Some(true),
        current_task_id: None,
        chrome_alive: None,
        desired_state: WorkerDesiredState::Draining,
        last_error: None,
        capabilities: vec!["commands_v1".to_string()],
        provisioned_at: None,
    }
}

#[test]
fn worker_online_within_ninety_seconds() {
    let now = 1_000_000_000;
    let info = worker_info(worker(now - 90_999), now);
    assert_eq!(info.last_seen_secs_ago, 90);
    assert!(info.online);
    assert_eq!(info.desired_state, "draining");
    let info = worker_info(worker(now - 91_000), now);
    assert_eq!(info.last_seen_secs_ago, 91);
    assert!(!info.online);
    let info = worker_info(worker(now + 5_000), now);
    assert_eq!(info.last_seen_secs_ago, 0);
    assert!(info.online);
    assert!(supports_commands(&info.capabilities));
}

#[test]
fn command_info_names_kind_and_status() {
    let info = command_info(WorkerCommandRecord {
        id: "cmd".to_string(),
        worker_label: "tab_1".to_string(),
        kind: WorkerCommandKind::RelaunchBrowser,
        status: WorkerCommandStatus::Delivered,
        delivery_count: 2,
        result_code: None,
        snapshot_id: None,
        bundle_version: None,
        bundle_sha256: None,
        created_at: "c".to_string(),
        completed_at: None,
        deadline_at: "d".to_string(),
    });
    assert_eq!(info.command, "relaunch_browser");
    assert_eq!(info.status, "delivered");
    assert_eq!(info.delivery_count, 2);
}

#[test]
fn login_envelope_only_for_available_new_revisions() {
    assert!(login_envelope_needed("available", None, "r2"));
    assert!(login_envelope_needed("available", Some("r1"), "r2"));
    assert!(!login_envelope_needed("available", Some("r2"), "r2"));
    assert!(!login_envelope_needed("expired", None, "r2"));
    assert_eq!(requested_worker_label(Some("  tab 2 ".to_string())).as_deref(), Some("tab 2"));
    assert!(requested_worker_label(Some("   ".to_string())).is_none());
}

#[test]
fn worker_reply_statuses() {
    assert_eq!(ack_response(AckOutcome::Continue).status, "ok");
    assert_eq!(ack_response(AckOutcome::Cancelled).status, "cancelled");
    assert_eq!(result_response(ResultOutcome::Completed).status, "saved");
    assert_eq!(result_response(ResultOutcome::Failed).status, "saved_failed");
    assert_eq!(result_response(ResultOutcome::Requeued).status, "ignored");
    assert_eq!(result_response(ResultOutcome::Ignored).status, "ignored");
    let imported = transcript_response(TranscriptOutcome::Imported { pairs: 3 });
    assert_eq!((imported.status.as_str(), imported.imported_pairs), ("imported", 3));
    let ignored = transcript_response(TranscriptOutcome::Ignored);
    assert_eq!((ignored.status.as_str(), ignored.imported_pairs), ("ignored", 0));
    let unbound = unbound_login_response();
    assert_eq!(unbound.status, "unbound");
    assert!(unbound.profile.is_none() && unbound.sealed_blob_base64.is_none());
}

#[test]
fn login_snapshots_are_served_base64_encoded() {
    let sealed = [0u8, 1, 2, 250, 251, 252];
    let r = login_snapshot_response(2, &sealed);
    assert_eq!(r.format_version, 2);
    assert_eq!(r.sealed_blob_base64, base64::engine::general_purpose::STANDARD.encode(sealed));
    assert_eq!(r.sealed_blob_base64, "AAEC+vv8");
}

#[test]
fn bindings_and_upgrade_bundles() {
    let caps = vec!["commands".to_string(), "saved-login".to_string()];
    assert!(!binding_requires_upgrade(&caps, "saved-login"));
    assert!(binding_requires_upgrade(&caps[..1], "saved-login"));
    let info = binding_info(
        LoginBinding { binding_id: "b1".to_string(), worker_label: "w1".to_string(), replace_existing: true },
        true,
    );
    assert_eq!((info.binding_id.as_str(), info.worker_label.as_str()), ("b1", "w1"));
    assert!(info.replace_existing && info.requires_upgrade);
    let bundle = WorkerBundle {
        version: "1.2.3".to_string(),
        sha256: "abc".to_string(),
        source: "src".to_string(),
        playwright_core_version: "1.40".to_string(),
    };
    assert_eq!(command_bundle(WorkerCommandKind::Upgrade, &bundle), Some(("1.2.3".to_string(), "abc".to_string())));
    assert_eq!(command_bundle(WorkerCommandKind::Drain, &bundle), None);
}

fn drain_command() -> WorkerCommandDto {
    WorkerCommandDto {
        id: "cmd-1".to_string(),
        command: "drain".to_string(),
        snapshot_id: None,
        bundle_version: None,
        bundle_sha256: None,
        deadline_at: "2026-01-01T00:00:00+00:00".to_string(),
    }
}

#[test]
fn legacy_workers_get_no_commands_in_heartbeats() {
    let legacy = vec!["screenshots".to_string()];
    let r = heartbeat_response(&legacy, Some(drain_command()), vec!["old".to_string()]);
    assert_eq!(r.status, "ok");
    assert!(r.command.is_none());
    assert!(r.cancelled_command_ids.is_empty());
    let current = vec!["commands_v1".to_string()];
    let r = heartbeat_response(&current, Some(drain_command()), vec!["old".to_string()]);
    assert_eq!(r.command.map(|c| c.id), Some("cmd-1".to_string()));
    assert_eq!(r.cancelled_command_ids, vec!["old".to_string()]);
}

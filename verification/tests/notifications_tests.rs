use nyxid_handlers::notifications::{
    explicitly_enables_approval_without_active_channel, has_enabled_notification_channel_after_update,
    to_settings_response, validate_settings_update, apply_settings_update, disconnect_telegram,
    disconnect_message, generate_link_code, start_telegram_link, telegram_link_response,
    telegram_was_linked, NotificationChannel, NotificationSettingsAuthorizationEvidenceResponse,
    PushDevice, UpdateNotificationSettingsRequest,
};
use nyxid_handlers::errors::AppError;

const NOW: i64 = 1_700_000_000;

fn make_channel() -> NotificationChannel {
    NotificationChannel {
        id: "channel-1".to_string(),
        telegram_chat_id: None,
        telegram_username: None,
        telegram_enabled: false,
        telegram_link_code: None,
        telegram_link_code_expires_at: None,
        approval_timeout_secs: 30,
        grant_expiry_days: 30,
        approval_required: false,
        push_enabled: false,
        push_devices: vec![],
        updated_at: "2024-01-01T00:00:00+00:00".to_string(),
    }
}

fn device(id: &str, platform: &str, token: &str) -> PushDevice {
    PushDevice { device_id: id.to_string(), platform: platform.to_string(), token: token.to_string() }
}

fn empty_body() -> UpdateNotificationSettingsRequest {
    UpdateNotificationSettingsRequest {
        telegram_enabled: None,
        approval_required: None,
        approval_timeout_secs: None,
        grant_expiry_days: None,
        push_enabled: None,
    }
}

#[test]
fn allows_approval_when_push_is_enabled_with_registered_device() {
    let mut channel = make_channel();
    channel.push_devices.push(device("d", "fcm", "token"));
    let body = UpdateNotificationSettingsRequest {
        telegram_enabled: None,
        approval_required: Some(true),
        approval_timeout_secs: None,
        grant_expiry_days: None,
        push_enabled: Some(true),
    };
    assert!(!explicitly_enables_approval_without_active_channel(&channel, &body));
}

#[test]
fn allows_disabling_last_channel_while_approval_preference_stays_enabled() {
    let mut channel = make_channel();
    channel.push_enabled = true;
    channel.approval_required = true;
    channel.push_devices.push(device("d", "fcm", "token"));
    let body = UpdateNotificationSettingsRequest {
        telegram_enabled: None,
        approval_required: Some(true),
        approval_timeout_secs: None,
        grant_expiry_days: None,
        push_enabled: Some(false),
    };
    assert!(!has_enabled_notification_channel_after_update(&channel, &body));
    assert!(!explicitly_enables_approval_without_active_channel(&channel, &body));
}

#[test]
fn allows_disabling_approval_and_last_channel_together() {
    let mut channel = make_channel();
    channel.push_enabled = true;
    channel.approval_required = true;
    channel.push_devices.push(device("d", "fcm", "token"));
    let body = UpdateNotificationSettingsRequest {
        telegram_enabled: None,
        approval_required: Some(false),
        approval_timeout_secs: None,
        grant_expiry_days: None,
        push_enabled: Some(false),
    };
    assert!(!body.approval_required.unwrap());
    assert!(!has_enabled_notification_channel_after_update(&channel, &body));
    assert!(!explicitly_enables_approval_without_active_channel(&channel, &body));
}

#[test]
fn rejects_explicit_approval_enable_without_active_channel() {
    let channel = make_channel();
    let body = UpdateNotificationSettingsRequest {
        telegram_enabled: None,
        approval_required: Some(true),
        approval_timeout_secs: None,
        grant_expiry_days: None,
        push_enabled: None,
    };
    assert!(explicitly_enables_approval_without_active_channel(&channel, &body));
}

#[test]
fn to_settings_response_defaults_with_no_telegram_and_no_push() {
    let channel = make_channel();
    let resp = to_settings_response(&channel, NOW);
    assert!(!resp.telegram_connected);
    assert!(resp.telegram_username.is_none());
    assert!(!resp.telegram_enabled);
    assert!(!resp.approval_required);
    assert!(!resp.approval_suspended);
    assert_eq!(resp.approval_timeout_secs, 30);
    assert_eq!(resp.grant_expiry_days, 30);
    assert!(!resp.push_enabled);
    assert_eq!(resp.push_device_count, 0);
}

#[test]
fn to_settings_response_with_telegram_connected() {
    let mut channel = make_channel();
    channel.telegram_chat_id = Some(12345);
    channel.telegram_username = Some("testuser".to_string());
    channel.telegram_enabled = true;
    let resp = to_settings_response(&channel, NOW);
    assert!(resp.telegram_connected);
    assert_eq!(resp.telegram_username.as_deref(), Some("testuser"));
    assert!(resp.telegram_enabled);
}

#[test]
fn to_settings_response_counts_push_devices() {
    let mut channel = make_channel();
    channel.push_enabled = true;
    for i in 0..3 {
        channel.push_devices.push(device(&format!("device-{i}"), "fcm", &format!("token-{i}")));
    }
    let resp = to_settings_response(&channel, NOW);
    assert!(resp.push_enabled);
    assert_eq!(resp.push_device_count, 3);
}

#[test]
fn to_settings_response_with_custom_approval_settings() {
    let mut channel = make_channel();
    channel.approval_required = true;
    channel.approval_timeout_secs = 120;
    channel.grant_expiry_days = 7;
    let resp = to_settings_response(&channel, NOW);
    assert!(resp.approval_required);
    assert!(resp.approval_suspended);
    assert_eq!(resp.approval_timeout_secs, 120);
    assert_eq!(resp.grant_expiry_days, 7);
}

#[test]
fn notification_authorization_projection_omits_telegram_username() {
    let mut channel = make_channel();
    channel.telegram_chat_id = Some(42);
    channel.telegram_username = Some("Bearer nyxid_ag_abcdefghijklmnop".to_string());
    let detail = to_settings_response(&channel, NOW);
    let evidence = NotificationSettingsAuthorizationEvidenceResponse::from_settings_response(&detail);
    // The evidence type has no username field at all; every text it holds is
    // free of the username.
    assert!(!evidence.id.contains("nyxid_"));
    assert!(!evidence.updated_at.contains("nyxid_"));
    assert_eq!(evidence.id, channel.id);
    assert!(evidence.telegram_connected);
}

#[test]
fn has_enabled_channel_telegram_connected_and_enabled() {
    let mut channel = make_channel();
    channel.telegram_chat_id = Some(12345);
    channel.telegram_enabled = true;
    assert!(has_enabled_notification_channel_after_update(&channel, &empty_body()));
}

#[test]
fn has_enabled_channel_telegram_enabled_but_not_connected() {
    let mut channel = make_channel();
    channel.telegram_chat_id = None;
    channel.telegram_enabled = true;
    assert!(!has_enabled_notification_channel_after_update(&channel, &empty_body()));
}

#[test]
fn has_enabled_channel_push_enabled_but_no_devices() {
    let mut channel = make_channel();
    channel.push_enabled = true;
    assert!(!has_enabled_notification_channel_after_update(&channel, &empty_body()));
}

#[test]
fn has_enabled_channel_both_channels_active() {
    let mut channel = make_channel();
    channel.telegram_chat_id = Some(12345);
    channel.telegram_enabled = true;
    channel.push_enabled = true;
    channel.push_devices.push(device("d1", "apns", "tok1"));
    assert!(has_enabled_notification_channel_after_update(&channel, &empty_body()));
}

#[test]
fn has_enabled_channel_body_overrides_take_precedence() {
    let mut channel = make_channel();
    channel.telegram_chat_id = Some(12345);
    channel.telegram_enabled = true;
    let mut body = empty_body();
    body.telegram_enabled = Some(false);
    assert!(!has_enabled_notification_channel_after_update(&channel, &body));
}

#[test]
fn has_enabled_channel_body_enables_telegram_on_connected_channel() {
    let mut channel = make_channel();
    channel.telegram_chat_id = Some(12345);
    channel.telegram_enabled = false;
    let mut body = empty_body();
    body.telegram_enabled = Some(true);
    assert!(has_enabled_notification_channel_after_update(&channel, &body));
}

#[test]
fn settings_update_rejects_out_of_range_timeout_and_expiry() {
    let channel = make_channel();
    let mut body = empty_body();
    body.approval_timeout_secs = Some(5);
    assert!(matches!(validate_settings_update(&channel, &body), Err(AppError::ValidationError(_))));
    let mut body = empty_body();
    body.grant_expiry_days = Some(366);
    assert!(matches!(validate_settings_update(&channel, &body), Err(AppError::ValidationError(_))));
    let mut body = empty_body();
    body.telegram_enabled = Some(true);
    assert!(matches!(validate_settings_update(&channel, &body), Err(AppError::BadRequest(_))));
    let mut body = empty_body();
    body.push_enabled = Some(true);
    assert!(matches!(validate_settings_update(&channel, &body), Err(AppError::BadRequest(_))));
    let mut body = empty_body();
    body.approval_timeout_secs = Some(300);
    body.grant_expiry_days = Some(1);
    assert!(validate_settings_update(&channel, &body).is_ok());
}

#[test]
fn accepted_update_is_written_field_by_field() {
    let mut channel = make_channel();
    channel.telegram_chat_id = Some(7);
    let mut body = empty_body();
    body.telegram_enabled = Some(true);
    body.approval_required = Some(true);
    body.approval_timeout_secs = Some(60);
    assert!(validate_settings_update(&channel, &body).is_ok());
    apply_settings_update(&mut channel, &body, "2024-02-02T00:00:00+00:00".to_string());
    assert!(channel.telegram_enabled);
    assert!(channel.approval_required);
    assert_eq!(channel.approval_timeout_secs, 60);
    assert_eq!(channel.grant_expiry_days, 30);
    let resp = to_settings_response(&channel, NOW);
    assert!(!resp.approval_suspended);
}

#[test]
fn disconnect_clears_link_and_suspends_approval_without_other_channel() {
    let mut channel = make_channel();
    channel.telegram_chat_id = Some(7);
    channel.telegram_username = Some("alice".to_string());
    channel.telegram_enabled = true;
    channel.approval_required = true;
    disconnect_telegram(&mut channel, "2024-03-03T00:00:00+00:00".to_string());
    let resp = to_settings_response(&channel, NOW);
    assert!(!resp.telegram_connected);
    assert!(resp.telegram_username.is_none());
    assert!(resp.approval_suspended);
}

#[test]
fn link_codes_have_the_nyxid_shape() {
    let code = generate_link_code();
    assert_eq!(code.len(), 14);
    assert!(code.starts_with("NYXID-"));
    assert!(code[6..].chars().all(|c| c.is_ascii_digit() || c.is_ascii_uppercase()));
}

#[test]
fn telegram_link_flow_messages() {
    let mut channel = make_channel();
    start_telegram_link(&mut channel, "NYXID-ABCDEFGH".to_string(), NOW, "2024-02-02T00:00:00+00:00".to_string());
    assert_eq!(channel.telegram_link_code.as_deref(), Some("NYXID-ABCDEFGH"));
    assert_eq!(channel.telegram_link_code_expires_at, Some(NOW + 300));
    assert_eq!(channel.updated_at, "2024-02-02T00:00:00+00:00");
    assert!(!telegram_was_linked(&channel));
    channel.telegram_chat_id = Some(9);
    assert!(telegram_was_linked(&channel));

    let default_bot = telegram_link_response("NYXID-ABCDEFGH".to_string(), None);
    assert_eq!(default_bot.bot_username, "NyxIDBot");
    assert_eq!(default_bot.expires_in_secs, 300);
    assert_eq!(default_bot.instructions, "Send /start NYXID-ABCDEFGH to @NyxIDBot on Telegram");
    let custom = telegram_link_response("NYXID-00000000".to_string(), Some("MyBot".to_string()));
    assert_eq!(custom.instructions, "Send /start NYXID-00000000 to @MyBot on Telegram");

    assert_eq!(disconnect_message(false).message, "Telegram disconnected");
    assert!(disconnect_message(true).message.starts_with("Telegram disconnected. Approval protection is suspended"));
}

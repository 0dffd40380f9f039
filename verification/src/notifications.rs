//! Notification settings: the settings projection, the rules an update must
//! pass, the state changes of updates, Telegram linking and unlinking.
use vstd::prelude::*;
use crate::errors::AppError;
use crate::encoding::random_below;
use crate::text::string_of;

verus! {

/// A registered push device.
pub struct PushDevice {
    pub device_id: String,
    pub platform: String,
    pub token: String,
}

/// A user's notification channel, as stored. Timestamps are Unix seconds;
/// `updated_at` is already rendered as RFC 3339.
pub struct NotificationChannel {
    pub id: String,
    pub telegram_chat_id: Option<i64>,
    pub telegram_username: Option<String>,
    pub telegram_enabled: bool,
    pub telegram_link_code: Option<String>,
    pub telegram_link_code_expires_at: Option<i64>,
    pub approval_timeout_secs: u32,
    pub grant_expiry_days: u32,
    pub approval_required: bool,
    pub push_enabled: bool,
    pub push_devices: Vec<PushDevice>,
    pub updated_at: String,
}

pub struct NotificationSettingsResponse {
    pub id: String,
    pub telegram_connected: bool,
    pub telegram_link_pending: bool,
    pub telegram_username: Option<String>,
    pub telegram_enabled: bool,
    pub approval_required: bool,
    pub approval_suspended: bool,
    pub approval_timeout_secs: u32,
    pub grant_expiry_days: u32,
    pub push_enabled: bool,
    pub push_device_count: usize,
    pub updated_at: String,
}

/// Authorization evidence for the notification settings: the detail response
/// without the upstream Telegram username.
pub struct NotificationSettingsAuthorizationEvidenceResponse {
    pub id: String,
    pub telegram_connected: bool,
    pub telegram_link_pending: bool,
    pub telegram_enabled: bool,
    pub approval_required: bool,
    pub approval_timeout_secs: u32,
    pub grant_expiry_days: u32,
    pub push_enabled: bool,
    pub push_device_count: usize,
    pub updated_at: String,
}

pub struct UpdateNotificationSettingsRequest {
    pub telegram_enabled: Option<bool>,
    pub approval_required: Option<bool>,
    pub approval_timeout_secs: Option<u32>,
    pub grant_expiry_days: Option<u32>,
    pub push_enabled: Option<bool>,
}

pub struct TelegramLinkResponse {
    pub link_code: String,
    pub bot_username: String,
    pub expires_in_secs: u32,
    pub instructions: String,
}

pub struct MessageResponse {
    pub message: String,
}

/// Seconds a Telegram link code stays valid.
pub const TELEGRAM_LINK_TTL_SECS: u32 = 300;

/// A channel can deliver notifications: Telegram is enabled and linked, or
/// push is enabled with at least one device.
pub open spec fn spec_has_active_channel(c: NotificationChannel) -> bool {
    (c.telegram_enabled && c.telegram_chat_id is Some) || (c.push_enabled && c.push_devices@.len()
        > 0)
}

/// The settings detail of a channel at time `now`.
pub open spec fn spec_settings_response(c: NotificationChannel, now: i64) -> NotificationSettingsResponse {
    NotificationSettingsResponse {
        id: c.id,
        telegram_connected: c.telegram_chat_id is Some,
        telegram_link_pending: c.telegram_link_code is Some && (c.telegram_link_code_expires_at matches Some(e) && e > now),
        telegram_username: c.telegram_username,
        telegram_enabled: c.telegram_enabled,
        approval_required: c.approval_required,
        approval_suspended: c.approval_required && !spec_has_active_channel(c),
        approval_timeout_secs: c.approval_timeout_secs,
        grant_expiry_days: c.grant_expiry_days,
        push_enabled: c.push_enabled,
        push_device_count: c.push_devices@.len() as usize,
        updated_at: c.updated_at,
    }
}

pub open spec fn opt_or(o: Option<bool>, d: bool) -> bool {
    match o {
        Some(v) => v,
        None => d,
    }
}

/// Whether some channel is enabled and usable once `body` is applied.
pub open spec fn spec_active_after_update(c: NotificationChannel, body: UpdateNotificationSettingsRequest) -> bool {
    (opt_or(body.telegram_enabled, c.telegram_enabled) && c.telegram_chat_id is Some) || (opt_or(
        body.push_enabled,
        c.push_enabled,
    ) && c.push_devices@.len() > 0)
}

/// Whether `body` turns approval protection on while no channel would be able
/// to deliver the approval requests.
pub open spec fn spec_enables_approval_without_channel(c: NotificationChannel, body: UpdateNotificationSettingsRequest) -> bool {
    !c.approval_required && body.approval_required == Some(true) && !spec_active_after_update(
        c,
        body,
    )
}

/// Why `update_settings` refuses a request, in the order it checks.
pub enum SettingsRejection {
    TimeoutOutOfRange,
    ExpiryOutOfRange,
    TelegramNotLinked,
    NoPushDevice,
    ApprovalWithoutChannel,
}

/// The first rule that `body` breaks against the stored channel, if any.
pub open spec fn spec_rejection(c: NotificationChannel, body: UpdateNotificationSettingsRequest) -> Option<SettingsRejection> {
    if body.approval_timeout_secs matches Some(t) && !(10 <= t && t <= 300) {
        Some(SettingsRejection::TimeoutOutOfRange)
    } else if body.grant_expiry_days matches Some(d) && !(1 <= d && d <= 365) {
        Some(SettingsRejection::ExpiryOutOfRange)
    } else if body.telegram_enabled == Some(true) && c.telegram_chat_id is None {
        Some(SettingsRejection::TelegramNotLinked)
    } else if body.push_enabled == Some(true) && c.push_devices@.len() == 0 {
        Some(SettingsRejection::NoPushDevice)
    } else if spec_enables_approval_without_channel(c, body) {
        Some(SettingsRejection::ApprovalWithoutChannel)
    } else {
        None
    }
}

/// The error answered for a rejection: its kind and its message.
pub open spec fn is_rejection_error(e: AppError, r: SettingsRejection) -> bool {
    match r {
        SettingsRejection::TimeoutOutOfRange => e matches AppError::ValidationError(m) && m@
            == "approval_timeout_secs must be between 10 and 300"@,
        SettingsRejection::ExpiryOutOfRange => e matches AppError::ValidationError(m) && m@
            == "grant_expiry_days must be between 1 and 365"@,
        SettingsRejection::TelegramNotLinked => e matches AppError::BadRequest(m) && m@
            == "Cannot enable Telegram notifications without linking your Telegram account first"@,
        SettingsRejection::NoPushDevice => e matches AppError::BadRequest(m) && m@
            == "Cannot enable push notifications without registering at least one device first"@,
        SettingsRejection::ApprovalWithoutChannel => e matches AppError::BadRequest(m) && m@
            == "Approval protection requires at least one enabled notification channel. Keep Telegram or push notifications enabled, or disable approval protection first."@,
    }
}

/// The channel after `body` is written to it.
pub open spec fn spec_updated(c: NotificationChannel, body: UpdateNotificationSettingsRequest, updated_at: String) -> NotificationChannel {
    NotificationChannel {
        telegram_enabled: opt_or(body.telegram_enabled, c.telegram_enabled),
        approval_required: opt_or(body.approval_required, c.approval_required),
        approval_timeout_secs: match body.approval_timeout_secs {
            Some(v) => v,
            None => c.approval_timeout_secs,
        },
        grant_expiry_days: match body.grant_expiry_days {
            Some(v) => v,
            None => c.grant_expiry_days,
        },
        push_enabled: opt_or(body.push_enabled, c.push_enabled),
        updated_at,
        ..c
    }
}

/// Whether a channel can deliver notifications: Telegram enabled and linked,
/// or push enabled with a registered device.
pub fn has_active_notification_channel(channel: &NotificationChannel) -> (r: bool)
    ensures
        r == spec_has_active_channel(*channel),
{
    (channel.telegram_enabled && channel.telegram_chat_id.is_some()) || (channel.push_enabled
        && channel.push_devices.len() > 0)
}

/// The settings detail of a stored channel, at time `now` (Unix seconds).
pub fn to_settings_response(channel: &NotificationChannel, now: i64) -> (r: NotificationSettingsResponse)
    ensures
        r == spec_settings_response(*channel, now),
{
    let pending = channel.telegram_link_code.is_some() && match channel.telegram_link_code_expires_at {
        Some(e) => e > now,
        None => false,
    };
    let active = has_active_notification_channel(channel);
    NotificationSettingsResponse {
        id: channel.id.clone(),
        telegram_connected: channel.telegram_chat_id.is_some(),
        telegram_link_pending: pending,
        telegram_username: channel.telegram_username.clone(),
        telegram_enabled: channel.telegram_enabled,
        approval_required: channel.approval_required,
        approval_suspended: channel.approval_required && !active,
        approval_timeout_secs: channel.approval_timeout_secs,
        grant_expiry_days: channel.grant_expiry_days,
        push_enabled: channel.push_enabled,
        push_device_count: channel.push_devices.len(),
        updated_at: channel.updated_at.clone(),
    }
}

impl NotificationSettingsAuthorizationEvidenceResponse {
    /// The detail response without its Telegram username.
    pub fn from_settings_response(response: &NotificationSettingsResponse) -> (r: Self)
        ensures
            r.id@ == response.id@,
            r.telegram_connected == response.telegram_connected,
            r.telegram_link_pending == response.telegram_link_pending,
            r.telegram_enabled == response.telegram_enabled,
            r.approval_required == response.approval_required,
            r.approval_timeout_secs == response.approval_timeout_secs,
            r.grant_expiry_days == response.grant_expiry_days,
            r.push_enabled == response.push_enabled,
            r.push_device_count == response.push_device_count,
            r.updated_at@ == response.updated_at@,
    {
        Self {
            id: response.id.clone(),
            telegram_connected: response.telegram_connected,
            telegram_link_pending: response.telegram_link_pending,
            telegram_enabled: response.telegram_enabled,
            approval_required: response.approval_required,
            approval_timeout_secs: response.approval_timeout_secs,
            grant_expiry_days: response.grant_expiry_days,
            push_enabled: response.push_enabled,
            push_device_count: response.push_device_count,
            updated_at: response.updated_at.clone(),
        }
    }
}

fn bool_or(o: Option<bool>, d: bool) -> (r: bool)
    ensures
        r == opt_or(o, d),
{
    match o {
        Some(v) => v,
        None => d,
    }
}

/// Whether some channel would be enabled and usable after `body` is applied.
pub fn has_enabled_notification_channel_after_update(
    channel: &NotificationChannel,
    body: &UpdateNotificationSettingsRequest,
) -> (r: bool)
    ensures
        r == spec_active_after_update(*channel, *body),
{
    let telegram_enabled = bool_or(body.telegram_enabled, channel.telegram_enabled);
    let push_enabled = bool_or(body.push_enabled, channel.push_enabled);
    (telegram_enabled && channel.telegram_chat_id.is_some()) || (push_enabled
        && channel.push_devices.len() > 0)
}

/// Whether `body` newly requires approval while no channel would deliver it.
pub fn explicitly_enables_approval_without_active_channel(
    channel: &NotificationChannel,
    body: &UpdateNotificationSettingsRequest,
) -> (r: bool)
    ensures
        r == spec_enables_approval_without_channel(*channel, *body),
{
    !channel.approval_required && body.approval_required == Some(true)
        && !has_enabled_notification_channel_after_update(channel, body)
}

/// The checks `PUT /notifications/settings` makes before writing.
pub fn validate_settings_update(
    channel: &NotificationChannel,
    body: &UpdateNotificationSettingsRequest,
) -> (r: Result<(), AppError>)
    ensures
        r is Ok <==> spec_rejection(*channel, *body) is None,
        r matches Err(e) ==> is_rejection_error(e, spec_rejection(*channel, *body)->0),
{
    if let Some(t) = body.approval_timeout_secs {
        if !(10 <= t && t <= 300) {
            return Err(
                AppError::ValidationError(
                    String::from_str("approval_timeout_secs must be between 10 and 300"),
                ),
            );
        }
    }
    if let Some(d) = body.grant_expiry_days {
        if !(1 <= d && d <= 365) {
            return Err(
                AppError::ValidationError(
                    String::from_str("grant_expiry_days must be between 1 and 365"),
                ),
            );
        }
    }
    if body.telegram_enabled == Some(true) && channel.telegram_chat_id.is_none() {
        return Err(
            AppError::BadRequest(
                String::from_str(
                    "Cannot enable Telegram notifications without linking your Telegram account first",
                ),
            ),
        );
    }
    if body.push_enabled == Some(true) && channel.push_devices.len() == 0 {
        return Err(
            AppError::BadRequest(
                String::from_str(
                    "Cannot enable push notifications without registering at least one device first",
                ),
            ),
        );
    }
    if explicitly_enables_approval_without_active_channel(channel, body) {
        return Err(
            AppError::BadRequest(
                String::from_str(
                    "Approval protection requires at least one enabled notification channel. Keep Telegram or push notifications enabled, or disable approval protection first.",
                ),
            ),
        );
    }
    Ok(())
}

/// Writes the fields present in `body`, and the new `updated_at`.
pub fn apply_settings_update(
    channel: &mut NotificationChannel,
    body: &UpdateNotificationSettingsRequest,
    updated_at: String,
)
    ensures
        *final(channel) == spec_updated(*old(channel), *body, updated_at),
{
    if let Some(v) = body.telegram_enabled {
        channel.telegram_enabled = v;
    }
    if let Some(v) = body.approval_required {
        channel.approval_required = v;
    }
    if let Some(v) = body.approval_timeout_secs {
        channel.approval_timeout_secs = v;
    }
    if let Some(v) = body.grant_expiry_days {
        channel.grant_expiry_days = v;
    }
    if let Some(v) = body.push_enabled {
        channel.push_enabled = v;
    }
    channel.updated_at = updated_at;
}

/// Characters a Telegram link code is drawn from: ASCII digits and upper-case letters.
pub open spec fn is_link_code_char(c: char) -> bool {
    ('0' <= c && c <= '9') || ('A' <= c && c <= 'Z')
}

/// A link code: `NYXID-` followed by eight code characters.
pub open spec fn is_link_code(s: Seq<char>) -> bool {
    &&& s.len() == 14
    &&& s.take(6) == "NYXID-"@
    &&& forall|i: int| 6 <= i < 14 ==> is_link_code_char(#[trigger] s[i])
}

/// The code character with index `idx`: `0`–`9`, then `A`–`Z`.
pub open spec fn spec_link_code_char(idx: u8) -> char {
    if idx < 10 {
        (48 + idx) as char
    } else {
        (55 + idx) as char
    }
}

/// The code character with index `idx` (below 36).
pub fn link_code_char(idx: u8) -> (c: char)
    requires
        idx < 36,
    ensures
        c == spec_link_code_char(idx),
        is_link_code_char(c),
{
    if idx < 10 {
        (48u8 + idx) as char
    } else {
        (55u8 + idx) as char
    }
}

/// A fresh one-time Telegram link code with eight random code characters.
pub fn generate_link_code() -> (code: String)
    ensures
        is_link_code(code@),
{
    proof {
        reveal_strlit("NYXID-");
    }
    let mut chars = crate::text::chars_of("NYXID-");
    assert(chars@.len() == 6);
    let mut n: usize = 0;
    while n < 8
        invariant
            n <= 8,
            chars@.len() == 6 + n,
            chars@.take(6) == "NYXID-"@,
            forall|i: int| 6 <= i < 6 + n ==> is_link_code_char(#[trigger] chars@[i]),
        decreases 8 - n,
    {
        let idx = random_below(36);
        let c = link_code_char(idx);
        chars.push(c);
        assert(chars@.take(6) =~= "NYXID-"@);
        n = n + 1;
    }
    string_of(chars.as_slice())
}

/// Bot username used when none is configured.
pub open spec fn default_bot_username() -> Seq<char> {
    "NyxIDBot"@
}

/// The answer to a link request for `link_code`.
pub fn telegram_link_response(link_code: String, configured_bot: Option<String>) -> (r: TelegramLinkResponse)
    ensures
        r.link_code@ == link_code@,
        r.bot_username@ == (match configured_bot {
            Some(b) => b@,
            None => default_bot_username(),
        }),
        r.expires_in_secs == TELEGRAM_LINK_TTL_SECS,
        r.instructions@ == "Send /start "@ + link_code@ + " to @"@ + r.bot_username@
            + " on Telegram"@,
{
    let bot_username = match configured_bot {
        Some(b) => b,
        None => String::from_str("NyxIDBot"),
    };
    let mut instructions = String::from_str("Send /start ");
    instructions.append(link_code.as_str());
    instructions.append(" to @");
    instructions.append(bot_username.as_str());
    instructions.append(" on Telegram");
    TelegramLinkResponse {
        link_code,
        bot_username,
        expires_in_secs: TELEGRAM_LINK_TTL_SECS,
        instructions,
    }
}

/// Stores a new link code that expires `TELEGRAM_LINK_TTL_SECS` after `now`.
pub fn start_telegram_link(
    channel: &mut NotificationChannel,
    link_code: String,
    now: i64,
    updated_at: String,
)
    requires
        now <= i64::MAX - 300,
    ensures
        *final(channel) == (NotificationChannel {
            telegram_link_code: Some(link_code),
            telegram_link_code_expires_at: Some((now + 300) as i64),
            updated_at,
            ..*old(channel)
        }),
{
    channel.telegram_link_code = Some(link_code);
    channel.telegram_link_code_expires_at = Some(now + 300);
    channel.updated_at = updated_at;
}

/// Whether Telegram was linked or enabled before a disconnect.
pub fn telegram_was_linked(channel: &NotificationChannel) -> (r: bool)
    ensures
        r == (channel.telegram_chat_id is Some || channel.telegram_enabled),
{
    channel.telegram_chat_id.is_some() || channel.telegram_enabled
}

/// Clears every Telegram field of the channel.
pub fn disconnect_telegram(channel: &mut NotificationChannel, updated_at: String)
    ensures
        *final(channel) == (NotificationChannel {
            telegram_chat_id: None,
            telegram_username: None,
            telegram_enabled: false,
            telegram_link_code: None,
            telegram_link_code_expires_at: None,
            updated_at,
            ..*old(channel)
        }),
{
    channel.telegram_chat_id = None;
    channel.telegram_username = None;
    channel.telegram_enabled = false;
    channel.telegram_link_code = None;
    channel.telegram_link_code_expires_at = None;
    channel.updated_at = updated_at;
}

/// Message answered after a disconnect.
pub fn disconnect_message(approval_suspended: bool) -> (r: MessageResponse)
    ensures
        approval_suspended ==> r.message@
            == "Telegram disconnected. Approval protection is suspended until a notification channel is available; it resumes automatically."@,
        !approval_suspended ==> r.message@ == "Telegram disconnected"@,
{
    let message = if approval_suspended {
        String::from_str(
            "Telegram disconnected. Approval protection is suspended until a notification channel is available; it resumes automatically.",
        )
    } else {
        String::from_str("Telegram disconnected")
    };
    MessageResponse { message }
}

/// Turning approval protection on through an accepted update never leaves it
/// suspended: an accepted update that newly requires approval also leaves a
/// channel able to deliver the approval requests.
pub proof fn lemma_accepted_approval_enable_is_not_suspended(
    c: NotificationChannel,
    body: UpdateNotificationSettingsRequest,
    updated_at: String,
    now: i64,
)
    requires
        spec_rejection(c, body) is None,
        !c.approval_required,
        body.approval_required == Some(true),
    ensures
        spec_settings_response(spec_updated(c, body, updated_at), now).approval_required,
        !spec_settings_response(spec_updated(c, body, updated_at), now).approval_suspended,
{
}

/// An accepted update that enables Telegram or push leaves that channel
/// active: Telegram only when it is linked, push only with a device.
pub proof fn lemma_accepted_enable_yields_usable_channel(
    c: NotificationChannel,
    body: UpdateNotificationSettingsRequest,
    updated_at: String,
)
    requires
        spec_rejection(c, body) is None,
        body.telegram_enabled == Some(true) || body.push_enabled == Some(true),
    ensures
        spec_has_active_channel(spec_updated(c, body, updated_at)),
{
}

/// After a disconnect Telegram reads as neither connected, enabled nor
/// pending at any time, and approval is suspended exactly when it is required
/// and push cannot deliver.
pub proof fn lemma_disconnect_clears_telegram(c: NotificationChannel, updated_at: String, now: i64)
    ensures
        ({
            let d = NotificationChannel {
                telegram_chat_id: None,
                telegram_username: None,
                telegram_enabled: false,
                telegram_link_code: None,
                telegram_link_code_expires_at: None,
                updated_at,
                ..c
            };
            let r = spec_settings_response(d, now);
            &&& !r.telegram_connected
            &&& !r.telegram_enabled
            &&& !r.telegram_link_pending
            &&& r.telegram_username is None
            &&& r.approval_suspended == (c.approval_required && !(c.push_enabled
                && c.push_devices@.len() > 0))
        }),
{
}

/// A freshly stored link code is pending from `now` until just before it expires.
pub proof fn lemma_new_link_code_is_pending(
    c: NotificationChannel,
    link_code: String,
    now: i64,
    later: i64,
    updated_at: String,
)
    requires
        now <= i64::MAX - 300,
        now <= later < now + 300,
    ensures
        spec_settings_response(
            NotificationChannel {
                telegram_link_code: Some(link_code),
                telegram_link_code_expires_at: Some((now + 300) as i64),
                updated_at,
                ..c
            },
            later,
        ).telegram_link_pending,
{
}

} // verus!

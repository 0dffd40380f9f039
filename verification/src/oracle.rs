//! Oracle worker pools: worker authentication, command parsing and
//! reporting, worker presence, login snapshots and saved login profiles.
use vstd::prelude::*;
use crate::client_auth::{header_chars, header_text};
use crate::encoding::{base64_decode, base64_encode, base64_standard_decoded, base64_standard_encoded};
use crate::errors::{AppError, is_payload_too_large, is_validation_error};
use vstd::utf8::encode_utf8;
use crate::text::{contains_string, opt_view, str_eq, strip_prefix, strip_prefix_str, trim, trim_str, views};

verus! {

/// Decimal digits of a natural number.
pub open spec fn decimal(n: nat) -> Seq<char>
    decreases n,
{
    if n < 10 {
        seq![('0' as u8 + n) as char]
    } else {
        decimal(n / 10) + seq![('0' as u8 + n % 10) as char]
    }
}

/// The decimal text of `n`, as `Display` writes it.
pub fn decimal_text(n: u64) -> (s: String)
    ensures
        s@ == decimal(n as nat),
    decreases n,
{
    let d = (n % 10) as u8;
    let c = (48u8 + d) as char;
    if n < 10 {
        let mut s = String::new();
        s.push(c);
        assert(s@ =~= decimal(n as nat));
        s
    } else {
        let mut s = decimal_text(n / 10);
        s.push(c);
        assert(s@ =~= decimal(n as nat));
        s
    }
}

/// The pool worker token of a worker request: what follows `Bearer ` in
/// its `Authorization` header.
pub open spec fn spec_worker_bearer_token(authorization: Option<Seq<u8>>) -> Option<Seq<char>> {
    match authorization {
        Some(b) => match header_chars(b) {
            Some(t) => strip_prefix(t, "Bearer "@),
            None => None,
        },
        None => None,
    }
}

/// Reads the worker token from the raw `Authorization` header value.
pub fn worker_bearer_token(authorization: Option<&[u8]>) -> (r: Result<String, AppError>)
    ensures
        match r {
            Ok(t) => spec_worker_bearer_token(
                match authorization {
                    Some(b) => Some(b@),
                    None => None,
                },
            ) == Some(t@),
            Err(e) => spec_worker_bearer_token(
                match authorization {
                    Some(b) => Some(b@),
                    None => None,
                },
            ) is None && e is OracleWorkerTokenInvalid,
        },
{
    let bytes = match authorization {
        Some(b) => b,
        None => return Err(AppError::OracleWorkerTokenInvalid),
    };
    let text = match header_text(bytes) {
        Some(t) => t,
        None => return Err(AppError::OracleWorkerTokenInvalid),
    };
    match strip_prefix_str(text.as_str(), "Bearer ") {
        Some(token) => Ok(token),
        None => Err(AppError::OracleWorkerTokenInvalid),
    }
}

/// A command a pool manager or the server queues for a worker.
#[derive(Clone, Copy, Debug, PartialEq, Eq, Structural)]
pub enum WorkerCommandKind {
    Drain,
    Resume,
    Restart,
    RelaunchBrowser,
    Relogin,
    Upgrade,
    /// Queued by the server when a login snapshot is fanned out; never by a manager.
    SessionImport,
}

/// Wire name of a command kind.
pub open spec fn command_name(kind: WorkerCommandKind) -> Seq<char> {
    match kind {
        WorkerCommandKind::Drain => "drain"@,
        WorkerCommandKind::Resume => "resume"@,
        WorkerCommandKind::Restart => "restart"@,
        WorkerCommandKind::RelaunchBrowser => "relaunch_browser"@,
        WorkerCommandKind::Relogin => "relogin"@,
        WorkerCommandKind::Upgrade => "upgrade"@,
        WorkerCommandKind::SessionImport => "session_import"@,
    }
}

impl WorkerCommandKind {
    pub fn as_str(&self) -> (s: &'static str)
        ensures
            s@ == command_name(*self),
    {
        match self {
            WorkerCommandKind::Drain => "drain",
            WorkerCommandKind::Resume => "resume",
            WorkerCommandKind::Restart => "restart",
            WorkerCommandKind::RelaunchBrowser => "relaunch_browser",
            WorkerCommandKind::Relogin => "relogin",
            WorkerCommandKind::Upgrade => "upgrade",
            WorkerCommandKind::SessionImport => "session_import",
        }
    }
}

/// The command a manager may queue under a wire name.
pub open spec fn spec_parse_command(value: Seq<char>) -> Option<WorkerCommandKind> {
    if value == "drain"@ {
        Some(WorkerCommandKind::Drain)
    } else if value == "resume"@ {
        Some(WorkerCommandKind::Resume)
    } else if value == "restart"@ {
        Some(WorkerCommandKind::Restart)
    } else if value == "relaunch_browser"@ {
        Some(WorkerCommandKind::RelaunchBrowser)
    } else if value == "relogin"@ {
        Some(WorkerCommandKind::Relogin)
    } else if value == "upgrade"@ {
        Some(WorkerCommandKind::Upgrade)
    } else {
        None
    }
}

/// Parses a manager's command; internal commands are not accepted.
pub fn parse_command(value: &str) -> (r: Result<WorkerCommandKind, AppError>)
    ensures
        match r {
            Ok(k) => spec_parse_command(value@) == Some(k),
            Err(e) => spec_parse_command(value@) is None && is_validation_error(
                e,
                "command must be drain|resume|restart|relaunch_browser|relogin|upgrade"@,
            ),
        },
{
    if str_eq(value, "drain") {
        Ok(WorkerCommandKind::Drain)
    } else if str_eq(value, "resume") {
        Ok(WorkerCommandKind::Resume)
    } else if str_eq(value, "restart") {
        Ok(WorkerCommandKind::Restart)
    } else if str_eq(value, "relaunch_browser") {
        Ok(WorkerCommandKind::RelaunchBrowser)
    } else if str_eq(value, "relogin") {
        Ok(WorkerCommandKind::Relogin)
    } else if str_eq(value, "upgrade") {
        Ok(WorkerCommandKind::Upgrade)
    } else {
        Err(
            AppError::ValidationError(
                String::from_str(
                    "command must be drain|resume|restart|relaunch_browser|relogin|upgrade",
                ),
            ),
        )
    }
}

/// Every command a manager may queue parses back from its wire name, and
/// no wire name yields the internal session import.
pub proof fn lemma_parse_command_round_trip(kind: WorkerCommandKind, value: Seq<char>)
    ensures
        kind != WorkerCommandKind::SessionImport ==> spec_parse_command(command_name(kind)) == Some(
            kind,
        ),
        spec_parse_command(value) != Some(WorkerCommandKind::SessionImport),
{
    reveal_strlit("drain");
    reveal_strlit("resume");
    reveal_strlit("restart");
    reveal_strlit("relaunch_browser");
    reveal_strlit("relogin");
    reveal_strlit("upgrade");
    assert("drain"@.len() == 5);
    assert("resume"@.len() == 6);
    assert("relaunch_browser"@.len() == 16);
    assert("restart"@.len() == 7 && "relogin"@.len() == 7 && "upgrade"@.len() == 7);
    assert("restart"@[2] != "relogin"@[2]);
    assert("restart"@[0] != "upgrade"@[0]);
    assert("relogin"@[0] != "upgrade"@[0]);
}

/// A worker's desired state.
#[derive(Clone, Copy, Debug, PartialEq, Eq, Structural)]
pub enum WorkerDesiredState {
    Active,
    Draining,
}

/// Lifecycle state of a queued worker command.
#[derive(Clone, Copy, Debug, PartialEq, Eq, Structural)]
pub enum WorkerCommandStatus {
    Queued,
    Delivered,
    Succeeded,
    Failed,
    Expired,
    Cancelled,
}

/// Wire name of a command status.
pub open spec fn command_status_name(status: WorkerCommandStatus) -> Seq<char> {
    match status {
        WorkerCommandStatus::Queued => "queued"@,
        WorkerCommandStatus::Delivered => "delivered"@,
        WorkerCommandStatus::Succeeded => "succeeded"@,
        WorkerCommandStatus::Failed => "failed"@,
        WorkerCommandStatus::Expired => "expired"@,
        WorkerCommandStatus::Cancelled => "cancelled"@,
    }
}

fn command_status_str(status: WorkerCommandStatus) -> (s: &'static str)
    ensures
        s@ == command_status_name(status),
{
    match status {
        WorkerCommandStatus::Queued => "queued",
        WorkerCommandStatus::Delivered => "delivered",
        WorkerCommandStatus::Succeeded => "succeeded",
        WorkerCommandStatus::Failed => "failed",
        WorkerCommandStatus::Expired => "expired",
        WorkerCommandStatus::Cancelled => "cancelled",
    }
}

/// A stored worker, with its times as Unix milliseconds and RFC 3339 text.
pub struct WorkerRecord {
    pub worker_label: String,
    pub last_seen_at_ms: i64,
    pub last_seen_at: String,
    pub script_version: Option<String>,
    pub platform: Option<String>,
    pub logged_in: Option<bool>,
    pub current_task_id: Option<String>,
    pub chrome_alive: Option<bool>,
    pub desired_state: WorkerDesiredState,
    pub last_error: Option<String>,
    pub capabilities: Vec<String>,
    pub provisioned_at: Option<String>,
}

pub struct OracleWorkerInfo {
    pub label: String,
    pub online: bool,
    pub last_seen_at: String,
    pub last_seen_secs_ago: i64,
    pub version: Option<String>,
    pub platform: Option<String>,
    pub logged_in: Option<bool>,
    pub current_task_id: Option<String>,
    pub chrome_alive: Option<bool>,
    pub desired_state: String,
    pub last_error: Option<String>,
    pub capabilities: Vec<String>,
    pub provisioned_at: Option<String>,
}

pub struct ListOracleWorkersResponse {
    pub workers: Vec<OracleWorkerInfo>,
}

/// A worker counts as online when seen within this many seconds.
pub const ONLINE_WINDOW_SECS: i64 = 90;

/// Whole seconds since a worker was last seen, never negative.
pub open spec fn secs_since(now_ms: int, last_seen_ms: int) -> int {
    if now_ms - last_seen_ms <= 0 {
        0
    } else {
        (now_ms - last_seen_ms) / 1000
    }
}

/// A worker as the manager API reports it at `now_ms`.
pub fn worker_info(worker: WorkerRecord, now_ms: i64) -> (r: OracleWorkerInfo)
    requires
        i64::MIN <= now_ms - worker.last_seen_at_ms <= i64::MAX,
    ensures
        r.label == worker.worker_label,
        r.last_seen_secs_ago == secs_since(now_ms as int, worker.last_seen_at_ms as int),
        r.online == (r.last_seen_secs_ago <= ONLINE_WINDOW_SECS),
        r.last_seen_at == worker.last_seen_at,
        r.version == worker.script_version,
        r.platform == worker.platform,
        r.logged_in == worker.logged_in,
        r.current_task_id == worker.current_task_id,
        r.chrome_alive == worker.chrome_alive,
        r.desired_state@ == (match worker.desired_state {
            WorkerDesiredState::Active => "active"@,
            WorkerDesiredState::Draining => "draining"@,
        }),
        r.last_error == worker.last_error,
        r.capabilities == worker.capabilities,
        r.provisioned_at == worker.provisioned_at,
{
    let diff: i64 = now_ms - worker.last_seen_at_ms;
    let ago: i64 = if diff <= 0 {
        0
    } else {
        diff / 1000
    };
    OracleWorkerInfo {
        label: worker.worker_label,
        online: ago <= ONLINE_WINDOW_SECS,
        last_seen_at: worker.last_seen_at,
        last_seen_secs_ago: ago,
        version: worker.script_version,
        platform: worker.platform,
        logged_in: worker.logged_in,
        current_task_id: worker.current_task_id,
        chrome_alive: worker.chrome_alive,
        desired_state: match worker.desired_state {
            WorkerDesiredState::Active => String::from_str("active"),
            WorkerDesiredState::Draining => String::from_str("draining"),
        },
        last_error: worker.last_error,
        capabilities: worker.capabilities,
        provisioned_at: worker.provisioned_at,
    }
}

/// A worker seen in the future or within the window is online; one silent
/// for longer than the window is not.
pub proof fn lemma_online_window(now_ms: int, last_seen_ms: int)
    ensures
        now_ms - last_seen_ms < (ONLINE_WINDOW_SECS + 1) * 1000 ==> secs_since(now_ms, last_seen_ms)
            <= ONLINE_WINDOW_SECS,
        now_ms - last_seen_ms >= (ONLINE_WINDOW_SECS + 1) * 1000 ==> secs_since(
            now_ms,
            last_seen_ms,
        ) > ONLINE_WINDOW_SECS,
{
}

/// A stored worker command, with its times as RFC 3339 text.
pub struct WorkerCommandRecord {
    pub id: String,
    pub worker_label: String,
    pub kind: WorkerCommandKind,
    pub status: WorkerCommandStatus,
    pub delivery_count: u32,
    pub result_code: Option<String>,
    pub snapshot_id: Option<String>,
    pub bundle_version: Option<String>,
    pub bundle_sha256: Option<String>,
    pub created_at: String,
    pub completed_at: Option<String>,
    pub deadline_at: String,
}

pub struct OracleWorkerCommandInfo {
    pub id: String,
    pub worker_label: String,
    pub command: String,
    pub status: String,
    pub delivery_count: u32,
    pub result_code: Option<String>,
    pub snapshot_id: Option<String>,
    pub bundle_version: Option<String>,
    pub created_at: String,
    pub completed_at: Option<String>,
}

pub struct ListOracleWorkerCommandsResponse {
    pub commands: Vec<OracleWorkerCommandInfo>,
}

/// A command as the manager API reports it.
pub fn command_info(command: WorkerCommandRecord) -> (r: OracleWorkerCommandInfo)
    ensures
        r.id == command.id,
        r.worker_label == command.worker_label,
        r.command@ == command_name(command.kind),
        r.status@ == command_status_name(command.status),
        r.delivery_count == command.delivery_count,
        r.result_code == command.result_code,
        r.snapshot_id == command.snapshot_id,
        r.bundle_version == command.bundle_version,
        r.created_at == command.created_at,
        r.completed_at == command.completed_at,
{
    OracleWorkerCommandInfo {
        id: command.id,
        worker_label: command.worker_label,
        command: String::from_str(command.kind.as_str()),
        status: String::from_str(command_status_str(command.status)),
        delivery_count: command.delivery_count,
        result_code: command.result_code,
        snapshot_id: command.snapshot_id,
        bundle_version: command.bundle_version,
        created_at: command.created_at,
        completed_at: command.completed_at,
    }
}

/// A command as delivered to a worker.
pub struct WorkerCommandDto {
    pub id: String,
    pub command: String,
    pub snapshot_id: Option<String>,
    pub bundle_version: Option<String>,
    pub bundle_sha256: Option<String>,
    pub deadline_at: String,
}

impl WorkerCommandDto {
    /// The delivery form of a stored command.
    pub fn from(command: WorkerCommandRecord) -> (r: Self)
        ensures
            r.id == command.id,
            r.command@ == command_name(command.kind),
            r.snapshot_id == command.snapshot_id,
            r.bundle_version == command.bundle_version,
            r.bundle_sha256 == command.bundle_sha256,
            r.deadline_at == command.deadline_at,
    {
        WorkerCommandDto {
            id: command.id,
            command: String::from_str(command.kind.as_str()),
            snapshot_id: command.snapshot_id,
            bundle_version: command.bundle_version,
            bundle_sha256: command.bundle_sha256,
            deadline_at: command.deadline_at,
        }
    }
}

/// The worker bundle currently served.
pub struct WorkerBundle {
    pub version: String,
    pub sha256: String,
    pub source: String,
    pub playwright_core_version: String,
}

pub struct OracleWorkerBundleResponse {
    pub version: String,
    pub sha256: String,
    pub bundle: String,
    pub playwright_core_version: String,
}

/// The bundle response for the current worker bundle.
pub fn bundle_response(bundle: &WorkerBundle) -> (r: OracleWorkerBundleResponse)
    ensures
        r.version == bundle.version,
        r.sha256 == bundle.sha256,
        r.bundle == bundle.source,
        r.playwright_core_version == bundle.playwright_core_version,
{
    OracleWorkerBundleResponse {
        version: bundle.version.clone(),
        sha256: bundle.sha256.clone(),
        bundle: bundle.source.clone(),
        playwright_core_version: bundle.playwright_core_version.clone(),
    }
}

/// The bundle an `upgrade` command pins: the current bundle's version and
/// digest; other commands pin none.
pub fn command_bundle(kind: WorkerCommandKind, current: &WorkerBundle) -> (r: Option<(String, String)>)
    ensures
        kind == WorkerCommandKind::Upgrade ==> r == Some((current.version, current.sha256)),
        kind != WorkerCommandKind::Upgrade ==> r is None,
{
    if kind == WorkerCommandKind::Upgrade {
        Some((current.version.clone(), current.sha256.clone()))
    } else {
        None
    }
}

pub struct AllocateOracleWorkerRequest {
    pub label: Option<String>,
}

pub struct AllocateOracleWorkerResponse {
    pub label: String,
    pub adopted: bool,
}

/// The label a manager asks for, trimmed; `None` when absent or blank.
pub fn requested_worker_label(label: Option<String>) -> (r: Option<String>)
    ensures
        match label {
            Some(l) => if trim(l@).len() > 0 {
                r matches Some(t) && t@ == trim(l@)
            } else {
                r is None
            },
            None => r is None,
        },
{
    match label {
        Some(l) => {
            let t = trim_str(l.as_str());
            if t.as_str().is_empty() {
                None
            } else {
                Some(t)
            }
        },
        None => None,
    }
}

pub struct ForgetWorkerQuery {
    pub force: bool,
}

pub struct ForgetWorkerResponse {
    pub label: String,
    pub commands_removed: u64,
    pub sessions_released: u64,
    pub tasks_released: u64,
}

pub struct EnqueueWorkerCommandRequest {
    pub command: String,
}

pub struct UploadLoginSnapshotRequest {
    pub format_version: u32,
    pub worker_token_sha256: String,
    pub sealed_blob_base64: String,
}

pub struct LoginSnapshotTargetInfo {
    pub worker_label: String,
    pub command_id: String,
}

pub struct UploadLoginSnapshotResponse {
    pub snapshot_id: String,
    pub envelope_size: u64,
    pub expires_at: String,
    pub queued_workers: Vec<LoginSnapshotTargetInfo>,
    pub skipped_workers: Vec<String>,
}

/// Decodes a sealed login envelope sent as Base64: longer than `max_chars`
/// bytes is refused before decoding, and invalid Base64 is a validation error.
pub fn decode_login_snapshot_envelope(encoded: &str, max_chars: usize) -> (r: Result<Vec<u8>, AppError>)
    ensures
        encoded.len() > max_chars ==> (r matches Err(e) && is_payload_too_large(
            e,
            "login snapshot must be at most "@ + decimal(max_chars as nat) + " base64 characters"@,
        )),
        encoded.len() <= max_chars ==> match base64_standard_decoded(
            encode_utf8(encoded@),
        ) {
            Some(bytes) => r matches Ok(v) && v@ == bytes,
            None => r matches Err(e) && is_validation_error(
                e,
                "sealed_blob_base64 must be valid base64"@,
            ),
        },
{
    if encoded.len() > max_chars {
        let mut msg = String::from_str("login snapshot must be at most ");
        let n = decimal_text(max_chars as u64);
        msg.append(n.as_str());
        msg.append(" base64 characters");
        assert(msg@ == "login snapshot must be at most "@ + decimal(max_chars as nat)
            + " base64 characters"@);
        return Err(AppError::OraclePayloadTooLarge(msg));
    }
    match base64_decode(encoded.as_bytes()) {
        Some(v) => Ok(v),
        None => Err(
            AppError::ValidationError(String::from_str("sealed_blob_base64 must be valid base64")),
        ),
    }
}

/// The upload response: queued `(worker, command)` pairs as targets.
pub fn upload_snapshot_response(
    snapshot_id: String,
    envelope_size: u64,
    expires_at: String,
    queued_workers: Vec<(String, String)>,
    skipped_workers: Vec<String>,
) -> (r: UploadLoginSnapshotResponse)
    ensures
        r.snapshot_id == snapshot_id,
        r.envelope_size == envelope_size,
        r.expires_at == expires_at,
        r.queued_workers@.len() == queued_workers@.len(),
        forall|i: int|
            0 <= i < queued_workers@.len() ==> (#[trigger] r.queued_workers@[i]).worker_label
                == queued_workers@[i].0 && r.queued_workers@[i].command_id == queued_workers@[i].1,
        r.skipped_workers == skipped_workers,
{
    let mut targets: Vec<LoginSnapshotTargetInfo> = Vec::new();
    let mut i: usize = 0;
    while i < queued_workers.len()
        invariant
            i <= queued_workers.len(),
            targets@.len() == i,
            forall|k: int|
                0 <= k < i ==> (#[trigger] targets@[k]).worker_label == queued_workers@[k].0
                    && targets@[k].command_id == queued_workers@[k].1,
        decreases queued_workers.len() - i,
    {
        let pair = &queued_workers[i];
        targets.push(
            LoginSnapshotTargetInfo { worker_label: pair.0.clone(), command_id: pair.1.clone() },
        );
        i = i + 1;
    }
    UploadLoginSnapshotResponse {
        snapshot_id,
        envelope_size,
        expires_at,
        queued_workers: targets,
        skipped_workers,
    }
}

/// Whether a worker takes commands (it reports the `commands_v1` capability).
pub fn supports_commands(capabilities: &[String]) -> (r: bool)
    ensures
        r == views(capabilities@).contains("commands_v1"@),
{
    contains_string(capabilities, "commands_v1")
}

pub struct WorkerHeartbeatResponse {
    pub status: String,
    pub command: Option<WorkerCommandDto>,
    pub cancelled_command_ids: Vec<String>,
}

/// The heartbeat answer: the next command, if any, and the withdrawn ones.
/// A legacy worker (without `commands_v1`) never receives commands, so its
/// answer carries neither a command nor withdrawn command ids.
pub fn heartbeat_response(
    capabilities: &[String],
    command: Option<WorkerCommandDto>,
    cancelled_command_ids: Vec<String>,
) -> (r: WorkerHeartbeatResponse)
    ensures
        r.status@ == "ok"@,
        views(capabilities@).contains("commands_v1"@) ==> r.command == command
            && r.cancelled_command_ids == cancelled_command_ids,
        !views(capabilities@).contains("commands_v1"@) ==> r.command is None
            && r.cancelled_command_ids@.len() == 0,
{
    if supports_commands(capabilities) {
        WorkerHeartbeatResponse { status: String::from_str("ok"), command, cancelled_command_ids }
    } else {
        WorkerHeartbeatResponse {
            status: String::from_str("ok"),
            command: None,
            cancelled_command_ids: Vec::new(),
        }
    }
}

pub struct WorkerCommandReportDto {
    pub command_id: String,
    pub succeeded: bool,
    pub result_code: Option<String>,
}

pub struct WorkerHeartbeatRequest {
    pub worker: String,
    pub instance_id: String,
    pub script_version: Option<String>,
    pub platform: Option<String>,
    pub capabilities: Vec<String>,
    pub logged_in: Option<bool>,
    pub current_task_id: Option<String>,
    pub chrome_alive: Option<bool>,
    pub last_error: Option<String>,
    pub command_reports: Vec<WorkerCommandReportDto>,
}

pub struct PollTaskQuery {
    pub worker: String,
    pub script_version: Option<String>,
    pub page_url: Option<String>,
    pub instance_id: Option<String>,
}

/// A task claimed by a worker.
pub struct WorkerTaskPayload {
    pub task_id: String,
    pub attempts: u32,
    pub retry_count: u32,
    pub max_retries: u32,
    pub dispatch_attempt_id: Option<String>,
    pub kind: String,
    pub prompt: String,
    pub target_url: Option<String>,
    pub conversation_id: Option<String>,
    pub conversation_url: Option<String>,
    pub is_followup: bool,
    pub model: Option<String>,
    pub tag: Option<String>,
    pub pdf_base64: Option<String>,
    pub pdf_name: Option<String>,
    pub attachment_base64: Option<String>,
    pub attachment_name: Option<String>,
    pub required_project_url: Option<String>,
    pub assigned_worker: String,
    pub submitted_at: String,
}

/// What a polling worker receives.
pub enum PollTaskResponse {
    /// Nothing to do; the pool's project pin lets a drifted tab go home.
    Idle { required_project_url: Option<String> },
    Task { task: WorkerTaskPayload },
}

/// The poll answer: the claimed task, else idle with the pool's project pin.
pub fn poll_response(claimed: Option<WorkerTaskPayload>, required_project_url: Option<String>) -> (r: PollTaskResponse)
    ensures
        match claimed {
            Some(t) => r == PollTaskResponse::Task { task: t },
            None => r == PollTaskResponse::Idle { required_project_url },
        },
{
    match claimed {
        Some(task) => PollTaskResponse::Task { task },
        None => PollTaskResponse::Idle { required_project_url },
    }
}

pub struct WorkerAckRequest {
    pub task_id: String,
    pub worker: String,
    pub phase: Option<String>,
    pub phase_detail: Option<String>,
    pub script_version: Option<String>,
    pub page_url: Option<String>,
    pub dispatch_attempt_id: Option<String>,
    pub instance_id: Option<String>,
}

pub struct WorkerAckResponse {
    pub status: String,
}

/// Outcome of a worker's acknowledgement.
pub enum AckOutcome {
    /// Keep working on the task.
    Continue,
    Cancelled,
}

/// `ok` to keep going, `cancelled` to abandon the task and poll again.
pub fn ack_response(outcome: AckOutcome) -> (r: WorkerAckResponse)
    ensures
        r.status@ == (match outcome {
            AckOutcome::Continue => "ok"@,
            AckOutcome::Cancelled => "cancelled"@,
        }),
{
    WorkerAckResponse {
        status: match outcome {
            AckOutcome::Continue => String::from_str("ok"),
            AckOutcome::Cancelled => String::from_str("cancelled"),
        },
    }
}

pub struct WorkerImageDto {
    pub mime: String,
    pub data_base64: String,
    pub name: Option<String>,
}

pub struct WorkerFileDto {
    pub name: String,
    pub mime: String,
    pub data_base64: String,
}

pub struct WorkerResultRequest {
    pub task_id: String,
    pub worker: String,
    pub response: String,
    pub images: Option<Vec<WorkerImageDto>>,
    pub files: Option<Vec<WorkerFileDto>>,
    pub chatgpt_url: Option<String>,
    pub model: Option<String>,
    pub script_version: Option<String>,
    pub dispatch_attempt_id: Option<String>,
    pub instance_id: Option<String>,
}

pub struct WorkerResultResponse {
    pub status: String,
}

/// Outcome of a submitted result.
pub enum ResultOutcome {
    Completed,
    Failed,
    /// The attempt was put back in the queue; its result was not kept.
    Requeued,
    Ignored,
}

/// The reported status is one of `saved`, `saved_failed` and `ignored`: a
/// requeued attempt's result was not kept, so it reads `ignored`.
pub fn result_response(outcome: ResultOutcome) -> (r: WorkerResultResponse)
    ensures
        r.status@ == (match outcome {
            ResultOutcome::Completed => "saved"@,
            ResultOutcome::Failed => "saved_failed"@,
            ResultOutcome::Requeued => "ignored"@,
            ResultOutcome::Ignored => "ignored"@,
        }),
{
    WorkerResultResponse {
        status: match outcome {
            ResultOutcome::Completed => String::from_str("saved"),
            ResultOutcome::Failed => String::from_str("saved_failed"),
            ResultOutcome::Requeued => String::from_str("ignored"),
            ResultOutcome::Ignored => String::from_str("ignored"),
        },
    }
}

pub struct TranscriptTurnDto {
    pub role: String,
    pub text: String,
}

pub struct WorkerTranscriptRequest {
    pub task_id: String,
    pub worker: String,
    pub turns: Vec<TranscriptTurnDto>,
    pub chatgpt_url: Option<String>,
    pub instance_id: Option<String>,
    pub dispatch_attempt_id: Option<String>,
}

pub struct WorkerTranscriptResponse {
    pub status: String,
    pub imported_pairs: usize,
}

/// Outcome of a submitted transcript.
pub enum TranscriptOutcome {
    Imported { pairs: usize },
    Ignored,
}

pub fn transcript_response(outcome: TranscriptOutcome) -> (r: WorkerTranscriptResponse)
    ensures
        match outcome {
            TranscriptOutcome::Imported { pairs } => r.status@ == "imported"@ && r.imported_pairs
                == pairs,
            TranscriptOutcome::Ignored => r.status@ == "ignored"@ && r.imported_pairs == 0,
        },
{
    match outcome {
        TranscriptOutcome::Imported { pairs } => WorkerTranscriptResponse {
            status: String::from_str("imported"),
            imported_pairs: pairs,
        },
        TranscriptOutcome::Ignored => WorkerTranscriptResponse {
            status: String::from_str("ignored"),
            imported_pairs: 0,
        },
    }
}

pub struct PinConvUrlRequest {
    pub task_id: String,
    pub worker: String,
    pub chatgpt_url: String,
    pub instance_id: Option<String>,
    pub dispatch_attempt_id: Option<String>,
}

pub struct WorkerLoginSnapshotResponse {
    pub format_version: u32,
    pub sealed_blob_base64: String,
}

/// A sealed login snapshot as a worker fetches it, Base64-encoded.
pub fn login_snapshot_response(format_version: u32, sealed_envelope: &[u8]) -> (r: WorkerLoginSnapshotResponse)
    ensures
        r.format_version == format_version,
        r.sealed_blob_base64@ == base64_standard_encoded(sealed_envelope@),
{
    WorkerLoginSnapshotResponse {
        format_version,
        sealed_blob_base64: base64_encode(sealed_envelope),
    }
}

/// A saved login profile's metadata, with its times as RFC 3339 text.
pub struct LoginProfileMetadata {
    pub id: String,
    pub name: String,
    pub generation: String,
    pub revision: String,
    pub envelope_size: u64,
    pub updated_at: String,
    pub expires_at: String,
    /// Labels of the workers bound to the profile.
    pub bound_workers: Vec<String>,
}

pub struct LoginProfileInfo {
    pub id: String,
    pub name: String,
    pub generation: String,
    pub revision: String,
    pub status: String,
    pub envelope_size: u64,
    pub updated_at: String,
    pub expires_at: String,
    pub workers: Vec<String>,
}

/// A profile as the API reports it, with its availability in the pool.
pub fn metadata_info(profile: &LoginProfileMetadata, availability: &str) -> (r: LoginProfileInfo)
    ensures
        r.id == profile.id,
        r.name == profile.name,
        r.generation == profile.generation,
        r.revision == profile.revision,
        r.status@ == availability@,
        r.envelope_size == profile.envelope_size,
        r.updated_at == profile.updated_at,
        r.expires_at == profile.expires_at,
        r.workers@ == profile.bound_workers@,
{
    LoginProfileInfo {
        id: profile.id.clone(),
        name: profile.name.clone(),
        generation: profile.generation.clone(),
        revision: profile.revision.clone(),
        status: String::from_str(availability),
        envelope_size: profile.envelope_size,
        updated_at: profile.updated_at.clone(),
        expires_at: profile.expires_at.clone(),
        workers: crate::text::clone_string_vec(&profile.bound_workers),
    }
}

pub struct SaveLoginRequest {
    pub expected_generation: Option<String>,
    pub envelope: UploadLoginSnapshotRequest,
}

pub struct BindLoginRequest {
    pub login_profile: String,
    pub installation_id: Option<String>,
    pub replace_existing: bool,
}

/// A worker's binding to a saved login profile.
pub struct LoginBinding {
    pub binding_id: String,
    pub worker_label: String,
    pub replace_existing: bool,
}

pub struct BindingInfo {
    pub binding_id: String,
    pub worker_label: String,
    pub replace_existing: bool,
    pub requires_upgrade: bool,
}

pub fn binding_info(binding: LoginBinding, requires_upgrade: bool) -> (r: BindingInfo)
    ensures
        r.binding_id == binding.binding_id,
        r.worker_label == binding.worker_label,
        r.replace_existing == binding.replace_existing,
        r.requires_upgrade == requires_upgrade,
{
    BindingInfo {
        binding_id: binding.binding_id,
        worker_label: binding.worker_label,
        replace_existing: binding.replace_existing,
        requires_upgrade,
    }
}

/// A bound worker must upgrade when it lacks the saved-login capability.
pub fn binding_requires_upgrade(capabilities: &[String], saved_login_capability: &str) -> (r: bool)
    ensures
        r == !views(capabilities@).contains(saved_login_capability@),
{
    !contains_string(capabilities, saved_login_capability)
}

pub struct WorkerLoginQuery {
    pub worker: String,
    pub instance_id: String,
    pub known_revision: Option<String>,
}

pub struct WorkerLoginResponse {
    pub status: String,
    pub profile: Option<LoginProfileInfo>,
    pub binding: Option<BindingInfo>,
    pub format_version: Option<u32>,
    pub sealed_blob_base64: Option<String>,
}

/// The answer to a worker without a bound profile.
pub fn unbound_login_response() -> (r: WorkerLoginResponse)
    ensures
        r.status@ == "unbound"@,
        r.profile is None,
        r.binding is None,
        r.format_version is None,
        r.sealed_blob_base64 is None,
{
    WorkerLoginResponse {
        status: String::from_str("unbound"),
        profile: None,
        binding: None,
        format_version: None,
        sealed_blob_base64: None,
    }
}

/// Whether a worker gets the sealed envelope: the profile is available and
/// the worker does not already hold its revision.
pub fn login_envelope_needed(availability: &str, known_revision: Option<&str>, revision: &str) -> (r: bool)
    ensures
        r == (availability@ == "available"@ && !(known_revision matches Some(k) && k@
            == revision@)),
{
    if !str_eq(availability, "available") {
        return false;
    }
    match known_revision {
        Some(k) => !str_eq(k, revision),
        None => true,
    }
}

pub struct RefreshLoginRequest {
    pub worker: String,
    pub instance_id: String,
    pub profile_id: String,
    pub binding_id: String,
    pub generation: String,
    pub expected_revision: String,
    pub publication_id: String,
    pub format_version: u32,
    pub sealed_blob_base64: String,
}

} // verus!

//! Platform operations (text to speech, calls, flight search) run either on
//! the platform's credential, billed to an owner, or on the caller's own
//! connection: who may call and spend, how a credential resolution is
//! reported and executed, and how outcomes are audited.
use vstd::prelude::*;
use crate::encoding::{form_pairs_encoded, form_urlencode_pairs, pair_views};
use crate::errors::{AppError, AuthMethod, is_forbidden, is_unauthorized};
use crate::oauth_token::{join, join_strings};
use crate::text::{contains_string, split_words, str_eq, views, words};

verus! {

/// Response header naming the credential that served a platform operation.
pub const CREDENTIAL_SOURCE_HEADER: &'static str = "x-nyxid-credential-source";

/// Scope a non-human caller must hold to spend the owner's credits through a
/// platform credential.
pub const PLATFORM_SPEND_SCOPE: &'static str = "platform:spend";

/// Which credential serves an operation.
#[derive(Clone, Copy, Debug, PartialEq, Eq, Structural)]
pub enum PlatformCredentialSource {
    Platform,
    OwnConnection,
    Unavailable,
}

impl PlatformCredentialSource {
    pub fn as_str(&self) -> (s: &'static str)
        ensures
            s@ == (match *self {
                PlatformCredentialSource::Platform => "platform"@,
                PlatformCredentialSource::OwnConnection => "own_connection"@,
                PlatformCredentialSource::Unavailable => "unavailable"@,
            }),
    {
        match self {
            PlatformCredentialSource::Platform => "platform",
            PlatformCredentialSource::OwnConnection => "own_connection",
            PlatformCredentialSource::Unavailable => "unavailable",
        }
    }
}

/// The caller's stated preference between credentials.
#[derive(Clone, Copy, Debug, PartialEq, Eq, Structural)]
pub enum CredentialIntent {
    Auto,
}

/// Why the platform credential serves an operation.
#[derive(Clone, Copy, Debug, PartialEq, Eq, Structural)]
pub enum PlatformFallbackReason {
    /// The caller has no own connection for the vendor.
    OwnCredentialAbsent,
    /// The caller's own connection cannot be used.
    OwnCredentialUnusable,
}

/// Why no credential can serve an operation.
#[derive(Clone, Copy, Debug, PartialEq, Eq, Structural)]
pub enum PlatformUnavailableReason {
    OwnerOptInRequired,
    OwnConnectionDisabled,
}

/// Wire name of an unavailability reason.
pub open spec fn unavailable_reason_name(r: PlatformUnavailableReason) -> Seq<char> {
    match r {
        PlatformUnavailableReason::OwnerOptInRequired => "owner_opt_in_required"@,
        PlatformUnavailableReason::OwnConnectionDisabled => "own_connection_disabled"@,
    }
}

impl PlatformUnavailableReason {
    pub fn as_str(&self) -> (s: &'static str)
        ensures
            s@ == unavailable_reason_name(*self),
    {
        match self {
            PlatformUnavailableReason::OwnerOptInRequired => "owner_opt_in_required",
            PlatformUnavailableReason::OwnConnectionDisabled => "own_connection_disabled",
        }
    }
}

/// The caller's own connection to a vendor.
pub struct OwnConnectionMetadata {
    pub user_service_id: String,
    pub slug: String,
    pub label: String,
    pub is_active: bool,
}

/// How an operation's credential resolved for a caller.
#[allow(inconsistent_fields)]
pub enum CredentialResolution {
    /// The platform credential, billed to the owner.
    Platform { intent: CredentialIntent, fallback_reason: PlatformFallbackReason },
    /// The caller's usable own connection.
    OwnConnection { connection: OwnConnectionMetadata, intent: CredentialIntent },
    /// The own connection routes through a node, which operations cannot use.
    NodeRouted { connection: OwnConnectionMetadata, intent: CredentialIntent },
    /// The own connection needs approval per request.
    ApprovalRequired { connection: OwnConnectionMetadata, intent: CredentialIntent },
    /// The own connection is unusable, with the error that says why, if known.
    Unusable { connection: OwnConnectionMetadata, intent: CredentialIntent, error: Option<AppError> },
    /// The calling key is not scoped to the own connection.
    OutOfScope { connection: OwnConnectionMetadata, intent: CredentialIntent },
    /// No credential can serve the operation.
    Unavailable {
        connection: Option<OwnConnectionMetadata>,
        reason: PlatformUnavailableReason,
        intent: CredentialIntent,
    },
}

pub struct OwnConnectionDiscoveryResponse {
    pub user_service_id: String,
    pub slug: String,
    pub label: String,
    pub is_active: bool,
    pub usable: bool,
    pub reason: Option<String>,
}

/// An own connection as discovery reports it.
pub fn own_connection_response(connection: OwnConnectionMetadata, usable: bool, reason: Option<&str>) -> (r: OwnConnectionDiscoveryResponse)
    ensures
        describes(
            r,
            connection,
            usable,
            match reason {
                Some(s) => Some(s@),
                None => None,
            },
        ),
{
    OwnConnectionDiscoveryResponse {
        user_service_id: connection.user_service_id,
        slug: connection.slug,
        label: connection.label,
        is_active: connection.is_active,
        usable,
        reason: match reason {
            Some(s) => Some(String::from_str(s)),
            None => None,
        },
    }
}

/// What discovery reports for a resolution: the source, the intent, why
/// the operation is unavailable, why the platform serves it, and the own
/// connection with whether it is usable and why not.
pub struct DiscoverySource {
    pub credential_source: PlatformCredentialSource,
    pub credential_intent: CredentialIntent,
    pub availability_reason: Option<String>,
    pub fallback_reason: Option<PlatformFallbackReason>,
    pub own_connection: Option<OwnConnectionDiscoveryResponse>,
}

/// Why a refused own connection is reported unusable.
pub open spec fn refusal_reason(res: CredentialResolution) -> Option<Seq<char>> {
    match res {
        CredentialResolution::NodeRouted { .. } => Some("node_routed"@),
        CredentialResolution::ApprovalRequired { .. } => Some("approval_required"@),
        CredentialResolution::Unusable { .. } => Some("unusable"@),
        CredentialResolution::OutOfScope { .. } => Some("out_of_scope"@),
        CredentialResolution::Unavailable { reason, .. } => Some(
            match reason {
                PlatformUnavailableReason::OwnerOptInRequired => "unusable"@,
                PlatformUnavailableReason::OwnConnectionDisabled => "disabled"@,
            },
        ),
        _ => None,
    }
}

/// Whether a discovery row describes an own connection, usable or not, with
/// the given reason.
pub open spec fn describes(
    c: OwnConnectionDiscoveryResponse,
    m: OwnConnectionMetadata,
    usable: bool,
    reason: Option<Seq<char>>,
) -> bool {
    &&& c.user_service_id == m.user_service_id
    &&& c.slug == m.slug
    &&& c.label == m.label
    &&& c.is_active == m.is_active
    &&& c.usable == usable
    &&& crate::text::opt_view(c.reason) == reason
}

/// What discovery reports of a refused own connection.
pub open spec fn reports_refused(
    r: DiscoverySource,
    connection: OwnConnectionMetadata,
    intent: CredentialIntent,
    reason: Seq<char>,
) -> bool {
    &&& r.credential_source == PlatformCredentialSource::OwnConnection
    &&& r.credential_intent == intent
    &&& r.availability_reason is None
    &&& r.fallback_reason is None
    &&& r.own_connection matches Some(c) && describes(c, connection, false, Some(reason))
}

/// Projects a credential resolution into discovery's terms. An own
/// connection that cannot be used is reported as the caller's own,
/// unusable, never as the platform source: the next call would be refused,
/// not billed.
pub fn discovery_source(source: CredentialResolution) -> (r: DiscoverySource)
    ensures
        match source {
            CredentialResolution::Platform { intent, fallback_reason } => {
                &&& r.credential_source == PlatformCredentialSource::Platform
                &&& r.credential_intent == intent
                &&& r.availability_reason is None
                &&& r.fallback_reason == Some(fallback_reason)
                &&& r.own_connection is None
            },
            CredentialResolution::OwnConnection { connection, intent } => {
                &&& r.credential_source == PlatformCredentialSource::OwnConnection
                &&& r.credential_intent == intent
                &&& r.availability_reason is None
                &&& r.fallback_reason is None
                &&& r.own_connection matches Some(c) && describes(c, connection, true, None)
            },
            CredentialResolution::NodeRouted { connection, intent } => reports_refused(
                r,
                connection,
                intent,
                "node_routed"@,
            ),
            CredentialResolution::ApprovalRequired { connection, intent } => reports_refused(
                r,
                connection,
                intent,
                "approval_required"@,
            ),
            CredentialResolution::Unusable { connection, intent, .. } => reports_refused(
                r,
                connection,
                intent,
                "unusable"@,
            ),
            CredentialResolution::OutOfScope { connection, intent } => reports_refused(
                r,
                connection,
                intent,
                "out_of_scope"@,
            ),
            CredentialResolution::Unavailable { connection, reason, intent } => {
                &&& r.credential_source == PlatformCredentialSource::Unavailable
                &&& r.credential_intent == intent
                &&& r.availability_reason matches Some(a) && a@ == unavailable_reason_name(reason)
                &&& r.fallback_reason is None
                &&& match connection {
                    Some(conn) => r.own_connection matches Some(c) && describes(
                        c,
                        conn,
                        false,
                        refusal_reason(source),
                    ),
                    None => r.own_connection is None,
                }
            },
        },
{
    match source {
        CredentialResolution::Platform { intent, fallback_reason } => DiscoverySource {
            credential_source: PlatformCredentialSource::Platform,
            credential_intent: intent,
            availability_reason: None,
            fallback_reason: Some(fallback_reason),
            own_connection: None,
        },
        CredentialResolution::OwnConnection { connection, intent } => DiscoverySource {
            credential_source: PlatformCredentialSource::OwnConnection,
            credential_intent: intent,
            availability_reason: None,
            fallback_reason: None,
            own_connection: Some(own_connection_response(connection, true, None)),
        },
        CredentialResolution::NodeRouted { connection, intent } => DiscoverySource {
            credential_source: PlatformCredentialSource::OwnConnection,
            credential_intent: intent,
            availability_reason: None,
            fallback_reason: None,
            own_connection: Some(own_connection_response(connection, false, Some("node_routed"))),
        },
        CredentialResolution::ApprovalRequired { connection, intent } => DiscoverySource {
            credential_source: PlatformCredentialSource::OwnConnection,
            credential_intent: intent,
            availability_reason: None,
            fallback_reason: None,
            own_connection: Some(
                own_connection_response(connection, false, Some("approval_required")),
            ),
        },
        CredentialResolution::Unusable { connection, intent, error: _ } => DiscoverySource {
            credential_source: PlatformCredentialSource::OwnConnection,
            credential_intent: intent,
            availability_reason: None,
            fallback_reason: None,
            own_connection: Some(own_connection_response(connection, false, Some("unusable"))),
        },
        CredentialResolution::OutOfScope { connection, intent } => DiscoverySource {
            credential_source: PlatformCredentialSource::OwnConnection,
            credential_intent: intent,
            availability_reason: None,
            fallback_reason: None,
            own_connection: Some(own_connection_response(connection, false, Some("out_of_scope"))),
        },
        CredentialResolution::Unavailable { connection, reason, intent } => {
            let label = match reason {
                PlatformUnavailableReason::OwnerOptInRequired => "unusable",
                PlatformUnavailableReason::OwnConnectionDisabled => "disabled",
            };
            DiscoverySource {
                credential_source: PlatformCredentialSource::Unavailable,
                credential_intent: intent,
                availability_reason: Some(String::from_str(reason.as_str())),
                fallback_reason: None,
                own_connection: match connection {
                    Some(c) => Some(own_connection_response(c, false, Some(label))),
                    None => None,
                },
            }
        },
    }
}

/// A secondary price component of an operation.
pub struct PricingComponent {
    pub metric: String,
    pub price_per_unit: String,
}

/// How an operation is priced.
pub struct OperationBilling {
    pub metric: String,
    pub price_per_unit: String,
    pub secondary: Option<PricingComponent>,
    pub base_fee_per_call: Option<String>,
}

/// Whether an operation costs anything: a non-zero unit price, a secondary
/// component, or a base fee.
pub open spec fn spec_has_price(b: OperationBilling) -> bool {
    b.price_per_unit@ != "0"@ || b.secondary is Some || b.base_fee_per_call is Some
}

/// Whether a call is billed: the billing rollout is on and the operation
/// has a price.
pub fn operation_billable(billing: &OperationBilling, rollout_enabled: bool) -> (r: bool)
    ensures
        r == (rollout_enabled && spec_has_price(*billing)),
{
    rollout_enabled && (!str_eq(billing.price_per_unit.as_str(), "0") || billing.secondary.is_some()
        || billing.base_fee_per_call.is_some())
}

/// The catalog contract of an operation.
pub struct OperationContract {
    pub op: String,
    pub display_name: String,
    pub description: String,
    pub vendor: String,
    pub catalog_service_slug: String,
    pub mcp_tool: String,
}

pub struct PlatformOperationPricingComponentResponse {
    pub metric: String,
    pub price_per_unit: String,
}

pub struct PlatformOperationPricingResponse {
    pub billable: bool,
    pub metric: String,
    pub price_per_unit: String,
    pub secondary: Option<PlatformOperationPricingComponentResponse>,
    pub base_fee_per_call: Option<String>,
    /// The rendered price sentence, gated on the billing rollout.
    pub display: String,
}

pub struct PlatformOperationDiscoveryResponse {
    pub op: String,
    pub display_name: String,
    pub description: String,
    pub vendor: String,
    pub catalog_service_slug: String,
    pub credential_source: PlatformCredentialSource,
    pub credential_intent: CredentialIntent,
    pub availability_reason: Option<String>,
    pub fallback_reason: Option<PlatformFallbackReason>,
    pub own_connection: Option<OwnConnectionDiscoveryResponse>,
    pub pricing: PlatformOperationPricingResponse,
    pub mcp_tool: String,
}

pub struct PlatformOperationsResponse {
    pub operations: Vec<PlatformOperationDiscoveryResponse>,
}

/// The discovery row of an operation: its contract, how it would be served,
/// and its price (`price_display` is the rendered price for the billable
/// flag this function reports).
pub fn platform_operation_discovery_response(
    contract: &OperationContract,
    billing: &OperationBilling,
    source: DiscoverySource,
    rollout_enabled: bool,
    price_display: String,
) -> (r: PlatformOperationDiscoveryResponse)
    ensures
        r.op == contract.op,
        r.display_name == contract.display_name,
        r.description == contract.description,
        r.vendor == contract.vendor,
        r.catalog_service_slug == contract.catalog_service_slug,
        r.mcp_tool == contract.mcp_tool,
        r.credential_source == source.credential_source,
        r.credential_intent == source.credential_intent,
        r.availability_reason == source.availability_reason,
        r.fallback_reason == source.fallback_reason,
        r.own_connection == source.own_connection,
        r.pricing.billable == (rollout_enabled && spec_has_price(*billing)),
        r.pricing.metric == billing.metric,
        r.pricing.price_per_unit == billing.price_per_unit,
        match billing.secondary {
            Some(c) => r.pricing.secondary matches Some(s) && s.metric == c.metric
                && s.price_per_unit == c.price_per_unit,
            None => r.pricing.secondary is None,
        },
        r.pricing.base_fee_per_call == billing.base_fee_per_call,
        r.pricing.display == price_display,
{
    let billable = operation_billable(billing, rollout_enabled);
    let secondary = match &billing.secondary {
        Some(c) => Some(
            PlatformOperationPricingComponentResponse {
                metric: c.metric.clone(),
                price_per_unit: c.price_per_unit.clone(),
            },
        ),
        None => None,
    };
    PlatformOperationDiscoveryResponse {
        op: contract.op.clone(),
        display_name: contract.display_name.clone(),
        description: contract.description.clone(),
        vendor: contract.vendor.clone(),
        catalog_service_slug: contract.catalog_service_slug.clone(),
        credential_source: source.credential_source,
        credential_intent: source.credential_intent,
        availability_reason: source.availability_reason,
        fallback_reason: source.fallback_reason,
        own_connection: source.own_connection,
        pricing: PlatformOperationPricingResponse {
            billable,
            metric: billing.metric.clone(),
            price_per_unit: billing.price_per_unit.clone(),
            secondary,
            base_fee_per_call: crate::text::clone_opt_string(&billing.base_fee_per_call),
            display: price_display,
        },
        mcp_tool: contract.mcp_tool.clone(),
    }
}

/// The sentence an agent tool description uses for a resolution: which
/// credential runs the call, or why it will fail. `billable_price` is the
/// rendered price of a billable call; `allowed_voice_ids` the voices a
/// speech operation allows.
pub open spec fn credential_sentence(
    res: CredentialResolution,
    vendor: Seq<char>,
    billing: OperationBilling,
    rollout_enabled: bool,
    billable_price: Seq<char>,
    allowed_voice_ids: Option<Seq<Seq<char>>>,
) -> Seq<char> {
    match res {
        CredentialResolution::OwnConnection { .. } => "Uses your connected "@ + vendor
            + " account."@,
        CredentialResolution::NodeRouted { .. } => "Your "@ + vendor
            + " connection is node-routed; calls fail until you disable it or connect a server-held key."@,
        CredentialResolution::ApprovalRequired { .. } => "Your "@ + vendor
            + " connection requires approval per request; calls fail until you approve-free or disable it."@,
        CredentialResolution::Unusable { .. } => "Your "@ + vendor
            + " connection is unusable; reconnect or disable it."@,
        CredentialResolution::OutOfScope { .. } => "This API key is not scoped to your "@ + vendor
            + " connection; calls fail until you grant it access or disable the connection."@,
        CredentialResolution::Unavailable { reason, .. } => match reason {
            PlatformUnavailableReason::OwnerOptInRequired => "Platform access to "@ + vendor
                + " requires the owner's spending opt-in."@,
            PlatformUnavailableReason::OwnConnectionDisabled => "Your "@ + vendor
                + " connection is disabled; enable or replace it before calling this operation."@,
        },
        CredentialResolution::Platform { .. } => (if !rollout_enabled || !spec_has_price(billing) {
            "Uses the platform credential (free)."@
        } else {
            "Uses the platform credential ("@ + billable_price + ")."@
        }) + match allowed_voice_ids {
            Some(v) => if v.len() > 0 {
                " Allowed voice ids: "@ + join(v, ", "@) + "."@
            } else {
                Seq::empty()
            },
            None => Seq::empty(),
        },
    }
}

fn sentence_around(prefix: &str, vendor: &str, suffix: &str) -> (s: String)
    ensures
        s@ == prefix@ + vendor@ + suffix@,
{
    let mut s = String::from_str(prefix);
    s.append(vendor);
    s.append(suffix);
    s
}

pub fn platform_tool_credential_sentence(
    source: &CredentialResolution,
    vendor_display_name: &str,
    billing: &OperationBilling,
    rollout_enabled: bool,
    billable_price: &str,
    allowed_voice_ids: Option<&Vec<String>>,
) -> (s: String)
    ensures
        s@ == credential_sentence(
            *source,
            vendor_display_name@,
            *billing,
            rollout_enabled,
            billable_price@,
            match allowed_voice_ids {
                Some(v) => Some(views(v@)),
                None => None,
            },
        ),
{
    match source {
        CredentialResolution::OwnConnection { .. } => {
            return sentence_around("Uses your connected ", vendor_display_name, " account.");
        },
        CredentialResolution::NodeRouted { .. } => {
            return sentence_around(
                "Your ",
                vendor_display_name,
                " connection is node-routed; calls fail until you disable it or connect a server-held key.",
            );
        },
        CredentialResolution::ApprovalRequired { .. } => {
            return sentence_around(
                "Your ",
                vendor_display_name,
                " connection requires approval per request; calls fail until you approve-free or disable it.",
            );
        },
        CredentialResolution::Unusable { .. } => {
            return sentence_around(
                "Your ",
                vendor_display_name,
                " connection is unusable; reconnect or disable it.",
            );
        },
        CredentialResolution::OutOfScope { .. } => {
            return sentence_around(
                "This API key is not scoped to your ",
                vendor_display_name,
                " connection; calls fail until you grant it access or disable the connection.",
            );
        },
        CredentialResolution::Unavailable { reason, .. } => {
            return match reason {
                PlatformUnavailableReason::OwnerOptInRequired => sentence_around(
                    "Platform access to ",
                    vendor_display_name,
                    " requires the owner's spending opt-in.",
                ),
                PlatformUnavailableReason::OwnConnectionDisabled => sentence_around(
                    "Your ",
                    vendor_display_name,
                    " connection is disabled; enable or replace it before calling this operation.",
                ),
            };
        },
        CredentialResolution::Platform { .. } => {},
    }
    let mut sentence = if !operation_billable(billing, rollout_enabled) {
        String::from_str("Uses the platform credential (free).")
    } else {
        sentence_around("Uses the platform credential (", billable_price, ").")
    };
    match allowed_voice_ids {
        Some(v) => {
            if v.len() > 0 {
                let joined = join_strings(v, ", ");
                let ghost before = sentence@;
                sentence.append(" Allowed voice ids: ");
                sentence.append(joined.as_str());
                sentence.append(".");
                assert(sentence@ =~= before + (" Allowed voice ids: "@ + join(views(v@), ", "@)
                    + "."@));
            } else {
                assert(sentence@ =~= sentence@ + Seq::<char>::empty());
            }
        },
        None => {
            assert(sentence@ =~= sentence@ + Seq::<char>::empty());
        },
    }
    sentence
}

/// A platform operation.
#[derive(Clone, Copy, Debug, PartialEq, Eq, Structural)]
pub enum PlatformOperationName {
    Speak,
    CallAndSay,
    FlightSearch,
}

/// The vendor request an operation is discovered as: HTTP method and path template.
pub fn platform_operation_discovery_descriptor(op: PlatformOperationName) -> (r: (&'static str, &'static str))
    ensures
        r.0@ == "POST"@,
        r.1@ == (match op {
            PlatformOperationName::Speak => "/v1/text-to-speech/{voice_id}"@,
            PlatformOperationName::CallAndSay => "/2010-04-01/Accounts/{account_sid}/Calls.json"@,
            PlatformOperationName::FlightSearch => "/air/offer_requests"@,
        }),
{
    match op {
        PlatformOperationName::Speak => ("POST", "/v1/text-to-speech/{voice_id}"),
        PlatformOperationName::CallAndSay => ("POST", "/2010-04-01/Accounts/{account_sid}/Calls.json"),
        PlatformOperationName::FlightSearch => ("POST", "/air/offer_requests"),
    }
}

/// The authenticated principal of a request, as plain values.
pub struct AuthContext {
    pub user_id: String,
    /// The user whose services a proxied request resolves against.
    pub resolution_user_id: String,
    pub api_key_id: Option<String>,
    pub auth_method: AuthMethod,
    pub acting_client_id: Option<String>,
    pub allow_all_services: bool,
    pub allowed_service_ids: Vec<String>,
    /// Space-separated scopes the credential carries.
    pub scope: String,
}

/// The caller of a platform operation.
pub struct PlatformOperationCaller {
    pub actor_user_id: String,
    pub resolution_user_id: String,
    pub api_key_id: Option<String>,
    pub auth_method: AuthMethod,
    pub acting_client_id: Option<String>,
    pub allow_all_services: bool,
    pub allowed_service_ids: Vec<String>,
    pub credential_intent: CredentialIntent,
}

/// What credential resolution needs to know of a caller.
pub struct PlatformCredentialCaller {
    pub actor_user_id: String,
    pub api_key_id: Option<String>,
    pub allow_all_services: bool,
    pub allowed_service_ids: Vec<String>,
    /// A browser session is the owner acting directly.
    pub bypass_approval_flow: bool,
    pub credential_intent: CredentialIntent,
}

/// Wire name of the requester of an approval, by how it authenticated; a
/// browser session requests nothing.
pub open spec fn requester_type(m: AuthMethod) -> Option<Seq<char>> {
    match m {
        AuthMethod::ApiKey => Some("api_key"@),
        AuthMethod::Delegated => Some("delegated"@),
        AuthMethod::ServiceAccount => Some("service_account"@),
        AuthMethod::AccessToken => Some("access_token"@),
        AuthMethod::Relay => Some("relay"@),
        AuthMethod::Session => None,
    }
}

impl PlatformOperationCaller {
    pub fn from_auth_user(auth_user: &AuthContext) -> (r: Self)
        ensures
            r.actor_user_id == auth_user.user_id,
            r.resolution_user_id == auth_user.resolution_user_id,
            r.api_key_id == auth_user.api_key_id,
            r.auth_method == auth_user.auth_method,
            r.acting_client_id == auth_user.acting_client_id,
            r.allow_all_services == auth_user.allow_all_services,
            r.allowed_service_ids@ == auth_user.allowed_service_ids@,
            r.credential_intent == CredentialIntent::Auto,
    {
        PlatformOperationCaller {
            actor_user_id: auth_user.user_id.clone(),
            resolution_user_id: auth_user.resolution_user_id.clone(),
            api_key_id: crate::text::clone_opt_string(&auth_user.api_key_id),
            auth_method: auth_user.auth_method,
            acting_client_id: crate::text::clone_opt_string(&auth_user.acting_client_id),
            allow_all_services: auth_user.allow_all_services,
            allowed_service_ids: crate::text::clone_string_vec(&auth_user.allowed_service_ids),
            credential_intent: CredentialIntent::Auto,
        }
    }

    /// The caller as credential resolution sees it; only a browser session
    /// bypasses the approval flow.
    pub fn credential_caller(&self) -> (r: PlatformCredentialCaller)
        ensures
            r.actor_user_id == self.actor_user_id,
            r.api_key_id == self.api_key_id,
            r.allow_all_services == self.allow_all_services,
            r.allowed_service_ids@ == self.allowed_service_ids@,
            r.bypass_approval_flow == (self.auth_method == AuthMethod::Session),
            r.credential_intent == self.credential_intent,
    {
        PlatformCredentialCaller {
            actor_user_id: self.actor_user_id.clone(),
            api_key_id: crate::text::clone_opt_string(&self.api_key_id),
            allow_all_services: self.allow_all_services,
            allowed_service_ids: crate::text::clone_string_vec(&self.allowed_service_ids),
            bypass_approval_flow: self.auth_method == AuthMethod::Session,
            credential_intent: self.credential_intent,
        }
    }

    pub fn approval_requester_type(&self) -> (r: Option<&'static str>)
        ensures
            match r {
                Some(s) => requester_type(self.auth_method) == Some(s@),
                None => requester_type(self.auth_method) is None,
            },
    {
        match self.auth_method {
            AuthMethod::ApiKey => Some("api_key"),
            AuthMethod::Delegated => Some("delegated"),
            AuthMethod::ServiceAccount => Some("service_account"),
            AuthMethod::AccessToken => Some("access_token"),
            AuthMethod::Relay => Some("relay"),
            AuthMethod::Session => None,
        }
    }

    /// Who requests an approval: the acting client, else the user.
    pub fn approval_requester_id(&self) -> (r: &str)
        ensures
            r@ == (match self.acting_client_id {
                Some(c) => c@,
                None => self.actor_user_id@,
            }),
    {
        match &self.acting_client_id {
            Some(c) => c.as_str(),
            None => self.actor_user_id.as_str(),
        }
    }
}

/// What the caller-class check needs next.
pub enum CallerClassCheck {
    /// The caller may use platform operations.
    Allowed,
    /// An API key caller: allowed only if this key is an active agent key.
    AgentKeyRequired(String),
}

/// Platform operations exist for a user only with the platform-services
/// feature enabled; otherwise their routes are not found.
pub fn platform_ops_enabled(enabled_features: &[String], flag_key: &str) -> (r: Result<(), AppError>)
    ensures
        views(enabled_features@).contains(flag_key@) ==> r is Ok,
        !views(enabled_features@).contains(flag_key@) ==> (r matches Err(e)
            && crate::errors::is_not_found(e, "Platform operation route not found."@)),
{
    if !contains_string(enabled_features, flag_key) {
        return Err(AppError::NotFound(String::from_str("Platform operation route not found.")));
    }
    Ok(())
}

/// Whose service an own connection is: the org it is routed through, else
/// the user it was resolved for.
pub fn own_connection_owner(org_user_id: Option<String>, resolution_user_id: &str) -> (r: String)
    ensures
        match org_user_id {
            Some(o) => r == o,
            None => r@ == resolution_user_id@,
        },
{
    match org_user_id {
        Some(o) => o,
        None => String::from_str(resolution_user_id),
    }
}

/// Which authentication methods may see platform operations at all:
/// sessions and access tokens, and agent API keys.
pub fn platform_caller_class(auth_method: AuthMethod, api_key_id: Option<&str>) -> (r: Result<CallerClassCheck, AppError>)
    ensures
        match auth_method {
            AuthMethod::Session | AuthMethod::AccessToken => r matches Ok(CallerClassCheck::Allowed),
            AuthMethod::ApiKey => match api_key_id {
                Some(k) => r matches Ok(CallerClassCheck::AgentKeyRequired(id)) && id@ == k@,
                None => r matches Err(e) && is_unauthorized(
                    e,
                    "Agent API key identity is missing"@,
                ),
            },
            _ => r matches Err(e) && is_forbidden(
                e,
                "This token type cannot access platform operations."@,
            ),
        },
{
    match auth_method {
        AuthMethod::Session | AuthMethod::AccessToken => Ok(CallerClassCheck::Allowed),
        AuthMethod::ApiKey => match api_key_id {
            Some(k) => Ok(CallerClassCheck::AgentKeyRequired(String::from_str(k))),
            None => Err(AppError::Unauthorized(String::from_str("Agent API key identity is missing"))),
        },
        AuthMethod::Delegated | AuthMethod::Relay | AuthMethod::ServiceAccount => Err(
            AppError::Forbidden(String::from_str("This token type cannot access platform operations.")),
        ),
    }
}

/// The verdict on an API key caller once its key has been looked up.
pub fn agent_key_verdict(is_agent_key: bool) -> (r: Result<(), AppError>)
    ensures
        is_agent_key ==> r is Ok,
        !is_agent_key ==> (r matches Err(e) && is_forbidden(
            e,
            "A nyxid_ag_ agent API key is required for API-key access."@,
        )),
{
    if is_agent_key {
        Ok(())
    } else {
        Err(
            AppError::Forbidden(
                String::from_str("A nyxid_ag_ agent API key is required for API-key access."),
            ),
        )
    }
}

/// Access tokens and API keys spend the owner's credits only with the
/// `platform:spend` scope; other methods are judged by their class.
pub fn spend_scope_check(auth_method: AuthMethod, scope: &str) -> (r: Result<(), AppError>)
    ensures
        ((auth_method == AuthMethod::AccessToken || auth_method == AuthMethod::ApiKey) && !words(
            scope@,
        ).contains(PLATFORM_SPEND_SCOPE@)) ==> (r matches Err(e) && is_forbidden(
            e,
            "The 'platform:spend' scope is required to spend credits on platform operations."@,
        )),
        !((auth_method == AuthMethod::AccessToken || auth_method == AuthMethod::ApiKey) && !words(
            scope@,
        ).contains(PLATFORM_SPEND_SCOPE@)) ==> r is Ok,
{
    match auth_method {
        AuthMethod::AccessToken | AuthMethod::ApiKey => {
            let scopes = split_words(scope);
            if !contains_string(scopes.as_slice(), PLATFORM_SPEND_SCOPE) {
                return Err(
                    AppError::Forbidden(
                        String::from_str(
                            "The 'platform:spend' scope is required to spend credits on platform operations.",
                        ),
                    ),
                );
            }
            Ok(())
        },
        _ => Ok(()),
    }
}

/// The checks an executing operation runs before anything else, in order:
/// the spend scope first (so an unscoped token or key is refused without a
/// lookup), then the caller class. An API key still has to be confirmed an
/// active agent key (`agent_key_verdict`).
pub fn platform_spend_caller_class(
    auth_method: AuthMethod,
    scope: &str,
    api_key_id: Option<&str>,
) -> (r: Result<CallerClassCheck, AppError>)
    ensures
        !spend_scope_ok(auth_method, scope@) ==> (r matches Err(e) && is_forbidden(
            e,
            "The 'platform:spend' scope is required to spend credits on platform operations."@,
        )),
        spend_scope_ok(auth_method, scope@) ==> match auth_method {
            AuthMethod::Session | AuthMethod::AccessToken => r matches Ok(CallerClassCheck::Allowed),
            AuthMethod::ApiKey => match api_key_id {
                Some(k) => r matches Ok(CallerClassCheck::AgentKeyRequired(id)) && id@ == k@,
                None => r matches Err(e) && is_unauthorized(
                    e,
                    "Agent API key identity is missing"@,
                ),
            },
            _ => r matches Err(e) && is_forbidden(
                e,
                "This token type cannot access platform operations."@,
            ),
        },
{
    match spend_scope_check(auth_method, scope) {
        Ok(()) => {},
        Err(e) => return Err(e),
    }
    platform_caller_class(auth_method, api_key_id)
}

/// Whether the spend-scope check lets a method and scope through.
pub open spec fn spend_scope_ok(auth_method: AuthMethod, scope: Seq<char>) -> bool {
    !((auth_method == AuthMethod::AccessToken || auth_method == AuthMethod::ApiKey) && !words(
        scope,
    ).contains(PLATFORM_SPEND_SCOPE@))
}

/// Whether the caller-class check can let a method through (an API key
/// still has to be an agent key).
pub open spec fn caller_class_ok(auth_method: AuthMethod) -> bool {
    auth_method == AuthMethod::Session || auth_method == AuthMethod::AccessToken || auth_method
        == AuthMethod::ApiKey
}

/// Spending is open to the owner's browser session, and otherwise only to
/// access tokens and API keys that hold `platform:spend`.
pub proof fn lemma_spend_needs_session_or_scope(auth_method: AuthMethod, scope: Seq<char>)
    ensures
        spend_scope_ok(auth_method, scope) && caller_class_ok(auth_method) ==> (auth_method
            == AuthMethod::Session || words(scope).contains(PLATFORM_SPEND_SCOPE@)),
{
}

/// Refuses execution on a credential that cannot run the operation: a
/// node-routed, approval-gated, unusable or out-of-scope own connection,
/// or no credential at all.
pub fn execution_refusal(source: CredentialResolution, vendor_display_name: &str) -> (r: Option<AppError>)
    ensures
        match source {
            CredentialResolution::Platform { .. } | CredentialResolution::OwnConnection { .. } =>
                r is None,
            CredentialResolution::NodeRouted { .. } => r matches Some(
                AppError::PlatformOperationOwnConnectionUnsupported { vendor },
            ) && vendor@ == vendor_display_name@,
            CredentialResolution::ApprovalRequired { .. } => r matches Some(
                AppError::PlatformOperationApprovalRequired { vendor },
            ) && vendor@ == vendor_display_name@,
            CredentialResolution::OutOfScope { .. } => r matches Some(
                AppError::PlatformOperationOwnConnectionOutOfScope { vendor },
            ) && vendor@ == vendor_display_name@,
            CredentialResolution::Unusable { error, .. } => match error {
                Some(e) => r == Some(e),
                None => r matches Some(
                    AppError::PlatformOperationOwnConnectionUnusable { vendor, detail },
                ) && vendor@ == vendor_display_name@ && detail@ == "Reconnect it before retrying."@,
            },
            CredentialResolution::Unavailable { .. } => r matches Some(
                AppError::PlatformOperationUnavailable,
            ),
        },
{
    match source {
        CredentialResolution::Platform { .. } | CredentialResolution::OwnConnection { .. } => None,
        CredentialResolution::NodeRouted { .. } => Some(
            AppError::PlatformOperationOwnConnectionUnsupported {
                vendor: String::from_str(vendor_display_name),
            },
        ),
        CredentialResolution::ApprovalRequired { .. } => Some(
            AppError::PlatformOperationApprovalRequired {
                vendor: String::from_str(vendor_display_name),
            },
        ),
        CredentialResolution::OutOfScope { .. } => Some(
            AppError::PlatformOperationOwnConnectionOutOfScope {
                vendor: String::from_str(vendor_display_name),
            },
        ),
        CredentialResolution::Unusable { error, .. } => match error {
            Some(e) => Some(e),
            None => Some(
                AppError::PlatformOperationOwnConnectionUnusable {
                    vendor: String::from_str(vendor_display_name),
                    detail: String::from_str("Reconnect it before retrying."),
                },
            ),
        },
        CredentialResolution::Unavailable { .. } => Some(AppError::PlatformOperationUnavailable),
    }
}

/// Where an operation runs.
pub enum ExecutionTargetKind {
    /// On the platform credential, billed to this owner.
    Platform { billing_owner_id: String },
    /// On the caller's own connection.
    OwnConnection { service_owner_id: String, user_service_id: String, is_auto_connected: bool },
}

/// Whose approval policy a call clears: `(owner, service, auto-connected)`.
/// A platform-funded call is keyed on the catalog service and never counts
/// as auto-connected, so it cannot skip the owner's approval requirement.
pub fn approval_subject(target: &ExecutionTargetKind, catalog_service_id: &str) -> (r: (String, String, bool))
    ensures
        match *target {
            ExecutionTargetKind::Platform { billing_owner_id } => r.0 == billing_owner_id
                && r.1@ == catalog_service_id@ && !r.2,
            ExecutionTargetKind::OwnConnection {
                service_owner_id,
                user_service_id,
                is_auto_connected,
            } => r.0 == service_owner_id && r.1 == user_service_id && r.2 == is_auto_connected,
        },
{
    match target {
        ExecutionTargetKind::Platform { billing_owner_id } => (
            billing_owner_id.clone(),
            String::from_str(catalog_service_id),
            false,
        ),
        ExecutionTargetKind::OwnConnection {
            service_owner_id,
            user_service_id,
            is_auto_connected,
        } => (service_owner_id.clone(), user_service_id.clone(), *is_auto_connected),
    }
}

/// Whose execution an operation is, as it is reported and metered: the
/// billing owner of a platform-funded call, the caller's resolution user
/// for a call on an own connection.
pub fn execution_owner_id(target: &ExecutionTargetKind, caller: &PlatformOperationCaller) -> (r: String)
    ensures
        match *target {
            ExecutionTargetKind::Platform { billing_owner_id } => r == billing_owner_id,
            ExecutionTargetKind::OwnConnection { .. } => r == caller.resolution_user_id,
        },
{
    match target {
        ExecutionTargetKind::Platform { billing_owner_id } => billing_owner_id.clone(),
        ExecutionTargetKind::OwnConnection { .. } => caller.resolution_user_id.clone(),
    }
}

/// The approval policy's answer for a call.
pub enum ApprovalOutcome {
    Allowed,
    Denied,
    NeedsApproval,
}

pub fn approval_verdict(outcome: ApprovalOutcome, vendor_display_name: &str) -> (r: Result<(), AppError>)
    ensures
        match outcome {
            ApprovalOutcome::Allowed => r is Ok,
            ApprovalOutcome::Denied => r matches Err(e) && is_forbidden(
                e,
                "Operation denied by approval policy"@,
            ),
            ApprovalOutcome::NeedsApproval => r matches Err(
                AppError::PlatformOperationApprovalRequired { vendor },
            ) && vendor@ == vendor_display_name@,
        },
{
    match outcome {
        ApprovalOutcome::Allowed => Ok(()),
        ApprovalOutcome::Denied => Err(
            AppError::Forbidden(String::from_str("Operation denied by approval policy")),
        ),
        ApprovalOutcome::NeedsApproval => Err(
            AppError::PlatformOperationApprovalRequired {
                vendor: String::from_str(vendor_display_name),
            },
        ),
    }
}

/// A per-owner daily call cap for a day (`yyyymmdd`).
pub struct DailyLimit {
    pub yyyymmdd: String,
    pub cap: u32,
}

/// Only platform-funded calls count against the daily cap.
pub fn daily_limit_for(source: PlatformCredentialSource, yyyymmdd: &str, cap: u32) -> (r: Option<DailyLimit>)
    ensures
        source == PlatformCredentialSource::Platform ==> (r matches Some(l) && l.yyyymmdd@
            == yyyymmdd@ && l.cap == cap),
        source != PlatformCredentialSource::Platform ==> r is None,
{
    if source == PlatformCredentialSource::Platform {
        Some(DailyLimit { yyyymmdd: String::from_str(yyyymmdd), cap })
    } else {
        None
    }
}

/// Whether a failed vendor call is settled (billed) rather than released:
/// only a platform-funded call whose vendor may already have performed.
pub fn failure_settles(is_platform: bool, vendor_may_have_performed: bool) -> (r: bool)
    ensures
        r == (is_platform && vendor_may_have_performed),
{
    is_platform && vendor_may_have_performed
}

/// Seconds a call is estimated at before it runs: its configured maximum,
/// capped by the hard maximum.
pub fn call_and_say_estimated_seconds(max_duration_seconds: u32, hard_max_seconds: u32) -> (r: i64)
    ensures
        r == (if max_duration_seconds < hard_max_seconds {
            max_duration_seconds
        } else {
            hard_max_seconds
        }),
{
    if max_duration_seconds < hard_max_seconds {
        max_duration_seconds as i64
    } else {
        hard_max_seconds as i64
    }
}

/// The steps a metered platform operation goes through, in order. A call
/// on the caller's own connection skips from the approval check straight
/// to marking the attempt forwarded: it is rate-limited, priced, reserved
/// and billed only when platform-funded.
#[derive(Clone, Copy, Debug, PartialEq, Eq, Structural)]
pub enum MeteredStage {
    Approval,
    RateLimit,
    Pricing,
    SpendReservation,
    DailyReservation,
    BillingOpen,
    Materialize,
    MarkForwarded,
    Forward,
    VendorCheck,
}

/// What a step reports.
pub enum MeteredEvent {
    /// The owner's approval policy answered.
    Approval(ApprovalOutcome),
    /// The step succeeded (`true`) or failed (`false`).
    Step(bool),
    /// The vendor answered: whether with success, and whether with a 5xx.
    VendorAnswer { success: bool, server_error: bool },
}

/// Why a forwarded attempt is failed, as billing records it.
#[derive(Clone, Copy, Debug, PartialEq, Eq, Structural)]
pub enum AttemptFailure {
    CredentialUnavailable,
    MarkForwardedFailed,
    VendorRequestFailed,
    VendorNonSuccess,
    VendorResponseInvalid,
}

impl AttemptFailure {
    pub fn as_str(&self) -> (s: &'static str)
        ensures
            s@ == (match *self {
                AttemptFailure::CredentialUnavailable => "credential_unavailable"@,
                AttemptFailure::MarkForwardedFailed => "mark_forwarded_failed"@,
                AttemptFailure::VendorRequestFailed => "vendor_request_failed"@,
                AttemptFailure::VendorNonSuccess => "vendor_non_success"@,
                AttemptFailure::VendorResponseInvalid => "vendor_response_invalid"@,
            }),
    {
        match self {
            AttemptFailure::CredentialUnavailable => "credential_unavailable",
            AttemptFailure::MarkForwardedFailed => "mark_forwarded_failed",
            AttemptFailure::VendorRequestFailed => "vendor_request_failed",
            AttemptFailure::VendorNonSuccess => "vendor_non_success",
            AttemptFailure::VendorResponseInvalid => "vendor_response_invalid",
        }
    }
}

/// What is undone when a metered operation stops early.
#[derive(Clone, Copy, Debug, PartialEq, Eq, Structural)]
pub enum MeteredCleanup {
    /// Nothing was reserved yet.
    Nothing,
    /// Release the owner's spend reservation.
    ReleaseSpend,
    /// Release the daily call reservation and the spend reservation.
    ReleaseLimits,
    /// Fail the billing attempt, then release both reservations.
    FailAttempt(AttemptFailure),
    /// The vendor may have performed: settle the estimate and keep the
    /// daily reservation.
    Settle,
}

/// The next move of a metered operation.
#[derive(Clone, Copy, Debug, PartialEq, Eq, Structural)]
pub enum MeteredAction {
    Continue(MeteredStage),
    /// Stop with the step's error after the cleanup.
    Stop(MeteredCleanup),
    /// The vendor answered with success.
    Forwarded,
}

/// Whether an event is what a stage reports.
pub open spec fn event_fits(stage: MeteredStage, event: MeteredEvent) -> bool {
    match stage {
        MeteredStage::Approval => event is Approval,
        MeteredStage::VendorCheck => event is VendorAnswer,
        _ => event is Step,
    }
}

pub open spec fn spec_metered_step(stage: MeteredStage, is_platform: bool, event: MeteredEvent) -> MeteredAction {
    match event {
        MeteredEvent::Approval(outcome) => match outcome {
            ApprovalOutcome::Allowed => if is_platform {
                MeteredAction::Continue(MeteredStage::RateLimit)
            } else {
                MeteredAction::Continue(MeteredStage::MarkForwarded)
            },
            _ => MeteredAction::Stop(MeteredCleanup::Nothing),
        },
        MeteredEvent::Step(ok) => match stage {
            MeteredStage::RateLimit => if ok {
                MeteredAction::Continue(MeteredStage::Pricing)
            } else {
                MeteredAction::Stop(MeteredCleanup::Nothing)
            },
            MeteredStage::Pricing => if ok {
                MeteredAction::Continue(MeteredStage::SpendReservation)
            } else {
                MeteredAction::Stop(MeteredCleanup::Nothing)
            },
            MeteredStage::SpendReservation => if ok {
                MeteredAction::Continue(MeteredStage::DailyReservation)
            } else {
                MeteredAction::Stop(MeteredCleanup::Nothing)
            },
            MeteredStage::DailyReservation => if ok {
                MeteredAction::Continue(MeteredStage::BillingOpen)
            } else {
                MeteredAction::Stop(MeteredCleanup::ReleaseSpend)
            },
            MeteredStage::BillingOpen => if ok {
                MeteredAction::Continue(MeteredStage::Materialize)
            } else {
                MeteredAction::Stop(MeteredCleanup::ReleaseLimits)
            },
            MeteredStage::Materialize => if ok {
                MeteredAction::Continue(MeteredStage::MarkForwarded)
            } else {
                MeteredAction::Stop(MeteredCleanup::FailAttempt(AttemptFailure::CredentialUnavailable))
            },
            MeteredStage::MarkForwarded => if ok {
                MeteredAction::Continue(MeteredStage::Forward)
            } else {
                MeteredAction::Stop(MeteredCleanup::FailAttempt(AttemptFailure::MarkForwardedFailed))
            },
            _ => if ok {
                MeteredAction::Continue(MeteredStage::VendorCheck)
            } else {
                MeteredAction::Stop(MeteredCleanup::FailAttempt(AttemptFailure::VendorRequestFailed))
            },
        },
        MeteredEvent::VendorAnswer { success, server_error } => if success {
            MeteredAction::Forwarded
        } else if is_platform && server_error {
            MeteredAction::Stop(MeteredCleanup::Settle)
        } else {
            MeteredAction::Stop(MeteredCleanup::FailAttempt(AttemptFailure::VendorNonSuccess))
        },
    }
}

/// One step of forwarding a metered platform operation: where to go next,
/// or what to undo before stopping.
pub fn metered_step(stage: MeteredStage, is_platform: bool, event: MeteredEvent) -> (r: MeteredAction)
    requires
        event_fits(stage, event),
    ensures
        r == spec_metered_step(stage, is_platform, event),
{
    match event {
        MeteredEvent::Approval(outcome) => match outcome {
            ApprovalOutcome::Allowed => if is_platform {
                MeteredAction::Continue(MeteredStage::RateLimit)
            } else {
                MeteredAction::Continue(MeteredStage::MarkForwarded)
            },
            _ => MeteredAction::Stop(MeteredCleanup::Nothing),
        },
        MeteredEvent::Step(ok) => match stage {
            MeteredStage::RateLimit => if ok {
                MeteredAction::Continue(MeteredStage::Pricing)
            } else {
                MeteredAction::Stop(MeteredCleanup::Nothing)
            },
            MeteredStage::Pricing => if ok {
                MeteredAction::Continue(MeteredStage::SpendReservation)
            } else {
                MeteredAction::Stop(MeteredCleanup::Nothing)
            },
            MeteredStage::SpendReservation => if ok {
                MeteredAction::Continue(MeteredStage::DailyReservation)
            } else {
                MeteredAction::Stop(MeteredCleanup::Nothing)
            },
            MeteredStage::DailyReservation => if ok {
                MeteredAction::Continue(MeteredStage::BillingOpen)
            } else {
                MeteredAction::Stop(MeteredCleanup::ReleaseSpend)
            },
            MeteredStage::BillingOpen => if ok {
                MeteredAction::Continue(MeteredStage::Materialize)
            } else {
                MeteredAction::Stop(MeteredCleanup::ReleaseLimits)
            },
            MeteredStage::Materialize => if ok {
                MeteredAction::Continue(MeteredStage::MarkForwarded)
            } else {
                MeteredAction::Stop(MeteredCleanup::FailAttempt(AttemptFailure::CredentialUnavailable))
            },
            MeteredStage::MarkForwarded => if ok {
                MeteredAction::Continue(MeteredStage::Forward)
            } else {
                MeteredAction::Stop(MeteredCleanup::FailAttempt(AttemptFailure::MarkForwardedFailed))
            },
            _ => if ok {
                MeteredAction::Continue(MeteredStage::VendorCheck)
            } else {
                MeteredAction::Stop(MeteredCleanup::FailAttempt(AttemptFailure::VendorRequestFailed))
            },
        },
        MeteredEvent::VendorAnswer { success, server_error } => if success {
            MeteredAction::Forwarded
        } else if is_platform && server_error {
            MeteredAction::Stop(MeteredCleanup::Settle)
        } else {
            MeteredAction::Stop(MeteredCleanup::FailAttempt(AttemptFailure::VendorNonSuccess))
        },
    }
}

/// Whether a platform-funded operation holds the owner's spend
/// reservation when it reaches `stage`.
pub open spec fn holds_spend(stage: MeteredStage) -> bool {
    match stage {
        MeteredStage::DailyReservation | MeteredStage::BillingOpen | MeteredStage::Materialize
        | MeteredStage::MarkForwarded | MeteredStage::Forward | MeteredStage::VendorCheck => true,
        _ => false,
    }
}

/// A platform-funded operation never stops while holding a reservation
/// without releasing it or settling, and an operation on the caller's own
/// connection never settles: its failures are released, never charged.
/// A vendor 5xx on a platform call settles; any other vendor failure
/// releases.
pub proof fn lemma_metered_stops_release_reservations(
    stage: MeteredStage,
    is_platform: bool,
    event: MeteredEvent,
)
    requires
        event_fits(stage, event),
    ensures
        (is_platform && holds_spend(stage) && spec_metered_step(stage, is_platform, event) is Stop)
            ==> spec_metered_step(stage, is_platform, event) != MeteredAction::Stop(
            MeteredCleanup::Nothing,
        ),
        !is_platform ==> spec_metered_step(stage, is_platform, event) != MeteredAction::Stop(
            MeteredCleanup::Settle,
        ),
        (stage == MeteredStage::VendorCheck && event is VendorAnswer && !event->success)
            ==> spec_metered_step(stage, is_platform, event) == MeteredAction::Stop(
            if is_platform && event->server_error {
                MeteredCleanup::Settle
            } else {
                MeteredCleanup::FailAttempt(AttemptFailure::VendorNonSuccess)
            },
        ),
{
}

/// An operation on the caller's own connection goes from its approval
/// straight to forwarding: it never reaches rate limiting, pricing, a
/// reservation or billing.
pub proof fn lemma_own_connection_skips_metering(event: MeteredEvent)
    requires
        event is Approval,
    ensures
        spec_metered_step(MeteredStage::Approval, false, event) is Continue ==> spec_metered_step(
            MeteredStage::Approval,
            false,
            event,
        ) == MeteredAction::Continue(MeteredStage::MarkForwarded),
{
}

/// A metered operation run from `stage` on the reported events, as long as
/// each event is what its stage reports: the action of the first step that
/// does not continue (or where it stands when the events run out), and
/// whether a daily reservation was taken on the way.
pub open spec fn metered_run(stage: MeteredStage, is_platform: bool, events: Seq<MeteredEvent>) -> (MeteredAction, bool)
    decreases events.len(),
{
    if events.len() == 0 || !event_fits(stage, events[0]) {
        (MeteredAction::Continue(stage), false)
    } else {
        let reserved_here = stage == MeteredStage::DailyReservation && events[0]
            == MeteredEvent::Step(true);
        match spec_metered_step(stage, is_platform, events[0]) {
            MeteredAction::Continue(next) => {
                let rest = metered_run(next, is_platform, events.drop_first());
                (rest.0, rest.1 || reserved_here)
            },
            a => (a, reserved_here),
        }
    }
}

/// Stages a platform-funded operation reaches only after its daily reservation.
pub open spec fn past_daily_reservation(stage: MeteredStage) -> bool {
    match stage {
        MeteredStage::BillingOpen | MeteredStage::Materialize | MeteredStage::MarkForwarded
        | MeteredStage::Forward | MeteredStage::VendorCheck => true,
        _ => false,
    }
}

/// Stages only a platform-funded operation passes through.
pub open spec fn metering_stage(stage: MeteredStage) -> bool {
    match stage {
        MeteredStage::RateLimit | MeteredStage::Pricing | MeteredStage::SpendReservation
        | MeteredStage::DailyReservation => true,
        _ => false,
    }
}

proof fn lemma_metered_run_from(stage: MeteredStage, is_platform: bool, events: Seq<MeteredEvent>)
    ensures
        (is_platform && metered_run(stage, is_platform, events).0 == MeteredAction::Forwarded)
            ==> (metered_run(stage, is_platform, events).1 || past_daily_reservation(stage)),
        (!is_platform && !metering_stage(stage)) ==> !metered_run(stage, is_platform, events).1,
    decreases events.len(),
{
    if events.len() > 0 && event_fits(stage, events[0]) {
        match spec_metered_step(stage, is_platform, events[0]) {
            MeteredAction::Continue(next) => {
                lemma_metered_run_from(next, is_platform, events.drop_first());
            },
            _ => {},
        }
    }
}

/// A platform-funded call is forwarded with success only after its daily
/// reservation was taken, so the reservation service's per-owner, per-day
/// count bounds the calls that succeed; a call on the caller's own
/// connection never takes a daily reservation.
pub proof fn lemma_forwarded_platform_call_holds_daily_reservation(
    is_platform: bool,
    events: Seq<MeteredEvent>,
)
    ensures
        (is_platform && metered_run(MeteredStage::Approval, is_platform, events).0
            == MeteredAction::Forwarded) ==> metered_run(MeteredStage::Approval, is_platform, events).1,
        !is_platform ==> !metered_run(MeteredStage::Approval, is_platform, events).1,
{
    lemma_metered_run_from(MeteredStage::Approval, is_platform, events);
}

/// Whether a step's report is a success: an allowing approval, a step that
/// succeeded, a vendor's success.
pub open spec fn event_succeeded(event: MeteredEvent) -> bool {
    match event {
        MeteredEvent::Approval(o) => o is Allowed,
        MeteredEvent::Step(ok) => ok,
        MeteredEvent::VendorAnswer { success, .. } => success,
    }
}

/// The position of a stage in a platform-funded operation.
pub open spec fn stage_rank(stage: MeteredStage) -> int {
    match stage {
        MeteredStage::Approval => 0,
        MeteredStage::RateLimit => 1,
        MeteredStage::Pricing => 2,
        MeteredStage::SpendReservation => 3,
        MeteredStage::DailyReservation => 4,
        MeteredStage::BillingOpen => 5,
        MeteredStage::Materialize => 6,
        MeteredStage::MarkForwarded => 7,
        MeteredStage::Forward => 8,
        MeteredStage::VendorCheck => 9,
    }
}

/// The steps a run from `stage` takes on the reported events (while each is
/// what its stage reports): each stage with whether its report succeeded.
pub open spec fn metered_trace(stage: MeteredStage, is_platform: bool, events: Seq<MeteredEvent>) -> Seq<(MeteredStage, bool)>
    decreases events.len(),
{
    if events.len() == 0 || !event_fits(stage, events[0]) {
        Seq::empty()
    } else {
        let entry = (stage, event_succeeded(events[0]));
        match spec_metered_step(stage, is_platform, events[0]) {
            MeteredAction::Continue(next) => seq![entry] + metered_trace(
                next,
                is_platform,
                events.drop_first(),
            ),
            _ => seq![entry],
        }
    }
}

/// Whether a trace passes through the stage of position `r`.
pub open spec fn visits_rank(t: Seq<(MeteredStage, bool)>, r: int) -> bool {
    exists|i: int| 0 <= i < t.len() && stage_rank((#[trigger] t[i]).0) == r
}

/// A failed report never lets an operation go on: a refused approval, a
/// failed step at any stage (rate limit, pricing, spend or daily
/// reservation, billing, credential, marking, forwarding) or a vendor
/// failure always stops it, whoever funds it; and a successful report never
/// stops it.
pub proof fn lemma_failure_stops_success_continues(
    stage: MeteredStage,
    is_platform: bool,
    event: MeteredEvent,
)
    requires
        event_fits(stage, event),
    ensures
        !event_succeeded(event) ==> spec_metered_step(stage, is_platform, event) is Stop,
        event_succeeded(event) ==> !(spec_metered_step(stage, is_platform, event) is Stop),
        spec_metered_step(stage, is_platform, event) == MeteredAction::Forwarded ==> stage
            == MeteredStage::VendorCheck,
{
}

/// Whether a cleanup releases the owner's spend reservation.
pub open spec fn releases_spend(c: MeteredCleanup) -> bool {
    c is ReleaseSpend || c is ReleaseLimits || c is FailAttempt
}

/// Whether a cleanup releases the daily call reservation.
pub open spec fn releases_daily(c: MeteredCleanup) -> bool {
    c is ReleaseLimits || c is FailAttempt
}

/// A platform-funded operation that fails undoes exactly what it holds:
/// before its spend reservation is taken nothing is released; after it, the
/// spend reservation; after the daily reservation, that one too; once a
/// billing attempt is open, the attempt is failed as well. Only a vendor
/// 5xx, after the call was placed, settles instead.
pub proof fn lemma_failure_releases_what_is_held(stage: MeteredStage, event: MeteredEvent)
    requires
        event_fits(stage, event),
        !event_succeeded(event),
    ensures
        spec_metered_step(stage, true, event) matches MeteredAction::Stop(c) && (if c
            is Settle {
            stage == MeteredStage::VendorCheck && event == (MeteredEvent::VendorAnswer {
                success: false,
                server_error: true,
            })
        } else {
            &&& releases_spend(c) == (stage_rank(stage) > 3)
            &&& releases_daily(c) == (stage_rank(stage) > 4)
            &&& (c is FailAttempt) == (stage_rank(stage) > 5)
        }),
{
}

proof fn lemma_metered_trace_from(stage: MeteredStage, is_platform: bool, events: Seq<MeteredEvent>)
    ensures
        metered_run(stage, is_platform, events).0 == MeteredAction::Forwarded ==> {
            let t = metered_trace(stage, is_platform, events);
            &&& forall|i: int| 0 <= i < t.len() ==> (#[trigger] t[i]).1
            &&& is_platform ==> forall|r: int|
                stage_rank(stage) <= r <= 9 ==> #[trigger] visits_rank(t, r)
            &&& (!is_platform && own_connection_stage(stage)) ==> forall|i: int|
                0 <= i < t.len() ==> own_connection_stage((#[trigger] t[i]).0)
        },
    decreases events.len(),
{
    if events.len() > 0 && event_fits(stage, events[0]) {
        lemma_failure_stops_success_continues(stage, is_platform, events[0]);
        let entry = (stage, event_succeeded(events[0]));
        match spec_metered_step(stage, is_platform, events[0]) {
            MeteredAction::Continue(next) => {
                let rest = events.drop_first();
                lemma_metered_trace_from(next, is_platform, rest);
                if metered_run(stage, is_platform, events).0 == MeteredAction::Forwarded {
                    let tr = metered_trace(next, is_platform, rest);
                    let t = metered_trace(stage, is_platform, events);
                    assert(t == seq![entry] + tr);
                    assert forall|i: int| 0 <= i < t.len() implies (#[trigger] t[i]).1 by {
                        if i > 0 {
                            assert(t[i] == tr[i - 1]);
                        }
                    }
                    if is_platform {
                        assert(stage_rank(next) == stage_rank(stage) + 1);
                        assert forall|r: int| stage_rank(stage) <= r <= 9 implies #[trigger] visits_rank(
                            t,
                            r,
                        ) by {
                            if r == stage_rank(stage) {
                                assert(stage_rank(t[0].0) == r);
                            } else {
                                assert(visits_rank(tr, r));
                                let j = choose|j: int|
                                    0 <= j < tr.len() && stage_rank((#[trigger] tr[j]).0) == r;
                                assert(t[j + 1] == tr[j]);
                            }
                        }
                    } else if own_connection_stage(stage) {
                        lemma_own_connection_stage(stage, next, events[0]);
                        assert forall|i: int| 0 <= i < t.len() implies own_connection_stage(
                            (#[trigger] t[i]).0,
                        ) by {
                            if i > 0 {
                                assert(t[i] == tr[i - 1]);
                            }
                        }
                    }
                }
            },
            _ => {
                let t = metered_trace(stage, is_platform, events);
                if metered_run(stage, is_platform, events).0 == MeteredAction::Forwarded {
                    assert(t == seq![entry]);
                    assert(t[0] == entry);
                    assert(stage == MeteredStage::VendorCheck);
                    assert(stage_rank(t[0].0) == 9);
                    assert(visits_rank(t, 9));
                }
            },
        }
    }
}

proof fn lemma_own_connection_stage(stage: MeteredStage, next: MeteredStage, event: MeteredEvent)
    requires
        event_fits(stage, event),
        own_connection_stage(stage),
        spec_metered_step(stage, false, event) == MeteredAction::Continue(next),
    ensures
        own_connection_stage(next),
{
}

/// The stages an operation on the caller's own connection goes through.
pub open spec fn own_connection_stage(stage: MeteredStage) -> bool {
    match stage {
        MeteredStage::Approval | MeteredStage::MarkForwarded | MeteredStage::Forward
        | MeteredStage::VendorCheck => true,
        _ => false,
    }
}

/// A platform-funded operation is forwarded with success only after every
/// stage succeeded in order: approval, rate limit, pricing, spend
/// reservation, daily reservation, billing, credential, marking, forwarding
/// and the vendor's answer. An operation on the caller's own connection is
/// forwarded with success only after every step it took succeeded, and it
/// only passes approval, marking, forwarding and the vendor's answer: it is
/// never rate-limited, priced, reserved or billed.
pub proof fn lemma_forwarded_run_passed_every_stage(is_platform: bool, events: Seq<MeteredEvent>)
    ensures
        metered_run(MeteredStage::Approval, is_platform, events).0 == MeteredAction::Forwarded ==> {
            let t = metered_trace(MeteredStage::Approval, is_platform, events);
            &&& forall|i: int| 0 <= i < t.len() ==> (#[trigger] t[i]).1
            &&& is_platform ==> forall|r: int| 0 <= r <= 9 ==> #[trigger] visits_rank(t, r)
            &&& !is_platform ==> forall|i: int|
                0 <= i < t.len() ==> own_connection_stage((#[trigger] t[i]).0)
        },
{
    lemma_metered_trace_from(MeteredStage::Approval, is_platform, events);
}

/// What is undone when a forwarded operation's vendor response cannot be
/// read: a platform call settles (the vendor has performed), a call on the
/// caller's own connection is failed and released.
pub fn unreadable_response_cleanup(is_platform: bool) -> (r: MeteredCleanup)
    ensures
        is_platform ==> r == MeteredCleanup::Settle,
        !is_platform ==> r == MeteredCleanup::FailAttempt(AttemptFailure::VendorResponseInvalid),
{
    if is_platform {
        MeteredCleanup::Settle
    } else {
        MeteredCleanup::FailAttempt(AttemptFailure::VendorResponseInvalid)
    }
}

/// The form body of a call request: the vendor's form fields, in order,
/// `application/x-www-form-urlencoded`.
pub fn call_and_say_form_body(form: &[(String, String)]) -> (r: String)
    ensures
        r@ == form_pairs_encoded(pair_views(form@)),
{
    form_urlencode_pairs(form)
}

/// How a placed call is accounted for once the vendor accepted it.
#[derive(Clone, Copy, Debug, PartialEq, Eq, Structural)]
pub enum CallCompletion {
    /// Platform call with a call id: bill it when the call ends.
    DeferToCallEnd,
    /// Platform call without a usable call id: settle the estimate and
    /// report the operation unavailable.
    SettleEstimateAndFail,
    /// Own-connection call: settle with no billed seconds.
    SettleWithoutSeconds,
}

pub fn call_completion(is_platform: bool, call_sid_valid: bool) -> (r: CallCompletion)
    ensures
        r == (if !is_platform {
            CallCompletion::SettleWithoutSeconds
        } else if call_sid_valid {
            CallCompletion::DeferToCallEnd
        } else {
            CallCompletion::SettleEstimateAndFail
        }),
{
    if !is_platform {
        CallCompletion::SettleWithoutSeconds
    } else if call_sid_valid {
        CallCompletion::DeferToCallEnd
    } else {
        CallCompletion::SettleEstimateAndFail
    }
}

/// Audit outcome of an operation's result.
pub open spec fn spec_audit_outcome<T>(result: Result<T, AppError>) -> Seq<char> {
    match result {
        Ok(_) => "succeeded"@,
        Err(e) => match e {
            AppError::TokenExpired => "own_connection_unusable"@,
            AppError::NotFound(_) => "not_found"@,
            AppError::RateLimited => "rate_limited"@,
            AppError::InsufficientCredits => "insufficient_credits"@,
            AppError::PlatformOperationOwnConnectionUnsupported { .. }
            | AppError::PlatformOperationOwnConnectionUnusable { .. } => "own_connection_unusable"@,
            AppError::PlatformOperationApprovalRequired { .. } => "approval_required"@,
            AppError::PlatformOperationOwnConnectionOutOfScope { .. } =>
                "own_connection_out_of_scope"@,
            AppError::BadRequest(_) | AppError::ValidationError(_) => "rejected"@,
            AppError::PlatformOperationUnavailable => "vendor_unavailable"@,
            _ => "failed"@,
        },
    }
}

/// Names the outcome of an operation for the audit log.
pub fn audit_outcome<T>(result: &Result<T, AppError>) -> (r: &'static str)
    ensures
        r@ == spec_audit_outcome(*result),
{
    match result {
        Ok(_) => "succeeded",
        Err(AppError::TokenExpired) => "own_connection_unusable",
        Err(AppError::NotFound(_)) => "not_found",
        Err(AppError::RateLimited) => "rate_limited",
        Err(AppError::InsufficientCredits) => "insufficient_credits",
        Err(
            AppError::PlatformOperationOwnConnectionUnsupported { .. }
            | AppError::PlatformOperationOwnConnectionUnusable { .. },
        ) => "own_connection_unusable",
        Err(AppError::PlatformOperationApprovalRequired { .. }) => "approval_required",
        Err(AppError::PlatformOperationOwnConnectionOutOfScope { .. }) => "own_connection_out_of_scope",
        Err(AppError::BadRequest(_) | AppError::ValidationError(_)) => "rejected",
        Err(AppError::PlatformOperationUnavailable) => "vendor_unavailable",
        Err(_) => "failed",
    }
}

} // verus!

//! Decisions of the authorization endpoint: prompt handling, when to ask
//! for login or consent, the consent form's outcome, pushed requests, the
//! signed consent request, and the success page shown to native clients.
use vstd::prelude::*;
use crate::client_auth::header_chars;
use crate::encoding::{parsed_scheme_and_host, url_scheme_and_host, opt_string_view};
use crate::client_auth::header_text;
use crate::errors::{AppError, is_bad_request, is_invalid_target};
use crate::oauth_consent::{
    Consent,
    ResolvedOAuthResources,
    consent_requires_prompt,
    spec_consent_requires_prompt,
    no_duplicates,
    lemma_push_members,
    lemma_push_no_duplicates,
    lemma_drop_last_members,
    normalize_allowed_service_ids,
    spec_normalize_ids,
    lemma_normalize_members,
    selected_resources_are_subset,
};
use crate::oauth_types::{AuthorizeQuery, ConsentDecisionForm, ExternalSubjectRef};
use crate::oauth_urls::{build_callback_error_url, callback_error_url};
use crate::text::{
    views,
    words,
    split_words,
    contains_string,
    contains_str,
    contains_seq,
    str_eq,
    clone_opt_string,
    clone_string_vec,
    chars_of,
};

verus! {

/// `s` with later repeats removed, in order of first occurrence.
pub open spec fn dedup(s: Seq<Seq<char>>) -> Seq<Seq<char>>
    decreases s.len(),
{
    if s.len() == 0 {
        Seq::empty()
    } else {
        let prev = dedup(s.drop_last());
        if prev.contains(s.last()) {
            prev
        } else {
            prev.push(s.last())
        }
    }
}

/// The deduplicated list has no repeats and the same members.
pub proof fn lemma_dedup_members(s: Seq<Seq<char>>)
    ensures
        no_duplicates(dedup(s)),
        forall|x: Seq<char>| #[trigger] dedup(s).contains(x) <==> s.contains(x),
    decreases s.len(),
{
    if s.len() > 0 {
        lemma_dedup_members(s.drop_last());
        lemma_drop_last_members(s);
        let prev = dedup(s.drop_last());
        if !prev.contains(s.last()) {
            lemma_push_members(prev, s.last());
            lemma_push_no_duplicates(prev, s.last());
        }
    }
}

/// The set of OIDC `prompt` values of a request.
pub struct PromptSet {
    pub values: Vec<String>,
}

impl PromptSet {
    /// Whether the set holds `value`.
    pub fn contains(&self, value: &str) -> (r: bool)
        ensures
            r == views(self.values@).contains(value@),
    {
        contains_string(self.values.as_slice(), value)
    }

    /// Number of distinct values.
    pub fn len(&self) -> (n: usize)
        ensures
            n == self.values@.len(),
    {
        self.values.len()
    }

    pub fn is_empty(&self) -> (r: bool)
        ensures
            r == (self.values@.len() == 0),
    {
        self.values.len() == 0
    }
}

/// The words of a `prompt` parameter.
pub open spec fn prompt_words(prompt: Option<Seq<char>>) -> Seq<Seq<char>> {
    match prompt {
        Some(p) => words(p),
        None => Seq::empty(),
    }
}

/// Parses the `prompt` parameter into its distinct space-separated values
/// (OIDC Core §3.1.2.1).
pub fn parse_prompt(prompt: Option<&str>) -> (r: PromptSet)
    ensures
        views(r.values@) == dedup(
            prompt_words(
                match prompt {
                    Some(p) => Some(p@),
                    None => None,
                },
            ),
        ),
{
    let ws: Vec<String> = match prompt {
        Some(p) => split_words(p),
        None => Vec::new(),
    };
    let ghost all = views(ws@);
    let mut out: Vec<String> = Vec::new();
    let mut i: usize = 0;
    while i < ws.len()
        invariant
            i <= ws.len(),
            all == views(ws@),
            views(out@) == dedup(all.take(i as int)),
        decreases ws.len() - i,
    {
        let ghost before = views(out@);
        assert(all.take(i + 1).drop_last() =~= all.take(i as int));
        assert(all.take(i + 1).last() == ws@[i as int]@);
        if !contains_string(out.as_slice(), ws[i].as_str()) {
            out.push(ws[i].clone());
            assert(views(out@) =~= before.push(ws@[i as int]@));
        }
        i = i + 1;
    }
    assert(all.take(ws.len() as int) =~= all);
    PromptSet { values: out }
}

/// A parsed prompt holds each of its words exactly once.
pub proof fn lemma_parse_prompt_members(prompt: Option<Seq<char>>)
    ensures
        no_duplicates(dedup(prompt_words(prompt))),
        forall|x: Seq<char>| #[trigger]
            dedup(prompt_words(prompt)).contains(x) <==> prompt_words(prompt).contains(x),
{
    lemma_dedup_members(prompt_words(prompt));
}

/// What the authorization endpoint does with a request before it looks at
/// the user's consent.
#[derive(PartialEq, Eq, Structural)]
pub enum AuthorizeEntry {
    /// Browser request with `prompt=none` and no usable session: the client
    /// is sent `login_required`.
    LoginRequired,
    /// Browser request without a usable session: the user is sent to log in.
    RedirectToLogin,
    /// API request without authentication.
    AuthenticationRequired,
    /// The user is known: go on to consent.
    Proceed,
}

/// The entry decision; `None` when `prompt=none` is combined with `login`
/// or `consent`. `prompt=login` discards the browser session.
pub open spec fn spec_authorize_entry(prompts: Seq<Seq<char>>, browser: bool, authenticated: bool) -> Option<AuthorizeEntry> {
    if prompts.contains("none"@) && (prompts.contains("login"@) || prompts.contains("consent"@)) {
        None
    } else if browser {
        if authenticated && !prompts.contains("login"@) {
            Some(AuthorizeEntry::Proceed)
        } else if prompts.contains("none"@) {
            Some(AuthorizeEntry::LoginRequired)
        } else {
            Some(AuthorizeEntry::RedirectToLogin)
        }
    } else if authenticated {
        Some(AuthorizeEntry::Proceed)
    } else {
        Some(AuthorizeEntry::AuthenticationRequired)
    }
}

pub fn authorize_entry(prompts: &PromptSet, is_browser_mode: bool, authenticated: bool) -> (r: Result<AuthorizeEntry, AppError>)
    ensures
        match r {
            Ok(e) => spec_authorize_entry(views(prompts.values@), is_browser_mode, authenticated)
                == Some(e),
            Err(e) => spec_authorize_entry(views(prompts.values@), is_browser_mode, authenticated)
                is None && is_bad_request(e, "prompt=none cannot be combined with login or consent"@),
        },
{
    let none = prompts.contains("none");
    let login = prompts.contains("login");
    let consent = prompts.contains("consent");
    if none && (login || consent) {
        return Err(
            AppError::BadRequest(
                String::from_str("prompt=none cannot be combined with login or consent"),
            ),
        );
    }
    if is_browser_mode {
        if authenticated && !login {
            Ok(AuthorizeEntry::Proceed)
        } else if none {
            Ok(AuthorizeEntry::LoginRequired)
        } else {
            Ok(AuthorizeEntry::RedirectToLogin)
        }
    } else if authenticated {
        Ok(AuthorizeEntry::Proceed)
    } else {
        Ok(AuthorizeEntry::AuthenticationRequired)
    }
}

/// A request without a `prompt=none` conflict proceeds to consent exactly
/// when its user is known and, in a browser, `prompt=login` does not discard
/// the session. Otherwise a browser user is sent to log in (the client is
/// told `login_required` under `prompt=none`), and an API caller is told
/// authentication is required. A conflicting `prompt` is refused in every
/// mode.
pub proof fn lemma_authorize_entry_proceeds_iff_user_known(
    prompts: Seq<Seq<char>>,
    browser: bool,
    authenticated: bool,
)
    ensures
        (prompts.contains("none"@) && (prompts.contains("login"@) || prompts.contains(
            "consent"@,
        ))) <==> spec_authorize_entry(prompts, browser, authenticated) is None,
        spec_authorize_entry(prompts, browser, authenticated) is Some ==> ((spec_authorize_entry(
            prompts,
            browser,
            authenticated,
        ) == Some(AuthorizeEntry::Proceed)) <==> (authenticated && (!browser || !prompts.contains(
            "login"@,
        )))),
        (spec_authorize_entry(prompts, browser, authenticated) is Some && browser && !(
        authenticated && !prompts.contains("login"@))) ==> spec_authorize_entry(
            prompts,
            browser,
            authenticated,
        ) == Some(
            if prompts.contains("none"@) {
                AuthorizeEntry::LoginRequired
            } else {
                AuthorizeEntry::RedirectToLogin
            },
        ),
        (spec_authorize_entry(prompts, browser, authenticated) is Some && !browser
            && !authenticated) ==> spec_authorize_entry(prompts, browser, authenticated) == Some(
            AuthorizeEntry::AuthenticationRequired,
        ),
{
}

/// What the authorization endpoint does once the user's consent is known.
#[derive(PartialEq, Eq, Structural)]
pub enum ConsentStep {
    /// Browser request with `prompt=none`: the client is sent `consent_required`.
    ConsentRequired,
    /// Browser request: the user is sent to the consent page.
    ShowConsentPage,
    /// API request: the error carries the consent page URL.
    ReportConsentUrl,
    /// The stored grant covers the request: issue a code.
    IssueCode,
}

/// Where the client is sent for `ConsentStep::ConsentRequired`: its
/// callback with `consent_required`.
pub fn consent_required_redirect(params: &AuthorizeQuery) -> (url: String)
    ensures
        url@ == callback_error_url(*params, "consent_required"@, "User consent is required"@),
{
    build_callback_error_url(params, "consent_required", "User consent is required")
}

/// Where the client is sent when the user denies consent: its callback
/// with `access_denied`, built from the signed request's parameters.
pub fn access_denied_redirect(params: &AuthorizeQuery) -> (url: String)
    ensures
        url@ == callback_error_url(
            *params,
            "access_denied"@,
            "The resource owner denied the request"@,
        ),
{
    build_callback_error_url(params, "access_denied", "The resource owner denied the request")
}

/// Consent is needed for a binding review, when the stored grant does not
/// cover the request, or when `prompt=consent` asks for it.
pub open spec fn spec_consent_step(
    prompts: Seq<Seq<char>>,
    browser: bool,
    binding_review: bool,
    consent: Option<Consent>,
    resolved: Option<ResolvedOAuthResources>,
) -> ConsentStep {
    if binding_review || spec_consent_requires_prompt(consent, resolved) || prompts.contains(
        "consent"@,
    ) {
        if browser {
            if prompts.contains("none"@) {
                ConsentStep::ConsentRequired
            } else {
                ConsentStep::ShowConsentPage
            }
        } else {
            ConsentStep::ReportConsentUrl
        }
    } else {
        ConsentStep::IssueCode
    }
}

pub fn consent_step(
    prompts: &PromptSet,
    is_browser_mode: bool,
    binding_review: bool,
    consent: Option<&Consent>,
    resolved_resources: Option<&ResolvedOAuthResources>,
) -> (r: ConsentStep)
    ensures
        r == spec_consent_step(
            views(prompts.values@),
            is_browser_mode,
            binding_review,
            match consent {
                Some(c) => Some(*c),
                None => None,
            },
            match resolved_resources {
                Some(x) => Some(*x),
                None => None,
            },
        ),
{
    let needs_consent = binding_review || consent_requires_prompt(consent, resolved_resources)
        || prompts.contains("consent");
    if needs_consent {
        if is_browser_mode {
            if prompts.contains("none") {
                ConsentStep::ConsentRequired
            } else {
                ConsentStep::ShowConsentPage
            }
        } else {
            ConsentStep::ReportConsentUrl
        }
    } else {
        ConsentStep::IssueCode
    }
}

/// `prompt=none` is never answered with an interactive page: neither the
/// login page nor the consent page.
pub proof fn lemma_prompt_none_is_never_interactive(
    prompts: Seq<Seq<char>>,
    browser: bool,
    authenticated: bool,
    binding_review: bool,
    consent: Option<Consent>,
    resolved: Option<ResolvedOAuthResources>,
)
    requires
        prompts.contains("none"@),
    ensures
        spec_authorize_entry(prompts, browser, authenticated) != Some(
            AuthorizeEntry::RedirectToLogin,
        ),
        spec_consent_step(prompts, browser, binding_review, consent, resolved)
            != ConsentStep::ShowConsentPage,
{
}

/// `prompt=login` in a browser always sends the user through login again.
pub proof fn lemma_prompt_login_forces_login(prompts: Seq<Seq<char>>, authenticated: bool)
    requires
        prompts.contains("login"@),
    ensures
        spec_authorize_entry(prompts, true, authenticated) != Some(AuthorizeEntry::Proceed),
{
}

/// A code is issued without asking only on a stored grant that covers the
/// request, outside a binding review, and without `prompt=consent`.
pub proof fn lemma_silent_code_needs_covering_consent(
    prompts: Seq<Seq<char>>,
    browser: bool,
    binding_review: bool,
    consent: Option<Consent>,
    resolved: Option<ResolvedOAuthResources>,
)
    ensures
        spec_consent_step(prompts, browser, binding_review, consent, resolved)
            == ConsentStep::IssueCode ==> {
            &&& consent is Some
            &&& !spec_consent_requires_prompt(consent, resolved)
            &&& !binding_review
            &&& !prompts.contains("consent"@)
        },
{
}

/// Checks the parts of an authorization request that need no lookup:
/// `response_type=code` and a PKCE challenge with method `S256`.
pub open spec fn spec_authorize_request_error(p: AuthorizeQuery) -> Option<Seq<char>> {
    if p.response_type@ != "code"@ {
        Some("Only response_type=code is supported"@)
    } else if p.code_challenge is None {
        Some("code_challenge is required (PKCE)"@)
    } else {
        match p.code_challenge_method {
            Some(m) => if m@ == "S256"@ {
                None
            } else {
                Some("Only S256 code_challenge_method is supported"@)
            },
            None => Some("code_challenge_method is required (must be S256)"@),
        }
    }
}

pub fn check_authorize_request(params: &AuthorizeQuery) -> (r: Result<(), AppError>)
    ensures
        match spec_authorize_request_error(*params) {
            None => r is Ok,
            Some(msg) => r matches Err(e) && is_bad_request(e, msg),
        },
{
    if !str_eq(params.response_type.as_str(), "code") {
        return Err(AppError::BadRequest(String::from_str("Only response_type=code is supported")));
    }
    if params.code_challenge.is_none() {
        return Err(AppError::BadRequest(String::from_str("code_challenge is required (PKCE)")));
    }
    match &params.code_challenge_method {
        Some(m) => {
            if str_eq(m.as_str(), "S256") {
                Ok(())
            } else {
                Err(
                    AppError::BadRequest(
                        String::from_str("Only S256 code_challenge_method is supported"),
                    ),
                )
            }
        },
        None => Err(
            AppError::BadRequest(String::from_str("code_challenge_method is required (must be S256)")),
        ),
    }
}

/// Checks the shape of a pushed authorization request: `response_type=code`,
/// and `S256` when a challenge method is given.
pub fn check_pushed_request_shape(response_type: &str, code_challenge_method: Option<&str>) -> (r: Result<(), AppError>)
    ensures
        response_type@ != "code"@ ==> (r matches Err(e) && is_bad_request(
            e,
            "Unsupported response_type"@,
        )),
        response_type@ == "code"@ ==> match code_challenge_method {
            Some(m) => if m@ == "S256"@ {
                r is Ok
            } else {
                r matches Err(e) && is_bad_request(e, "Only S256 code_challenge_method is supported"@)
            },
            None => r is Ok,
        },
{
    if !str_eq(response_type, "code") {
        return Err(AppError::BadRequest(String::from_str("Unsupported response_type")));
    }
    match code_challenge_method {
        Some(m) => {
            if str_eq(m, "S256") {
                Ok(())
            } else {
                Err(
                    AppError::BadRequest(
                        String::from_str("Only S256 code_challenge_method is supported"),
                    ),
                )
            }
        },
        None => Ok(()),
    }
}

/// A pushed binding review needs an external subject and a well-formed
/// binding hash; `binding_hash_valid` is `None` when no review is asked for.
pub fn check_pushed_binding_grant(binding_hash_valid: Option<bool>, has_external_subject: bool) -> (r: Result<(), AppError>)
    ensures
        match binding_hash_valid {
            Some(valid) => if has_external_subject && valid {
                r is Ok
            } else {
                r matches Err(e) && is_invalid_target(
                    e,
                    "binding grant review requires a valid external subject and binding hash"@,
                )
            },
            None => r is Ok,
        },
{
    match binding_hash_valid {
        Some(valid) => {
            if has_external_subject && valid {
                Ok(())
            } else {
                Err(
                    AppError::InvalidTarget(
                        String::from_str(
                            "binding grant review requires a valid external subject and binding hash",
                        ),
                    ),
                )
            }
        },
        None => Ok(()),
    }
}

/// Whether an authorize request names anything besides its client and a
/// pushed `request_uri` (those values are then ignored).
pub open spec fn spec_has_non_par_authorize_params(p: AuthorizeQuery) -> bool {
    ||| p.response_type@.len() > 0
    ||| p.redirect_uri@.len() > 0
    ||| p.scope is Some
    ||| p.state is Some
    ||| p.code_challenge is Some
    ||| p.code_challenge_method is Some
    ||| p.nonce is Some
    ||| p.external_subject_platform is Some
    ||| p.external_subject_tenant is Some
    ||| p.external_subject_external_user_id is Some
    ||| p.binding_grant_id is Some
    ||| p.prompt is Some
    ||| p.resource@.len() > 0
}

pub fn has_non_par_authorize_params(params: &AuthorizeQuery) -> (r: bool)
    ensures
        r == spec_has_non_par_authorize_params(*params),
{
    !params.response_type.as_str().is_empty() || !params.redirect_uri.as_str().is_empty()
        || params.scope.is_some() || params.state.is_some() || params.code_challenge.is_some()
        || params.code_challenge_method.is_some() || params.nonce.is_some()
        || params.external_subject_platform.is_some() || params.external_subject_tenant.is_some()
        || params.external_subject_external_user_id.is_some() || params.binding_grant_id.is_some()
        || params.prompt.is_some() || params.resource.len() > 0
}

/// The authorization request a consent form stands for (never a pushed one).
pub fn params_from_consent_form(form: &ConsentDecisionForm) -> (p: AuthorizeQuery)
    ensures
        p.response_type == form.response_type,
        p.client_id == form.client_id,
        p.redirect_uri == form.redirect_uri,
        p.scope == form.scope,
        p.state == form.state,
        p.code_challenge == form.code_challenge,
        p.code_challenge_method == form.code_challenge_method,
        p.nonce == form.nonce,
        p.external_subject_platform == form.external_subject_platform,
        p.external_subject_tenant == form.external_subject_tenant,
        p.external_subject_external_user_id == form.external_subject_external_user_id,
        p.binding_grant_id == form.binding_grant_id,
        p.prompt == form.prompt,
        p.resource@ == form.resource@,
        p.request_uri is None,
{
    AuthorizeQuery {
        response_type: form.response_type.clone(),
        client_id: form.client_id.clone(),
        redirect_uri: form.redirect_uri.clone(),
        scope: clone_opt_string(&form.scope),
        state: clone_opt_string(&form.state),
        code_challenge: clone_opt_string(&form.code_challenge),
        code_challenge_method: clone_opt_string(&form.code_challenge_method),
        nonce: clone_opt_string(&form.nonce),
        external_subject_platform: clone_opt_string(&form.external_subject_platform),
        external_subject_tenant: clone_opt_string(&form.external_subject_tenant),
        external_subject_external_user_id: clone_opt_string(
            &form.external_subject_external_user_id,
        ),
        binding_grant_id: clone_opt_string(&form.binding_grant_id),
        prompt: clone_opt_string(&form.prompt),
        resource: clone_string_vec(&form.resource),
        request_uri: None,
    }
}

/// A stored pushed authorization request.
pub struct PushedAuthorizationRecord {
    pub response_type: String,
    pub client_id: String,
    pub redirect_uri: String,
    pub scope: Option<String>,
    pub state: Option<String>,
    pub code_challenge: Option<String>,
    pub code_challenge_method: Option<String>,
    pub nonce: Option<String>,
    pub prompt: Option<String>,
    pub resources: Vec<String>,
    pub external_subject: Option<ExternalSubjectRef>,
    pub binding_grant_id: Option<String>,
}

/// The authorization request a consumed pushed request stands for.
pub fn params_from_pushed_request(record: PushedAuthorizationRecord) -> (p: AuthorizeQuery)
    ensures
        p.response_type == record.response_type,
        p.client_id == record.client_id,
        p.redirect_uri == record.redirect_uri,
        p.scope == record.scope,
        p.state == record.state,
        p.code_challenge == record.code_challenge,
        p.code_challenge_method == record.code_challenge_method,
        p.nonce == record.nonce,
        p.external_subject_platform == (match record.external_subject {
            Some(s) => Some(s.platform),
            None => None,
        }),
        p.external_subject_tenant == (match record.external_subject {
            Some(s) => s.tenant,
            None => None,
        }),
        p.external_subject_external_user_id == (match record.external_subject {
            Some(s) => Some(s.external_user_id),
            None => None,
        }),
        p.binding_grant_id == record.binding_grant_id,
        p.prompt == record.prompt,
        p.resource == record.resources,
        p.request_uri is None,
{
    let (platform, tenant, external_user_id) = match record.external_subject {
        Some(s) => (Some(s.platform), s.tenant, Some(s.external_user_id)),
        None => (None, None, None),
    };
    AuthorizeQuery {
        response_type: record.response_type,
        client_id: record.client_id,
        redirect_uri: record.redirect_uri,
        scope: record.scope,
        state: record.state,
        code_challenge: record.code_challenge,
        code_challenge_method: record.code_challenge_method,
        nonce: record.nonce,
        external_subject_platform: platform,
        external_subject_tenant: tenant,
        external_subject_external_user_id: external_user_id,
        binding_grant_id: record.binding_grant_id,
        prompt: record.prompt,
        resource: record.resources,
        request_uri: None,
    }
}

/// A binding review needs the external subject the binding belongs to;
/// without a review nothing is needed.
pub fn binding_review_subject(
    binding_grant_id: Option<&str>,
    external_subject: Option<&ExternalSubjectRef>,
) -> (r: Result<bool, AppError>)
    ensures
        binding_grant_id is None ==> r == Ok::<bool, AppError>(false),
        binding_grant_id is Some && external_subject is Some ==> r == Ok::<bool, AppError>(true),
        binding_grant_id is Some && external_subject is None ==> (r matches Err(e)
            && is_invalid_target(e, "binding grant review requires an external subject"@)),
{
    match binding_grant_id {
        None => Ok(false),
        Some(_) => match external_subject {
            Some(_) => Ok(true),
            None => Err(
                AppError::InvalidTarget(
                    String::from_str("binding grant review requires an external subject"),
                ),
            ),
        },
    }
}

/// The services a consent grants must all be grantable by the user.
pub fn check_grantable_services(all_grantable: bool) -> (r: Result<(), AppError>)
    ensures
        all_grantable ==> r is Ok,
        !all_grantable ==> (r matches Err(e) && is_bad_request(
            e,
            "Selected service access contains an unknown service"@,
        )),
{
    if !all_grantable {
        return Err(
            AppError::BadRequest(
                String::from_str("Selected service access contains an unknown service"),
            ),
        );
    }
    Ok(())
}

/// Reading of the consent form's decision: `Ok(true)` to allow, `Ok(false)`
/// to deny.
pub fn consent_decision_allows(decision: &str) -> (r: Result<bool, AppError>)
    ensures
        match r {
            Ok(true) => decision@ == "allow"@,
            Ok(false) => decision@ == "deny"@,
            Err(e) => decision@ != "allow"@ && decision@ != "deny"@ && is_bad_request(
                e,
                "Invalid consent decision"@,
            ),
        },
{
    if str_eq(decision, "deny") {
        Ok(false)
    } else if str_eq(decision, "allow") {
        Ok(true)
    } else {
        Err(AppError::BadRequest(String::from_str("Invalid consent decision")))
    }
}

/// The resources selected on the consent page must come from the request.
pub fn check_selected_resources(requested: &[String], selected: &[String]) -> (r: Result<(), AppError>)
    ensures
        (forall|i: int| 0 <= i < selected@.len() ==> views(requested@).contains(#[trigger] selected@[i]@))
            ==> r is Ok,
        !(forall|i: int|
            0 <= i < selected@.len() ==> views(requested@).contains(#[trigger] selected@[i]@))
            ==> (r matches Err(e) && is_invalid_target(
            e,
            "selected resource was not in the original authorization request"@,
        )),
{
    if selected_resources_are_subset(requested, selected) {
        Ok(())
    } else {
        Err(
            AppError::InvalidTarget(
                String::from_str("selected resource was not in the original authorization request"),
            ),
        )
    }
}

/// `acc` followed by the ids of `required` it does not hold yet.
pub open spec fn append_missing(acc: Seq<Seq<char>>, required: Seq<Seq<char>>) -> Seq<Seq<char>>
    decreases required.len(),
{
    if required.len() == 0 {
        acc
    } else {
        let prev = append_missing(acc, required.drop_last());
        if prev.contains(required.last()) {
            prev
        } else {
            prev.push(required.last())
        }
    }
}

/// The services a consent grants: the user's normalized selection, then
/// every service the requested resources need that the user left out.
pub fn merge_required_service_ids(selected: Vec<String>, required: Vec<String>) -> (r: Vec<String>)
    ensures
        views(r@) == append_missing(spec_normalize_ids(views(selected@)), views(required@)),
{
    let mut out = normalize_allowed_service_ids(selected);
    let ghost base = views(out@);
    let mut i: usize = 0;
    while i < required.len()
        invariant
            i <= required.len(),
            views(out@) == append_missing(base, views(required@).take(i as int)),
        decreases required.len() - i,
    {
        let ghost before = views(out@);
        assert(views(required@).take(i + 1).drop_last() =~= views(required@).take(i as int));
        assert(views(required@).take(i + 1).last() == required@[i as int]@);
        if !contains_string(out.as_slice(), required[i].as_str()) {
            out.push(required[i].clone());
            assert(views(out@) =~= before.push(required@[i as int]@));
        }
        i = i + 1;
    }
    assert(views(required@).take(required.len() as int) =~= views(required@));
    out
}

/// Appending missing ids keeps a repeat-free list repeat-free and holds
/// exactly the ids of both lists.
pub proof fn lemma_append_missing_members(acc: Seq<Seq<char>>, required: Seq<Seq<char>>)
    requires
        no_duplicates(acc),
    ensures
        no_duplicates(append_missing(acc, required)),
        forall|x: Seq<char>| #[trigger]
            append_missing(acc, required).contains(x) <==> (acc.contains(x) || required.contains(x)),
    decreases required.len(),
{
    if required.len() > 0 {
        lemma_append_missing_members(acc, required.drop_last());
        lemma_drop_last_members(required);
        let prev = append_missing(acc, required.drop_last());
        if !prev.contains(required.last()) {
            lemma_push_members(prev, required.last());
            lemma_push_no_duplicates(prev, required.last());
        }
    }
}

/// A consent grants every service its resources need and every service the
/// user selected (trimmed, non-empty), each once.
pub proof fn lemma_consent_grants_required_services(selected: Seq<Seq<char>>, required: Seq<Seq<char>>)
    ensures
        no_duplicates(append_missing(spec_normalize_ids(selected), required)),
        forall|x: Seq<char>| #[trigger]
            append_missing(spec_normalize_ids(selected), required).contains(x) <==> (
            spec_normalize_ids(selected).contains(x) || required.contains(x)),
{
    lemma_normalize_members(selected);
    lemma_append_missing_members(spec_normalize_ids(selected), required);
}

pub const CONSENT_REQUEST_AUDIENCE: &'static str = "nyxid/oauth-consent";

pub const CONSENT_REQUEST_TOKEN_TYPE: &'static str = "oauth_consent_request";

/// Lifetime of a signed consent request, in seconds.
pub const CONSENT_REQUEST_TTL_SECS: i64 = 15 * 60;

/// Claims of the signed consent request that carries an authorization
/// request through the consent page.
pub struct ConsentRequestClaims {
    pub sub: String,
    pub iss: String,
    pub aud: String,
    pub exp: i64,
    pub iat: i64,
    pub token_type: String,
    pub response_type: String,
    pub client_id: String,
    pub redirect_uri: String,
    pub scope: Option<String>,
    pub state: Option<String>,
    pub code_challenge: Option<String>,
    pub code_challenge_method: Option<String>,
    pub nonce: Option<String>,
    pub external_subject_platform: Option<String>,
    pub external_subject_tenant: Option<String>,
    pub external_subject_external_user_id: Option<String>,
    pub binding_grant_id: Option<String>,
    pub prompt: Option<String>,
    pub resource: Vec<String>,
}

/// The claims carry a user's authorization request with its validated scope.
pub open spec fn claims_carry(
    c: ConsentRequestClaims,
    p: AuthorizeQuery,
    user_id: Seq<char>,
    validated_scope: Seq<char>,
) -> bool {
    &&& c.sub@ == user_id
    &&& c.token_type@ == CONSENT_REQUEST_TOKEN_TYPE@
    &&& c.response_type == p.response_type
    &&& c.client_id == p.client_id
    &&& c.redirect_uri == p.redirect_uri
    &&& c.scope matches Some(s) && s@ == validated_scope
    &&& c.state == p.state
    &&& c.code_challenge == p.code_challenge
    &&& c.code_challenge_method == p.code_challenge_method
    &&& c.nonce == p.nonce
    &&& c.external_subject_platform == p.external_subject_platform
    &&& c.external_subject_tenant == p.external_subject_tenant
    &&& c.external_subject_external_user_id == p.external_subject_external_user_id
    &&& c.binding_grant_id == p.binding_grant_id
    &&& c.prompt == p.prompt
    &&& c.resource@ == p.resource@
}

/// An authorization request read back from claims.
pub open spec fn params_carried(c: ConsentRequestClaims, q: AuthorizeQuery) -> bool {
    &&& q.response_type == c.response_type
    &&& q.client_id == c.client_id
    &&& q.redirect_uri == c.redirect_uri
    &&& q.scope == c.scope
    &&& q.state == c.state
    &&& q.code_challenge == c.code_challenge
    &&& q.code_challenge_method == c.code_challenge_method
    &&& q.nonce == c.nonce
    &&& q.external_subject_platform == c.external_subject_platform
    &&& q.external_subject_tenant == c.external_subject_tenant
    &&& q.external_subject_external_user_id == c.external_subject_external_user_id
    &&& q.binding_grant_id == c.binding_grant_id
    &&& q.prompt == c.prompt
    &&& q.resource == c.resource
    &&& q.request_uri is None
}

/// The claims to sign for a user's authorization request, with the
/// validated scope in place of the requested one.
pub fn consent_request_claims(
    user_id: &str,
    issuer: &str,
    now: i64,
    params: &AuthorizeQuery,
    validated_scope: &str,
) -> (c: ConsentRequestClaims)
    requires
        now <= i64::MAX - CONSENT_REQUEST_TTL_SECS,
    ensures
        c.sub@ == user_id@,
        c.iss@ == issuer@,
        c.aud@ == CONSENT_REQUEST_AUDIENCE@,
        c.iat == now,
        c.exp == now + CONSENT_REQUEST_TTL_SECS,
        c.token_type@ == CONSENT_REQUEST_TOKEN_TYPE@,
        c.response_type == params.response_type,
        c.client_id == params.client_id,
        c.redirect_uri == params.redirect_uri,
        c.scope matches Some(s) && s@ == validated_scope@,
        c.state == params.state,
        c.code_challenge == params.code_challenge,
        c.code_challenge_method == params.code_challenge_method,
        c.nonce == params.nonce,
        c.external_subject_platform == params.external_subject_platform,
        c.external_subject_tenant == params.external_subject_tenant,
        c.external_subject_external_user_id == params.external_subject_external_user_id,
        c.binding_grant_id == params.binding_grant_id,
        c.prompt == params.prompt,
        c.resource@ == params.resource@,
        claims_carry(c, *params, user_id@, validated_scope@),
{
    ConsentRequestClaims {
        sub: String::from_str(user_id),
        iss: String::from_str(issuer),
        aud: String::from_str(CONSENT_REQUEST_AUDIENCE),
        exp: now + CONSENT_REQUEST_TTL_SECS,
        iat: now,
        token_type: String::from_str(CONSENT_REQUEST_TOKEN_TYPE),
        response_type: params.response_type.clone(),
        client_id: params.client_id.clone(),
        redirect_uri: params.redirect_uri.clone(),
        scope: Some(String::from_str(validated_scope)),
        state: clone_opt_string(&params.state),
        code_challenge: clone_opt_string(&params.code_challenge),
        code_challenge_method: clone_opt_string(&params.code_challenge_method),
        nonce: clone_opt_string(&params.nonce),
        external_subject_platform: clone_opt_string(&params.external_subject_platform),
        external_subject_tenant: clone_opt_string(&params.external_subject_tenant),
        external_subject_external_user_id: clone_opt_string(
            &params.external_subject_external_user_id,
        ),
        binding_grant_id: clone_opt_string(&params.binding_grant_id),
        prompt: clone_opt_string(&params.prompt),
        resource: clone_string_vec(&params.resource),
    }
}

/// Whether decoded claims are a consent request of this user.
pub open spec fn claims_belong_to(c: ConsentRequestClaims, user_id: Seq<char>) -> bool {
    c.token_type@ == CONSENT_REQUEST_TOKEN_TYPE@ && c.sub@ == user_id
}

/// The authorization request a verified consent request carries, when it
/// is a consent request of this user.
pub fn params_from_consent_claims(claims: ConsentRequestClaims, user_id: &str) -> (r: Result<AuthorizeQuery, AppError>)
    ensures
        claims_belong_to(claims, user_id@) ==> (r matches Ok(p) && params_carried(claims, p)),
        !claims_belong_to(claims, user_id@) ==> (r matches Err(e) && is_bad_request(
            e,
            "Invalid consent request"@,
        )),
{
    if !str_eq(claims.token_type.as_str(), CONSENT_REQUEST_TOKEN_TYPE) || !str_eq(
        claims.sub.as_str(),
        user_id,
    ) {
        return Err(AppError::BadRequest(String::from_str("Invalid consent request")));
    }
    Ok(
        AuthorizeQuery {
            response_type: claims.response_type,
            client_id: claims.client_id,
            redirect_uri: claims.redirect_uri,
            scope: claims.scope,
            state: claims.state,
            code_challenge: claims.code_challenge,
            code_challenge_method: claims.code_challenge_method,
            nonce: claims.nonce,
            external_subject_platform: claims.external_subject_platform,
            external_subject_tenant: claims.external_subject_tenant,
            external_subject_external_user_id: claims.external_subject_external_user_id,
            binding_grant_id: claims.binding_grant_id,
            prompt: claims.prompt,
            resource: claims.resource,
            request_uri: None,
        },
    )
}

/// A signed consent request gives back, for the user it was issued to,
/// the very authorization request it was built from, with the validated
/// scope and never as a pushed request.
pub proof fn lemma_consent_request_round_trip(
    c: ConsentRequestClaims,
    p: AuthorizeQuery,
    q: AuthorizeQuery,
    user_id: Seq<char>,
    validated_scope: Seq<char>,
)
    requires
        claims_carry(c, p, user_id, validated_scope),
        params_carried(c, q),
    ensures
        claims_belong_to(c, user_id),
        q.response_type == p.response_type,
        q.client_id == p.client_id,
        q.redirect_uri == p.redirect_uri,
        q.scope matches Some(s) && s@ == validated_scope,
        q.state == p.state,
        q.code_challenge == p.code_challenge,
        q.code_challenge_method == p.code_challenge_method,
        q.nonce == p.nonce,
        q.external_subject_platform == p.external_subject_platform,
        q.external_subject_tenant == p.external_subject_tenant,
        q.external_subject_external_user_id == p.external_subject_external_user_id,
        q.binding_grant_id == p.binding_grant_id,
        q.prompt == p.prompt,
        q.resource@ == p.resource@,
        q.request_uri is None,
{
}

/// Whether a parsed redirect URI (scheme and host) names a loopback host.
pub open spec fn is_loopback_host(host: Option<Seq<char>>) -> bool {
    host == Some("127.0.0.1"@) || host == Some("localhost"@) || host == Some("[::1]"@)
}

/// A success page is shown for custom schemes (the OS takes the redirect)
/// and for plain-http loopback callbacks.
pub open spec fn spec_success_page_for(parsed: Option<(Seq<char>, Option<Seq<char>>)>) -> bool {
    match parsed {
        None => false,
        Some((scheme, host)) => (scheme != "http"@ && scheme != "https"@) || (scheme == "http"@
            && is_loopback_host(host)),
    }
}

fn is_loopback_host_exec(host: &Option<String>) -> (r: bool)
    ensures
        r == is_loopback_host(opt_string_view(*host)),
{
    match host {
        Some(h) => str_eq(h.as_str(), "127.0.0.1") || str_eq(h.as_str(), "localhost") || str_eq(
            h.as_str(),
            "[::1]",
        ),
        None => false,
    }
}

/// Whether a parsed redirect URI gets the success page.
pub fn success_page_for(parsed: Option<(String, Option<String>)>) -> (r: bool)
    ensures
        r == spec_success_page_for(
            match parsed {
                Some((s, h)) => Some((s@, opt_string_view(h))),
                None => None,
            },
        ),
{
    match parsed {
        None => false,
        Some((scheme, host)) => {
            let http = str_eq(scheme.as_str(), "http");
            let https = str_eq(scheme.as_str(), "https");
            (!http && !https) || (http && is_loopback_host_exec(&host))
        },
    }
}

/// Whether a redirect URI should get a success page instead of a bare
/// redirect: custom URI schemes and loopback callbacks.
pub fn needs_success_page(uri: &str) -> (r: bool)
    ensures
        r == spec_success_page_for(parsed_scheme_and_host(uri@)),
{
    success_page_for(url_scheme_and_host(uri))
}

/// Where a consent decision came from, judged by its redirect URI: a
/// custom scheme is an SDK or native app, a loopback callback the CLI,
/// anything else the web UI.
pub open spec fn spec_surface_for(parsed: Option<(Seq<char>, Option<Seq<char>>)>) -> Seq<char> {
    match parsed {
        Some((scheme, host)) => if scheme != "http"@ && scheme != "https"@ {
            "sdk"@
        } else if scheme == "http"@ && is_loopback_host(host) {
            "cli"@
        } else {
            "ui"@
        },
        None => "ui"@,
    }
}

pub fn surface_for(parsed: Option<(String, Option<String>)>) -> (r: &'static str)
    ensures
        r@ == spec_surface_for(
            match parsed {
                Some((s, h)) => Some((s@, opt_string_view(h))),
                None => None,
            },
        ),
{
    match parsed {
        Some((scheme, host)) => {
            let http = str_eq(scheme.as_str(), "http");
            let https = str_eq(scheme.as_str(), "https");
            if !http && !https {
                "sdk"
            } else if http && is_loopback_host_exec(&host) {
                "cli"
            } else {
                "ui"
            }
        },
        None => "ui",
    }
}

/// The client surface a consent is attributed to.
pub fn consent_surface(redirect_uri: &str) -> (r: &'static str)
    ensures
        r@ == spec_surface_for(parsed_scheme_and_host(redirect_uri@)),
{
    surface_for(url_scheme_and_host(redirect_uri))
}

/// The success page is shown exactly for redirects not attributed to the web UI.
pub proof fn lemma_success_page_iff_not_ui(parsed: Option<(Seq<char>, Option<Seq<char>>)>)
    ensures
        spec_success_page_for(parsed) <==> spec_surface_for(parsed) != "ui"@,
{
    reveal_strlit("ui");
    reveal_strlit("sdk");
    reveal_strlit("cli");
    assert("sdk"@[0] != "ui"@[0]);
    assert("cli"@[0] != "ui"@[0]);
}

/// Whether an `Accept` header (raw bytes) asks for JSON.
pub open spec fn spec_accepts_json(accept: Option<Seq<u8>>) -> bool {
    match accept {
        Some(b) => match header_chars(b) {
            Some(t) => contains_seq(t, "application/json"@),
            None => false,
        },
        None => false,
    }
}

/// Returns true when the request explicitly asks for JSON (API / XHR clients).
pub fn accepts_json(accept: Option<&[u8]>) -> (r: bool)
    ensures
        r == spec_accepts_json(
            match accept {
                Some(b) => Some(b@),
                None => None,
            },
        ),
{
    match accept {
        Some(b) => match header_text(b) {
            Some(t) => contains_str(t.as_str(), "application/json"),
            None => false,
        },
        None => false,
    }
}

/// HTML-attribute escape of one character.
pub open spec fn html_escape_char(c: char) -> Seq<char> {
    if c == '&' {
        "&amp;"@
    } else if c == '"' {
        "&quot;"@
    } else if c == '<' {
        "&lt;"@
    } else if c == '>' {
        "&gt;"@
    } else {
        seq![c]
    }
}

/// `s` with `&`, `"`, `<` and `>` escaped for an HTML attribute.
pub open spec fn html_escaped(s: Seq<char>) -> Seq<char>
    decreases s.len(),
{
    if s.len() == 0 {
        Seq::empty()
    } else {
        html_escaped(s.drop_last()) + html_escape_char(s.last())
    }
}

/// Escape of one character inside a single-quoted script string.
pub open spec fn js_escape_char(c: char) -> Seq<char> {
    if c == '\\' {
        "\\\\"@
    } else if c == '\'' {
        "\\'"@
    } else {
        seq![c]
    }
}

/// `s` with backslashes and single quotes escaped for a single-quoted
/// script string.
pub open spec fn js_escaped(s: Seq<char>) -> Seq<char>
    decreases s.len(),
{
    if s.len() == 0 {
        Seq::empty()
    } else {
        js_escaped(s.drop_last()) + js_escape_char(s.last())
    }
}

/// Escapes `s` for an HTML attribute.
pub fn escape_html_attribute(s: &str) -> (r: String)
    ensures
        r@ == html_escaped(s@),
{
    let v = chars_of(s);
    let mut out = String::new();
    let mut i: usize = 0;
    while i < v.len()
        invariant
            i <= v.len(),
            v@ == s@,
            out@ == html_escaped(v@.take(i as int)),
        decreases v.len() - i,
    {
        let c = v[i];
        assert(v@.take(i + 1).drop_last() =~= v@.take(i as int));
        if c == '&' {
            out.append("&amp;");
        } else if c == '"' {
            out.append("&quot;");
        } else if c == '<' {
            out.append("&lt;");
        } else if c == '>' {
            out.append("&gt;");
        } else {
            out.push(c);
        }
        assert(out@ =~= html_escaped(v@.take(i + 1)));
        i = i + 1;
    }
    assert(v@.take(v.len() as int) =~= v@);
    out
}

/// Escapes `s` for a single-quoted script string.
pub fn escape_js_single_quoted(s: &str) -> (r: String)
    ensures
        r@ == js_escaped(s@),
{
    let v = chars_of(s);
    let mut out = String::new();
    let mut i: usize = 0;
    while i < v.len()
        invariant
            i <= v.len(),
            v@ == s@,
            out@ == js_escaped(v@.take(i as int)),
        decreases v.len() - i,
    {
        let c = v[i];
        assert(v@.take(i + 1).drop_last() =~= v@.take(i as int));
        if c == '\\' {
            out.append("\\\\");
        } else if c == '\'' {
            out.append("\\'");
        } else {
            out.push(c);
        }
        assert(out@ =~= js_escaped(v@.take(i + 1)));
        i = i + 1;
    }
    assert(v@.take(v.len() as int) =~= v@);
    out
}

/// Success page markup before the HTML-escaped redirect URL.
pub const SUCCESS_PAGE_HEAD: &'static str = r##"<!DOCTYPE html>
<html lang="en">
<head>
<meta charset="utf-8">
<meta http-equiv="refresh" content="2;url="##;

/// Success page markup between the HTML-escaped and the script-escaped redirect URL.
pub const SUCCESS_PAGE_MIDDLE: &'static str = r##"">
<meta name="referrer" content="no-referrer">
<meta name="viewport" content="width=device-width,initial-scale=1">
<title>NyxID — Authenticated</title>
<style>
*{margin:0;padding:0;box-sizing:border-box}
body{font-family:-apple-system,BlinkMacSystemFont,"Segoe UI",Roboto,sans-serif;display:flex;align-items:center;justify-content:center;flex-direction:column;min-height:100vh;background:#0a0a0b;color:#e4e4e7}
.wrap{display:flex;flex-direction:column;align-items:center;gap:2rem;width:100%;max-width:26rem;padding:1.5rem}
.logo{display:flex;align-items:center;gap:.6rem}
.logo svg{width:28px;height:28px}
.logo span{font-size:1.2rem;font-weight:700;letter-spacing:-.02em;background:linear-gradient(135deg,#c084fc,#818cf8);-webkit-background-clip:text;-webkit-text-fill-color:transparent}
.card{width:100%;text-align:center;padding:2.5rem 2rem;border:1px solid #27272a;border-radius:.75rem;background:#18181b}
.icon{width:3rem;height:3rem;margin:0 auto 1.25rem;border-radius:50%;background:rgba(52,211,153,.12);display:flex;align-items:center;justify-content:center}
.icon svg{width:1.25rem;height:1.25rem;color:#34d399}
h1{font-size:1.125rem;font-weight:600;margin-bottom:.375rem}
.sub{font-size:.8125rem;color:#a1a1aa;line-height:1.5}
.bar{margin-top:1.5rem;height:3px;border-radius:2px;background:#27272a;overflow:hidden}
.bar .fill{height:100%;width:0;border-radius:2px;background:linear-gradient(90deg,#818cf8,#c084fc);animation:progress 1.8s ease-in-out forwards}
@keyframes progress{to{width:100%}}
.foot{font-size:.6875rem;color:#52525b}
</style>
</head>
<body>
<div class="wrap">
  <div class="logo">
    <svg viewBox="0 0 32 32" fill="none"><circle cx="16" cy="16" r="14" stroke="url(#pg)" stroke-width="2.5"/><circle cx="16" cy="16" r="4" fill="url(#pg)"/><defs><linearGradient id="pg" x1="4" y1="4" x2="28" y2="28"><stop stop-color="#c084fc"/><stop offset="1" stop-color="#818cf8"/></linearGradient></defs></svg>
    <span>NyxID</span>
  </div>
  <div class="card">
    <div class="icon">
      <svg fill="none" viewBox="0 0 24 24" stroke="currentColor" stroke-width="2.5" stroke-linecap="round" stroke-linejoin="round"><polyline points="20 6 9 17 4 12"/></svg>
    </div>
    <h1>Authentication Successful</h1>
    <p class="sub">Redirecting you back to the application&hellip;</p>
    <div class="bar"><div class="fill"></div></div>
  </div>
  <p class="foot">You can close this tab if it doesn&rsquo;t redirect automatically.</p>
</div>
<script>setTimeout(function(){window.location.replace('"##;

/// Success page markup after the script-escaped redirect URL.
pub const SUCCESS_PAGE_TAIL: &'static str = r##"')},1800)</script>
</body>
</html>"##;

/// The HTML page that confirms authentication and redirects to the
/// callback: meta refresh after two seconds, script redirect after 1.8.
pub open spec fn success_page(redirect_url: Seq<char>) -> Seq<char> {
    SUCCESS_PAGE_HEAD@ + html_escaped(redirect_url) + SUCCESS_PAGE_MIDDLE@ + js_escaped(
        redirect_url,
    ) + SUCCESS_PAGE_TAIL@
}

/// Renders the branded success page for a redirect URL.
pub fn oauth_success_page(redirect_url: &str) -> (html: String)
    ensures
        html@ == success_page(redirect_url@),
{
    let escaped = escape_html_attribute(redirect_url);
    let js = escape_js_single_quoted(redirect_url);
    let mut html = String::from_str(SUCCESS_PAGE_HEAD);
    html.append(escaped.as_str());
    html.append(SUCCESS_PAGE_MIDDLE);
    html.append(js.as_str());
    html.append(SUCCESS_PAGE_TAIL);
    html
}

} // verus!

//! The URLs the authorization endpoint redirects to: the authorize URL a
//! login returns to, the consent page, the client callback, and error pages.
use vstd::prelude::*;
use crate::encoding::{url_encode, url_encoded};
use crate::oauth_consent::AppDefaultServiceHints;
use crate::oauth_types::AuthorizeQuery;
use crate::text::views;

verus! {

/// `key` (such as `&scope=`) followed by the percent-encoded value.
pub open spec fn query_param(key: Seq<char>, value: Seq<char>) -> Seq<char> {
    key + url_encoded(value)
}

/// [`query_param`] when the value is present, nothing otherwise.
pub open spec fn opt_param(key: Seq<char>, value: Option<String>) -> Seq<char> {
    match value {
        Some(v) => query_param(key, v@),
        None => Seq::empty(),
    }
}

/// [`query_param`] when the value is present and not empty, nothing otherwise.
pub open spec fn non_empty_param(key: Seq<char>, value: Option<String>) -> Seq<char> {
    match value {
        Some(v) => if v@.len() > 0 {
            query_param(key, v@)
        } else {
            Seq::empty()
        },
        None => Seq::empty(),
    }
}

/// One [`query_param`] per value, in order.
pub open spec fn repeated_param(key: Seq<char>, values: Seq<Seq<char>>) -> Seq<char>
    decreases values.len(),
{
    if values.len() == 0 {
        Seq::empty()
    } else {
        repeated_param(key, values.drop_last()) + query_param(key, values.last())
    }
}

/// The parameters an authorization request carries through login and
/// consent, after its client, redirect URI and scope.
pub open spec fn flow_params(p: AuthorizeQuery) -> Seq<char> {
    opt_param("&state="@, p.state) + opt_param("&code_challenge="@, p.code_challenge) + opt_param(
        "&code_challenge_method="@,
        p.code_challenge_method,
    ) + opt_param("&nonce="@, p.nonce) + non_empty_param(
        "&external_subject_platform="@,
        p.external_subject_platform,
    ) + non_empty_param("&external_subject_tenant="@, p.external_subject_tenant)
        + non_empty_param("&external_subject_external_user_id="@, p.external_subject_external_user_id)
        + opt_param("&binding_grant_id="@, p.binding_grant_id) + opt_param("&prompt="@, p.prompt)
        + repeated_param("&resource="@, views(p.resource@))
}

fn push_encoded(out: &mut String, value: &str)
    ensures
        final(out)@ == old(out)@ + url_encoded(value@),
{
    let e = url_encode(value);
    out.append(e.as_str());
}

fn push_param(out: &mut String, key: &str, value: &str)
    ensures
        final(out)@ == old(out)@ + query_param(key@, value@),
{
    let ghost o = out@;
    out.append(key);
    push_encoded(out, value);
    assert(out@ =~= o + query_param(key@, value@));
}

fn push_opt_param(out: &mut String, key: &str, value: &Option<String>)
    ensures
        final(out)@ == old(out)@ + opt_param(key@, *value),
{
    match value {
        Some(v) => push_param(out, key, v.as_str()),
        None => {
            assert(out@ =~= out@ + Seq::<char>::empty());
        },
    }
}

fn push_non_empty_param(out: &mut String, key: &str, value: &Option<String>)
    ensures
        final(out)@ == old(out)@ + non_empty_param(key@, *value),
{
    match value {
        Some(v) => {
            if !v.as_str().is_empty() {
                push_param(out, key, v.as_str());
            } else {
                assert(out@ =~= out@ + Seq::<char>::empty());
            }
        },
        None => {
            assert(out@ =~= out@ + Seq::<char>::empty());
        },
    }
}

fn push_repeated(out: &mut String, key: &str, values: &Vec<String>)
    ensures
        final(out)@ == old(out)@ + repeated_param(key@, views(values@)),
{
    let ghost o = out@;
    let mut i: usize = 0;
    assert(views(values@).take(0) =~= Seq::<Seq<char>>::empty());
    assert(o =~= o + Seq::<char>::empty());
    while i < values.len()
        invariant
            i <= values.len(),
            out@ == o + repeated_param(key@, views(values@).take(i as int)),
        decreases values.len() - i,
    {
        let ghost before = out@;
        push_param(out, key, values[i].as_str());
        assert(views(values@).take(i + 1).drop_last() =~= views(values@).take(i as int));
        assert(views(values@).take(i + 1).last() == values@[i as int]@);
        assert(out@ =~= o + repeated_param(key@, views(values@).take(i + 1)));
        i = i + 1;
    }
    assert(views(values@).take(values.len() as int) =~= views(values@));
}

fn push_flow_params(out: &mut String, p: &AuthorizeQuery)
    ensures
        final(out)@ == old(out)@ + flow_params(*p),
{
    let ghost o = out@;
    push_opt_param(out, "&state=", &p.state);
    let ghost s1 = out@;
    push_opt_param(out, "&code_challenge=", &p.code_challenge);
    push_opt_param(out, "&code_challenge_method=", &p.code_challenge_method);
    push_opt_param(out, "&nonce=", &p.nonce);
    push_non_empty_param(out, "&external_subject_platform=", &p.external_subject_platform);
    let ghost s5 = out@;
    assert(s5 =~= o + (opt_param("&state="@, p.state) + opt_param(
        "&code_challenge="@,
        p.code_challenge,
    ) + opt_param("&code_challenge_method="@, p.code_challenge_method) + opt_param(
        "&nonce="@,
        p.nonce,
    ) + non_empty_param("&external_subject_platform="@, p.external_subject_platform)));
    push_non_empty_param(out, "&external_subject_tenant=", &p.external_subject_tenant);
    push_non_empty_param(
        out,
        "&external_subject_external_user_id=",
        &p.external_subject_external_user_id,
    );
    push_opt_param(out, "&binding_grant_id=", &p.binding_grant_id);
    push_opt_param(out, "&prompt=", &p.prompt);
    push_repeated(out, "&resource=", &p.resource);
    assert(out@ =~= o + flow_params(*p));
}

/// The authorize URL that reproduces a request, as a login's `return_to`
/// target: for a pushed request only its client and `request_uri`.
pub open spec fn authorize_url(base: Seq<char>, p: AuthorizeQuery) -> Seq<char> {
    match p.request_uri {
        Some(r) => base + "/oauth/authorize?client_id="@ + url_encoded(p.client_id@) + query_param(
            "&request_uri="@,
            r@,
        ),
        None => base + "/oauth/authorize?response_type="@ + url_encoded(p.response_type@)
            + query_param("&client_id="@, p.client_id@) + query_param(
            "&redirect_uri="@,
            p.redirect_uri@,
        ) + opt_param("&scope="@, p.scope) + flow_params(p),
    }
}

/// Reconstructs the authorize URL of a request, so that it can be used as a
/// `return_to` target after the user logs in.
pub fn build_authorize_url(base_url: &str, params: &AuthorizeQuery) -> (url: String)
    ensures
        url@ == authorize_url(base_url@, *params),
{
    let mut url = String::from_str(base_url);
    if let Some(request_uri) = &params.request_uri {
        url.append("/oauth/authorize?client_id=");
        push_encoded(&mut url, params.client_id.as_str());
        push_param(&mut url, "&request_uri=", request_uri.as_str());
        return url;
    }
    url.append("/oauth/authorize?response_type=");
    push_encoded(&mut url, params.response_type.as_str());
    push_param(&mut url, "&client_id=", params.client_id.as_str());
    push_param(&mut url, "&redirect_uri=", params.redirect_uri.as_str());
    push_opt_param(&mut url, "&scope=", &params.scope);
    push_flow_params(&mut url, params);
    url
}

/// The client callback carrying an authorization code and the request's state.
pub open spec fn callback_url(p: AuthorizeQuery, code: Seq<char>) -> Seq<char> {
    p.redirect_uri@ + "?code="@ + url_encoded(code) + opt_param("&state="@, p.state)
}

/// Builds the callback redirect URL with the code and the optional state.
pub fn build_callback_url(params: &AuthorizeQuery, code: &str) -> (url: String)
    ensures
        url@ == callback_url(*params, code@),
{
    let mut url = params.redirect_uri.clone();
    url.append("?code=");
    push_encoded(&mut url, code);
    push_opt_param(&mut url, "&state=", &params.state);
    url
}

/// The client callback carrying an OAuth error and the request's state.
pub open spec fn callback_error_url(p: AuthorizeQuery, error: Seq<char>, description: Seq<char>) -> Seq<char> {
    p.redirect_uri@ + "?error="@ + url_encoded(error) + query_param(
        "&error_description="@,
        description,
    ) + opt_param("&state="@, p.state)
}

/// Builds the callback redirect URL that reports an error to the client.
pub fn build_callback_error_url(params: &AuthorizeQuery, error: &str, description: &str) -> (url: String)
    ensures
        url@ == callback_error_url(*params, error@, description@),
{
    let mut url = params.redirect_uri.clone();
    url.append("?error=");
    push_encoded(&mut url, error);
    push_param(&mut url, "&error_description=", description);
    push_opt_param(&mut url, "&state=", &params.state);
    url
}

/// `"&key=true"` when the flag is set, nothing otherwise.
pub open spec fn flag_param(flag: bool, text: Seq<char>) -> Seq<char> {
    if flag {
        text
    } else {
        Seq::empty()
    }
}

/// The consent page URL: the request's parameters, the validated scope,
/// the consent-page hints, and the signed consent request.
pub open spec fn consent_url(
    frontend_url: Seq<char>,
    p: AuthorizeQuery,
    client_name: Seq<char>,
    validated_scope: Seq<char>,
    consent_request: Option<Seq<char>>,
    hints: AppDefaultServiceHints,
) -> Seq<char> {
    frontend_url + "/oauth-consent?response_type="@ + url_encoded(p.response_type@) + query_param(
        "&client_id="@,
        p.client_id@,
    ) + query_param("&client_name="@, client_name) + query_param(
        "&redirect_uri="@,
        p.redirect_uri@,
    ) + query_param("&scope="@, validated_scope) + flow_params(p) + repeated_param(
        "&preselect_service_ids="@,
        views(hints.preselect_service_ids@),
    ) + repeated_param("&unmatched_defaults="@, views(hints.unmatched_names@)) + repeated_param(
        "&required_service_ids="@,
        views(hints.required_service_ids@),
    ) + repeated_param(
        "&current_binding_service_ids="@,
        views(hints.current_binding_service_ids@),
    ) + flag_param(
        hints.current_binding_allow_all_services,
        "&current_binding_allow_all_services=true"@,
    ) + flag_param(hints.binding_review, "&binding_review=true"@) + match consent_request {
        Some(c) => query_param("&consent_request="@, c),
        None => Seq::empty(),
    }
}

/// Builds the frontend consent page URL.
pub fn build_consent_url(
    frontend_url: &str,
    params: &AuthorizeQuery,
    client_name: &str,
    validated_scope: &str,
    consent_request: Option<&str>,
    default_service_hints: &AppDefaultServiceHints,
) -> (url: String)
    ensures
        url@ == consent_url(
            frontend_url@,
            *params,
            client_name@,
            validated_scope@,
            match consent_request {
                Some(c) => Some(c@),
                None => None,
            },
            *default_service_hints,
        ),
{
    let mut url = String::from_str(frontend_url);
    url.append("/oauth-consent?response_type=");
    push_encoded(&mut url, params.response_type.as_str());
    push_param(&mut url, "&client_id=", params.client_id.as_str());
    push_param(&mut url, "&client_name=", client_name);
    push_param(&mut url, "&redirect_uri=", params.redirect_uri.as_str());
    push_param(&mut url, "&scope=", validated_scope);
    push_flow_params(&mut url, params);
    push_repeated(&mut url, "&preselect_service_ids=", &default_service_hints.preselect_service_ids);
    push_repeated(&mut url, "&unmatched_defaults=", &default_service_hints.unmatched_names);
    push_repeated(&mut url, "&required_service_ids=", &default_service_hints.required_service_ids);
    push_repeated(
        &mut url,
        "&current_binding_service_ids=",
        &default_service_hints.current_binding_service_ids,
    );
    if default_service_hints.current_binding_allow_all_services {
        url.append("&current_binding_allow_all_services=true");
    } else {
        assert(url@ =~= url@ + Seq::<char>::empty());
    }
    if default_service_hints.binding_review {
        url.append("&binding_review=true");
    } else {
        assert(url@ =~= url@ + Seq::<char>::empty());
    }
    match consent_request {
        Some(c) => push_param(&mut url, "&consent_request=", c),
        None => {
            assert(url@ =~= url@ + Seq::<char>::empty());
        },
    }
    url
}

/// The frontend login page that returns to the authorize URL afterwards.
pub open spec fn login_url(frontend_url: Seq<char>, p: AuthorizeQuery) -> Seq<char> {
    frontend_url + "/login?return_to="@ + url_encoded(authorize_url(frontend_url, p))
}

/// Builds the login redirect for an unauthenticated authorization request.
pub fn build_login_url(frontend_url: &str, params: &AuthorizeQuery) -> (url: String)
    ensures
        url@ == login_url(frontend_url@, *params),
{
    let return_to = build_authorize_url(frontend_url, params);
    let mut url = String::from_str(frontend_url);
    url.append("/login?return_to=");
    push_encoded(&mut url, return_to.as_str());
    url
}

/// The frontend error page for a failed browser authorization request.
pub open spec fn error_page_url(frontend_url: Seq<char>, code: Seq<char>, message: Seq<char>) -> Seq<char> {
    frontend_url + "/error?code="@ + url_encoded(code) + query_param("&message="@, message)
}

/// Builds the frontend error page URL for an error key and message.
pub fn build_error_page_url(frontend_url: &str, code: &str, message: &str) -> (url: String)
    ensures
        url@ == error_page_url(frontend_url@, code@, message@),
{
    let mut url = String::from_str(frontend_url);
    url.append("/error?code=");
    push_encoded(&mut url, code);
    push_param(&mut url, "&message=", message);
    url
}

} // verus!

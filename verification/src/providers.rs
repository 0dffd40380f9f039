//! Admin-managed OAuth, device-code and API-key provider definitions:
//! request validation, the configuration a provider type needs, and the
//! API form of a stored provider.
use vstd::prelude::*;
use vstd::utf8::encode_utf8;
use crate::errors::{AppError, is_validation_error};
use crate::text::{chars_of, contains_seq, contains_str, clone_opt_string, opt_view, str_eq};

verus! {

pub struct CreateProviderRequest {
    pub name: String,
    pub slug: String,
    pub description: Option<String>,
    pub provider_type: String,
    pub authorization_url: Option<String>,
    pub token_url: Option<String>,
    pub revocation_url: Option<String>,
    pub default_scopes: Option<Vec<String>>,
    pub client_id: Option<String>,
    pub client_secret: Option<String>,
    pub supports_pkce: Option<bool>,
    pub device_code_url: Option<String>,
    pub device_token_url: Option<String>,
    pub device_verification_url: Option<String>,
    pub hosted_callback_url: Option<String>,
    pub api_key_instructions: Option<String>,
    pub api_key_url: Option<String>,
    pub icon_url: Option<String>,
    pub documentation_url: Option<String>,
}

pub struct UpdateProviderRequest {
    pub name: Option<String>,
    pub description: Option<String>,
    pub is_active: Option<bool>,
    pub authorization_url: Option<String>,
    pub token_url: Option<String>,
    pub revocation_url: Option<String>,
    pub default_scopes: Option<Vec<String>>,
    pub client_id: Option<String>,
    pub client_secret: Option<String>,
    pub supports_pkce: Option<bool>,
    pub device_code_url: Option<String>,
    pub device_token_url: Option<String>,
    pub device_verification_url: Option<String>,
    pub hosted_callback_url: Option<String>,
    pub api_key_instructions: Option<String>,
    pub api_key_url: Option<String>,
    pub icon_url: Option<String>,
    pub documentation_url: Option<String>,
}

/// What `str::len` returns for a string: its UTF-8 byte count, as a `usize`.
pub open spec fn str_len(s: Seq<char>) -> usize {
    encode_utf8(s).len() as usize
}

/// Characters a slug may hold: lowercase ASCII letters, digits and `-`.
pub open spec fn is_slug_char(c: char) -> bool {
    ('a' <= c && c <= 'z') || ('0' <= c && c <= '9') || c == '-'
}

/// A well-formed slug body: slug characters only, no leading, trailing or
/// doubled hyphen.
pub open spec fn slug_shape_ok(s: Seq<char>) -> bool {
    &&& forall|i: int| 0 <= i < s.len() ==> is_slug_char(#[trigger] s[i])
    &&& s.len() > 0 ==> s[0] != '-'
    &&& s.len() > 0 ==> s.last() != '-'
    &&& !contains_seq(s, "--"@)
}

/// Validates a slug: 1 to 100 bytes, then its shape.
pub fn validate_slug(slug: &str) -> (r: Result<(), AppError>)
    ensures
        (slug@.len() == 0 || slug.len() > 100) ==> (r matches Err(e) && is_validation_error(
            e,
            "slug must be between 1 and 100 characters"@,
        )),
        !(slug@.len() == 0 || slug.len() > 100) ==> if slug_shape_ok(slug@) {
            r is Ok
        } else {
            r matches Err(e) && is_validation_error(
                e,
                "slug must contain only lowercase letters, digits, and hyphens (no leading/trailing/consecutive hyphens)"@,
            )
        },
{
    if slug.is_empty() || slug.len() > 100 {
        return Err(
            AppError::ValidationError(String::from_str("slug must be between 1 and 100 characters")),
        );
    }
    let v = chars_of(slug);
    let mut all_ok = true;
    let mut i: usize = 0;
    while i < v.len()
        invariant
            i <= v.len(),
            v@ == slug@,
            all_ok == (forall|k: int| 0 <= k < i ==> is_slug_char(#[trigger] v@[k])),
        decreases v.len() - i,
    {
        let c = v[i];
        if !(('a' <= c && c <= 'z') || ('0' <= c && c <= '9') || c == '-') {
            all_ok = false;
        }
        i = i + 1;
    }
    let valid = all_ok && v[0] != '-' && v[v.len() - 1] != '-' && !contains_str(slug, "--");
    if !valid {
        return Err(
            AppError::ValidationError(
                String::from_str(
                    "slug must contain only lowercase letters, digits, and hyphens (no leading/trailing/consecutive hyphens)",
                ),
            ),
        );
    }
    Ok(())
}

/// Provider types an admin may create.
pub open spec fn is_provider_type(t: Seq<char>) -> bool {
    t == "oauth2"@ || t == "api_key"@ || t == "device_code"@
}

/// Validates a new provider's name, slug and type.
pub fn validate_provider_basics(body: &CreateProviderRequest) -> (r: Result<(), AppError>)
    ensures
        (body.name@.len() == 0 || body.slug@.len() == 0) ==> (r matches Err(e)
            && is_validation_error(e, "name and slug are required"@)),
        !(body.name@.len() == 0 || body.slug@.len() == 0) && str_len(body.name@) > 200 ==> (
        r matches Err(e) && is_validation_error(
            e,
            "name exceeds maximum length of 200 characters"@,
        )),
        r is Ok ==> {
            &&& body.name@.len() > 0
            &&& str_len(body.name@) <= 200
            &&& body.slug@.len() > 0
            &&& str_len(body.slug@) <= 100
            &&& slug_shape_ok(body.slug@)
            &&& is_provider_type(body.provider_type@)
        },
        (body.name@.len() > 0 && body.slug@.len() > 0 && str_len(body.name@) <= 200 && str_len(
            body.slug@,
        ) > 100) ==> (r matches Err(e) && is_validation_error(
            e,
            "slug must be between 1 and 100 characters"@,
        )),
        (body.name@.len() > 0 && body.slug@.len() > 0 && str_len(body.name@) <= 200 && str_len(
            body.slug@,
        ) <= 100 && !slug_shape_ok(body.slug@)) ==> (r matches Err(e) && is_validation_error(
            e,
            "slug must contain only lowercase letters, digits, and hyphens (no leading/trailing/consecutive hyphens)"@,
        )),
        (body.name@.len() > 0 && body.slug@.len() > 0 && str_len(body.name@) <= 200
            && str_len(body.slug@) <= 100 && slug_shape_ok(body.slug@) && !is_provider_type(
            body.provider_type@,
        )) ==> (r matches Err(e) && is_validation_error(
            e,
            "provider_type must be one of: oauth2, api_key, device_code"@,
        )),
        (body.name@.len() > 0 && body.slug@.len() > 0 && str_len(body.name@) <= 200
            && str_len(body.slug@) <= 100 && slug_shape_ok(body.slug@) && is_provider_type(
            body.provider_type@,
        )) ==> r is Ok,
{
    if body.name.as_str().is_empty() || body.slug.as_str().is_empty() {
        return Err(AppError::ValidationError(String::from_str("name and slug are required")));
    }
    if body.name.as_str().len() > 200 {
        return Err(
            AppError::ValidationError(
                String::from_str("name exceeds maximum length of 200 characters"),
            ),
        );
    }
    match validate_slug(body.slug.as_str()) {
        Ok(()) => {},
        Err(e) => return Err(e),
    }
    let t = body.provider_type.as_str();
    if !(str_eq(t, "oauth2") || str_eq(t, "api_key") || str_eq(t, "device_code")) {
        return Err(
            AppError::ValidationError(
                String::from_str("provider_type must be one of: oauth2, api_key, device_code"),
            ),
        );
    }
    Ok(())
}

pub struct OAuthProviderInput {
    pub authorization_url: String,
    pub token_url: String,
    pub revocation_url: Option<String>,
    pub default_scopes: Option<Vec<String>>,
    pub client_id: String,
    pub client_secret: String,
    pub supports_pkce: bool,
}

pub struct DeviceCodeProviderInput {
    pub authorization_url: String,
    pub token_url: String,
    pub device_code_url: String,
    pub device_token_url: String,
    pub device_verification_url: Option<String>,
    pub hosted_callback_url: Option<String>,
    pub default_scopes: Option<Vec<String>>,
    pub client_id: String,
    pub client_secret: Option<String>,
    pub supports_pkce: bool,
}

pub struct ApiKeyProviderInput {
    pub api_key_instructions: Option<String>,
    pub api_key_url: Option<String>,
}

/// The configuration a provider of a given type is created with, and the
/// URLs to check against SSRF before it is, in order.
pub struct ProviderTypeConfig {
    pub oauth: Option<OAuthProviderInput>,
    pub device_code: Option<DeviceCodeProviderInput>,
    pub api_key: Option<ApiKeyProviderInput>,
    pub urls_to_validate: Vec<String>,
}

fn required(value: &Option<String>, message: &str) -> (r: Result<String, AppError>)
    ensures
        match *value {
            Some(v) => r == Ok::<String, AppError>(v),
            None => r matches Err(e) && is_validation_error(e, message@),
        },
{
    match value {
        Some(v) => Ok(v.clone()),
        None => Err(AppError::ValidationError(String::from_str(message))),
    }
}

fn clone_opt_vec(v: &Option<Vec<String>>) -> (r: Option<Vec<String>>)
    ensures
        match *v {
            Some(x) => r matches Some(y) && y@ == x@,
            None => r is None,
        },
{
    match v {
        Some(x) => Some(crate::text::clone_string_vec(x)),
        None => None,
    }
}

/// Whether two optional string lists hold the same strings.
pub open spec fn same_opt_vec(a: Option<Vec<String>>, b: Option<Vec<String>>) -> bool {
    match b {
        Some(x) => a matches Some(y) && y@ == x@,
        None => a is None,
    }
}

/// The first missing field an OAuth2 provider needs, if any.
pub open spec fn oauth_missing(b: CreateProviderRequest) -> Option<Seq<char>> {
    if b.client_id is None {
        Some("client_id is required for OAuth2 providers"@)
    } else if b.client_secret is None {
        Some("client_secret is required for OAuth2 providers"@)
    } else if b.authorization_url is None {
        Some("authorization_url is required for OAuth2 providers"@)
    } else if b.token_url is None {
        Some("token_url is required for OAuth2 providers"@)
    } else {
        None
    }
}

/// The first missing field a device-code provider needs, if any.
pub open spec fn device_missing(b: CreateProviderRequest) -> Option<Seq<char>> {
    if b.client_id is None {
        Some("client_id is required for device_code providers"@)
    } else if b.authorization_url is None {
        Some("authorization_url is required for device_code providers"@)
    } else if b.token_url is None {
        Some("token_url is required for device_code providers"@)
    } else if b.device_code_url is None {
        Some("device_code_url is required for device_code providers"@)
    } else if b.device_token_url is None {
        Some("device_token_url is required for device_code providers"@)
    } else {
        None
    }
}

/// Views of optional URLs that are present, in order.
pub open spec fn present(urls: Seq<Option<String>>) -> Seq<Seq<char>>
    decreases urls.len(),
{
    if urls.len() == 0 {
        Seq::empty()
    } else {
        present(urls.drop_last()) + match urls.last() {
            Some(u) => seq![u@],
            None => Seq::empty(),
        }
    }
}

/// Builds the configuration of a validated new provider's type: OAuth2
/// needs a client id and secret and both endpoints (PKCE off by default);
/// device code needs a client id and four endpoints (PKCE on by default).
pub fn provider_type_config(body: &CreateProviderRequest) -> (r: Result<ProviderTypeConfig, AppError>)
    ensures
        body.provider_type@ == "oauth2"@ ==> match oauth_missing(*body) {
            Some(m) => r matches Err(e) && is_validation_error(e, m),
            None => r matches Ok(c) && {
                &&& c.oauth matches Some(o) && {
                    &&& o.authorization_url == body.authorization_url->0
                    &&& o.token_url == body.token_url->0
                    &&& o.revocation_url == body.revocation_url
                    &&& same_opt_vec(o.default_scopes, body.default_scopes)
                    &&& o.client_id == body.client_id->0
                    &&& o.client_secret == body.client_secret->0
                    &&& o.supports_pkce == (match body.supports_pkce {
                        Some(p) => p,
                        None => false,
                    })
                }
                &&& c.device_code is None
                &&& c.api_key is None
                &&& crate::text::views(c.urls_to_validate@) == seq![
                    body.authorization_url->0@,
                    body.token_url->0@,
                ]
            },
        },
        body.provider_type@ == "device_code"@ ==> match device_missing(*body) {
            Some(m) => r matches Err(e) && is_validation_error(e, m),
            None => r matches Ok(c) && {
                &&& c.device_code matches Some(d) && {
                    &&& d.authorization_url == body.authorization_url->0
                    &&& d.token_url == body.token_url->0
                    &&& d.device_code_url == body.device_code_url->0
                    &&& d.device_token_url == body.device_token_url->0
                    &&& d.device_verification_url == body.device_verification_url
                    &&& d.hosted_callback_url == body.hosted_callback_url
                    &&& same_opt_vec(d.default_scopes, body.default_scopes)
                    &&& d.client_id == body.client_id->0
                    &&& d.client_secret == body.client_secret
                    &&& d.supports_pkce == (match body.supports_pkce {
                        Some(p) => p,
                        None => true,
                    })
                }
                &&& c.oauth is None
                &&& c.api_key is None
                &&& crate::text::views(c.urls_to_validate@) == seq![
                    body.authorization_url->0@,
                    body.token_url->0@,
                    body.device_code_url->0@,
                    body.device_token_url->0@,
                ] + present(seq![body.device_verification_url, body.hosted_callback_url])
            },
        },
        body.provider_type@ == "api_key"@ ==> (r matches Ok(c) && {
            &&& c.api_key matches Some(a) && a.api_key_instructions == body.api_key_instructions
                && a.api_key_url == body.api_key_url
            &&& c.oauth is None
            &&& c.device_code is None
            &&& c.urls_to_validate@.len() == 0
        }),
{
    proof {
        reveal_strlit("oauth2");
        reveal_strlit("device_code");
        reveal_strlit("api_key");
        assert("oauth2"@[0] != "device_code"@[0] && "oauth2"@[0] != "api_key"@[0]
            && "device_code"@[0] != "api_key"@[0]);
    }
    let t = body.provider_type.as_str();
    if str_eq(t, "oauth2") {
        let client_id = match required(
            &body.client_id,
            "client_id is required for OAuth2 providers",
        ) {
            Ok(v) => v,
            Err(e) => return Err(e),
        };
        let client_secret = match required(
            &body.client_secret,
            "client_secret is required for OAuth2 providers",
        ) {
            Ok(v) => v,
            Err(e) => return Err(e),
        };
        let authorization_url = match required(
            &body.authorization_url,
            "authorization_url is required for OAuth2 providers",
        ) {
            Ok(v) => v,
            Err(e) => return Err(e),
        };
        let token_url = match required(&body.token_url, "token_url is required for OAuth2 providers") {
            Ok(v) => v,
            Err(e) => return Err(e),
        };
        let mut urls: Vec<String> = Vec::new();
        urls.push(authorization_url.clone());
        urls.push(token_url.clone());
        assert(crate::text::views(urls@) =~= seq![authorization_url@, token_url@]);
        return Ok(
            ProviderTypeConfig {
                oauth: Some(
                    OAuthProviderInput {
                        authorization_url,
                        token_url,
                        revocation_url: clone_opt_string(&body.revocation_url),
                        default_scopes: clone_opt_vec(&body.default_scopes),
                        client_id,
                        client_secret,
                        supports_pkce: match body.supports_pkce {
                            Some(p) => p,
                            None => false,
                        },
                    },
                ),
                device_code: None,
                api_key: None,
                urls_to_validate: urls,
            },
        );
    }
    if str_eq(t, "device_code") {
        let client_id = match required(
            &body.client_id,
            "client_id is required for device_code providers",
        ) {
            Ok(v) => v,
            Err(e) => return Err(e),
        };
        let authorization_url = match required(
            &body.authorization_url,
            "authorization_url is required for device_code providers",
        ) {
            Ok(v) => v,
            Err(e) => return Err(e),
        };
        let token_url = match required(
            &body.token_url,
            "token_url is required for device_code providers",
        ) {
            Ok(v) => v,
            Err(e) => return Err(e),
        };
        let device_code_url = match required(
            &body.device_code_url,
            "device_code_url is required for device_code providers",
        ) {
            Ok(v) => v,
            Err(e) => return Err(e),
        };
        let device_token_url = match required(
            &body.device_token_url,
            "device_token_url is required for device_code providers",
        ) {
            Ok(v) => v,
            Err(e) => return Err(e),
        };
        let mut urls: Vec<String> = Vec::new();
        urls.push(authorization_url.clone());
        urls.push(token_url.clone());
        urls.push(device_code_url.clone());
        urls.push(device_token_url.clone());
        let ghost base = crate::text::views(urls@);
        assert(base =~= seq![authorization_url@, token_url@, device_code_url@, device_token_url@]);
        let ghost opts = seq![body.device_verification_url, body.hosted_callback_url];
        assert(opts.drop_last() =~= seq![body.device_verification_url]);
        assert(opts.drop_last().drop_last() =~= Seq::<Option<String>>::empty());
        let ghost first = match &body.device_verification_url {
            Some(u) => seq![u@],
            None => Seq::<Seq<char>>::empty(),
        };
        let ghost second = match &body.hosted_callback_url {
            Some(u) => seq![u@],
            None => Seq::<Seq<char>>::empty(),
        };
        assert(present(opts.drop_last().drop_last()) =~= Seq::<Seq<char>>::empty());
        assert(present(opts.drop_last()) =~= Seq::<Seq<char>>::empty() + first);
        assert(present(opts) =~= present(opts.drop_last()) + second);
        if let Some(u) = &body.device_verification_url {
            urls.push(u.clone());
        }
        assert(crate::text::views(urls@) =~= base + first);
        let ghost mid = crate::text::views(urls@);
        if let Some(u) = &body.hosted_callback_url {
            urls.push(u.clone());
        }
        assert(crate::text::views(urls@) =~= mid + second);
        assert(crate::text::views(urls@) =~= base + present(opts));
        return Ok(
            ProviderTypeConfig {
                oauth: None,
                device_code: Some(
                    DeviceCodeProviderInput {
                        authorization_url,
                        token_url,
                        device_code_url,
                        device_token_url,
                        device_verification_url: clone_opt_string(&body.device_verification_url),
                        hosted_callback_url: clone_opt_string(&body.hosted_callback_url),
                        default_scopes: clone_opt_vec(&body.default_scopes),
                        client_id,
                        client_secret: clone_opt_string(&body.client_secret),
                        supports_pkce: match body.supports_pkce {
                            Some(p) => p,
                            None => true,
                        },
                    },
                ),
                api_key: None,
                urls_to_validate: urls,
            },
        );
    }
    let api_key = if str_eq(t, "api_key") {
        Some(
            ApiKeyProviderInput {
                api_key_instructions: clone_opt_string(&body.api_key_instructions),
                api_key_url: clone_opt_string(&body.api_key_url),
            },
        )
    } else {
        None
    };
    Ok(ProviderTypeConfig { oauth: None, device_code: None, api_key, urls_to_validate: Vec::new() })
}

/// URLs of a provider update to check against SSRF, in order.
pub fn update_provider_urls(body: &UpdateProviderRequest) -> (r: Vec<String>)
    ensures
        crate::text::views(r@) == present(
            seq![
                body.authorization_url,
                body.token_url,
                body.device_code_url,
                body.device_token_url,
                body.device_verification_url,
                body.hosted_callback_url,
            ],
        ),
{
    let ghost all = seq![
        body.authorization_url,
        body.token_url,
        body.device_code_url,
        body.device_token_url,
        body.device_verification_url,
        body.hosted_callback_url,
    ];
    let mut urls: Vec<String> = Vec::new();
    assert(all.take(0) =~= Seq::<Option<String>>::empty());
    assert(crate::text::views(urls@) =~= Seq::<Seq<char>>::empty());
    push_present(&mut urls, &body.authorization_url, Ghost(all), 0);
    push_present(&mut urls, &body.token_url, Ghost(all), 1);
    push_present(&mut urls, &body.device_code_url, Ghost(all), 2);
    push_present(&mut urls, &body.device_token_url, Ghost(all), 3);
    push_present(&mut urls, &body.device_verification_url, Ghost(all), 4);
    push_present(&mut urls, &body.hosted_callback_url, Ghost(all), 5);
    assert(all.take(6) =~= all);
    urls
}

fn push_present(urls: &mut Vec<String>, u: &Option<String>, Ghost(all): Ghost<Seq<Option<String>>>, k: usize)
    requires
        k < all.len(),
        all[k as int] == *u,
        crate::text::views(old(urls)@) == present(all.take(k as int)),
    ensures
        crate::text::views(final(urls)@) == present(all.take(k + 1)),
{
    assert(all.take(k + 1).drop_last() =~= all.take(k as int));
    let ghost before = crate::text::views(urls@);
    if let Some(x) = u {
        urls.push(x.clone());
        assert(crate::text::views(urls@) =~= before + seq![x@]);
    } else {
        assert(before =~= before + Seq::<Seq<char>>::empty());
    }
}

/// A stored provider, with its times as RFC 3339 text.
pub struct ProviderRecord {
    pub id: String,
    pub slug: String,
    pub name: String,
    pub description: Option<String>,
    pub provider_type: String,
    /// The encrypted OAuth client id, when one is configured.
    pub client_id_encrypted: Option<Vec<u8>>,
    pub default_scopes: Option<Vec<String>>,
    pub supports_pkce: bool,
    pub device_code_url: Option<String>,
    pub device_token_url: Option<String>,
    pub device_verification_url: Option<String>,
    pub hosted_callback_url: Option<String>,
    pub api_key_instructions: Option<String>,
    pub api_key_url: Option<String>,
    pub icon_url: Option<String>,
    pub documentation_url: Option<String>,
    pub is_active: bool,
    pub created_at: String,
    pub updated_at: String,
}

pub struct ProviderResponse {
    pub id: String,
    pub slug: String,
    pub name: String,
    pub description: Option<String>,
    pub provider_type: String,
    pub has_oauth_config: bool,
    pub default_scopes: Option<Vec<String>>,
    pub supports_pkce: bool,
    pub device_code_url: Option<String>,
    pub device_token_url: Option<String>,
    pub device_verification_url: Option<String>,
    pub hosted_callback_url: Option<String>,
    pub api_key_instructions: Option<String>,
    pub api_key_url: Option<String>,
    pub icon_url: Option<String>,
    pub documentation_url: Option<String>,
    pub is_active: bool,
    pub created_at: String,
    pub updated_at: String,
}

pub struct ProviderListResponse {
    pub providers: Vec<ProviderResponse>,
}

pub struct DeleteProviderResponse {
    pub message: String,
}

/// The API form of a stored provider; its secrets stay out, only whether
/// an OAuth client is configured shows.
pub fn provider_to_response(p: ProviderRecord) -> (r: ProviderResponse)
    ensures
        r.id == p.id,
        r.slug == p.slug,
        r.name == p.name,
        r.description == p.description,
        r.provider_type == p.provider_type,
        r.has_oauth_config == p.client_id_encrypted is Some,
        r.default_scopes == p.default_scopes,
        r.supports_pkce == p.supports_pkce,
        r.device_code_url == p.device_code_url,
        r.device_token_url == p.device_token_url,
        r.device_verification_url == p.device_verification_url,
        r.hosted_callback_url == p.hosted_callback_url,
        r.api_key_instructions == p.api_key_instructions,
        r.api_key_url == p.api_key_url,
        r.icon_url == p.icon_url,
        r.documentation_url == p.documentation_url,
        r.is_active == p.is_active,
        r.created_at == p.created_at,
        r.updated_at == p.updated_at,
{
    ProviderResponse {
        id: p.id,
        slug: p.slug,
        name: p.name,
        description: p.description,
        provider_type: p.provider_type,
        has_oauth_config: p.client_id_encrypted.is_some(),
        default_scopes: p.default_scopes,
        supports_pkce: p.supports_pkce,
        device_code_url: p.device_code_url,
        device_token_url: p.device_token_url,
        device_verification_url: p.device_verification_url,
        hosted_callback_url: p.hosted_callback_url,
        api_key_instructions: p.api_key_instructions,
        api_key_url: p.api_key_url,
        icon_url: p.icon_url,
        documentation_url: p.documentation_url,
        is_active: p.is_active,
        created_at: p.created_at,
        updated_at: p.updated_at,
    }
}

/// Answer to a provider deletion.
pub fn delete_provider_response() -> (r: DeleteProviderResponse)
    ensures
        r.message@ == "Provider deactivated and user tokens revoked"@,
{
    DeleteProviderResponse { message: String::from_str("Provider deactivated and user tokens revoked") }
}

} // verus!

//! App branding (logo, homepage, verification) and the signed authorize
//! context that public consent pages read, plus resuming an authorization
//! after an interactive login.
use vstd::prelude::*;
use crate::errors::{AppError, is_validation_error};
use crate::oauth_token::{join, join_strings};
use crate::text::{chars_of, opt_view, split_words, str_eq, string_of_range, views, words};

verus! {

/// An app's branding as stored, with the values derived from it.
pub struct BrandingClient {
    pub logo_asset_id: Option<String>,
    /// Public URL of the logo asset, when there is one.
    pub logo_url: Option<String>,
    pub homepage_url: Option<String>,
    pub branding_revision: u32,
    pub branding_verified_revision: Option<u32>,
    /// Whether the current branding revision is verified.
    pub verified: bool,
}

pub struct BrandingResponse {
    pub logo_asset_id: Option<String>,
    pub logo_url: Option<String>,
    pub homepage_url: Option<String>,
    pub branding_revision: u32,
    pub branding_verified_revision: Option<u32>,
    pub verified: bool,
}

impl BrandingResponse {
    pub fn from(client: &BrandingClient) -> (r: Self)
        ensures
            r.logo_asset_id == client.logo_asset_id,
            r.logo_url == client.logo_url,
            r.homepage_url == client.homepage_url,
            r.branding_revision == client.branding_revision,
            r.branding_verified_revision == client.branding_verified_revision,
            r.verified == client.verified,
    {
        BrandingResponse {
            logo_asset_id: crate::text::clone_opt_string(&client.logo_asset_id),
            logo_url: crate::text::clone_opt_string(&client.logo_url),
            homepage_url: crate::text::clone_opt_string(&client.homepage_url),
            branding_revision: client.branding_revision,
            branding_verified_revision: client.branding_verified_revision,
            verified: client.verified,
        }
    }
}

pub struct VerifyRequest {
    pub branding_revision: u32,
    pub verified: bool,
}

/// A logo upload carries exactly one multipart field, named `logo`.
pub fn check_logo_field(field_name: Option<&str>, already_received: bool) -> (r: Result<(), AppError>)
    ensures
        ((field_name matches Some(n) && n@ == "logo"@) && !already_received) ==> r is Ok,
        !((field_name matches Some(n) && n@ == "logo"@) && !already_received) ==> (r matches Err(
            e,
        ) && is_validation_error(e, "Upload exactly one logo field"@)),
{
    let named_logo = match field_name {
        Some(n) => str_eq(n, "logo"),
        None => false,
    };
    if !named_logo || already_received {
        return Err(AppError::ValidationError(String::from_str("Upload exactly one logo field")));
    }
    Ok(())
}

/// A logo chunk is accepted while the logo stays within `max_bytes`.
pub fn check_logo_chunk(received: usize, chunk_len: usize, max_bytes: usize) -> (r: Result<(), AppError>)
    ensures
        received + chunk_len <= max_bytes ==> r is Ok,
        received + chunk_len > max_bytes ==> (r matches Err(AppError::RequestBodyTooLarge {
            max_bytes: m,
            context,
        }) && m == max_bytes && context@ == "Logo"@),
{
    if chunk_len > max_bytes || received > max_bytes - chunk_len {
        return Err(AppError::RequestBodyTooLarge { max_bytes, context: String::from_str("Logo") });
    }
    Ok(())
}

/// An upload without a logo field is refused.
pub fn require_logo(file: Option<Vec<u8>>) -> (r: Result<Vec<u8>, AppError>)
    ensures
        match file {
            Some(bytes) => r == Ok::<Vec<u8>, AppError>(bytes),
            None => r matches Err(e) && is_validation_error(e, "A logo is required"@),
        },
{
    match file {
        Some(bytes) => Ok(bytes),
        None => Err(AppError::ValidationError(String::from_str("A logo is required"))),
    }
}

pub struct ContextQuery {
    pub ctx: String,
}

pub struct ContextResponse {
    pub client_name: String,
    pub handoff_blurb: Option<String>,
    pub logo_url: Option<String>,
    pub homepage_url: Option<String>,
    pub verified: bool,
    pub destination: String,
}

/// `ws` without the words equal to `w`, in order.
pub open spec fn without_word(ws: Seq<Seq<char>>, w: Seq<char>) -> Seq<Seq<char>>
    decreases ws.len(),
{
    if ws.len() == 0 {
        Seq::empty()
    } else {
        let prev = without_word(ws.drop_last(), w);
        if ws.last() == w {
            prev
        } else {
            prev.push(ws.last())
        }
    }
}

/// The prompt to resume with once an interactive login has completed:
/// the same prompt without `login`, or none when nothing else remains.
pub open spec fn prompt_after_login(prompt: Option<Seq<char>>) -> Option<Seq<char>> {
    match prompt {
        Some(p) => {
            let rest = without_word(words(p), "login"@);
            if rest.len() > 0 {
                Some(join(rest, " "@))
            } else {
                None
            }
        },
        None => None,
    }
}

/// Drops `login` from a prompt after the login it asked for has happened,
/// so the resumed request does not loop back to the login page.
pub fn strip_login_prompt(prompt: Option<String>) -> (r: Option<String>)
    ensures
        opt_view(r) == prompt_after_login(opt_view(prompt)),
{
    let p = match prompt {
        Some(p) => p,
        None => return None,
    };
    let ws = split_words(p.as_str());
    let mut kept: Vec<String> = Vec::new();
    let mut i: usize = 0;
    while i < ws.len()
        invariant
            i <= ws.len(),
            views(kept@) == without_word(views(ws@).take(i as int), "login"@),
        decreases ws.len() - i,
    {
        assert(views(ws@).take(i + 1).drop_last() =~= views(ws@).take(i as int));
        assert(views(ws@).take(i + 1).last() == ws@[i as int]@);
        if !str_eq(ws[i].as_str(), "login") {
            let ghost before = views(kept@);
            kept.push(ws[i].clone());
            assert(views(kept@) =~= before.push(ws@[i as int]@));
        }
        i = i + 1;
    }
    assert(views(ws@).take(ws.len() as int) =~= views(ws@));
    if kept.len() == 0 {
        None
    } else {
        Some(join_strings(&kept, " "))
    }
}

/// `s` without its trailing `c` characters.
pub open spec fn trim_end_char(s: Seq<char>, c: char) -> Seq<char>
    decreases s.len(),
{
    if s.len() > 0 && s.last() == c {
        trim_end_char(s.drop_last(), c)
    } else {
        s
    }
}

proof fn lemma_trim_end_char_take(s: Seq<char>, c: char, j: int)
    requires
        0 <= j <= s.len(),
        forall|k: int| j <= k < s.len() ==> #[trigger] s[k] == c,
    ensures
        trim_end_char(s, c) == trim_end_char(s.take(j), c),
    decreases s.len() - j,
{
    if j < s.len() {
        assert(s.drop_last().take(j) =~= s.take(j));
        lemma_trim_end_char_take(s.drop_last(), c, j);
    } else {
        assert(s.take(j) =~= s);
    }
}

/// Where an unfinished app connection starts over: the frontend's connect
/// page for the signed context.
pub open spec fn connect_start_url(frontend_url: Seq<char>, ctx: Seq<char>) -> Seq<char> {
    trim_end_char(frontend_url, '/') + "/connect/app/start/"@ + ctx
}

pub fn build_connect_start_url(frontend_url: &str, ctx: &str) -> (r: String)
    ensures
        r@ == connect_start_url(frontend_url@, ctx@),
{
    let v = chars_of(frontend_url);
    let mut j: usize = v.len();
    while j > 0 && v[j - 1] == '/'
        invariant
            j <= v.len(),
            v@ == frontend_url@,
            forall|k: int| j <= k < v.len() ==> #[trigger] v@[k] == '/',
        decreases j,
    {
        j = j - 1;
    }
    proof {
        lemma_trim_end_char_take(v@, '/', j as int);
        assert(v@.take(j as int) =~= v@.subrange(0, j as int));
    }
    let mut r = string_of_range(&v, 0, j);
    r.append("/connect/app/start/");
    r.append(ctx);
    r
}

/// An options request for another owner than the caller names that org.
pub fn options_owner_org(owner_id: &str, actor: &str) -> (r: Option<String>)
    ensures
        owner_id@ != actor@ ==> (r matches Some(o) && o@ == owner_id@),
        owner_id@ == actor@ ==> r is None,
{
    if str_eq(owner_id, actor) {
        None
    } else {
        Some(String::from_str(owner_id))
    }
}

/// An existing service account must belong to the requested owner.
pub fn check_service_account_owner(effective_owner_id: &str, requested_owner_id: &str) -> (r: Result<(), AppError>)
    ensures
        effective_owner_id@ == requested_owner_id@ ==> r is Ok,
        effective_owner_id@ != requested_owner_id@ ==> (r matches Err(e) && is_validation_error(
            e,
            "Service account does not belong to the requested owner"@,
        )),
{
    if !str_eq(effective_owner_id, requested_owner_id) {
        return Err(
            AppError::ValidationError(
                String::from_str("Service account does not belong to the requested owner"),
            ),
        );
    }
    Ok(())
}

} // verus!

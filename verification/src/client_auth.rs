//! Client authentication material of OAuth requests: the HTTP Basic
//! `Authorization` header, and client credentials sent as parameters.
use vstd::prelude::*;
use vstd::utf8::*;
use crate::encoding::{base64_decode, base64_standard_decoded, percent_decode, url_decode};
use crate::encoding::utf8_string;
use crate::errors::{AppError, is_bad_request, is_unauthorized};
use crate::text::{str_eq, opt_view, split_once, split_once_char, strip_prefix, strip_prefix_str, trim, trim_str};

verus! {

/// Bytes a header value may hold to be read as text: visible ASCII and tab.
pub open spec fn is_visible_ascii(b: u8) -> bool {
    (32 <= b && b < 127) || b == 9
}

/// A header value read as text, `None` when it holds a byte outside visible
/// ASCII and tab.
pub open spec fn header_chars(bytes: Seq<u8>) -> Option<Seq<char>> {
    if forall|i: int| 0 <= i < bytes.len() ==> is_visible_ascii(#[trigger] bytes[i]) {
        Some(bytes.map_values(|b: u8| b as char))
    } else {
        None
    }
}

/// A header value as text, when it is visible ASCII.
pub fn header_text(bytes: &[u8]) -> (r: Option<String>)
    ensures
        opt_view(r) == header_chars(bytes@),
{
    let mut out = String::new();
    let mut i: usize = 0;
    while i < bytes.len()
        invariant
            i <= bytes.len(),
            out@ == bytes@.take(i as int).map_values(|b: u8| b as char),
            forall|k: int| 0 <= k < i ==> is_visible_ascii(#[trigger] bytes@[k]),
        decreases bytes.len() - i,
    {
        let b = bytes[i];
        if !((32 <= b && b < 127) || b == 9) {
            assert(!is_visible_ascii(bytes@[i as int]));
            return None;
        }
        out.push(b as char);
        assert(bytes@.take(i + 1).map_values(|b: u8| b as char) =~= bytes@.take(
            i as int,
        ).map_values(|b: u8| b as char).push(b as char));
        i = i + 1;
    }
    assert(bytes@.take(bytes.len() as int) =~= bytes@);
    Some(out)
}

/// The credentials part of a Basic authorization header, after `Basic ` or `basic `.
pub open spec fn basic_payload(h: Seq<char>) -> Option<Seq<char>> {
    match strip_prefix(h, "Basic "@) {
        Some(rest) => Some(rest),
        None => strip_prefix(h, "basic "@),
    }
}

/// Whether an error is the one every malformed Basic credential yields.
pub open spec fn is_invalid_client_credentials(e: AppError) -> bool {
    is_unauthorized(e, "Invalid client credentials"@)
}

fn invalid_client_credentials() -> (e: AppError)
    ensures
        is_invalid_client_credentials(e),
{
    AppError::Unauthorized(String::from_str("Invalid client credentials"))
}

/// The percent-decoded text of a credential part, when it decodes to UTF-8.
pub open spec fn spec_url_decoded(s: Seq<char>) -> Option<Seq<char>> {
    let bytes = percent_decode(encode_utf8(s));
    if valid_utf8(bytes) {
        Some(decode_utf8(bytes))
    } else {
        None
    }
}

/// Client id and secret carried by decoded Basic credential bytes: UTF-8
/// text split at its first `:`, each side percent-decoded.
pub open spec fn spec_credentials_from_decoded(decoded: Option<Seq<u8>>) -> Option<(Seq<char>, Seq<char>)> {
    match decoded {
        None => None,
        Some(bytes) => if !valid_utf8(bytes) {
            None
        } else {
            match split_once(decode_utf8(bytes), ':') {
                None => None,
                Some((id, secret)) => match (spec_url_decoded(id), spec_url_decoded(secret)) {
                    (Some(i), Some(s)) => Some((i, s)),
                    _ => None,
                },
            }
        },
    }
}

/// Client id and secret from the Base64-decoded bytes of a Basic
/// credential (`None` when they were not valid Base64).
pub fn credentials_from_decoded(decoded: Option<Vec<u8>>) -> (r: Result<(String, String), AppError>)
    ensures
        match r {
            Ok((id, secret)) => spec_credentials_from_decoded(
                match decoded {
                    Some(v) => Some(v@),
                    None => None,
                },
            ) == Some((id@, secret@)),
            Err(e) => spec_credentials_from_decoded(
                match decoded {
                    Some(v) => Some(v@),
                    None => None,
                },
            ) is None && is_invalid_client_credentials(e),
        },
{
    let bytes = match decoded {
        Some(b) => b,
        None => return Err(invalid_client_credentials()),
    };
    let text = match utf8_string(bytes) {
        Some(t) => t,
        None => return Err(invalid_client_credentials()),
    };
    let (id, secret) = match split_once_char(text.as_str(), ':') {
        Some(parts) => parts,
        None => return Err(invalid_client_credentials()),
    };
    let id = match url_decode(id.as_str()) {
        Some(v) => v,
        None => return Err(invalid_client_credentials()),
    };
    let secret = match url_decode(secret.as_str()) {
        Some(v) => v,
        None => return Err(invalid_client_credentials()),
    };
    Ok((id, secret))
}

/// What a request's `Authorization` header carries as Basic client
/// credentials: `Ok(None)` without a header or for another scheme, an error
/// for a malformed credential.
pub open spec fn spec_basic_credentials(header: Option<Seq<u8>>) -> Result<Option<(Seq<char>, Seq<char>)>, ()> {
    match header {
        None => Ok(None),
        Some(bytes) => match header_chars(bytes) {
            None => Err(()),
            Some(h) => match basic_payload(h) {
                None => Ok(None),
                Some(p) => match spec_credentials_from_decoded(
                    base64_standard_decoded(encode_utf8(trim(p))),
                ) {
                    None => Err(()),
                    Some(c) => Ok(Some(c)),
                },
            },
        },
    }
}

/// Reads HTTP Basic client credentials from the raw `Authorization` header
/// value, if the request has one.
pub fn parse_basic_client_credentials(authorization: Option<&[u8]>) -> (r: Result<Option<(String, String)>, AppError>)
    ensures
        match r {
            Ok(None) => spec_basic_credentials(
                match authorization {
                    Some(b) => Some(b@),
                    None => None,
                },
            ) == Ok::<Option<(Seq<char>, Seq<char>)>, ()>(None),
            Ok(Some((id, secret))) => spec_basic_credentials(
                match authorization {
                    Some(b) => Some(b@),
                    None => None,
                },
            ) == Ok::<Option<(Seq<char>, Seq<char>)>, ()>(Some((id@, secret@))),
            Err(e) => spec_basic_credentials(
                match authorization {
                    Some(b) => Some(b@),
                    None => None,
                },
            ) is Err && is_invalid_client_credentials(e),
        },
{
    let bytes = match authorization {
        None => return Ok(None),
        Some(b) => b,
    };
    let raw = match header_text(bytes) {
        Some(t) => t,
        None => return Err(invalid_client_credentials()),
    };
    let encoded = match strip_prefix_str(raw.as_str(), "Basic ") {
        Some(rest) => rest,
        None => match strip_prefix_str(raw.as_str(), "basic ") {
            Some(rest) => rest,
            None => return Ok(None),
        },
    };
    let trimmed = trim_str(encoded.as_str());
    let decoded = base64_decode(trimmed.as_str().as_bytes());
    match credentials_from_decoded(decoded) {
        Ok(pair) => Ok(Some(pair)),
        Err(e) => Err(e),
    }
}

/// Client credentials of a request that may authenticate either way: the
/// Basic credentials win, but a parameter `client_id` that names another
/// client rejects the pair; otherwise the parameters are used.
pub open spec fn spec_credentials_from_basic_or_params(
    basic: Option<(String, String)>,
    client_id: Option<String>,
    client_secret: Option<String>,
) -> Option<(Seq<char>, Option<Seq<char>>)> {
    match basic {
        Some((id, secret)) => if client_id is Some && client_id->0@ != id@ {
            None
        } else {
            Some((id@, Some(secret@)))
        },
        None => match client_id {
            Some(id) => Some((id@, opt_view(client_secret))),
            None => None,
        },
    }
}

pub fn client_credentials_from_basic_or_params(
    basic: Option<(String, String)>,
    client_id: Option<String>,
    client_secret: Option<String>,
) -> (r: Option<(String, Option<String>)>)
    ensures
        match r {
            Some((id, secret)) => spec_credentials_from_basic_or_params(
                basic,
                client_id,
                client_secret,
            ) == Some((id@, opt_view(secret))),
            None => spec_credentials_from_basic_or_params(basic, client_id, client_secret) is None,
        },
{
    match basic {
        Some((id, secret)) => {
            if let Some(query_id) = &client_id {
                if !str_eq(query_id.as_str(), id.as_str()) {
                    return None;
                }
            }
            Some((id, Some(secret)))
        },
        None => match client_id {
            Some(id) => Some((id, client_secret)),
            None => None,
        },
    }
}

/// Basic credentials take precedence over parameters: whenever both name a
/// client, the result is the Basic pair, or nothing when the ids differ.
pub proof fn lemma_basic_credentials_take_precedence(
    id: String,
    secret: String,
    client_id: Option<String>,
    client_secret: Option<String>,
)
    ensures
        spec_credentials_from_basic_or_params(Some((id, secret)), client_id, client_secret)
            is Some ==> spec_credentials_from_basic_or_params(
            Some((id, secret)),
            client_id,
            client_secret,
        ) == Some((id@, Some(secret@))),
        (client_id matches Some(q) && q@ != id@) ==> spec_credentials_from_basic_or_params(
            Some((id, secret)),
            client_id,
            client_secret,
        ) is None,
{
}

/// Outcome of selecting a confidential client's id and secret.
pub enum CredentialSelection {
    Found(String, String),
    /// A parameter `client_id` names another client than the Basic credentials.
    Conflict,
    /// Neither a Basic pair nor both parameters were sent.
    Missing,
}

/// Selection of a confidential client's credentials, secret required.
pub open spec fn spec_select_client_credentials(
    basic: Option<(String, String)>,
    client_id: Option<String>,
    client_secret: Option<String>,
) -> Option<Option<(Seq<char>, Seq<char>)>> {
    match basic {
        Some((id, secret)) => if client_id is Some && client_id->0@ != id@ {
            None
        } else {
            Some(Some((id@, secret@)))
        },
        None => match (client_id, client_secret) {
            (Some(id), Some(secret)) => Some(Some((id@, secret@))),
            _ => Some(None),
        },
    }
}

/// Credentials of a confidential client: `None` inside means missing, an
/// outer `None` a conflict between Basic and parameter ids.
pub fn select_client_credentials(
    basic: Option<(String, String)>,
    client_id: Option<String>,
    client_secret: Option<String>,
) -> (r: CredentialSelection)
    ensures
        match r {
            CredentialSelection::Found(id, secret) => spec_select_client_credentials(
                basic,
                client_id,
                client_secret,
            ) == Some(Some((id@, secret@))),
            CredentialSelection::Conflict => spec_select_client_credentials(
                basic,
                client_id,
                client_secret,
            ) is None,
            CredentialSelection::Missing => spec_select_client_credentials(
                basic,
                client_id,
                client_secret,
            ) == Some(None::<(Seq<char>, Seq<char>)>),
        },
{
    match basic {
        Some((id, secret)) => {
            if let Some(form_id) = &client_id {
                if !str_eq(form_id.as_str(), id.as_str()) {
                    return CredentialSelection::Conflict;
                }
            }
            CredentialSelection::Found(id, secret)
        },
        None => match (client_id, client_secret) {
            (Some(id), Some(secret)) => CredentialSelection::Found(id, secret),
            _ => CredentialSelection::Missing,
        },
    }
}

/// Credentials a pushed authorization request authenticates with: a
/// conflicting id is a bad request, missing credentials are unauthorized.
pub fn par_client_credentials(
    basic: Option<(String, String)>,
    client_id: Option<String>,
    client_secret: Option<String>,
) -> (r: Result<(String, String), AppError>)
    ensures
        match r {
            Ok((id, secret)) => spec_select_client_credentials(basic, client_id, client_secret)
                == Some(Some((id@, secret@))),
            Err(e) => {
                ||| (spec_select_client_credentials(basic, client_id, client_secret) is None
                    && is_bad_request(e, "client_id does not match authenticated client"@))
                ||| (spec_select_client_credentials(basic, client_id, client_secret) == Some(
                    None::<(Seq<char>, Seq<char>)>,
                ) && is_unauthorized(e, "Missing client credentials"@))
            },
        },
{
    match select_client_credentials(basic, client_id, client_secret) {
        CredentialSelection::Found(id, secret) => Ok((id, secret)),
        CredentialSelection::Conflict => Err(
            AppError::BadRequest(String::from_str("client_id does not match authenticated client")),
        ),
        CredentialSelection::Missing => Err(
            AppError::Unauthorized(String::from_str("Missing client credentials")),
        ),
    }
}

/// View of an optional pair of strings.
pub open spec fn pair_view(p: Option<(String, String)>) -> Option<(Seq<char>, Seq<char>)> {
    match p {
        Some((a, b)) => Some((a@, b@)),
        None => None,
    }
}

/// The client a token-exchange request authenticates as: the form
/// `client_id`, else the Basic one (they must agree when both are sent),
/// with the form secret, else the Basic one.
pub open spec fn spec_token_exchange_client(
    form_client_id: Option<Seq<char>>,
    form_client_secret: Option<Seq<char>>,
    basic: Option<(Seq<char>, Seq<char>)>,
) -> Result<(Seq<char>, Option<Seq<char>>), ()> {
    let secret = match form_client_secret {
        Some(s) => Some(s),
        None => match basic {
            Some((_, s)) => Some(s),
            None => None,
        },
    };
    match form_client_id {
        Some(f) => match basic {
            Some((b, _)) => if f != b {
                Err(())
            } else {
                Ok((f, secret))
            },
            None => Ok((f, secret)),
        },
        None => match basic {
            Some((b, _)) => Ok((b, secret)),
            None => Err(()),
        },
    }
}

pub fn token_exchange_client(
    form_client_id: Option<String>,
    form_client_secret: Option<String>,
    basic: Option<(String, String)>,
) -> (r: Result<(String, Option<String>), AppError>)
    ensures
        match r {
            Ok((id, secret)) => spec_token_exchange_client(
                opt_view(form_client_id),
                opt_view(form_client_secret),
                pair_view(basic),
            ) == Ok::<(Seq<char>, Option<Seq<char>>), ()>((id@, opt_view(secret))),
            Err(e) => spec_token_exchange_client(
                opt_view(form_client_id),
                opt_view(form_client_secret),
                pair_view(basic),
            ) is Err && if form_client_id is Some {
                is_invalid_client_credentials(e)
            } else {
                is_bad_request(e, "Missing client_id"@)
            },
        },
{
    match (form_client_id, basic) {
        (Some(f), Some((b, bs))) => {
            if !str_eq(f.as_str(), b.as_str()) {
                return Err(invalid_client_credentials());
            }
            let secret = match form_client_secret {
                Some(s) => Some(s),
                None => Some(bs),
            };
            Ok((f, secret))
        },
        (Some(f), None) => Ok((f, form_client_secret)),
        (None, Some((b, bs))) => {
            let secret = match form_client_secret {
                Some(s) => Some(s),
                None => Some(bs),
            };
            Ok((b, secret))
        },
        (None, None) => Err(AppError::BadRequest(String::from_str("Missing client_id"))),
    }
}

/// The caller of a revocation request: its credentials when they name a
/// non-empty client id.
pub fn revocation_caller(
    basic: Option<(String, String)>,
    client_id: Option<String>,
    client_secret: Option<String>,
) -> (r: Option<(String, Option<String>)>)
    ensures
        match r {
            Some((id, secret)) => spec_credentials_from_basic_or_params(
                basic,
                client_id,
                client_secret,
            ) == Some((id@, opt_view(secret))) && id@.len() > 0,
            None => match spec_credentials_from_basic_or_params(basic, client_id, client_secret) {
                Some((id, _)) => id.len() == 0,
                None => true,
            },
        },
{
    match client_credentials_from_basic_or_params(basic, client_id, client_secret) {
        Some((id, secret)) => {
            if id.as_str().is_empty() {
                None
            } else {
                Some((id, secret))
            }
        },
        None => None,
    }
}

/// The caller of an introspection request: its `client_id`, when non-empty.
pub fn introspection_caller(client_id: Option<String>) -> (r: Option<String>)
    ensures
        match client_id {
            Some(id) => if id@.len() > 0 {
                r == Some(id)
            } else {
                r is None
            },
            None => r is None,
        },
{
    match client_id {
        Some(id) => {
            if id.as_str().is_empty() {
                None
            } else {
                Some(id)
            }
        },
        None => None,
    }
}

/// Prefix of raw broker binding credentials.
pub const BINDING_ID_PREFIX: &'static str = "bnd_";

/// Whether a token to introspect or revoke is a broker binding: its type
/// hint names the broker subject token type, or it carries the binding prefix.
pub fn is_broker_binding_token(
    token_type_hint: Option<&str>,
    token: &str,
    broker_subject_token_type: &str,
) -> (r: bool)
    ensures
        r == ((token_type_hint matches Some(h) && h@ == broker_subject_token_type@) || strip_prefix(
            token@,
            BINDING_ID_PREFIX@,
        ) is Some),
{
    let hinted = match token_type_hint {
        Some(h) => str_eq(h, broker_subject_token_type),
        None => false,
    };
    hinted || strip_prefix_str(token, BINDING_ID_PREFIX).is_some()
}

} // verus!

//! Request validation, consent, URL-building and response-projection logic
//! for the NyxID backend HTTP handlers, with machine-checked contracts.
use vstd::prelude::*;

pub mod branding;
pub mod client_auth;
pub mod encoding;
pub mod errors;
pub mod feature_flags;
pub mod notifications;
pub mod oracle;
pub mod oauth_authorize;
pub mod oauth_consent;
pub mod oauth_token;
pub mod oauth_types;
pub mod oauth_urls;
pub mod platform_ops;
pub mod platform_preferences;
pub mod providers;
pub mod text;

verus! {

} // verus!

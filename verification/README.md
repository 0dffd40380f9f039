# nyxid_handlers

The decision logic of NyxID's HTTP handlers, written in Verus and proved
against its contracts: the OAuth 2.0 / OIDC authorization, consent, token,
introspection, revocation and registration endpoints; client authentication;
platform operations (credential resolution, spend checks and the metered
forwarding state machine); Oracle worker management; notification settings;
providers, feature flags and consent-page branding.

Layout:

- `src/` — the verified library. Each module states its rules as spec
  functions and proves the executable code against them; public proof
  functions (`lemma_*`) state the laws that span several functions.
  The trusted items are few: in `encoding.rs`, wrappers around
  `urlencoding::encode` and `decode`, the `base64` standard engine's
  `encode` and `decode`, `url::Url::parse` (scheme and host),
  `url::form_urlencoded::Serializer`, `rand`'s `gen_range` and std's
  `String::from_utf8`; in `text.rs`, a specification of std's
  `String::push`. Each states what the outside function returns.
- `tests/` — ordinary Rust tests of the library on concrete values.
- `app/` — the unverified edge: serde wire types with `From` conversions
  to and from the library's types, axum response helpers, the signed
  consent request (JWT), and drivers that run the library's step functions
  (introspection, revocation, metered forwarding, broker code redemption)
  against storage and vendor calls.

Verify with Verus on `src/lib.rs`; the tests run with `cargo test`.

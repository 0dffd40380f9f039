//! Consent and service-grant logic: which services a grant covers, when the
//! user must be asked again, and what an authorization code carries.
use vstd::prelude::*;
use crate::text::{views, contains_string, trim, trim_str, clone_string_vec};

verus! {

/// A stored consent grant of a user to a client.
pub struct Consent {
    /// Explicit consent to every service the user can grant.
    pub allow_all_services: bool,
    /// Services consented to; `None` for a legacy grant that predates
    /// service-level consent.
    pub allowed_service_ids: Option<Vec<String>>,
}

/// RFC 8707 resources resolved for a user: `resource_uris[i]` is served by
/// `service_ids[i]`.
pub struct ResolvedOAuthResources {
    pub resource_uris: Vec<String>,
    pub service_ids: Vec<String>,
}

/// The service grant currently held by a reviewed broker binding.
pub struct BindingGrantSnapshot {
    pub allowed_service_ids: Vec<String>,
    pub allow_all_services: bool,
}

/// What an issued authorization code carries.
pub struct AuthorizationGrant {
    pub resource_uris: Vec<String>,
    pub allowed_service_ids: Vec<String>,
    pub allow_all_services: bool,
}

/// The ids of `left` that also occur in `right`, in the order of `left`,
/// each kept at its first occurrence only.
pub open spec fn spec_intersect(left: Seq<Seq<char>>, right: Seq<Seq<char>>) -> Seq<Seq<char>>
    decreases left.len(),
{
    if left.len() == 0 {
        Seq::empty()
    } else {
        let prev = spec_intersect(left.drop_last(), right);
        let x = left.last();
        if right.contains(x) && !prev.contains(x) {
            prev.push(x)
        } else {
            prev
        }
    }
}

pub open spec fn no_duplicates(s: Seq<Seq<char>>) -> bool {
    forall|i: int, j: int| 0 <= i < j < s.len() ==> s[i] != s[j]
}

/// The ids of `left` that are in `right`, in the order of `left`, without repeats.
pub fn intersect_service_ids(left: &[String], right: &[String]) -> (out: Vec<String>)
    ensures
        views(out@) == spec_intersect(views(left@), views(right@)),
{
    let mut out: Vec<String> = Vec::new();
    let mut i: usize = 0;
    while i < left.len()
        invariant
            i <= left.len(),
            views(out@) == spec_intersect(views(left@).take(i as int), views(right@)),
        decreases left.len() - i,
    {
        let id = &left[i];
        let ghost before = views(out@);
        assert(views(left@).take(i + 1).drop_last() =~= views(left@).take(i as int));
        assert(views(left@).take(i + 1).last() == id@);
        if contains_string(right, id.as_str()) && !contains_string(out.as_slice(), id.as_str()) {
            out.push(id.clone());
            assert(views(out@) =~= before.push(id@));
        }
        i = i + 1;
    }
    assert(views(left@).take(left.len() as int) =~= views(left@));
    out
}

/// Appending an element keeps all members and adds exactly that element.
pub(crate) proof fn lemma_push_members(prev: Seq<Seq<char>>, x: Seq<char>)
    ensures
        forall|y: Seq<char>| #[trigger] prev.push(x).contains(y) <==> (prev.contains(y) || y == x),
{
    assert forall|y: Seq<char>| #[trigger] prev.push(x).contains(y) <==> (prev.contains(y) || y
        == x) by {
        if prev.contains(y) {
            let k = choose|k: int| 0 <= k < prev.len() && prev[k] == y;
            assert(prev.push(x)[k] == y);
        }
        if y == x {
            assert(prev.push(x)[prev.len() as int] == y);
        }
        if prev.push(x).contains(y) {
            let k = choose|k: int| 0 <= k < prev.push(x).len() && prev.push(x)[k] == y;
            if k < prev.len() {
                assert(prev[k] == y);
            }
        }
    }
}

/// Appending an element that is not yet present keeps a list free of repeats.
pub(crate) proof fn lemma_push_no_duplicates(prev: Seq<Seq<char>>, x: Seq<char>)
    requires
        no_duplicates(prev),
        !prev.contains(x),
    ensures
        no_duplicates(prev.push(x)),
{
    let r = prev.push(x);
    assert forall|i: int, j: int| 0 <= i < j < r.len() implies r[i] != r[j] by {
        if j == prev.len() {
            assert(r[i] == prev[i]);
            if prev[i] == x {
                assert(prev.contains(x));
            }
        } else {
            assert(r[i] == prev[i] && r[j] == prev[j]);
        }
    }
}

/// Membership in a list with its last element removed.
pub(crate) proof fn lemma_drop_last_members(s: Seq<Seq<char>>)
    requires
        s.len() > 0,
    ensures
        forall|y: Seq<char>| #[trigger] s.contains(y) <==> (s.drop_last().contains(y) || y
            == s.last()),
{
    assert forall|y: Seq<char>| #[trigger] s.contains(y) <==> (s.drop_last().contains(y) || y
        == s.last()) by {
        if s.contains(y) {
            let k = choose|k: int| 0 <= k < s.len() && s[k] == y;
            if k < s.len() - 1 {
                assert(s.drop_last()[k] == y);
            }
        }
        if s.drop_last().contains(y) {
            let k = choose|k: int| 0 <= k < s.drop_last().len() && s.drop_last()[k] == y;
            assert(s[k] == y);
        }
        if y == s.last() {
            assert(s[s.len() - 1] == y);
        }
    }
}

/// The intersection has no repeated id, and holds exactly the ids found in
/// both lists.
pub proof fn lemma_intersect_members(left: Seq<Seq<char>>, right: Seq<Seq<char>>)
    ensures
        no_duplicates(spec_intersect(left, right)),
        forall|x: Seq<char>| #[trigger]
            spec_intersect(left, right).contains(x) <==> (left.contains(x) && right.contains(x)),
    decreases left.len(),
{
    if left.len() > 0 {
        lemma_intersect_members(left.drop_last(), right);
        lemma_drop_last_members(left);
        let prev = spec_intersect(left.drop_last(), right);
        let x = left.last();
        if right.contains(x) && !prev.contains(x) {
            lemma_push_members(prev, x);
            lemma_push_no_duplicates(prev, x);
        }
    }
}

/// The trimmed, non-empty ids, each kept at its first occurrence.
pub open spec fn spec_normalize_ids(ids: Seq<Seq<char>>) -> Seq<Seq<char>>
    decreases ids.len(),
{
    if ids.len() == 0 {
        Seq::empty()
    } else {
        let prev = spec_normalize_ids(ids.drop_last());
        let t = trim(ids.last());
        if t.len() > 0 && !prev.contains(t) {
            prev.push(t)
        } else {
            prev
        }
    }
}

/// Trims each id, drops empty ones and later repeats, keeping the order of
/// first occurrence.
pub fn normalize_allowed_service_ids(ids: Vec<String>) -> (out: Vec<String>)
    ensures
        views(out@) == spec_normalize_ids(views(ids@)),
{
    let mut out: Vec<String> = Vec::new();
    let mut i: usize = 0;
    while i < ids.len()
        invariant
            i <= ids.len(),
            views(out@) == spec_normalize_ids(views(ids@).take(i as int)),
        decreases ids.len() - i,
    {
        let t = trim_str(ids[i].as_str());
        let ghost before = views(out@);
        assert(views(ids@).take(i + 1).drop_last() =~= views(ids@).take(i as int));
        assert(views(ids@).take(i + 1).last() == ids@[i as int]@);
        if !t.as_str().is_empty() && !contains_string(out.as_slice(), t.as_str()) {
            out.push(t);
            assert(views(out@) =~= before.push(trim(ids@[i as int]@)));
        } else {
            proof {
                if t@.len() > 0 {
                    assert(t@ == trim(ids@[i as int]@));
                }
            }
        }
        i = i + 1;
    }
    assert(views(ids@).take(ids.len() as int) =~= views(ids@));
    out
}

/// Whether some input id trims to `x`.
pub open spec fn trims_to(ids: Seq<Seq<char>>, x: Seq<char>) -> bool {
    exists|k: int| 0 <= k < ids.len() && trim(#[trigger] ids[k]) == x
}

/// The normalized list has no repeats and no empty id, and holds exactly the
/// non-empty trimmed inputs.
pub proof fn lemma_normalize_members(ids: Seq<Seq<char>>)
    ensures
        no_duplicates(spec_normalize_ids(ids)),
        forall|x: Seq<char>| #[trigger]
            spec_normalize_ids(ids).contains(x) <==> (x.len() > 0 && trims_to(ids, x)),
    decreases ids.len(),
{
    if ids.len() > 0 {
        let init = ids.drop_last();
        lemma_normalize_members(init);
        let prev = spec_normalize_ids(init);
        let t = trim(ids.last());
        assert forall|x: Seq<char>| trims_to(ids, x) <==> (trims_to(init, x) || x == t) by {
            if trims_to(ids, x) {
                let k = choose|k: int| 0 <= k < ids.len() && trim(#[trigger] ids[k]) == x;
                if k < ids.len() - 1 {
                    assert(trim(init[k]) == x);
                }
            }
            if trims_to(init, x) {
                let k = choose|k: int| 0 <= k < init.len() && trim(#[trigger] init[k]) == x;
                assert(trim(ids[k]) == x);
            }
            if x == t {
                assert(trim(ids[ids.len() - 1]) == x);
            }
        }
        if t.len() > 0 && !prev.contains(t) {
            lemma_push_members(prev, t);
            lemma_push_no_duplicates(prev, t);
        }
    }
}

/// Whether every id of `ids` is among `consented`.
pub open spec fn all_covered(ids: Seq<Seq<char>>, consented: Seq<Seq<char>>) -> bool {
    forall|i: int| 0 <= i < ids.len() ==> consented.contains(#[trigger] ids[i])
}

/// Whether the user must be asked (again) before a code is issued.
pub open spec fn spec_consent_requires_prompt(consent: Option<Consent>, resolved: Option<ResolvedOAuthResources>) -> bool {
    match consent {
        None => true,
        Some(grant) => {
            if grant.allowed_service_ids is None && !grant.allow_all_services {
                true
            } else if grant.allow_all_services {
                false
            } else {
                match resolved {
                    None => false,
                    Some(r) => !all_covered(
                        views(r.service_ids@),
                        views(grant.allowed_service_ids->0@),
                    ),
                }
            }
        },
    }
}

/// A grant needs a prompt when there is none, when it is a legacy grant
/// without service scoping, or when a requested resource's service lies
/// outside the consented services. Explicit allow-all never needs one.
#[verifier::loop_isolation(false)]
pub fn consent_requires_prompt(
    consent: Option<&Consent>,
    resolved_resources: Option<&ResolvedOAuthResources>,
) -> (r: bool)
    ensures
        r == spec_consent_requires_prompt(
            match consent {
                Some(c) => Some(*c),
                None => None,
            },
            match resolved_resources {
                Some(x) => Some(*x),
                None => None,
            },
        ),
{
    let grant = match consent {
        None => return true,
        Some(g) => g,
    };
    if grant.allowed_service_ids.is_none() && !grant.allow_all_services {
        return true;
    }
    if grant.allow_all_services {
        return false;
    }
    let resolved = match resolved_resources {
        None => return false,
        Some(r) => r,
    };
    let consented = match &grant.allowed_service_ids {
        Some(ids) => ids,
        None => return true,
    };
    let mut i: usize = 0;
    while i < resolved.service_ids.len()
        invariant
            i <= resolved.service_ids.len(),
            forall|k: int|
                0 <= k < i ==> views(consented@).contains(#[trigger] resolved.service_ids@[k]@),
        decreases resolved.service_ids.len() - i,
    {
        if !contains_string(consented.as_slice(), resolved.service_ids[i].as_str()) {
            assert(!views(consented@).contains(resolved.service_ids@[i as int]@));
            assert(views(resolved.service_ids@)[i as int] == resolved.service_ids@[i as int]@);
            return true;
        }
        i = i + 1;
    }
    assert(all_covered(views(resolved.service_ids@), views(consented@)));
    false
}

/// Whether every selected resource was among the requested ones.
pub fn selected_resources_are_subset(requested: &[String], selected: &[String]) -> (r: bool)
    ensures
        r == (forall|i: int|
            0 <= i < selected@.len() ==> views(requested@).contains(#[trigger] selected@[i]@)),
{
    let mut i: usize = 0;
    while i < selected.len()
        invariant
            i <= selected.len(),
            forall|k: int| 0 <= k < i ==> views(requested@).contains(#[trigger] selected@[k]@),
        decreases selected.len() - i,
    {
        if !contains_string(requested, selected[i].as_str()) {
            return false;
        }
        i = i + 1;
    }
    true
}

/// Resources of the first `n` (uri, service) pairs whose service is allowed.
pub open spec fn spec_kept_resources(
    uris: Seq<Seq<char>>,
    ids: Seq<Seq<char>>,
    allowed: Seq<Seq<char>>,
    n: int,
) -> Seq<Seq<char>>
    decreases n,
{
    if n <= 0 {
        Seq::empty()
    } else {
        let prev = spec_kept_resources(uris, ids, allowed, n - 1);
        if allowed.contains(ids[n - 1]) {
            prev.push(uris[n - 1])
        } else {
            prev
        }
    }
}

pub open spec fn min_len(a: int, b: int) -> int {
    if a < b {
        a
    } else {
        b
    }
}

/// What a code issued under `consent` carries: `(resources, services, allow_all)`.
pub open spec fn spec_authorization_grant(resolved: Option<ResolvedOAuthResources>, consent: Consent) -> (Seq<Seq<char>>, Seq<Seq<char>>, bool) {
    match resolved {
        Some(r) => if consent.allow_all_services {
            (views(r.resource_uris@), views(r.service_ids@), false)
        } else {
            match consent.allowed_service_ids {
                Some(c) => {
                    let allowed = spec_intersect(views(r.service_ids@), views(c@));
                    (
                        spec_kept_resources(
                            views(r.resource_uris@),
                            views(r.service_ids@),
                            allowed,
                            min_len(r.resource_uris@.len() as int, r.service_ids@.len() as int),
                        ),
                        allowed,
                        false,
                    )
                },
                None => (Seq::empty(), Seq::empty(), false),
            }
        },
        None => if consent.allow_all_services {
            (Seq::empty(), Seq::empty(), true)
        } else {
            match consent.allowed_service_ids {
                Some(c) => (Seq::empty(), views(c@), false),
                None => (Seq::empty(), Seq::empty(), false),
            }
        },
    }
}

/// The resources, services and allow-all flag an authorization code carries.
/// Requested resources are narrowed to the consented services; without
/// requested resources a service-scoped consent passes its services on.
pub fn authorization_grant(resolved: Option<ResolvedOAuthResources>, consent: &Consent) -> (g: AuthorizationGrant)
    ensures
        (views(g.resource_uris@), views(g.allowed_service_ids@), g.allow_all_services)
            == spec_authorization_grant(resolved, *consent),
{
    match resolved {
        Some(r) => {
            if consent.allow_all_services {
                return AuthorizationGrant {
                    resource_uris: r.resource_uris,
                    allowed_service_ids: r.service_ids,
                    allow_all_services: false,
                };
            }
            match &consent.allowed_service_ids {
                Some(c) => {
                    let allowed = intersect_service_ids(r.service_ids.as_slice(), c.as_slice());
                    let n = if r.resource_uris.len() < r.service_ids.len() {
                        r.resource_uris.len()
                    } else {
                        r.service_ids.len()
                    };
                    let mut kept: Vec<String> = Vec::new();
                    let mut i: usize = 0;
                    while i < n
                        invariant
                            i <= n,
                            n <= r.resource_uris.len(),
                            n <= r.service_ids.len(),
                            views(kept@) == spec_kept_resources(
                                views(r.resource_uris@),
                                views(r.service_ids@),
                                views(allowed@),
                                i as int,
                            ),
                        decreases n - i,
                    {
                        let ghost before = views(kept@);
                        if contains_string(allowed.as_slice(), r.service_ids[i].as_str()) {
                            kept.push(r.resource_uris[i].clone());
                            assert(views(kept@) =~= before.push(r.resource_uris@[i as int]@));
                        }
                        i = i + 1;
                    }
                    AuthorizationGrant {
                        resource_uris: kept,
                        allowed_service_ids: allowed,
                        allow_all_services: false,
                    }
                },
                None => AuthorizationGrant {
                    resource_uris: Vec::new(),
                    allowed_service_ids: Vec::new(),
                    allow_all_services: false,
                },
            }
        },
        None => {
            if consent.allow_all_services {
                return AuthorizationGrant {
                    resource_uris: Vec::new(),
                    allowed_service_ids: Vec::new(),
                    allow_all_services: true,
                };
            }
            match &consent.allowed_service_ids {
                Some(c) => AuthorizationGrant {
                    resource_uris: Vec::new(),
                    allowed_service_ids: clone_string_vec(c),
                    allow_all_services: false,
                },
                None => AuthorizationGrant {
                    resource_uris: Vec::new(),
                    allowed_service_ids: Vec::new(),
                    allow_all_services: false,
                },
            }
        },
    }
}

/// A code never reaches beyond its consent: it is unrestricted only under an
/// explicit allow-all consent with no requested resource, and a code issued
/// under a service-scoped consent names only consented services.
pub proof fn lemma_grant_within_consent(resolved: Option<ResolvedOAuthResources>, consent: Consent)
    ensures
        spec_authorization_grant(resolved, consent).2 ==> consent.allow_all_services
            && resolved is None,
        !consent.allow_all_services ==> forall|x: Seq<char>| #[trigger]
            spec_authorization_grant(resolved, consent).1.contains(x) ==> (
            consent.allowed_service_ids matches Some(c) && views(c@).contains(x)),
{
    if let Some(r) = resolved {
        if let Some(c) = consent.allowed_service_ids {
            lemma_intersect_members(views(r.service_ids@), views(c@));
        }
    }
}

/// A catalog service an app declares as a default.
pub struct CatalogServiceEntry {
    pub id: String,
    pub name: String,
}

/// One of the user's services, with whether the user may grant it (personal
/// services always; org-inherited ones when the org allows it).
pub struct UserServiceEntry {
    pub id: String,
    pub catalog_service_id: Option<String>,
    pub allowed: bool,
}

/// Hints shown on the consent page.
pub struct AppDefaultServiceHints {
    /// The user's grantable services matching the app's default catalog services.
    pub preselect_service_ids: Vec<String>,
    /// Names of default catalog services the user has no matching service for.
    pub unmatched_names: Vec<String>,
    /// Services resolved from requested resources.
    pub required_service_ids: Vec<String>,
    /// Service grant currently held by the reviewed broker binding.
    pub current_binding_service_ids: Vec<String>,
    pub current_binding_allow_all_services: bool,
    pub binding_review: bool,
}

impl Default for AppDefaultServiceHints {
    fn default() -> (r: Self)
        ensures
            r.preselect_service_ids@.len() == 0,
            r.unmatched_names@.len() == 0,
            r.required_service_ids@.len() == 0,
            r.current_binding_service_ids@.len() == 0,
            !r.current_binding_allow_all_services,
            !r.binding_review,
    {
        AppDefaultServiceHints {
            preselect_service_ids: Vec::new(),
            unmatched_names: Vec::new(),
            required_service_ids: Vec::new(),
            current_binding_service_ids: Vec::new(),
            current_binding_allow_all_services: false,
            binding_review: false,
        }
    }
}

impl AppDefaultServiceHints {
    /// Adds the services required by the requested resources and, for a
    /// binding review, the binding's current grant.
    pub fn include_flow_grants(
        &mut self,
        resolved_resources: Option<&ResolvedOAuthResources>,
        binding_grant: Option<&BindingGrantSnapshot>,
    )
        ensures
            final(self).preselect_service_ids == old(self).preselect_service_ids,
            final(self).unmatched_names == old(self).unmatched_names,
            final(self).required_service_ids@ == (match resolved_resources {
                Some(r) => r.service_ids@,
                None => Seq::empty(),
            }),
            binding_grant matches Some(b) ==> {
                &&& final(self).binding_review
                &&& final(self).current_binding_service_ids@ == b.allowed_service_ids@
                &&& final(self).current_binding_allow_all_services == b.allow_all_services
            },
            binding_grant is None ==> {
                &&& final(self).binding_review == old(self).binding_review
                &&& final(self).current_binding_service_ids == old(
                    self,
                ).current_binding_service_ids
                &&& final(self).current_binding_allow_all_services == old(
                    self,
                ).current_binding_allow_all_services
            },
    {
        self.required_service_ids = match resolved_resources {
            Some(resolved) => clone_string_vec(&resolved.service_ids),
            None => Vec::new(),
        };
        if let Some(binding_grant) = binding_grant {
            self.binding_review = true;
            self.current_binding_service_ids = clone_string_vec(&binding_grant.allowed_service_ids);
            self.current_binding_allow_all_services = binding_grant.allow_all_services;
        }
    }
}

/// Whether a user service is preselected: grantable, and a copy of one of the
/// app's default catalog services.
pub open spec fn is_preselected(u: UserServiceEntry, catalog_ids: Seq<Seq<char>>) -> bool {
    u.allowed && (u.catalog_service_id matches Some(c) && catalog_ids.contains(c@))
}

/// Ids of the preselected services among the first `n` user services.
pub open spec fn spec_preselected(us: Seq<UserServiceEntry>, catalog_ids: Seq<Seq<char>>, n: int) -> Seq<Seq<char>>
    decreases n,
{
    if n <= 0 {
        Seq::empty()
    } else {
        let prev = spec_preselected(us, catalog_ids, n - 1);
        if is_preselected(us[n - 1], catalog_ids) {
            prev.push(us[n - 1].id@)
        } else {
            prev
        }
    }
}

/// Catalog ids matched by a preselected service among the first `n`.
pub open spec fn spec_matched(us: Seq<UserServiceEntry>, catalog_ids: Seq<Seq<char>>, n: int) -> Seq<Seq<char>>
    decreases n,
{
    if n <= 0 {
        Seq::empty()
    } else {
        let prev = spec_matched(us, catalog_ids, n - 1);
        if is_preselected(us[n - 1], catalog_ids) {
            prev.push(us[n - 1].catalog_service_id->0@)
        } else {
            prev
        }
    }
}

/// Names of the first `n` catalog services not in `matched`.
pub open spec fn spec_unmatched(cat: Seq<CatalogServiceEntry>, matched: Seq<Seq<char>>, n: int) -> Seq<Seq<char>>
    decreases n,
{
    if n <= 0 {
        Seq::empty()
    } else {
        let prev = spec_unmatched(cat, matched, n - 1);
        if !matched.contains(cat[n - 1].id@) {
            prev.push(cat[n - 1].name@)
        } else {
            prev
        }
    }
}

pub open spec fn catalog_ids(cat: Seq<CatalogServiceEntry>) -> Seq<Seq<char>> {
    cat.map_values(|c: CatalogServiceEntry| c.id@)
}

/// Consent-page hints for an app's default catalog services, from the active
/// catalog services the app names and the user's services.
pub fn default_service_hints_from(
    catalog: &Vec<CatalogServiceEntry>,
    user_services: &Vec<UserServiceEntry>,
) -> (h: AppDefaultServiceHints)
    ensures
        views(h.preselect_service_ids@) == spec_preselected(
            user_services@,
            catalog_ids(catalog@),
            user_services@.len() as int,
        ),
        views(h.unmatched_names@) == spec_unmatched(
            catalog@,
            spec_matched(user_services@, catalog_ids(catalog@), user_services@.len() as int),
            catalog@.len() as int,
        ),
        h.required_service_ids@.len() == 0,
        h.current_binding_service_ids@.len() == 0,
        !h.current_binding_allow_all_services,
        !h.binding_review,
{
    let mut ids: Vec<String> = Vec::new();
    let mut i: usize = 0;
    while i < catalog.len()
        invariant
            i <= catalog.len(),
            views(ids@) == catalog_ids(catalog@).take(i as int),
        decreases catalog.len() - i,
    {
        let ghost before = views(ids@);
        ids.push(catalog[i].id.clone());
        assert(views(ids@) =~= before.push(catalog@[i as int].id@));
        assert(catalog_ids(catalog@).take(i + 1) =~= catalog_ids(catalog@).take(i as int).push(
            catalog@[i as int].id@,
        ));
        i = i + 1;
    }
    assert(catalog_ids(catalog@).take(catalog.len() as int) =~= catalog_ids(catalog@));
    let mut preselect: Vec<String> = Vec::new();
    let mut matched: Vec<String> = Vec::new();
    let mut j: usize = 0;
    while j < user_services.len()
        invariant
            j <= user_services.len(),
            views(ids@) == catalog_ids(catalog@),
            views(preselect@) == spec_preselected(user_services@, catalog_ids(catalog@), j as int),
            views(matched@) == spec_matched(user_services@, catalog_ids(catalog@), j as int),
        decreases user_services.len() - j,
    {
        let u = &user_services[j];
        if u.allowed {
            if let Some(c) = &u.catalog_service_id {
                if contains_string(ids.as_slice(), c.as_str()) {
                    let ghost p0 = views(preselect@);
                    let ghost m0 = views(matched@);
                    preselect.push(u.id.clone());
                    matched.push(c.clone());
                    assert(views(preselect@) =~= p0.push(u.id@));
                    assert(views(matched@) =~= m0.push(c@));
                }
            }
        }
        j = j + 1;
    }
    let mut unmatched: Vec<String> = Vec::new();
    let mut k: usize = 0;
    while k < catalog.len()
        invariant
            k <= catalog.len(),
            views(unmatched@) == spec_unmatched(catalog@, views(matched@), k as int),
        decreases catalog.len() - k,
    {
        if !contains_string(matched.as_slice(), catalog[k].id.as_str()) {
            let ghost u0 = views(unmatched@);
            unmatched.push(catalog[k].name.clone());
            assert(views(unmatched@) =~= u0.push(catalog@[k as int].name@));
        }
        k = k + 1;
    }
    AppDefaultServiceHints {
        preselect_service_ids: preselect,
        unmatched_names: unmatched,
        required_service_ids: Vec::new(),
        current_binding_service_ids: Vec::new(),
        current_binding_allow_all_services: false,
        binding_review: false,
    }
}

} // verus!

//! Per-org feature flag overrides as org admins see and set them.
use vstd::prelude::*;

verus! {

/// Scope of a flag override.
#[derive(Clone, Copy, Debug, PartialEq, Eq, Structural)]
pub enum FlagTargetKind {
    Org,
    Role,
    User,
}

/// Wire name of a scope.
pub open spec fn target_kind_name(k: FlagTargetKind) -> Seq<char> {
    match k {
        FlagTargetKind::Org => "org"@,
        FlagTargetKind::Role => "role"@,
        FlagTargetKind::User => "user"@,
    }
}

/// Wire form of [`FlagTargetKind`] in requests.
#[derive(Clone, Copy, Debug, PartialEq, Eq, Structural)]
pub enum FlagTargetKindWire {
    Org,
    Role,
    User,
}

impl FlagTargetKind {
    pub fn as_str(&self) -> (s: &'static str)
        ensures
            s@ == target_kind_name(*self),
    {
        match self {
            FlagTargetKind::Org => "org",
            FlagTargetKind::Role => "role",
            FlagTargetKind::User => "user",
        }
    }

    /// The scope a request names.
    pub fn from(kind: FlagTargetKindWire) -> (r: Self)
        ensures
            r == (match kind {
                FlagTargetKindWire::Org => FlagTargetKind::Org,
                FlagTargetKindWire::Role => FlagTargetKind::Role,
                FlagTargetKindWire::User => FlagTargetKind::User,
            }),
    {
        match kind {
            FlagTargetKindWire::Org => FlagTargetKind::Org,
            FlagTargetKindWire::Role => FlagTargetKind::Role,
            FlagTargetKindWire::User => FlagTargetKind::User,
        }
    }
}

/// A stored override, with its time as RFC 3339 text.
pub struct FeatureFlagOverride {
    pub target_kind: FlagTargetKind,
    /// `None` for org scope; the role for role scope; the member for user scope.
    pub target_key: Option<String>,
    pub enabled: bool,
    pub updated_at: String,
    pub updated_by: String,
}

pub struct FeatureFlagOverrideWire {
    pub target_kind: String,
    pub target_value: Option<String>,
    pub enabled: bool,
    pub updated_at: String,
    pub updated_by: String,
}

impl FeatureFlagOverrideWire {
    pub fn from(o: FeatureFlagOverride) -> (r: Self)
        ensures
            r.target_kind@ == target_kind_name(o.target_kind),
            r.target_value == o.target_key,
            r.enabled == o.enabled,
            r.updated_at == o.updated_at,
            r.updated_by == o.updated_by,
    {
        FeatureFlagOverrideWire {
            target_kind: String::from_str(o.target_kind.as_str()),
            target_value: o.target_key,
            enabled: o.enabled,
            updated_at: o.updated_at,
            updated_by: o.updated_by,
        }
    }
}

fn override_wire(o: &FeatureFlagOverride) -> (r: FeatureFlagOverrideWire)
    ensures
        r.target_kind@ == target_kind_name(o.target_kind),
        r.target_value == o.target_key,
        r.enabled == o.enabled,
        r.updated_at == o.updated_at,
        r.updated_by == o.updated_by,
{
    FeatureFlagOverrideWire {
        target_kind: String::from_str(o.target_kind.as_str()),
        target_value: crate::text::clone_opt_string(&o.target_key),
        enabled: o.enabled,
        updated_at: o.updated_at.clone(),
        updated_by: o.updated_by.clone(),
    }
}

/// A code-declared flag.
pub struct FlagDefinition {
    pub key: String,
    pub description: String,
    pub default_enabled: bool,
    /// Whether org admins may toggle it (staff-only flags may not).
    pub org_manageable: bool,
}

pub struct FeatureFlagWire {
    pub key: String,
    pub description: String,
    pub default_enabled: bool,
    pub org_manageable: bool,
    pub overrides: Vec<FeatureFlagOverrideWire>,
}

pub struct FeatureFlagListResponse {
    pub flags: Vec<FeatureFlagWire>,
}

/// A flag with this org's overrides, in order.
pub fn feature_flag_wire(def: FlagDefinition, overrides: Vec<FeatureFlagOverride>) -> (r: FeatureFlagWire)
    ensures
        r.key == def.key,
        r.description == def.description,
        r.default_enabled == def.default_enabled,
        r.org_manageable == def.org_manageable,
        r.overrides@.len() == overrides@.len(),
        forall|i: int|
            0 <= i < overrides@.len() ==> {
                let w = #[trigger] r.overrides@[i];
                let o = overrides@[i];
                &&& w.target_kind@ == target_kind_name(o.target_kind)
                &&& w.target_value == o.target_key
                &&& w.enabled == o.enabled
                &&& w.updated_at == o.updated_at
                &&& w.updated_by == o.updated_by
            },
{
    let mut out: Vec<FeatureFlagOverrideWire> = Vec::new();
    let mut i: usize = 0;
    while i < overrides.len()
        invariant
            i <= overrides@.len(),
            out@.len() == i,
            forall|k: int|
                0 <= k < i ==> {
                    let w = #[trigger] out@[k];
                    let o = overrides@[k];
                    &&& w.target_kind@ == target_kind_name(o.target_kind)
                    &&& w.target_value == o.target_key
                    &&& w.enabled == o.enabled
                    &&& w.updated_at == o.updated_at
                    &&& w.updated_by == o.updated_by
                },
        decreases overrides.len() - i,
    {
        out.push(override_wire(&overrides[i]));
        i = i + 1;
    }
    FeatureFlagWire {
        key: def.key,
        description: def.description,
        default_enabled: def.default_enabled,
        org_manageable: def.org_manageable,
        overrides: out,
    }
}

pub struct SetFeatureFlagRequest {
    pub target_kind: FlagTargetKindWire,
    /// Required for role and user scope; omitted for org scope.
    pub target_value: Option<String>,
    pub enabled: bool,
}

pub struct ClearFeatureFlagQuery {
    pub target_kind: FlagTargetKindWire,
    pub target_value: Option<String>,
}

} // verus!

use vstd::prelude::*;
use vstd::std_specs::cmp::PartialEqSpec;

verus! {

/// Last observed health of a monitored service.
#[derive(Clone, Debug)]
pub enum ServerLastStatus {
    /// The last probe succeeded.
    Optional,
    /// The last probe failed.
    Outage,
    /// Nothing is known yet; only ever an initial value.
    Unknown,
}

impl ServerLastStatus {
    /// Whether the status counts as healthy: only `Optional` does.
    pub open spec fn spec_healthy(&self) -> bool {
        self is Optional
    }

    /// The status that a probe result stands for.
    pub open spec fn spec_from_bool(b: bool) -> ServerLastStatus {
        if b {
            ServerLastStatus::Optional
        } else {
            ServerLastStatus::Outage
        }
    }

    /// Whether the status counts as healthy: `Optional` does, `Outage` and
    /// `Unknown` do not.
    pub fn is_healthy(&self) -> (r: bool)
        ensures
            r == self.spec_healthy(),
    {
        match self {
            ServerLastStatus::Optional => true,
            _ => false,
        }
    }
}

impl From<bool> for ServerLastStatus {
    fn from(b: bool) -> (r: Self) {
        if b {
            ServerLastStatus::Optional
        } else {
            ServerLastStatus::Outage
        }
    }
}

impl vstd::std_specs::convert::FromSpecImpl<bool> for ServerLastStatus {
    open spec fn obeys_from_spec() -> bool {
        true
    }

    open spec fn from_spec(b: bool) -> ServerLastStatus {
        ServerLastStatus::spec_from_bool(b)
    }
}

/// A status equals a probe result when both say healthy, or both do not.
impl PartialEq<bool> for ServerLastStatus {
    fn eq(&self, other: &bool) -> (r: bool) {
        match self {
            ServerLastStatus::Optional => *other,
            _ => !*other,
        }
    }
}

impl vstd::std_specs::cmp::PartialEqSpecImpl<bool> for ServerLastStatus {
    open spec fn obeys_eq_spec() -> bool {
        true
    }

    open spec fn eq_spec(&self, other: &bool) -> bool {
        self.spec_healthy() == *other
    }
}

/// The status built from a probe result is healthy exactly when the result is
/// `true`, and is never `Unknown`.
pub proof fn lemma_from_bool_healthy(b: bool)
    ensures
        ServerLastStatus::spec_from_bool(b).spec_healthy() == b,
        !(ServerLastStatus::spec_from_bool(b) is Unknown),
{
}

/// Equality of a status with a probe result: `Optional` equals `true` and not
/// `false`; `Outage` and `Unknown` both equal `false` and not `true`.
pub proof fn lemma_status_equals_bool()
    ensures
        ServerLastStatus::Optional.eq_spec(&true),
        !ServerLastStatus::Optional.eq_spec(&false),
        ServerLastStatus::Outage.eq_spec(&false),
        !ServerLastStatus::Outage.eq_spec(&true),
        ServerLastStatus::Unknown.eq_spec(&false),
        !ServerLastStatus::Unknown.eq_spec(&true),
{
}

} // verus!

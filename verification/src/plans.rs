//! The plans an organisation may be on, and what each allows. The Free plan
//! has no subdomain or port scans, no report generation and no scheduled
//! scans, at most three engagements, ten findings per engagement and five
//! scan targets. Recon, Strike and Offensive are the paid "Pro" plans: up to
//! fifty scan targets, with scheduled scans. Enterprise has no target limit.
use vstd::prelude::*;

use crate::text::{chars_of, eq_str};

verus! {

/// An organisation's plan. `Recon`, `Strike` and `Offensive` are the
/// levels of the Pro plan.
#[derive(Clone, Copy, Debug, PartialEq, Eq, Structural)]
pub enum PlanTier {
    Free,
    Recon,
    Strike,
    Offensive,
    Enterprise,
}

/// The plan a stored plan name denotes, if it is one.
pub open spec fn plan_named(name: Seq<char>) -> Option<PlanTier> {
    if name == "free"@ {
        Some(PlanTier::Free)
    } else if name == "recon"@ {
        Some(PlanTier::Recon)
    } else if name == "strike"@ {
        Some(PlanTier::Strike)
    } else if name == "offensive"@ {
        Some(PlanTier::Offensive)
    } else if name == "enterprise"@ {
        Some(PlanTier::Enterprise)
    } else {
        None
    }
}

impl PlanTier {
    /// Reads a stored plan name.
    pub fn from_name(name: &str) -> (r: Option<PlanTier>)
        ensures
            r == plan_named(name@),
    {
        let v = chars_of(name);
        if eq_str(&v, "free") {
            Some(PlanTier::Free)
        } else if eq_str(&v, "recon") {
            Some(PlanTier::Recon)
        } else if eq_str(&v, "strike") {
            Some(PlanTier::Strike)
        } else if eq_str(&v, "offensive") {
            Some(PlanTier::Offensive)
        } else if eq_str(&v, "enterprise") {
            Some(PlanTier::Enterprise)
        } else {
            None
        }
    }

    /// The plan's name as shown to users.
    pub fn label(&self) -> (r: &'static str)
        ensures
            r@ == plan_label(*self),
    {
        match self {
            PlanTier::Free => "Free",
            PlanTier::Recon => "Recon",
            PlanTier::Strike => "Strike",
            PlanTier::Offensive => "Offensive",
            PlanTier::Enterprise => "Enterprise",
        }
    }

    /// The most scan targets an organisation on this plan may hold; none
    /// when unlimited.
    pub fn max_targets(&self) -> (r: Option<u64>)
        ensures
            r == target_limit(*self),
    {
        match self {
            PlanTier::Free => Some(FREE_TARGET_LIMIT),
            PlanTier::Enterprise => None,
            _ => Some(PRO_TARGET_LIMIT),
        }
    }

    /// Whether scans may be scheduled on this plan.
    pub fn scheduling_enabled(&self) -> (r: bool)
        ensures
            r == scheduling_allowed(*self),
    {
        match self {
            PlanTier::Free => false,
            _ => true,
        }
    }

    /// Whether this is the Free plan.
    pub fn is_free(&self) -> (r: bool)
        ensures
            r == (*self == PlanTier::Free),
    {
        match self {
            PlanTier::Free => true,
            _ => false,
        }
    }
}

/// The name of a plan as shown to users.
pub open spec fn plan_label(tier: PlanTier) -> Seq<char> {
    match tier {
        PlanTier::Free => "Free"@,
        PlanTier::Recon => "Recon"@,
        PlanTier::Strike => "Strike"@,
        PlanTier::Offensive => "Offensive"@,
        PlanTier::Enterprise => "Enterprise"@,
    }
}

/// At most this many scan targets on the Free plan.
pub const FREE_TARGET_LIMIT: u64 = 5;

/// At most this many scan targets on a Pro plan.
pub const PRO_TARGET_LIMIT: u64 = 50;

/// The target limit of a plan: 5 on Free, 50 on the Pro plans, none on
/// Enterprise.
pub open spec fn target_limit(tier: PlanTier) -> Option<u64> {
    match tier {
        PlanTier::Free => Some(FREE_TARGET_LIMIT),
        PlanTier::Enterprise => None,
        _ => Some(PRO_TARGET_LIMIT),
    }
}

/// Scheduled scans are for the Pro and Enterprise plans.
pub open spec fn scheduling_allowed(tier: PlanTier) -> bool {
    tier != PlanTier::Free
}

/// At most this many engagements on the Free plan.
pub const FREE_ENGAGEMENT_LIMIT: u64 = 3;

/// At most this many findings per engagement on the Free plan.
pub const FREE_FINDINGS_PER_ENGAGEMENT: u64 = 10;

/// Subdomain (ASM) scans, port scans and report generation are for paid
/// plans.
pub open spec fn includes_scans_and_reports(tier: PlanTier) -> bool {
    tier != PlanTier::Free
}

/// Whether another engagement may be requested by an organisation that has
/// `existing` engagements.
pub open spec fn engagement_allowed(tier: PlanTier, existing: u64) -> bool {
    tier != PlanTier::Free || existing < FREE_ENGAGEMENT_LIMIT
}

/// Whether another finding may be added to an engagement that has
/// `existing` findings.
pub open spec fn finding_allowed(tier: PlanTier, existing: u64) -> bool {
    tier != PlanTier::Free || existing < FREE_FINDINGS_PER_ENGAGEMENT
}

/// A Free organisation never holds more than three engagements, five scan
/// targets, nor an engagement more than ten findings, when each addition is
/// checked first; it has no scheduled scans. Paid plans lift these limits,
/// Enterprise's target limit included.
pub proof fn lemma_free_limits_hold(existing: u64)
    ensures
        engagement_allowed(PlanTier::Free, existing) ==> existing + 1 <= FREE_ENGAGEMENT_LIMIT,
        finding_allowed(PlanTier::Free, existing) ==> existing + 1 <= FREE_FINDINGS_PER_ENGAGEMENT,
        !includes_scans_and_reports(PlanTier::Free),
        !scheduling_allowed(PlanTier::Free),
        target_limit(PlanTier::Free) == Some(5u64),
        target_limit(PlanTier::Enterprise) is None,
        forall|t: PlanTier| t != PlanTier::Free ==> scheduling_allowed(t) && (target_limit(t) is None
            || target_limit(t)->0 > FREE_TARGET_LIMIT),
        forall|t: PlanTier| t != PlanTier::Free ==> engagement_allowed(t, existing) && finding_allowed(
            t,
            existing,
        ) && includes_scans_and_reports(t),
{
}

} // verus!

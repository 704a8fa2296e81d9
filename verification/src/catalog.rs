//! The service catalogue seeded into an empty database: the services
//! offered and the pricing tiers of each.
use vstd::prelude::*;

verus! {

/// A pricing tier of a service.
#[derive(Clone, Copy, Debug)]
pub struct TierSeed {
    pub name: &'static str,
    pub slug: &'static str,
    pub price_cents: i64,
    pub billing_period: &'static str,
    pub max_targets: i32,
    pub max_scans_per_month: i32,
    /// The features, separated by commas.
    pub features: &'static str,
    pub sort_order: i32,
}

/// A service, with its tiers.
#[derive(Clone, Debug)]
pub struct ServiceSeed {
    pub name: &'static str,
    pub slug: &'static str,
    pub category: &'static str,
    pub description: &'static str,
    pub is_automated: bool,
    pub sort_order: i32,
    pub tiers: Vec<TierSeed>,
}

/// A tier as plain values.
pub open spec fn tier_view(t: TierSeed) -> (Seq<char>, Seq<char>, i64, Seq<char>, i32, i32, Seq<char>, i32) {
    (t.name@, t.slug@, t.price_cents, t.billing_period@, t.max_targets, t.max_scans_per_month, t.features@, t.sort_order)
}

/// A service as plain values (without its tiers).
pub open spec fn service_view(s: ServiceSeed) -> (Seq<char>, Seq<char>, Seq<char>, Seq<char>, bool, i32) {
    (s.name@, s.slug@, s.category@, s.description@, s.is_automated, s.sort_order)
}

/// The catalogue: penetration testing (Recon and Strike tiers),
/// vulnerability scanning (Basic, Pro and Enterprise scans), red-team
/// operations (no tiers) and attack-surface mapping (Free Scan, Continuous
/// and Enterprise ASM); all active.
pub fn seed_catalog() -> (r: Vec<ServiceSeed>)
    ensures
        r@.len() == 4,
        service_view(r@[0]) == ("Penetration Testing"@, "pentesting"@, "pentest"@, "Professional penetration testing for web applications, APIs, mobile apps, and infrastructure. Our pentesters simulate real-world attacks to find vulnerabilities before malicious actors do."@, false, 1i32),
        r@[0].tiers@.len() == 2,
        tier_view(r@[0].tiers@[0]) == ("Recon"@, "recon"@, 349900i64, "one_time"@, 3i32, 0i32, "Up to 3 applications/APIs,Full methodology pentest,Detailed technical report,60-day remediation support,Retest included"@, 1i32),
        tier_view(r@[0].tiers@[1]) == ("Strike"@, "strike"@, 749900i64, "one_time"@, 10i32, 0i32, "Full infrastructure scope,Advanced persistent threat simulation,Board-ready report,90-day remediation support,Two retests included,Dedicated team lead"@, 2i32),
        service_view(r@[1]) == ("Vulnerability Scanning"@, "scanning"@, "scanning"@, "Automated vulnerability scanning for your digital assets. Continuous monitoring detects new vulnerabilities as they emerge, with prioritized reporting and remediation guidance."@, true, 2i32),
        r@[1].tiers@.len() == 3,
        tier_view(r@[1].tiers@[0]) == ("Basic Scan"@, "basic-scan"@, 2900i64, "monthly"@, 5i32, 1i32, "Up to 5 targets,Monthly scans,Basic vulnerability detection,Email alerts"@, 1i32),
        tier_view(r@[1].tiers@[1]) == ("Pro Scan"@, "pro-scan"@, 9900i64, "monthly"@, 25i32, 4i32, "Up to 25 targets,Weekly scans,Advanced detection engine,Slack/webhook integration,Priority support"@, 2i32),
        tier_view(r@[1].tiers@[2]) == ("Enterprise Scan"@, "enterprise-scan"@, 29900i64, "monthly"@, 0i32, 0i32, "Unlimited targets,Daily scans,Custom scan profiles,API access,Dedicated support,SLA guarantee"@, 3i32),
        service_view(r@[2]) == ("Red Team Operations"@, "red-team"@, "offensive"@, "Full-scope adversary simulation testing your people, processes, and technology. Our red team uses real-world TTPs to evaluate your detection and response capabilities."@, false, 3i32),
        r@[2].tiers@.len() == 0,
        service_view(r@[3]) == ("Attack Surface Mapping"@, "attack-surface-mapping"@, "scanning"@, "Continuous discovery and monitoring of your external attack surface. Enumerate subdomains, exposed services, open ports, certificates, and shadow IT. Know what attackers see before they act."@, true, 4i32),
        r@[3].tiers@.len() == 3,
        tier_view(r@[3].tiers@[0]) == ("Free Scan"@, "free-scan"@, 0i64, "one_time"@, 1i32, 1i32, "Single domain scan,Subdomain enumeration,Open port discovery,Certificate transparency check,Basic summary report"@, 1i32),
        tier_view(r@[3].tiers@[1]) == ("Continuous"@, "continuous"@, 4990i64, "monthly"@, 10i32, 0i32, "Up to 10 domains,Continuous monitoring,Change alerts,Shadow IT detection,Weekly digest,API access"@, 2i32),
        tier_view(r@[3].tiers@[2]) == ("Enterprise ASM"@, "enterprise-asm"@, 0i64, "monthly"@, 0i32, 0i32, "Unlimited domains,Real-time alerting,Dark web monitoring,Custom integrations,Dedicated support"@, 3i32),
{
    let mut r: Vec<ServiceSeed> = Vec::new();
    let mut tiers: Vec<TierSeed> = Vec::new();
    tiers.push(TierSeed { name: "Recon", slug: "recon", price_cents: 349900, billing_period: "one_time", max_targets: 3, max_scans_per_month: 0, features: "Up to 3 applications/APIs,Full methodology pentest,Detailed technical report,60-day remediation support,Retest included", sort_order: 1 });
    tiers.push(TierSeed { name: "Strike", slug: "strike", price_cents: 749900, billing_period: "one_time", max_targets: 10, max_scans_per_month: 0, features: "Full infrastructure scope,Advanced persistent threat simulation,Board-ready report,90-day remediation support,Two retests included,Dedicated team lead", sort_order: 2 });
    r.push(ServiceSeed { name: "Penetration Testing", slug: "pentesting", category: "pentest", description: "Professional penetration testing for web applications, APIs, mobile apps, and infrastructure. Our pentesters simulate real-world attacks to find vulnerabilities before malicious actors do.", is_automated: false, sort_order: 1, tiers });
    let mut tiers: Vec<TierSeed> = Vec::new();
    tiers.push(TierSeed { name: "Basic Scan", slug: "basic-scan", price_cents: 2900, billing_period: "monthly", max_targets: 5, max_scans_per_month: 1, features: "Up to 5 targets,Monthly scans,Basic vulnerability detection,Email alerts", sort_order: 1 });
    tiers.push(TierSeed { name: "Pro Scan", slug: "pro-scan", price_cents: 9900, billing_period: "monthly", max_targets: 25, max_scans_per_month: 4, features: "Up to 25 targets,Weekly scans,Advanced detection engine,Slack/webhook integration,Priority support", sort_order: 2 });
    tiers.push(TierSeed { name: "Enterprise Scan", slug: "enterprise-scan", price_cents: 29900, billing_period: "monthly", max_targets: 0, max_scans_per_month: 0, features: "Unlimited targets,Daily scans,Custom scan profiles,API access,Dedicated support,SLA guarantee", sort_order: 3 });
    r.push(ServiceSeed { name: "Vulnerability Scanning", slug: "scanning", category: "scanning", description: "Automated vulnerability scanning for your digital assets. Continuous monitoring detects new vulnerabilities as they emerge, with prioritized reporting and remediation guidance.", is_automated: true, sort_order: 2, tiers });
    let mut tiers: Vec<TierSeed> = Vec::new();
    r.push(ServiceSeed { name: "Red Team Operations", slug: "red-team", category: "offensive", description: "Full-scope adversary simulation testing your people, processes, and technology. Our red team uses real-world TTPs to evaluate your detection and response capabilities.", is_automated: false, sort_order: 3, tiers });
    let mut tiers: Vec<TierSeed> = Vec::new();
    tiers.push(TierSeed { name: "Free Scan", slug: "free-scan", price_cents: 0, billing_period: "one_time", max_targets: 1, max_scans_per_month: 1, features: "Single domain scan,Subdomain enumeration,Open port discovery,Certificate transparency check,Basic summary report", sort_order: 1 });
    tiers.push(TierSeed { name: "Continuous", slug: "continuous", price_cents: 4990, billing_period: "monthly", max_targets: 10, max_scans_per_month: 0, features: "Up to 10 domains,Continuous monitoring,Change alerts,Shadow IT detection,Weekly digest,API access", sort_order: 2 });
    tiers.push(TierSeed { name: "Enterprise ASM", slug: "enterprise-asm", price_cents: 0, billing_period: "monthly", max_targets: 0, max_scans_per_month: 0, features: "Unlimited domains,Real-time alerting,Dark web monitoring,Custom integrations,Dedicated support", sort_order: 3 });
    r.push(ServiceSeed { name: "Attack Surface Mapping", slug: "attack-surface-mapping", category: "scanning", description: "Continuous discovery and monitoring of your external attack surface. Enumerate subdomains, exposed services, open ports, certificates, and shadow IT. Know what attackers see before they act.", is_automated: true, sort_order: 4, tiers });
    r
}

} // verus!

//! The tables this application adds to the platform's database, as far as
//! their relations go: which table refers to which, and what happens to the
//! referring rows when a referred row is deleted.
use vstd::prelude::*;

verus! {

/// What a foreign key does when the row it refers to is deleted.
#[derive(Clone, Copy, Debug, PartialEq, Eq, Structural)]
pub enum OnDelete {
    /// The referring rows are deleted too.
    Cascade,
    /// The reference is cleared.
    SetNull,
    /// The deletion is refused while rows refer to it.
    Restrict,
}

/// A foreign key: its name, the referring table and column, and the table
/// whose `id` it refers to.
#[derive(Clone, Copy, Debug)]
pub struct ForeignKey {
    pub name: &'static str,
    pub table: &'static str,
    pub column: &'static str,
    pub references: &'static str,
    pub on_delete: OnDelete,
}

/// A foreign key as plain values.
pub open spec fn foreign_key_view(f: ForeignKey) -> (Seq<char>, Seq<char>, Seq<char>, Seq<char>, OnDelete) {
    (f.name@, f.table@, f.column@, f.references@, f.on_delete)
}

/// The foreign keys the application's migrations create, in order.
pub open spec fn schema_foreign_keys() -> Seq<(Seq<char>, Seq<char>, Seq<char>, Seq<char>, OnDelete)> {
    seq![

        ("fk-pricing_tiers-service_id"@, "pricing_tiers"@, "service_id"@, "services"@, OnDelete::Restrict),
        ("fk-subscriptions-org_id"@, "subscriptions"@, "org_id"@, "organizations"@, OnDelete::Cascade),
        ("fk-subscriptions-tier_id"@, "subscriptions"@, "tier_id"@, "pricing_tiers"@, OnDelete::Cascade),
        ("fk-scan_targets-org_id"@, "scan_targets"@, "org_id"@, "organizations"@, OnDelete::Cascade),
        ("fk-engagements-org_id"@, "engagements"@, "org_id"@, "organizations"@, OnDelete::Cascade),
        ("fk-engagements-service_id"@, "engagements"@, "service_id"@, "services"@, OnDelete::Restrict),
        ("fk-engagement_offers-engagement_id"@, "engagement_offers"@, "engagement_id"@, "engagements"@, OnDelete::Cascade),
        ("fk-engagement_offers-created_by_user_id"@, "engagement_offers"@, "created_by_user_id"@, "users"@, OnDelete::SetNull),
        ("fk-scan_jobs-org_id"@, "scan_jobs"@, "org_id"@, "organizations"@, OnDelete::Cascade),
        ("fk-scan_jobs-target_id"@, "scan_jobs"@, "target_id"@, "scan_targets"@, OnDelete::Cascade),
        ("fk-scan_jobs-service_id"@, "scan_jobs"@, "service_id"@, "services"@, OnDelete::Restrict),
        ("fk-findings-org_id"@, "findings"@, "org_id"@, "organizations"@, OnDelete::Cascade),
        ("fk-findings-engagement_id"@, "findings"@, "engagement_id"@, "engagements"@, OnDelete::SetNull),
        ("fk-findings-job_id"@, "findings"@, "job_id"@, "scan_jobs"@, OnDelete::SetNull),
        ("fk-findings-created_by_user_id"@, "findings"@, "created_by_user_id"@, "users"@, OnDelete::SetNull),
        ("fk-reports-org_id"@, "reports"@, "org_id"@, "organizations"@, OnDelete::Cascade),
        ("fk-reports-engagement_id"@, "reports"@, "engagement_id"@, "engagements"@, OnDelete::SetNull),
        ("fk-reports-job_id"@, "reports"@, "job_id"@, "scan_jobs"@, OnDelete::SetNull),
        ("fk-invoices-org_id"@, "invoices"@, "org_id"@, "organizations"@, OnDelete::Cascade),
        ("fk-invoices-subscription_id"@, "invoices"@, "subscription_id"@, "subscriptions"@, OnDelete::SetNull),
        ("fk-invoices-engagement_id"@, "invoices"@, "engagement_id"@, "engagements"@, OnDelete::SetNull),
    ]
}

/// The foreign keys the application's migrations create.
pub fn foreign_keys() -> (r: Vec<ForeignKey>)
    ensures
        r@.map_values(|f: ForeignKey| foreign_key_view(f)) == schema_foreign_keys(),
{
    let mut r: Vec<ForeignKey> = Vec::new();
    r.push(ForeignKey { name: "fk-pricing_tiers-service_id", table: "pricing_tiers", column: "service_id", references: "services", on_delete: OnDelete::Restrict });
    r.push(ForeignKey { name: "fk-subscriptions-org_id", table: "subscriptions", column: "org_id", references: "organizations", on_delete: OnDelete::Cascade });
    r.push(ForeignKey { name: "fk-subscriptions-tier_id", table: "subscriptions", column: "tier_id", references: "pricing_tiers", on_delete: OnDelete::Cascade });
    r.push(ForeignKey { name: "fk-scan_targets-org_id", table: "scan_targets", column: "org_id", references: "organizations", on_delete: OnDelete::Cascade });
    r.push(ForeignKey { name: "fk-engagements-org_id", table: "engagements", column: "org_id", references: "organizations", on_delete: OnDelete::Cascade });
    r.push(ForeignKey { name: "fk-engagements-service_id", table: "engagements", column: "service_id", references: "services", on_delete: OnDelete::Restrict });
    r.push(ForeignKey { name: "fk-engagement_offers-engagement_id", table: "engagement_offers", column: "engagement_id", references: "engagements", on_delete: OnDelete::Cascade });
    r.push(ForeignKey { name: "fk-engagement_offers-created_by_user_id", table: "engagement_offers", column: "created_by_user_id", references: "users", on_delete: OnDelete::SetNull });
    r.push(ForeignKey { name: "fk-scan_jobs-org_id", table: "scan_jobs", column: "org_id", references: "organizations", on_delete: OnDelete::Cascade });
    r.push(ForeignKey { name: "fk-scan_jobs-target_id", table: "scan_jobs", column: "target_id", references: "scan_targets", on_delete: OnDelete::Cascade });
    r.push(ForeignKey { name: "fk-scan_jobs-service_id", table: "scan_jobs", column: "service_id", references: "services", on_delete: OnDelete::Restrict });
    r.push(ForeignKey { name: "fk-findings-org_id", table: "findings", column: "org_id", references: "organizations", on_delete: OnDelete::Cascade });
    r.push(ForeignKey { name: "fk-findings-engagement_id", table: "findings", column: "engagement_id", references: "engagements", on_delete: OnDelete::SetNull });
    r.push(ForeignKey { name: "fk-findings-job_id", table: "findings", column: "job_id", references: "scan_jobs", on_delete: OnDelete::SetNull });
    r.push(ForeignKey { name: "fk-findings-created_by_user_id", table: "findings", column: "created_by_user_id", references: "users", on_delete: OnDelete::SetNull });
    r.push(ForeignKey { name: "fk-reports-org_id", table: "reports", column: "org_id", references: "organizations", on_delete: OnDelete::Cascade });
    r.push(ForeignKey { name: "fk-reports-engagement_id", table: "reports", column: "engagement_id", references: "engagements", on_delete: OnDelete::SetNull });
    r.push(ForeignKey { name: "fk-reports-job_id", table: "reports", column: "job_id", references: "scan_jobs", on_delete: OnDelete::SetNull });
    r.push(ForeignKey { name: "fk-invoices-org_id", table: "invoices", column: "org_id", references: "organizations", on_delete: OnDelete::Cascade });
    r.push(ForeignKey { name: "fk-invoices-subscription_id", table: "invoices", column: "subscription_id", references: "subscriptions", on_delete: OnDelete::SetNull });
    r.push(ForeignKey { name: "fk-invoices-engagement_id", table: "invoices", column: "engagement_id", references: "engagements", on_delete: OnDelete::SetNull });
    assert(r@.map_values(|f: ForeignKey| foreign_key_view(f)) =~= schema_foreign_keys());
    r
}

/// The application's migrations, in the order they run after the
/// framework's own.
pub fn migration_names() -> (r: Vec<&'static str>)
    ensures
        r@.len() == 11,
        r@[0]@ == "m20260310_000001_create_services"@,
        r@[1]@ == "m20260310_000002_create_pricing_tiers"@,
        r@[2]@ == "m20260310_000003_create_subscriptions"@,
        r@[3]@ == "m20260310_000004_create_scan_targets"@,
        r@[4]@ == "m20260310_000005_create_engagements"@,
        r@[5]@ == "m20260310_000006_create_engagement_offers"@,
        r@[6]@ == "m20260310_000007_create_pentester_assignments"@,
        r@[7]@ == "m20260310_000008_create_scan_jobs"@,
        r@[8]@ == "m20260310_000009_create_findings"@,
        r@[9]@ == "m20260310_000010_create_reports"@,
        r@[10]@ == "m20260310_000011_create_invoices"@,
{
    let mut r: Vec<&'static str> = Vec::new();
    r.push("m20260310_000001_create_services");
    r.push("m20260310_000002_create_pricing_tiers");
    r.push("m20260310_000003_create_subscriptions");
    r.push("m20260310_000004_create_scan_targets");
    r.push("m20260310_000005_create_engagements");
    r.push("m20260310_000006_create_engagement_offers");
    r.push("m20260310_000007_create_pentester_assignments");
    r.push("m20260310_000008_create_scan_jobs");
    r.push("m20260310_000009_create_findings");
    r.push("m20260310_000010_create_reports");
    r.push("m20260310_000011_create_invoices");
    r
}

/// The tables emptied by a reset, in order.
pub open spec fn truncation_sequence() -> Seq<Seq<char>> {
    seq![
        "non_findings"@, "findings"@, "reports"@, "pentester_assignments"@, "engagement_offers"@, "engagement_targets"@, "scan_jobs"@, "invoices"@, "engagements"@, "subscriptions"@, "scan_targets"@, "pricing_tiers"@, "services"@, "blog_posts"@, "job_run_diffs"@, "job_runs"@, "job_definitions"@, "org_invites"@, "org_members"@, "organizations"@, "users"@,
    ]
}

/// Each table that refers to another is emptied before it: a reset never
/// deletes rows that others still refer to.
pub proof fn lemma_truncation_respects_foreign_keys()
    ensures
        forall|k: int|
            0 <= k < schema_foreign_keys().len() ==> exists|i: int, j: int|
                0 <= i < j < truncation_sequence().len() && truncation_sequence()[i]
                    == (#[trigger] schema_foreign_keys()[k]).1 && truncation_sequence()[j]
                    == schema_foreign_keys()[k].3,
{
    let f = schema_foreign_keys();
    let t = truncation_sequence();
    assert(t[11] == f[0].1 && t[12] == f[0].3);
    assert(t[9] == f[1].1 && t[19] == f[1].3);
    assert(t[9] == f[2].1 && t[11] == f[2].3);
    assert(t[10] == f[3].1 && t[19] == f[3].3);
    assert(t[8] == f[4].1 && t[19] == f[4].3);
    assert(t[8] == f[5].1 && t[12] == f[5].3);
    assert(t[4] == f[6].1 && t[8] == f[6].3);
    assert(t[4] == f[7].1 && t[20] == f[7].3);
    assert(t[6] == f[8].1 && t[19] == f[8].3);
    assert(t[6] == f[9].1 && t[10] == f[9].3);
    assert(t[6] == f[10].1 && t[12] == f[10].3);
    assert(t[1] == f[11].1 && t[19] == f[11].3);
    assert(t[1] == f[12].1 && t[8] == f[12].3);
    assert(t[1] == f[13].1 && t[6] == f[13].3);
    assert(t[1] == f[14].1 && t[20] == f[14].3);
    assert(t[2] == f[15].1 && t[19] == f[15].3);
    assert(t[2] == f[16].1 && t[8] == f[16].3);
    assert(t[2] == f[17].1 && t[6] == f[17].3);
    assert(t[7] == f[18].1 && t[19] == f[18].3);
    assert(t[7] == f[19].1 && t[9] == f[19].3);
    assert(t[7] == f[20].1 && t[8] == f[20].3);
}

/// The platform's own organisation, created by a migration when no
/// organisation has its slug: its public id, name and slug.
pub fn platform_admin_org() -> (r: (&'static str, &'static str, &'static str))
    ensures
        r.0@ == "00000000-0000-0000-0000-000000000001"@,
        r.1@ == "GetHacked Platform"@,
        r.2@ == "gethacked-admin"@,
{
    ("00000000-0000-0000-0000-000000000001", "GetHacked Platform", "gethacked-admin")
}

} // verus!

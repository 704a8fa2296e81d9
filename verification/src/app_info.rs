//! The application as a whole: its version label, the initializers and job
//! executors it registers, the admin entities it lists, the order in which
//! its tables are emptied, and the service catalogue it seeds.
use vstd::prelude::*;

use crate::catalog::seed_catalog;
use crate::schema::truncation_sequence;
use crate::text::{chars_of, push_str, starts_with, starts_with_str, string_of};

verus! {

/// The application.
pub struct App;

/// The version label: the package version, then in brackets the build's
/// commit (`BUILD_SHA`, else `GITHUB_SHA`, else `dev`).
pub open spec fn version_label(version: Seq<char>, build_sha: Option<Seq<char>>, github_sha: Option<Seq<char>>) -> Seq<char> {
    version + " ("@ + match build_sha {
        Some(b) => b,
        None => match github_sha {
            Some(g) => g,
            None => "dev"@,
        },
    } + ")"@
}

impl App {
    /// Builds the version label from the package version and the commit
    /// variables known at build time.
    pub fn app_version(version: &str, build_sha: Option<&str>, github_sha: Option<&str>) -> (r: String)
        ensures
            r@ == version_label(
                version@,
                match build_sha {
                    Some(b) => Some(b@),
                    None => None,
                },
                match github_sha {
                    Some(g) => Some(g@),
                    None => None,
                },
            ),
    {
        let sha: &str = match build_sha {
            Some(b) => b,
            None => match github_sha {
                Some(g) => g,
                None => "dev",
            },
        };
        let mut v: Vec<char> = Vec::new();
        push_str(&mut v, version);
        push_str(&mut v, " (");
        push_str(&mut v, sha);
        push_str(&mut v, ")");
        string_of(&v)
    }

    /// The names of the initializers run at start-up, in order.
    pub fn initializer_names() -> (r: Vec<&'static str>)
        ensures
            r@.len() == 3,
            r@[0]@ == "view-engine"@,
            r@[1]@ == "oidc"@,
            r@[2]@ == "security-headers"@,
    {
        let mut r: Vec<&'static str> = Vec::new();
        r.push("view-engine");
        r.push("oidc");
        r.push("security-headers");
        r
    }

    /// The job types whose executors are registered (amass and IP
    /// enumeration exist but are not registered).
    pub fn registered_job_types() -> (r: Vec<&'static str>)
        ensures
            r@.len() == 3,
            r@[0]@ == "asm_scan"@,
            r@[1]@ == "port_scan"@,
            r@[2]@ == "report_build"@,
    {
        let mut r: Vec<&'static str> = Vec::new();
        r.push("asm_scan");
        r.push("port_scan");
        r.push("report_build");
        r
    }

    /// The tables emptied by a reset, children before the tables they
    /// refer to.
    pub fn truncate_order() -> (r: Vec<&'static str>)
        ensures
            r@.map_values(|s: &'static str| s@) == truncation_sequence(),
    {
        let mut r: Vec<&'static str> = Vec::new();
        r.push("non_findings");
        r.push("findings");
        r.push("reports");
        r.push("pentester_assignments");
        r.push("engagement_offers");
        r.push("engagement_targets");
        r.push("scan_jobs");
        r.push("invoices");
        r.push("engagements");
        r.push("subscriptions");
        r.push("scan_targets");
        r.push("pricing_tiers");
        r.push("services");
        r.push("blog_posts");
        r.push("job_run_diffs");
        r.push("job_runs");
        r.push("job_definitions");
        r.push("org_invites");
        r.push("org_members");
        r.push("organizations");
        r.push("users");
        assert(r@.map_values(|s: &'static str| s@) =~= truncation_sequence());
        r
    }

    /// Development data is seeded only into an empty service table.
    pub fn should_seed(service_count: u64) -> (r: bool)
        ensures
            r == (service_count == 0),
    {
        service_count == 0
    }

    /// Seeds the service catalogue into a table holding `service_count`
    /// services, when it is empty, and gives the number of services it then
    /// holds.
    pub fn services_after_seeding(service_count: u64) -> (r: u64)
        ensures
            r == services_after_seed(service_count),
    {
        if Self::should_seed(service_count) {
            let catalog = seed_catalog();
            catalog.len() as u64
        } else {
            service_count
        }
    }
}

/// The number of services after seeding a table that holds `count`: the
/// four of the catalogue when it was empty, else unchanged.
pub open spec fn services_after_seed(count: u64) -> u64 {
    if count == 0 {
        4
    } else {
        count
    }
}

/// Seeding is done once: after a seed the table is not empty, so a second
/// seed adds nothing.
pub proof fn lemma_seed_once(count: u64)
    ensures
        services_after_seed(count) != 0,
        services_after_seed(services_after_seed(count)) == services_after_seed(count),
{
}

// ---------------------------------------------------------------------------
// Admin entities
// ---------------------------------------------------------------------------

/// An entity listed on the admin dashboard.
#[derive(Clone, Copy, Debug)]
pub struct AdminEntity {
    pub name: &'static str,
    pub url_prefix: &'static str,
    pub description: &'static str,
}

/// The views of an entity.
pub open spec fn entity_view(e: AdminEntity) -> (Seq<char>, Seq<char>, Seq<char>) {
    (e.name@, e.url_prefix@, e.description@)
}

/// The entities this application adds to the admin dashboard, in order
/// (after the framework's own).
pub fn admin_entities() -> (r: Vec<AdminEntity>)
    ensures
        r@.len() == 9,
        entity_view(r@[0]) == ("Users"@, "/admin/users"@, "Registered platform users"@),
        entity_view(r@[1]) == ("Engagements"@, "/admin/engagements"@, "Manage engagement requests"@),
        entity_view(r@[2]) == ("Scan Targets"@, "/admin/scan-targets"@, "Monitored targets across organizations"@),
        entity_view(r@[3]) == ("Scan Jobs"@, "/admin/scan-jobs"@, "Scan execution history"@),
        entity_view(r@[4]) == ("Findings"@, "/admin/findings"@, "Security findings across engagements"@),
        entity_view(r@[5]) == ("Non-Findings"@, "/admin/non-findings"@, "Secure areas documented during engagements"@),
        entity_view(r@[6]) == ("Reports"@, "/admin/reports"@, "Generated reports"@),
        entity_view(r@[7]) == ("Invoices"@, "/admin/invoices"@, "Billing invoices"@),
        entity_view(r@[8]) == ("Subscriptions"@, "/admin/subscriptions"@, "Active subscriptions"@),
{
    let mut r: Vec<AdminEntity> = Vec::new();
    r.push(AdminEntity { name: "Users", url_prefix: "/admin/users", description: "Registered platform users" });
    r.push(AdminEntity { name: "Engagements", url_prefix: "/admin/engagements", description: "Manage engagement requests" });
    r.push(AdminEntity { name: "Scan Targets", url_prefix: "/admin/scan-targets", description: "Monitored targets across organizations" });
    r.push(AdminEntity { name: "Scan Jobs", url_prefix: "/admin/scan-jobs", description: "Scan execution history" });
    r.push(AdminEntity { name: "Findings", url_prefix: "/admin/findings", description: "Security findings across engagements" });
    r.push(AdminEntity { name: "Non-Findings", url_prefix: "/admin/non-findings", description: "Secure areas documented during engagements" });
    r.push(AdminEntity { name: "Reports", url_prefix: "/admin/reports", description: "Generated reports" });
    r.push(AdminEntity { name: "Invoices", url_prefix: "/admin/invoices", description: "Billing invoices" });
    r.push(AdminEntity { name: "Subscriptions", url_prefix: "/admin/subscriptions", description: "Active subscriptions" });
    r
}

// ---------------------------------------------------------------------------
// Initializers
// ---------------------------------------------------------------------------

/// Sets the security headers on every response.
pub struct SecurityHeadersInitializer;

/// Tunes SQLite at start-up.
pub struct SqlitePragmasInitializer;

/// Sets up the template engine.
pub struct TemplateInitializer;

impl SecurityHeadersInitializer {
    /// The initializer's name.
    pub fn name(&self) -> (r: &'static str)
        ensures
            r@ == "security-headers"@,
    {
        "security-headers"
    }

    /// The headers set on every response, by name and value.
    pub fn headers(&self) -> (r: Vec<(&'static str, &'static str)>)
        ensures
            r@.len() == 6,
            r@[0].0@ == "content-security-policy"@ && r@[0].1@
                == "default-src 'none'; script-src 'self'; style-src 'self'; img-src 'self' data:; font-src 'self'; connect-src 'self'; form-action 'self'; base-uri 'self'; frame-ancestors 'none'"@,
            r@[1].0@ == "x-content-type-options"@ && r@[1].1@ == "nosniff"@,
            r@[2].0@ == "x-frame-options"@ && r@[2].1@ == "DENY"@,
            r@[3].0@ == "referrer-policy"@ && r@[3].1@ == "strict-origin-when-cross-origin"@,
            r@[4].0@ == "x-permitted-cross-domain-policies"@ && r@[4].1@ == "none"@,
            r@[5].0@ == "strict-transport-security"@ && r@[5].1@ == "max-age=63072000; includeSubDomains"@,
    {
        let mut r: Vec<(&'static str, &'static str)> = Vec::new();
        r.push(("content-security-policy", "default-src 'none'; script-src 'self'; style-src 'self'; img-src 'self' data:; font-src 'self'; connect-src 'self'; form-action 'self'; base-uri 'self'; frame-ancestors 'none'"));
        r.push(("x-content-type-options", "nosniff"));
        r.push(("x-frame-options", "DENY"));
        r.push(("referrer-policy", "strict-origin-when-cross-origin"));
        r.push(("x-permitted-cross-domain-policies", "none"));
        r.push(("strict-transport-security", "max-age=63072000; includeSubDomains"));
        r
    }

    /// The header removed from every response, so the framework is not
    /// disclosed.
    pub fn removed_header(&self) -> (r: &'static str)
        ensures
            r@ == "x-powered-by"@,
    {
        "x-powered-by"
    }
}

impl SqlitePragmasInitializer {
    /// The initializer's name.
    pub fn name(&self) -> (r: &'static str)
        ensures
            r@ == "sqlite-pragmas"@,
    {
        "sqlite-pragmas"
    }

    /// The pragmas run for a database: write-ahead logging, a five-second
    /// busy timeout and normal syncing, for SQLite databases only.
    pub fn pragmas_for(&self, database_uri: &str) -> (r: Vec<&'static str>)
        ensures
            starts_with(database_uri@, "sqlite"@) ==> r@.len() == 3 && r@[0]@ == "PRAGMA journal_mode=WAL"@
                && r@[1]@ == "PRAGMA busy_timeout=5000"@ && r@[2]@ == "PRAGMA synchronous=NORMAL"@,
            !starts_with(database_uri@, "sqlite"@) ==> r@.len() == 0,
    {
        let mut r: Vec<&'static str> = Vec::new();
        let uri = chars_of(database_uri);
        if starts_with_str(&uri, "sqlite") {
            r.push("PRAGMA journal_mode=WAL");
            r.push("PRAGMA busy_timeout=5000");
            r.push("PRAGMA synchronous=NORMAL");
        }
        r
    }
}

impl TemplateInitializer {
    /// The initializer's name.
    pub fn name(&self) -> (r: &'static str)
        ensures
            r@ == "view-engine"@,
    {
        "view-engine"
    }
}

/// Where the translations live.
pub const I18N_DIR: &'static str = "assets/i18n";

/// The translations shared by all languages.
pub const I18N_SHARED: &'static str = "assets/i18n-shared.ftl";

/// Where the static assets live.
pub const STATIC_DIR: &'static str = "assets/static";

/// The URL the static assets are served under.
pub const STATIC_URL: &'static str = "/static";

} // verus!

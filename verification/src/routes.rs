//! The route tables of the application: each lists the paths it serves,
//! under its prefix, with their methods. A router refuses to start with a
//! method and path registered twice, so each table lists each pair once.
use vstd::prelude::*;

verus! {

/// An HTTP method a route answers.
#[derive(Clone, Copy, Debug, PartialEq, Eq, Structural)]
pub enum Method {
    Get,
    Post,
    Delete,
}

/// A route table: its prefix and its (method, path) pairs.
pub struct RouteTable {
    pub prefix: &'static str,
    pub routes: Vec<(Method, &'static str)>,
}

/// The routes of a table as plain values.
pub open spec fn routes_view(t: RouteTable) -> Seq<(Method, Seq<char>)> {
    t.routes@.map_values(|r: (Method, &'static str)| (r.0, r.1@))
}

/// The routes of the engagement pages.
pub open spec fn engagement_routes_spec() -> Seq<(Method, Seq<char>)> {
    seq![(Method::Get, "/"@), (Method::Post, "/"@), (Method::Get, "/new"@), (Method::Get, "/{pid}"@), (Method::Post, "/{pid}/respond"@), (Method::Post, "/{pid}/targets"@), (Method::Post, "/{pid}/targets/{target_pid}/remove"@), (Method::Get, "/{pid}/findings/new"@), (Method::Post, "/{pid}/findings"@), (Method::Get, "/{pid}/findings/{finding_pid}/edit"@), (Method::Post, "/{pid}/findings/{finding_pid}"@), (Method::Post, "/{pid}/findings/{finding_pid}/delete"@), (Method::Get, "/{pid}/non-findings/new"@), (Method::Post, "/{pid}/non-findings"@), (Method::Get, "/{pid}/non-findings/{nf_pid}/edit"@), (Method::Post, "/{pid}/non-findings/{nf_pid}"@), (Method::Post, "/{pid}/non-findings/{nf_pid}/delete"@), (Method::Post, "/{pid}/comments"@), (Method::Post, "/{pid}/comments/{comment_pid}/delete"@), (Method::Get, "/{pid}/report"@), (Method::Post, "/{pid}/report"@)]
}

/// The route table of the engagement pages.
pub fn engagement_routes() -> (r: RouteTable)
    ensures
        r.prefix@ == "/engagements"@,
        routes_view(r) == engagement_routes_spec(),
{
    let mut routes: Vec<(Method, &'static str)> = Vec::new();
    routes.push((Method::Get, "/"));
    routes.push((Method::Post, "/"));
    routes.push((Method::Get, "/new"));
    routes.push((Method::Get, "/{pid}"));
    routes.push((Method::Post, "/{pid}/respond"));
    routes.push((Method::Post, "/{pid}/targets"));
    routes.push((Method::Post, "/{pid}/targets/{target_pid}/remove"));
    routes.push((Method::Get, "/{pid}/findings/new"));
    routes.push((Method::Post, "/{pid}/findings"));
    routes.push((Method::Get, "/{pid}/findings/{finding_pid}/edit"));
    routes.push((Method::Post, "/{pid}/findings/{finding_pid}"));
    routes.push((Method::Post, "/{pid}/findings/{finding_pid}/delete"));
    routes.push((Method::Get, "/{pid}/non-findings/new"));
    routes.push((Method::Post, "/{pid}/non-findings"));
    routes.push((Method::Get, "/{pid}/non-findings/{nf_pid}/edit"));
    routes.push((Method::Post, "/{pid}/non-findings/{nf_pid}"));
    routes.push((Method::Post, "/{pid}/non-findings/{nf_pid}/delete"));
    routes.push((Method::Post, "/{pid}/comments"));
    routes.push((Method::Post, "/{pid}/comments/{comment_pid}/delete"));
    routes.push((Method::Get, "/{pid}/report"));
    routes.push((Method::Post, "/{pid}/report"));
    let r = RouteTable { prefix: "/engagements", routes };
    assert(routes_view(r) =~= engagement_routes_spec());
    r
}

/// The routes of the scan-target pages.
pub open spec fn target_routes_spec() -> Seq<(Method, Seq<char>)> {
    seq![(Method::Get, "/"@), (Method::Post, "/"@), (Method::Get, "/new"@), (Method::Get, "/{pid}"@), (Method::Delete, "/{pid}"@), (Method::Post, "/{pid}/port-scan"@), (Method::Post, "/{pid}/schedule"@)]
}

/// The route table of the scan-target pages.
pub fn target_routes() -> (r: RouteTable)
    ensures
        r.prefix@ == "/targets"@,
        routes_view(r) == target_routes_spec(),
{
    let mut routes: Vec<(Method, &'static str)> = Vec::new();
    routes.push((Method::Get, "/"));
    routes.push((Method::Post, "/"));
    routes.push((Method::Get, "/new"));
    routes.push((Method::Get, "/{pid}"));
    routes.push((Method::Delete, "/{pid}"));
    routes.push((Method::Post, "/{pid}/port-scan"));
    routes.push((Method::Post, "/{pid}/schedule"));
    let r = RouteTable { prefix: "/targets", routes };
    assert(routes_view(r) =~= target_routes_spec());
    r
}

/// The routes of the organisation's findings pages.
pub open spec fn finding_routes_spec() -> Seq<(Method, Seq<char>)> {
    seq![(Method::Get, "/"@), (Method::Post, "/bulk-delete"@), (Method::Get, "/{pid}"@), (Method::Post, "/{pid}/comments"@), (Method::Post, "/{pid}/delete"@)]
}

/// The route table of the organisation's findings pages.
pub fn finding_routes() -> (r: RouteTable)
    ensures
        r.prefix@ == "/findings"@,
        routes_view(r) == finding_routes_spec(),
{
    let mut routes: Vec<(Method, &'static str)> = Vec::new();
    routes.push((Method::Get, "/"));
    routes.push((Method::Post, "/bulk-delete"));
    routes.push((Method::Get, "/{pid}"));
    routes.push((Method::Post, "/{pid}/comments"));
    routes.push((Method::Post, "/{pid}/delete"));
    let r = RouteTable { prefix: "/findings", routes };
    assert(routes_view(r) =~= finding_routes_spec());
    r
}

/// The routes of the report pages.
pub open spec fn report_routes_spec() -> Seq<(Method, Seq<char>)> {
    seq![(Method::Get, "/"@), (Method::Get, "/{pid}"@), (Method::Get, "/{pid}/download"@)]
}

/// The route table of the report pages.
pub fn report_routes() -> (r: RouteTable)
    ensures
        r.prefix@ == "/reports"@,
        routes_view(r) == report_routes_spec(),
{
    let mut routes: Vec<(Method, &'static str)> = Vec::new();
    routes.push((Method::Get, "/"));
    routes.push((Method::Get, "/{pid}"));
    routes.push((Method::Get, "/{pid}/download"));
    let r = RouteTable { prefix: "/reports", routes };
    assert(routes_view(r) =~= report_routes_spec());
    r
}

/// The routes of the upload API.
pub open spec fn upload_routes_spec() -> Seq<(Method, Seq<char>)> {
    seq![(Method::Post, "/"@), (Method::Get, "/{pid}"@), (Method::Delete, "/{pid}"@)]
}

/// The route table of the upload API.
pub fn upload_routes() -> (r: RouteTable)
    ensures
        r.prefix@ == "/api/uploads"@,
        routes_view(r) == upload_routes_spec(),
{
    let mut routes: Vec<(Method, &'static str)> = Vec::new();
    routes.push((Method::Post, "/"));
    routes.push((Method::Get, "/{pid}"));
    routes.push((Method::Delete, "/{pid}"));
    let r = RouteTable { prefix: "/api/uploads", routes };
    assert(routes_view(r) =~= upload_routes_spec());
    r
}

/// The routes of the service catalogue.
pub open spec fn service_routes_spec() -> Seq<(Method, Seq<char>)> {
    seq![(Method::Get, "/"@), (Method::Get, "/{slug}"@)]
}

/// The route table of the service catalogue.
pub fn service_routes() -> (r: RouteTable)
    ensures
        r.prefix@ == "/services"@,
        routes_view(r) == service_routes_spec(),
{
    let mut routes: Vec<(Method, &'static str)> = Vec::new();
    routes.push((Method::Get, "/"));
    routes.push((Method::Get, "/{slug}"));
    let r = RouteTable { prefix: "/services", routes };
    assert(routes_view(r) =~= service_routes_spec());
    r
}

/// The routes of the invoice page.
pub open spec fn invoice_routes_spec() -> Seq<(Method, Seq<char>)> {
    seq![(Method::Get, "/"@)]
}

/// The route table of the invoice page.
pub fn invoice_routes() -> (r: RouteTable)
    ensures
        r.prefix@ == "/invoices"@,
        routes_view(r) == invoice_routes_spec(),
{
    let mut routes: Vec<(Method, &'static str)> = Vec::new();
    routes.push((Method::Get, "/"));
    let r = RouteTable { prefix: "/invoices", routes };
    assert(routes_view(r) =~= invoice_routes_spec());
    r
}

/// The routes of the home page.
pub open spec fn home_routes_spec() -> Seq<(Method, Seq<char>)> {
    seq![(Method::Get, ""@)]
}

/// The route table of the home page.
pub fn home_routes() -> (r: RouteTable)
    ensures
        r.prefix@ == "/"@,
        routes_view(r) == home_routes_spec(),
{
    let mut routes: Vec<(Method, &'static str)> = Vec::new();
    routes.push((Method::Get, ""));
    let r = RouteTable { prefix: "/", routes };
    assert(routes_view(r) =~= home_routes_spec());
    r
}

/// The routes of the contact form.
pub open spec fn contact_routes_spec() -> Seq<(Method, Seq<char>)> {
    seq![(Method::Post, "/api/contact"@)]
}

/// The route table of the contact form.
pub fn contact_routes() -> (r: RouteTable)
    ensures
        r.prefix@ == ""@,
        routes_view(r) == contact_routes_spec(),
{
    let mut routes: Vec<(Method, &'static str)> = Vec::new();
    routes.push((Method::Post, "/api/contact"));
    let r = RouteTable { prefix: "", routes };
    assert(routes_view(r) =~= contact_routes_spec());
    r
}

/// The routes of the free scan.
pub open spec fn free_scan_routes_spec() -> Seq<(Method, Seq<char>)> {
    seq![(Method::Post, "/free-scan"@), (Method::Get, "/free-scan/{run_pid}"@)]
}

/// The route table of the free scan.
pub fn free_scan_routes() -> (r: RouteTable)
    ensures
        r.prefix@ == ""@,
        routes_view(r) == free_scan_routes_spec(),
{
    let mut routes: Vec<(Method, &'static str)> = Vec::new();
    routes.push((Method::Post, "/free-scan"));
    routes.push((Method::Get, "/free-scan/{run_pid}"));
    let r = RouteTable { prefix: "", routes };
    assert(routes_view(r) =~= free_scan_routes_spec());
    r
}

/// The routes of the public pages.
pub open spec fn page_routes_spec() -> Seq<(Method, Seq<char>)> {
    seq![(Method::Get, "/pricing"@), (Method::Get, "/about"@), (Method::Get, "/contact"@), (Method::Get, "/legal/privacy"@), (Method::Get, "/legal/terms"@), (Method::Get, "/legal/imprint"@), (Method::Get, "/incident-response"@), (Method::Get, "/free-scan"@), (Method::Get, "/scope"@), (Method::Get, "/robots.txt"@), (Method::Get, "/sitemap.xml"@)]
}

/// The route table of the public pages.
pub fn page_routes() -> (r: RouteTable)
    ensures
        r.prefix@ == ""@,
        routes_view(r) == page_routes_spec(),
{
    let mut routes: Vec<(Method, &'static str)> = Vec::new();
    routes.push((Method::Get, "/pricing"));
    routes.push((Method::Get, "/about"));
    routes.push((Method::Get, "/contact"));
    routes.push((Method::Get, "/legal/privacy"));
    routes.push((Method::Get, "/legal/terms"));
    routes.push((Method::Get, "/legal/imprint"));
    routes.push((Method::Get, "/incident-response"));
    routes.push((Method::Get, "/free-scan"));
    routes.push((Method::Get, "/scope"));
    routes.push((Method::Get, "/robots.txt"));
    routes.push((Method::Get, "/sitemap.xml"));
    let r = RouteTable { prefix: "", routes };
    assert(routes_view(r) =~= page_routes_spec());
    r
}

/// The routes of the organisation pages, with the plan-aware settings in place of the framework's.
pub open spec fn org_routes_spec() -> Seq<(Method, Seq<char>)> {
    seq![(Method::Get, "/"@), (Method::Post, "/"@), (Method::Get, "/new"@), (Method::Get, "/{pid}/settings"@), (Method::Post, "/{pid}/settings"@), (Method::Get, "/{pid}/members"@), (Method::Post, "/{pid}/members/invite"@), (Method::Post, "/{pid}/members/{user_pid}/role"@), (Method::Post, "/{pid}/members/{user_pid}/remove"@), (Method::Post, "/{pid}/delete"@), (Method::Get, "/switch/{pid}"@)]
}

/// The route table of the organisation pages, with the plan-aware settings in place of the framework's.
pub fn org_routes() -> (r: RouteTable)
    ensures
        r.prefix@ == "/orgs"@,
        routes_view(r) == org_routes_spec(),
{
    let mut routes: Vec<(Method, &'static str)> = Vec::new();
    routes.push((Method::Get, "/"));
    routes.push((Method::Post, "/"));
    routes.push((Method::Get, "/new"));
    routes.push((Method::Get, "/{pid}/settings"));
    routes.push((Method::Post, "/{pid}/settings"));
    routes.push((Method::Get, "/{pid}/members"));
    routes.push((Method::Post, "/{pid}/members/invite"));
    routes.push((Method::Post, "/{pid}/members/{user_pid}/role"));
    routes.push((Method::Post, "/{pid}/members/{user_pid}/remove"));
    routes.push((Method::Post, "/{pid}/delete"));
    routes.push((Method::Get, "/switch/{pid}"));
    let r = RouteTable { prefix: "/orgs", routes };
    assert(routes_view(r) =~= org_routes_spec());
    r
}

/// The routes of the admin pages of this application (engagements, findings and reports).
pub open spec fn admin_routes_spec() -> Seq<(Method, Seq<char>)> {
    seq![(Method::Get, "/engagements"@), (Method::Get, "/engagements/all"@), (Method::Get, "/engagements/{pid}"@), (Method::Post, "/engagements/{pid}/offer"@), (Method::Post, "/engagements/{pid}/assign"@), (Method::Post, "/engagements/{pid}/status"@), (Method::Get, "/findings"@), (Method::Post, "/findings/bulk-delete"@), (Method::Get, "/findings/{pid}"@), (Method::Post, "/findings/{pid}/delete"@), (Method::Get, "/reports"@)]
}

/// The route table of the admin pages of this application (engagements, findings and reports).
pub fn admin_routes() -> (r: RouteTable)
    ensures
        r.prefix@ == "/admin"@,
        routes_view(r) == admin_routes_spec(),
{
    let mut routes: Vec<(Method, &'static str)> = Vec::new();
    routes.push((Method::Get, "/engagements"));
    routes.push((Method::Get, "/engagements/all"));
    routes.push((Method::Get, "/engagements/{pid}"));
    routes.push((Method::Post, "/engagements/{pid}/offer"));
    routes.push((Method::Post, "/engagements/{pid}/assign"));
    routes.push((Method::Post, "/engagements/{pid}/status"));
    routes.push((Method::Get, "/findings"));
    routes.push((Method::Post, "/findings/bulk-delete"));
    routes.push((Method::Get, "/findings/{pid}"));
    routes.push((Method::Post, "/findings/{pid}/delete"));
    routes.push((Method::Get, "/reports"));
    let r = RouteTable { prefix: "/admin", routes };
    assert(routes_view(r) =~= admin_routes_spec());
    r
}

/// Each method and path of the engagement pages is listed once.
pub proof fn lemma_engagement_routes_distinct()
    ensures
        engagement_routes_spec().no_duplicates(),
{
    reveal_strlit("/");
    reveal_strlit("/new");
    reveal_strlit("/{pid}");
    reveal_strlit("/{pid}/comments");
    reveal_strlit("/{pid}/comments/{comment_pid}/delete");
    reveal_strlit("/{pid}/findings");
    reveal_strlit("/{pid}/findings/new");
    reveal_strlit("/{pid}/findings/{finding_pid}");
    reveal_strlit("/{pid}/findings/{finding_pid}/delete");
    reveal_strlit("/{pid}/findings/{finding_pid}/edit");
    reveal_strlit("/{pid}/non-findings");
    reveal_strlit("/{pid}/non-findings/new");
    reveal_strlit("/{pid}/non-findings/{nf_pid}");
    reveal_strlit("/{pid}/non-findings/{nf_pid}/delete");
    reveal_strlit("/{pid}/non-findings/{nf_pid}/edit");
    reveal_strlit("/{pid}/report");
    reveal_strlit("/{pid}/respond");
    reveal_strlit("/{pid}/targets");
    reveal_strlit("/{pid}/targets/{target_pid}/remove");
    let r = engagement_routes_spec();
    assert forall|i: int, j: int| 0 <= i < j < r.len() implies r[i] != r[j] by {
        if i == 0 && j == 1 {
            assert(r[0].0 != r[1].0);
        } else if i == 0 && j == 2 {
            assert(r[0].1.len() != r[2].1.len());
        } else if i == 0 && j == 3 {
            assert(r[0].1.len() != r[3].1.len());
        } else if i == 0 && j == 4 {
            assert(r[0].0 != r[4].0);
        } else if i == 0 && j == 5 {
            assert(r[0].0 != r[5].0);
        } else if i == 0 && j == 6 {
            assert(r[0].0 != r[6].0);
        } else if i == 0 && j == 7 {
            assert(r[0].1.len() != r[7].1.len());
        } else if i == 0 && j == 8 {
            assert(r[0].0 != r[8].0);
        } else if i == 0 && j == 9 {
            assert(r[0].1.len() != r[9].1.len());
        } else if i == 0 && j == 10 {
            assert(r[0].0 != r[10].0);
        } else if i == 0 && j == 11 {
            assert(r[0].0 != r[11].0);
        } else if i == 0 && j == 12 {
            assert(r[0].1.len() != r[12].1.len());
        } else if i == 0 && j == 13 {
            assert(r[0].0 != r[13].0);
        } else if i == 0 && j == 14 {
            assert(r[0].1.len() != r[14].1.len());
        } else if i == 0 && j == 15 {
            assert(r[0].0 != r[15].0);
        } else if i == 0 && j == 16 {
            assert(r[0].0 != r[16].0);
        } else if i == 0 && j == 17 {
            assert(r[0].0 != r[17].0);
        } else if i == 0 && j == 18 {
            assert(r[0].0 != r[18].0);
        } else if i == 0 && j == 19 {
            assert(r[0].1.len() != r[19].1.len());
        } else if i == 0 && j == 20 {
            assert(r[0].0 != r[20].0);
        } else if i == 1 && j == 2 {
            assert(r[1].0 != r[2].0);
        } else if i == 1 && j == 3 {
            assert(r[1].0 != r[3].0);
        } else if i == 1 && j == 4 {
            assert(r[1].1.len() != r[4].1.len());
        } else if i == 1 && j == 5 {
            assert(r[1].1.len() != r[5].1.len());
        } else if i == 1 && j == 6 {
            assert(r[1].1.len() != r[6].1.len());
        } else if i == 1 && j == 7 {
            assert(r[1].0 != r[7].0);
        } else if i == 1 && j == 8 {
            assert(r[1].1.len() != r[8].1.len());
        } else if i == 1 && j == 9 {
            assert(r[1].0 != r[9].0);
        } else if i == 1 && j == 10 {
            assert(r[1].1.len() != r[10].1.len());
        } else if i == 1 && j == 11 {
            assert(r[1].1.len() != r[11].1.len());
        } else if i == 1 && j == 12 {
            assert(r[1].0 != r[12].0);
        } else if i == 1 && j == 13 {
            assert(r[1].1.len() != r[13].1.len());
        } else if i == 1 && j == 14 {
            assert(r[1].0 != r[14].0);
        } else if i == 1 && j == 15 {
            assert(r[1].1.len() != r[15].1.len());
        } else if i == 1 && j == 16 {
            assert(r[1].1.len() != r[16].1.len());
        } else if i == 1 && j == 17 {
            assert(r[1].1.len() != r[17].1.len());
        } else if i == 1 && j == 18 {
            assert(r[1].1.len() != r[18].1.len());
        } else if i == 1 && j == 19 {
            assert(r[1].0 != r[19].0);
        } else if i == 1 && j == 20 {
            assert(r[1].1.len() != r[20].1.len());
        } else if i == 2 && j == 3 {
            assert(r[2].1.len() != r[3].1.len());
        } else if i == 2 && j == 4 {
            assert(r[2].0 != r[4].0);
        } else if i == 2 && j == 5 {
            assert(r[2].0 != r[5].0);
        } else if i == 2 && j == 6 {
            assert(r[2].0 != r[6].0);
        } else if i == 2 && j == 7 {
            assert(r[2].1.len() != r[7].1.len());
        } else if i == 2 && j == 8 {
            assert(r[2].0 != r[8].0);
        } else if i == 2 && j == 9 {
            assert(r[2].1.len() != r[9].1.len());
        } else if i == 2 && j == 10 {
            assert(r[2].0 != r[10].0);
        } else if i == 2 && j == 11 {
            assert(r[2].0 != r[11].0);
        } else if i == 2 && j == 12 {
            assert(r[2].1.len() != r[12].1.len());
        } else if i == 2 && j == 13 {
            assert(r[2].0 != r[13].0);
        } else if i == 2 && j == 14 {
            assert(r[2].1.len() != r[14].1.len());
        } else if i == 2 && j == 15 {
            assert(r[2].0 != r[15].0);
        } else if i == 2 && j == 16 {
            assert(r[2].0 != r[16].0);
        } else if i == 2 && j == 17 {
            assert(r[2].0 != r[17].0);
        } else if i == 2 && j == 18 {
            assert(r[2].0 != r[18].0);
        } else if i == 2 && j == 19 {
            assert(r[2].1.len() != r[19].1.len());
        } else if i == 2 && j == 20 {
            assert(r[2].0 != r[20].0);
        } else if i == 3 && j == 4 {
            assert(r[3].0 != r[4].0);
        } else if i == 3 && j == 5 {
            assert(r[3].0 != r[5].0);
        } else if i == 3 && j == 6 {
            assert(r[3].0 != r[6].0);
        } else if i == 3 && j == 7 {
            assert(r[3].1.len() != r[7].1.len());
        } else if i == 3 && j == 8 {
            assert(r[3].0 != r[8].0);
        } else if i == 3 && j == 9 {
            assert(r[3].1.len() != r[9].1.len());
        } else if i == 3 && j == 10 {
            assert(r[3].0 != r[10].0);
        } else if i == 3 && j == 11 {
            assert(r[3].0 != r[11].0);
        } else if i == 3 && j == 12 {
            assert(r[3].1.len() != r[12].1.len());
        } else if i == 3 && j == 13 {
            assert(r[3].0 != r[13].0);
        } else if i == 3 && j == 14 {
            assert(r[3].1.len() != r[14].1.len());
        } else if i == 3 && j == 15 {
            assert(r[3].0 != r[15].0);
        } else if i == 3 && j == 16 {
            assert(r[3].0 != r[16].0);
        } else if i == 3 && j == 17 {
            assert(r[3].0 != r[17].0);
        } else if i == 3 && j == 18 {
            assert(r[3].0 != r[18].0);
        } else if i == 3 && j == 19 {
            assert(r[3].1.len() != r[19].1.len());
        } else if i == 3 && j == 20 {
            assert(r[3].0 != r[20].0);
        } else if i == 4 && j == 5 {
            assert(r[4].1[7] != r[5].1[7]);
        } else if i == 4 && j == 6 {
            assert(r[4].1.len() != r[6].1.len());
        } else if i == 4 && j == 7 {
            assert(r[4].0 != r[7].0);
        } else if i == 4 && j == 8 {
            assert(r[4].1.len() != r[8].1.len());
        } else if i == 4 && j == 9 {
            assert(r[4].0 != r[9].0);
        } else if i == 4 && j == 10 {
            assert(r[4].1.len() != r[10].1.len());
        } else if i == 4 && j == 11 {
            assert(r[4].1.len() != r[11].1.len());
        } else if i == 4 && j == 12 {
            assert(r[4].0 != r[12].0);
        } else if i == 4 && j == 13 {
            assert(r[4].1.len() != r[13].1.len());
        } else if i == 4 && j == 14 {
            assert(r[4].0 != r[14].0);
        } else if i == 4 && j == 15 {
            assert(r[4].1.len() != r[15].1.len());
        } else if i == 4 && j == 16 {
            assert(r[4].1.len() != r[16].1.len());
        } else if i == 4 && j == 17 {
            assert(r[4].1.len() != r[17].1.len());
        } else if i == 4 && j == 18 {
            assert(r[4].1.len() != r[18].1.len());
        } else if i == 4 && j == 19 {
            assert(r[4].0 != r[19].0);
        } else if i == 4 && j == 20 {
            assert(r[4].1.len() != r[20].1.len());
        } else if i == 5 && j == 6 {
            assert(r[5].1.len() != r[6].1.len());
        } else if i == 5 && j == 7 {
            assert(r[5].0 != r[7].0);
        } else if i == 5 && j == 8 {
            assert(r[5].1.len() != r[8].1.len());
        } else if i == 5 && j == 9 {
            assert(r[5].0 != r[9].0);
        } else if i == 5 && j == 10 {
            assert(r[5].1.len() != r[10].1.len());
        } else if i == 5 && j == 11 {
            assert(r[5].1.len() != r[11].1.len());
        } else if i == 5 && j == 12 {
            assert(r[5].0 != r[12].0);
        } else if i == 5 && j == 13 {
            assert(r[5].1.len() != r[13].1.len());
        } else if i == 5 && j == 14 {
            assert(r[5].0 != r[14].0);
        } else if i == 5 && j == 15 {
            assert(r[5].1.len() != r[15].1.len());
        } else if i == 5 && j == 16 {
            assert(r[5].1.len() != r[16].1.len());
        } else if i == 5 && j == 17 {
            assert(r[5].1.len() != r[17].1.len());
        } else if i == 5 && j == 18 {
            assert(r[5].1.len() != r[18].1.len());
        } else if i == 5 && j == 19 {
            assert(r[5].0 != r[19].0);
        } else if i == 5 && j == 20 {
            assert(r[5].1.len() != r[20].1.len());
        } else if i == 6 && j == 7 {
            assert(r[6].0 != r[7].0);
        } else if i == 6 && j == 8 {
            assert(r[6].1.len() != r[8].1.len());
        } else if i == 6 && j == 9 {
            assert(r[6].0 != r[9].0);
        } else if i == 6 && j == 10 {
            assert(r[6].1.len() != r[10].1.len());
        } else if i == 6 && j == 11 {
            assert(r[6].1.len() != r[11].1.len());
        } else if i == 6 && j == 12 {
            assert(r[6].0 != r[12].0);
        } else if i == 6 && j == 13 {
            assert(r[6].1.len() != r[13].1.len());
        } else if i == 6 && j == 14 {
            assert(r[6].0 != r[14].0);
        } else if i == 6 && j == 15 {
            assert(r[6].1.len() != r[15].1.len());
        } else if i == 6 && j == 16 {
            assert(r[6].1.len() != r[16].1.len());
        } else if i == 6 && j == 17 {
            assert(r[6].1.len() != r[17].1.len());
        } else if i == 6 && j == 18 {
            assert(r[6].1.len() != r[18].1.len());
        } else if i == 6 && j == 19 {
            assert(r[6].0 != r[19].0);
        } else if i == 6 && j == 20 {
            assert(r[6].1.len() != r[20].1.len());
        } else if i == 7 && j == 8 {
            assert(r[7].0 != r[8].0);
        } else if i == 7 && j == 9 {
            assert(r[7].1.len() != r[9].1.len());
        } else if i == 7 && j == 10 {
            assert(r[7].0 != r[10].0);
        } else if i == 7 && j == 11 {
            assert(r[7].0 != r[11].0);
        } else if i == 7 && j == 12 {
            assert(r[7].1.len() != r[12].1.len());
        } else if i == 7 && j == 13 {
            assert(r[7].0 != r[13].0);
        } else if i == 7 && j == 14 {
            assert(r[7].1.len() != r[14].1.len());
        } else if i == 7 && j == 15 {
            assert(r[7].0 != r[15].0);
        } else if i == 7 && j == 16 {
            assert(r[7].0 != r[16].0);
        } else if i == 7 && j == 17 {
            assert(r[7].0 != r[17].0);
        } else if i == 7 && j == 18 {
            assert(r[7].0 != r[18].0);
        } else if i == 7 && j == 19 {
            assert(r[7].1.len() != r[19].1.len());
        } else if i == 7 && j == 20 {
            assert(r[7].0 != r[20].0);
        } else if i == 8 && j == 9 {
            assert(r[8].0 != r[9].0);
        } else if i == 8 && j == 10 {
            assert(r[8].1.len() != r[10].1.len());
        } else if i == 8 && j == 11 {
            assert(r[8].1.len() != r[11].1.len());
        } else if i == 8 && j == 12 {
            assert(r[8].0 != r[12].0);
        } else if i == 8 && j == 13 {
            assert(r[8].1.len() != r[13].1.len());
        } else if i == 8 && j == 14 {
            assert(r[8].0 != r[14].0);
        } else if i == 8 && j == 15 {
            assert(r[8].1.len() != r[15].1.len());
        } else if i == 8 && j == 16 {
            assert(r[8].1.len() != r[16].1.len());
        } else if i == 8 && j == 17 {
            assert(r[8].1[7] != r[17].1[7]);
        } else if i == 8 && j == 18 {
            assert(r[8].1.len() != r[18].1.len());
        } else if i == 8 && j == 19 {
            assert(r[8].0 != r[19].0);
        } else if i == 8 && j == 20 {
            assert(r[8].1.len() != r[20].1.len());
        } else if i == 9 && j == 10 {
            assert(r[9].0 != r[10].0);
        } else if i == 9 && j == 11 {
            assert(r[9].0 != r[11].0);
        } else if i == 9 && j == 12 {
            assert(r[9].1.len() != r[12].1.len());
        } else if i == 9 && j == 13 {
            assert(r[9].0 != r[13].0);
        } else if i == 9 && j == 14 {
            assert(r[9].1.len() != r[14].1.len());
        } else if i == 9 && j == 15 {
            assert(r[9].0 != r[15].0);
        } else if i == 9 && j == 16 {
            assert(r[9].0 != r[16].0);
        } else if i == 9 && j == 17 {
            assert(r[9].0 != r[17].0);
        } else if i == 9 && j == 18 {
            assert(r[9].0 != r[18].0);
        } else if i == 9 && j == 19 {
            assert(r[9].1.len() != r[19].1.len());
        } else if i == 9 && j == 20 {
            assert(r[9].0 != r[20].0);
        } else if i == 10 && j == 11 {
            assert(r[10].1.len() != r[11].1.len());
        } else if i == 10 && j == 12 {
            assert(r[10].0 != r[12].0);
        } else if i == 10 && j == 13 {
            assert(r[10].1.len() != r[13].1.len());
        } else if i == 10 && j == 14 {
            assert(r[10].0 != r[14].0);
        } else if i == 10 && j == 15 {
            assert(r[10].1.len() != r[15].1.len());
        } else if i == 10 && j == 16 {
            assert(r[10].1.len() != r[16].1.len());
        } else if i == 10 && j == 17 {
            assert(r[10].1.len() != r[17].1.len());
        } else if i == 10 && j == 18 {
            assert(r[10].1.len() != r[18].1.len());
        } else if i == 10 && j == 19 {
            assert(r[10].0 != r[19].0);
        } else if i == 10 && j == 20 {
            assert(r[10].1.len() != r[20].1.len());
        } else if i == 11 && j == 12 {
            assert(r[11].0 != r[12].0);
        } else if i == 11 && j == 13 {
            assert(r[11].1.len() != r[13].1.len());
        } else if i == 11 && j == 14 {
            assert(r[11].0 != r[14].0);
        } else if i == 11 && j == 15 {
            assert(r[11].1.len() != r[15].1.len());
        } else if i == 11 && j == 16 {
            assert(r[11].1.len() != r[16].1.len());
        } else if i == 11 && j == 17 {
            assert(r[11].1.len() != r[17].1.len());
        } else if i == 11 && j == 18 {
            assert(r[11].1[7] != r[18].1[7]);
        } else if i == 11 && j == 19 {
            assert(r[11].0 != r[19].0);
        } else if i == 11 && j == 20 {
            assert(r[11].1.len() != r[20].1.len());
        } else if i == 12 && j == 13 {
            assert(r[12].0 != r[13].0);
        } else if i == 12 && j == 14 {
            assert(r[12].1.len() != r[14].1.len());
        } else if i == 12 && j == 15 {
            assert(r[12].0 != r[15].0);
        } else if i == 12 && j == 16 {
            assert(r[12].0 != r[16].0);
        } else if i == 12 && j == 17 {
            assert(r[12].0 != r[17].0);
        } else if i == 12 && j == 18 {
            assert(r[12].0 != r[18].0);
        } else if i == 12 && j == 19 {
            assert(r[12].1.len() != r[19].1.len());
        } else if i == 12 && j == 20 {
            assert(r[12].0 != r[20].0);
        } else if i == 13 && j == 14 {
            assert(r[13].0 != r[14].0);
        } else if i == 13 && j == 15 {
            assert(r[13].1.len() != r[15].1.len());
        } else if i == 13 && j == 16 {
            assert(r[13].1.len() != r[16].1.len());
        } else if i == 13 && j == 17 {
            assert(r[13].1.len() != r[17].1.len());
        } else if i == 13 && j == 18 {
            assert(r[13].1.len() != r[18].1.len());
        } else if i == 13 && j == 19 {
            assert(r[13].0 != r[19].0);
        } else if i == 13 && j == 20 {
            assert(r[13].1.len() != r[20].1.len());
        } else if i == 14 && j == 15 {
            assert(r[14].0 != r[15].0);
        } else if i == 14 && j == 16 {
            assert(r[14].0 != r[16].0);
        } else if i == 14 && j == 17 {
            assert(r[14].0 != r[17].0);
        } else if i == 14 && j == 18 {
            assert(r[14].0 != r[18].0);
        } else if i == 14 && j == 19 {
            assert(r[14].1.len() != r[19].1.len());
        } else if i == 14 && j == 20 {
            assert(r[14].0 != r[20].0);
        } else if i == 15 && j == 16 {
            assert(r[15].1.len() != r[16].1.len());
        } else if i == 15 && j == 17 {
            assert(r[15].1.len() != r[17].1.len());
        } else if i == 15 && j == 18 {
            assert(r[15].1.len() != r[18].1.len());
        } else if i == 15 && j == 19 {
            assert(r[15].0 != r[19].0);
        } else if i == 15 && j == 20 {
            assert(r[15].1.len() != r[20].1.len());
        } else if i == 16 && j == 17 {
            assert(r[16].1.len() != r[17].1.len());
        } else if i == 16 && j == 18 {
            assert(r[16].1.len() != r[18].1.len());
        } else if i == 16 && j == 19 {
            assert(r[16].0 != r[19].0);
        } else if i == 16 && j == 20 {
            assert(r[16].1.len() != r[20].1.len());
        } else if i == 17 && j == 18 {
            assert(r[17].1.len() != r[18].1.len());
        } else if i == 17 && j == 19 {
            assert(r[17].0 != r[19].0);
        } else if i == 17 && j == 20 {
            assert(r[17].1.len() != r[20].1.len());
        } else if i == 18 && j == 19 {
            assert(r[18].0 != r[19].0);
        } else if i == 18 && j == 20 {
            assert(r[18].1.len() != r[20].1.len());
        } else if i == 19 && j == 20 {
            assert(r[19].0 != r[20].0);
        }
    }
    assert forall|i: int, j: int| 0 <= i < r.len() && 0 <= j < r.len() && i != j implies r[i]
        != r[j] by {
        if j < i {
            assert(r[j] != r[i]);
        }
    }
}

/// Each method and path of the scan-target pages is listed once.
pub proof fn lemma_target_routes_distinct()
    ensures
        target_routes_spec().no_duplicates(),
{
    reveal_strlit("/");
    reveal_strlit("/new");
    reveal_strlit("/{pid}");
    reveal_strlit("/{pid}/port-scan");
    reveal_strlit("/{pid}/schedule");
    let r = target_routes_spec();
    assert forall|i: int, j: int| 0 <= i < j < r.len() implies r[i] != r[j] by {
        if i == 0 && j == 1 {
            assert(r[0].0 != r[1].0);
        } else if i == 0 && j == 2 {
            assert(r[0].1.len() != r[2].1.len());
        } else if i == 0 && j == 3 {
            assert(r[0].1.len() != r[3].1.len());
        } else if i == 0 && j == 4 {
            assert(r[0].0 != r[4].0);
        } else if i == 0 && j == 5 {
            assert(r[0].0 != r[5].0);
        } else if i == 0 && j == 6 {
            assert(r[0].0 != r[6].0);
        } else if i == 1 && j == 2 {
            assert(r[1].0 != r[2].0);
        } else if i == 1 && j == 3 {
            assert(r[1].0 != r[3].0);
        } else if i == 1 && j == 4 {
            assert(r[1].0 != r[4].0);
        } else if i == 1 && j == 5 {
            assert(r[1].1.len() != r[5].1.len());
        } else if i == 1 && j == 6 {
            assert(r[1].1.len() != r[6].1.len());
        } else if i == 2 && j == 3 {
            assert(r[2].1.len() != r[3].1.len());
        } else if i == 2 && j == 4 {
            assert(r[2].0 != r[4].0);
        } else if i == 2 && j == 5 {
            assert(r[2].0 != r[5].0);
        } else if i == 2 && j == 6 {
            assert(r[2].0 != r[6].0);
        } else if i == 3 && j == 4 {
            assert(r[3].0 != r[4].0);
        } else if i == 3 && j == 5 {
            assert(r[3].0 != r[5].0);
        } else if i == 3 && j == 6 {
            assert(r[3].0 != r[6].0);
        } else if i == 4 && j == 5 {
            assert(r[4].0 != r[5].0);
        } else if i == 4 && j == 6 {
            assert(r[4].0 != r[6].0);
        } else if i == 5 && j == 6 {
            assert(r[5].1.len() != r[6].1.len());
        }
    }
    assert forall|i: int, j: int| 0 <= i < r.len() && 0 <= j < r.len() && i != j implies r[i]
        != r[j] by {
        if j < i {
            assert(r[j] != r[i]);
        }
    }
}

/// Each method and path of the organisation's findings pages is listed once.
pub proof fn lemma_finding_routes_distinct()
    ensures
        finding_routes_spec().no_duplicates(),
{
    reveal_strlit("/");
    reveal_strlit("/bulk-delete");
    reveal_strlit("/{pid}");
    reveal_strlit("/{pid}/comments");
    reveal_strlit("/{pid}/delete");
    let r = finding_routes_spec();
    assert forall|i: int, j: int| 0 <= i < j < r.len() implies r[i] != r[j] by {
        if i == 0 && j == 1 {
            assert(r[0].0 != r[1].0);
        } else if i == 0 && j == 2 {
            assert(r[0].1.len() != r[2].1.len());
        } else if i == 0 && j == 3 {
            assert(r[0].0 != r[3].0);
        } else if i == 0 && j == 4 {
            assert(r[0].0 != r[4].0);
        } else if i == 1 && j == 2 {
            assert(r[1].0 != r[2].0);
        } else if i == 1 && j == 3 {
            assert(r[1].1.len() != r[3].1.len());
        } else if i == 1 && j == 4 {
            assert(r[1].1.len() != r[4].1.len());
        } else if i == 2 && j == 3 {
            assert(r[2].0 != r[3].0);
        } else if i == 2 && j == 4 {
            assert(r[2].0 != r[4].0);
        } else if i == 3 && j == 4 {
            assert(r[3].1.len() != r[4].1.len());
        }
    }
    assert forall|i: int, j: int| 0 <= i < r.len() && 0 <= j < r.len() && i != j implies r[i]
        != r[j] by {
        if j < i {
            assert(r[j] != r[i]);
        }
    }
}

/// Each method and path of the report pages is listed once.
pub proof fn lemma_report_routes_distinct()
    ensures
        report_routes_spec().no_duplicates(),
{
    reveal_strlit("/");
    reveal_strlit("/{pid}");
    reveal_strlit("/{pid}/download");
    let r = report_routes_spec();
    assert forall|i: int, j: int| 0 <= i < j < r.len() implies r[i] != r[j] by {
        if i == 0 && j == 1 {
            assert(r[0].1.len() != r[1].1.len());
        } else if i == 0 && j == 2 {
            assert(r[0].1.len() != r[2].1.len());
        } else if i == 1 && j == 2 {
            assert(r[1].1.len() != r[2].1.len());
        }
    }
    assert forall|i: int, j: int| 0 <= i < r.len() && 0 <= j < r.len() && i != j implies r[i]
        != r[j] by {
        if j < i {
            assert(r[j] != r[i]);
        }
    }
}

/// Each method and path of the upload API is listed once.
pub proof fn lemma_upload_routes_distinct()
    ensures
        upload_routes_spec().no_duplicates(),
{
    reveal_strlit("/");
    reveal_strlit("/{pid}");
    let r = upload_routes_spec();
    assert forall|i: int, j: int| 0 <= i < j < r.len() implies r[i] != r[j] by {
        if i == 0 && j == 1 {
            assert(r[0].0 != r[1].0);
        } else if i == 0 && j == 2 {
            assert(r[0].0 != r[2].0);
        } else if i == 1 && j == 2 {
            assert(r[1].0 != r[2].0);
        }
    }
    assert forall|i: int, j: int| 0 <= i < r.len() && 0 <= j < r.len() && i != j implies r[i]
        != r[j] by {
        if j < i {
            assert(r[j] != r[i]);
        }
    }
}

/// Each method and path of the service catalogue is listed once.
pub proof fn lemma_service_routes_distinct()
    ensures
        service_routes_spec().no_duplicates(),
{
    reveal_strlit("/");
    reveal_strlit("/{slug}");
    let r = service_routes_spec();
    assert forall|i: int, j: int| 0 <= i < j < r.len() implies r[i] != r[j] by {
        if i == 0 && j == 1 {
            assert(r[0].1.len() != r[1].1.len());
        }
    }
    assert forall|i: int, j: int| 0 <= i < r.len() && 0 <= j < r.len() && i != j implies r[i]
        != r[j] by {
        if j < i {
            assert(r[j] != r[i]);
        }
    }
}

/// Each method and path of the invoice page is listed once.
pub proof fn lemma_invoice_routes_distinct()
    ensures
        invoice_routes_spec().no_duplicates(),
{
}

/// Each method and path of the home page is listed once.
pub proof fn lemma_home_routes_distinct()
    ensures
        home_routes_spec().no_duplicates(),
{
}

/// Each method and path of the contact form is listed once.
pub proof fn lemma_contact_routes_distinct()
    ensures
        contact_routes_spec().no_duplicates(),
{
}

/// Each method and path of the free scan is listed once.
pub proof fn lemma_free_scan_routes_distinct()
    ensures
        free_scan_routes_spec().no_duplicates(),
{
    reveal_strlit("/free-scan");
    reveal_strlit("/free-scan/{run_pid}");
    let r = free_scan_routes_spec();
    assert forall|i: int, j: int| 0 <= i < j < r.len() implies r[i] != r[j] by {
        if i == 0 && j == 1 {
            assert(r[0].0 != r[1].0);
        }
    }
    assert forall|i: int, j: int| 0 <= i < r.len() && 0 <= j < r.len() && i != j implies r[i]
        != r[j] by {
        if j < i {
            assert(r[j] != r[i]);
        }
    }
}

/// Each method and path of the public pages is listed once.
pub proof fn lemma_page_routes_distinct()
    ensures
        page_routes_spec().no_duplicates(),
{
    reveal_strlit("/about");
    reveal_strlit("/contact");
    reveal_strlit("/free-scan");
    reveal_strlit("/incident-response");
    reveal_strlit("/legal/imprint");
    reveal_strlit("/legal/privacy");
    reveal_strlit("/legal/terms");
    reveal_strlit("/pricing");
    reveal_strlit("/robots.txt");
    reveal_strlit("/scope");
    reveal_strlit("/sitemap.xml");
    let r = page_routes_spec();
    assert forall|i: int, j: int| 0 <= i < j < r.len() implies r[i] != r[j] by {
        if i == 0 && j == 1 {
            assert(r[0].1.len() != r[1].1.len());
        } else if i == 0 && j == 2 {
            assert(r[0].1[1] != r[2].1[1]);
        } else if i == 0 && j == 3 {
            assert(r[0].1.len() != r[3].1.len());
        } else if i == 0 && j == 4 {
            assert(r[0].1.len() != r[4].1.len());
        } else if i == 0 && j == 5 {
            assert(r[0].1.len() != r[5].1.len());
        } else if i == 0 && j == 6 {
            assert(r[0].1.len() != r[6].1.len());
        } else if i == 0 && j == 7 {
            assert(r[0].1.len() != r[7].1.len());
        } else if i == 0 && j == 8 {
            assert(r[0].1.len() != r[8].1.len());
        } else if i == 0 && j == 9 {
            assert(r[0].1.len() != r[9].1.len());
        } else if i == 0 && j == 10 {
            assert(r[0].1.len() != r[10].1.len());
        } else if i == 1 && j == 2 {
            assert(r[1].1.len() != r[2].1.len());
        } else if i == 1 && j == 3 {
            assert(r[1].1.len() != r[3].1.len());
        } else if i == 1 && j == 4 {
            assert(r[1].1.len() != r[4].1.len());
        } else if i == 1 && j == 5 {
            assert(r[1].1.len() != r[5].1.len());
        } else if i == 1 && j == 6 {
            assert(r[1].1.len() != r[6].1.len());
        } else if i == 1 && j == 7 {
            assert(r[1].1.len() != r[7].1.len());
        } else if i == 1 && j == 8 {
            assert(r[1].1[1] != r[8].1[1]);
        } else if i == 1 && j == 9 {
            assert(r[1].1.len() != r[9].1.len());
        } else if i == 1 && j == 10 {
            assert(r[1].1.len() != r[10].1.len());
        } else if i == 2 && j == 3 {
            assert(r[2].1.len() != r[3].1.len());
        } else if i == 2 && j == 4 {
            assert(r[2].1.len() != r[4].1.len());
        } else if i == 2 && j == 5 {
            assert(r[2].1.len() != r[5].1.len());
        } else if i == 2 && j == 6 {
            assert(r[2].1.len() != r[6].1.len());
        } else if i == 2 && j == 7 {
            assert(r[2].1.len() != r[7].1.len());
        } else if i == 2 && j == 8 {
            assert(r[2].1.len() != r[8].1.len());
        } else if i == 2 && j == 9 {
            assert(r[2].1.len() != r[9].1.len());
        } else if i == 2 && j == 10 {
            assert(r[2].1.len() != r[10].1.len());
        } else if i == 3 && j == 4 {
            assert(r[3].1.len() != r[4].1.len());
        } else if i == 3 && j == 5 {
            assert(r[3].1[7] != r[5].1[7]);
        } else if i == 3 && j == 6 {
            assert(r[3].1.len() != r[6].1.len());
        } else if i == 3 && j == 7 {
            assert(r[3].1.len() != r[7].1.len());
        } else if i == 3 && j == 8 {
            assert(r[3].1.len() != r[8].1.len());
        } else if i == 3 && j == 9 {
            assert(r[3].1.len() != r[9].1.len());
        } else if i == 3 && j == 10 {
            assert(r[3].1.len() != r[10].1.len());
        } else if i == 4 && j == 5 {
            assert(r[4].1.len() != r[5].1.len());
        } else if i == 4 && j == 6 {
            assert(r[4].1.len() != r[6].1.len());
        } else if i == 4 && j == 7 {
            assert(r[4].1.len() != r[7].1.len());
        } else if i == 4 && j == 8 {
            assert(r[4].1.len() != r[8].1.len());
        } else if i == 4 && j == 9 {
            assert(r[4].1.len() != r[9].1.len());
        } else if i == 4 && j == 10 {
            assert(r[4].1[1] != r[10].1[1]);
        } else if i == 5 && j == 6 {
            assert(r[5].1.len() != r[6].1.len());
        } else if i == 5 && j == 7 {
            assert(r[5].1.len() != r[7].1.len());
        } else if i == 5 && j == 8 {
            assert(r[5].1.len() != r[8].1.len());
        } else if i == 5 && j == 9 {
            assert(r[5].1.len() != r[9].1.len());
        } else if i == 5 && j == 10 {
            assert(r[5].1.len() != r[10].1.len());
        } else if i == 6 && j == 7 {
            assert(r[6].1.len() != r[7].1.len());
        } else if i == 6 && j == 8 {
            assert(r[6].1.len() != r[8].1.len());
        } else if i == 6 && j == 9 {
            assert(r[6].1.len() != r[9].1.len());
        } else if i == 6 && j == 10 {
            assert(r[6].1.len() != r[10].1.len());
        } else if i == 7 && j == 8 {
            assert(r[7].1.len() != r[8].1.len());
        } else if i == 7 && j == 9 {
            assert(r[7].1.len() != r[9].1.len());
        } else if i == 7 && j == 10 {
            assert(r[7].1.len() != r[10].1.len());
        } else if i == 8 && j == 9 {
            assert(r[8].1.len() != r[9].1.len());
        } else if i == 8 && j == 10 {
            assert(r[8].1.len() != r[10].1.len());
        } else if i == 9 && j == 10 {
            assert(r[9].1.len() != r[10].1.len());
        }
    }
    assert forall|i: int, j: int| 0 <= i < r.len() && 0 <= j < r.len() && i != j implies r[i]
        != r[j] by {
        if j < i {
            assert(r[j] != r[i]);
        }
    }
}

/// Each method and path of the organisation pages, with the plan-aware settings in place of the framework's is listed once.
pub proof fn lemma_org_routes_distinct()
    ensures
        org_routes_spec().no_duplicates(),
{
    reveal_strlit("/");
    reveal_strlit("/new");
    reveal_strlit("/switch/{pid}");
    reveal_strlit("/{pid}/delete");
    reveal_strlit("/{pid}/members");
    reveal_strlit("/{pid}/members/invite");
    reveal_strlit("/{pid}/members/{user_pid}/remove");
    reveal_strlit("/{pid}/members/{user_pid}/role");
    reveal_strlit("/{pid}/settings");
    let r = org_routes_spec();
    assert forall|i: int, j: int| 0 <= i < j < r.len() implies r[i] != r[j] by {
        if i == 0 && j == 1 {
            assert(r[0].0 != r[1].0);
        } else if i == 0 && j == 2 {
            assert(r[0].1.len() != r[2].1.len());
        } else if i == 0 && j == 3 {
            assert(r[0].1.len() != r[3].1.len());
        } else if i == 0 && j == 4 {
            assert(r[0].0 != r[4].0);
        } else if i == 0 && j == 5 {
            assert(r[0].1.len() != r[5].1.len());
        } else if i == 0 && j == 6 {
            assert(r[0].0 != r[6].0);
        } else if i == 0 && j == 7 {
            assert(r[0].0 != r[7].0);
        } else if i == 0 && j == 8 {
            assert(r[0].0 != r[8].0);
        } else if i == 0 && j == 9 {
            assert(r[0].0 != r[9].0);
        } else if i == 0 && j == 10 {
            assert(r[0].1.len() != r[10].1.len());
        } else if i == 1 && j == 2 {
            assert(r[1].0 != r[2].0);
        } else if i == 1 && j == 3 {
            assert(r[1].0 != r[3].0);
        } else if i == 1 && j == 4 {
            assert(r[1].1.len() != r[4].1.len());
        } else if i == 1 && j == 5 {
            assert(r[1].0 != r[5].0);
        } else if i == 1 && j == 6 {
            assert(r[1].1.len() != r[6].1.len());
        } else if i == 1 && j == 7 {
            assert(r[1].1.len() != r[7].1.len());
        } else if i == 1 && j == 8 {
            assert(r[1].1.len() != r[8].1.len());
        } else if i == 1 && j == 9 {
            assert(r[1].1.len() != r[9].1.len());
        } else if i == 1 && j == 10 {
            assert(r[1].0 != r[10].0);
        } else if i == 2 && j == 3 {
            assert(r[2].1.len() != r[3].1.len());
        } else if i == 2 && j == 4 {
            assert(r[2].0 != r[4].0);
        } else if i == 2 && j == 5 {
            assert(r[2].1.len() != r[5].1.len());
        } else if i == 2 && j == 6 {
            assert(r[2].0 != r[6].0);
        } else if i == 2 && j == 7 {
            assert(r[2].0 != r[7].0);
        } else if i == 2 && j == 8 {
            assert(r[2].0 != r[8].0);
        } else if i == 2 && j == 9 {
            assert(r[2].0 != r[9].0);
        } else if i == 2 && j == 10 {
            assert(r[2].1.len() != r[10].1.len());
        } else if i == 3 && j == 4 {
            assert(r[3].0 != r[4].0);
        } else if i == 3 && j == 5 {
            assert(r[3].1.len() != r[5].1.len());
        } else if i == 3 && j == 6 {
            assert(r[3].0 != r[6].0);
        } else if i == 3 && j == 7 {
            assert(r[3].0 != r[7].0);
        } else if i == 3 && j == 8 {
            assert(r[3].0 != r[8].0);
        } else if i == 3 && j == 9 {
            assert(r[3].0 != r[9].0);
        } else if i == 3 && j == 10 {
            assert(r[3].1.len() != r[10].1.len());
        } else if i == 4 && j == 5 {
            assert(r[4].0 != r[5].0);
        } else if i == 4 && j == 6 {
            assert(r[4].1.len() != r[6].1.len());
        } else if i == 4 && j == 7 {
            assert(r[4].1.len() != r[7].1.len());
        } else if i == 4 && j == 8 {
            assert(r[4].1.len() != r[8].1.len());
        } else if i == 4 && j == 9 {
            assert(r[4].1.len() != r[9].1.len());
        } else if i == 4 && j == 10 {
            assert(r[4].0 != r[10].0);
        } else if i == 5 && j == 6 {
            assert(r[5].0 != r[6].0);
        } else if i == 5 && j == 7 {
            assert(r[5].0 != r[7].0);
        } else if i == 5 && j == 8 {
            assert(r[5].0 != r[8].0);
        } else if i == 5 && j == 9 {
            assert(r[5].0 != r[9].0);
        } else if i == 5 && j == 10 {
            assert(r[5].1.len() != r[10].1.len());
        } else if i == 6 && j == 7 {
            assert(r[6].1.len() != r[7].1.len());
        } else if i == 6 && j == 8 {
            assert(r[6].1.len() != r[8].1.len());
        } else if i == 6 && j == 9 {
            assert(r[6].1.len() != r[9].1.len());
        } else if i == 6 && j == 10 {
            assert(r[6].0 != r[10].0);
        } else if i == 7 && j == 8 {
            assert(r[7].1.len() != r[8].1.len());
        } else if i == 7 && j == 9 {
            assert(r[7].1.len() != r[9].1.len());
        } else if i == 7 && j == 10 {
            assert(r[7].0 != r[10].0);
        } else if i == 8 && j == 9 {
            assert(r[8].1.len() != r[9].1.len());
        } else if i == 8 && j == 10 {
            assert(r[8].0 != r[10].0);
        } else if i == 9 && j == 10 {
            assert(r[9].0 != r[10].0);
        }
    }
    assert forall|i: int, j: int| 0 <= i < r.len() && 0 <= j < r.len() && i != j implies r[i]
        != r[j] by {
        if j < i {
            assert(r[j] != r[i]);
        }
    }
}

/// Each method and path of the admin pages of this application (engagements, findings and reports) is listed once.
pub proof fn lemma_admin_routes_distinct()
    ensures
        admin_routes_spec().no_duplicates(),
{
    reveal_strlit("/engagements");
    reveal_strlit("/engagements/all");
    reveal_strlit("/engagements/{pid}");
    reveal_strlit("/engagements/{pid}/assign");
    reveal_strlit("/engagements/{pid}/offer");
    reveal_strlit("/engagements/{pid}/status");
    reveal_strlit("/findings");
    reveal_strlit("/findings/bulk-delete");
    reveal_strlit("/findings/{pid}");
    reveal_strlit("/findings/{pid}/delete");
    reveal_strlit("/reports");
    let r = admin_routes_spec();
    assert forall|i: int, j: int| 0 <= i < j < r.len() implies r[i] != r[j] by {
        if i == 0 && j == 1 {
            assert(r[0].1.len() != r[1].1.len());
        } else if i == 0 && j == 2 {
            assert(r[0].1.len() != r[2].1.len());
        } else if i == 0 && j == 3 {
            assert(r[0].0 != r[3].0);
        } else if i == 0 && j == 4 {
            assert(r[0].0 != r[4].0);
        } else if i == 0 && j == 5 {
            assert(r[0].0 != r[5].0);
        } else if i == 0 && j == 6 {
            assert(r[0].1.len() != r[6].1.len());
        } else if i == 0 && j == 7 {
            assert(r[0].0 != r[7].0);
        } else if i == 0 && j == 8 {
            assert(r[0].1.len() != r[8].1.len());
        } else if i == 0 && j == 9 {
            assert(r[0].0 != r[9].0);
        } else if i == 0 && j == 10 {
            assert(r[0].1.len() != r[10].1.len());
        } else if i == 1 && j == 2 {
            assert(r[1].1.len() != r[2].1.len());
        } else if i == 1 && j == 3 {
            assert(r[1].0 != r[3].0);
        } else if i == 1 && j == 4 {
            assert(r[1].0 != r[4].0);
        } else if i == 1 && j == 5 {
            assert(r[1].0 != r[5].0);
        } else if i == 1 && j == 6 {
            assert(r[1].1.len() != r[6].1.len());
        } else if i == 1 && j == 7 {
            assert(r[1].0 != r[7].0);
        } else if i == 1 && j == 8 {
            assert(r[1].1.len() != r[8].1.len());
        } else if i == 1 && j == 9 {
            assert(r[1].0 != r[9].0);
        } else if i == 1 && j == 10 {
            assert(r[1].1.len() != r[10].1.len());
        } else if i == 2 && j == 3 {
            assert(r[2].0 != r[3].0);
        } else if i == 2 && j == 4 {
            assert(r[2].0 != r[4].0);
        } else if i == 2 && j == 5 {
            assert(r[2].0 != r[5].0);
        } else if i == 2 && j == 6 {
            assert(r[2].1.len() != r[6].1.len());
        } else if i == 2 && j == 7 {
            assert(r[2].0 != r[7].0);
        } else if i == 2 && j == 8 {
            assert(r[2].1.len() != r[8].1.len());
        } else if i == 2 && j == 9 {
            assert(r[2].0 != r[9].0);
        } else if i == 2 && j == 10 {
            assert(r[2].1.len() != r[10].1.len());
        } else if i == 3 && j == 4 {
            assert(r[3].1.len() != r[4].1.len());
        } else if i == 3 && j == 5 {
            assert(r[3].1.len() != r[5].1.len());
        } else if i == 3 && j == 6 {
            assert(r[3].0 != r[6].0);
        } else if i == 3 && j == 7 {
            assert(r[3].1.len() != r[7].1.len());
        } else if i == 3 && j == 8 {
            assert(r[3].0 != r[8].0);
        } else if i == 3 && j == 9 {
            assert(r[3].1.len() != r[9].1.len());
        } else if i == 3 && j == 10 {
            assert(r[3].0 != r[10].0);
        } else if i == 4 && j == 5 {
            assert(r[4].1[19] != r[5].1[19]);
        } else if i == 4 && j == 6 {
            assert(r[4].0 != r[6].0);
        } else if i == 4 && j == 7 {
            assert(r[4].1.len() != r[7].1.len());
        } else if i == 4 && j == 8 {
            assert(r[4].0 != r[8].0);
        } else if i == 4 && j == 9 {
            assert(r[4].1.len() != r[9].1.len());
        } else if i == 4 && j == 10 {
            assert(r[4].0 != r[10].0);
        } else if i == 5 && j == 6 {
            assert(r[5].0 != r[6].0);
        } else if i == 5 && j == 7 {
            assert(r[5].1.len() != r[7].1.len());
        } else if i == 5 && j == 8 {
            assert(r[5].0 != r[8].0);
        } else if i == 5 && j == 9 {
            assert(r[5].1.len() != r[9].1.len());
        } else if i == 5 && j == 10 {
            assert(r[5].0 != r[10].0);
        } else if i == 6 && j == 7 {
            assert(r[6].0 != r[7].0);
        } else if i == 6 && j == 8 {
            assert(r[6].1.len() != r[8].1.len());
        } else if i == 6 && j == 9 {
            assert(r[6].0 != r[9].0);
        } else if i == 6 && j == 10 {
            assert(r[6].1.len() != r[10].1.len());
        } else if i == 7 && j == 8 {
            assert(r[7].0 != r[8].0);
        } else if i == 7 && j == 9 {
            assert(r[7].1.len() != r[9].1.len());
        } else if i == 7 && j == 10 {
            assert(r[7].0 != r[10].0);
        } else if i == 8 && j == 9 {
            assert(r[8].0 != r[9].0);
        } else if i == 8 && j == 10 {
            assert(r[8].1.len() != r[10].1.len());
        } else if i == 9 && j == 10 {
            assert(r[9].0 != r[10].0);
        }
    }
    assert forall|i: int, j: int| 0 <= i < r.len() && 0 <= j < r.len() && i != j implies r[i]
        != r[j] by {
        if j < i {
            assert(r[j] != r[i]);
        }
    }
}

} // verus!

use fracture_pt::routes::{
    admin_routes, contact_routes, engagement_routes, finding_routes, free_scan_routes,
    home_routes, invoice_routes, org_routes, page_routes, report_routes, service_routes,
    target_routes, upload_routes, Method, RouteTable,
};

fn assert_unique(t: &RouteTable) {
    for (i, a) in t.routes.iter().enumerate() {
        for b in &t.routes[i + 1..] {
            assert!(a != b, "{}{} listed twice", t.prefix, a.1);
        }
    }
}

#[test]
fn every_table_lists_each_route_once() {
    for t in [
        admin_routes(), contact_routes(), engagement_routes(), finding_routes(), free_scan_routes(),
        home_routes(), invoice_routes(), org_routes(), page_routes(), report_routes(),
        service_routes(), target_routes(), upload_routes(),
    ] {
        assert_unique(&t);
    }
}

#[test]
fn table_contents() {
    let e = engagement_routes();
    assert_eq!(e.prefix, "/engagements");
    assert_eq!(e.routes.len(), 21);
    assert!(e.routes.contains(&(Method::Post, "/{pid}/report")));
    assert!(e.routes.contains(&(Method::Get, "/{pid}/report")));
    let t = target_routes();
    assert_eq!(t.routes[4], (Method::Delete, "/{pid}"));
    assert_eq!(org_routes().routes[3], (Method::Get, "/{pid}/settings"));
    assert_eq!(admin_routes().prefix, "/admin");
    assert_eq!(page_routes().routes.len(), 11);
}

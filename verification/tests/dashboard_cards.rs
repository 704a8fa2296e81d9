use fracture_pt::scan_diff::PreviousSubdomain;
use fracture_pt::dashboard::{
    asm_overview, attack_surface_card, compute_severity, engagement_findings_count,
    highest_severity, merge_subdomains, open_port_count, resolve_definition_target,
    sightings_from_enumeration, sightings_from_scan, surface_source, tally_findings,
    EngagementCount, EnumeratedHost, SeverityCount, SubdomainSighting,
    SurfaceSource, TargetRef, TargetRow, group_severities, severity_breakdown, surface_rows,
    SurfaceTarget,
};

fn row(s: &str, c: i64) -> SeverityCount {
    SeverityCount { severity: s.to_string(), count: c }
}

fn sighting(n: &str, r: bool) -> SubdomainSighting {
    SubdomainSighting { name: n.to_string(), resolved: r }
}

#[test]
fn severity_breakdown_takes_the_last_row_of_each_level() {
    let b = compute_severity(&vec![row("high", 3), row("low", 2), row("High", 9), row("high", 4), row("unknown", 7)]);
    assert_eq!((b.extreme, b.high, b.elevated, b.moderate, b.low), (0, 4, 0, 0, 2));
    assert_eq!(b.total(), 6);
}

#[test]
fn asm_overview_defaults() {
    let o = asm_overview(None, Some(12), None, &vec![Some(true), None, Some(false), Some(true)]);
    assert_eq!(o.domain, "");
    assert_eq!(o.subdomain_count, 12);
    assert_eq!(o.cert_count, 0);
    assert_eq!(o.resolved_count, 2);
}

#[test]
fn engagement_counts() {
    let rows = vec![
        EngagementCount { engagement_id: Some(1), count: 4 },
        EngagementCount { engagement_id: None, count: 9 },
        EngagementCount { engagement_id: Some(2), count: 1 },
    ];
    assert_eq!(engagement_findings_count(&rows, 1), 4);
    assert_eq!(engagement_findings_count(&rows, 3), 0);
}

#[test]
fn definitions_find_their_target() {
    let targets = vec![
        TargetRow { id: 1, hostname: Some("a.com".to_string()), ip_address: None },
        TargetRow { id: 2, hostname: None, ip_address: Some("1.2.3.4".to_string()) },
        TargetRow { id: 3, hostname: Some("a.com".to_string()), ip_address: None },
    ];
    assert_eq!(resolve_definition_target(&TargetRef::Id(7), &targets), Some(7));
    assert_eq!(resolve_definition_target(&TargetRef::Name("a.com".to_string()), &targets), Some(3));
    assert_eq!(resolve_definition_target(&TargetRef::Name("b.com".to_string()), &targets), None);
    assert_eq!(resolve_definition_target(&TargetRef::Unnamed, &targets), None);
    assert_eq!(surface_source("amass_passive"), Some(SurfaceSource::PassiveEnumeration));
    assert_eq!(surface_source("report_build"), None);
}

#[test]
fn subdomains_merge_by_name_and_resolution() {
    let m = merge_subdomains(&vec![sighting("b.x", false), sighting("a.x", false), sighting("b.x", true)]);
    let v: Vec<(String, bool)> = m.into_iter().map(|e| (e.name, e.resolved)).collect();
    assert_eq!(v, vec![("a.x".to_string(), false), ("b.x".to_string(), true)]);
    let other = merge_subdomains(&vec![sighting("b.x", true), sighting("a.x", false), sighting("b.x", false)]);
    let w: Vec<(String, bool)> = other.into_iter().map(|e| (e.name, e.resolved)).collect();
    assert_eq!(v, w);
}

#[test]
fn open_ports_come_from_the_first_scan_that_has_them() {
    assert_eq!(open_port_count(&vec![None, Some(3), Some(5)]), 3);
    assert_eq!(open_port_count(&vec![None]), 0);
}

#[test]
fn tally_and_highest() {
    let t = tally_findings(&vec![row("low", 2), row("Low", 1), row("moderate", 1), row("low", 3)]);
    assert_eq!((t.extreme, t.high, t.elevated, t.moderate, t.low, t.total), (0, 0, 0, 1, 5, 7));
    assert_eq!(highest_severity(&t), "moderate");
    let none = tally_findings(&vec![row("Low", 4)]);
    assert_eq!(highest_severity(&none), "none");
    assert_eq!(none.total, 4);
}

#[test]
fn cards_list_the_first_thirty_subdomains() {
    let mut s = Vec::new();
    for i in 0..40 {
        s.push(sighting(&format!("h{:02}.x", 39 - i), i % 2 == 0));
    }
    let card = attack_surface_card(&s, &vec![None, Some(4)], &vec![row("extreme", 1)]);
    assert_eq!(card.subdomain_count, 40);
    assert_eq!(card.subdomains.len(), 30);
    assert_eq!(card.subdomains[0].name, "h00.x");
    assert_eq!(card.subdomains[29].name, "h29.x");
    assert_eq!(card.open_ports, 4);
    assert_eq!(card.highest_severity, "extreme");
    assert_eq!(card.findings.total, 1);
}

#[test]
fn sightings_from_summaries() {
    let records = vec![
        PreviousSubdomain::Record { name: Some("a.x".to_string()), resolved: Some(true) },
        PreviousSubdomain::Plain("b.x".to_string()),
        PreviousSubdomain::Record { name: Some("c.x".to_string()), resolved: None },
        PreviousSubdomain::Record { name: None, resolved: Some(true) },
    ];
    let s: Vec<(String, bool)> = sightings_from_scan(&records).into_iter().map(|x| (x.name, x.resolved)).collect();
    assert_eq!(s, vec![("a.x".to_string(), true), ("c.x".to_string(), false)]);
    let hosts = vec![
        EnumeratedHost { name: Some("d.x".to_string()), address_count: Some(2) },
        EnumeratedHost { name: Some("e.x".to_string()), address_count: Some(0) },
        EnumeratedHost { name: None, address_count: Some(1) },
        EnumeratedHost { name: Some("f.x".to_string()), address_count: None },
    ];
    let h: Vec<(String, bool)> = sightings_from_enumeration(&hosts).into_iter().map(|x| (x.name, x.resolved)).collect();
    assert_eq!(h, vec![("d.x".to_string(), true), ("e.x".to_string(), false), ("f.x".to_string(), false)]);
}

#[test]
fn severity_breakdown_counts_each_level() {
    let sevs: Vec<String> = ["high", "low", "high", "Low", "extreme", "info", "high"].iter().map(|s| s.to_string()).collect();
    let rows = group_severities(&sevs);
    let got: Vec<(String, i64)> = rows.iter().map(|r| (r.severity.clone(), r.count)).collect();
    assert_eq!(
        got,
        vec![
            ("high".to_string(), 3),
            ("low".to_string(), 1),
            ("Low".to_string(), 1),
            ("extreme".to_string(), 1),
            ("info".to_string(), 1)
        ]
    );
    let b = severity_breakdown(&sevs);
    assert_eq!((b.extreme, b.high, b.elevated, b.moderate, b.low), (1, 3, 0, 0, 1));
    let none = severity_breakdown(&Vec::new());
    assert_eq!((none.extreme, none.high, none.elevated, none.moderate, none.low), (0, 0, 0, 0, 0));
}

#[test]
fn surface_rows_one_per_target() {
    let t = |pid: &str, h: Option<&str>, ip: Option<&str>, label: Option<&str>| SurfaceTarget {
        pid: pid.to_string(),
        hostname: h.map(str::to_string),
        ip_address: ip.map(str::to_string),
        label: label.map(str::to_string),
        target_type: "web".to_string(),
    };
    let targets = vec![t("p1", Some("a.x"), None, Some("Main")), t("p2", None, Some("1.2.3.4"), None), t("p3", None, None, None)];
    let cards = vec![
        attack_surface_card(&vec![sighting("w.a.x", true)], &vec![Some(3)], &vec![row("high", 2)]),
        attack_surface_card(&vec![], &vec![], &vec![]),
        attack_surface_card(&vec![], &vec![Some(1)], &vec![]),
    ];
    let rows = surface_rows(&targets, cards);
    assert_eq!(rows.len(), 3);
    assert_eq!((rows[0].hostname.as_str(), rows[0].pid.as_str(), rows[0].label.as_str()), ("a.x", "p1", "Main"));
    assert_eq!(rows[0].card.open_ports, 3);
    assert_eq!(rows[0].card.highest_severity, "high");
    assert_eq!((rows[1].hostname.as_str(), rows[1].label.as_str()), ("1.2.3.4", ""));
    assert_eq!(rows[1].card.highest_severity, "none");
    assert_eq!(rows[2].hostname, "unknown");
    assert_eq!(rows[2].card.open_ports, 1);
    assert_eq!(rows[2].target_type, "web");
}

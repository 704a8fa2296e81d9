use fracture_pt::alerts::{alert_lists, ScanAlertMailer, StoredChange};
use fracture_pt::scan_diff::{
    change_values, compute_port_changes, compute_subdomain_changes, ChangeValue, ChangeWord,
    DiffKind, PortInfo, PreviousPort, PreviousSubdomain, ScanChange, SubdomainInfo,
};

fn info(name: &str, resolved: bool) -> SubdomainInfo {
    SubdomainInfo { name: name.to_string(), resolved, ips: vec![] }
}

fn record(name: &str, resolved: Option<bool>) -> PreviousSubdomain {
    PreviousSubdomain::Record { name: Some(name.to_string()), resolved }
}

fn view(r: &[ScanChange]) -> Vec<(DiffKind, String, Option<usize>)> {
    r.iter().map(|c| (c.kind, c.key.clone(), c.current)).collect()
}

#[test]
fn subdomain_changes_in_order() {
    let current = vec![info("new.example.com", true), info("a.example.com", true), info("b.example.com", false)];
    let previous = vec![
        record("b.example.com", Some(true)),
        record("a.example.com", Some(false)),
        PreviousSubdomain::Plain("z.example.com".to_string()),
        record("c.example.com", None),
        PreviousSubdomain::Other,
    ];
    let r = compute_subdomain_changes(&current, &previous);
    assert_eq!(
        view(&r),
        vec![
            (DiffKind::SubdomainAdded, "new.example.com".to_string(), Some(0)),
            (DiffKind::SubdomainResolved, "a.example.com".to_string(), Some(1)),
            (DiffKind::SubdomainUnresolved, "b.example.com".to_string(), Some(2)),
            (DiffKind::SubdomainRemoved, "c.example.com".to_string(), None),
            (DiffKind::SubdomainRemoved, "z.example.com".to_string(), None),
        ]
    );
    assert_eq!(DiffKind::SubdomainResolved.diff_type(), "subdomain_resolved");
}

#[test]
fn last_record_decides_previous_resolution() {
    let current = vec![info("a.example.com", false)];
    let previous = vec![record("a.example.com", Some(false)), record("a.example.com", Some(true))];
    let r = compute_subdomain_changes(&current, &previous);
    assert_eq!(view(&r), vec![(DiffKind::SubdomainUnresolved, "a.example.com".to_string(), Some(0))]);
}

#[test]
fn rescan_against_own_summary_reports_nothing() {
    let current = vec![info("a.example.com", true), info("b.example.com", false)];
    let previous: Vec<PreviousSubdomain> =
        current.iter().map(|i| record(&i.name, Some(i.resolved))).collect();
    assert!(compute_subdomain_changes(&current, &previous).is_empty());
}

#[test]
fn first_scan_adds_everything() {
    let current = vec![info("x.example.com", false)];
    let r = compute_subdomain_changes(&current, &vec![]);
    assert_eq!(view(&r), vec![(DiffKind::SubdomainAdded, "x.example.com".to_string(), Some(0))]);
}

fn port(port: u64, protocol: &str, state: &str) -> PortInfo {
    PortInfo {
        port,
        protocol: protocol.to_string(),
        state: state.to_string(),
        service: String::new(),
        version: String::new(),
    }
}

fn prev_port(port: u64, protocol: &str, state: &str) -> PreviousPort {
    PreviousPort { port: Some(port), protocol: Some(protocol.to_string()), state: Some(state.to_string()) }
}

#[test]
fn port_changes_added_then_removed_sorted() {
    let current = vec![port(443, "tcp", "open"), port(22, "tcp", "open"), port(25, "tcp", "closed"), port(443, "tcp", "open")];
    let previous = vec![prev_port(80, "tcp", "open"), prev_port(22, "tcp", "open"), prev_port(25, "tcp", "filtered"),
        PreviousPort { port: None, protocol: Some("tcp".to_string()), state: Some("open".to_string()) }];
    let r = compute_port_changes(&current, &previous);
    assert_eq!(
        view(&r),
        vec![
            (DiffKind::PortAdded, "443/tcp".to_string(), None),
            (DiffKind::PortRemoved, "80/tcp".to_string(), None),
        ]
    );
    assert_eq!(DiffKind::PortAdded.diff_type(), "added");
    assert_eq!(DiffKind::PortRemoved.diff_type(), "removed");
}

#[test]
fn port_keys_sort_as_strings() {
    let current = vec![port(8080, "tcp", "open"), port(10, "udp", "open"), port(9, "tcp", "open")];
    let r = compute_port_changes(&current, &vec![]);
    let keys: Vec<String> = r.iter().map(|c| c.key.clone()).collect();
    assert_eq!(keys, vec!["10/udp", "8080/tcp", "9/tcp"]);
}

#[test]
fn same_open_ports_report_nothing() {
    let current = vec![port(22, "tcp", "open")];
    let previous = vec![prev_port(22, "tcp", "open")];
    assert!(compute_port_changes(&current, &previous).is_empty());
}

#[test]
fn alert_lists_sort_changes_by_type() {
    let c = |t: &str, k: &str| StoredChange { diff_type: t.to_string(), entity_key: k.to_string() };
    let diffs = vec![
        c("subdomain_added", "a"),
        c("added", "22/tcp"),
        c("subdomain_removed", "b"),
        c("removed", "80/tcp"),
        c("subdomain_resolved", "c"),
        c("subdomain_unresolved", "d"),
        c("subdomain_added", "e"),
    ];
    let l = alert_lists(&diffs);
    assert_eq!(l.added_subdomains, vec!["a", "e"]);
    assert_eq!(l.removed_subdomains, vec!["b"]);
    assert_eq!(l.newly_resolved, vec!["c"]);
    assert_eq!(l.newly_unresolved, vec!["d"]);
    assert_eq!(l.new_ports, vec!["22/tcp"]);
    assert_eq!(ScanAlertMailer::sender(), "GetHacked <noreply@gethacked.eu>");
}

#[test]
fn stored_values_of_changes() {
    let infos = vec![info("a.x", false), info("b.x", true)];
    let added = ScanChange { kind: DiffKind::SubdomainAdded, key: "a.x".to_string(), current: Some(0) };
    assert_eq!(change_values(&added, &infos), (ChangeValue::Absent, ChangeValue::Record { resolved: false, record: 0 }));
    let resolved = ScanChange { kind: DiffKind::SubdomainResolved, key: "b.x".to_string(), current: Some(1) };
    assert_eq!(
        change_values(&resolved, &infos),
        (ChangeValue::Word(ChangeWord::Unresolved), ChangeValue::Record { resolved: true, record: 1 })
    );
    let closed = ScanChange { kind: DiffKind::PortRemoved, key: "22/tcp".to_string(), current: None };
    assert_eq!(change_values(&closed, &infos), (ChangeValue::Word(ChangeWord::Open), ChangeValue::Word(ChangeWord::Closed)));
    assert_eq!(ChangeWord::Closed.text(), "closed");
}

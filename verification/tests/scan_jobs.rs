use fracture_pt::clock::{job_is_stuck, Instant};
use fracture_pt::jobs::{
    after_failed_attempt, enqueue_decision, ip_scan_definition_name, port_scan_requests,
    version_disclosure_findings, wildcard_certificate_finding, AmassExecutor, AsmScanExecutor,
    CertInfo, EnqueueAction, IpEnumExecutor, JobConfig, JobError, PortScanExecutor,
    ReportBuildExecutor,
};
use fracture_pt::scan_diff::{PortInfo, SubdomainInfo};

fn cfg() -> JobConfig {
    JobConfig { hostname: None, ip_address: None, domain: None, ip: None, org_id: None, engagement_id: None }
}

#[test]
fn executors_and_their_configuration() {
    assert_eq!(AsmScanExecutor.job_type(), "asm_scan");
    assert_eq!(PortScanExecutor.job_type(), "port_scan");
    assert_eq!(AmassExecutor.job_type(), "amass_passive");
    assert_eq!(IpEnumExecutor.job_type(), "ip_enum");
    assert_eq!(ReportBuildExecutor.job_type(), "report_build");
    let mut c = cfg();
    assert_eq!(AsmScanExecutor.target(&c), Err(JobError::MissingHostname));
    c.hostname = Some("example.com".to_string());
    assert_eq!(AsmScanExecutor.target(&c), Err(JobError::MissingOrgId));
    c.org_id = Some(1 << 40);
    assert_eq!(AsmScanExecutor.target(&c), Err(JobError::IdOutOfRange));
    c.org_id = Some(7);
    assert_eq!(AsmScanExecutor.target(&c), Ok(("example.com".to_string(), 7)));
    let mut p = cfg();
    assert_eq!(PortScanExecutor.target(&p), Err(JobError::MissingScanTarget));
    p.ip_address = Some("1.2.3.4".to_string());
    assert_eq!(PortScanExecutor.target(&p), Ok("1.2.3.4".to_string()));
    p.hostname = Some("h.example".to_string());
    assert_eq!(PortScanExecutor.target(&p), Ok("h.example".to_string()));
    let mut a = cfg();
    assert_eq!(AmassExecutor.domain(&a), Err(JobError::MissingDomain));
    a.hostname = Some("h".to_string());
    assert_eq!(AmassExecutor.domain(&a), Ok("h".to_string()));
    assert_eq!(IpEnumExecutor.address(&cfg()), Err(JobError::MissingIp));
    let mut r = cfg();
    assert_eq!(ReportBuildExecutor.engagement_id(&r), Err(JobError::MissingEngagementId));
    r.engagement_id = Some(42);
    assert_eq!(ReportBuildExecutor.engagement_id(&r), Ok(42));
    assert_eq!(JobError::MissingDomain.message(), "amass_passive config missing required `domain`");
    assert_eq!(
        JobError::CertificateLogFailed("timeout".to_string()).message(),
        "crt.sh query failed after 3 attempts: timeout"
    );
    assert_eq!(JobError::ScannerFailed("boom".to_string()).message(), "nmap failed: boom");
}

#[test]
fn certificate_log_retries() {
    assert_eq!(after_failed_attempt(1), Some(10));
    assert_eq!(after_failed_attempt(2), Some(20));
    assert_eq!(after_failed_attempt(3), None);
}

#[test]
fn each_resolved_address_is_scanned_once() {
    let infos = vec![
        SubdomainInfo { name: "a.x".to_string(), resolved: true, ips: vec!["1.1.1.1".to_string(), "2.2.2.2".to_string()] },
        SubdomainInfo { name: "b.x".to_string(), resolved: false, ips: vec!["3.3.3.3".to_string()] },
        SubdomainInfo { name: "c.x".to_string(), resolved: true, ips: vec!["2.2.2.2".to_string(), "4.4.4.4".to_string()] },
    ];
    let r = port_scan_requests(&infos);
    let want: Vec<(String, String)> = vec![
        ("a.x".to_string(), "1.1.1.1".to_string()),
        ("a.x".to_string(), "2.2.2.2".to_string()),
        ("c.x".to_string(), "4.4.4.4".to_string()),
    ];
    assert_eq!(r, want);
    assert_eq!(ip_scan_definition_name("1.1.1.1", "a.x"), "Port Scan: 1.1.1.1 (a.x)");
}

#[test]
fn stuck_runs_are_replaced() {
    let at = |secs: i64, nanos: u32| Instant { secs, nanos, offset_secs: 0 };
    assert!(job_is_stuck(Some(at(1000, 0)), at(1660, 0)));
    assert!(!job_is_stuck(Some(at(1000, 500)), at(1660, 0)));
    assert!(!job_is_stuck(Some(at(1000, 0)), at(1659, 999_999_999)));
    assert!(!job_is_stuck(None, at(5000, 0)));
    assert!(!job_is_stuck(Some(at(9000, 0)), at(1000, 0)));
    assert_eq!(enqueue_decision(false, false), EnqueueAction::Enqueue);
    assert_eq!(enqueue_decision(true, true), EnqueueAction::ReplaceStuck);
    assert_eq!(enqueue_decision(true, false), EnqueueAction::Skip);
}

fn cert(cn: &str, wildcard: bool) -> CertInfo {
    CertInfo { common_name: cn.to_string(), issuer: "LE".to_string(), not_after: "2026-01-01".to_string(), is_wildcard: wildcard }
}

#[test]
fn wildcard_certificate_finding_text() {
    assert!(wildcard_certificate_finding(&vec![cert("a.x", false)], "x").is_none());
    let f = wildcard_certificate_finding(&vec![cert("*.x", true), cert("a.x", false)], "x").unwrap();
    assert_eq!(f.title, "1 Wildcard Certificate");
    assert_eq!(
        f.description,
        "1 wildcard certificate found for x. Wildcard certificates increase blast radius if compromised and may mask shadow subdomains.\n\n  \u{2022} *.x (issuer: LE, valid until: 2026-01-01)"
    );
    assert_eq!(f.severity, "Low");
    assert_eq!(f.category, "certificate");
    assert_eq!(f.status, "open");
    assert_eq!(f.affected_asset, Some("x".to_string()));
    let many: Vec<CertInfo> = (0..12).map(|i| cert(&format!("*.{i}.x"), true)).collect();
    let g = wildcard_certificate_finding(&many, "x").unwrap();
    assert_eq!(g.title, "12 Wildcard Certificates");
    assert!(g.description.ends_with("  \u{2022} *.9.x (issuer: LE, valid until: 2026-01-01)\n  \u{2026} and 2 more"));
    assert_eq!(g.description.matches('\u{2022}').count(), 10);
}

fn svc(port: u64, state: &str, service: &str, version: &str) -> PortInfo {
    PortInfo { port, protocol: "tcp".to_string(), state: state.to_string(), service: service.to_string(), version: version.to_string() }
}

#[test]
fn version_disclosure_finding_text() {
    assert!(version_disclosure_findings(&vec![svc(22, "open", "ssh", "")], "h", "1.2.3.4").is_empty());
    let ports = vec![
        svc(22, "open", "ssh", "OpenSSH 9.6"),
        svc(80, "closed", "http", "nginx 1.2"),
        svc(443, "open", "https", "nginx 1.25"),
        svc(8443, "open", "https", "nginx 1.25"),
    ];
    let fs = version_disclosure_findings(&ports, "h.example", "1.2.3.4");
    assert_eq!(fs.len(), 2);
    assert_eq!(fs[0].title, "Version Disclosure on h.example: ssh OpenSSH 9.6");
    assert_eq!(
        fs[0].description,
        "The following services on **h.example** (1.2.3.4) disclose version information, which aids attackers in identifying known vulnerabilities:\n\n- **22/tcp** \u{2014} ssh OpenSSH 9.6\n\nVersion disclosure allows attackers to search for CVEs specific to the detected software versions."
    );
    assert_eq!(fs[1].title, "Version Disclosure on h.example: https nginx 1.25");
    assert_eq!(
        fs[1].description,
        "The following services on **h.example** (1.2.3.4) disclose version information, which aids attackers in identifying known vulnerabilities:\n\n- **443/tcp** \u{2014} https nginx 1.25\n- **8443/tcp** \u{2014} https nginx 1.25\n\nVersion disclosure allows attackers to search for CVEs specific to the detected software versions."
    );
    for f in &fs {
        assert_eq!(f.affected_asset, Some("h.example:1.2.3.4".to_string()));
        assert_eq!((f.severity.as_str(), f.category.as_str(), f.status.as_str()), ("low", "misconfig", "new"));
        assert!(f.recommendation.clone().unwrap().starts_with("Configure services to suppress version banners where possible:\n\n- **Apache**"));
    }
}

#[test]
fn version_disclosure_one_finding_per_service_and_version() {
    let ports = vec![
        svc(80, "open", "http", "nginx 1.25"),
        svc(81, "open", "http", "nginx 1.24"),
        svc(82, "open", "http", "nginx 1.25"),
        svc(83, "filtered", "http", "nginx 1.23"),
    ];
    let fs = version_disclosure_findings(&ports, "t", "9.9.9.9");
    let titles: Vec<&str> = fs.iter().map(|f| f.title.as_str()).collect();
    assert_eq!(titles, vec!["Version Disclosure on t: http nginx 1.25", "Version Disclosure on t: http nginx 1.24"]);
}

//! The scan and report jobs: what each executor reads from its job
//! definition, how the certificate-log query is retried, which resolved
//! addresses get a port scan, and the findings the scans file.
use vstd::prelude::*;

use crate::scan_diff::{PortInfo, SubdomainInfo};
use crate::text::{chars_of, decimal, eq_str, push_all, push_decimal, push_str, seq_eq, string_of, views};

verus! {

// ---------------------------------------------------------------------------
// Executors
// ---------------------------------------------------------------------------

/// Passive subdomain enumeration with amass.
pub struct AmassExecutor;

/// Subdomain discovery from certificate transparency logs, with DNS
/// resolution.
pub struct AsmScanExecutor;

/// Passive enumeration of one IP address.
pub struct IpEnumExecutor;

/// An nmap port scan.
pub struct PortScanExecutor;

/// Builds an engagement's report.
pub struct ReportBuildExecutor;

/// The fields of a job definition's configuration that the executors read,
/// each present when it holds a value of the expected type.
#[derive(Clone, Debug)]
pub struct JobConfig {
    pub hostname: Option<String>,
    pub ip_address: Option<String>,
    pub domain: Option<String>,
    pub ip: Option<String>,
    pub org_id: Option<i64>,
    pub engagement_id: Option<i64>,
}

/// Why a job could not run.
#[derive(Clone, Debug, PartialEq, Eq)]
pub enum JobError {
    MissingHostname,
    MissingOrgId,
    /// An id that does not fit in an `i32`.
    IdOutOfRange,
    MissingScanTarget,
    MissingDomain,
    MissingIp,
    MissingEngagementId,
    /// The certificate-log query failed every time; the last error.
    CertificateLogFailed(String),
    /// The port scanner failed; its error.
    ScannerFailed(String),
    /// The engagement of a report job does not exist.
    EngagementNotFound,
}

/// The text of each job error.
pub open spec fn job_error_text(e: JobError) -> Seq<char> {
    match e {
        JobError::MissingHostname => "missing hostname in config"@,
        JobError::MissingOrgId => "missing org_id in config"@,
        JobError::IdOutOfRange => "out of range integral type conversion attempted"@,
        JobError::MissingScanTarget => "missing hostname or ip_address in config"@,
        JobError::MissingDomain => "amass_passive config missing required `domain`"@,
        JobError::MissingIp => "ip_enum config missing required `ip`"@,
        JobError::MissingEngagementId => "missing engagement_id in config"@,
        JobError::CertificateLogFailed(last) => "crt.sh query failed after 3 attempts: "@ + last@,
        JobError::ScannerFailed(e) => "nmap failed: "@ + e@,
        JobError::EngagementNotFound => "engagement not found"@,
    }
}

impl JobError {
    /// The message recorded on the failed run.
    pub fn message(&self) -> (r: String)
        ensures
            r@ == job_error_text(*self),
    {
        let s: &str = match self {
            JobError::MissingHostname => "missing hostname in config",
            JobError::MissingOrgId => "missing org_id in config",
            JobError::IdOutOfRange => "out of range integral type conversion attempted",
            JobError::MissingScanTarget => "missing hostname or ip_address in config",
            JobError::MissingDomain => "amass_passive config missing required `domain`",
            JobError::MissingIp => "ip_enum config missing required `ip`",
            JobError::MissingEngagementId => "missing engagement_id in config",
            JobError::CertificateLogFailed(last) => {
                let mut v: Vec<char> = Vec::new();
                push_str(&mut v, "crt.sh query failed after 3 attempts: ");
                push_str(&mut v, last.as_str());
                return string_of(&v);
            },
            JobError::ScannerFailed(e) => {
                let mut v: Vec<char> = Vec::new();
                push_str(&mut v, "nmap failed: ");
                push_str(&mut v, e.as_str());
                return string_of(&v);
            },
            JobError::EngagementNotFound => "engagement not found",
        };
        s.to_owned()
    }
}

/// Reads an id as an `i32`, refusing one out of range.
fn id_from(v: i64) -> (r: Result<i32, JobError>)
    ensures
        match r {
            Ok(x) => x == v,
            Err(e) => e is IdOutOfRange && (v < i32::MIN || v > i32::MAX),
        },
{
    if v < i32::MIN as i64 || v > i32::MAX as i64 {
        Err(JobError::IdOutOfRange)
    } else {
        Ok(v as i32)
    }
}

impl AmassExecutor {
    /// The job type this executor runs.
    pub fn job_type(&self) -> (r: &'static str)
        ensures
            r@ == "amass_passive"@,
    {
        "amass_passive"
    }

    /// The domain to enumerate: `domain`, or else `hostname`.
    pub fn domain(&self, cfg: &JobConfig) -> (r: Result<String, JobError>)
        ensures
            match (cfg.domain, cfg.hostname) {
                (Some(d), _) => r matches Ok(x) && x@ == d@,
                (None, Some(h)) => r matches Ok(x) && x@ == h@,
                (None, None) => r == Err::<String, JobError>(JobError::MissingDomain),
            },
    {
        match &cfg.domain {
            Some(d) => Ok(d.clone()),
            None => match &cfg.hostname {
                Some(h) => Ok(h.clone()),
                None => Err(JobError::MissingDomain),
            },
        }
    }
}

impl AsmScanExecutor {
    /// The job type this executor runs.
    pub fn job_type(&self) -> (r: &'static str)
        ensures
            r@ == "asm_scan"@,
    {
        "asm_scan"
    }

    /// The host name to scan and the organisation to file findings for.
    pub fn target(&self, cfg: &JobConfig) -> (r: Result<(String, i32), JobError>)
        ensures
            match (cfg.hostname, cfg.org_id) {
                (None, _) => r == Err::<(String, i32), JobError>(JobError::MissingHostname),
                (Some(_), None) => r == Err::<(String, i32), JobError>(JobError::MissingOrgId),
                (Some(h), Some(o)) => if i32::MIN <= o <= i32::MAX {
                    r matches Ok((x, id)) && x@ == h@ && id == o
                } else {
                    r == Err::<(String, i32), JobError>(JobError::IdOutOfRange)
                },
            },
    {
        let hostname = match &cfg.hostname {
            Some(h) => h.clone(),
            None => {
                return Err(JobError::MissingHostname);
            },
        };
        let org = match cfg.org_id {
            Some(o) => o,
            None => {
                return Err(JobError::MissingOrgId);
            },
        };
        let org_id = id_from(org)?;
        Ok((hostname, org_id))
    }
}

impl IpEnumExecutor {
    /// The job type this executor runs.
    pub fn job_type(&self) -> (r: &'static str)
        ensures
            r@ == "ip_enum"@,
    {
        "ip_enum"
    }

    /// The address to enumerate.
    pub fn address(&self, cfg: &JobConfig) -> (r: Result<String, JobError>)
        ensures
            match cfg.ip {
                Some(a) => r matches Ok(x) && x@ == a@,
                None => r == Err::<String, JobError>(JobError::MissingIp),
            },
    {
        match &cfg.ip {
            Some(a) => Ok(a.clone()),
            None => Err(JobError::MissingIp),
        }
    }
}

impl PortScanExecutor {
    /// The job type this executor runs.
    pub fn job_type(&self) -> (r: &'static str)
        ensures
            r@ == "port_scan"@,
    {
        "port_scan"
    }

    /// The host to scan: `hostname`, or else `ip_address`.
    pub fn target(&self, cfg: &JobConfig) -> (r: Result<String, JobError>)
        ensures
            match (cfg.hostname, cfg.ip_address) {
                (Some(h), _) => r matches Ok(x) && x@ == h@,
                (None, Some(a)) => r matches Ok(x) && x@ == a@,
                (None, None) => r == Err::<String, JobError>(JobError::MissingScanTarget),
            },
    {
        match &cfg.hostname {
            Some(h) => Ok(h.clone()),
            None => match &cfg.ip_address {
                Some(a) => Ok(a.clone()),
                None => Err(JobError::MissingScanTarget),
            },
        }
    }
}

impl ReportBuildExecutor {
    /// The job type this executor runs.
    pub fn job_type(&self) -> (r: &'static str)
        ensures
            r@ == "report_build"@,
    {
        "report_build"
    }

    /// The change a finished build records: a report `added`, whose value is
    /// the file's path.
    pub fn report_change(&self) -> (r: (&'static str, &'static str))
        ensures
            r.0@ == "added"@,
            r.1@ == "report"@,
    {
        ("added", "report")
    }

    /// The engagement whose report to build.
    pub fn engagement_id(&self, cfg: &JobConfig) -> (r: Result<i32, JobError>)
        ensures
            match cfg.engagement_id {
                None => r == Err::<i32, JobError>(JobError::MissingEngagementId),
                Some(e) => if i32::MIN <= e <= i32::MAX {
                    r == Ok::<i32, JobError>(e as i32)
                } else {
                    r == Err::<i32, JobError>(JobError::IdOutOfRange)
                },
            },
    {
        match cfg.engagement_id {
            Some(e) => id_from(e),
            None => Err(JobError::MissingEngagementId),
        }
    }
}

// ---------------------------------------------------------------------------
// Retrying the certificate-log query
// ---------------------------------------------------------------------------

/// The certificate-log query is tried at most this many times.
pub const CRTSH_MAX_ATTEMPTS: u32 = 3;

/// After attempt `attempt` (counted from 1) failed: wait this many seconds
/// and try again, or give up after the last attempt.
pub open spec fn retry_delay(attempt: u32) -> Option<u64> {
    if attempt < CRTSH_MAX_ATTEMPTS {
        Some((10 * attempt) as u64)
    } else {
        None
    }
}

/// What to do after a failed attempt: `Some(seconds)` to wait before the
/// next attempt, `None` to give up.
pub fn after_failed_attempt(attempt: u32) -> (r: Option<u64>)
    requires
        1 <= attempt <= CRTSH_MAX_ATTEMPTS,
    ensures
        r == retry_delay(attempt),
{
    if attempt < CRTSH_MAX_ATTEMPTS {
        Some(10 * attempt as u64)
    } else {
        None
    }
}

/// The query is tried three times at most, and a job whose queries all fail
/// waits ten, then twenty seconds: thirty in all.
pub proof fn lemma_retry_budget()
    ensures
        retry_delay(1) == Some(10u64),
        retry_delay(2) == Some(20u64),
        retry_delay(3) is None,
        forall|a: u32| a >= CRTSH_MAX_ATTEMPTS ==> (#[trigger] retry_delay(a)) is None,
{
}

// ---------------------------------------------------------------------------
// Port scans for resolved addresses
// ---------------------------------------------------------------------------

/// The (subdomain, address) pairs that get a port scan after `k`
/// subdomains: each address of a resolved subdomain, the first time it is
/// met.
pub open spec fn scan_pairs_upto(infos: Seq<SubdomainInfo>, k: int) -> Seq<(Seq<char>, Seq<char>)>
    decreases k, 0int,
{
    if k <= 0 {
        seq![]
    } else {
        scan_pairs_within(infos, k - 1, infos[k - 1].ips@.len() as int)
    }
}

/// The pairs after the first `j` addresses of subdomain `k`.
pub open spec fn scan_pairs_within(infos: Seq<SubdomainInfo>, k: int, j: int) -> Seq<
    (Seq<char>, Seq<char>),
>
    decreases k, 1int, j,
{
    if k < 0 {
        seq![]
    } else if j <= 0 || !infos[k].resolved {
        scan_pairs_upto(infos, k)
    } else {
        let before = scan_pairs_within(infos, k, j - 1);
        let ip = infos[k].ips@[j - 1]@;
        if (exists|t: int| 0 <= t < before.len() && (#[trigger] before[t]).1 == ip) {
            before
        } else {
            before.push((infos[k].name@, ip))
        }
    }
}

/// The addresses to port-scan after a subdomain scan, each once, with the
/// subdomain it was first found under, in the order they were found.
pub fn port_scan_requests(infos: &Vec<SubdomainInfo>) -> (r: Vec<(String, String)>)
    ensures
        r@.map_values(|p: (String, String)| (p.0@, p.1@)) == scan_pairs_upto(
            infos@,
            infos@.len() as int,
        ),
{
    let mut r: Vec<(String, String)> = Vec::new();
    let mut seen: Vec<Vec<char>> = Vec::new();
    let n = infos.len();
    for k in 0..n
        invariant
            n == infos@.len(),
            r@.map_values(|p: (String, String)| (p.0@, p.1@)) == scan_pairs_upto(infos@, k as int),
            views(seen@) == scan_pairs_upto(infos@, k as int).map_values(
                |p: (Seq<char>, Seq<char>)| p.1,
            ),
    {
        let m = infos[k].ips.len();
        let resolved = infos[k].resolved;
        for j in 0..m
            invariant
                n == infos@.len(),
                k < n,
                m == infos@[k as int].ips@.len(),
                resolved == infos@[k as int].resolved,
                r@.map_values(|p: (String, String)| (p.0@, p.1@)) == if resolved {
                    scan_pairs_within(infos@, k as int, j as int)
                } else {
                    scan_pairs_upto(infos@, k as int)
                },
                views(seen@) == r@.map_values(|p: (String, String)| (p.0@, p.1@)).map_values(
                    |p: (Seq<char>, Seq<char>)| p.1,
                ),
        {
            if resolved {
                let ghost before = r@.map_values(|p: (String, String)| (p.0@, p.1@));
                let ip = chars_of(infos[k].ips[j].as_str());
                let dup = crate::text::contains_chars(&seen, &ip);
                proof {
                    assert(scan_pairs_within(infos@, k as int, j + 1) == {
                        let ipv = infos@[k as int].ips@[j as int]@;
                        if (exists|t: int| 0 <= t < before.len() && (#[trigger] before[t]).1 == ipv) {
                            before
                        } else {
                            before.push((infos@[k as int].name@, ipv))
                        }
                    });
                    if dup {
                        let t = choose|t: int| 0 <= t < views(seen@).len() && views(seen@)[t] == ip@;
                        assert(before[t].1 == ip@);
                    } else {
                        assert forall|t: int| 0 <= t < before.len() implies (#[trigger] before[t]).1
                            != ip@ by {
                            assert(views(seen@)[t] == before[t].1);
                        }
                    }
                }
                if !dup {
                    let ghost old_seen = views(seen@);
                    r.push((infos[k].name.clone(), infos[k].ips[j].clone()));
                    seen.push(ip);
                    assert(r@.map_values(|p: (String, String)| (p.0@, p.1@)) =~= before.push(
                        (infos@[k as int].name@, infos@[k as int].ips@[j as int]@),
                    ));
                    assert(views(seen@) =~= old_seen.push(infos@[k as int].ips@[j as int]@));
                    assert(views(seen@) =~= r@.map_values(|p: (String, String)| (p.0@, p.1@)).map_values(
                        |p: (Seq<char>, Seq<char>)| p.1,
                    ));
                }
            }
        }
        proof {
            if !resolved {
                assert(scan_pairs_within(infos@, k as int, m as int) == scan_pairs_upto(
                    infos@,
                    k as int,
                ));
            }
            assert(scan_pairs_upto(infos@, k + 1) == scan_pairs_within(infos@, k as int, m as int));
        }
    }
    r
}

/// Some pair of `s` is for address `ip`.
pub open spec fn has_address(s: Seq<(Seq<char>, Seq<char>)>, ip: Seq<char>) -> bool {
    exists|t: int| 0 <= t < s.len() && (#[trigger] s[t]).1 == ip
}

/// No address occurs in two pairs of `s`.
pub open spec fn addresses_distinct(s: Seq<(Seq<char>, Seq<char>)>) -> bool {
    forall|a: int, b: int| 0 <= a < b < s.len() ==> (#[trigger] s[a]).1 != (#[trigger] s[b]).1
}

proof fn lemma_pairs_distinct_upto(infos: Seq<SubdomainInfo>, k: int)
    requires
        k <= infos.len(),
    ensures
        addresses_distinct(scan_pairs_upto(infos, k)),
    decreases k, 0int,
{
    if k > 0 {
        lemma_pairs_distinct_within(infos, k - 1, infos[k - 1].ips@.len() as int);
    }
}

proof fn lemma_pairs_distinct_within(infos: Seq<SubdomainInfo>, k: int, j: int)
    requires
        k < infos.len(),
    ensures
        addresses_distinct(scan_pairs_within(infos, k, j)),
    decreases k, 1int, j,
{
    if k < 0 {
    } else if j <= 0 || !infos[k].resolved {
        lemma_pairs_distinct_upto(infos, k);
    } else {
        lemma_pairs_distinct_within(infos, k, j - 1);
        let before = scan_pairs_within(infos, k, j - 1);
        let ip = infos[k].ips@[j - 1]@;
        if !(exists|t: int| 0 <= t < before.len() && (#[trigger] before[t]).1 == ip) {
            let after = before.push((infos[k].name@, ip));
            assert forall|a: int, b: int| 0 <= a < b < after.len() implies (#[trigger] after[a]).1
                != (#[trigger] after[b]).1 by {
                assert(after[a] == before[a]);
                if b < before.len() {
                    assert(after[b] == before[b]);
                }
            }
        }
    }
}

proof fn lemma_within_grows(infos: Seq<SubdomainInfo>, k: int, j1: int, j2: int, x: Seq<char>)
    requires
        0 <= k < infos.len(),
        0 <= j1 <= j2,
        has_address(scan_pairs_within(infos, k, j1), x),
    ensures
        has_address(scan_pairs_within(infos, k, j2), x),
    decreases j2 - j1,
{
    if j1 < j2 {
        lemma_within_grows(infos, k, j1, j2 - 1, x);
        if j2 > 0 && infos[k].resolved {
            let before = scan_pairs_within(infos, k, j2 - 1);
            let t = choose|t: int| 0 <= t < before.len() && (#[trigger] before[t]).1 == x;
            let after = scan_pairs_within(infos, k, j2);
            if after != before {
                assert(after[t] == before[t]);
            }
        }
    }
}

proof fn lemma_upto_grows(infos: Seq<SubdomainInfo>, k1: int, k2: int, x: Seq<char>)
    requires
        0 <= k1 <= k2 <= infos.len(),
        has_address(scan_pairs_upto(infos, k1), x),
    ensures
        has_address(scan_pairs_upto(infos, k2), x),
    decreases k2 - k1,
{
    if k1 < k2 {
        lemma_upto_grows(infos, k1, k2 - 1, x);
        let k = k2 - 1;
        assert(scan_pairs_within(infos, k, 0) == scan_pairs_upto(infos, k));
        lemma_within_grows(infos, k, 0, infos[k].ips@.len() as int, x);
    }
}

/// After a subdomain scan, each address gets at most one port-scan request.
pub proof fn lemma_each_address_requested_once(infos: Seq<SubdomainInfo>)
    ensures
        addresses_distinct(scan_pairs_upto(infos, infos.len() as int)),
{
    lemma_pairs_distinct_upto(infos, infos.len() as int);
}

/// After a subdomain scan, every address of every resolved subdomain gets
/// a port-scan request.
pub proof fn lemma_every_resolved_address_requested(infos: Seq<SubdomainInfo>, i: int, j: int)
    requires
        0 <= i < infos.len(),
        infos[i].resolved,
        0 <= j < infos[i].ips@.len(),
    ensures
        has_address(scan_pairs_upto(infos, infos.len() as int), infos[i].ips@[j]@),
{
    let ip = infos[i].ips@[j]@;
    let before = scan_pairs_within(infos, i, j);
    let after = scan_pairs_within(infos, i, j + 1);
    if !has_address(before, ip) {
        assert(after == before.push((infos[i].name@, ip)));
        assert(after[before.len() as int].1 == ip);
    } else {
        assert(after == before);
    }
    lemma_within_grows(infos, i, j + 1, infos[i].ips@.len() as int, ip);
    assert(scan_pairs_upto(infos, i + 1) == scan_pairs_within(infos, i, infos[i].ips@.len() as int));
    lemma_upto_grows(infos, i + 1, infos.len() as int, ip);
}

/// The name of the port-scan definition for an address found under a
/// subdomain.
pub fn ip_scan_definition_name(ip: &str, subdomain: &str) -> (r: String)
    ensures
        r@ == "Port Scan: "@ + ip@ + " ("@ + subdomain@ + ")"@,
{
    let mut v: Vec<char> = Vec::new();
    push_str(&mut v, "Port Scan: ");
    push_str(&mut v, ip);
    push_str(&mut v, " (");
    push_str(&mut v, subdomain);
    push_str(&mut v, ")");
    string_of(&v)
}

/// What to do when a port scan is asked for an address.
#[derive(Clone, Copy, Debug, PartialEq, Eq, Structural)]
pub enum EnqueueAction {
    /// Queue a run.
    Enqueue,
    /// Mark the stuck pending run failed ("Timed out after 10 minutes"),
    /// then queue a run.
    ReplaceStuck,
    /// A run is already pending: do nothing.
    Skip,
}

/// Decides whether to queue a port scan, given whether a run is queued or
/// running and whether that run is stuck.
pub fn enqueue_decision(has_pending: bool, pending_is_stuck: bool) -> (r: EnqueueAction)
    ensures
        r == (if !has_pending {
            EnqueueAction::Enqueue
        } else if pending_is_stuck {
            EnqueueAction::ReplaceStuck
        } else {
            EnqueueAction::Skip
        }),
{
    if !has_pending {
        EnqueueAction::Enqueue
    } else if pending_is_stuck {
        EnqueueAction::ReplaceStuck
    } else {
        EnqueueAction::Skip
    }
}

// ---------------------------------------------------------------------------
// Findings filed by scans
// ---------------------------------------------------------------------------

/// A finding a scan files.
#[derive(Clone, Debug)]
pub struct FindingDraft {
    pub title: String,
    pub description: String,
    pub recommendation: Option<String>,
    pub severity: String,
    pub category: String,
    pub affected_asset: Option<String>,
    pub status: String,
}

/// A certificate from the certificate-transparency logs.
#[derive(Clone, Debug)]
pub struct CertInfo {
    pub common_name: String,
    pub issuer: String,
    pub not_after: String,
    pub is_wildcard: bool,
}

/// `"s"` unless there is exactly one.
pub open spec fn plural(n: nat) -> Seq<char> {
    if n == 1 {
        ""@
    } else {
        "s"@
    }
}

/// The wildcard certificates, in order.
pub open spec fn wildcards(certs: Seq<CertInfo>) -> Seq<CertInfo>
    decreases certs.len(),
{
    if certs.len() == 0 {
        seq![]
    } else if certs.last().is_wildcard {
        wildcards(certs.drop_last()).push(certs.last())
    } else {
        wildcards(certs.drop_last())
    }
}

/// The line describing one certificate.
pub open spec fn cert_line(c: CertInfo) -> Seq<char> {
    "  \u{2022} "@ + c.common_name@ + " (issuer: "@ + c.issuer@ + ", valid until: "@ + c.not_after@
        + ")"@
}

/// Lines joined by newlines.
pub open spec fn join_lines(lines: Seq<Seq<char>>) -> Seq<char>
    decreases lines.len(),
{
    if lines.len() == 0 {
        seq![]
    } else if lines.len() == 1 {
        lines[0]
    } else {
        join_lines(lines.drop_last()) + "\n"@ + lines.last()
    }
}

/// At most this many certificates are listed in a finding.
pub const CERT_LINE_LIMIT: usize = 10;

/// The description of the wildcard-certificate finding.
pub open spec fn wildcard_description(w: Seq<CertInfo>, hostname: Seq<char>) -> Seq<char> {
    let shown = if w.len() > 10 {
        w.take(10)
    } else {
        w
    };
    decimal(w.len()) + " wildcard certificate"@ + plural(w.len()) + " found for "@ + hostname
        + ". Wildcard certificates increase blast radius if compromised and may mask shadow subdomains.\n\n"@
        + join_lines(shown.map_values(|c: CertInfo| cert_line(c))) + if w.len() > 10 {
        "\n  \u{2026} and "@ + decimal((w.len() - 10) as nat) + " more"@
    } else {
        ""@
    }
}

fn collect_wildcards(certs: &Vec<CertInfo>) -> (r: Vec<usize>)
    ensures
        r@.len() == wildcards(certs@).len(),
        forall|i: int| 0 <= i < r@.len() ==> (#[trigger] r@[i]) < certs@.len() && certs@[r@[i] as int]
            == wildcards(certs@)[i],
{
    let mut r: Vec<usize> = Vec::new();
    let n = certs.len();
    assert(certs@.take(0) =~= Seq::<CertInfo>::empty());
    for i in 0..n
        invariant
            n == certs@.len(),
            r@.len() == wildcards(certs@.take(i as int)).len(),
            forall|t: int| 0 <= t < r@.len() ==> (#[trigger] r@[t]) < i && certs@[r@[t] as int]
                == wildcards(certs@.take(i as int))[t],
    {
        assert(certs@.take(i + 1).drop_last() =~= certs@.take(i as int));
        assert(certs@.take(i + 1).last() == certs@[i as int]);
        if certs[i].is_wildcard {
            r.push(i);
        }
    }
    assert(certs@.take(n as int) =~= certs@);
    r
}

fn push_cert_line(v: &mut Vec<char>, c: &CertInfo)
    ensures
        final(v)@ == old(v)@ + cert_line(*c),
{
    let ghost start = v@;
    push_str(v, "  \u{2022} ");
    push_str(v, c.common_name.as_str());
    push_str(v, " (issuer: ");
    push_str(v, c.issuer.as_str());
    push_str(v, ", valid until: ");
    push_str(v, c.not_after.as_str());
    push_str(v, ")");
    assert(v@ =~= start + cert_line(*c));
}

/// The finding filed when wildcard certificates are found for a host:
/// none without any.
pub fn wildcard_certificate_finding(certs: &Vec<CertInfo>, hostname: &str) -> (r: Option<
    FindingDraft,
>)
    ensures
        wildcards(certs@).len() == 0 <==> r is None,
        r matches Some(f) ==> {
            &&& f.title@ == decimal(wildcards(certs@).len()) + " Wildcard Certificate"@ + plural(
                wildcards(certs@).len(),
            )
            &&& f.description@ == wildcard_description(wildcards(certs@), hostname@)
            &&& f.recommendation is None
            &&& f.severity@ == "Low"@
            &&& f.category@ == "certificate"@
            &&& f.affected_asset matches Some(a) && a@ == hostname@
            &&& f.status@ == "open"@
        },
{
    let idx = collect_wildcards(certs);
    let ghost w = wildcards(certs@);
    let n = idx.len();
    if n == 0 {
        return None;
    }
    let shown = if n > CERT_LINE_LIMIT {
        CERT_LINE_LIMIT
    } else {
        n
    };
    let ghost shown_seq = if w.len() > 10 {
        w.take(10)
    } else {
        w
    };
    let mut lines: Vec<char> = Vec::new();
    for k in 0..shown
        invariant
            shown <= n,
            n == idx@.len(),
            n == w.len(),
            shown as int == shown_seq.len(),
            forall|t: int| 0 <= t < shown ==> shown_seq[t] == w[t],
            forall|i: int| 0 <= i < idx@.len() ==> (#[trigger] idx@[i]) < certs@.len() && certs@[idx@[i] as int]
                == w[i],
            lines@ == join_lines(shown_seq.take(k as int).map_values(|c: CertInfo| cert_line(c))),
    {
        let ghost before = shown_seq.take(k as int).map_values(|c: CertInfo| cert_line(c));
        let ghost after = shown_seq.take(k + 1).map_values(|c: CertInfo| cert_line(c));
        assert(after.drop_last() =~= before);
        assert(after.last() == cert_line(w[k as int]));
        if k > 0 {
            push_str(&mut lines, "\n");
        }
        push_cert_line(&mut lines, &certs[idx[k]]);
        proof {
            if k == 0 {
                assert(after.len() == 1);
                assert(lines@ =~= after[0]);
            } else {
                assert(lines@ =~= join_lines(before) + "\n"@ + after.last());
            }
        }
    }
    assert(shown_seq.take(shown as int) =~= shown_seq);
    let mut d: Vec<char> = Vec::new();
    push_decimal(&mut d, n as u64);
    push_str(&mut d, " wildcard certificate");
    push_str(&mut d, if n == 1 { "" } else { "s" });
    push_str(&mut d, " found for ");
    push_str(&mut d, hostname);
    push_str(
        &mut d,
        ". Wildcard certificates increase blast radius if compromised and may mask shadow subdomains.\n\n",
    );
    push_all(&mut d, &lines);
    let ghost head = d@;
    if n > CERT_LINE_LIMIT {
        push_str(&mut d, "\n  \u{2026} and ");
        push_decimal(&mut d, (n - CERT_LINE_LIMIT) as u64);
        push_str(&mut d, " more");
        assert(d@ =~= wildcard_description(w, hostname@));
    } else {
        proof {
            reveal_strlit("");
        }
        assert(d@ =~= wildcard_description(w, hostname@));
    }
    let mut t: Vec<char> = Vec::new();
    push_decimal(&mut t, n as u64);
    push_str(&mut t, " Wildcard Certificate");
    push_str(&mut t, if n == 1 { "" } else { "s" });
    assert(t@ =~= decimal(w.len()) + " Wildcard Certificate"@ + plural(w.len()));
    Some(
        FindingDraft {
            title: string_of(&t),
            description: string_of(&d),
            recommendation: None,
            severity: "Low".to_owned(),
            category: "certificate".to_owned(),
            affected_asset: Some(hostname.to_owned()),
            status: "open".to_owned(),
        },
    )
}

/// An open port whose service disclosed a version.
pub open spec fn is_versioned(p: PortInfo) -> bool {
    p.state@ == "open"@ && p.version@.len() > 0
}

/// The service and version a port disclosed.
pub open spec fn service_version(p: PortInfo) -> (Seq<char>, Seq<char>) {
    (p.service@, p.version@)
}

/// The distinct (service, version) pairs disclosed by open ports, in the
/// order they first appear.
pub open spec fn version_pairs(ports: Seq<PortInfo>) -> Seq<(Seq<char>, Seq<char>)>
    decreases ports.len(),
{
    if ports.len() == 0 {
        seq![]
    } else {
        let prev = version_pairs(ports.drop_last());
        if is_versioned(ports.last()) && !prev.contains(service_version(ports.last())) {
            prev.push(service_version(ports.last()))
        } else {
            prev
        }
    }
}

/// The open ports that disclosed the service and version `sv`, in order.
pub open spec fn ports_disclosing(ports: Seq<PortInfo>, sv: (Seq<char>, Seq<char>)) -> Seq<PortInfo>
    decreases ports.len(),
{
    if ports.len() == 0 {
        seq![]
    } else if is_versioned(ports.last()) && service_version(ports.last()) == sv {
        ports_disclosing(ports.drop_last(), sv).push(ports.last())
    } else {
        ports_disclosing(ports.drop_last(), sv)
    }
}

/// The line listing one versioned service.
pub open spec fn version_line(p: PortInfo) -> Seq<char> {
    "- **"@ + decimal(p.port as nat) + "/"@ + p.protocol@ + "** \u{2014} "@ + p.service@ + " "@
        + p.version@ + "\n"@
}

/// The lines of the versioned services, one after the other.
pub open spec fn version_lines(ps: Seq<PortInfo>) -> Seq<char>
    decreases ps.len(),
{
    if ps.len() == 0 {
        seq![]
    } else {
        version_lines(ps.drop_last()) + version_line(ps.last())
    }
}

/// The advice filed with a version-disclosure finding.
pub open spec fn version_recommendation() -> Seq<char> {
    "Configure services to suppress version banners where possible:\n\n- **Apache**: `ServerTokens Prod` and `ServerSignature Off`\n- **Nginx**: `server_tokens off;`\n- **SSH**: Not easily suppressible \u{2014} keep software updated\n- **SMTP**: Configure to show generic banners\n\nWhere version suppression is not possible, ensure all services are patched to the latest stable release."@
}

/// The description of a version-disclosure finding listing the ports `ps`.
pub open spec fn version_description(ps: Seq<PortInfo>, target: Seq<char>, ip: Seq<char>) -> Seq<char> {
    "The following services on **"@ + target + "** ("@ + ip
        + ") disclose version information, which aids attackers in identifying known vulnerabilities:\n\n"@
        + version_lines(ps)
        + "\nVersion disclosure allows attackers to search for CVEs specific to the detected software versions."@
}

/// The finding filed for the service and version `sv` found on `ports` of
/// the host `target` at `ip`.
pub open spec fn is_version_finding(
    f: FindingDraft,
    sv: (Seq<char>, Seq<char>),
    ports: Seq<PortInfo>,
    target: Seq<char>,
    ip: Seq<char>,
) -> bool {
    &&& f.title@ == "Version Disclosure on "@ + target + ": "@ + sv.0 + " "@ + sv.1
    &&& f.description@ == version_description(ports_disclosing(ports, sv), target, ip)
    &&& f.recommendation matches Some(x) && x@ == version_recommendation()
    &&& f.severity@ == "low"@
    &&& f.category@ == "misconfig"@
    &&& f.affected_asset matches Some(a) && a@ == target + ":"@ + ip
    &&& f.status@ == "new"@
}

/// Each (service, version) pair is listed once, and exactly the pairs that
/// some open port disclosed are listed.
pub proof fn lemma_version_pairs_distinct(ports: Seq<PortInfo>)
    ensures
        version_pairs(ports).no_duplicates(),
        forall|sv: (Seq<char>, Seq<char>)|
            version_pairs(ports).contains(sv) <==> exists|i: int|
                0 <= i < ports.len() && is_versioned(#[trigger] ports[i]) && service_version(ports[i])
                    == sv,
    decreases ports.len(),
{
    if ports.len() > 0 {
        let init = ports.drop_last();
        let last = ports.last();
        lemma_version_pairs_distinct(init);
        assert forall|sv: (Seq<char>, Seq<char>)|
            version_pairs(ports).contains(sv) <==> exists|i: int|
                0 <= i < ports.len() && is_versioned(#[trigger] ports[i]) && service_version(ports[i])
                    == sv by {
            let prev = version_pairs(init);
            if is_versioned(last) && !prev.contains(service_version(last)) {
                assert(prev.push(service_version(last))[prev.len() as int] == service_version(last));
            }
            if version_pairs(ports).contains(sv) {
                if prev.contains(sv) {
                    let i = choose|i: int|
                        0 <= i < init.len() && is_versioned(#[trigger] init[i]) && service_version(
                            init[i],
                        ) == sv;
                    assert(ports[i] == init[i]);
                } else {
                    let j = choose|j: int|
                        0 <= j < version_pairs(ports).len() && version_pairs(ports)[j] == sv;
                    assert(version_pairs(ports) == prev.push(service_version(last)));
                    assert(ports[ports.len() - 1] == last);
                }
            }
            if exists|i: int|
                0 <= i < ports.len() && is_versioned(#[trigger] ports[i]) && service_version(ports[i])
                    == sv {
                let i = choose|i: int|
                    0 <= i < ports.len() && is_versioned(#[trigger] ports[i]) && service_version(
                        ports[i],
                    ) == sv;
                if i < ports.len() - 1 {
                    assert(init[i] == ports[i]);
                    assert(prev.contains(sv));
                    if is_versioned(last) && !prev.contains(service_version(last)) {
                        let j = choose|j: int| 0 <= j < prev.len() && prev[j] == sv;
                        assert(prev.push(service_version(last))[j] == sv);
                    }
                } else {
                    assert(last == ports[i]);
                    if prev.contains(sv) && is_versioned(last) && !prev.contains(service_version(last)) {
                        let j = choose|j: int| 0 <= j < prev.len() && prev[j] == sv;
                        assert(prev.push(service_version(last))[j] == sv);
                    }
                }
            }
        }
        let prev = version_pairs(init);
        if is_versioned(last) && !prev.contains(service_version(last)) {
            let q = prev.push(service_version(last));
            assert forall|a: int, b: int| 0 <= a < b < q.len() implies q[a] != q[b] by {
                if b == prev.len() {
                    assert(prev[a] == q[a]);
                }
            }
        }
    }
}

fn push_version_line(v: &mut Vec<char>, p: &PortInfo)
    ensures
        final(v)@ == old(v)@ + version_line(*p),
{
    let ghost start = v@;
    push_str(v, "- **");
    push_decimal(v, p.port);
    push_str(v, "/");
    push_str(v, p.protocol.as_str());
    push_str(v, "** \u{2014} ");
    push_str(v, p.service.as_str());
    push_str(v, " ");
    push_str(v, p.version.as_str());
    push_str(v, "\n");
    assert(v@ =~= start + version_line(*p));
}

fn versioned(p: &PortInfo) -> (r: bool)
    ensures
        r == is_versioned(*p),
{
    let st = chars_of(p.state.as_str());
    let ver = chars_of(p.version.as_str());
    eq_str(&st, "open") && ver.len() > 0
}

/// The views of a list of (service, version) pairs.
pub open spec fn pair_views(v: Seq<(Vec<char>, Vec<char>)>) -> Seq<(Seq<char>, Seq<char>)> {
    v.map_values(|q: (Vec<char>, Vec<char>)| (q.0@, q.1@))
}

/// The distinct (service, version) pairs disclosed by open ports.
fn distinct_version_pairs(ports: &Vec<PortInfo>) -> (r: Vec<(Vec<char>, Vec<char>)>)
    ensures
        pair_views(r@) == version_pairs(ports@),
{
    let mut pairs: Vec<(Vec<char>, Vec<char>)> = Vec::new();
    let n = ports.len();
    assert(ports@.take(0) =~= Seq::<PortInfo>::empty());
    for i in 0..n
        invariant
            n == ports@.len(),
            pair_views(pairs@) == version_pairs(ports@.take(i as int)),
    {
        assert(ports@.take(i + 1).drop_last() =~= ports@.take(i as int));
        assert(ports@.take(i + 1).last() == ports@[i as int]);
        let p = &ports[i];
        if versioned(p) {
            let svc = chars_of(p.service.as_str());
            let ver = chars_of(p.version.as_str());
            let ghost sv = (svc@, ver@);
            let mut seen = false;
            let m = pairs.len();
            for j in 0..m
                invariant
                    m == pairs@.len(),
                    sv == (svc@, ver@),
                    seen <==> exists|jj: int| 0 <= jj < j && pair_views(pairs@)[jj] == sv,
            {
                assert(pair_views(pairs@)[j as int] == (pairs@[j as int].0@, pairs@[j as int].1@));
                if seq_eq(&pairs[j].0, &svc) && seq_eq(&pairs[j].1, &ver) {
                    seen = true;
                }
            }
            assert(seen <==> pair_views(pairs@).contains(sv));
            if !seen {
                pairs.push((svc, ver));
                assert(pair_views(pairs@) =~= version_pairs(ports@.take(i as int)).push(sv));
            }
        }
    }
    assert(ports@.take(n as int) =~= ports@);
    pairs
}

/// The finding for one (service, version) pair.
fn version_finding(
    ports: &Vec<PortInfo>,
    svc: &Vec<char>,
    ver: &Vec<char>,
    target: &str,
    ip: &str,
) -> (r: FindingDraft)
    ensures
        is_version_finding(r, (svc@, ver@), ports@, target@, ip@),
{
    let ghost sv = (svc@, ver@);
    let mut lines: Vec<char> = Vec::new();
    let n = ports.len();
    assert(ports@.take(0) =~= Seq::<PortInfo>::empty());
    for i in 0..n
        invariant
            n == ports@.len(),
            sv == (svc@, ver@),
            lines@ == version_lines(ports_disclosing(ports@.take(i as int), sv)),
    {
        assert(ports@.take(i + 1).drop_last() =~= ports@.take(i as int));
        assert(ports@.take(i + 1).last() == ports@[i as int]);
        let p = &ports[i];
        if versioned(p) {
            let s = chars_of(p.service.as_str());
            let v = chars_of(p.version.as_str());
            if seq_eq(&s, svc) && seq_eq(&v, ver) {
                push_version_line(&mut lines, p);
                assert(ports_disclosing(ports@.take(i + 1), sv).drop_last() =~= ports_disclosing(
                    ports@.take(i as int),
                    sv,
                ));
            }
        }
    }
    assert(ports@.take(n as int) =~= ports@);
    let mut d: Vec<char> = Vec::new();
    push_str(&mut d, "The following services on **");
    push_str(&mut d, target);
    push_str(&mut d, "** (");
    push_str(&mut d, ip);
    push_str(
        &mut d,
        ") disclose version information, which aids attackers in identifying known vulnerabilities:\n\n",
    );
    push_all(&mut d, &lines);
    push_str(
        &mut d,
        "\nVersion disclosure allows attackers to search for CVEs specific to the detected software versions.",
    );
    assert(d@ =~= version_description(ports_disclosing(ports@, sv), target@, ip@));
    let mut t: Vec<char> = Vec::new();
    push_str(&mut t, "Version Disclosure on ");
    push_str(&mut t, target);
    push_str(&mut t, ": ");
    push_all(&mut t, svc);
    push_str(&mut t, " ");
    push_all(&mut t, ver);
    assert(t@ =~= "Version Disclosure on "@ + target@ + ": "@ + svc@ + " "@ + ver@);
    let mut a: Vec<char> = Vec::new();
    push_str(&mut a, target);
    push_str(&mut a, ":");
    push_str(&mut a, ip);
    assert(a@ =~= target@ + ":"@ + ip@);
    let rec: &str = "Configure services to suppress version banners where possible:\n\n- **Apache**: `ServerTokens Prod` and `ServerSignature Off`\n- **Nginx**: `server_tokens off;`\n- **SSH**: Not easily suppressible \u{2014} keep software updated\n- **SMTP**: Configure to show generic banners\n\nWhere version suppression is not possible, ensure all services are patched to the latest stable release.";
    FindingDraft {
        title: string_of(&t),
        description: string_of(&d),
        recommendation: Some(rec.to_owned()),
        severity: "low".to_owned(),
        category: "misconfig".to_owned(),
        affected_asset: Some(string_of(&a)),
        status: "new".to_owned(),
    }
}

/// The findings filed when open services on a scanned host disclose their
/// versions: one for each distinct service and version, in the order they
/// first appear, listing the ports that disclosed it; none when no open
/// service does.
pub fn version_disclosure_findings(ports: &Vec<PortInfo>, target: &str, ip: &str) -> (r: Vec<
    FindingDraft,
>)
    ensures
        r@.len() == version_pairs(ports@).len(),
        forall|k: int|
            0 <= k < r@.len() ==> is_version_finding(
                #[trigger] r@[k],
                version_pairs(ports@)[k],
                ports@,
                target@,
                ip@,
            ),
{
    let pairs = distinct_version_pairs(ports);
    let mut out: Vec<FindingDraft> = Vec::new();
    let m = pairs.len();
    for k in 0..m
        invariant
            m == pairs@.len(),
            pair_views(pairs@) == version_pairs(ports@),
            out@.len() == k,
            forall|j: int|
                0 <= j < k ==> is_version_finding(
                    #[trigger] out@[j],
                    version_pairs(ports@)[j],
                    ports@,
                    target@,
                    ip@,
                ),
    {
        assert(pair_views(pairs@)[k as int] == (pairs@[k as int].0@, pairs@[k as int].1@));
        let f = version_finding(ports, &pairs[k].0, &pairs[k].1, target, ip);
        out.push(f);
    }
    out
}

} // verus!

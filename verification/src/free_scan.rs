//! The free scan: who may see its results, and how the port scans of the
//! addresses it found are gathered, one group per address.
use vstd::prelude::*;

use crate::text::{
    chars_of, contains_chars, ends_with, ends_with_chars, lemma_sorted_members, seq_eq, sorted_insert,
    sorted_members, string_of, strictly_sorted, views,
};

verus! {

/// The results of a free scan are shown to the browser that started it
/// (it holds the run's token) and to platform admins; anyone else is
/// refused.
pub fn may_view_results(has_token: bool, is_platform_admin: bool) -> (r: bool)
    ensures
        r == (has_token || is_platform_admin),
{
    has_token || is_platform_admin
}

/// The name of the free scan's job definition.
pub fn free_scan_definition_name(domain: &str) -> (r: String)
    ensures
        r@ == "Free scan: "@ + domain@,
{
    let mut v: Vec<char> = Vec::new();
    crate::text::push_str(&mut v, "Free scan: ");
    crate::text::push_str(&mut v, domain);
    string_of(&v)
}

/// What the latest runs of a port-scan definition left.
#[derive(Clone, Debug)]
pub enum DefinitionResult {
    /// A completed run whose summary could be read: the address it names
    /// (when a string), its open-port count (when a number), and how many
    /// ports it lists.
    Completed { ip: Option<String>, total_open: Option<u64>, port_count: usize },
    /// No completed run, but a failed one.
    Failed,
    /// Nothing to show.
    Nothing,
}

/// A port-scan definition of the scanning organisation.
#[derive(Clone, Debug)]
pub struct PortScanDefinition {
    /// The subdomain it was queued for (empty when none).
    pub subdomain: String,
    /// The host it scans (empty when none).
    pub hostname: String,
    /// Whether a run is queued or running.
    pub pending: bool,
    /// Whether that run is stuck.
    pub stuck: bool,
    pub result: DefinitionResult,
}

/// A definition belongs to the free scan of `domain` when its subdomain is
/// under or equal to the domain, or it scans the domain itself.
pub open spec fn relevant(d: PortScanDefinition, domain: Seq<char>) -> bool {
    ends_with(d.subdomain@, domain) || d.subdomain@ == domain || d.hostname@ == domain
}

/// A relevant definition whose run is still going (and not stuck) keeps the
/// page refreshing and shows nothing yet.
pub open spec fn still_running(d: PortScanDefinition, domain: Seq<char>) -> bool {
    relevant(d, domain) && d.pending && !d.stuck
}

/// What a definition adds to the page: the address it is grouped under, its
/// subdomain, and for a completed run its port count and open-port count.
pub open spec fn contribution(d: PortScanDefinition, domain: Seq<char>) -> Option<
    (Seq<char>, Seq<char>, Option<(nat, u64)>),
> {
    if !relevant(d, domain) || still_running(d, domain) {
        None
    } else {
        match d.result {
            DefinitionResult::Completed { ip, total_open, port_count } => {
                let key = match ip {
                    Some(a) => if a@.len() > 0 {
                        a@
                    } else {
                        d.hostname@
                    },
                    None => d.hostname@,
                };
                let total = match total_open {
                    Some(t) => t,
                    None => 0,
                };
                if key.len() == 0 && total == 0 {
                    None
                } else {
                    Some((key, d.subdomain@, Some((port_count as nat, total))))
                }
            },
            DefinitionResult::Failed => Some((d.hostname@, d.subdomain@, None)),
            DefinitionResult::Nothing => None,
        }
    }
}

/// The address a definition is grouped under, if it adds to the page.
pub open spec fn contribution_key(d: PortScanDefinition, domain: Seq<char>) -> Option<Seq<char>> {
    match contribution(d, domain) {
        Some((k, _, _)) => Some(k),
        None => None,
    }
}

/// The addresses the page shows.
pub open spec fn group_keys(defs: Seq<PortScanDefinition>, domain: Seq<char>) -> Set<Seq<char>> {
    Set::new(
        |k: Seq<char>|
            exists|i: int|
                0 <= i < defs.len() && #[trigger] contribution_key(defs[i], domain) == Some(k),
    )
}

/// The subdomains listed for address `key`: each non-empty one once, in the
/// order the definitions give them.
pub open spec fn group_subdomains(defs: Seq<PortScanDefinition>, domain: Seq<char>, key: Seq<char>) -> Seq<
    Seq<char>,
>
    decreases defs.len(),
{
    if defs.len() == 0 {
        seq![]
    } else {
        let before = group_subdomains(defs.drop_last(), domain, key);
        match contribution(defs.last(), domain) {
            Some((k, sub, _)) => if k == key && sub.len() > 0 && !before.contains(sub) {
                before.push(sub)
            } else {
                before
            },
            None => before,
        }
    }
}

/// The ports shown for address `key`: those of the first completed run that
/// lists the most ports (none when no run lists any), as its position, port
/// count and open-port count.
pub open spec fn group_ports(defs: Seq<PortScanDefinition>, domain: Seq<char>, key: Seq<char>) -> (
    Option<int>,
    nat,
    u64,
)
    decreases defs.len(),
{
    if defs.len() == 0 {
        (None, 0, 0)
    } else {
        let before = group_ports(defs.drop_last(), domain, key);
        match contribution(defs.last(), domain) {
            Some((k, _, Some((count, total)))) => if k == key && count > before.1 {
                (Some(defs.len() - 1), count, total)
            } else {
                before
            },
            _ => before,
        }
    }
}

/// One address of the free-scan page.
#[derive(Clone, Debug)]
pub struct PortScanGroup {
    pub ip: String,
    pub subdomains: Vec<String>,
    /// The definition whose latest run's ports are shown.
    pub ports_from: Option<usize>,
    pub total_open: u64,
}

/// The page's port-scan section: one group per address, in `String` order
/// of the addresses, and whether some scan is still running.
pub struct PortScanPage {
    pub groups: Vec<PortScanGroup>,
    pub any_running: bool,
}

fn contribution_of(d: &PortScanDefinition, domain: &Vec<char>) -> (r: Option<
    (Vec<char>, Vec<char>, Option<(usize, u64)>),
>)
    ensures
        match r {
            Some((k, s, p)) => contribution(*d, domain@) == Some(
                (
                    k@,
                    s@,
                    match p {
                        Some((c, t)) => Some((c as nat, t)),
                        None => None,
                    },
                ),
            ),
            None => contribution(*d, domain@) is None,
        },
{
    let sub = chars_of(d.subdomain.as_str());
    let host = chars_of(d.hostname.as_str());
    let rel = ends_with_chars(&sub, domain) || seq_eq(&sub, domain) || seq_eq(&host, domain);
    if !rel || (d.pending && !d.stuck) {
        return None;
    }
    match &d.result {
        DefinitionResult::Completed { ip, total_open, port_count } => {
            let key = match ip {
                Some(a) => {
                    let av = chars_of(a.as_str());
                    if av.len() > 0 {
                        av
                    } else {
                        host
                    }
                },
                None => host,
            };
            let total = match total_open {
                Some(t) => *t,
                None => 0,
            };
            if key.len() == 0 && total == 0 {
                None
            } else {
                Some((key, sub, Some((*port_count, total))))
            }
        },
        DefinitionResult::Failed => Some((host, sub, None)),
        DefinitionResult::Nothing => None,
    }
}

fn subdomains_for(defs: &Vec<PortScanDefinition>, domain: &Vec<char>, key: &Vec<char>) -> (r: Vec<
    String,
>)
    ensures
        r@.map_values(|s: String| s@) == group_subdomains(defs@, domain@, key@),
{
    let mut r: Vec<String> = Vec::new();
    let mut seen: Vec<Vec<char>> = Vec::new();
    let n = defs.len();
    assert(defs@.take(0) =~= Seq::<PortScanDefinition>::empty());
    for i in 0..n
        invariant
            n == defs@.len(),
            r@.map_values(|s: String| s@) == group_subdomains(defs@.take(i as int), domain@, key@),
            views(seen@) == group_subdomains(defs@.take(i as int), domain@, key@),
    {
        assert(defs@.take(i + 1).drop_last() =~= defs@.take(i as int));
        assert(defs@.take(i + 1).last() == defs@[i as int]);
        match contribution_of(&defs[i], domain) {
            Some((k, sub, _)) => {
                if seq_eq(&k, key) && sub.len() > 0 && !contains_chars(&seen, &sub) {
                    let ghost before = r@.map_values(|s: String| s@);
                    let ghost before_seen = views(seen@);
                    r.push(string_of(&sub));
                    seen.push(sub);
                    assert(r@.map_values(|s: String| s@) =~= before.push(views(seen@).last()));
                    assert(views(seen@) =~= before_seen.push(views(seen@).last()));
                }
            },
            None => {},
        }
    }
    assert(defs@.take(n as int) =~= defs@);
    r
}

fn ports_for(defs: &Vec<PortScanDefinition>, domain: &Vec<char>, key: &Vec<char>) -> (r: (
    Option<usize>,
    usize,
    u64,
))
    ensures
        group_ports(defs@, domain@, key@) == (
            match r.0 {
                Some(i) => Some(i as int),
                None => None::<int>,
            },
            r.1 as nat,
            r.2,
        ),
{
    let mut best: Option<usize> = None;
    let mut count: usize = 0;
    let mut total: u64 = 0;
    let n = defs.len();
    assert(defs@.take(0) =~= Seq::<PortScanDefinition>::empty());
    for i in 0..n
        invariant
            n == defs@.len(),
            group_ports(defs@.take(i as int), domain@, key@) == (
                match best {
                    Some(b) => Some(b as int),
                    None => None::<int>,
                },
                count as nat,
                total,
            ),
    {
        assert(defs@.take(i + 1).drop_last() =~= defs@.take(i as int));
        assert(defs@.take(i + 1).last() == defs@[i as int]);
        match contribution_of(&defs[i], domain) {
            Some((k, _, Some((c, t)))) => {
                if seq_eq(&k, key) && c > count {
                    best = Some(i);
                    count = c;
                    total = t;
                }
            },
            _ => {},
        }
    }
    assert(defs@.take(n as int) =~= defs@);
    (best, count, total)
}

/// Gathers the port scans of the addresses a free scan of `domain` found:
/// one group per address, in `String` order, each listing its subdomains and
/// the ports of its most complete scan; and whether a relevant scan is
/// still running (those are not shown yet).
pub fn collect_port_scans(defs: &Vec<PortScanDefinition>, domain: &str) -> (r: PortScanPage)
    ensures
        strictly_sorted(r.groups@.map_values(|g: PortScanGroup| g.ip@)),
        r.groups@.map_values(|g: PortScanGroup| g.ip@) == sorted_members(group_keys(defs@, domain@)),
        forall|i: int|
            0 <= i < r.groups@.len() ==> {
                let g = #[trigger] r.groups@[i];
                &&& g.subdomains@.map_values(|s: String| s@) == group_subdomains(defs@, domain@, g.ip@)
                &&& group_ports(defs@, domain@, g.ip@).0 == match g.ports_from {
                    Some(x) => Some(x as int),
                    None => None::<int>,
                }
                &&& group_ports(defs@, domain@, g.ip@).2 == g.total_open
            },
        r.any_running == exists|i: int| 0 <= i < defs@.len() && still_running(#[trigger] defs@[i], domain@),
{
    let dv = chars_of(domain);
    let mut keys: Vec<Vec<char>> = Vec::new();
    let mut any_running = false;
    let n = defs.len();
    for i in 0..n
        invariant
            n == defs@.len(),
            dv@ == domain@,
            strictly_sorted(views(keys@)),
            forall|k: Seq<char>| views(keys@).contains(k) <==> exists|j: int|
                0 <= j < i && #[trigger] contribution_key(defs@[j], domain@) == Some(k),
            any_running == exists|j: int| 0 <= j < i && still_running(#[trigger] defs@[j], domain@),
    {
        let d = &defs[i];
        let sub = chars_of(d.subdomain.as_str());
        let host = chars_of(d.hostname.as_str());
        let rel = ends_with_chars(&sub, &dv) || seq_eq(&sub, &dv) || seq_eq(&host, &dv);
        if rel && d.pending && !d.stuck {
            any_running = true;
        }
        let ghost before = views(keys@);
        match contribution_of(d, &dv) {
            Some((k, _, _)) => {
                sorted_insert(&mut keys, k);
            },
            None => {},
        }
        proof {
            assert forall|k: Seq<char>| views(keys@).contains(k) <==> exists|j: int|
                0 <= j < i + 1 && #[trigger] contribution_key(defs@[j], domain@) == Some(k) by {
                if views(keys@).contains(k) {
                    assert(views(keys@).to_set().contains(k));
                    if before.contains(k) {
                        let j = choose|j: int|
                            0 <= j < i && #[trigger] contribution_key(defs@[j], domain@) == Some(k);
                    } else {
                        assert(contribution_key(defs@[i as int], domain@) == Some(k));
                    }
                }
                if exists|j: int|
                    0 <= j < i + 1 && #[trigger] contribution_key(defs@[j], domain@) == Some(k) {
                    let j = choose|j: int|
                        0 <= j < i + 1 && #[trigger] contribution_key(defs@[j], domain@) == Some(k);
                    if j < i {
                        assert(before.contains(k));
                        assert(before.to_set().contains(k));
                        assert(views(keys@).to_set().contains(k));
                    } else {
                        assert(contribution_key(defs@[i as int], domain@) == Some(k));
                        assert(views(keys@).to_set().contains(k));
                    }
                }
            }
        }
    }
    proof {
        assert(views(keys@).to_set() =~= group_keys(defs@, domain@));
        lemma_sorted_members(views(keys@));
    }
    let mut groups: Vec<PortScanGroup> = Vec::new();
    let m = keys.len();
    for t in 0..m
        invariant
            m == keys@.len(),
            dv@ == domain@,
            groups@.map_values(|g: PortScanGroup| g.ip@) == views(keys@).take(t as int),
            forall|i: int|
                0 <= i < groups@.len() ==> {
                    let g = #[trigger] groups@[i];
                    &&& g.subdomains@.map_values(|s: String| s@) == group_subdomains(
                        defs@,
                        domain@,
                        g.ip@,
                    )
                    &&& group_ports(defs@, domain@, g.ip@).0 == match g.ports_from {
                        Some(x) => Some(x as int),
                        None => None::<int>,
                    }
                    &&& group_ports(defs@, domain@, g.ip@).2 == g.total_open
                },
    {
        let subs = subdomains_for(defs, &dv, &keys[t]);
        let (from, _, total) = ports_for(defs, &dv, &keys[t]);
        let ip = string_of(&keys[t]);
        let ghost before = groups@.map_values(|g: PortScanGroup| g.ip@);
        groups.push(PortScanGroup { ip, subdomains: subs, ports_from: from, total_open: total });
        assert(groups@.map_values(|g: PortScanGroup| g.ip@) =~= before.push(keys@[t as int]@));
        assert(views(keys@).take(t + 1) =~= views(keys@).take(t as int).push(views(keys@)[t as int]));
    }
    assert(views(keys@).take(m as int) =~= views(keys@));
    PortScanPage { groups, any_running }
}

proof fn lemma_group_subdomains_grow(
    defs: Seq<PortScanDefinition>,
    domain: Seq<char>,
    key: Seq<char>,
    k: int,
    sub: Seq<char>,
)
    requires
        0 <= k <= defs.len(),
        group_subdomains(defs.take(k), domain, key).contains(sub),
    ensures
        group_subdomains(defs, domain, key).contains(sub),
    decreases defs.len() - k,
{
    if k < defs.len() {
        let before = group_subdomains(defs.take(k), domain, key);
        let after = group_subdomains(defs.take(k + 1), domain, key);
        assert(defs.take(k + 1).drop_last() =~= defs.take(k));
        let t = choose|t: int| 0 <= t < before.len() && before[t] == sub;
        if after != before {
            assert(after[t] == sub);
        }
        lemma_group_subdomains_grow(defs, domain, key, k + 1, sub);
    } else {
        assert(defs.take(k) =~= defs);
    }
}

/// Scans of several subdomains that resolve to the same address are shown
/// together: every subdomain whose scan is shown is listed under its
/// address.
pub proof fn lemma_subdomains_listed_under_their_address(
    defs: Seq<PortScanDefinition>,
    domain: Seq<char>,
    i: int,
)
    requires
        0 <= i < defs.len(),
        contribution(defs[i], domain) is Some,
        defs[i].subdomain@.len() > 0,
    ensures
        group_keys(defs, domain).contains(contribution_key(defs[i], domain)->0),
        group_subdomains(defs, domain, contribution_key(defs[i], domain)->0).contains(
            defs[i].subdomain@,
        ),
{
    let key = contribution_key(defs[i], domain)->0;
    let sub = defs[i].subdomain@;
    assert((contribution(defs[i], domain)->0).1 == sub);
    let pre = defs.take(i + 1);
    assert(pre.drop_last() =~= defs.take(i));
    assert(pre.last() == defs[i]);
    let before = group_subdomains(defs.take(i), domain, key);
    let after = group_subdomains(pre, domain, key);
    if before.contains(sub) {
        assert(after == before);
    } else {
        assert(after == before.push(sub));
        assert(after[before.len() as int] == sub);
    }
    lemma_group_subdomains_grow(defs, domain, key, i + 1, sub);
}

/// The subdomains of a group as the page lists them: joined by commas.
pub open spec fn joined(subs: Seq<Seq<char>>) -> Seq<char>
    decreases subs.len(),
{
    if subs.len() == 0 {
        seq![]
    } else if subs.len() == 1 {
        subs[0]
    } else {
        joined(subs.drop_last()) + ", "@ + subs.last()
    }
}

/// Joins the subdomains of a group by commas.
pub fn join_subdomains(subs: &Vec<String>) -> (r: String)
    ensures
        r@ == joined(subs@.map_values(|s: String| s@)),
{
    let ghost sv = subs@.map_values(|s: String| s@);
    let mut v: Vec<char> = Vec::new();
    let n = subs.len();
    for i in 0..n
        invariant
            n == subs@.len(),
            sv == subs@.map_values(|s: String| s@),
            v@ == joined(sv.take(i as int)),
    {
        let ghost before = sv.take(i as int);
        let ghost after = sv.take(i + 1);
        assert(after.drop_last() =~= before);
        assert(after.last() == subs@[i as int]@);
        if i > 0 {
            crate::text::push_str(&mut v, ", ");
        }
        crate::text::push_str(&mut v, subs[i].as_str());
        proof {
            if i == 0 {
                assert(v@ =~= after[0]);
            } else {
                assert(v@ =~= joined(before) + ", "@ + after.last());
            }
        }
    }
    assert(sv.take(n as int) =~= sv);
    string_of(&v)
}

/// The status the free-scan page shows for a completed subdomain scan:
/// `port_scanning` while some port scan of it is still running.
pub fn completed_page_status(any_running: bool) -> (r: &'static str)
    ensures
        r@ == if any_running {
            "port_scanning"@
        } else {
            "completed"@
        },
{
    if any_running {
        "port_scanning"
    } else {
        "completed"
    }
}

/// The text shown when a free-scan domain is refused.
pub fn invalid_domain_message() -> (r: &'static str)
    ensures
        r@ == "Please enter a valid domain name (e.g. example.com)."@,
{
    "Please enter a valid domain name (e.g. example.com)."
}

/// The status the free-scan page shows for a run: a completed run shows
/// `port_scanning` while its port scans run; any other status as it is.
pub fn results_page_status(run_status: &str, any_running: bool) -> (r: String)
    ensures
        r@ == if run_status@ == "completed"@ {
            if any_running {
                "port_scanning"@
            } else {
                "completed"@
            }
        } else {
            run_status@
        },
{
    let st = chars_of(run_status);
    if crate::text::eq_str(&st, "completed") {
        completed_page_status(any_running).to_owned()
    } else {
        run_status.to_owned()
    }
}

/// The cookie that lets the starting browser see a free scan's results.
pub struct ScanCookie {
    pub name: &'static str,
    pub value: String,
    pub path: String,
    pub http_only: bool,
    /// The `SameSite` attribute.
    pub same_site: &'static str,
    pub secure: bool,
}

/// The cookie for run `run_pid`: readable only by the server, sent only to
/// the run's page, sent on top-level navigations from other sites but not
/// on their subrequests (`SameSite=Lax`), and marked secure when the site
/// is served over HTTPS.
pub fn free_scan_cookie(run_pid: &str, server_host: &str) -> (r: ScanCookie)
    ensures
        r.name@ == "free_scan_token"@,
        r.value@ == run_pid@,
        r.path@ == "/free-scan/"@ + run_pid@,
        r.http_only,
        r.same_site@ == "Lax"@,
        r.secure == crate::text::starts_with(server_host@, "https"@),
{
    let mut p: Vec<char> = Vec::new();
    crate::text::push_str(&mut p, "/free-scan/");
    crate::text::push_str(&mut p, run_pid);
    let host = chars_of(server_host);
    ScanCookie {
        name: "free_scan_token",
        value: run_pid.to_owned(),
        path: string_of(&p),
        http_only: true,
        same_site: "Lax",
        secure: crate::text::starts_with_str(&host, "https"),
    }
}

} // verus!

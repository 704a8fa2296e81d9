//! Scan targets: the checks when one is added, the scans queued for it, its
//! scan schedule, and the scan states shown on its page.
use vstd::prelude::*;

use crate::hostname::{hostname_verdict, validate_hostname, HostnameError};
use crate::ip::{check_ip_address, ip_verdict, IpAddress, IpError};
use crate::plans::{includes_scans_and_reports, plan_label, scheduling_allowed, target_limit, PlanTier};
use crate::text::{chars_of, contains_str, decimal, eq_str, normalize, normalized, push_all,
    push_decimal, push_str, starts_with, starts_with_str, string_of, contains_seq};

verus! {

/// Why a target request was refused.
#[derive(Clone, Debug, PartialEq, Eq)]
pub enum TargetError {
    /// The plan's target limit is reached: the plan's label and its limit.
    LimitReached { plan: String, max: u64 },
    /// The host name is not acceptable.
    Hostname(HostnameError),
    /// The IP address is not acceptable.
    Ip(IpError),
    /// Neither a host name nor an address was given.
    MissingTarget,
    /// The target has neither a host name nor an address to scan.
    NothingToScan,
    /// Port scans need a paid plan.
    PortScansUnavailable,
    /// Schedules need a paid plan.
    SchedulingUnavailable,
}

/// The text of each refusal.
pub open spec fn target_error_text(e: TargetError) -> Seq<char> {
    match e {
        TargetError::LimitReached { plan, max } => "Your "@ + plan@ + " plan allows up to "@
            + decimal(max as nat) + " target"@ + (if max == 1 {
            ""@
        } else {
            "s"@
        }) + ". Upgrade to add more."@,
        TargetError::Hostname(h) => crate::hostname::hostname_error_text(h),
        TargetError::Ip(i) => crate::ip::ip_error_text(i),
        TargetError::MissingTarget => "Either hostname or IP address must be provided"@,
        TargetError::NothingToScan => "Target has no hostname or IP"@,
        TargetError::PortScansUnavailable => "Port scans require a paid plan. Upgrade to scan ports."@,
        TargetError::SchedulingUnavailable => "Scheduled scans require a Pro or Enterprise plan."@,
    }
}

impl TargetError {
    /// The message shown to the user.
    pub fn message(&self) -> (r: String)
        ensures
            r@ == target_error_text(*self),
    {
        match self {
            TargetError::LimitReached { plan, max } => {
                let mut v: Vec<char> = Vec::new();
                push_str(&mut v, "Your ");
                push_str(&mut v, plan.as_str());
                push_str(&mut v, " plan allows up to ");
                push_decimal(&mut v, *max);
                push_str(&mut v, " target");
                push_str(&mut v, if *max == 1 { "" } else { "s" });
                push_str(&mut v, ". Upgrade to add more.");
                string_of(&v)
            },
            TargetError::Hostname(h) => h.message().to_owned(),
            TargetError::Ip(i) => i.message().to_owned(),
            TargetError::MissingTarget => "Either hostname or IP address must be provided".to_owned(),
            TargetError::NothingToScan => "Target has no hostname or IP".to_owned(),
            TargetError::PortScansUnavailable => "Port scans require a paid plan. Upgrade to scan ports.".to_owned(),
            TargetError::SchedulingUnavailable => "Scheduled scans require a Pro or Enterprise plan.".to_owned(),
        }
    }
}

/// The verdict on a new target once the plan's limit is met, in the order
/// the checks run: the host name (trimmed and lowercased), the address
/// (already parsed), and that one of them was given.
pub open spec fn target_fields_verdict(hostname: Option<Seq<char>>, ip_given: bool, ip: Option<IpAddress>) -> Result<
    (),
    TargetError,
> {
    let host = match hostname {
        Some(h) => hostname_verdict(normalized(h)),
        None => Ok(()),
    };
    let addr = if ip_given {
        ip_verdict(ip)
    } else {
        Ok(())
    };
    match host {
        Err(e) => Err(TargetError::Hostname(e)),
        Ok(()) => match addr {
            Err(e) => Err(TargetError::Ip(e)),
            Ok(()) => if hostname is None && !ip_given {
                Err(TargetError::MissingTarget)
            } else {
                Ok(())
            },
        },
    }
}

/// Checks a new target: `existing` targets already, the plan's limit `max`
/// (none for unlimited plans) and label, the host name given, and whether
/// an address was given with what parsing its trimmed text gave. The limit
/// is checked first.
pub fn check_new_target(
    existing: u64,
    max: Option<u64>,
    plan_label: &str,
    hostname: Option<&str>,
    ip_given: bool,
    ip: Option<IpAddress>,
) -> (r: Result<(), TargetError>)
    ensures
        max is Some && existing >= max->0 ==> (r matches Err(
            TargetError::LimitReached { plan: p, max: n },
        ) && p@ == plan_label@ && n == max->0),
        !(max is Some && existing >= max->0) ==> r == target_fields_verdict(
            match hostname {
                Some(h) => Some(h@),
                None => None,
            },
            ip_given,
            ip,
        ),
{
    match max {
        Some(m) => if existing >= m {
            return Err(TargetError::LimitReached { plan: plan_label.to_owned(), max: m });
        },
        None => {},
    }
    match hostname {
        Some(h) => match validate_hostname(h) {
            Ok(()) => {},
            Err(e) => {
                return Err(TargetError::Hostname(e));
            },
        },
        None => {},
    }
    if ip_given {
        match check_ip_address(ip) {
            Ok(()) => {},
            Err(e) => {
                return Err(TargetError::Ip(e));
            },
        }
    }
    if hostname.is_none() && !ip_given {
        return Err(TargetError::MissingTarget);
    }
    Ok(())
}

/// Checks a new target for an organisation on plan `tier` that holds
/// `existing` targets: the plan's target limit first, then the host name
/// and address as `check_new_target` does.
pub fn check_new_target_on_plan(
    tier: PlanTier,
    existing: u64,
    hostname: Option<&str>,
    ip_given: bool,
    ip: Option<IpAddress>,
) -> (r: Result<(), TargetError>)
    ensures
        target_limit(tier) is Some && existing >= target_limit(tier)->0 ==> (r matches Err(
            TargetError::LimitReached { plan: p, max: n },
        ) && p@ == plan_label(tier) && n == target_limit(tier)->0),
        !(target_limit(tier) is Some && existing >= target_limit(tier)->0) ==> r
            == target_fields_verdict(
            match hostname {
                Some(h) => Some(h@),
                None => None,
            },
            ip_given,
            ip,
        ),
{
    check_new_target(existing, tier.max_targets(), tier.label(), hostname, ip_given, ip)
}

/// The subdomain-scan definition queued for a new target with a host name:
/// named `ASM: ` and the trimmed, lowercased host name. There is none on the
/// Free plan, which has no subdomain scans, nor when the host name is empty.
pub fn asm_definition_for(tier: PlanTier, hostname: &str) -> (r: Option<(String, String)>)
    ensures
        match r {
            Some((name, host)) => includes_scans_and_reports(tier) && normalized(hostname@).len() > 0
                && host@ == normalized(hostname@) && name@ == "ASM: "@ + normalized(hostname@),
            None => !includes_scans_and_reports(tier) || normalized(hostname@).len() == 0,
        },
{
    if tier.is_free() {
        return None;
    }
    let h = normalize(hostname);
    if h.len() == 0 {
        return None;
    }
    let mut name: Vec<char> = Vec::new();
    push_str(&mut name, "ASM: ");
    push_all(&mut name, &h);
    Some((string_of(&name), string_of(&h)))
}

/// What a target is scanned as: its host name, or else its address.
pub fn scan_subject(hostname: Option<&str>, ip_address: Option<&str>) -> (r: Result<
    String,
    TargetError,
>)
    ensures
        match (hostname, ip_address) {
            (Some(h), _) => r matches Ok(s) && s@ == h@,
            (None, Some(a)) => r matches Ok(s) && s@ == a@,
            (None, None) => r == Err::<String, TargetError>(TargetError::NothingToScan),
        },
{
    match hostname {
        Some(h) => Ok(h.to_owned()),
        None => match ip_address {
            Some(a) => Ok(a.to_owned()),
            None => Err(TargetError::NothingToScan),
        },
    }
}

/// The name of a target's port-scan definition.
pub fn port_scan_definition_name(subject: &str) -> (r: String)
    ensures
        r@ == "Port Scan: "@ + subject@,
{
    let mut v: Vec<char> = Vec::new();
    push_str(&mut v, "Port Scan: ");
    push_str(&mut v, subject);
    string_of(&v)
}

/// Manual port scans are refused on the Free plan, which has none.
pub fn check_manual_scan(tier: PlanTier) -> (r: Result<(), TargetError>)
    ensures
        r is Ok <==> includes_scans_and_reports(tier),
        r matches Err(e) ==> e == TargetError::PortScansUnavailable,
{
    if tier.is_free() {
        Err(TargetError::PortScansUnavailable)
    } else {
        Ok(())
    }
}

/// Schedules are set only on plans that allow them (Pro and Enterprise).
pub fn check_scheduling(tier: PlanTier) -> (r: Result<(), TargetError>)
    ensures
        r is Ok <==> scheduling_allowed(tier),
        r matches Err(e) ==> e == TargetError::SchedulingUnavailable,
{
    if tier.scheduling_enabled() {
        Ok(())
    } else {
        Err(TargetError::SchedulingUnavailable)
    }
}

/// The cron expression stored for a schedule choice; `off` and anything
/// unknown clear the schedule.
pub open spec fn schedule_cron(choice: Seq<char>) -> Option<Seq<char>> {
    if choice == "daily"@ {
        Some("0 3 * * *"@)
    } else if choice == "weekly"@ {
        Some("0 3 * * 1"@)
    } else if choice == "monthly"@ {
        Some("0 3 1 * *"@)
    } else {
        None
    }
}

/// The cron expression for a schedule choice: daily, weekly (Mondays) and
/// monthly (the 1st) scans run at 3 AM.
pub fn schedule_value(choice: &str) -> (r: Option<String>)
    ensures
        match r {
            Some(c) => schedule_cron(choice@) == Some(c@),
            None => schedule_cron(choice@) is None,
        },
{
    let c = chars_of(choice);
    if eq_str(&c, "daily") {
        Some("0 3 * * *".to_owned())
    } else if eq_str(&c, "weekly") {
        Some("0 3 * * 1".to_owned())
    } else if eq_str(&c, "monthly") {
        Some("0 3 1 * *".to_owned())
    } else {
        None
    }
}

/// The label shown for a stored cron expression: checked in this order.
pub open spec fn schedule_label_of(cron: Seq<char>) -> Seq<char> {
    if contains_seq(cron, "* * *"@) && starts_with(cron, "0 3"@) {
        "daily"@
    } else if contains_seq(cron, "* * 1"@) {
        "weekly"@
    } else if contains_seq(cron, "1 * *"@) {
        "monthly"@
    } else if cron.len() == 0 {
        "off"@
    } else {
        "custom"@
    }
}

/// Names the schedule of a target from its stored cron expression (empty
/// when there is none).
pub fn schedule_label(cron: &str) -> (r: &'static str)
    ensures
        r@ == schedule_label_of(cron@),
{
    let c = chars_of(cron);
    if contains_str(&c, "* * *") && starts_with_str(&c, "0 3") {
        "daily"
    } else if contains_str(&c, "* * 1") {
        "weekly"
    } else if contains_str(&c, "1 * *") {
        "monthly"
    } else if c.len() == 0 {
        "off"
    } else {
        "custom"
    }
}

/// What a job definition's configuration says about its target.
#[derive(Clone, Debug)]
pub struct DefinitionConfig {
    pub hostname: Option<String>,
    pub target_id: Option<i64>,
}

/// A definition belongs to a target when it names the target's host name
/// (or address) or the target's id.
pub open spec fn definition_matches(cfg: DefinitionConfig, subject: Seq<char>, target_id: i32) -> bool {
    (cfg.hostname matches Some(h) && h@ == subject) || cfg.target_id == Some(target_id as i64)
}

/// Whether a job definition belongs to a target.
pub fn definition_matches_target(cfg: &DefinitionConfig, subject: &str, target_id: i32) -> (r: bool)
    ensures
        r == definition_matches(*cfg, subject@, target_id),
{
    let by_name = match &cfg.hostname {
        Some(h) => {
            let hv = chars_of(h.as_str());
            eq_str(&hv, subject)
        },
        None => false,
    };
    by_name || cfg.target_id == Some(target_id as i64)
}

/// The first definition (in the order given) satisfying `pred`, as its
/// position.
pub open spec fn first_index<T>(items: Seq<T>, pred: spec_fn(T) -> bool) -> Option<int>
    decreases items.len(),
{
    if items.len() == 0 {
        None
    } else if pred(items[0]) {
        Some(0)
    } else {
        match first_index(items.drop_first(), pred) {
            Some(i) => Some(i + 1),
            None => None,
        }
    }
}

proof fn lemma_first_index_skip<T>(items: Seq<T>, pred: spec_fn(T) -> bool, i: int)
    requires
        0 <= i <= items.len(),
        forall|j: int| 0 <= j < i ==> !pred(#[trigger] items[j]),
    ensures
        first_index(items, pred) == match first_index(items.skip(i), pred) {
            Some(k) => Some(k + i),
            None => None::<int>,
        },
    decreases i,
{
    if i == 0 {
        assert(items.skip(0) =~= items);
        match first_index(items, pred) {
            Some(k) => {},
            None => {},
        }
    } else {
        lemma_first_index_skip(items.drop_first(), pred, i - 1);
        assert(items.drop_first().skip(i - 1) =~= items.skip(i));
        assert(!pred(items[0]));
    }
}

/// The subdomain-scan definition of a host name: the first whose
/// configuration names it.
pub fn find_asm_definition(hostnames: &Vec<Option<String>>, hostname: &str) -> (r: Option<usize>)
    ensures
        match r {
            Some(i) => first_index(hostnames@, |h: Option<String>| h matches Some(x) && x@ == hostname@)
                == Some(i as int),
            None => first_index(hostnames@, |h: Option<String>| h matches Some(x) && x@ == hostname@)
                is None,
        },
{
    let ghost pred = |h: Option<String>| h matches Some(x) && x@ == hostname@;
    let n = hostnames.len();
    for i in 0..n
        invariant
            n == hostnames@.len(),
            pred == (|h: Option<String>| h matches Some(x) && x@ == hostname@),
            forall|j: int| 0 <= j < i ==> !pred(#[trigger] hostnames@[j]),
    {
        let hit = match &hostnames[i] {
            Some(h) => {
                let hv = chars_of(h.as_str());
                eq_str(&hv, hostname)
            },
            None => false,
        };
        if hit {
            proof {
                lemma_first_index_skip(hostnames@, pred, i as int);
                assert(hostnames@.skip(i as int)[0] == hostnames@[i as int]);
            }
            return Some(i);
        }
    }
    proof {
        lemma_first_index_skip(hostnames@, pred, n as int);
        assert(hostnames@.skip(n as int).len() == 0);
    }
    None
}

/// The port-scan definition of a target: the first whose configuration
/// names the target's id.
pub fn find_port_definition(target_ids: &Vec<Option<i64>>, target_id: i32) -> (r: Option<usize>)
    ensures
        match r {
            Some(i) => first_index(target_ids@, |t: Option<i64>| t == Some(target_id as i64)) == Some(
                i as int,
            ),
            None => first_index(target_ids@, |t: Option<i64>| t == Some(target_id as i64)) is None,
        },
{
    let ghost pred = |t: Option<i64>| t == Some(target_id as i64);
    let n = target_ids.len();
    for i in 0..n
        invariant
            n == target_ids@.len(),
            pred == (|t: Option<i64>| t == Some(target_id as i64)),
            forall|j: int| 0 <= j < i ==> !pred(#[trigger] target_ids@[j]),
    {
        if target_ids[i] == Some(target_id as i64) {
            proof {
                lemma_first_index_skip(target_ids@, pred, i as int);
                assert(target_ids@.skip(i as int)[0] == target_ids@[i as int]);
            }
            return Some(i);
        }
    }
    proof {
        lemma_first_index_skip(target_ids@, pred, n as int);
        assert(target_ids@.skip(n as int).len() == 0);
    }
    None
}

/// The definitions a schedule change applies to: every one that belongs to
/// the target, by position.
pub fn definitions_to_reschedule(cfgs: &Vec<DefinitionConfig>, subject: &str, target_id: i32) -> (r: Vec<
    usize,
>)
    ensures
        forall|k: int| 0 <= k < r@.len() ==> (#[trigger] r@[k]) < cfgs@.len() && definition_matches(
            cfgs@[r@[k] as int],
            subject@,
            target_id,
        ),
        forall|i: int|
            0 <= i < cfgs@.len() && definition_matches(#[trigger] cfgs@[i], subject@, target_id)
                ==> r@.contains(i as usize),
        forall|k: int, l: int| 0 <= k < l < r@.len() ==> r@[k] < r@[l],
{
    let mut r: Vec<usize> = Vec::new();
    let n = cfgs.len();
    for i in 0..n
        invariant
            n == cfgs@.len(),
            forall|k: int| 0 <= k < r@.len() ==> (#[trigger] r@[k]) < i && definition_matches(
                cfgs@[r@[k] as int],
                subject@,
                target_id,
            ),
            forall|j: int|
                0 <= j < i && definition_matches(#[trigger] cfgs@[j], subject@, target_id)
                    ==> r@.contains(j as usize),
            forall|k: int, l: int| 0 <= k < l < r@.len() ==> r@[k] < r@[l],
    {
        if definition_matches_target(&cfgs[i], subject, target_id) {
            let ghost old_r = r@;
            r.push(i);
            proof {
                assert forall|j: int|
                    0 <= j < i + 1 && definition_matches(#[trigger] cfgs@[j], subject@, target_id)
                        implies r@.contains(j as usize) by {
                    if j < i {
                        let t = choose|t: int| 0 <= t < old_r.len() && old_r[t] == j as usize;
                        assert(r@[t] == j as usize);
                    } else {
                        assert(r@[old_r.len() as int] == i);
                    }
                }
            }
        }
    }
    r
}

/// The schedule shown for a target: that of the first definition belonging
/// to it that has one, or none (empty).
pub open spec fn current_schedule_of(
    defs: Seq<(DefinitionConfig, Option<String>)>,
    subject: Seq<char>,
    target_id: i32,
) -> Seq<char>
    decreases defs.len(),
{
    if defs.len() == 0 {
        seq![]
    } else if definition_matches(defs[0].0, subject, target_id) && defs[0].1 is Some {
        defs[0].1->0@
    } else {
        current_schedule_of(defs.drop_first(), subject, target_id)
    }
}

/// Finds the schedule shown for a target, from its organisation's
/// definitions (configuration and stored cron expression).
pub fn current_schedule(defs: &Vec<(DefinitionConfig, Option<String>)>, subject: &str, target_id: i32) -> (r: String)
    ensures
        r@ == current_schedule_of(defs@, subject@, target_id),
{
    let n = defs.len();
    let mut i: usize = 0;
    assert(defs@.skip(0) =~= defs@);
    while i < n
        invariant
            n == defs@.len(),
            i <= n,
            current_schedule_of(defs@, subject@, target_id) == current_schedule_of(
                defs@.skip(i as int),
                subject@,
                target_id,
            ),
        decreases n - i,
    {
        assert(defs@.skip(i as int).drop_first() =~= defs@.skip(i + 1));
        assert(defs@.skip(i as int)[0] == defs@[i as int]);
        if definition_matches_target(&defs[i].0, subject, target_id) {
            match &defs[i].1 {
                Some(c) => {
                    return c.clone();
                },
                None => {},
            }
        }
        i = i + 1;
    }
    proof {
        reveal_strlit("");
    }
    "".to_owned()
}

/// The state of a scan of a target, as its page shows it.
#[derive(Clone, Copy, Debug, PartialEq, Eq, Structural)]
pub enum ScanStatus {
    /// A run is queued or running.
    Running,
    /// The latest run completed (its summary is shown).
    Completed,
    /// A run failed (its error is shown).
    Failed,
    /// No run yet.
    NotRun,
}

/// The state of a definition's scans: a pending run first, then a completed
/// one, then a failed one.
pub fn scan_status(has_pending: bool, has_completed: bool, has_failed: bool) -> (r: ScanStatus)
    ensures
        r == (if has_pending {
            ScanStatus::Running
        } else if has_completed {
            ScanStatus::Completed
        } else if has_failed {
            ScanStatus::Failed
        } else {
            ScanStatus::NotRun
        }),
{
    if has_pending {
        ScanStatus::Running
    } else if has_completed {
        ScanStatus::Completed
    } else if has_failed {
        ScanStatus::Failed
    } else {
        ScanStatus::NotRun
    }
}

impl ScanStatus {
    /// The status text shown, none before any run.
    pub fn text(&self) -> (r: Option<&'static str>)
        ensures
            match *self {
                ScanStatus::Running => r matches Some(s) && s@ == "running"@,
                ScanStatus::Completed => r matches Some(s) && s@ == "completed"@,
                ScanStatus::Failed => r matches Some(s) && s@ == "failed"@,
                ScanStatus::NotRun => r is None,
            },
    {
        match self {
            ScanStatus::Running => Some("running"),
            ScanStatus::Completed => Some("completed"),
            ScanStatus::Failed => Some("failed"),
            ScanStatus::NotRun => None,
        }
    }
}

/// The cron expression of each named schedule is shown under its name.
proof fn lemma_cron_label(choice: Seq<char>)
    requires
        choice == "daily"@ || choice == "weekly"@ || choice == "monthly"@,
    ensures
        schedule_cron(choice) is Some,
        schedule_label_of(schedule_cron(choice)->0) == choice,
{
    reveal_strlit("daily");
    reveal_strlit("weekly");
    reveal_strlit("monthly");
    reveal_strlit("0 3 * * *");
    reveal_strlit("0 3 * * 1");
    reveal_strlit("0 3 1 * *");
    reveal_strlit("* * *");
    reveal_strlit("* * 1");
    reveal_strlit("1 * *");
    reveal_strlit("0 3");
    let d = "0 3 * * *"@;
    let w = "0 3 * * 1"@;
    let m = "0 3 1 * *"@;
    let all = "* * *"@;
    let mon = "* * 1"@;
    let first = "1 * *"@;
    if choice == "daily"@ {
        assert(d.subrange(4, 4 + all.len() as int) =~= all);
        assert(contains_seq(d, all));
        assert(d.take(3) =~= "0 3"@);
    }
    if choice == "weekly"@ {
        assert forall|i: int| 0 <= i && i + all.len() <= w.len() implies #[trigger] w.subrange(
            i,
            i + all.len(),
        ) != all by {
            assert(w.subrange(i, i + 5)[4] != all[4] || w.subrange(i, i + 5)[0] != all[0]
                || w.subrange(i, i + 5)[2] != all[2]);
        }
        assert(!contains_seq(w, all));
        assert(w.subrange(4, 4 + mon.len() as int) =~= mon);
        assert(contains_seq(w, mon));
    }
    if choice == "monthly"@ {
        assert forall|i: int| 0 <= i && i + all.len() <= m.len() implies #[trigger] m.subrange(
            i,
            i + all.len(),
        ) != all by {
            assert(m.subrange(i, i + 5)[0] != all[0] || m.subrange(i, i + 5)[2] != all[2]
                || m.subrange(i, i + 5)[4] != all[4]);
        }
        assert forall|i: int| 0 <= i && i + mon.len() <= m.len() implies #[trigger] m.subrange(
            i,
            i + mon.len(),
        ) != mon by {
            assert(m.subrange(i, i + 5)[0] != mon[0] || m.subrange(i, i + 5)[2] != mon[2]
                || m.subrange(i, i + 5)[4] != mon[4]);
        }
        assert(!contains_seq(m, all));
        assert(!contains_seq(m, mon));
        assert(m.subrange(4, 4 + first.len() as int) =~= first);
        assert(contains_seq(m, first));
    }
}

/// A stored schedule, as a plain value.
pub open spec fn stored_cron(s: Option<String>) -> Option<Seq<char>> {
    match s {
        Some(c) => Some(c@),
        None => None,
    }
}

/// When every definition of a target stores the same schedule `cron`, the
/// target shows that schedule, or none when `cron` is none.
proof fn lemma_uniform_schedule(
    defs: Seq<(DefinitionConfig, Option<String>)>,
    subject: Seq<char>,
    target_id: i32,
    cron: Option<Seq<char>>,
)
    requires
        forall|i: int|
            0 <= i < defs.len() && definition_matches((#[trigger] defs[i]).0, subject, target_id)
                ==> stored_cron(defs[i].1) == cron,
    ensures
        cron is None ==> current_schedule_of(defs, subject, target_id) == Seq::<char>::empty(),
        cron is Some && (exists|i: int|
            0 <= i < defs.len() && definition_matches((#[trigger] defs[i]).0, subject, target_id))
            ==> current_schedule_of(defs, subject, target_id) == cron->0,
    decreases defs.len(),
{
    if defs.len() > 0 {
        let rest = defs.drop_first();
        assert forall|i: int|
            0 <= i < rest.len() && definition_matches((#[trigger] rest[i]).0, subject, target_id)
                implies stored_cron(rest[i].1) == cron by {
            assert(rest[i] == defs[i + 1]);
        }
        lemma_uniform_schedule(rest, subject, target_id, cron);
        if cron is Some && !definition_matches(defs[0].0, subject, target_id) && (exists|i: int|
            0 <= i < defs.len() && definition_matches((#[trigger] defs[i]).0, subject, target_id)) {
            let i = choose|i: int|
                0 <= i < defs.len() && definition_matches((#[trigger] defs[i]).0, subject, target_id);
            assert(rest[i - 1] == defs[i]);
        }
    }
}

/// The label a schedule choice is shown under once it is saved: its own
/// name for `daily`, `weekly`, `monthly` and `off`, and `off` for anything
/// else.
pub open spec fn schedule_shown(choice: Seq<char>) -> Seq<char> {
    if choice == "daily"@ || choice == "weekly"@ || choice == "monthly"@ {
        choice
    } else {
        "off"@
    }
}

/// A schedule saved for a target is shown back: once every definition that
/// belongs to the target (there is at least one) stores the cron expression
/// of the choice, the target's page names the choice (`off` for `off` and
/// for any choice that is not a schedule).
pub proof fn lemma_schedule_round_trip(
    defs: Seq<(DefinitionConfig, Option<String>)>,
    subject: Seq<char>,
    target_id: i32,
    choice: Seq<char>,
)
    requires
        exists|i: int|
            0 <= i < defs.len() && definition_matches((#[trigger] defs[i]).0, subject, target_id),
        forall|i: int|
            0 <= i < defs.len() && definition_matches((#[trigger] defs[i]).0, subject, target_id)
                ==> stored_cron(defs[i].1) == schedule_cron(choice),
    ensures
        schedule_label_of(current_schedule_of(defs, subject, target_id)) == schedule_shown(choice),
{
    lemma_uniform_schedule(defs, subject, target_id, schedule_cron(choice));
    if choice == "daily"@ || choice == "weekly"@ || choice == "monthly"@ {
        lemma_cron_label(choice);
    } else {
        let e = Seq::<char>::empty();
        reveal_strlit("* * *");
        reveal_strlit("* * 1");
        reveal_strlit("1 * *");
        reveal_strlit("off");
        assert(!contains_seq(e, "* * *"@));
        assert(!contains_seq(e, "* * 1"@));
        assert(!contains_seq(e, "1 * *"@));
    }
}

} // verus!

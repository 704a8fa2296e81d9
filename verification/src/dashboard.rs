//! The figures of the organisation dashboard: the severity breakdown, the
//! latest subdomain scan in brief, the active engagements, and one
//! attack-surface card per scan target.
use vstd::prelude::*;

use crate::scan_diff::PreviousSubdomain;
use crate::text::{
    chars_of, eq_str, lemma_lex_irreflexive, lemma_lex_transitive, lemma_sorted_no_duplicates, lex_lt,
    seq_eq, sorted_insert, string_of, strictly_sorted, views,
};

verus! {

// ---------------------------------------------------------------------------
// Severity breakdown
// ---------------------------------------------------------------------------

/// A row of a count of findings grouped by severity.
#[derive(Clone, Debug)]
pub struct SeverityCount {
    pub severity: String,
    pub count: i64,
}

/// Findings per severity level, as the dashboard's bar chart shows them.
#[derive(Clone, Copy, Debug, PartialEq, Eq, Structural)]
pub struct SeverityBreakdown {
    pub extreme: u64,
    pub high: u64,
    pub elevated: u64,
    pub moderate: u64,
    pub low: u64,
}

/// The empty breakdown.
pub open spec fn empty_breakdown() -> SeverityBreakdown {
    SeverityBreakdown { extreme: 0, high: 0, elevated: 0, moderate: 0, low: 0 }
}

/// The breakdown after reading one row: the row's count, read as unsigned,
/// replaces the level it names; rows naming no level change nothing.
pub open spec fn apply_row(b: SeverityBreakdown, row: SeverityCount) -> SeverityBreakdown {
    let n = row.count as u64;
    if row.severity@ == "extreme"@ {
        SeverityBreakdown { extreme: n, ..b }
    } else if row.severity@ == "high"@ {
        SeverityBreakdown { high: n, ..b }
    } else if row.severity@ == "elevated"@ {
        SeverityBreakdown { elevated: n, ..b }
    } else if row.severity@ == "moderate"@ {
        SeverityBreakdown { moderate: n, ..b }
    } else if row.severity@ == "low"@ {
        SeverityBreakdown { low: n, ..b }
    } else {
        b
    }
}

/// The breakdown read from rows, in order.
pub open spec fn breakdown_of(rows: Seq<SeverityCount>) -> SeverityBreakdown
    decreases rows.len(),
{
    if rows.len() == 0 {
        empty_breakdown()
    } else {
        apply_row(breakdown_of(rows.drop_last()), rows.last())
    }
}

/// Reads the severity counts of an organisation's findings.
pub fn compute_severity(rows: &Vec<SeverityCount>) -> (r: SeverityBreakdown)
    ensures
        r == breakdown_of(rows@),
{
    let mut b = SeverityBreakdown { extreme: 0, high: 0, elevated: 0, moderate: 0, low: 0 };
    let n = rows.len();
    assert(rows@.take(0) =~= Seq::<SeverityCount>::empty());
    for i in 0..n
        invariant
            n == rows@.len(),
            b == breakdown_of(rows@.take(i as int)),
    {
        assert(rows@.take(i + 1).drop_last() =~= rows@.take(i as int));
        let row = &rows[i];
        let c: u64 = row.count as u64;
        let s = chars_of(row.severity.as_str());
        if eq_str(&s, "extreme") {
            b.extreme = c;
        } else if eq_str(&s, "high") {
            b.high = c;
        } else if eq_str(&s, "elevated") {
            b.elevated = c;
        } else if eq_str(&s, "moderate") {
            b.moderate = c;
        } else if eq_str(&s, "low") {
            b.low = c;
        }
    }
    assert(rows@.take(n as int) =~= rows@);
    b
}

impl SeverityBreakdown {
    /// The number of findings over all five levels.
    pub fn total(&self) -> (r: u64)
        requires
            self.extreme + self.high + self.elevated + self.moderate + self.low <= u64::MAX,
        ensures
            r == self.extreme + self.high + self.elevated + self.moderate + self.low,
    {
        self.extreme + self.high + self.elevated + self.moderate + self.low
    }
}

/// How many of `s` equal `v`.
pub open spec fn count_of(s: Seq<Seq<char>>, v: Seq<char>) -> nat
    decreases s.len(),
{
    if s.len() == 0 {
        0
    } else {
        count_of(s.drop_last(), v) + if s.last() == v {
            1nat
        } else {
            0nat
        }
    }
}

/// The distinct values of `s`, in the order they first appear.
pub open spec fn distinct_values(s: Seq<Seq<char>>) -> Seq<Seq<char>>
    decreases s.len(),
{
    if s.len() == 0 {
        seq![]
    } else if distinct_values(s.drop_last()).contains(s.last()) {
        distinct_values(s.drop_last())
    } else {
        distinct_values(s.drop_last()).push(s.last())
    }
}

/// The rows of a count of the findings with severities `sevs` grouped by
/// severity: one per distinct severity, with the number of findings that
/// have it, in the order the severities first appear.
pub open spec fn groups_severities(rows: Seq<SeverityCount>, sevs: Seq<Seq<char>>) -> bool {
    &&& rows.len() == distinct_values(sevs).len()
    &&& forall|k: int|
        0 <= k < rows.len() ==> (#[trigger] rows[k]).severity@ == distinct_values(sevs)[k]
            && rows[k].count == count_of(sevs, distinct_values(sevs)[k])
}

/// The count a breakdown read from `rows` keeps for the level `name`: that
/// of the last row naming it, read as unsigned, or 0.
pub open spec fn level_value(rows: Seq<SeverityCount>, name: Seq<char>) -> u64
    decreases rows.len(),
{
    if rows.len() == 0 {
        0
    } else if rows.last().severity@ == name {
        rows.last().count as u64
    } else {
        level_value(rows.drop_last(), name)
    }
}

proof fn lemma_breakdown_levels(rows: Seq<SeverityCount>)
    ensures
        breakdown_of(rows) == (SeverityBreakdown {
            extreme: level_value(rows, "extreme"@),
            high: level_value(rows, "high"@),
            elevated: level_value(rows, "elevated"@),
            moderate: level_value(rows, "moderate"@),
            low: level_value(rows, "low"@),
        }),
    decreases rows.len(),
{
    reveal_strlit("extreme");
    reveal_strlit("high");
    reveal_strlit("elevated");
    reveal_strlit("moderate");
    reveal_strlit("low");
    assert("extreme"@.len() == 7 && "high"@.len() == 4 && "elevated"@.len() == 8);
    assert("moderate"@.len() == 8 && "low"@.len() == 3);
    assert("elevated"@[0] != "moderate"@[0]);
    if rows.len() > 0 {
        lemma_breakdown_levels(rows.drop_last());
    }
}

proof fn lemma_count_absent(s: Seq<Seq<char>>, v: Seq<char>)
    requires
        !s.contains(v),
    ensures
        count_of(s, v) == 0,
    decreases s.len(),
{
    if s.len() > 0 {
        if s.drop_last().contains(v) {
            let i = choose|i: int| 0 <= i < s.drop_last().len() && s.drop_last()[i] == v;
            assert(s[i] == v);
        }
        lemma_count_absent(s.drop_last(), v);
        assert(s[s.len() - 1] == s.last());
    }
}

proof fn lemma_distinct_values(s: Seq<Seq<char>>)
    ensures
        distinct_values(s).no_duplicates(),
        forall|v: Seq<char>| distinct_values(s).contains(v) <==> s.contains(v),
    decreases s.len(),
{
    if s.len() > 0 {
        let init = s.drop_last();
        let prev = distinct_values(init);
        lemma_distinct_values(init);
        if !prev.contains(s.last()) {
            let q = prev.push(s.last());
            assert(q[prev.len() as int] == s.last());
            assert forall|a: int, b: int| 0 <= a < b < q.len() implies q[a] != q[b] by {
                if b == prev.len() {
                    assert(prev[a] == q[a]);
                }
            }
        }
        assert forall|v: Seq<char>| distinct_values(s).contains(v) <==> s.contains(v) by {
            if s.contains(v) {
                let i = choose|i: int| 0 <= i < s.len() && s[i] == v;
                if i < s.len() - 1 {
                    assert(init[i] == v);
                    assert(init.contains(v));
                    assert(prev.contains(v));
                    if !prev.contains(s.last()) {
                        let j = choose|j: int| 0 <= j < prev.len() && prev[j] == v;
                        assert(prev.push(s.last())[j] == v);
                    }
                } else {
                    assert(v == s.last());
                    if !prev.contains(s.last()) {
                        assert(prev.push(s.last())[prev.len() as int] == v);
                    }
                }
            }
            if distinct_values(s).contains(v) {
                if prev.contains(v) {
                    assert(init.contains(v));
                    let i = choose|i: int| 0 <= i < init.len() && init[i] == v;
                    assert(s[i] == init[i]);
                } else {
                    assert(!prev.contains(s.last()));
                    let j = choose|j: int|
                        0 <= j < distinct_values(s).len() && distinct_values(s)[j] == v;
                    assert(distinct_values(s) == prev.push(s.last()));
                    if j < prev.len() {
                        assert(prev[j] == v);
                    }
                    assert(v == s.last());
                    assert(s[s.len() - 1] == v);
                }
            }
        }
    }
}

proof fn lemma_level_of_unique_row(rows: Seq<SeverityCount>, name: Seq<char>)
    ensures
        (forall|k: int| 0 <= k < rows.len() ==> (#[trigger] rows[k]).severity@ != name) ==> level_value(
            rows,
            name,
        ) == 0,
        forall|k: int|
            0 <= k < rows.len() && (#[trigger] rows[k]).severity@ == name && (forall|j: int|
                k < j < rows.len() ==> rows[j].severity@ != name) ==> level_value(rows, name)
                == rows[k].count as u64,
    decreases rows.len(),
{
    if rows.len() > 0 {
        let init = rows.drop_last();
        lemma_level_of_unique_row(init, name);
        assert(rows[rows.len() - 1] == rows.last());
        if forall|k: int| 0 <= k < rows.len() ==> (#[trigger] rows[k]).severity@ != name {
            assert forall|k: int| 0 <= k < init.len() implies (#[trigger] init[k]).severity@ != name by {
                assert(init[k] == rows[k]);
            }
        }
        assert forall|k: int|
            0 <= k < rows.len() && (#[trigger] rows[k]).severity@ == name && (forall|j: int|
                k < j < rows.len() ==> rows[j].severity@ != name) implies level_value(rows, name)
            == rows[k].count as u64 by {
            if k < rows.len() - 1 {
                assert(rows[rows.len() - 1].severity@ != name);
                assert(init[k] == rows[k]);
                assert forall|j: int| k < j < init.len() implies init[j].severity@ != name by {
                    assert(init[j] == rows[j]);
                }
            }
        }
    }
}

proof fn lemma_group_level(rows: Seq<SeverityCount>, sevs: Seq<Seq<char>>, name: Seq<char>)
    requires
        groups_severities(rows, sevs),
    ensures
        level_value(rows, name) == count_of(sevs, name),
{
    lemma_distinct_values(sevs);
    lemma_level_of_unique_row(rows, name);
    let d = distinct_values(sevs);
    if d.contains(name) {
        let k = choose|k: int| 0 <= k < d.len() && d[k] == name;
        assert(rows[k].severity@ == name);
        assert forall|j: int| k < j < rows.len() implies rows[j].severity@ != name by {
            assert(rows[j].severity@ == d[j]);
        }
    } else {
        lemma_count_absent(sevs, name);
        assert forall|k: int| 0 <= k < rows.len() implies (#[trigger] rows[k]).severity@ != name by {
            assert(rows[k].severity@ == d[k]);
        }
    }
}

/// Each level of the breakdown read from the grouped count of findings is
/// the number of findings of exactly that severity; findings of any other
/// severity (`Low`, say) are counted in no level.
pub proof fn lemma_breakdown_counts_findings(rows: Seq<SeverityCount>, sevs: Seq<Seq<char>>)
    requires
        groups_severities(rows, sevs),
    ensures
        breakdown_of(rows).extreme == count_of(sevs, "extreme"@),
        breakdown_of(rows).high == count_of(sevs, "high"@),
        breakdown_of(rows).elevated == count_of(sevs, "elevated"@),
        breakdown_of(rows).moderate == count_of(sevs, "moderate"@),
        breakdown_of(rows).low == count_of(sevs, "low"@),
{
    lemma_breakdown_levels(rows);
    lemma_group_level(rows, sevs, "extreme"@);
    lemma_group_level(rows, sevs, "high"@);
    lemma_group_level(rows, sevs, "elevated"@);
    lemma_group_level(rows, sevs, "moderate"@);
    lemma_group_level(rows, sevs, "low"@);
}

proof fn lemma_count_bound(s: Seq<Seq<char>>, v: Seq<char>)
    ensures
        count_of(s, v) <= s.len(),
    decreases s.len(),
{
    if s.len() > 0 {
        lemma_count_bound(s.drop_last(), v);
    }
}

/// Counts findings by severity, as the dashboard's grouped query does: one
/// row per distinct severity, in the order the severities first appear.
pub fn group_severities(severities: &Vec<String>) -> (r: Vec<SeverityCount>)
    requires
        severities@.len() <= i64::MAX,
    ensures
        groups_severities(r@, severities@.map_values(|x: String| x@)),
{
    let ghost all = severities@.map_values(|x: String| x@);
    let mut vals: Vec<Vec<char>> = Vec::new();
    let mut counts: Vec<i64> = Vec::new();
    let n = severities.len();
    assert(all.take(0) =~= Seq::<Seq<char>>::empty());
    for i in 0..n
        invariant
            n == severities@.len(),
            n <= i64::MAX,
            all == severities@.map_values(|x: String| x@),
            views(vals@) == distinct_values(all.take(i as int)),
            counts@.len() == vals@.len(),
            forall|k: int|
                0 <= k < counts@.len() ==> #[trigger] counts@[k] == count_of(
                    all.take(i as int),
                    vals@[k]@,
                ),
    {
        let ghost pre = all.take(i as int);
        let ghost post = all.take(i + 1);
        assert(post.drop_last() =~= pre);
        assert(post.last() == all[i as int]);
        let v = chars_of(severities[i].as_str());
        assert(v@ == all[i as int]);
        let m = vals.len();
        let mut found: Option<usize> = None;
        for j in 0..m
            invariant
                m == vals@.len(),
                found matches Some(f) ==> f < m && vals@[f as int]@ == v@,
                found is None ==> forall|k: int| 0 <= k < j ==> #[trigger] vals@[k]@ != v@,
        {
            if found.is_none() && seq_eq(&vals[j], &v) {
                found = Some(j);
            }
        }
        match found {
            Some(f) => {
                proof {
                    lemma_count_bound(pre, vals@[f as int]@);
                    assert(views(vals@)[f as int] == v@);
                    lemma_distinct_values(pre);
                }
                let ghost old_counts = counts@;
                let c = counts[f] + 1;
                counts.set(f, c);
                proof {
                    assert forall|k: int| 0 <= k < counts@.len() implies #[trigger] counts@[k]
                        == count_of(post, vals@[k]@) by {
                        assert(views(vals@)[k] == vals@[k]@);
                        assert(old_counts[k] == count_of(pre, vals@[k]@));
                        if k != f {
                            assert(views(vals@)[k] != views(vals@)[f as int]);
                        }
                    }
                }
            },
            None => {
                proof {
                    assert(!views(vals@).contains(v@)) by {
                        if views(vals@).contains(v@) {
                            let k = choose|k: int| 0 <= k < views(vals@).len() && views(vals@)[k] == v@;
                            assert(vals@[k]@ == v@);
                        }
                    }
                    lemma_distinct_values(pre);
                    lemma_count_absent(pre, v@);
                }
                let ghost old_vals = vals@;
                vals.push(v);
                counts.push(1);
                proof {
                    assert(views(vals@) =~= distinct_values(pre).push(v@));
                    assert forall|k: int| 0 <= k < counts@.len() implies #[trigger] counts@[k]
                        == count_of(post, vals@[k]@) by {
                        if k < old_vals.len() {
                            assert(vals@[k] == old_vals[k]);
                            assert(views(old_vals)[k] == old_vals[k]@);
                            assert(distinct_values(pre).contains(old_vals[k]@));
                        }
                    }
                }
            },
        }
    }
    assert(all.take(n as int) =~= all);
    let mut rows: Vec<SeverityCount> = Vec::new();
    let m = vals.len();
    for k in 0..m
        invariant
            m == vals@.len(),
            m == counts@.len(),
            views(vals@) == distinct_values(all),
            forall|j: int| 0 <= j < m ==> #[trigger] counts@[j] == count_of(all, vals@[j]@),
            rows@.len() == k,
            forall|j: int|
                0 <= j < k ==> (#[trigger] rows@[j]).severity@ == distinct_values(all)[j]
                    && rows@[j].count == count_of(all, distinct_values(all)[j]),
    {
        assert(views(vals@)[k as int] == vals@[k as int]@);
        rows.push(SeverityCount { severity: string_of(&vals[k]), count: counts[k] });
    }
    rows
}

/// The severity breakdown of findings with the given severities: each
/// level is the number of findings of exactly that severity.
pub fn severity_breakdown(severities: &Vec<String>) -> (r: SeverityBreakdown)
    requires
        severities@.len() <= i64::MAX,
    ensures
        r.extreme == count_of(severities@.map_values(|x: String| x@), "extreme"@),
        r.high == count_of(severities@.map_values(|x: String| x@), "high"@),
        r.elevated == count_of(severities@.map_values(|x: String| x@), "elevated"@),
        r.moderate == count_of(severities@.map_values(|x: String| x@), "moderate"@),
        r.low == count_of(severities@.map_values(|x: String| x@), "low"@),
{
    let rows = group_severities(severities);
    proof {
        lemma_breakdown_counts_findings(rows@, severities@.map_values(|x: String| x@));
    }
    compute_severity(&rows)
}

// ---------------------------------------------------------------------------
// Latest subdomain scan in brief
// ---------------------------------------------------------------------------

/// The brief of an organisation's latest subdomain scan.
#[derive(Clone, Debug)]
pub struct AsmOverview {
    pub domain: String,
    pub subdomain_count: u64,
    pub resolved_count: u64,
    pub cert_count: u64,
}

/// The number of subdomains marked resolved (a missing or non-boolean flag
/// counts as not resolved).
pub open spec fn resolved_count(flags: Seq<Option<bool>>) -> nat
    decreases flags.len(),
{
    if flags.len() == 0 {
        0
    } else {
        resolved_count(flags.drop_last()) + if flags.last() == Some(true) {
            1nat
        } else {
            0nat
        }
    }
}

/// Builds the brief from the fields of a scan summary: the domain (empty
/// when absent), the subdomain and certificate counts (zero when absent)
/// and the resolved flags of its subdomains.
pub fn asm_overview(
    domain: Option<String>,
    subdomain_count: Option<u64>,
    cert_count: Option<u64>,
    resolved_flags: &Vec<Option<bool>>,
) -> (r: AsmOverview)
    ensures
        r.domain@ == (match domain {
            Some(d) => d@,
            None => ""@,
        }),
        r.subdomain_count == (match subdomain_count {
            Some(c) => c,
            None => 0,
        }),
        r.cert_count == (match cert_count {
            Some(c) => c,
            None => 0,
        }),
        r.resolved_count == resolved_count(resolved_flags@),
{
    let mut count: u64 = 0;
    let n = resolved_flags.len();
    assert(resolved_flags@.take(0) =~= Seq::<Option<bool>>::empty());
    for i in 0..n
        invariant
            n == resolved_flags@.len(),
            count == resolved_count(resolved_flags@.take(i as int)),
            count <= i,
    {
        assert(resolved_flags@.take(i + 1).drop_last() =~= resolved_flags@.take(i as int));
        if resolved_flags[i] == Some(true) {
            count = count + 1;
        }
    }
    assert(resolved_flags@.take(n as int) =~= resolved_flags@);
    AsmOverview {
        domain: match domain {
            Some(d) => d,
            None => "".to_owned(),
        },
        subdomain_count: match subdomain_count {
            Some(c) => c,
            None => 0,
        },
        resolved_count: count,
        cert_count: match cert_count {
            Some(c) => c,
            None => 0,
        },
    }
}

// ---------------------------------------------------------------------------
// Active engagements
// ---------------------------------------------------------------------------

/// A row of a count of findings grouped by engagement.
#[derive(Clone, Copy, Debug, PartialEq, Eq, Structural)]
pub struct EngagementCount {
    pub engagement_id: Option<i32>,
    pub count: i64,
}

/// The findings count of an engagement: the last row for it, or zero.
pub open spec fn findings_count_for(rows: Seq<EngagementCount>, id: i32) -> i64
    decreases rows.len(),
{
    if rows.len() == 0 {
        0
    } else if rows.last().engagement_id == Some(id) {
        rows.last().count
    } else {
        findings_count_for(rows.drop_last(), id)
    }
}

/// Looks up the findings count of an engagement.
pub fn engagement_findings_count(rows: &Vec<EngagementCount>, id: i32) -> (r: i64)
    ensures
        r == findings_count_for(rows@, id),
{
    let mut k = rows.len();
    assert(rows@.take(k as int) =~= rows@);
    while k > 0
        invariant
            k <= rows@.len(),
            findings_count_for(rows@, id) == findings_count_for(rows@.take(k as int), id),
        decreases k,
    {
        assert(rows@.take(k as int).drop_last() =~= rows@.take(k - 1));
        if rows[k - 1].engagement_id == Some(id) {
            return rows[k - 1].count;
        }
        k = k - 1;
    }
    0
}

// ---------------------------------------------------------------------------
// Attack surface
// ---------------------------------------------------------------------------

/// A scan target, as far as the attack surface needs it.
#[derive(Clone, Debug)]
pub struct TargetRow {
    pub id: i32,
    pub hostname: Option<String>,
    pub ip_address: Option<String>,
}

/// How a job definition names its target: by id, by host name or domain,
/// or not at all.
#[derive(Clone, Debug)]
pub enum TargetRef {
    Id(i64),
    Name(String),
    Unnamed,
}

/// The last target whose host name is `name`.
pub open spec fn target_named(targets: Seq<TargetRow>, name: Seq<char>) -> Option<i32>
    decreases targets.len(),
{
    if targets.len() == 0 {
        None
    } else if targets.last().hostname matches Some(h) && h@ == name {
        Some(targets.last().id)
    } else {
        target_named(targets.drop_last(), name)
    }
}

/// The target a definition belongs to: the id it gives (read as `i32`), or
/// else the target with the host name it gives.
pub open spec fn definition_target(r: TargetRef, targets: Seq<TargetRow>) -> Option<i32> {
    match r {
        TargetRef::Id(id) => Some(id as i32),
        TargetRef::Name(n) => target_named(targets, n@),
        TargetRef::Unnamed => None,
    }
}

/// Finds the target a job definition belongs to.
pub fn resolve_definition_target(r: &TargetRef, targets: &Vec<TargetRow>) -> (t: Option<i32>)
    ensures
        t == definition_target(*r, targets@),
{
    match r {
        TargetRef::Id(id) => Some(*id as i32),
        TargetRef::Name(n) => {
            let nv = chars_of(n.as_str());
            let mut k = targets.len();
            assert(targets@.take(k as int) =~= targets@);
            while k > 0
                invariant
                    k <= targets@.len(),
                    definition_target(*r, targets@) == target_named(targets@, nv@),
                    target_named(targets@, nv@) == target_named(targets@.take(k as int), nv@),
                decreases k,
            {
                assert(targets@.take(k as int).drop_last() =~= targets@.take(k - 1));
                assert(targets@.take(k as int).last() == targets@[k - 1]);
                match &targets[k - 1].hostname {
                    Some(h) => {
                        let hv = chars_of(h.as_str());
                        if seq_eq(&hv, &nv) {
                            return Some(targets[k - 1].id);
                        }
                    },
                    None => {},
                }
                k = k - 1;
            }
            None
        },
        TargetRef::Unnamed => None,
    }
}

/// The name a card shows for its target: the host name, else the address,
/// else `unknown`.
pub fn target_display_name<'a>(hostname: Option<&'a str>, ip_address: Option<&'a str>) -> (r: &'a str)
    ensures
        r@ == match (hostname, ip_address) {
            (Some(h), _) => h@,
            (None, Some(a)) => a@,
            (None, None) => "unknown"@,
        },
{
    match hostname {
        Some(h) => h,
        None => match ip_address {
            Some(a) => a,
            None => "unknown",
        },
    }
}

/// The scan kinds whose results make up an attack-surface card.
#[derive(Clone, Copy, Debug, PartialEq, Eq, Structural)]
pub enum SurfaceSource {
    SubdomainScan,
    PassiveEnumeration,
    PortScan,
}

/// The card a job type feeds, if any.
pub fn surface_source(job_type: &str) -> (r: Option<SurfaceSource>)
    ensures
        r == (if job_type@ == "asm_scan"@ {
            Some(SurfaceSource::SubdomainScan)
        } else if job_type@ == "amass_passive"@ {
            Some(SurfaceSource::PassiveEnumeration)
        } else if job_type@ == "port_scan"@ {
            Some(SurfaceSource::PortScan)
        } else {
            None
        }),
{
    let j = chars_of(job_type);
    if eq_str(&j, "asm_scan") {
        Some(SurfaceSource::SubdomainScan)
    } else if eq_str(&j, "amass_passive") {
        Some(SurfaceSource::PassiveEnumeration)
    } else if eq_str(&j, "port_scan") {
        Some(SurfaceSource::PortScan)
    } else {
        None
    }
}

/// A subdomain as one scan reported it: seen, and whether it resolved.
#[derive(Clone, Debug)]
pub struct SubdomainSighting {
    pub name: String,
    pub resolved: bool,
}

/// A host reported by passive enumeration: its name when a string, and how
/// many addresses it lists when they are a list.
#[derive(Clone, Debug)]
pub struct EnumeratedHost {
    pub name: Option<String>,
    pub address_count: Option<usize>,
}

/// The subdomains a subdomain-scan summary reports: its records with a
/// name, resolved when their flag says so.
pub open spec fn scan_sightings(records: Seq<PreviousSubdomain>) -> Seq<(Seq<char>, bool)>
    decreases records.len(),
{
    if records.len() == 0 {
        seq![]
    } else {
        let before = scan_sightings(records.drop_last());
        match records.last() {
            PreviousSubdomain::Record { name: Some(n), resolved } => before.push(
                (
                    n@,
                    match resolved {
                        Some(b) => b,
                        None => false,
                    },
                ),
            ),
            _ => before,
        }
    }
}

/// The subdomains a passive enumeration reports: its hosts with a name,
/// resolved when they list at least one address.
pub open spec fn enumeration_sightings(hosts: Seq<EnumeratedHost>) -> Seq<(Seq<char>, bool)>
    decreases hosts.len(),
{
    if hosts.len() == 0 {
        seq![]
    } else {
        let before = enumeration_sightings(hosts.drop_last());
        match hosts.last().name {
            Some(n) => before.push(
                (
                    n@,
                    match hosts.last().address_count {
                        Some(c) => c > 0,
                        None => false,
                    },
                ),
            ),
            None => before,
        }
    }
}

/// The sightings as plain values.
pub open spec fn sightings_view(s: Seq<SubdomainSighting>) -> Seq<(Seq<char>, bool)> {
    s.map_values(|x: SubdomainSighting| (x.name@, x.resolved))
}

/// Reads the subdomains of a subdomain-scan summary.
pub fn sightings_from_scan(records: &Vec<PreviousSubdomain>) -> (r: Vec<SubdomainSighting>)
    ensures
        sightings_view(r@) == scan_sightings(records@),
{
    let mut r: Vec<SubdomainSighting> = Vec::new();
    let n = records.len();
    assert(records@.take(0) =~= Seq::<PreviousSubdomain>::empty());
    assert(sightings_view(r@) =~= seq![]);
    for i in 0..n
        invariant
            n == records@.len(),
            sightings_view(r@) == scan_sightings(records@.take(i as int)),
    {
        assert(records@.take(i + 1).drop_last() =~= records@.take(i as int));
        assert(records@.take(i + 1).last() == records@[i as int]);
        match &records[i] {
            PreviousSubdomain::Record { name: Some(nm), resolved } => {
                let ghost before = sightings_view(r@);
                let res = match resolved {
                    Some(b) => *b,
                    None => false,
                };
                r.push(SubdomainSighting { name: nm.clone(), resolved: res });
                assert(sightings_view(r@) =~= before.push((nm@, res)));
            },
            _ => {},
        }
    }
    assert(records@.take(n as int) =~= records@);
    r
}

/// Reads the subdomains of a passive-enumeration summary.
pub fn sightings_from_enumeration(hosts: &Vec<EnumeratedHost>) -> (r: Vec<SubdomainSighting>)
    ensures
        sightings_view(r@) == enumeration_sightings(hosts@),
{
    let mut r: Vec<SubdomainSighting> = Vec::new();
    let n = hosts.len();
    assert(hosts@.take(0) =~= Seq::<EnumeratedHost>::empty());
    assert(sightings_view(r@) =~= seq![]);
    for i in 0..n
        invariant
            n == hosts@.len(),
            sightings_view(r@) == enumeration_sightings(hosts@.take(i as int)),
    {
        assert(hosts@.take(i + 1).drop_last() =~= hosts@.take(i as int));
        assert(hosts@.take(i + 1).last() == hosts@[i as int]);
        match &hosts[i].name {
            Some(nm) => {
                let ghost before = sightings_view(r@);
                let res = match hosts[i].address_count {
                    Some(c) => c > 0,
                    None => false,
                };
                r.push(SubdomainSighting { name: nm.clone(), resolved: res });
                assert(sightings_view(r@) =~= before.push((nm@, res)));
            },
            None => {},
        }
    }
    assert(hosts@.take(n as int) =~= hosts@);
    r
}

/// A subdomain on the card: resolved when any scan saw it resolve.
#[derive(Clone, Debug)]
pub struct SubdomainEntry {
    pub name: String,
    pub resolved: bool,
}

/// The names seen.
pub open spec fn sighted_names(s: Seq<SubdomainSighting>) -> Set<Seq<char>> {
    s.map_values(|x: SubdomainSighting| x.name@).to_set()
}

/// Whether some sighting of `name` saw it resolve.
pub open spec fn seen_resolved(s: Seq<SubdomainSighting>, name: Seq<char>) -> bool {
    exists|j: int| 0 <= j < s.len() && (#[trigger] s[j]).name@ == name && s[j].resolved
}

/// The names on the card, in order.
pub open spec fn entry_names(e: Seq<SubdomainEntry>) -> Seq<Seq<char>> {
    e.map_values(|x: SubdomainEntry| x.name@)
}

fn resolved_anywhere(s: &Vec<SubdomainSighting>, name: &Vec<char>) -> (r: bool)
    ensures
        r == seen_resolved(s@, name@),
{
    let n = s.len();
    for j in 0..n
        invariant
            n == s@.len(),
            forall|k: int| 0 <= k < j ==> !((#[trigger] s@[k]).name@ == name@ && s@[k].resolved),
    {
        if s[j].resolved {
            let v = chars_of(s[j].name.as_str());
            if seq_eq(&v, name) {
                return true;
            }
        }
    }
    false
}

/// Merges the subdomains the scans of a target reported: each name once,
/// in `String` order, resolved when any scan saw it resolve.
pub fn merge_subdomains(sightings: &Vec<SubdomainSighting>) -> (r: Vec<SubdomainEntry>)
    ensures
        strictly_sorted(entry_names(r@)),
        entry_names(r@).to_set() == sighted_names(sightings@),
        forall|i: int| 0 <= i < r@.len() ==> (#[trigger] r@[i]).resolved == seen_resolved(
            sightings@,
            r@[i].name@,
        ),
{
    let mut names: Vec<Vec<char>> = Vec::new();
    let n = sightings.len();
    assert(views(names@).to_set() =~= sightings@.take(0).map_values(
        |x: SubdomainSighting| x.name@,
    ).to_set());
    for i in 0..n
        invariant
            n == sightings@.len(),
            strictly_sorted(views(names@)),
            views(names@).to_set() == sightings@.take(i as int).map_values(
                |x: SubdomainSighting| x.name@,
            ).to_set(),
    {
        let v = chars_of(sightings[i].name.as_str());
        let ghost before = sightings@.take(i as int).map_values(|x: SubdomainSighting| x.name@);
        sorted_insert(&mut names, v);
        proof {
            let after = sightings@.take(i + 1).map_values(|x: SubdomainSighting| x.name@);
            assert(after =~= before.push(sightings@[i as int].name@));
            before.lemma_push_to_set_commute(sightings@[i as int].name@);
        }
    }
    assert(sightings@.take(n as int) =~= sightings@);
    let mut r: Vec<SubdomainEntry> = Vec::new();
    let m = names.len();
    for k in 0..m
        invariant
            m == names@.len(),
            entry_names(r@) == views(names@).take(k as int),
            forall|i: int| 0 <= i < r@.len() ==> (#[trigger] r@[i]).resolved == seen_resolved(
                sightings@,
                r@[i].name@,
            ),
    {
        let resolved = resolved_anywhere(sightings, &names[k]);
        let name = string_of(&names[k]);
        let ghost before = entry_names(r@);
        r.push(SubdomainEntry { name, resolved });
        assert(entry_names(r@) =~= before.push(names@[k as int]@));
        assert(views(names@).take(k + 1) =~= views(names@).take(k as int).push(views(names@)[k as int]));
    }
    assert(views(names@).take(m as int) =~= views(names@));
    r
}

/// The card does not depend on which scan reported first: merging the
/// subdomains of two scans in either order gives the same names, each
/// resolved alike.
pub proof fn lemma_merge_is_order_independent(
    a: Seq<SubdomainSighting>,
    b: Seq<SubdomainSighting>,
    name: Seq<char>,
)
    ensures
        sighted_names(a + b) == sighted_names(b + a),
        seen_resolved(a + b, name) == seen_resolved(b + a, name),
{
    let ab = a + b;
    let ba = b + a;
    assert forall|x: Seq<char>| sighted_names(ab).contains(x) <==> sighted_names(ba).contains(x) by {
        let nab = ab.map_values(|s: SubdomainSighting| s.name@);
        let nba = ba.map_values(|s: SubdomainSighting| s.name@);
        if nab.contains(x) {
            let i = choose|i: int| 0 <= i < nab.len() && nab[i] == x;
            if i < a.len() {
                assert(nba[b.len() + i] == x);
            } else {
                assert(nba[i - a.len()] == x);
            }
        }
        if nba.contains(x) {
            let i = choose|i: int| 0 <= i < nba.len() && nba[i] == x;
            if i < b.len() {
                assert(nab[a.len() + i] == x);
            } else {
                assert(nab[i - b.len()] == x);
            }
        }
    }
    assert(sighted_names(ab) =~= sighted_names(ba));
    if seen_resolved(ab, name) {
        let j = choose|j: int| 0 <= j < ab.len() && (#[trigger] ab[j]).name@ == name && ab[j].resolved;
        if j < a.len() {
            assert(ba[b.len() + j] == ab[j]);
        } else {
            assert(ba[j - a.len()] == ab[j]);
        }
    }
    if seen_resolved(ba, name) {
        let j = choose|j: int| 0 <= j < ba.len() && (#[trigger] ba[j]).name@ == name && ba[j].resolved;
        if j < b.len() {
            assert(ab[a.len() + j] == ba[j]);
        } else {
            assert(ab[j - b.len()] == ba[j]);
        }
    }
}

/// At most this many subdomains are listed on a card.
pub const CARD_SUBDOMAIN_LIMIT: usize = 30;

/// The open-port count of a target: the first port scan (in the order its
/// definitions are given) whose latest summary gives one, else zero.
pub open spec fn first_open_ports(totals: Seq<Option<u64>>) -> u64
    decreases totals.len(),
{
    if totals.len() == 0 {
        0
    } else {
        match totals[0] {
            Some(t) => t,
            None => first_open_ports(totals.drop_first()),
        }
    }
}

/// Picks the open-port count of a target.
pub fn open_port_count(totals: &Vec<Option<u64>>) -> (r: u64)
    ensures
        r == first_open_ports(totals@),
{
    let n = totals.len();
    let mut i: usize = 0;
    assert(totals@.skip(0) =~= totals@);
    while i < n
        invariant
            n == totals@.len(),
            i <= n,
            first_open_ports(totals@) == first_open_ports(totals@.skip(i as int)),
        decreases n - i,
    {
        assert(totals@.skip(i as int).drop_first() =~= totals@.skip(i + 1));
        match totals[i] {
            Some(t) => {
                return t;
            },
            None => {},
        }
        i = i + 1;
    }
    0
}

/// The sum of the counts of the rows for `severity`.
pub open spec fn severity_sum(rows: Seq<SeverityCount>, severity: Seq<char>) -> int
    decreases rows.len(),
{
    if rows.len() == 0 {
        0
    } else {
        severity_sum(rows.drop_last(), severity) + if rows.last().severity@ == severity {
            rows.last().count as int
        } else {
            0
        }
    }
}

/// The sum of the counts of all rows.
pub open spec fn count_sum(rows: Seq<SeverityCount>) -> int
    decreases rows.len(),
{
    if rows.len() == 0 {
        0
    } else {
        count_sum(rows.drop_last()) + rows.last().count
    }
}

/// Every running total of the counts fits in an `i64`, overall and per
/// severity.
pub open spec fn sums_fit(rows: Seq<SeverityCount>) -> bool {
    &&& forall|k: int, s: Seq<char>|
        0 <= k <= rows.len() ==> i64::MIN <= #[trigger] severity_sum(rows.take(k), s) <= i64::MAX
    &&& forall|k: int| 0 <= k <= rows.len() ==> i64::MIN <= #[trigger] count_sum(rows.take(k)) <= i64::MAX
}

/// The five level names differ from each other.
proof fn lemma_level_names_differ()
    ensures
        "extreme"@[0] == 'e' && "extreme"@[1] == 'x' && "extreme"@.len() == 7,
        "high"@[0] == 'h',
        "elevated"@[0] == 'e' && "elevated"@[1] == 'l' && "elevated"@.len() == 8,
        "moderate"@[0] == 'm',
        "low"@[0] == 'l' && "low"@.len() == 3,
{
    reveal_strlit("extreme");
    reveal_strlit("high");
    reveal_strlit("elevated");
    reveal_strlit("moderate");
    reveal_strlit("low");
}

/// Findings of a target per level (named exactly as the levels are), and
/// over all severities.
#[derive(Clone, Copy, Debug, PartialEq, Eq, Structural)]
pub struct SeverityTally {
    pub extreme: i64,
    pub high: i64,
    pub elevated: i64,
    pub moderate: i64,
    pub low: i64,
    pub total: i64,
}

/// Adds up the findings of a target: the rows of findings on its host name
/// and those of its linked engagements.
pub fn tally_findings(rows: &Vec<SeverityCount>) -> (r: SeverityTally)
    requires
        sums_fit(rows@),
    ensures
        r.extreme == severity_sum(rows@, "extreme"@),
        r.high == severity_sum(rows@, "high"@),
        r.elevated == severity_sum(rows@, "elevated"@),
        r.moderate == severity_sum(rows@, "moderate"@),
        r.low == severity_sum(rows@, "low"@),
        r.total == count_sum(rows@),
{
    let mut t = SeverityTally { extreme: 0, high: 0, elevated: 0, moderate: 0, low: 0, total: 0 };
    let n = rows.len();
    assert(rows@.take(0) =~= Seq::<SeverityCount>::empty());
    for i in 0..n
        invariant
            n == rows@.len(),
            sums_fit(rows@),
            t.extreme == severity_sum(rows@.take(i as int), "extreme"@),
            t.high == severity_sum(rows@.take(i as int), "high"@),
            t.elevated == severity_sum(rows@.take(i as int), "elevated"@),
            t.moderate == severity_sum(rows@.take(i as int), "moderate"@),
            t.low == severity_sum(rows@.take(i as int), "low"@),
            t.total == count_sum(rows@.take(i as int)),
    {
        let ghost pre = rows@.take(i as int);
        let ghost post = rows@.take(i + 1);
        assert(post.drop_last() =~= pre);
        let row = &rows[i];
        assert(post.last() == *row);
        proof {
            lemma_level_names_differ();
        }
        let s = chars_of(row.severity.as_str());
        assert(i64::MIN <= count_sum(post) <= i64::MAX);
        t.total = t.total + row.count;
        if eq_str(&s, "extreme") {
            assert(i64::MIN <= severity_sum(post, "extreme"@) <= i64::MAX);
            t.extreme = t.extreme + row.count;
        } else if eq_str(&s, "high") {
            assert(i64::MIN <= severity_sum(post, "high"@) <= i64::MAX);
            t.high = t.high + row.count;
        } else if eq_str(&s, "elevated") {
            assert(i64::MIN <= severity_sum(post, "elevated"@) <= i64::MAX);
            t.elevated = t.elevated + row.count;
        } else if eq_str(&s, "moderate") {
            assert(i64::MIN <= severity_sum(post, "moderate"@) <= i64::MAX);
            t.moderate = t.moderate + row.count;
        } else if eq_str(&s, "low") {
            assert(i64::MIN <= severity_sum(post, "low"@) <= i64::MAX);
            t.low = t.low + row.count;
        }
    }
    assert(rows@.take(n as int) =~= rows@);
    t
}

/// The highest level with findings, or `none`.
pub open spec fn highest_level(t: SeverityTally) -> Seq<char> {
    if t.extreme > 0 {
        "extreme"@
    } else if t.high > 0 {
        "high"@
    } else if t.elevated > 0 {
        "elevated"@
    } else if t.moderate > 0 {
        "moderate"@
    } else if t.low > 0 {
        "low"@
    } else {
        "none"@
    }
}

/// The highest level names the most severe level that has findings, in the
/// order extreme, high, elevated, moderate, low, whatever the less severe
/// levels hold; `none` when no level has any.
pub proof fn lemma_highest_level_order(t: SeverityTally)
    ensures
        t.extreme > 0 ==> highest_level(t) == "extreme"@,
        t.extreme <= 0 && t.high > 0 ==> highest_level(t) == "high"@,
        t.extreme <= 0 && t.high <= 0 && t.elevated > 0 ==> highest_level(t) == "elevated"@,
        t.extreme <= 0 && t.high <= 0 && t.elevated <= 0 && t.moderate > 0 ==> highest_level(t)
            == "moderate"@,
        t.extreme <= 0 && t.high <= 0 && t.elevated <= 0 && t.moderate <= 0 && t.low > 0
            ==> highest_level(t) == "low"@,
        t.extreme <= 0 && t.high <= 0 && t.elevated <= 0 && t.moderate <= 0 && t.low <= 0
            ==> highest_level(t) == "none"@,
{
}

/// The highest level with findings (which colours the card's border).
pub fn highest_severity(t: &SeverityTally) -> (r: &'static str)
    ensures
        r@ == highest_level(*t),
        t.extreme > 0 ==> r@ == "extreme"@,
        t.extreme <= 0 && t.high > 0 ==> r@ == "high"@,
        t.extreme <= 0 && t.high <= 0 && t.elevated > 0 ==> r@ == "elevated"@,
        t.extreme <= 0 && t.high <= 0 && t.elevated <= 0 && t.moderate > 0 ==> r@ == "moderate"@,
        t.extreme <= 0 && t.high <= 0 && t.elevated <= 0 && t.moderate <= 0 && t.low > 0 ==> r@
            == "low"@,
        t.extreme <= 0 && t.high <= 0 && t.elevated <= 0 && t.moderate <= 0 && t.low <= 0 ==> r@
            == "none"@,
{
    proof {
        lemma_highest_level_order(*t);
    }
    if t.extreme > 0 {
        "extreme"
    } else if t.high > 0 {
        "high"
    } else if t.elevated > 0 {
        "elevated"
    } else if t.moderate > 0 {
        "moderate"
    } else if t.low > 0 {
        "low"
    } else {
        "none"
    }
}

/// The figures of one attack-surface card.
#[derive(Clone, Debug)]
pub struct SurfaceCard {
    /// The number of distinct subdomains found.
    pub subdomain_count: u64,
    /// The first of them, in order, up to the card's limit.
    pub subdomains: Vec<SubdomainEntry>,
    pub open_ports: u64,
    pub findings: SeverityTally,
    pub highest_severity: &'static str,
}

/// Builds the card of a target from the subdomains its scans reported, the
/// open-port counts of its port scans, and the severity rows of its
/// findings.
pub fn attack_surface_card(
    sightings: &Vec<SubdomainSighting>,
    port_totals: &Vec<Option<u64>>,
    severity_rows: &Vec<SeverityCount>,
) -> (r: SurfaceCard)
    requires
        sums_fit(severity_rows@),
    ensures
        r.subdomain_count == sighted_names(sightings@).len(),
        strictly_sorted(entry_names(r.subdomains@)),
        r.subdomains@.len() == if sighted_names(sightings@).len() < CARD_SUBDOMAIN_LIMIT {
            sighted_names(sightings@).len()
        } else {
            CARD_SUBDOMAIN_LIMIT as nat
        },
        forall|i: int|
            0 <= i < r.subdomains@.len() ==> sighted_names(sightings@).contains(
                (#[trigger] r.subdomains@[i]).name@,
            ) && r.subdomains@[i].resolved == seen_resolved(sightings@, r.subdomains@[i].name@),
        forall|i: int, x: Seq<char>|
            0 <= i < r.subdomains@.len() && sighted_names(sightings@).contains(x) && #[trigger] lex_lt(
                x,
                r.subdomains@[i].name@,
            ) ==> entry_names(r.subdomains@).contains(x),
        r.open_ports == first_open_ports(port_totals@),
        r.findings.extreme == severity_sum(severity_rows@, "extreme"@),
        r.findings.high == severity_sum(severity_rows@, "high"@),
        r.findings.elevated == severity_sum(severity_rows@, "elevated"@),
        r.findings.moderate == severity_sum(severity_rows@, "moderate"@),
        r.findings.low == severity_sum(severity_rows@, "low"@),
        r.findings.total == count_sum(severity_rows@),
        r.highest_severity@ == highest_level(r.findings),
{
    let all = merge_subdomains(sightings);
    let ghost names = entry_names(all@);
    proof {
        lemma_sorted_no_duplicates(names);
        names.unique_seq_to_set();
    }
    let count = all.len() as u64;
    let mut shown: Vec<SubdomainEntry> = Vec::new();
    let limit = if all.len() < CARD_SUBDOMAIN_LIMIT {
        all.len()
    } else {
        CARD_SUBDOMAIN_LIMIT
    };
    for k in 0..limit
        invariant
            limit <= all@.len(),
            names == entry_names(all@),
            shown@.len() == k,
            entry_names(shown@) == names.take(k as int),
            forall|i: int| 0 <= i < k ==> (#[trigger] shown@[i]).resolved == all@[i].resolved,
    {
        let e = SubdomainEntry { name: all[k].name.clone(), resolved: all[k].resolved };
        shown.push(e);
        assert(entry_names(shown@) =~= names.take(k + 1));
    }
    proof {
        let sn = entry_names(shown@);
        assert forall|i: int, j: int| 0 <= i < j < sn.len() implies lex_lt(
            #[trigger] sn[i],
            #[trigger] sn[j],
        ) by {
            assert(sn[i] == names[i] && sn[j] == names[j]);
        }
        assert forall|i: int| 0 <= i < shown@.len() implies sighted_names(sightings@).contains(
            (#[trigger] shown@[i]).name@,
        ) && shown@[i].resolved == seen_resolved(sightings@, shown@[i].name@) by {
            assert(sn[i] == names[i]);
            assert(names[i] == all@[i].name@);
            assert(names.to_set().contains(names[i]));
        }
        assert forall|i: int, x: Seq<char>|
            0 <= i < shown@.len() && sighted_names(sightings@).contains(x) && #[trigger] lex_lt(
                x,
                shown@[i].name@,
            ) implies sn.contains(x) by {
            assert(sn[i] == names[i]);
            assert(names.to_set().contains(x));
            let t = choose|t: int| 0 <= t < names.len() && names[t] == x;
            if t >= limit {
                assert(lex_lt(names[i], names[t]));
                lemma_lex_transitive(x, names[i], x);
                lemma_lex_irreflexive(x);
            } else {
                assert(sn[t] == x);
            }
        }
    }
    let findings = tally_findings(severity_rows);
    let highest = highest_severity(&findings);
    SurfaceCard {
        subdomain_count: count,
        subdomains: shown,
        open_ports: open_port_count(port_totals),
        findings,
        highest_severity: highest,
    }
}


/// A scan target as the attack-surface page lists it.
#[derive(Clone, Debug)]
pub struct SurfaceTarget {
    /// The target's public id, as text.
    pub pid: String,
    pub hostname: Option<String>,
    pub ip_address: Option<String>,
    pub label: Option<String>,
    pub target_type: String,
}

/// One row of the attack-surface page: the target's name, id, label and
/// type, and its card.
#[derive(Clone, Debug)]
pub struct SurfaceRow {
    pub hostname: String,
    pub pid: String,
    pub label: String,
    pub target_type: String,
    pub card: SurfaceCard,
}

/// The name shown for a target: its host name, else its address, else
/// `unknown`.
pub open spec fn surface_name(t: SurfaceTarget) -> Seq<char> {
    match (t.hostname, t.ip_address) {
        (Some(h), _) => h@,
        (None, Some(a)) => a@,
        (None, None) => "unknown"@,
    }
}

/// Whether `r` is the row of target `t` with card `c`.
pub open spec fn is_surface_row(r: SurfaceRow, t: SurfaceTarget, c: SurfaceCard) -> bool {
    &&& r.hostname@ == surface_name(t)
    &&& r.pid@ == t.pid@
    &&& r.label@ == (match t.label {
        Some(l) => l@,
        None => ""@,
    })
    &&& r.target_type@ == t.target_type@
    &&& r.card == c
}

fn opt_str(o: &Option<String>) -> (r: Option<&str>)
    ensures
        match (*o, r) {
            (Some(a), Some(b)) => a@ == b@,
            (None, None) => true,
            _ => false,
        },
{
    match o {
        Some(s) => Some(s.as_str()),
        None => None,
    }
}

/// The row of one target with its card.
pub fn surface_row(t: &SurfaceTarget, card: SurfaceCard) -> (r: SurfaceRow)
    ensures
        is_surface_row(r, *t, card),
{
    let name = target_display_name(opt_str(&t.hostname), opt_str(&t.ip_address));
    let label = match &t.label {
        Some(l) => l.as_str().to_owned(),
        None => "".to_owned(),
    };
    SurfaceRow {
        hostname: name.to_owned(),
        pid: t.pid.as_str().to_owned(),
        label,
        target_type: t.target_type.as_str().to_owned(),
        card,
    }
}

/// The rows of the attack-surface page: one per target, in the order the
/// targets are given, each with the card built for it.
pub fn surface_rows(targets: &Vec<SurfaceTarget>, cards: Vec<SurfaceCard>) -> (r: Vec<SurfaceRow>)
    requires
        cards@.len() == targets@.len(),
    ensures
        r@.len() == targets@.len(),
        forall|i: int| 0 <= i < r@.len() ==> is_surface_row(#[trigger] r@[i], targets@[i], cards@[i]),
{
    let ghost all = cards@;
    let mut rest = cards;
    let mut rows: Vec<SurfaceRow> = Vec::new();
    let n = targets.len();
    for i in 0..n
        invariant
            n == targets@.len(),
            all.len() == n,
            rest@ == all.skip(i as int),
            rows@.len() == i,
            forall|j: int| 0 <= j < i ==> is_surface_row(#[trigger] rows@[j], targets@[j], all[j]),
    {
        let c = rest.remove(0);
        assert(c == all[i as int]);
        assert(rest@ =~= all.skip(i + 1));
        rows.push(surface_row(&targets[i], c));
    }
    rows
}

} // verus!

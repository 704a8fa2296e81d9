//! What changed between two runs of a subdomain scan or a port scan.
//!
//! A run keeps a summary; the next run of the same definition compares what
//! it found with that summary and reports each change once.
use vstd::prelude::*;

use crate::text::{
    chars_of, contains_chars, decimal, eq_str, lemma_sorted_members, push_decimal, push_str,
    seq_eq, sorted_difference, sorted_insert, sorted_members, string_of, strictly_sorted, views,
};

verus! {

/// The kinds of change a scan reports.
#[derive(Clone, Copy, Debug, PartialEq, Eq, Structural)]
pub enum DiffKind {
    /// A subdomain seen for the first time.
    SubdomainAdded,
    /// A subdomain of the earlier run that is gone.
    SubdomainRemoved,
    /// A known subdomain that now resolves.
    SubdomainResolved,
    /// A known subdomain that no longer resolves.
    SubdomainUnresolved,
    /// A newly open port.
    PortAdded,
    /// A port that was open and is not any more.
    PortRemoved,
}

/// The name under which each kind of change is stored.
pub open spec fn diff_type_text(k: DiffKind) -> Seq<char> {
    match k {
        DiffKind::SubdomainAdded => "subdomain_added"@,
        DiffKind::SubdomainRemoved => "subdomain_removed"@,
        DiffKind::SubdomainResolved => "subdomain_resolved"@,
        DiffKind::SubdomainUnresolved => "subdomain_unresolved"@,
        DiffKind::PortAdded => "added"@,
        DiffKind::PortRemoved => "removed"@,
    }
}

impl DiffKind {
    /// The stored name of this kind of change.
    pub fn diff_type(&self) -> (r: &'static str)
        ensures
            r@ == diff_type_text(*self),
    {
        match self {
            DiffKind::SubdomainAdded => "subdomain_added",
            DiffKind::SubdomainRemoved => "subdomain_removed",
            DiffKind::SubdomainResolved => "subdomain_resolved",
            DiffKind::SubdomainUnresolved => "subdomain_unresolved",
            DiffKind::PortAdded => "added",
            DiffKind::PortRemoved => "removed",
        }
    }
}

/// One reported change: its kind, the subdomain or `port/protocol` it is
/// about, and for a subdomain still present, its position in the current
/// scan (whose record the change quotes).
#[derive(Clone, Debug)]
pub struct ScanChange {
    pub kind: DiffKind,
    pub key: String,
    pub current: Option<usize>,
}

/// A change as a plain value.
pub open spec fn change_view(c: ScanChange) -> (DiffKind, Seq<char>, Option<usize>) {
    (c.kind, c.key@, c.current)
}

/// The changes as plain values.
pub open spec fn changes_view(r: Seq<ScanChange>) -> Seq<(DiffKind, Seq<char>, Option<usize>)> {
    r.map_values(|c: ScanChange| change_view(c))
}

// ---------------------------------------------------------------------------
// Subdomains
// ---------------------------------------------------------------------------

/// A subdomain as the current scan saw it.
#[derive(Clone, Debug)]
pub struct SubdomainInfo {
    pub name: String,
    pub resolved: bool,
    pub ips: Vec<String>,
}

/// One element of the `subdomains` list kept by the earlier run.
#[derive(Clone, Debug)]
pub enum PreviousSubdomain {
    /// An object; `name` when its name is a string, `resolved` when its
    /// resolved flag is a boolean.
    Record { name: Option<String>, resolved: Option<bool> },
    /// A bare string, the older form of the list.
    Plain(String),
    /// Any other value.
    Other,
}

/// The subdomain an earlier entry names, if it names one.
pub open spec fn previous_name(e: PreviousSubdomain) -> Option<Seq<char>> {
    match e {
        PreviousSubdomain::Record { name: Some(n), .. } => Some(n@),
        PreviousSubdomain::Plain(s) => Some(s@),
        _ => None,
    }
}

/// All subdomains the earlier run names.
pub open spec fn previous_names(prev: Seq<PreviousSubdomain>) -> Set<Seq<char>>
    decreases prev.len(),
{
    if prev.len() == 0 {
        Set::empty()
    } else {
        let rest = previous_names(prev.drop_last());
        match previous_name(prev.last()) {
            Some(n) => rest.insert(n),
            None => rest,
        }
    }
}

/// What a record of the earlier run says of whether `n` resolved, if it is
/// a record for `n` (a missing flag counts as not resolved).
pub open spec fn record_resolution(e: PreviousSubdomain, n: Seq<char>) -> Option<bool> {
    match e {
        PreviousSubdomain::Record { name: Some(m), resolved } => if m@ == n {
            Some(
                match resolved {
                    Some(b) => b,
                    None => false,
                },
            )
        } else {
            None
        },
        _ => None,
    }
}

/// Whether `n` resolved in the earlier run: the last record for it decides;
/// with no record, it did not.
pub open spec fn was_resolved(prev: Seq<PreviousSubdomain>, n: Seq<char>) -> bool
    decreases prev.len(),
{
    if prev.len() == 0 {
        false
    } else {
        match record_resolution(prev.last(), n) {
            Some(b) => b,
            None => was_resolved(prev.drop_last(), n),
        }
    }
}

/// The names the current scan saw.
pub open spec fn current_names(infos: Seq<SubdomainInfo>) -> Set<Seq<char>> {
    infos.map_values(|i: SubdomainInfo| i.name@).to_set()
}

/// The change reported for the `i`-th subdomain of the current scan, if any.
pub open spec fn change_for(infos: Seq<SubdomainInfo>, prev: Seq<PreviousSubdomain>, i: int) -> Seq<
    (DiffKind, Seq<char>, Option<usize>),
> {
    let info = infos[i];
    if previous_names(prev).contains(info.name@) {
        let was = was_resolved(prev, info.name@);
        if info.resolved && !was {
            seq![(DiffKind::SubdomainResolved, info.name@, Some(i as usize))]
        } else if !info.resolved && was {
            seq![(DiffKind::SubdomainUnresolved, info.name@, Some(i as usize))]
        } else {
            seq![]
        }
    } else {
        seq![(DiffKind::SubdomainAdded, info.name@, Some(i as usize))]
    }
}

/// The changes reported for the first `k` subdomains of the current scan,
/// in their order.
pub open spec fn changes_upto(infos: Seq<SubdomainInfo>, prev: Seq<PreviousSubdomain>, k: int) -> Seq<
    (DiffKind, Seq<char>, Option<usize>),
>
    decreases k,
{
    if k <= 0 {
        seq![]
    } else {
        changes_upto(infos, prev, k - 1) + change_for(infos, prev, k - 1)
    }
}

/// The earlier entry's name, when it has one.
fn previous_name_of(e: &PreviousSubdomain) -> (r: Option<Vec<char>>)
    ensures
        match r {
            Some(v) => previous_name(*e) == Some(v@),
            None => previous_name(*e) is None,
        },
{
    match e {
        PreviousSubdomain::Record { name: Some(n), .. } => Some(chars_of(n.as_str())),
        PreviousSubdomain::Plain(s) => Some(chars_of(s.as_str())),
        _ => None,
    }
}

/// The distinct names of the earlier run, in `String` order.
fn sorted_previous_names(prev: &Vec<PreviousSubdomain>) -> (r: Vec<Vec<char>>)
    ensures
        strictly_sorted(views(r@)),
        views(r@).to_set() == previous_names(prev@),
{
    let mut r: Vec<Vec<char>> = Vec::new();
    let n = prev.len();
    assert(views(r@).to_set() =~= Set::<Seq<char>>::empty());
    assert(prev@.take(0) =~= Seq::<PreviousSubdomain>::empty());
    for i in 0..n
        invariant
            n == prev@.len(),
            strictly_sorted(views(r@)),
            views(r@).to_set() == previous_names(prev@.take(i as int)),
    {
        assert(prev@.take(i + 1).drop_last() =~= prev@.take(i as int));
        match previous_name_of(&prev[i]) {
            Some(v) => {
                sorted_insert(&mut r, v);
            },
            None => {},
        }
    }
    assert(prev@.take(n as int) =~= prev@);
    r
}

/// Whether the last record of the earlier run for `name` says it resolved.
fn previous_resolution(prev: &Vec<PreviousSubdomain>, name: &Vec<char>) -> (r: bool)
    ensures
        r == was_resolved(prev@, name@),
{
    let mut k = prev.len();
    assert(prev@.take(k as int) =~= prev@);
    while k > 0
        invariant
            k <= prev@.len(),
            was_resolved(prev@, name@) == was_resolved(prev@.take(k as int), name@),
        decreases k,
    {
        let ghost pre = prev@.take(k as int);
        assert(pre.drop_last() =~= prev@.take(k - 1));
        assert(pre.last() == prev@[k - 1]);
        match &prev[k - 1] {
            PreviousSubdomain::Record { name: Some(m), resolved } => {
                let mv = chars_of(m.as_str());
                if seq_eq(&mv, name) {
                    return match resolved {
                        Some(b) => *b,
                        None => false,
                    };
                }
            },
            _ => {},
        }
        k = k - 1;
    }
    false
}

/// The names of the current scan, in its order.
fn current_name_list(infos: &Vec<SubdomainInfo>) -> (r: Vec<Vec<char>>)
    ensures
        views(r@) == infos@.map_values(|i: SubdomainInfo| i.name@),
{
    let mut r: Vec<Vec<char>> = Vec::new();
    let n = infos.len();
    for i in 0..n
        invariant
            n == infos@.len(),
            views(r@) == infos@.take(i as int).map_values(|x: SubdomainInfo| x.name@),
    {
        r.push(chars_of(infos[i].name.as_str()));
        assert(infos@.take(i + 1).map_values(|x: SubdomainInfo| x.name@) =~= infos@.take(
            i as int,
        ).map_values(|x: SubdomainInfo| x.name@).push(infos@[i as int].name@));
        assert(views(r@) =~= infos@.take(i + 1).map_values(|x: SubdomainInfo| x.name@));
    }
    assert(infos@.take(n as int) =~= infos@);
    r
}

/// Compares a subdomain scan with the earlier run.
///
/// First comes, in the order of the current scan, one change per subdomain:
/// `SubdomainAdded` for a name the earlier run did not have, and for one it
/// had, `SubdomainResolved` or `SubdomainUnresolved` when its resolution
/// flipped. Then come the earlier names missing from this scan, as
/// `SubdomainRemoved`, each once and in `String` order.
pub fn compute_subdomain_changes(
    infos: &Vec<SubdomainInfo>,
    previous: &Vec<PreviousSubdomain>,
) -> (r: Vec<ScanChange>)
    ensures
        changes_view(r@) == changes_upto(infos@, previous@, infos@.len() as int) + removals(
            sorted_members(previous_names(previous@).difference(current_names(infos@))),
            DiffKind::SubdomainRemoved,
        ),
{
    let prev_sorted = sorted_previous_names(previous);
    let mut r: Vec<ScanChange> = Vec::new();
    let n = infos.len();
    for i in 0..n
        invariant
            n == infos@.len(),
            views(prev_sorted@).to_set() == previous_names(previous@),
            changes_view(r@) == changes_upto(infos@, previous@, i as int),
    {
        let name = chars_of(infos[i].name.as_str());
        let ghost before = changes_view(r@);
        if contains_chars(&prev_sorted, &name) {
            let was = previous_resolution(previous, &name);
            if infos[i].resolved && !was {
                r.push(
                    ScanChange {
                        kind: DiffKind::SubdomainResolved,
                        key: infos[i].name.clone(),
                        current: Some(i),
                    },
                );
            } else if !infos[i].resolved && was {
                r.push(
                    ScanChange {
                        kind: DiffKind::SubdomainUnresolved,
                        key: infos[i].name.clone(),
                        current: Some(i),
                    },
                );
            }
        } else {
            r.push(
                ScanChange {
                    kind: DiffKind::SubdomainAdded,
                    key: infos[i].name.clone(),
                    current: Some(i),
                },
            );
        }
        assert(changes_view(r@) =~= before + change_for(infos@, previous@, i as int));
    }
    let cur_names = current_name_list(infos);
    let removed = sorted_difference(&prev_sorted, &cur_names);
    append_keys(&mut r, &removed, DiffKind::SubdomainRemoved);
    proof {
        lemma_sorted_members(views(removed@));
    }
    r
}

/// One change of the given kind for each key, in order, quoting no current
/// record.
pub open spec fn removals(keys: Seq<Seq<char>>, kind: DiffKind) -> Seq<
    (DiffKind, Seq<char>, Option<usize>),
> {
    keys.map_values(|k: Seq<char>| (kind, k, None::<usize>))
}

/// Appends a change of kind `kind` for each of `keys`.
fn append_keys(r: &mut Vec<ScanChange>, keys: &Vec<Vec<char>>, kind: DiffKind)
    ensures
        changes_view(final(r)@) == changes_view(old(r)@) + removals(views(keys@), kind),
{
    let ghost start = changes_view(r@);
    let m = keys.len();
    for k in 0..m
        invariant
            m == keys@.len(),
            changes_view(r@) == start + removals(views(keys@).take(k as int), kind),
    {
        let ghost before = changes_view(r@);
        let key = string_of(&keys[k]);
        r.push(ScanChange { kind, key, current: None });
        assert(removals(views(keys@).take(k + 1), kind) =~= removals(
            views(keys@).take(k as int),
            kind,
        ).push((kind, keys@[k as int]@, None::<usize>)));
        assert(changes_view(r@) =~= before.push((kind, keys@[k as int]@, None::<usize>)));
    }
    assert(views(keys@).take(m as int) =~= views(keys@));
}

/// A word stored with a change.
#[derive(Clone, Copy, Debug, PartialEq, Eq, Structural)]
pub enum ChangeWord {
    Resolved,
    Unresolved,
    Open,
    Closed,
}

impl ChangeWord {
    /// The word as stored.
    pub fn text(&self) -> (r: &'static str)
        ensures
            r@ == match *self {
                ChangeWord::Resolved => "resolved"@,
                ChangeWord::Unresolved => "unresolved"@,
                ChangeWord::Open => "open"@,
                ChangeWord::Closed => "closed"@,
            },
    {
        match self {
            ChangeWord::Resolved => "resolved",
            ChangeWord::Unresolved => "unresolved",
            ChangeWord::Open => "open",
            ChangeWord::Closed => "closed",
        }
    }
}

/// A value stored with a change, before or after it.
#[derive(Clone, Copy, Debug, PartialEq, Eq, Structural)]
pub enum ChangeValue {
    /// No value.
    Absent,
    /// A word.
    Word(ChangeWord),
    /// The current scan's record at `record` (its addresses), with this
    /// resolution.
    Record { resolved: bool, record: usize },
}

/// The values stored with a change, before and after: an added subdomain
/// stores its record; a resolved one was `unresolved` and stores its record
/// as resolved; an unresolved one went from `resolved` to `unresolved`; a
/// removed one stores nothing; a port went from nothing to `open`, or from
/// `open` to `closed`.
pub open spec fn stored_values(c: ScanChange, infos: Seq<SubdomainInfo>) -> (ChangeValue, ChangeValue) {
    match c.kind {
        DiffKind::SubdomainAdded => match c.current {
            Some(i) => (ChangeValue::Absent, ChangeValue::Record { resolved: infos[i as int].resolved, record: i }),
            None => (ChangeValue::Absent, ChangeValue::Absent),
        },
        DiffKind::SubdomainResolved => match c.current {
            Some(i) => (ChangeValue::Word(ChangeWord::Unresolved), ChangeValue::Record { resolved: true, record: i }),
            None => (ChangeValue::Word(ChangeWord::Unresolved), ChangeValue::Absent),
        },
        DiffKind::SubdomainUnresolved => (ChangeValue::Word(ChangeWord::Resolved), ChangeValue::Word(ChangeWord::Unresolved)),
        DiffKind::SubdomainRemoved => (ChangeValue::Absent, ChangeValue::Absent),
        DiffKind::PortAdded => (ChangeValue::Absent, ChangeValue::Word(ChangeWord::Open)),
        DiffKind::PortRemoved => (ChangeValue::Word(ChangeWord::Open), ChangeValue::Word(ChangeWord::Closed)),
    }
}

/// The values to store with a change of a scan whose records are `infos`.
pub fn change_values(c: &ScanChange, infos: &Vec<SubdomainInfo>) -> (r: (ChangeValue, ChangeValue))
    requires
        c.current matches Some(i) ==> i < infos@.len(),
    ensures
        r == stored_values(*c, infos@),
{
    match c.kind {
        DiffKind::SubdomainAdded => match c.current {
            Some(i) => (ChangeValue::Absent, ChangeValue::Record { resolved: infos[i].resolved, record: i }),
            None => (ChangeValue::Absent, ChangeValue::Absent),
        },
        DiffKind::SubdomainResolved => match c.current {
            Some(i) => (ChangeValue::Word(ChangeWord::Unresolved), ChangeValue::Record { resolved: true, record: i }),
            None => (ChangeValue::Word(ChangeWord::Unresolved), ChangeValue::Absent),
        },
        DiffKind::SubdomainUnresolved => (ChangeValue::Word(ChangeWord::Resolved), ChangeValue::Word(ChangeWord::Unresolved)),
        DiffKind::SubdomainRemoved => (ChangeValue::Absent, ChangeValue::Absent),
        DiffKind::PortAdded => (ChangeValue::Absent, ChangeValue::Word(ChangeWord::Open)),
        DiffKind::PortRemoved => (ChangeValue::Word(ChangeWord::Open), ChangeValue::Word(ChangeWord::Closed)),
    }
}

// ---------------------------------------------------------------------------
// Ports
// ---------------------------------------------------------------------------

/// A port as the current scan saw it, with the service and version the
/// scanner recognised on it (empty when none).
#[derive(Clone, Debug)]
pub struct PortInfo {
    pub port: u64,
    pub protocol: String,
    pub state: String,
    pub service: String,
    pub version: String,
}

/// One element of the `ports` list kept by the earlier run: each field when
/// it is present with the expected type.
#[derive(Clone, Debug)]
pub struct PreviousPort {
    pub port: Option<u64>,
    pub protocol: Option<String>,
    pub state: Option<String>,
}

/// The key of a port: its number in decimal, `/`, its protocol.
pub open spec fn port_key(port: nat, protocol: Seq<char>) -> Seq<char> {
    decimal(port) + "/"@ + protocol
}

/// The key of a port of the current scan, when it is open.
pub open spec fn current_port_key(p: PortInfo) -> Option<Seq<char>> {
    if p.state@ == "open"@ {
        Some(port_key(p.port as nat, p.protocol@))
    } else {
        None
    }
}

/// The key of a port of the earlier run, when it is listed as open with a
/// number and a protocol.
pub open spec fn previous_port_key(p: PreviousPort) -> Option<Seq<char>> {
    match (p.state, p.port, p.protocol) {
        (Some(s), Some(n), Some(pr)) => if s@ == "open"@ {
            Some(port_key(n as nat, pr@))
        } else {
            None
        },
        _ => None,
    }
}

/// The keys of the ports the current scan found open.
pub open spec fn current_open_keys(ports: Seq<PortInfo>) -> Set<Seq<char>> {
    Set::new(|k: Seq<char>| exists|i: int| 0 <= i < ports.len() && current_port_key(ports[i]) == Some(k))
}

/// The keys of the ports the earlier run lists as open.
pub open spec fn previous_open_keys(prev: Seq<PreviousPort>) -> Set<Seq<char>> {
    Set::new(|k: Seq<char>| exists|i: int| 0 <= i < prev.len() && previous_port_key(prev[i]) == Some(k))
}

/// Builds the key of a port.
fn make_port_key(port: u64, protocol: &str) -> (r: Vec<char>)
    ensures
        r@ == port_key(port as nat, protocol@),
{
    let mut v: Vec<char> = Vec::new();
    push_decimal(&mut v, port);
    push_str(&mut v, "/");
    push_str(&mut v, protocol);
    assert(v@ =~= port_key(port as nat, protocol@));
    v
}

/// The key of a port of the current scan when it is open.
fn current_key_of(p: &PortInfo) -> (r: Option<Vec<char>>)
    ensures
        match r {
            Some(v) => current_port_key(*p) == Some(v@),
            None => current_port_key(*p) is None,
        },
{
    let st = chars_of(p.state.as_str());
    if eq_str(&st, "open") {
        Some(make_port_key(p.port, p.protocol.as_str()))
    } else {
        None
    }
}

/// The key of a port of the earlier run when it is listed as open.
fn previous_key_of(p: &PreviousPort) -> (r: Option<Vec<char>>)
    ensures
        match r {
            Some(v) => previous_port_key(*p) == Some(v@),
            None => previous_port_key(*p) is None,
        },
{
    match (&p.state, &p.port, &p.protocol) {
        (Some(s), Some(n), Some(pr)) => {
            let st = chars_of(s.as_str());
            if eq_str(&st, "open") {
                Some(make_port_key(*n, pr.as_str()))
            } else {
                None
            }
        },
        _ => None,
    }
}

/// The distinct open-port keys of the current scan, in `String` order.
fn sorted_current_keys(ports: &Vec<PortInfo>) -> (r: Vec<Vec<char>>)
    ensures
        strictly_sorted(views(r@)),
        views(r@).to_set() == current_open_keys(ports@),
{
    let mut r: Vec<Vec<char>> = Vec::new();
    let n = ports.len();
    assert(views(r@).to_set() =~= current_open_keys(ports@.take(0)));
    for i in 0..n
        invariant
            n == ports@.len(),
            strictly_sorted(views(r@)),
            views(r@).to_set() == current_open_keys(ports@.take(i as int)),
    {
        let ghost old_set = current_open_keys(ports@.take(i as int));
        let ghost new_set = current_open_keys(ports@.take(i + 1));
        let ghost pre = ports@.take(i as int);
        let ghost post = ports@.take(i + 1);
        let key = current_key_of(&ports[i]);
        proof {
            assert forall|k: Seq<char>| new_set.contains(k) <==> (match current_port_key(ports@[i as int]) {
                Some(x) => old_set.insert(x),
                None => old_set,
            }).contains(k) by {
                if new_set.contains(k) {
                    let j = choose|j: int| 0 <= j < post.len() && current_port_key(post[j]) == Some(k);
                    if j < i {
                        assert(pre[j] == post[j]);
                    }
                }
                if old_set.contains(k) {
                    let j = choose|j: int| 0 <= j < pre.len() && current_port_key(pre[j]) == Some(k);
                    assert(post[j] == pre[j]);
                }
                assert(post[i as int] == ports@[i as int]);
            }
        }
        match key {
            Some(v) => {
                sorted_insert(&mut r, v);
            },
            None => {},
        }
        assert(views(r@).to_set() =~= new_set);
    }
    assert(ports@.take(n as int) =~= ports@);
    r
}

/// The distinct open-port keys of the earlier run, in `String` order.
fn sorted_previous_keys(prev: &Vec<PreviousPort>) -> (r: Vec<Vec<char>>)
    ensures
        strictly_sorted(views(r@)),
        views(r@).to_set() == previous_open_keys(prev@),
{
    let mut r: Vec<Vec<char>> = Vec::new();
    let n = prev.len();
    assert(views(r@).to_set() =~= previous_open_keys(prev@.take(0)));
    for i in 0..n
        invariant
            n == prev@.len(),
            strictly_sorted(views(r@)),
            views(r@).to_set() == previous_open_keys(prev@.take(i as int)),
    {
        let ghost old_set = previous_open_keys(prev@.take(i as int));
        let ghost new_set = previous_open_keys(prev@.take(i + 1));
        let ghost pre = prev@.take(i as int);
        let ghost post = prev@.take(i + 1);
        let key = previous_key_of(&prev[i]);
        proof {
            assert forall|k: Seq<char>| new_set.contains(k) <==> (match previous_port_key(prev@[i as int]) {
                Some(x) => old_set.insert(x),
                None => old_set,
            }).contains(k) by {
                if new_set.contains(k) {
                    let j = choose|j: int| 0 <= j < post.len() && previous_port_key(post[j]) == Some(k);
                    if j < i {
                        assert(pre[j] == post[j]);
                    }
                }
                if old_set.contains(k) {
                    let j = choose|j: int| 0 <= j < pre.len() && previous_port_key(pre[j]) == Some(k);
                    assert(post[j] == pre[j]);
                }
                assert(post[i as int] == prev@[i as int]);
            }
        }
        match key {
            Some(v) => {
                sorted_insert(&mut r, v);
            },
            None => {},
        }
        assert(views(r@).to_set() =~= new_set);
    }
    assert(prev@.take(n as int) =~= prev@);
    r
}

/// Compares a port scan with the earlier run: first `PortAdded` for each
/// port open now and not before, then `PortRemoved` for each port open
/// before and not now, each group once per key and in `String` order of the
/// `port/protocol` keys.
pub fn compute_port_changes(current: &Vec<PortInfo>, previous: &Vec<PreviousPort>) -> (r: Vec<
    ScanChange,
>)
    ensures
        changes_view(r@) == removals(
            sorted_members(current_open_keys(current@).difference(previous_open_keys(previous@))),
            DiffKind::PortAdded,
        ) + removals(
            sorted_members(previous_open_keys(previous@).difference(current_open_keys(current@))),
            DiffKind::PortRemoved,
        ),
        forall|i: int, j: int|
            0 <= i < r@.len() && 0 <= j < r@.len() && r@[i].kind == DiffKind::PortAdded && r@[j].kind
                == DiffKind::PortRemoved ==> (#[trigger] r@[i]).key@ != (#[trigger] r@[j]).key@,
{
    let cur = sorted_current_keys(current);
    let prev = sorted_previous_keys(previous);
    let added = sorted_difference(&cur, &prev);
    let removed = sorted_difference(&prev, &cur);
    let mut r: Vec<ScanChange> = Vec::new();
    append_keys(&mut r, &added, DiffKind::PortAdded);
    append_keys(&mut r, &removed, DiffKind::PortRemoved);
    proof {
        lemma_sorted_members(views(added@));
        lemma_sorted_members(views(removed@));
        assert(changes_view(Seq::<ScanChange>::empty()) =~= seq![]);
        let na = views(added@).len();
        assert forall|i: int, j: int|
            0 <= i < r@.len() && 0 <= j < r@.len() && r@[i].kind == DiffKind::PortAdded && r@[j].kind
                == DiffKind::PortRemoved implies (#[trigger] r@[i]).key@ != (#[trigger] r@[j]).key@ by {
            let cv = changes_view(r@);
            let ra = removals(views(added@), DiffKind::PortAdded);
            let rr = removals(views(removed@), DiffKind::PortRemoved);
            assert(cv =~= ra + rr);
            assert(ra.len() == na);
            assert(cv.len() == r@.len());
            assert(cv.len() == ra.len() + rr.len());
            assert(cv[i] == change_view(r@[i]) && cv[j] == change_view(r@[j]));
            if i >= na {
                assert((ra + rr)[i] == rr[i - na]);
            }
            if j < na {
                assert((ra + rr)[j] == ra[j]);
            }
            assert((ra + rr)[i] == ra[i]);
            assert((ra + rr)[j] == rr[j - na]);
            assert(views(added@).to_set().contains(views(added@)[i]));
            assert(views(removed@).to_set().contains(views(removed@)[j - na]));
        }
    }
    r
}

// ---------------------------------------------------------------------------
// Laws
// ---------------------------------------------------------------------------

/// The `subdomains` list a run keeps of what it saw: one record per
/// subdomain with its name and resolution.
pub open spec fn summary_of(infos: Seq<SubdomainInfo>) -> Seq<PreviousSubdomain> {
    infos.map_values(
        |i: SubdomainInfo| PreviousSubdomain::Record { name: Some(i.name), resolved: Some(i.resolved) },
    )
}

/// No two subdomains of a scan share a name.
pub open spec fn distinct_names(infos: Seq<SubdomainInfo>) -> bool {
    forall|i: int, j: int|
        0 <= i < j < infos.len() ==> (#[trigger] infos[i]).name@ != (#[trigger] infos[j]).name@
}

proof fn lemma_summary_names(infos: Seq<SubdomainInfo>)
    ensures
        previous_names(summary_of(infos)) == current_names(infos),
    decreases infos.len(),
{
    let s = summary_of(infos);
    if infos.len() == 0 {
        assert(current_names(infos) =~= Set::empty());
    } else {
        let init = infos.drop_last();
        lemma_summary_names(init);
        assert(s.drop_last() =~= summary_of(init));
        assert(infos.map_values(|i: SubdomainInfo| i.name@) =~= init.map_values(
            |i: SubdomainInfo| i.name@,
        ).push(infos.last().name@));
        init.map_values(|i: SubdomainInfo| i.name@).lemma_push_to_set_commute(infos.last().name@);
        assert(current_names(infos) =~= current_names(init).insert(infos.last().name@));
    }
}

proof fn lemma_summary_resolution(infos: Seq<SubdomainInfo>, k: int)
    requires
        distinct_names(infos),
        0 <= k < infos.len(),
    ensures
        was_resolved(summary_of(infos), infos[k].name@) == infos[k].resolved,
    decreases infos.len(),
{
    let s = summary_of(infos);
    let last = infos.len() - 1;
    if k < last {
        let init = infos.drop_last();
        assert(s.drop_last() =~= summary_of(init));
        assert(infos[last].name@ != infos[k].name@);
        assert(record_resolution(s.last(), infos[k].name@) is None);
        assert(init[k] == infos[k]);
        lemma_summary_resolution(init, k);
    }
}

/// A rescan that finds exactly what the earlier run recorded reports no
/// change: compared with the summary of the same subdomains (each name once),
/// nothing is added, removed, resolved or unresolved.
pub proof fn lemma_unchanged_scan_reports_nothing(infos: Seq<SubdomainInfo>)
    requires
        distinct_names(infos),
    ensures
        changes_upto(infos, summary_of(infos), infos.len() as int) + removals(
            sorted_members(previous_names(summary_of(infos)).difference(current_names(infos))),
            DiffKind::SubdomainRemoved,
        ) == Seq::<(DiffKind, Seq<char>, Option<usize>)>::empty(),
{
    let s = summary_of(infos);
    lemma_summary_names(infos);
    assert forall|k: int| 0 <= k <= infos.len() implies changes_upto(infos, s, k) == Seq::<
        (DiffKind, Seq<char>, Option<usize>),
    >::empty() by {
        lemma_no_changes_upto(infos, k);
    }
    assert(previous_names(s).difference(current_names(infos)) =~= Seq::<Seq<char>>::empty().to_set());
    lemma_sorted_members(Seq::<Seq<char>>::empty());
    assert(removals(Seq::<Seq<char>>::empty(), DiffKind::SubdomainRemoved) =~= seq![]);
    assert(changes_upto(infos, s, infos.len() as int) + removals(
        Seq::<Seq<char>>::empty(),
        DiffKind::SubdomainRemoved,
    ) =~= Seq::<(DiffKind, Seq<char>, Option<usize>)>::empty());
}

proof fn lemma_no_changes_upto(infos: Seq<SubdomainInfo>, k: int)
    requires
        distinct_names(infos),
        0 <= k <= infos.len(),
        previous_names(summary_of(infos)) == current_names(infos),
    ensures
        changes_upto(infos, summary_of(infos), k) == Seq::<(DiffKind, Seq<char>, Option<usize>)>::empty(),
    decreases k,
{
    if k > 0 {
        lemma_no_changes_upto(infos, k - 1);
        lemma_summary_resolution(infos, k - 1);
        let names = infos.map_values(|i: SubdomainInfo| i.name@);
        assert(names[k - 1] == infos[k - 1].name@);
        assert(current_names(infos).contains(infos[k - 1].name@));
        assert(change_for(infos, summary_of(infos), k - 1) =~= seq![]);
        assert(changes_upto(infos, summary_of(infos), k) =~= seq![]);
    }
}

/// A port scan that finds open exactly the ports the earlier run had open
/// reports no change.
pub proof fn lemma_same_ports_report_nothing(current: Seq<PortInfo>, previous: Seq<PreviousPort>)
    requires
        current_open_keys(current) == previous_open_keys(previous),
    ensures
        removals(
            sorted_members(current_open_keys(current).difference(previous_open_keys(previous))),
            DiffKind::PortAdded,
        ) + removals(
            sorted_members(previous_open_keys(previous).difference(current_open_keys(current))),
            DiffKind::PortRemoved,
        ) == Seq::<(DiffKind, Seq<char>, Option<usize>)>::empty(),
{
    let e = current_open_keys(current).difference(previous_open_keys(previous));
    assert(e =~= Seq::<Seq<char>>::empty().to_set());
    assert(previous_open_keys(previous).difference(current_open_keys(current)) =~= Seq::<
        Seq<char>,
    >::empty().to_set());
    lemma_sorted_members(Seq::<Seq<char>>::empty());
    assert(removals(Seq::<Seq<char>>::empty(), DiffKind::PortAdded) =~= seq![]);
    assert(removals(Seq::<Seq<char>>::empty(), DiffKind::PortRemoved) =~= seq![]);
    assert(removals(Seq::<Seq<char>>::empty(), DiffKind::PortAdded) + removals(
        Seq::<Seq<char>>::empty(),
        DiffKind::PortRemoved,
    ) =~= Seq::<(DiffKind, Seq<char>, Option<usize>)>::empty());
}

} // verus!

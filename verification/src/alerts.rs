//! The scan-change alert mail: which changes it lists, under which heading.
use vstd::prelude::*;

use crate::text::{chars_of, eq_str};

verus! {

/// The mailer of scan-change alerts.
pub struct ScanAlertMailer;

impl ScanAlertMailer {
    /// The sender of the alerts.
    pub fn sender() -> (r: &'static str)
        ensures
            r@ == "GetHacked <noreply@gethacked.eu>"@,
    {
        "GetHacked <noreply@gethacked.eu>"
    }
}

/// A change as stored with a run: its type name and the key it is about.
#[derive(Clone, Debug)]
pub struct StoredChange {
    pub diff_type: String,
    pub entity_key: String,
}

/// The keys of the changes of one type, in order.
pub open spec fn keys_of_type(diffs: Seq<StoredChange>, t: Seq<char>) -> Seq<Seq<char>>
    decreases diffs.len(),
{
    if diffs.len() == 0 {
        seq![]
    } else if diffs.last().diff_type@ == t {
        keys_of_type(diffs.drop_last(), t).push(diffs.last().entity_key@)
    } else {
        keys_of_type(diffs.drop_last(), t)
    }
}

/// The lists an alert shows.
#[derive(Clone, Debug)]
pub struct AlertLists {
    pub added_subdomains: Vec<String>,
    pub removed_subdomains: Vec<String>,
    pub newly_resolved: Vec<String>,
    pub newly_unresolved: Vec<String>,
    pub new_ports: Vec<String>,
}

/// The views of a list of strings.
pub open spec fn string_views(v: Seq<String>) -> Seq<Seq<char>> {
    v.map_values(|s: String| s@)
}

fn push_key(v: &mut Vec<String>, key: &String)
    ensures
        string_views(final(v)@) == string_views(old(v)@).push(key@),
{
    let ghost before = string_views(v@);
    v.push(key.clone());
    assert(string_views(v@) =~= before.push(key@));
}

/// Sorts the changes of a scan into the alert's lists: added, removed,
/// newly resolved and newly unresolved subdomains, and newly open ports;
/// other changes are not mailed.
pub fn alert_lists(diffs: &Vec<StoredChange>) -> (r: AlertLists)
    ensures
        string_views(r.added_subdomains@) == keys_of_type(diffs@, "subdomain_added"@),
        string_views(r.removed_subdomains@) == keys_of_type(diffs@, "subdomain_removed"@),
        string_views(r.newly_resolved@) == keys_of_type(diffs@, "subdomain_resolved"@),
        string_views(r.newly_unresolved@) == keys_of_type(diffs@, "subdomain_unresolved"@),
        string_views(r.new_ports@) == keys_of_type(diffs@, "added"@),
{
    let mut r = AlertLists {
        added_subdomains: Vec::new(),
        removed_subdomains: Vec::new(),
        newly_resolved: Vec::new(),
        newly_unresolved: Vec::new(),
        new_ports: Vec::new(),
    };
    let n = diffs.len();
    assert(diffs@.take(0) =~= Seq::<StoredChange>::empty());
    assert(string_views(r.added_subdomains@) =~= seq![]);
    assert(string_views(r.removed_subdomains@) =~= seq![]);
    assert(string_views(r.newly_resolved@) =~= seq![]);
    assert(string_views(r.newly_unresolved@) =~= seq![]);
    assert(string_views(r.new_ports@) =~= seq![]);
    for i in 0..n
        invariant
            n == diffs@.len(),
            string_views(r.added_subdomains@) == keys_of_type(
                diffs@.take(i as int),
                "subdomain_added"@,
            ),
            string_views(r.removed_subdomains@) == keys_of_type(
                diffs@.take(i as int),
                "subdomain_removed"@,
            ),
            string_views(r.newly_resolved@) == keys_of_type(
                diffs@.take(i as int),
                "subdomain_resolved"@,
            ),
            string_views(r.newly_unresolved@) == keys_of_type(
                diffs@.take(i as int),
                "subdomain_unresolved"@,
            ),
            string_views(r.new_ports@) == keys_of_type(diffs@.take(i as int), "added"@),
    {
        assert(diffs@.take(i + 1).drop_last() =~= diffs@.take(i as int));
        assert(diffs@.take(i + 1).last() == diffs@[i as int]);
        proof {
            lemma_type_names_differ();
        }
        let t = chars_of(diffs[i].diff_type.as_str());
        let key = &diffs[i].entity_key;
        if eq_str(&t, "subdomain_added") {
            push_key(&mut r.added_subdomains, key);
        } else if eq_str(&t, "subdomain_removed") {
            push_key(&mut r.removed_subdomains, key);
        } else if eq_str(&t, "subdomain_resolved") {
            push_key(&mut r.newly_resolved, key);
        } else if eq_str(&t, "subdomain_unresolved") {
            push_key(&mut r.newly_unresolved, key);
        } else if eq_str(&t, "added") {
            push_key(&mut r.new_ports, key);
        }
    }
    assert(diffs@.take(n as int) =~= diffs@);
    r
}

/// The five type names differ from each other.
proof fn lemma_type_names_differ()
    ensures
        "subdomain_added"@.len() == 15 && "subdomain_added"@[10] == 'a',
        "subdomain_removed"@.len() == 17,
        "subdomain_resolved"@.len() == 18 && "subdomain_resolved"@[12] == 's',
        "subdomain_unresolved"@.len() == 20,
        "added"@.len() == 5,
        "subdomain_removed"@[12] == 'm',
{
    reveal_strlit("subdomain_added");
    reveal_strlit("subdomain_removed");
    reveal_strlit("subdomain_resolved");
    reveal_strlit("subdomain_unresolved");
    reveal_strlit("added");
}

} // verus!

//! Public identifiers (UUIDs) given in paths and forms, and the form bodies
//! that carry several of them.
use vstd::prelude::*;

use crate::text::{chars_of, eq_str};

verus! {

/// The UUID a text denotes, as `uuid` parses it (as its 128-bit value), or
/// `None` when it is not a UUID.
pub uninterp spec fn uuid_value(s: Seq<char>) -> Option<u128>;

/// Parses a UUID.
///
/// Trusted: calls `uuid::Uuid::parse_str` and reads the result with
/// `as_u128`. The accepted forms (hyphenated, simple, braced, URN) are not
/// restated: the contract names the result (`uuid_value`), which depends on
/// the text alone.
#[verifier::external_body]
pub(crate) fn parse_uuid(s: &str) -> (r: Option<u128>)
    ensures
        r == uuid_value(s@),
{
    match uuid::Uuid::parse_str(s) {
        Ok(u) => Some(u.as_u128()),
        Err(_) => None,
    }
}

/// The UUIDs among the given texts, in order; texts that are not UUIDs are
/// skipped.
pub open spec fn uuids_of(texts: Seq<Seq<char>>) -> Seq<u128>
    decreases texts.len(),
{
    if texts.len() == 0 {
        seq![]
    } else {
        match uuid_value(texts.last()) {
            Some(u) => uuids_of(texts.drop_last()).push(u),
            None => uuids_of(texts.drop_last()),
        }
    }
}

/// The views of a list of strings.
pub open spec fn texts_view(v: Seq<String>) -> Seq<Seq<char>> {
    v.map_values(|s: String| s@)
}

/// Reads the public ids of a bulk deletion: those that parse as UUIDs.
pub fn parse_pids(pids: &Vec<String>) -> (r: Vec<u128>)
    ensures
        r@ == uuids_of(texts_view(pids@)),
{
    let mut r: Vec<u128> = Vec::new();
    let n = pids.len();
    assert(texts_view(pids@).take(0) =~= Seq::<Seq<char>>::empty());
    for i in 0..n
        invariant
            n == pids@.len(),
            r@ == uuids_of(texts_view(pids@).take(i as int)),
    {
        let ghost pre = texts_view(pids@).take(i as int);
        let ghost post = texts_view(pids@).take(i + 1);
        assert(post.drop_last() =~= pre);
        assert(post.last() == pids@[i as int]@);
        match parse_uuid(pids[i].as_str()) {
            Some(u) => r.push(u),
            None => {},
        }
    }
    assert(texts_view(pids@).take(n as int) =~= texts_view(pids@));
    r
}

/// The name-value pairs of an `application/x-www-form-urlencoded` body, as
/// `form_urlencoded` decodes them, in order.
pub uninterp spec fn urlencoded_pairs(body: Seq<char>) -> Seq<(Seq<char>, Seq<char>)>;

/// Decodes a URL-encoded form body into its pairs.
///
/// Trusted: calls `form_urlencoded::parse` on the body's bytes and copies
/// each decoded name and value. The decoding (`+`, percent escapes, lossy
/// UTF-8) is not restated: the contract names the result
/// (`urlencoded_pairs`), which depends on the body alone.
#[verifier::external_body]
pub(crate) fn form_pairs(body: &str) -> (r: Vec<(String, String)>)
    ensures
        r@.map_values(|p: (String, String)| (p.0@, p.1@)) == urlencoded_pairs(body@),
{
    form_urlencoded::parse(body.as_bytes()).map(|(k, v)| (k.into_owned(), v.into_owned())).collect()
}

/// The values of the pairs named `name`, in order.
pub open spec fn values_named(pairs: Seq<(Seq<char>, Seq<char>)>, name: Seq<char>) -> Seq<Seq<char>>
    decreases pairs.len(),
{
    if pairs.len() == 0 {
        seq![]
    } else if pairs.last().0 == name {
        values_named(pairs.drop_last(), name).push(pairs.last().1)
    } else {
        values_named(pairs.drop_last(), name)
    }
}

/// The values of the `pids[]` fields among decoded form pairs, in order
/// (one per checked box).
pub fn pids_from_pairs(pairs: &Vec<(String, String)>) -> (r: Vec<String>)
    ensures
        texts_view(r@) == values_named(
            pairs@.map_values(|p: (String, String)| (p.0@, p.1@)),
            "pids[]"@,
        ),
{
    let ghost pv = pairs@.map_values(|p: (String, String)| (p.0@, p.1@));
    let mut r: Vec<String> = Vec::new();
    let n = pairs.len();
    assert(pv.take(0) =~= Seq::<(Seq<char>, Seq<char>)>::empty());
    assert(texts_view(r@) =~= seq![]);
    for i in 0..n
        invariant
            n == pairs@.len(),
            pv == pairs@.map_values(|p: (String, String)| (p.0@, p.1@)),
            texts_view(r@) == values_named(pv.take(i as int), "pids[]"@),
    {
        assert(pv.take(i + 1).drop_last() =~= pv.take(i as int));
        assert(pv.take(i + 1).last() == pv[i as int]);
        let k = chars_of(pairs[i].0.as_str());
        if eq_str(&k, "pids[]") {
            let ghost before = texts_view(r@);
            r.push(pairs[i].1.clone());
            assert(texts_view(r@) =~= before.push(pairs@[i as int].1@));
        }
    }
    assert(pv.take(n as int) =~= pv);
    r
}

/// The public ids a bulk-deletion form body lists under `pids[]`.
pub fn pids_from_body(body: &str) -> (r: Vec<String>)
    ensures
        texts_view(r@) == values_named(urlencoded_pairs(body@), "pids[]"@),
{
    let pairs = form_pairs(body);
    pids_from_pairs(&pairs)
}

} // verus!

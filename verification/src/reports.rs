//! Serving report files, and the names shown in the admin listings.
use vstd::prelude::*;

use crate::text::{chars_of, eq_str, push_str, string_of};

verus! {

/// The media type and file extension of a report of the given format:
/// PDF, ZIP, or opaque bytes.
pub open spec fn report_file_type(format: Seq<char>) -> (Seq<char>, Seq<char>) {
    if format == "pdf"@ {
        ("application/pdf"@, "pdf"@)
    } else if format == "zip"@ {
        ("application/zip"@, "zip"@)
    } else {
        ("application/octet-stream"@, "bin"@)
    }
}

/// The download headers of a report: its media type and its
/// `Content-Disposition` (an attachment named `report-<pid>.<ext>`).
pub fn report_download_headers(format: &str, pid: &str) -> (r: (&'static str, String))
    ensures
        r.0@ == report_file_type(format@).0,
        r.1@ == "attachment; filename=\"report-"@ + pid@ + "."@ + report_file_type(format@).1 + "\""@,
{
    let f = chars_of(format);
    let (content_type, ext): (&'static str, &'static str) = if eq_str(&f, "pdf") {
        ("application/pdf", "pdf")
    } else if eq_str(&f, "zip") {
        ("application/zip", "zip")
    } else {
        ("application/octet-stream", "bin")
    };
    let mut v: Vec<char> = Vec::new();
    push_str(&mut v, "attachment; filename=\"report-");
    push_str(&mut v, pid);
    push_str(&mut v, ".");
    push_str(&mut v, ext);
    push_str(&mut v, "\"");
    (content_type, string_of(&v))
}

/// The name recorded for `id`: the last row for it, if any.
pub open spec fn name_for(rows: Seq<(i32, String)>, id: i32) -> Option<Seq<char>>
    decreases rows.len(),
{
    if rows.len() == 0 {
        None
    } else if rows.last().0 == id {
        Some(rows.last().1@)
    } else {
        name_for(rows.drop_last(), id)
    }
}

/// The name shown for an organisation, engagement or tier in the admin
/// listings: the one found, or `Unknown`.
pub fn name_or_unknown(rows: &Vec<(i32, String)>, id: i32) -> (r: String)
    ensures
        r@ == match name_for(rows@, id) {
            Some(n) => n,
            None => "Unknown"@,
        },
{
    let mut k = rows.len();
    assert(rows@.take(k as int) =~= rows@);
    while k > 0
        invariant
            k <= rows@.len(),
            name_for(rows@, id) == name_for(rows@.take(k as int), id),
        decreases k,
    {
        assert(rows@.take(k as int).drop_last() =~= rows@.take(k - 1));
        assert(rows@.take(k as int).last() == rows@[k - 1]);
        if rows[k - 1].0 == id {
            return rows[k - 1].1.clone();
        }
        k = k - 1;
    }
    "Unknown".to_owned()
}

} // verus!

//! Validation of the host names and domains that users ask to be scanned.
use vstd::prelude::*;

use crate::text::{
    ascii_alnum, chars_of, ends_with, ends_with_str, eq_str, is_ascii_alnum, lowercase,
    lowercase_of, normalize, normalized, split_chars, split_on, string_of, utf8_len,
    utf8_len_exceeds,
};

verus! {

/// Why a host name was refused.
#[derive(Clone, Copy, Debug, PartialEq, Eq, Structural)]
pub enum HostnameError {
    /// Empty, or longer than 253 bytes.
    InvalidLength,
    /// A character other than an ASCII letter, digit, `.` or `-`.
    InvalidCharacters,
    /// An empty label or one longer than 63 bytes.
    InvalidLabelLength,
    /// A label that begins or ends with something other than an ASCII letter
    /// or digit (a hyphen, as RFC 1123 forbids).
    InvalidLabelEdge,
    /// One of the reserved names (`localhost`, ...).
    Reserved,
    /// A reserved top-level suffix (`.local`, `.test`, ...).
    ReservedSuffix,
}

/// The text shown to the user for each host-name error.
pub open spec fn hostname_error_text(e: HostnameError) -> Seq<char> {
    match e {
        HostnameError::InvalidLength => "Invalid hostname length"@,
        HostnameError::InvalidCharacters => "Hostname contains invalid characters"@,
        HostnameError::InvalidLabelLength => "Invalid hostname label length"@,
        HostnameError::InvalidLabelEdge => "Hostname labels must begin and end with a letter or digit"@,
        HostnameError::Reserved => "Reserved hostname"@,
        HostnameError::ReservedSuffix => "Reserved hostname suffix"@,
    }
}

impl HostnameError {
    /// The message the user sees.
    pub fn message(&self) -> (r: &'static str)
        ensures
            r@ == hostname_error_text(*self),
    {
        match self {
            HostnameError::InvalidLength => "Invalid hostname length",
            HostnameError::InvalidCharacters => "Hostname contains invalid characters",
            HostnameError::InvalidLabelLength => "Invalid hostname label length",
            HostnameError::InvalidLabelEdge => "Hostname labels must begin and end with a letter or digit",
            HostnameError::Reserved => "Reserved hostname",
            HostnameError::ReservedSuffix => "Reserved hostname suffix",
        }
    }
}

/// A character allowed in a host name: an ASCII letter or digit, `.` or `-`.
pub open spec fn is_hostname_char(c: char) -> bool {
    is_ascii_alnum(c) || c == '.' || c == '-'
}

/// A label of a host name of acceptable length.
pub open spec fn hostname_label_ok(l: Seq<char>) -> bool {
    l.len() > 0 && utf8_len(l) <= 63
}

/// A label that begins and ends with an ASCII letter or digit.
pub open spec fn hostname_label_edges_ok(l: Seq<char>) -> bool {
    l.len() > 0 && is_ascii_alnum(l[0]) && is_ascii_alnum(l.last())
}

/// A reserved host name.
pub open spec fn is_reserved_hostname(h: Seq<char>) -> bool {
    h == "localhost"@ || h == "localhost.localdomain"@ || h == "broadcasthost"@
}

/// A host name under a reserved suffix.
pub open spec fn has_reserved_suffix(h: Seq<char>) -> bool {
    ||| ends_with(h, ".local"@)
    ||| ends_with(h, ".internal"@)
    ||| ends_with(h, ".test"@)
    ||| ends_with(h, ".example"@)
    ||| ends_with(h, ".invalid"@)
    ||| ends_with(h, ".onion"@)
}

/// The verdict on an already trimmed and lowercased host name: the checks run
/// in this order and the first that fails decides the error.
pub open spec fn hostname_verdict(h: Seq<char>) -> Result<(), HostnameError> {
    if h.len() == 0 || utf8_len(h) > 253 {
        Err(HostnameError::InvalidLength)
    } else if !(forall|i: int| 0 <= i < h.len() ==> is_hostname_char(#[trigger] h[i])) {
        Err(HostnameError::InvalidCharacters)
    } else if !(forall|k: int|
        0 <= k < split_on(h, '.').len() ==> hostname_label_ok(#[trigger] split_on(h, '.')[k])) {
        Err(HostnameError::InvalidLabelLength)
    } else if !(forall|k: int|
        0 <= k < split_on(h, '.').len() ==> hostname_label_edges_ok(
            #[trigger] split_on(h, '.')[k],
        )) {
        Err(HostnameError::InvalidLabelEdge)
    } else if is_reserved_hostname(h) {
        Err(HostnameError::Reserved)
    } else if has_reserved_suffix(h) {
        Err(HostnameError::ReservedSuffix)
    } else {
        Ok(())
    }
}

/// A host name under any of the reserved suffixes `.local`, `.internal`,
/// `.test`, `.example`, `.invalid` and `.onion` is never accepted, and when
/// it is otherwise well formed and not a reserved name, it is refused for
/// its suffix.
pub proof fn lemma_reserved_suffixes_refused(h: Seq<char>)
    requires
        ends_with(h, ".local"@) || ends_with(h, ".internal"@) || ends_with(h, ".test"@)
            || ends_with(h, ".example"@) || ends_with(h, ".invalid"@) || ends_with(h, ".onion"@),
    ensures
        hostname_verdict(h) is Err,
        hostname_verdict(h) == Err::<(), HostnameError>(HostnameError::ReservedSuffix)
            || hostname_verdict(h) == Err::<(), HostnameError>(HostnameError::InvalidLength)
            || hostname_verdict(h) == Err::<(), HostnameError>(HostnameError::InvalidCharacters)
            || hostname_verdict(h) == Err::<(), HostnameError>(HostnameError::InvalidLabelLength)
            || hostname_verdict(h) == Err::<(), HostnameError>(HostnameError::InvalidLabelEdge)
            || hostname_verdict(h) == Err::<(), HostnameError>(HostnameError::Reserved),
        (hostname_verdict(h) != Err::<(), HostnameError>(HostnameError::InvalidLength)
            && hostname_verdict(h) != Err::<(), HostnameError>(HostnameError::InvalidCharacters)
            && hostname_verdict(h) != Err::<(), HostnameError>(HostnameError::InvalidLabelLength)
            && hostname_verdict(h) != Err::<(), HostnameError>(HostnameError::InvalidLabelEdge)
            && !(h == "localhost"@ || h == "localhost.localdomain"@ || h == "broadcasthost"@))
            ==> hostname_verdict(h) == Err::<(), HostnameError>(HostnameError::ReservedSuffix),
{
}

/// The names `localhost`, `localhost.localdomain` and `broadcasthost` are
/// never accepted.
pub proof fn lemma_reserved_names_refused(h: Seq<char>)
    requires
        h == "localhost"@ || h == "localhost.localdomain"@ || h == "broadcasthost"@,
    ensures
        hostname_verdict(h) is Err,
{
}

/// Checks a host name that has already been trimmed and lowercased.
pub fn check_normalized_hostname(h: &Vec<char>) -> (r: Result<(), HostnameError>)
    ensures
        r == hostname_verdict(h@),
        ends_with(h@, ".local"@) || ends_with(h@, ".internal"@) || ends_with(h@, ".test"@)
            || ends_with(h@, ".example"@) || ends_with(h@, ".invalid"@) || ends_with(h@, ".onion"@)
            ==> r is Err,
{
    proof {
        if ends_with(h@, ".local"@) || ends_with(h@, ".internal"@) || ends_with(h@, ".test"@)
            || ends_with(h@, ".example"@) || ends_with(h@, ".invalid"@) || ends_with(h@, ".onion"@) {
            lemma_reserved_suffixes_refused(h@);
        }
    }
    if h.len() == 0 || utf8_len_exceeds(h, 253) {
        return Err(HostnameError::InvalidLength);
    }
    let n = h.len();
    for i in 0..n
        invariant
            n == h@.len(),
            n > 0 && utf8_len(h@) <= 253,
            forall|k: int| 0 <= k < i ==> is_hostname_char(#[trigger] h@[k]),
    {
        let c = h[i];
        if !(ascii_alnum(c) || c == '.' || c == '-') {
            assert(!is_hostname_char(h@[i as int]));
            return Err(HostnameError::InvalidCharacters);
        }
    }
    let labels = split_chars(h, '.');
    let m = labels.len();
    for k in 0..m
        invariant
            h@.len() > 0 && utf8_len(h@) <= 253,
            forall|i: int| 0 <= i < h@.len() ==> is_hostname_char(#[trigger] h@[i]),
            m == labels@.len(),
            m == split_on(h@, '.').len(),
            forall|j: int| 0 <= j < m ==> #[trigger] labels@[j]@ == split_on(h@, '.')[j],
            forall|j: int| 0 <= j < k ==> hostname_label_ok(#[trigger] split_on(h@, '.')[j]),
    {
        let l = &labels[k];
        assert(l@ == split_on(h@, '.')[k as int]);
        if l.len() == 0 || utf8_len_exceeds(l, 63) {
            return Err(HostnameError::InvalidLabelLength);
        }
    }
    for k in 0..m
        invariant
            h@.len() > 0 && utf8_len(h@) <= 253,
            forall|i: int| 0 <= i < h@.len() ==> is_hostname_char(#[trigger] h@[i]),
            m == labels@.len(),
            m == split_on(h@, '.').len(),
            forall|j: int| 0 <= j < m ==> #[trigger] labels@[j]@ == split_on(h@, '.')[j],
            forall|j: int| 0 <= j < m ==> hostname_label_ok(#[trigger] split_on(h@, '.')[j]),
            forall|j: int| 0 <= j < k ==> hostname_label_edges_ok(#[trigger] split_on(h@, '.')[j]),
    {
        let l = &labels[k];
        assert(l@ == split_on(h@, '.')[k as int]);
        assert(hostname_label_ok(split_on(h@, '.')[k as int]));
        let last = l.len() - 1;
        if !(ascii_alnum(l[0]) && ascii_alnum(l[last])) {
            return Err(HostnameError::InvalidLabelEdge);
        }
    }
    if eq_str(h, "localhost") || eq_str(h, "localhost.localdomain") || eq_str(h, "broadcasthost") {
        return Err(HostnameError::Reserved);
    }
    if ends_with_str(h, ".local") || ends_with_str(h, ".internal") || ends_with_str(h, ".test")
        || ends_with_str(h, ".example") || ends_with_str(h, ".invalid") || ends_with_str(
        h,
        ".onion",
    ) {
        return Err(HostnameError::ReservedSuffix);
    }
    Ok(())
}

/// Validates a host name typed by a user: it is trimmed and lowercased
/// first, then held to RFC 1123 syntax and the reserved names and suffixes.
pub fn validate_hostname(hostname: &str) -> (r: Result<(), HostnameError>)
    ensures
        r == hostname_verdict(normalized(hostname@)),
{
    let h = normalize(hostname);
    check_normalized_hostname(&h)
}

// ---------------------------------------------------------------------------
// Free-scan domains
// ---------------------------------------------------------------------------

/// A label of a domain accepted for a free scan.
pub open spec fn domain_label_ok(l: Seq<char>) -> bool {
    &&& l.len() > 0
    &&& utf8_len(l) <= 63
    &&& forall|i: int| 0 <= i < l.len() ==> #[trigger] is_ascii_alnum(l[i]) || l[i] == '-'
    &&& l[0] != '-'
    &&& l.last() != '-'
}

/// A blocked domain, or one under a blocked suffix.
pub open spec fn is_blocked_domain(lower: Seq<char>) -> bool {
    ||| lower == "localhost"@ || ends_with(lower, "localhost"@)
    ||| lower == ".local"@ || ends_with(lower, ".local"@)
    ||| lower == ".test"@ || ends_with(lower, ".test"@)
    ||| lower == ".example"@ || ends_with(lower, ".example"@)
    ||| lower == ".invalid"@ || ends_with(lower, ".invalid"@)
    ||| lower == ".onion"@ || ends_with(lower, ".onion"@)
    ||| lower == ".internal"@ || ends_with(lower, ".internal"@)
}

/// Whether `domain` may be scanned, given its lowercased form `lower`.
pub open spec fn domain_accepted(domain: Seq<char>, lower: Seq<char>) -> bool {
    &&& domain.len() > 0
    &&& utf8_len(domain) <= 253
    &&& !is_blocked_domain(lower)
    &&& split_on(domain, '.').len() >= 2
    &&& forall|k: int|
        0 <= k < split_on(domain, '.').len() ==> domain_label_ok(#[trigger] split_on(domain, '.')[k])
}

fn blocked(lower: &Vec<char>, b: &str) -> (r: bool)
    ensures
        r == (lower@ == b@ || ends_with(lower@, b@)),
{
    eq_str(lower, b) || ends_with_str(lower, b)
}

fn domain_label_check(l: &Vec<char>) -> (r: bool)
    ensures
        r == domain_label_ok(l@),
{
    if l.len() == 0 || utf8_len_exceeds(l, 63) {
        return false;
    }
    let n = l.len();
    for i in 0..n
        invariant
            n == l@.len(),
            forall|k: int| 0 <= k < i ==> #[trigger] is_ascii_alnum(l@[k]) || l@[k] == '-',
    {
        let c = l[i];
        if !(ascii_alnum(c) || c == '-') {
            return false;
        }
    }
    l[0] != '-' && l[n - 1] != '-'
}

/// Decides whether `domain` may be scanned, given what lowercasing it gave.
pub fn domain_accepted_given(domain: &Vec<char>, lower: &Vec<char>) -> (r: bool)
    ensures
        r == domain_accepted(domain@, lower@),
{
    if domain.len() == 0 || utf8_len_exceeds(domain, 253) {
        return false;
    }
    if blocked(lower, "localhost") || blocked(lower, ".local") || blocked(lower, ".test")
        || blocked(lower, ".example") || blocked(lower, ".invalid") || blocked(lower, ".onion")
        || blocked(lower, ".internal") {
        return false;
    }
    let labels = split_chars(domain, '.');
    if labels.len() < 2 {
        return false;
    }
    let m = labels.len();
    for k in 0..m
        invariant
            m == labels@.len(),
            m == split_on(domain@, '.').len(),
            forall|j: int| 0 <= j < m ==> #[trigger] labels@[j]@ == split_on(domain@, '.')[j],
            forall|j: int| 0 <= j < k ==> domain_label_ok(#[trigger] split_on(domain@, '.')[j]),
    {
        assert(labels@[k as int]@ == split_on(domain@, '.')[k as int]);
        if !domain_label_check(&labels[k]) {
            return false;
        }
    }
    true
}

/// Whether a domain may be submitted for a free scan.
pub fn is_valid_domain(domain: &str) -> (r: bool)
    ensures
        r == domain_accepted(domain@, lowercase_of(domain@)),
{
    let d = chars_of(domain);
    let low = lowercase(domain);
    let lv = chars_of(low.as_str());
    domain_accepted_given(&d, &lv)
}

/// The domain a free-scan form asks for, trimmed and lowercased, or `None`
/// when it is not acceptable (the form then shows an error).
pub fn free_scan_domain(raw: &str) -> (r: Option<String>)
    ensures
        r is Some <==> domain_accepted(normalized(raw@), lowercase_of(normalized(raw@))),
        r matches Some(d) ==> d@ == normalized(raw@),
{
    let d = normalize(raw);
    let ds = string_of(&d);
    if is_valid_domain(ds.as_str()) {
        Some(ds)
    } else {
        None
    }
}

} // verus!

//! The engagement workflow: who may see and edit an engagement, which
//! status changes are allowed, and the checks on offers, assignments,
//! findings, comments and reports.
//!
//! An engagement moves `requested` -> `offer_sent` -> (`negotiating` ->
//! `offer_sent` ...) -> `accepted` -> `in_progress` -> `review` ->
//! `delivered`, and may be `cancelled` before review. Statuses are kept as
//! the stored text.
use vstd::prelude::*;

use crate::clock::{parse_rfc3339, rfc3339_instant, Instant};
use crate::ids::{parse_uuid, uuid_value};
use crate::plans::{
    engagement_allowed, finding_allowed, includes_scans_and_reports, PlanTier, FREE_ENGAGEMENT_LIMIT,
    FREE_FINDINGS_PER_ENGAGEMENT,
};
use crate::text::{chars_of, eq_str, is_blank, push_str, string_of, trimmed};

verus! {

// ---------------------------------------------------------------------------
// Errors
// ---------------------------------------------------------------------------

/// What a finding-related request tried to do.
#[derive(Clone, Copy, Debug, PartialEq, Eq, Structural)]
pub enum FindingAction {
    AddFinding,
    EditFinding,
    DeleteFinding,
    AddNonFinding,
    EditNonFinding,
    DeleteNonFinding,
}

/// Why an engagement request was refused.
#[derive(Clone, Debug, PartialEq, Eq)]
pub enum EngagementError {
    /// Not found, or not visible to the user (the two are not told apart).
    NotFound,
    /// An offer may only be made on a requested or negotiating engagement.
    CannotCreateOffer,
    /// The offer's `valid_until` date does not parse.
    InvalidValidUntil,
    /// The client may only respond while an offer is out.
    CannotRespond,
    /// The response is neither `accept` nor `negotiate`.
    InvalidAction,
    /// Pentesters are assigned to accepted or running engagements only.
    CannotAssign,
    /// The user to assign does not exist.
    UserNotFound,
    /// The user to assign belongs to the client organisation.
    ClientMember,
    /// The user is already assigned.
    AlreadyAssigned,
    /// The requested status change is not part of the workflow.
    InvalidTransition { from: String, to: String },
    /// Findings are only changed while the engagement is in progress.
    FindingsLocked(FindingAction),
    /// The severity is not one of the five levels.
    InvalidSeverity,
    /// A comment with no visible text.
    EmptyComment,
    /// Reports need an engagement in progress, in review or delivered.
    ReportNotAllowed,
    /// A report needs at least one finding.
    NoFindings,
    /// The Free plan's engagements are used up.
    EngagementLimitReached,
    /// The Free plan's findings per engagement are used up.
    FindingLimitReached,
    /// Reports are not generated on the Free plan.
    ReportsUnavailable,
}

/// The text shown for each error (empty for `NotFound`, which is answered
/// with a plain 404).
pub open spec fn error_text(e: EngagementError) -> Seq<char> {
    match e {
        EngagementError::NotFound => ""@,
        EngagementError::CannotCreateOffer => "Cannot create offer in current state"@,
        EngagementError::InvalidValidUntil => "Invalid date format for valid_until"@,
        EngagementError::CannotRespond => "Cannot respond in current state"@,
        EngagementError::InvalidAction => "Invalid action"@,
        EngagementError::CannotAssign => "Cannot assign pentester in current state"@,
        EngagementError::UserNotFound => "User not found"@,
        EngagementError::ClientMember => "Cannot assign a client org member as pentester to their own engagement"@,
        EngagementError::AlreadyAssigned => "Pentester already assigned to this engagement"@,
        EngagementError::InvalidTransition { from, to } => "Invalid transition from '"@ + from@
            + "' to '"@ + to@ + "'"@,
        EngagementError::FindingsLocked(a) => match a {
            FindingAction::AddFinding => "Cannot add findings in current state"@,
            FindingAction::EditFinding => "Cannot edit findings in current state"@,
            FindingAction::DeleteFinding => "Cannot delete findings in current state"@,
            FindingAction::AddNonFinding => "Cannot add non-findings in current state"@,
            FindingAction::EditNonFinding => "Cannot edit non-findings in current state"@,
            FindingAction::DeleteNonFinding => "Cannot delete non-findings in current state"@,
        },
        EngagementError::InvalidSeverity => "Invalid severity level"@,
        EngagementError::EmptyComment => "Comment cannot be empty"@,
        EngagementError::ReportNotAllowed => "Reports can only be generated for active or delivered engagements"@,
        EngagementError::NoFindings => "Cannot generate report without findings"@,
        EngagementError::EngagementLimitReached => "The Free plan allows up to 3 engagements. Upgrade to add more."@,
        EngagementError::FindingLimitReached => "The Free plan allows up to 10 findings per engagement. Upgrade to add more."@,
        EngagementError::ReportsUnavailable => "Report generation requires a paid plan. Upgrade to generate reports."@,
    }
}

impl EngagementError {
    /// Whether the error is answered with "not found" rather than as a bad
    /// request.
    pub fn is_not_found(&self) -> (r: bool)
        ensures
            r == (*self is NotFound),
    {
        match self {
            EngagementError::NotFound => true,
            _ => false,
        }
    }

    /// The message shown to the user.
    pub fn message(&self) -> (r: String)
        ensures
            r@ == error_text(*self),
    {
        let s: &str = match self {
            EngagementError::NotFound => "",
            EngagementError::CannotCreateOffer => "Cannot create offer in current state",
            EngagementError::InvalidValidUntil => "Invalid date format for valid_until",
            EngagementError::CannotRespond => "Cannot respond in current state",
            EngagementError::InvalidAction => "Invalid action",
            EngagementError::CannotAssign => "Cannot assign pentester in current state",
            EngagementError::UserNotFound => "User not found",
            EngagementError::ClientMember => "Cannot assign a client org member as pentester to their own engagement",
            EngagementError::AlreadyAssigned => "Pentester already assigned to this engagement",
            EngagementError::InvalidTransition { from, to } => {
                let mut v: Vec<char> = Vec::new();
                push_str(&mut v, "Invalid transition from '");
                push_str(&mut v, from.as_str());
                push_str(&mut v, "' to '");
                push_str(&mut v, to.as_str());
                push_str(&mut v, "'");
                return string_of(&v);
            },
            EngagementError::FindingsLocked(a) => match a {
                FindingAction::AddFinding => "Cannot add findings in current state",
                FindingAction::EditFinding => "Cannot edit findings in current state",
                FindingAction::DeleteFinding => "Cannot delete findings in current state",
                FindingAction::AddNonFinding => "Cannot add non-findings in current state",
                FindingAction::EditNonFinding => "Cannot edit non-findings in current state",
                FindingAction::DeleteNonFinding => "Cannot delete non-findings in current state",
            },
            EngagementError::InvalidSeverity => "Invalid severity level",
            EngagementError::EmptyComment => "Comment cannot be empty",
            EngagementError::ReportNotAllowed => "Reports can only be generated for active or delivered engagements",
            EngagementError::NoFindings => "Cannot generate report without findings",
            EngagementError::EngagementLimitReached => "The Free plan allows up to 3 engagements. Upgrade to add more.",
            EngagementError::FindingLimitReached => "The Free plan allows up to 10 findings per engagement. Upgrade to add more.",
            EngagementError::ReportsUnavailable => "Report generation requires a paid plan. Upgrade to generate reports.",
        };
        s.to_owned()
    }
}

// ---------------------------------------------------------------------------
// Access
// ---------------------------------------------------------------------------

/// What a user may do on an engagement.
#[derive(Clone, Copy, Debug, PartialEq, Eq, Structural)]
pub struct EngagementAccess {
    pub can_view: bool,
    pub can_edit_findings: bool,
    pub can_comment: bool,
}

/// Members of the client organisation may view and comment; assigned
/// pentesters and platform admins may also edit findings; anyone else may
/// do nothing.
pub open spec fn access_for(is_org_member: bool, is_assigned: bool, is_admin: bool) -> EngagementAccess {
    EngagementAccess {
        can_view: is_org_member || is_assigned || is_admin,
        can_edit_findings: is_assigned || is_admin,
        can_comment: is_org_member || is_assigned || is_admin,
    }
}

/// Computes a user's access on an engagement from their relation to it.
pub fn compute_access(is_org_member: bool, is_assigned: bool, is_admin: bool) -> (r: EngagementAccess)
    ensures
        r == access_for(is_org_member, is_assigned, is_admin),
{
    EngagementAccess {
        can_view: is_org_member || is_assigned || is_admin,
        can_edit_findings: is_assigned || is_admin,
        can_comment: is_org_member || is_assigned || is_admin,
    }
}

/// Opening an engagement: hidden (`NotFound`) unless the user may view it.
pub fn require_view(access: EngagementAccess) -> (r: Result<(), EngagementError>)
    ensures
        r is Ok <==> access.can_view,
        r matches Err(e) ==> e is NotFound,
{
    if access.can_view {
        Ok(())
    } else {
        Err(EngagementError::NotFound)
    }
}

/// Opening an engagement to change its findings: hidden unless the user
/// may view it and edit its findings.
pub fn require_edit(access: EngagementAccess) -> (r: Result<(), EngagementError>)
    ensures
        r is Ok <==> access.can_view && access.can_edit_findings,
        r matches Err(e) ==> e is NotFound,
{
    if !access.can_view || !access.can_edit_findings {
        Err(EngagementError::NotFound)
    } else {
        Ok(())
    }
}

/// Whoever may edit findings may see the engagement, and commenting is
/// open to exactly those who may see it.
pub proof fn lemma_access_is_layered(is_org_member: bool, is_assigned: bool, is_admin: bool)
    ensures
        access_for(is_org_member, is_assigned, is_admin).can_edit_findings ==> access_for(
            is_org_member,
            is_assigned,
            is_admin,
        ).can_view,
        access_for(is_org_member, is_assigned, is_admin).can_comment == access_for(
            is_org_member,
            is_assigned,
            is_admin,
        ).can_view,
        !is_org_member && !is_assigned && !is_admin ==> !access_for(
            is_org_member,
            is_assigned,
            is_admin,
        ).can_view,
{
}

// ---------------------------------------------------------------------------
// Requests and targets
// ---------------------------------------------------------------------------

/// The status of a newly requested engagement.
pub fn initial_status() -> (r: &'static str)
    ensures
        r@ == "requested"@,
{
    "requested"
}

/// A scan target may be linked to an engagement only when it is one of the
/// organisation's own targets.
pub fn target_belongs_to_org(org_target_ids: &Vec<i32>, target_id: i32) -> (r: Result<(), EngagementError>)
    ensures
        r is Ok <==> org_target_ids@.contains(target_id),
        r matches Err(e) ==> e is NotFound,
{
    let n = org_target_ids.len();
    for i in 0..n
        invariant
            n == org_target_ids@.len(),
            forall|k: int| 0 <= k < i ==> org_target_ids@[k] != target_id,
    {
        if org_target_ids[i] == target_id {
            assert(org_target_ids@[i as int] == target_id);
            return Ok(());
        }
    }
    Err(EngagementError::NotFound)
}

// ---------------------------------------------------------------------------
// Offers and responses
// ---------------------------------------------------------------------------

/// An offer may be made while the engagement is requested or negotiating.
pub open spec fn offer_allowed(status: Seq<char>) -> bool {
    status == "requested"@ || status == "negotiating"@
}

/// Checks that an offer may be made; the engagement then becomes
/// `offer_sent`.
pub fn check_offer_allowed(status: &str) -> (r: Result<(), EngagementError>)
    ensures
        r is Ok <==> offer_allowed(status@),
        r matches Err(e) ==> e is CannotCreateOffer,
{
    let s = chars_of(status);
    if !eq_str(&s, "requested") && !eq_str(&s, "negotiating") {
        Err(EngagementError::CannotCreateOffer)
    } else {
        Ok(())
    }
}

/// The positions of the earlier offers that a new offer supersedes: those
/// still pending.
pub fn offers_to_supersede(statuses: &Vec<String>) -> (r: Vec<usize>)
    ensures
        r@.len() <= statuses@.len(),
        forall|k: int| 0 <= k < r@.len() ==> (#[trigger] r@[k]) < statuses@.len(),
        forall|k: int| 0 <= k < r@.len() ==> statuses@[#[trigger] r@[k] as int]@ == "pending"@,
        forall|i: int|
            0 <= i < statuses@.len() && (#[trigger] statuses@[i])@ == "pending"@ ==> r@.contains(
                i as usize,
            ),
        forall|k: int, l: int| 0 <= k < l < r@.len() ==> r@[k] < r@[l],
{
    let mut r: Vec<usize> = Vec::new();
    let n = statuses.len();
    for i in 0..n
        invariant
            n == statuses@.len(),
            r@.len() <= i,
            forall|k: int| 0 <= k < r@.len() ==> (#[trigger] r@[k]) < i,
            forall|k: int| 0 <= k < r@.len() ==> statuses@[#[trigger] r@[k] as int]@ == "pending"@,
            forall|j: int| 0 <= j < i && (#[trigger] statuses@[j])@ == "pending"@ ==> r@.contains(j as usize),
            forall|k: int, l: int| 0 <= k < l < r@.len() ==> r@[k] < r@[l],
    {
        let s = chars_of(statuses[i].as_str());
        if eq_str(&s, "pending") {
            let ghost old_r = r@;
            r.push(i);
            proof {
                assert forall|j: int| 0 <= j < i + 1 && (#[trigger] statuses@[j])@ == "pending"@ implies r@.contains(
                    j as usize,
                ) by {
                    if j < i {
                        let t = choose|t: int| 0 <= t < old_r.len() && old_r[t] == j as usize;
                        assert(r@[t] == j as usize);
                    } else {
                        assert(r@[old_r.len() as int] == i);
                    }
                }
            }
        }
    }
    r
}

/// The text a `valid_until` date is completed to before parsing: the last
/// second of that day, in UTC.
pub open spec fn valid_until_text(date: Seq<char>) -> Seq<char> {
    date + "T23:59:59Z"@
}

/// Reads an offer's `valid_until` date (`YYYY-MM-DD`) as the end of that
/// day in UTC.
pub fn parse_valid_until(date: &str) -> (r: Result<Instant, EngagementError>)
    ensures
        match r {
            Ok(i) => rfc3339_instant(valid_until_text(date@)) == Some((i.secs, i.nanos, i.offset_secs)),
            Err(e) => e is InvalidValidUntil && rfc3339_instant(valid_until_text(date@)) is None,
        },
{
    let mut v = chars_of(date);
    push_str(&mut v, "T23:59:59Z");
    let text = string_of(&v);
    match parse_rfc3339(text.as_str()) {
        Some(i) => Ok(i),
        None => Err(EngagementError::InvalidValidUntil),
    }
}

/// The client's answer to an offer.
#[derive(Clone, Copy, Debug, PartialEq, Eq, Structural)]
pub enum OfferResponse {
    /// The offer is accepted: it becomes `accepted`, and so does the
    /// engagement, at the offer's price.
    Accept,
    /// The client negotiates: the offer becomes `rejected` with the client's
    /// text, and the engagement `negotiating`.
    Negotiate,
}

/// The outcome of a response: the checks run in this order (status, an
/// offer to respond to, the action).
pub open spec fn respond_outcome(status: Seq<char>, has_offer: bool, action: Seq<char>) -> Result<
    OfferResponse,
    EngagementError,
> {
    if status != "offer_sent"@ {
        Err(EngagementError::CannotRespond)
    } else if !has_offer {
        Err(EngagementError::NotFound)
    } else if action == "accept"@ {
        Ok(OfferResponse::Accept)
    } else if action == "negotiate"@ {
        Ok(OfferResponse::Negotiate)
    } else {
        Err(EngagementError::InvalidAction)
    }
}

/// Decides a client's response to the latest offer.
pub fn decide_response(status: &str, has_offer: bool, action: &str) -> (r: Result<
    OfferResponse,
    EngagementError,
>)
    ensures
        r == respond_outcome(status@, has_offer, action@),
{
    let s = chars_of(status);
    if !eq_str(&s, "offer_sent") {
        return Err(EngagementError::CannotRespond);
    }
    if !has_offer {
        return Err(EngagementError::NotFound);
    }
    let a = chars_of(action);
    if eq_str(&a, "accept") {
        Ok(OfferResponse::Accept)
    } else if eq_str(&a, "negotiate") {
        Ok(OfferResponse::Negotiate)
    } else {
        Err(EngagementError::InvalidAction)
    }
}

/// The engagement status after a response.
pub open spec fn status_after_response(r: OfferResponse) -> Seq<char> {
    match r {
        OfferResponse::Accept => "accepted"@,
        OfferResponse::Negotiate => "negotiating"@,
    }
}

impl OfferResponse {
    /// The status the engagement moves to.
    pub fn engagement_status(&self) -> (r: &'static str)
        ensures
            r@ == status_after_response(*self),
    {
        match self {
            OfferResponse::Accept => "accepted",
            OfferResponse::Negotiate => "negotiating",
        }
    }

    /// The status the responded offer moves to.
    pub fn offer_status(&self) -> (r: &'static str)
        ensures
            r@ == (match *self {
                OfferResponse::Accept => "accepted"@,
                OfferResponse::Negotiate => "rejected"@,
            }),
    {
        match self {
            OfferResponse::Accept => "accepted",
            OfferResponse::Negotiate => "rejected",
        }
    }
}

// ---------------------------------------------------------------------------
// Assignment
// ---------------------------------------------------------------------------

/// A pentester assignment to make.
#[derive(Clone, Debug)]
pub struct Assignment {
    /// The role recorded, `member` unless one was given.
    pub role: String,
    /// Whether the engagement starts now (it was `accepted`; it becomes
    /// `in_progress`).
    pub starts_engagement: bool,
}

/// The outcome of an assignment request: status, then the user's existence,
/// then client membership, then an earlier assignment.
pub open spec fn assign_outcome(
    status: Seq<char>,
    user_exists: bool,
    is_client_member: bool,
    already_assigned: bool,
) -> Result<bool, EngagementError> {
    if status != "accepted"@ && status != "in_progress"@ {
        Err(EngagementError::CannotAssign)
    } else if !user_exists {
        Err(EngagementError::UserNotFound)
    } else if is_client_member {
        Err(EngagementError::ClientMember)
    } else if already_assigned {
        Err(EngagementError::AlreadyAssigned)
    } else {
        Ok(status == "accepted"@)
    }
}

/// Decides a pentester assignment.
pub fn decide_assignment(
    status: &str,
    user_exists: bool,
    is_client_member: bool,
    already_assigned: bool,
    role: Option<String>,
) -> (r: Result<Assignment, EngagementError>)
    ensures
        match assign_outcome(status@, user_exists, is_client_member, already_assigned) {
            Ok(starts) => r matches Ok(a) && a.starts_engagement == starts && a.role@ == (match role {
                Some(x) => x@,
                None => "member"@,
            }),
            Err(e) => r == Err::<Assignment, EngagementError>(e),
        },
{
    let s = chars_of(status);
    let accepted = eq_str(&s, "accepted");
    if !accepted && !eq_str(&s, "in_progress") {
        return Err(EngagementError::CannotAssign);
    }
    if !user_exists {
        return Err(EngagementError::UserNotFound);
    }
    if is_client_member {
        return Err(EngagementError::ClientMember);
    }
    if already_assigned {
        return Err(EngagementError::AlreadyAssigned);
    }
    let role = match role {
        Some(x) => x,
        None => "member".to_owned(),
    };
    Ok(Assignment { role, starts_engagement: accepted })
}

// ---------------------------------------------------------------------------
// Status transitions
// ---------------------------------------------------------------------------

/// The status changes an admin may make: `in_progress` to `review`,
/// `review` to `delivered` or back to `in_progress`, and cancelling any
/// engagement that has not reached review.
pub open spec fn valid_transition(from: Seq<char>, to: Seq<char>) -> bool {
    ||| from == "in_progress"@ && to == "review"@
    ||| from == "review"@ && (to == "delivered"@ || to == "in_progress"@)
    ||| to == "cancelled"@ && (from == "requested"@ || from == "offer_sent"@ || from
        == "negotiating"@ || from == "accepted"@ || from == "in_progress"@)
}

/// An allowed status change; `completes` when the engagement is finished
/// by it (delivered or cancelled), which stamps its completion time.
#[derive(Clone, Copy, Debug, PartialEq, Eq, Structural)]
pub struct StatusChange {
    pub completes: bool,
}

/// Checks a status change requested by an admin.
pub fn decide_status_change(from: &str, to: &str) -> (r: Result<StatusChange, EngagementError>)
    ensures
        r is Ok <==> valid_transition(from@, to@),
        r matches Ok(c) ==> c.completes == (to@ == "delivered"@ || to@ == "cancelled"@),
        !valid_transition(from@, to@) ==> (r matches Err(
            EngagementError::InvalidTransition { from: f, to: t },
        ) && f@ == from@ && t@ == to@),
        to@ == "cancelled"@ && (from@ == "requested"@ || from@ == "offer_sent"@ || from@
            == "negotiating"@ || from@ == "accepted"@ || from@ == "in_progress"@) ==> r == Ok::<
            StatusChange,
            EngagementError,
        >(StatusChange { completes: true }),
{
    proof {
        lemma_cancellation(from@);
    }
    let f = chars_of(from);
    let t = chars_of(to);
    let to_review = eq_str(&t, "review");
    let to_delivered = eq_str(&t, "delivered");
    let to_in_progress = eq_str(&t, "in_progress");
    let to_cancelled = eq_str(&t, "cancelled");
    let valid = (eq_str(&f, "in_progress") && to_review) || (eq_str(&f, "review") && (to_delivered
        || to_in_progress)) || (to_cancelled && (eq_str(&f, "requested") || eq_str(&f, "offer_sent")
        || eq_str(&f, "negotiating") || eq_str(&f, "accepted") || eq_str(&f, "in_progress")));
    if !valid {
        return Err(
            EngagementError::InvalidTransition { from: from.to_owned(), to: to.to_owned() },
        );
    }
    Ok(StatusChange { completes: to_delivered || to_cancelled })
}

// ---------------------------------------------------------------------------
// Findings, comments and reports
// ---------------------------------------------------------------------------

/// Findings and non-findings change only while the engagement is in
/// progress.
pub fn check_findings_open(status: &str, action: FindingAction) -> (r: Result<(), EngagementError>)
    ensures
        r is Ok <==> status@ == "in_progress"@,
        r matches Err(e) ==> e == EngagementError::FindingsLocked(action),
{
    let s = chars_of(status);
    if !eq_str(&s, "in_progress") {
        Err(EngagementError::FindingsLocked(action))
    } else {
        Ok(())
    }
}

/// The five severity levels of a finding.
pub open spec fn is_severity(s: Seq<char>) -> bool {
    s == "extreme"@ || s == "high"@ || s == "elevated"@ || s == "moderate"@ || s == "low"@
}

/// Checks a finding's severity.
pub fn check_severity(severity: &str) -> (r: Result<(), EngagementError>)
    ensures
        r is Ok <==> is_severity(severity@),
        r matches Err(e) ==> e is InvalidSeverity,
{
    let s = chars_of(severity);
    if eq_str(&s, "extreme") || eq_str(&s, "high") || eq_str(&s, "elevated") || eq_str(
        &s,
        "moderate",
    ) || eq_str(&s, "low") {
        Ok(())
    } else {
        Err(EngagementError::InvalidSeverity)
    }
}

/// The statuses a finding of an engagement may have.
pub open spec fn is_finding_status(s: Seq<char>) -> bool {
    s == "new"@ || s == "resolved"@ || s == "unresolved"@ || s == "not_retested"@
}

fn finding_status_ok(s: &str) -> (r: bool)
    ensures
        r == is_finding_status(s@),
{
    let v = chars_of(s);
    eq_str(&v, "new") || eq_str(&v, "resolved") || eq_str(&v, "unresolved") || eq_str(
        &v,
        "not_retested",
    )
}

/// The status of a new finding: the one asked for when it is valid, else
/// `new`.
pub fn initial_finding_status(requested: Option<&str>) -> (r: String)
    ensures
        r@ == (match requested {
            Some(s) => if is_finding_status(s@) {
                s@
            } else {
                "new"@
            },
            None => "new"@,
        }),
{
    match requested {
        Some(s) => if finding_status_ok(s) {
            s.to_owned()
        } else {
            "new".to_owned()
        },
        None => "new".to_owned(),
    }
}

/// The status of an edited finding: the one asked for when it is valid,
/// else the one it had.
pub fn updated_finding_status(current: &str, requested: Option<&str>) -> (r: String)
    ensures
        r@ == (match requested {
            Some(s) => if is_finding_status(s@) {
                s@
            } else {
                current@
            },
            None => current@,
        }),
{
    match requested {
        Some(s) => if finding_status_ok(s) {
            s.to_owned()
        } else {
            current.to_owned()
        },
        None => current.to_owned(),
    }
}

/// A finding's status never leaves the allowed set: new findings start in
/// it, and edits of a finding in it keep it there.
pub proof fn lemma_finding_status_stays_valid(current: Seq<char>, requested: Option<Seq<char>>)
    ensures
        is_finding_status(
            match requested {
                Some(s) => if is_finding_status(s) {
                    s
                } else {
                    "new"@
                },
                None => "new"@,
            },
        ),
        is_finding_status(current) ==> is_finding_status(
            match requested {
                Some(s) => if is_finding_status(s) {
                    s
                } else {
                    current
                },
                None => current,
            },
        ),
{
}

/// Checks a comment: it must have text other than white space.
pub fn check_comment(content: &str) -> (r: Result<(), EngagementError>)
    ensures
        r is Ok <==> trimmed(content@).len() > 0,
        r matches Err(e) ==> e is EmptyComment,
{
    if is_blank(content) {
        Err(EngagementError::EmptyComment)
    } else {
        Ok(())
    }
}

/// A comment may be deleted by its author or by a platform admin; for
/// anyone else it is not found.
pub fn check_comment_delete(author_id: i32, user_id: i32, is_admin: bool) -> (r: Result<
    (),
    EngagementError,
>)
    ensures
        r is Ok <==> author_id == user_id || is_admin,
        r matches Err(e) ==> e is NotFound,
{
    if author_id != user_id && !is_admin {
        Err(EngagementError::NotFound)
    } else {
        Ok(())
    }
}

/// Reads the public id of a comment to delete; one that is not a UUID
/// names no comment.
pub fn comment_id(pid: &str) -> (r: Result<u128, EngagementError>)
    ensures
        match uuid_value(pid@) {
            Some(u) => r == Ok::<u128, EngagementError>(u),
            None => r == Err::<u128, EngagementError>(EngagementError::NotFound),
        },
{
    match parse_uuid(pid) {
        Some(u) => Ok(u),
        None => Err(EngagementError::NotFound),
    }
}

/// On the organisation's findings list, an engagement offers its "add
/// finding" action to organisation admins, and to pentesters assigned to it
/// while it is in progress.
pub fn engagement_editable_on_list(is_org_admin: bool, is_assigned: bool, status: &str) -> (r: bool)
    ensures
        r == (is_org_admin || (is_assigned && status@ == "in_progress"@)),
{
    if is_org_admin {
        return true;
    }
    let s = chars_of(status);
    is_assigned && eq_str(&s, "in_progress")
}

/// A finding may be edited by staff and by the pentesters assigned to its
/// engagement (a finding without an engagement has none).
pub fn finding_editable(is_staff: bool, assigned_to_engagement: bool) -> (r: bool)
    ensures
        r == (is_staff || assigned_to_engagement),
{
    is_staff || assigned_to_engagement
}

/// Checks that another engagement may be requested by an organisation that
/// has `existing` engagements: the Free plan allows three.
pub fn check_engagement_quota(tier: PlanTier, existing: u64) -> (r: Result<(), EngagementError>)
    ensures
        r is Ok <==> engagement_allowed(tier, existing),
        r matches Err(e) ==> e is EngagementLimitReached,
{
    if tier.is_free() && existing >= FREE_ENGAGEMENT_LIMIT {
        Err(EngagementError::EngagementLimitReached)
    } else {
        Ok(())
    }
}

/// Checks that another finding may be added to an engagement that has
/// `existing` findings: the Free plan allows ten per engagement.
pub fn check_finding_quota(tier: PlanTier, existing: u64) -> (r: Result<(), EngagementError>)
    ensures
        r is Ok <==> finding_allowed(tier, existing),
        r matches Err(e) ==> e is FindingLimitReached,
{
    if tier.is_free() && existing >= FREE_FINDINGS_PER_ENGAGEMENT {
        Err(EngagementError::FindingLimitReached)
    } else {
        Ok(())
    }
}

/// Reports are built for engagements in progress, in review or delivered.
pub open spec fn report_allowed(status: Seq<char>) -> bool {
    status == "in_progress"@ || status == "review"@ || status == "delivered"@
}

/// Checks that the report page may be opened or a report requested.
pub fn check_report_allowed(status: &str) -> (r: Result<(), EngagementError>)
    ensures
        r is Ok <==> report_allowed(status@),
        r matches Err(e) ==> e is ReportNotAllowed,
{
    let s = chars_of(status);
    if eq_str(&s, "in_progress") || eq_str(&s, "review") || eq_str(&s, "delivered") {
        Ok(())
    } else {
        Err(EngagementError::ReportNotAllowed)
    }
}

/// Checks a report request: the status first, then the plan (the Free
/// plan generates no reports), then that there are findings to report.
pub fn check_report_request(status: &str, tier: PlanTier, finding_count: usize) -> (r: Result<
    (),
    EngagementError,
>)
    ensures
        r is Ok <==> report_allowed(status@) && includes_scans_and_reports(tier) && finding_count > 0,
        !report_allowed(status@) ==> r matches Err(EngagementError::ReportNotAllowed),
        report_allowed(status@) && !includes_scans_and_reports(tier) ==> r matches Err(
            EngagementError::ReportsUnavailable,
        ),
        report_allowed(status@) && includes_scans_and_reports(tier) && finding_count == 0 ==> r matches Err(
            EngagementError::NoFindings,
        ),
{
    check_report_allowed(status)?;
    if tier.is_free() {
        return Err(EngagementError::ReportsUnavailable);
    }
    if finding_count == 0 {
        return Err(EngagementError::NoFindings);
    }
    Ok(())
}

/// The name of the job definition that builds an engagement's report.
pub fn report_definition_name(title: &str) -> (r: String)
    ensures
        r@ == "Report: "@ + title@,
{
    let mut v: Vec<char> = Vec::new();
    push_str(&mut v, "Report: ");
    push_str(&mut v, title);
    string_of(&v)
}

/// The state of report building shown on the report page: `running` while
/// a build is queued or running, `failed` when a build failed and no report
/// exists yet, nothing otherwise (or when no build was ever asked for).
pub fn report_job_status(
    definition_exists: bool,
    build_pending: bool,
    build_failed: bool,
    has_reports: bool,
) -> (r: Option<&'static str>)
    ensures
        match r {
            Some(s) => definition_exists && ((build_pending && s@ == "running"@) || (!build_pending
                && build_failed && !has_reports && s@ == "failed"@)),
            None => !definition_exists || (!build_pending && !(build_failed && !has_reports)),
        },
{
    if !definition_exists {
        None
    } else if build_pending {
        Some("running")
    } else if build_failed && !has_reports {
        Some("failed")
    } else {
        None
    }
}

// ---------------------------------------------------------------------------
// Laws of the workflow
// ---------------------------------------------------------------------------

/// A finished engagement (delivered or cancelled) is final: no offer,
/// response, assignment, status change or finding change is accepted on it.
pub proof fn lemma_finished_engagements_are_final(
    status: Seq<char>,
    to: Seq<char>,
    has_offer: bool,
    action: Seq<char>,
    user_exists: bool,
    is_client_member: bool,
    already_assigned: bool,
)
    requires
        status == "delivered"@ || status == "cancelled"@,
    ensures
        !offer_allowed(status),
        respond_outcome(status, has_offer, action) is Err,
        assign_outcome(status, user_exists, is_client_member, already_assigned) is Err,
        !valid_transition(status, to),
        status != "in_progress"@,
{
    lemma_status_literals();
    assert(status[0] == 'd' || status[0] == 'c');
}

/// Review and delivery are never cancelled, and every allowed change leads
/// to review, delivery, back to work, or cancellation.
pub proof fn lemma_transition_targets(from: Seq<char>, to: Seq<char>)
    ensures
        (from == "review"@ || from == "delivered"@) ==> !valid_transition(from, "cancelled"@),
        valid_transition(from, to) ==> to == "review"@ || to == "delivered"@ || to
            == "in_progress"@ || to == "cancelled"@,
{
    lemma_status_literals();
    if from == "review"@ {
        assert(from[2] == 'v');
    }
}

/// An engagement may be cancelled exactly while it is requested, offered,
/// under negotiation, accepted or in progress; once in review, delivered or
/// cancelled it may not be.
pub proof fn lemma_cancellation(from: Seq<char>)
    ensures
        valid_transition(from, "cancelled"@) <==> (from == "requested"@ || from == "offer_sent"@
            || from == "negotiating"@ || from == "accepted"@ || from == "in_progress"@),
{
    lemma_status_literals();
    if from == "review"@ {
        assert(from[2] == 'v');
    }
}

/// Outside cancellation, an admin may move an engagement from in progress to
/// review, and from review to delivered or back to in progress, and nothing
/// else; delivery and cancellation complete the engagement.
pub proof fn lemma_workflow_moves(from: Seq<char>, to: Seq<char>)
    ensures
        to != "cancelled"@ ==> (valid_transition(from, to) <==> ((from == "in_progress"@ && to
            == "review"@) || (from == "review"@ && to == "delivered"@) || (from == "review"@ && to
            == "in_progress"@))),
{
}

/// The statuses of the engagement workflow.
pub open spec fn is_engagement_status(s: Seq<char>) -> bool {
    ||| s == "requested"@
    ||| s == "offer_sent"@
    ||| s == "negotiating"@
    ||| s == "accepted"@
    ||| s == "in_progress"@
    ||| s == "review"@
    ||| s == "delivered"@
    ||| s == "cancelled"@
}

/// The workflow never leaves its statuses: from any of them, making an
/// offer leads to `offer_sent`, a response to `accepted` or `negotiating`,
/// an assignment to `in_progress` (or no change), and an admin's status
/// change to one of the workflow's statuses.
pub proof fn lemma_workflow_stays_within_known_statuses(
    status: Seq<char>,
    to: Seq<char>,
    has_offer: bool,
    action: Seq<char>,
    user_exists: bool,
    is_client_member: bool,
    already_assigned: bool,
)
    requires
        is_engagement_status(status),
    ensures
        offer_allowed(status) ==> is_engagement_status("offer_sent"@),
        respond_outcome(status, has_offer, action) matches Ok(r) ==> is_engagement_status(
            status_after_response(r),
        ),
        assign_outcome(status, user_exists, is_client_member, already_assigned) matches Ok(starts)
            ==> is_engagement_status(
            if starts {
                "in_progress"@
            } else {
                status
            },
        ),
        valid_transition(status, to) ==> is_engagement_status(to),
{
    lemma_transition_targets(status, to);
}

/// Assigning a pentester starts exactly the accepted engagements.
pub proof fn lemma_assignment_starts_accepted_engagements(
    status: Seq<char>,
    user_exists: bool,
    is_client_member: bool,
    already_assigned: bool,
)
    ensures
        assign_outcome(status, user_exists, is_client_member, already_assigned) matches Ok(starts)
            ==> (starts <==> status == "accepted"@),
{
}

/// The first letters of the status names (the third for the two that begin
/// with `re`), which tell them apart.
proof fn lemma_status_literals()
    ensures
        "requested"@[0] == 'r' && "requested"@[2] == 'q' && "requested"@.len() == 9,
        "offer_sent"@[0] == 'o',
        "negotiating"@[0] == 'n',
        "accepted"@[0] == 'a',
        "in_progress"@[0] == 'i',
        "review"@[0] == 'r' && "review"@[2] == 'v' && "review"@.len() == 6,
        "delivered"@[0] == 'd',
        "cancelled"@[0] == 'c' && "cancelled"@.len() == 9,
{
    reveal_strlit("requested");
    reveal_strlit("offer_sent");
    reveal_strlit("negotiating");
    reveal_strlit("accepted");
    reveal_strlit("in_progress");
    reveal_strlit("review");
    reveal_strlit("delivered");
    reveal_strlit("cancelled");
}

} // verus!

use fracture_pt::engagement::{
    check_comment, check_comment_delete, check_findings_open, check_offer_allowed,
    check_report_allowed, check_report_request, check_severity, comment_id, compute_access,
    decide_assignment, decide_response, engagement_editable_on_list, finding_editable,
    initial_status, target_belongs_to_org, decide_status_change, initial_finding_status,
    offers_to_supersede, parse_valid_until, report_definition_name, report_job_status,
    require_edit, require_view, updated_finding_status, EngagementError, FindingAction,
    OfferResponse, check_engagement_quota, check_finding_quota,
};
use fracture_pt::plans::PlanTier;

#[test]
fn access_by_relation() {
    let member = compute_access(true, false, false);
    assert!(member.can_view && member.can_comment && !member.can_edit_findings);
    let pentester = compute_access(false, true, false);
    assert!(pentester.can_view && pentester.can_edit_findings && pentester.can_comment);
    let admin = compute_access(false, false, true);
    assert!(admin.can_edit_findings);
    let stranger = compute_access(false, false, false);
    assert!(!stranger.can_view && !stranger.can_comment && !stranger.can_edit_findings);
    assert_eq!(require_view(stranger), Err(EngagementError::NotFound));
    assert_eq!(require_edit(member), Err(EngagementError::NotFound));
    assert_eq!(require_edit(pentester), Ok(()));
}

#[test]
fn offers_only_when_requested_or_negotiating() {
    assert_eq!(check_offer_allowed("requested"), Ok(()));
    assert_eq!(check_offer_allowed("negotiating"), Ok(()));
    assert_eq!(check_offer_allowed("accepted"), Err(EngagementError::CannotCreateOffer));
    assert_eq!(EngagementError::CannotCreateOffer.message(), "Cannot create offer in current state");
    let statuses: Vec<String> = ["pending", "rejected", "pending", "superseded"].iter().map(|s| s.to_string()).collect();
    assert_eq!(offers_to_supersede(&statuses), vec![0, 2]);
}

#[test]
fn valid_until_is_end_of_day_utc() {
    let t = parse_valid_until("2026-03-10").unwrap();
    assert_eq!(t.secs, 1_773_187_199);
    assert_eq!(t.nanos, 0);
    assert_eq!(t.offset_secs, 0);
    assert_eq!(parse_valid_until("10/03/2026"), Err(EngagementError::InvalidValidUntil));
    assert_eq!(EngagementError::InvalidValidUntil.message(), "Invalid date format for valid_until");
}

#[test]
fn responses_to_offers() {
    assert_eq!(decide_response("offer_sent", true, "accept"), Ok(OfferResponse::Accept));
    assert_eq!(decide_response("offer_sent", true, "negotiate"), Ok(OfferResponse::Negotiate));
    assert_eq!(decide_response("offer_sent", true, "maybe"), Err(EngagementError::InvalidAction));
    assert_eq!(decide_response("offer_sent", false, "accept"), Err(EngagementError::NotFound));
    assert_eq!(decide_response("requested", true, "accept"), Err(EngagementError::CannotRespond));
    assert_eq!(OfferResponse::Accept.engagement_status(), "accepted");
    assert_eq!(OfferResponse::Negotiate.engagement_status(), "negotiating");
    assert_eq!(OfferResponse::Negotiate.offer_status(), "rejected");
}

#[test]
fn assignment_checks_in_order() {
    let a = decide_assignment("accepted", true, false, false, None).unwrap();
    assert_eq!(a.role, "member");
    assert!(a.starts_engagement);
    let b = decide_assignment("in_progress", true, false, false, Some("lead".to_string())).unwrap();
    assert_eq!(b.role, "lead");
    assert!(!b.starts_engagement);
    assert_eq!(decide_assignment("review", true, false, false, None).unwrap_err(), EngagementError::CannotAssign);
    assert_eq!(decide_assignment("accepted", false, true, true, None).unwrap_err(), EngagementError::UserNotFound);
    assert_eq!(decide_assignment("accepted", true, true, true, None).unwrap_err(), EngagementError::ClientMember);
    assert_eq!(decide_assignment("accepted", true, false, true, None).unwrap_err(), EngagementError::AlreadyAssigned);
    assert_eq!(
        EngagementError::ClientMember.message(),
        "Cannot assign a client org member as pentester to their own engagement"
    );
}

#[test]
fn status_transitions() {
    assert!(!decide_status_change("in_progress", "review").unwrap().completes);
    assert!(decide_status_change("review", "delivered").unwrap().completes);
    assert!(!decide_status_change("review", "in_progress").unwrap().completes);
    assert!(decide_status_change("requested", "cancelled").unwrap().completes);
    assert!(decide_status_change("in_progress", "cancelled").is_ok());
    let e = decide_status_change("review", "cancelled").unwrap_err();
    assert_eq!(e.message(), "Invalid transition from 'review' to 'cancelled'");
    assert!(decide_status_change("delivered", "in_progress").is_err());
    assert!(decide_status_change("cancelled", "requested").is_err());
    assert!(decide_status_change("requested", "accepted").is_err());
}

#[test]
fn findings_only_while_in_progress() {
    assert_eq!(check_findings_open("in_progress", FindingAction::AddFinding), Ok(()));
    let e = check_findings_open("review", FindingAction::DeleteNonFinding).unwrap_err();
    assert_eq!(e.message(), "Cannot delete non-findings in current state");
    assert_eq!(
        check_findings_open("accepted", FindingAction::EditFinding).unwrap_err().message(),
        "Cannot edit findings in current state"
    );
}

#[test]
fn severities_and_statuses() {
    for s in ["extreme", "high", "elevated", "moderate", "low"] {
        assert_eq!(check_severity(s), Ok(()));
    }
    assert_eq!(check_severity("critical"), Err(EngagementError::InvalidSeverity));
    assert_eq!(check_severity("High"), Err(EngagementError::InvalidSeverity));
    assert_eq!(initial_finding_status(Some("resolved")), "resolved");
    assert_eq!(initial_finding_status(Some("open")), "new");
    assert_eq!(initial_finding_status(None), "new");
    assert_eq!(updated_finding_status("unresolved", Some("bogus")), "unresolved");
    assert_eq!(updated_finding_status("new", Some("not_retested")), "not_retested");
    assert_eq!(updated_finding_status("resolved", None), "resolved");
}

#[test]
fn comments() {
    assert_eq!(check_comment("  \n\t"), Err(EngagementError::EmptyComment));
    assert_eq!(EngagementError::EmptyComment.message(), "Comment cannot be empty");
    assert_eq!(check_comment(" hi "), Ok(()));
    assert_eq!(check_comment_delete(5, 5, false), Ok(()));
    assert_eq!(check_comment_delete(5, 6, true), Ok(()));
    assert_eq!(check_comment_delete(5, 6, false), Err(EngagementError::NotFound));
    assert_eq!(comment_id("67e55044-10b1-426f-9247-bb680e5fe0c8"), Ok(0x67e5504410b1426f9247bb680e5fe0c8));
    assert_eq!(comment_id("not-a-uuid"), Err(EngagementError::NotFound));
}

#[test]
fn reports() {
    assert_eq!(check_report_allowed("delivered"), Ok(()));
    assert_eq!(check_report_allowed("accepted"), Err(EngagementError::ReportNotAllowed));
    assert_eq!(check_report_request("review", PlanTier::Strike, 0), Err(EngagementError::NoFindings));
    assert_eq!(check_report_request("requested", PlanTier::Strike, 0), Err(EngagementError::ReportNotAllowed));
    assert_eq!(check_report_request("requested", PlanTier::Free, 3), Err(EngagementError::ReportNotAllowed));
    assert_eq!(check_report_request("in_progress", PlanTier::Recon, 3), Ok(()));
    assert_eq!(check_report_request("delivered", PlanTier::Free, 3), Err(EngagementError::ReportsUnavailable));
    assert_eq!(check_report_request("review", PlanTier::Free, 0), Err(EngagementError::ReportsUnavailable));
    assert_eq!(
        EngagementError::ReportsUnavailable.message(),
        "Report generation requires a paid plan. Upgrade to generate reports."
    );
    assert_eq!(
        EngagementError::ReportNotAllowed.message(),
        "Reports can only be generated for active or delivered engagements"
    );
    assert_eq!(report_definition_name("Acme pentest"), "Report: Acme pentest");
    assert_eq!(report_job_status(true, true, true, false), Some("running"));
    assert_eq!(report_job_status(true, false, true, false), Some("failed"));
    assert_eq!(report_job_status(true, false, true, true), None);
    assert_eq!(report_job_status(false, true, true, false), None);
}

#[test]
fn finding_list_and_edit_rights() {
    assert!(engagement_editable_on_list(true, false, "delivered"));
    assert!(engagement_editable_on_list(false, true, "in_progress"));
    assert!(!engagement_editable_on_list(false, true, "review"));
    assert!(!engagement_editable_on_list(false, false, "in_progress"));
    assert!(finding_editable(false, true));
    assert!(!finding_editable(false, false));
}

#[test]
fn finished_engagements_accept_no_change() {
    for s in ["delivered", "cancelled"] {
        assert_eq!(check_offer_allowed(s), Err(EngagementError::CannotCreateOffer));
        assert_eq!(decide_response(s, true, "accept"), Err(EngagementError::CannotRespond));
        assert_eq!(decide_assignment(s, true, false, false, None).unwrap_err(), EngagementError::CannotAssign);
        for to in ["requested", "offer_sent", "negotiating", "accepted", "in_progress", "review", "delivered", "cancelled"] {
            assert!(decide_status_change(s, to).is_err());
        }
        assert!(check_findings_open(s, FindingAction::AddFinding).is_err());
    }
}

#[test]
fn requests_and_target_links() {
    assert_eq!(initial_status(), "requested");
    assert_eq!(target_belongs_to_org(&vec![3, 5], 5), Ok(()));
    assert_eq!(target_belongs_to_org(&vec![3, 5], 4), Err(EngagementError::NotFound));
}

#[test]
fn free_plan_limits() {
    assert_eq!(check_engagement_quota(PlanTier::Free, 0), Ok(()));
    assert_eq!(check_engagement_quota(PlanTier::Free, 2), Ok(()));
    assert_eq!(check_engagement_quota(PlanTier::Free, 3), Err(EngagementError::EngagementLimitReached));
    assert_eq!(check_engagement_quota(PlanTier::Recon, 300), Ok(()));
    assert_eq!(
        EngagementError::EngagementLimitReached.message(),
        "The Free plan allows up to 3 engagements. Upgrade to add more."
    );
    assert_eq!(check_finding_quota(PlanTier::Free, 9), Ok(()));
    assert_eq!(check_finding_quota(PlanTier::Free, 10), Err(EngagementError::FindingLimitReached));
    assert_eq!(check_finding_quota(PlanTier::Enterprise, 10_000), Ok(()));
    assert_eq!(
        EngagementError::FindingLimitReached.message(),
        "The Free plan allows up to 10 findings per engagement. Upgrade to add more."
    );
}

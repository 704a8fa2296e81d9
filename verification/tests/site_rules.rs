use fracture_pt::schema::{foreign_keys, migration_names, platform_admin_org, OnDelete};
use fracture_pt::dashboard::target_display_name;
use fracture_pt::access::{
    alert_emails_update, authenticate, authorize_org, authorize_platform_admin, check_user_deletion,
    inline_disposition, max_targets_text, plan_tier_update, reattributed_comment,
    upload_cache_control, upload_delete_allowed, upload_read_allowed, AdminRole, MemberRole,
    OrgRole, OwnerRole, Rejection, RoleRequirement, ViewerRole, Visibility,
};
use fracture_pt::app_info::{
    admin_entities, App, SecurityHeadersInitializer, SqlitePragmasInitializer, TemplateInitializer,
};
use fracture_pt::catalog::seed_catalog;
use fracture_pt::contact::{
    break_lines, check_contact, contact_message, default_contact_recipient, default_mail_sender,
    setting_or, ContactError, ContactForm,
};
use fracture_pt::free_scan::{
    collect_port_scans, free_scan_cookie, free_scan_definition_name, join_subdomains,
    may_view_results, results_page_status, DefinitionResult, PortScanDefinition,
};
use fracture_pt::ids::{parse_pids, pids_from_body, pids_from_pairs};
use fracture_pt::reports::{name_or_unknown, report_download_headers};
use fracture_pt::scan_target::{
    asm_definition_for, check_manual_scan, check_new_target, check_new_target_on_plan, check_scheduling, current_schedule,
    definition_matches_target, definitions_to_reschedule, find_asm_definition,
    find_port_definition, port_scan_definition_name, scan_status, scan_subject, schedule_label,
    schedule_value, DefinitionConfig, ScanStatus, TargetError,
};
use fracture_pt::hostname::HostnameError;
use fracture_pt::plans::{PlanTier, FREE_ENGAGEMENT_LIMIT, FREE_FINDINGS_PER_ENGAGEMENT};
use fracture_pt::ip::{IpAddress, IpError};

#[test]
fn roles_and_refusals() {
    assert!(OrgRole::Owner.at_least(OrgRole::Admin));
    assert!(!OrgRole::Member.at_least(OrgRole::Admin));
    assert_eq!(ViewerRole::minimum_role(), OrgRole::Viewer);
    assert_eq!(MemberRole::minimum_role(), OrgRole::Member);
    assert_eq!(AdminRole::minimum_role(), OrgRole::Admin);
    assert_eq!(OwnerRole::minimum_role(), OrgRole::Owner);
    assert_eq!(authenticate(false), Err(Rejection::LoginRedirect));
    assert_eq!(authorize_org(false, Some(OrgRole::Owner), OrgRole::Viewer), Err(Rejection::LoginRedirect));
    assert_eq!(authorize_org(true, None, OrgRole::Viewer), Err(Rejection::NotFound));
    assert_eq!(authorize_org(true, Some(OrgRole::Viewer), OrgRole::Member), Err(Rejection::Forbidden));
    assert_eq!(authorize_org(true, Some(OrgRole::Admin), OrgRole::Member), Ok(()));
    assert_eq!(authorize_platform_admin(true, true, false), Err(Rejection::NotFound));
    assert_eq!(authorize_platform_admin(true, true, true), Ok(()));
    assert_eq!(Rejection::Forbidden.status(), 403);
    assert_eq!(Rejection::NotFound.text(), "Not Found");
    assert_eq!(Rejection::LoginRedirect.text(), "/api/auth/oidc/authorize");
}

#[test]
fn uploads() {
    assert!(upload_read_allowed(Some(Visibility::Public), false, false, false, false));
    assert!(!upload_read_allowed(Some(Visibility::Org), false, true, true, true));
    assert!(!upload_read_allowed(None, true, false, false, false));
    assert!(upload_read_allowed(None, true, false, false, true));
    assert_eq!(upload_cache_control(Some(Visibility::Public)), "public, max-age=86400, immutable");
    assert_eq!(upload_cache_control(None), "private, no-cache");
    assert_eq!(inline_disposition("a.png"), "inline; filename=\"a.png\"");
    assert!(upload_delete_allowed(false, false, Some(3), Some(OrgRole::Admin), 3, false));
    assert!(!upload_delete_allowed(false, false, Some(4), Some(OrgRole::Owner), 3, false));
    assert!(!upload_delete_allowed(false, false, Some(3), Some(OrgRole::Member), 3, false));
    assert!(upload_delete_allowed(true, false, None, None, 3, false));
}

#[test]
fn accounts_and_plans() {
    assert_eq!(check_user_deletion(1, 1), Err("Cannot delete your own account"));
    assert_eq!(check_user_deletion(1, 2), Ok(()));
    assert_eq!(reattributed_comment("Ann", "hi"), "*Originally posted by Ann:*\n\nhi");
    assert_eq!(plan_tier_update(true, Some("strike")), Some("strike".to_string()));
    assert_eq!(plan_tier_update(true, Some("gold")), None);
    assert_eq!(plan_tier_update(false, Some("free")), None);
    assert_eq!(alert_emails_update(true, None), Some(String::new()));
    assert_eq!(alert_emails_update(false, Some("a@b.c".to_string())), None);
    assert_eq!(max_targets_text(Some(25)), "25");
    assert_eq!(max_targets_text(None), "Unlimited");
}

fn form(subject: &str) -> ContactForm {
    ContactForm {
        name: "Ann".to_string(),
        email: "ann@example.com".to_string(),
        company: "Acme".to_string(),
        subject: subject.to_string(),
        message: "Hello\nthere".to_string(),
        phone: "123".to_string(),
        details: "Two apps".to_string(),
        wizard_approach: "grey".to_string(),
        wizard_scope: "web".to_string(),
        wizard_duration: "5".to_string(),
        wizard_estimate: "5000".to_string(),
    }
}

#[test]
fn contact_form() {
    let mut f = form("Hi");
    assert_eq!(check_contact(&f), Ok(()));
    f.email = "  ".to_string();
    assert_eq!(check_contact(&f), Err(ContactError::MissingFields));
    f.email = "ann@example".to_string();
    assert_eq!(check_contact(&f), Err(ContactError::InvalidEmail));
    assert_eq!(ContactError::InvalidEmail.message(), "Please enter a valid email address.");
    let m = contact_message(&form("Hi"));
    assert!(!m.is_scope);
    assert_eq!(m.subject, "[GetHacked] Contact: Hi \u{2014} Ann");
    assert_eq!(m.text, "Name: Ann\nEmail: ann@example.com\nCompany: Acme\nSubject: Hi\n\n--- Message ---\nHello\nthere");
    assert_eq!(m.html, "Name: Ann<br>Email: ann@example.com<br>Company: Acme<br>Subject: Hi<br><br>--- Message ---<br>Hello<br>there");
    assert_eq!(m.reply_to, "ann@example.com");
    let s = contact_message(&form("scope-wizard"));
    assert!(s.is_scope);
    assert_eq!(s.subject, "[GetHacked] Scope request from Ann (ann@example.com)");
    assert_eq!(s.text, "Name: Ann\nEmail: ann@example.com\nCompany: Acme\nPhone: 123\n\n--- Scope Wizard ---\nApproach: grey\nTargets: web\nDuration: 5 man-days\nEstimate: EUR 5000\n\n--- Details ---\nTwo apps");
    assert_eq!(break_lines("a\n\nb"), "a<br><br>b");
    assert_eq!(setting_or(None, default_contact_recipient()), "hello@gethacked.eu");
    assert_eq!(setting_or(Some("x@y.z".to_string()), default_mail_sender()), "x@y.z");
    assert_eq!(default_mail_sender(), "noreply@gethacked.eu");
}

#[test]
fn new_targets() {
    let e = check_new_target(5, Some(5), "Recon", Some("example.com"), false, None).unwrap_err();
    assert_eq!(e.message(), "Your Recon plan allows up to 5 targets. Upgrade to add more.");
    let one = check_new_target(1, Some(1), "Free", None, false, None).unwrap_err();
    assert_eq!(one.message(), "Your Free plan allows up to 1 target. Upgrade to add more.");
    assert_eq!(check_new_target(0, None, "X", Some("localhost"), false, None), Err(TargetError::Hostname(HostnameError::Reserved)));
    assert_eq!(
        check_new_target(0, None, "X", Some("example.com"), true, Some(IpAddress::V4(10, 0, 0, 1))),
        Err(TargetError::Ip(IpError::ReservedOrPrivate))
    );
    assert_eq!(check_new_target(0, None, "X", None, true, None), Err(TargetError::Ip(IpError::InvalidFormat)));
    assert_eq!(check_new_target(0, None, "X", None, false, None), Err(TargetError::MissingTarget));
    assert_eq!(TargetError::MissingTarget.message(), "Either hostname or IP address must be provided");
    assert_eq!(check_new_target(0, Some(3), "X", None, true, Some(IpAddress::V4(8, 8, 8, 8))), Ok(()));
    assert_eq!(
        asm_definition_for(PlanTier::Recon, " Example.com "),
        Some(("ASM: example.com".to_string(), "example.com".to_string()))
    );
    assert_eq!(asm_definition_for(PlanTier::Enterprise, "   "), None);
    assert_eq!(asm_definition_for(PlanTier::Free, "example.com"), None);
}

#[test]
fn manual_scans_and_schedules() {
    assert_eq!(scan_subject(None, Some("1.2.3.4")), Ok("1.2.3.4".to_string()));
    assert_eq!(scan_subject(None, None), Err(TargetError::NothingToScan));
    assert_eq!(TargetError::NothingToScan.message(), "Target has no hostname or IP");
    assert_eq!(port_scan_definition_name("h.x"), "Port Scan: h.x");
    assert_eq!(check_manual_scan(PlanTier::Free), Err(TargetError::PortScansUnavailable));
    assert_eq!(check_manual_scan(PlanTier::Recon), Ok(()));
    assert_eq!(check_manual_scan(PlanTier::Strike), Ok(()));
    assert_eq!(check_manual_scan(PlanTier::Offensive), Ok(()));
    assert_eq!(check_manual_scan(PlanTier::Enterprise), Ok(()));
    assert_eq!(TargetError::PortScansUnavailable.message(), "Port scans require a paid plan. Upgrade to scan ports.");
    assert_eq!(check_scheduling(PlanTier::Free), Err(TargetError::SchedulingUnavailable));
    assert_eq!(check_scheduling(PlanTier::Strike), Ok(()));
    assert_eq!(check_scheduling(PlanTier::Enterprise), Ok(()));
    assert_eq!(schedule_value("daily"), Some("0 3 * * *".to_string()));
    assert_eq!(schedule_value("weekly"), Some("0 3 * * 1".to_string()));
    assert_eq!(schedule_value("monthly"), Some("0 3 1 * *".to_string()));
    assert_eq!(schedule_value("off"), None);
    assert_eq!(schedule_label("0 3 * * *"), "daily");
    assert_eq!(schedule_label("0 3 * * 1"), "weekly");
    assert_eq!(schedule_label("0 3 1 * *"), "monthly");
    assert_eq!(schedule_label(""), "off");
    assert_eq!(schedule_label("*/5 * * * *"), "custom");
    assert_eq!(schedule_label("5 4 * * *"), "custom");
    assert_eq!(scan_status(true, true, true), ScanStatus::Running);
    assert_eq!(scan_status(false, false, true).text(), Some("failed"));
    assert_eq!(scan_status(false, false, false).text(), None);
}

#[test]
fn definitions_of_a_target() {
    let c = |h: Option<&str>, t: Option<i64>| DefinitionConfig { hostname: h.map(|s| s.to_string()), target_id: t };
    let cfgs = vec![c(Some("a.x"), None), c(None, Some(7)), c(Some("b.x"), Some(8)), c(None, None)];
    assert!(definition_matches_target(&cfgs[1], "zzz", 7));
    assert_eq!(definitions_to_reschedule(&cfgs, "a.x", 7), vec![0, 1]);
    let defs = vec![(c(Some("a.x"), None), None), (c(None, Some(7)), Some("0 3 * * 1".to_string()))];
    assert_eq!(current_schedule(&defs, "a.x", 7), "0 3 * * 1");
    assert_eq!(current_schedule(&defs, "q", 1), "");
    let hosts = vec![None, Some("a.x".to_string()), Some("a.x".to_string())];
    assert_eq!(find_asm_definition(&hosts, "a.x"), Some(1));
    assert_eq!(find_asm_definition(&hosts, "b.x"), None);
    assert_eq!(find_port_definition(&vec![Some(1), None, Some(7)], 7), Some(2));
}

fn def(sub: &str, host: &str, pending: bool, stuck: bool, result: DefinitionResult) -> PortScanDefinition {
    PortScanDefinition { subdomain: sub.to_string(), hostname: host.to_string(), pending, stuck, result }
}

#[test]
fn free_scan_groups_by_address() {
    let done = |ip: &str, total: u64, n: usize| DefinitionResult::Completed { ip: Some(ip.to_string()), total_open: Some(total), port_count: n };
    let defs = vec![
        def("www.example.com", "9.9.9.9", false, false, done("9.9.9.9", 2, 2)),
        def("api.example.com", "9.9.9.9", false, false, done("9.9.9.9", 3, 3)),
        def("mail.example.com", "1.1.1.1", false, false, DefinitionResult::Failed),
        def("x.other.org", "5.5.5.5", false, false, done("5.5.5.5", 1, 1)),
        def("slow.example.com", "7.7.7.7", true, false, done("7.7.7.7", 1, 1)),
        def("old.example.com", "8.8.8.8", true, true, done("", 0, 0)),
    ];
    let page = collect_port_scans(&defs, "example.com");
    assert!(page.any_running);
    let ips: Vec<&str> = page.groups.iter().map(|g| g.ip.as_str()).collect();
    assert_eq!(ips, vec!["1.1.1.1", "8.8.8.8", "9.9.9.9"]);
    let g = &page.groups[2];
    assert_eq!(g.subdomains, vec!["www.example.com", "api.example.com"]);
    assert_eq!(g.ports_from, Some(1));
    assert_eq!(g.total_open, 3);
    assert_eq!(join_subdomains(&g.subdomains), "www.example.com, api.example.com");
    assert_eq!(page.groups[0].ports_from, None);
    assert!(may_view_results(false, true));
    assert!(!may_view_results(false, false));
    assert_eq!(free_scan_definition_name("example.com"), "Free scan: example.com");
    assert_eq!(results_page_status("completed", true), "port_scanning");
    assert_eq!(results_page_status("completed", false), "completed");
    assert_eq!(results_page_status("queued", false), "queued");
    let cookie = free_scan_cookie("abc", "https://x");
    assert_eq!(cookie.name, "free_scan_token");
    assert_eq!(cookie.path, "/free-scan/abc");
    assert!(cookie.secure && cookie.http_only);
    assert_eq!(cookie.same_site, "Lax");
    assert!(!free_scan_cookie("abc", "http://x").secure);
}

#[test]
fn form_bodies_and_ids() {
    let pairs = vec![("pids[]".to_string(), "a".to_string()), ("x".to_string(), "y".to_string()), ("pids[]".to_string(), "b".to_string())];
    assert_eq!(pids_from_pairs(&pairs), vec!["a", "b"]);
    assert_eq!(pids_from_body("pids%5B%5D=one&other=2&pids[]=two+three"), vec!["one", "two three"]);
    let ids = parse_pids(&vec!["67e55044-10b1-426f-9247-bb680e5fe0c8".to_string(), "junk".to_string()]);
    assert_eq!(ids, vec![0x67e5504410b1426f9247bb680e5fe0c8u128]);
}

#[test]
fn report_files_and_names() {
    let (t, d) = report_download_headers("pdf", "p1");
    assert_eq!(t, "application/pdf");
    assert_eq!(d, "attachment; filename=\"report-p1.pdf\"");
    let (t2, d2) = report_download_headers("docx", "p2");
    assert_eq!(t2, "application/octet-stream");
    assert_eq!(d2, "attachment; filename=\"report-p2.bin\"");
    let rows = vec![(1, "Acme".to_string()), (2, "Beta".to_string())];
    assert_eq!(name_or_unknown(&rows, 2), "Beta");
    assert_eq!(name_or_unknown(&rows, 3), "Unknown");
}

#[test]
fn application_setup() {
    assert_eq!(App::app_version("0.1.0", None, Some("abc")), "0.1.0 (abc)");
    assert_eq!(App::app_version("0.1.0", Some("b"), Some("abc")), "0.1.0 (b)");
    assert_eq!(App::app_version("0.1.0", None, None), "0.1.0 (dev)");
    assert_eq!(App::initializer_names(), vec!["view-engine", "oidc", "security-headers"]);
    assert_eq!(App::registered_job_types(), vec!["asm_scan", "port_scan", "report_build"]);
    assert_eq!(App::truncate_order().len(), 21);
    assert!(App::should_seed(0));
    assert!(!App::should_seed(4));
    assert_eq!(App::services_after_seeding(0), 4);
    assert_eq!(App::services_after_seeding(App::services_after_seeding(0)), 4);
    assert_eq!(App::services_after_seeding(7), 7);
    assert_eq!(admin_entities()[0].url_prefix, "/admin/users");
    assert_eq!(SecurityHeadersInitializer.name(), "security-headers");
    assert_eq!(SecurityHeadersInitializer.headers()[2], ("x-frame-options", "DENY"));
    assert_eq!(SqlitePragmasInitializer.name(), "sqlite-pragmas");
    assert_eq!(SqlitePragmasInitializer.pragmas_for("sqlite://db.sqlite").len(), 3);
    assert!(SqlitePragmasInitializer.pragmas_for("postgres://x").is_empty());
    assert_eq!(TemplateInitializer.name(), "view-engine");
    let cat = seed_catalog();
    assert_eq!(cat.len(), 4);
    assert_eq!(cat[0].tiers[1].price_cents, 749_900);
    assert_eq!(cat[2].tiers.len(), 0);
    assert_eq!(cat[3].tiers[0].slug, "free-scan");
}

#[test]
fn schema_relations_and_reset_order() {
    let fks = foreign_keys();
    assert_eq!(fks.len(), 21);
    let order = App::truncate_order();
    for fk in &fks {
        let child = order.iter().position(|t| *t == fk.table).unwrap();
        let parent = order.iter().position(|t| *t == fk.references).unwrap();
        assert!(child < parent, "{} before {}", fk.table, fk.references);
    }
    assert_eq!(fks[0].name, "fk-pricing_tiers-service_id");
    assert_eq!(fks[0].on_delete, OnDelete::Restrict);
    assert_eq!(migration_names().len(), 11);
    assert_eq!(platform_admin_org().2, "gethacked-admin");
}

#[test]
fn card_names() {
    assert_eq!(target_display_name(Some("a.x"), Some("1.2.3.4")), "a.x");
    assert_eq!(target_display_name(None, Some("1.2.3.4")), "1.2.3.4");
    assert_eq!(target_display_name(None, None), "unknown");
}

#[test]
fn small_texts() {
    use_texts();
}

fn use_texts() {
    assert_eq!(fracture_pt::free_scan::invalid_domain_message(), "Please enter a valid domain name (e.g. example.com).");
    assert!(fracture_pt::engagement::EngagementError::NotFound.is_not_found());
    assert!(!fracture_pt::engagement::EngagementError::NoFindings.is_not_found());
    assert_eq!(SecurityHeadersInitializer.removed_header(), "x-powered-by");
    assert_eq!(fracture_pt::jobs::ReportBuildExecutor.report_change(), ("added", "report"));
}

#[test]
fn chosen_schedules_read_back_under_their_name() {
    for choice in ["daily", "weekly", "monthly"] {
        let cron = schedule_value(choice).unwrap();
        assert_eq!(schedule_label(&cron), choice);
    }
}

#[test]
fn plan_names_and_free_limits() {
    assert_eq!(PlanTier::from_name("free"), Some(PlanTier::Free));
    assert_eq!(PlanTier::from_name("recon"), Some(PlanTier::Recon));
    assert_eq!(PlanTier::from_name("strike"), Some(PlanTier::Strike));
    assert_eq!(PlanTier::from_name("offensive"), Some(PlanTier::Offensive));
    assert_eq!(PlanTier::from_name("enterprise"), Some(PlanTier::Enterprise));
    assert_eq!(PlanTier::from_name("Free"), None);
    assert_eq!(PlanTier::from_name(""), None);
    assert!(PlanTier::Free.is_free());
    assert!(!PlanTier::Recon.is_free());
    assert_eq!(FREE_ENGAGEMENT_LIMIT, 3);
    assert_eq!(FREE_FINDINGS_PER_ENGAGEMENT, 10);
    assert_eq!(PlanTier::Free.max_targets(), Some(5));
    assert_eq!(PlanTier::Recon.max_targets(), Some(50));
    assert_eq!(PlanTier::Strike.max_targets(), Some(50));
    assert_eq!(PlanTier::Offensive.max_targets(), Some(50));
    assert_eq!(PlanTier::Enterprise.max_targets(), None);
    assert!(!PlanTier::Free.scheduling_enabled());
    assert!(PlanTier::Offensive.scheduling_enabled());
    assert_eq!(PlanTier::Free.label(), "Free");
    assert_eq!(PlanTier::Enterprise.label(), "Enterprise");
}

#[test]
fn target_limits_per_plan() {
    let e = check_new_target_on_plan(PlanTier::Free, 5, Some("example.com"), false, None).unwrap_err();
    assert_eq!(e, TargetError::LimitReached { plan: "Free".to_string(), max: 5 });
    assert_eq!(e.message(), "Your Free plan allows up to 5 targets. Upgrade to add more.");
    assert_eq!(check_new_target_on_plan(PlanTier::Free, 4, Some("example.com"), false, None), Ok(()));
    assert_eq!(check_new_target_on_plan(PlanTier::Recon, 49, Some("example.com"), false, None), Ok(()));
    assert_eq!(
        check_new_target_on_plan(PlanTier::Strike, 50, Some("example.com"), false, None),
        Err(TargetError::LimitReached { plan: "Strike".to_string(), max: 50 })
    );
    assert_eq!(check_new_target_on_plan(PlanTier::Enterprise, 10_000, Some("example.com"), false, None), Ok(()));
    assert_eq!(
        check_new_target_on_plan(PlanTier::Enterprise, 0, Some("localhost"), false, None),
        Err(TargetError::Hostname(HostnameError::Reserved))
    );
}

#[test]
fn saved_schedule_is_shown_back() {
    let cfg = DefinitionConfig { hostname: Some("h.x".to_string()), target_id: None };
    let other = DefinitionConfig { hostname: Some("other.x".to_string()), target_id: None };
    for (choice, shown) in [("daily", "daily"), ("weekly", "weekly"), ("monthly", "monthly"), ("off", "off"), ("hourly", "off")] {
        let stored = schedule_value(choice);
        let defs = vec![(other.clone(), Some("0 3 * * 1".to_string())), (cfg.clone(), stored.clone()), (cfg.clone(), stored)];
        assert_eq!(schedule_label(&current_schedule(&defs, "h.x", 7)), shown);
    }
}

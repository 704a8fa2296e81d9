//! Who may do what: organisation roles, the answers given to requests that
//! lack them, access to uploaded files, and the account and plan settings
//! only some users may change.
use vstd::prelude::*;

use crate::text::{chars_of, decimal, eq_str, push_decimal, push_str, string_of};

verus! {

// ---------------------------------------------------------------------------
// Roles
// ---------------------------------------------------------------------------

/// A member's role in an organisation, from least to most trusted.
#[derive(Clone, Copy, Debug, PartialEq, Eq, Structural)]
pub enum OrgRole {
    Viewer,
    Member,
    Admin,
    Owner,
}

/// The rank of a role: viewer 0, member 1, admin 2, owner 3.
pub open spec fn role_rank(r: OrgRole) -> int {
    match r {
        OrgRole::Viewer => 0,
        OrgRole::Member => 1,
        OrgRole::Admin => 2,
        OrgRole::Owner => 3,
    }
}

impl OrgRole {
    /// Whether this role is at least `min`.
    pub fn at_least(&self, min: OrgRole) -> (r: bool)
        ensures
            r == (role_rank(*self) >= role_rank(min)),
    {
        let a: u8 = match self {
            OrgRole::Viewer => 0,
            OrgRole::Member => 1,
            OrgRole::Admin => 2,
            OrgRole::Owner => 3,
        };
        let b: u8 = match min {
            OrgRole::Viewer => 0,
            OrgRole::Member => 1,
            OrgRole::Admin => 2,
            OrgRole::Owner => 3,
        };
        a >= b
    }
}

/// A role requirement of a route.
pub trait RoleRequirement {
    /// The least role that satisfies it.
    fn minimum_role() -> OrgRole;
}

/// Any member of the organisation.
pub struct ViewerRole;

/// Members who may make changes.
pub struct MemberRole;

/// Organisation admins.
pub struct AdminRole;

/// Organisation owners.
pub struct OwnerRole;

impl RoleRequirement for ViewerRole {
    fn minimum_role() -> (r: OrgRole)
        ensures
            r == OrgRole::Viewer,
    {
        OrgRole::Viewer
    }
}

impl RoleRequirement for MemberRole {
    fn minimum_role() -> (r: OrgRole)
        ensures
            r == OrgRole::Member,
    {
        OrgRole::Member
    }
}

impl RoleRequirement for AdminRole {
    fn minimum_role() -> (r: OrgRole)
        ensures
            r == OrgRole::Admin,
    {
        OrgRole::Admin
    }
}

impl RoleRequirement for OwnerRole {
    fn minimum_role() -> (r: OrgRole)
        ensures
            r == OrgRole::Owner,
    {
        OrgRole::Owner
    }
}

/// Role requirements are ordered: a role that meets a requirement meets
/// every lower one, owners meet all, and every member meets the viewer's.
pub proof fn lemma_roles_are_ordered(role: OrgRole, need: OrgRole, lower: OrgRole)
    ensures
        role_rank(role) >= role_rank(need) && role_rank(need) >= role_rank(lower) ==> role_rank(
            role,
        ) >= role_rank(lower),
        role_rank(OrgRole::Owner) >= role_rank(need),
        role_rank(role) >= role_rank(OrgRole::Viewer),
        role_rank(role) >= role_rank(need) || role_rank(need) >= role_rank(role),
{
}

// ---------------------------------------------------------------------------
// Refusals
// ---------------------------------------------------------------------------

/// How a request without the right is answered.
#[derive(Clone, Copy, Debug, PartialEq, Eq, Structural)]
pub enum Rejection {
    /// Not logged in: sent to the login page.
    LoginRedirect,
    /// No organisation, or not allowed to know the page exists.
    NotFound,
    /// Known to the user but above their role.
    Forbidden,
}

impl Rejection {
    /// The HTTP status of the answer.
    pub fn status(&self) -> (r: u16)
        ensures
            r == (match *self {
                Rejection::LoginRedirect => 307u16,
                Rejection::NotFound => 404u16,
                Rejection::Forbidden => 403u16,
            }),
    {
        match self {
            Rejection::LoginRedirect => 307,
            Rejection::NotFound => 404,
            Rejection::Forbidden => 403,
        }
    }

    /// The body of the answer, or for the redirect, where it leads.
    pub fn text(&self) -> (r: &'static str)
        ensures
            r@ == (match *self {
                Rejection::LoginRedirect => "/api/auth/oidc/authorize"@,
                Rejection::NotFound => "Not Found"@,
                Rejection::Forbidden => "Forbidden"@,
            }),
    {
        match self {
            Rejection::LoginRedirect => "/api/auth/oidc/authorize",
            Rejection::NotFound => "Not Found",
            Rejection::Forbidden => "Forbidden",
        }
    }
}

/// A logged-in user is let through; anyone else is sent to log in.
pub fn authenticate(logged_in: bool) -> (r: Result<(), Rejection>)
    ensures
        r is Ok <==> logged_in,
        r matches Err(e) ==> e == Rejection::LoginRedirect,
{
    if logged_in {
        Ok(())
    } else {
        Err(Rejection::LoginRedirect)
    }
}

/// The answer on an organisation route that needs role `need`: login
/// first, then an organisation, then the role.
pub open spec fn org_auth_outcome(logged_in: bool, role: Option<OrgRole>, need: OrgRole) -> Result<
    (),
    Rejection,
> {
    if !logged_in {
        Err(Rejection::LoginRedirect)
    } else {
        match role {
            None => Err(Rejection::NotFound),
            Some(r) => if role_rank(r) >= role_rank(need) {
                Ok(())
            } else {
                Err(Rejection::Forbidden)
            },
        }
    }
}

/// Decides an organisation route, given whether the user is logged in and
/// their role in the current organisation (`None` when they have none).
pub fn authorize_org(logged_in: bool, role: Option<OrgRole>, need: OrgRole) -> (r: Result<
    (),
    Rejection,
>)
    ensures
        r == org_auth_outcome(logged_in, role, need),
{
    if !logged_in {
        return Err(Rejection::LoginRedirect);
    }
    match role {
        None => Err(Rejection::NotFound),
        Some(r) => if r.at_least(need) {
            Ok(())
        } else {
            Err(Rejection::Forbidden)
        },
    }
}

/// Decides a platform-admin route: login first; anyone else is told it does
/// not exist.
pub fn authorize_platform_admin(logged_in: bool, has_org: bool, is_platform_admin: bool) -> (r: Result<
    (),
    Rejection,
>)
    ensures
        r == (if !logged_in {
            Err(Rejection::LoginRedirect)
        } else if !has_org || !is_platform_admin {
            Err(Rejection::NotFound)
        } else {
            Ok(())
        }),
{
    if !logged_in {
        Err(Rejection::LoginRedirect)
    } else if !has_org || !is_platform_admin {
        Err(Rejection::NotFound)
    } else {
        Ok(())
    }
}

// ---------------------------------------------------------------------------
// Uploaded files
// ---------------------------------------------------------------------------

/// Who may read an uploaded file.
#[derive(Clone, Copy, Debug, PartialEq, Eq, Structural)]
pub enum Visibility {
    Public,
    Org,
}

/// A public file may be read by anyone; any other (also one whose
/// visibility is unreadable) by a logged-in platform admin, member of its
/// organisation, or pentester on one of its organisation's engagements.
pub open spec fn may_read_upload(
    visibility: Option<Visibility>,
    logged_in: bool,
    is_platform_admin: bool,
    is_org_member: bool,
    is_pentester: bool,
) -> bool {
    visibility == Some(Visibility::Public) || (logged_in && (is_platform_admin || is_org_member
        || is_pentester))
}

/// Decides whether a file may be read.
pub fn upload_read_allowed(
    visibility: Option<Visibility>,
    logged_in: bool,
    is_platform_admin: bool,
    is_org_member: bool,
    is_pentester: bool,
) -> (r: bool)
    ensures
        r == may_read_upload(visibility, logged_in, is_platform_admin, is_org_member, is_pentester),
{
    match visibility {
        Some(Visibility::Public) => true,
        _ => logged_in && (is_platform_admin || is_org_member || is_pentester),
    }
}

/// The caching a file is served with.
pub fn upload_cache_control(visibility: Option<Visibility>) -> (r: &'static str)
    ensures
        r@ == if visibility == Some(Visibility::Public) {
            "public, max-age=86400, immutable"@
        } else {
            "private, no-cache"@
        },
{
    match visibility {
        Some(Visibility::Public) => "public, max-age=86400, immutable",
        _ => "private, no-cache",
    }
}

/// The `Content-Disposition` a file is served with.
pub fn inline_disposition(file_name: &str) -> (r: String)
    ensures
        r@ == "inline; filename=\""@ + file_name@ + "\""@,
{
    let mut v: Vec<char> = Vec::new();
    push_str(&mut v, "inline; filename=\"");
    push_str(&mut v, file_name);
    push_str(&mut v, "\"");
    string_of(&v)
}

/// A file may be deleted by its uploader, a platform admin, an admin of its
/// organisation (in that organisation), or a pentester on one of its
/// organisation's engagements.
pub fn upload_delete_allowed(
    is_uploader: bool,
    is_platform_admin: bool,
    current_org: Option<i32>,
    role: Option<OrgRole>,
    upload_org: i32,
    is_pentester: bool,
) -> (r: bool)
    ensures
        r == (is_uploader || is_platform_admin || (current_org == Some(upload_org) && role is Some
            && role_rank(role->0) >= 2) || is_pentester),
{
    if is_uploader || is_platform_admin {
        return true;
    }
    let is_org_admin = match (current_org, role) {
        (Some(o), Some(r)) => o == upload_org && r.at_least(OrgRole::Admin),
        _ => false,
    };
    is_org_admin || is_pentester
}

// ---------------------------------------------------------------------------
// Accounts and plans
// ---------------------------------------------------------------------------

/// An admin may not delete their own account.
pub fn check_user_deletion(target_id: i32, admin_id: i32) -> (r: Result<(), &'static str>)
    ensures
        r is Ok <==> target_id != admin_id,
        r matches Err(m) ==> m@ == "Cannot delete your own account"@,
{
    if target_id == admin_id {
        Err("Cannot delete your own account")
    } else {
        Ok(())
    }
}

/// A comment of a deleted user, kept under the admin's name with its author
/// noted.
pub fn reattributed_comment(author: &str, content: &str) -> (r: String)
    ensures
        r@ == "*Originally posted by "@ + author@ + ":*\n\n"@ + content@,
{
    let mut v: Vec<char> = Vec::new();
    push_str(&mut v, "*Originally posted by ");
    push_str(&mut v, author);
    push_str(&mut v, ":*\n\n");
    push_str(&mut v, content);
    string_of(&v)
}

/// The plans an organisation may be put on.
pub open spec fn is_plan_tier(s: Seq<char>) -> bool {
    s == "free"@ || s == "recon"@ || s == "strike"@ || s == "offensive"@ || s == "enterprise"@
}

/// The plan to record after a settings form: the one asked for, when a
/// platform admin asked for a known plan; otherwise none changes.
pub fn plan_tier_update(is_platform_admin: bool, requested: Option<&str>) -> (r: Option<String>)
    ensures
        match r {
            Some(t) => is_platform_admin && requested is Some && t@ == requested->0@ && is_plan_tier(t@),
            None => !is_platform_admin || requested is None || !is_plan_tier(requested->0@),
        },
{
    match requested {
        Some(q) => {
            let v = chars_of(q);
            if is_platform_admin && (eq_str(&v, "free") || eq_str(&v, "recon") || eq_str(
                &v,
                "strike",
            ) || eq_str(&v, "offensive") || eq_str(&v, "enterprise")) {
                Some(q.to_owned())
            } else {
                None
            }
        },
        None => None,
    }
}

/// The alert addresses to record after a settings form: only on plans with
/// e-mail alerts, and then the submitted text (empty when none was given).
pub fn alert_emails_update(alerts_enabled: bool, submitted: Option<String>) -> (r: Option<String>)
    ensures
        match r {
            Some(e) => alerts_enabled && e@ == (match submitted {
                Some(s) => s@,
                None => ""@,
            }),
            None => !alerts_enabled,
        },
{
    if alerts_enabled {
        Some(
            match submitted {
                Some(s) => s,
                None => "".to_owned(),
            },
        )
    } else {
        None
    }
}

/// The target limit of a plan as the settings page shows it.
pub fn max_targets_text(max: Option<u64>) -> (r: String)
    ensures
        r@ == (match max {
            Some(n) => decimal(n as nat),
            None => "Unlimited"@,
        }),
{
    match max {
        Some(n) => {
            let mut v: Vec<char> = Vec::new();
            push_decimal(&mut v, n);
            assert(v@ =~= decimal(n as nat));
            string_of(&v)
        },
        None => "Unlimited".to_owned(),
    }
}

} // verus!

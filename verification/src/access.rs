//! Who may do what: the caller's organisation and space roles, and the
//! checks that every organisation- and space-scoped endpoint applies.
use vstd::prelude::*;

use crate::http::{is_error, ApiError};
use crate::text::str_eq;

verus! {

/// A role in a space, from most to least privileged.
#[derive(Debug, Clone, Copy, PartialEq, Eq)]
pub enum Role {
    OrgAdmin,
    SpaceAdmin,
    Member,
    Viewer,
}

/// The role that a role name means: the kebab-case names and the variant
/// names are both accepted.
pub open spec fn role_of_name(s: Seq<char>) -> Option<Role> {
    if s == "org-admin"@ || s == "OrgAdmin"@ {
        Some(Role::OrgAdmin)
    } else if s == "space-admin"@ || s == "SpaceAdmin"@ {
        Some(Role::SpaceAdmin)
    } else if s == "member"@ || s == "Member"@ {
        Some(Role::Member)
    } else if s == "viewer"@ || s == "Viewer"@ {
        Some(Role::Viewer)
    } else {
        None
    }
}

/// The kebab-case name of a role.
pub open spec fn role_name(r: Role) -> Seq<char> {
    match r {
        Role::OrgAdmin => "org-admin"@,
        Role::SpaceAdmin => "space-admin"@,
        Role::Member => "member"@,
        Role::Viewer => "viewer"@,
    }
}

/// Parses a role name.
pub fn parse_role(s: &str) -> (r: Option<Role>)
    ensures
        r == role_of_name(s@),
{
    if str_eq(s, "org-admin") || str_eq(s, "OrgAdmin") {
        Some(Role::OrgAdmin)
    } else if str_eq(s, "space-admin") || str_eq(s, "SpaceAdmin") {
        Some(Role::SpaceAdmin)
    } else if str_eq(s, "member") || str_eq(s, "Member") {
        Some(Role::Member)
    } else if str_eq(s, "viewer") || str_eq(s, "Viewer") {
        Some(Role::Viewer)
    } else {
        None
    }
}

/// The kebab-case name of a role.
pub fn role_to_str(role: Role) -> (r: &'static str)
    ensures
        r@ == role_name(role),
{
    match role {
        Role::OrgAdmin => "org-admin",
        Role::SpaceAdmin => "space-admin",
        Role::Member => "member",
        Role::Viewer => "viewer",
    }
}

/// A role's name parses back to the role.
pub proof fn law_role_name_round_trip(r: Role)
    ensures
        role_of_name(role_name(r)) == Some(r),
{
    reveal_strlit("org-admin");
    reveal_strlit("OrgAdmin");
    reveal_strlit("space-admin");
    reveal_strlit("SpaceAdmin");
    reveal_strlit("member");
    reveal_strlit("Member");
    reveal_strlit("viewer");
    reveal_strlit("Viewer");
    match r {
        Role::OrgAdmin => {},
        Role::SpaceAdmin => {
            assert("space-admin"@ != "org-admin"@) by {
                assert("space-admin"@[0] != "org-admin"@[0]);
            }
            assert("space-admin"@ != "OrgAdmin"@) by {
                assert("space-admin"@.len() != "OrgAdmin"@.len());
            }
        },
        Role::Member => {
            assert("member"@ != "org-admin"@) by {
                assert("member"@.len() != "org-admin"@.len());
            }
            assert("member"@ != "OrgAdmin"@) by {
                assert("member"@.len() != "OrgAdmin"@.len());
            }
            assert("member"@ != "space-admin"@) by {
                assert("member"@.len() != "space-admin"@.len());
            }
            assert("member"@ != "SpaceAdmin"@) by {
                assert("member"@.len() != "SpaceAdmin"@.len());
            }
        },
        Role::Viewer => {
            assert("viewer"@ != "org-admin"@) by {
                assert("viewer"@.len() != "org-admin"@.len());
            }
            assert("viewer"@ != "OrgAdmin"@) by {
                assert("viewer"@.len() != "OrgAdmin"@.len());
            }
            assert("viewer"@ != "space-admin"@) by {
                assert("viewer"@.len() != "space-admin"@.len());
            }
            assert("viewer"@ != "SpaceAdmin"@) by {
                assert("viewer"@.len() != "SpaceAdmin"@.len());
            }
            assert("viewer"@ != "member"@) by {
                assert("viewer"@[0] != "member"@[0]);
            }
            assert("viewer"@ != "Member"@) by {
                assert("viewer"@[0] != "Member"@[0]);
            }
        },
    }
}

/// The authenticated caller, as far as the access rules read it.
#[derive(Debug, Clone)]
pub struct Caller {
    pub user_id: String,
    pub org_id: String,
    /// Whether the caller administers its organisation.
    pub org_admin: bool,
    /// The caller's role in each space it belongs to (one entry per space).
    pub space_roles: Vec<(String, Role)>,
}

/// The caller's role in a space: that of the first entry for the space.
pub open spec fn role_in_spec(roles: Seq<(String, Role)>, space: Seq<char>) -> Option<Role>
    decreases roles.len(),
{
    if roles.len() == 0 {
        None
    } else if roles[0].0@ == space {
        Some(roles[0].1)
    } else {
        role_in_spec(roles.drop_first(), space)
    }
}

impl Caller {
    /// The caller's role in a space.
    pub open spec fn role(self, space: Seq<char>) -> Option<Role> {
        role_in_spec(self.space_roles@, space)
    }

    /// The caller's role in a space.
    pub fn role_in(&self, space: &str) -> (r: Option<Role>)
        ensures
            r == self.role(space@),
    {
        let mut i: usize = 0;
        assert(self.space_roles@.skip(0) =~= self.space_roles@);
        while i < self.space_roles.len()
            invariant
                i <= self.space_roles.len(),
                role_in_spec(self.space_roles@, space@) == role_in_spec(
                    self.space_roles@.skip(i as int),
                    space@,
                ),
            decreases self.space_roles.len() - i,
        {
            let ghost rest = self.space_roles@.skip(i as int);
            assert(rest[0] == self.space_roles@[i as int]);
            assert(rest.drop_first() =~= self.space_roles@.skip(i + 1));
            if str_eq(self.space_roles[i].0.as_str(), space) {
                return Some(self.space_roles[i].1);
            }
            i = i + 1;
        }
        assert(self.space_roles@.skip(i as int) =~= Seq::<(String, Role)>::empty());
        None
    }
}

/// Whether the caller may see a space: org admins see every space of their
/// organisation, others the spaces they have a role in.
pub open spec fn can_view_space(c: Caller, space: Seq<char>) -> bool {
    c.org_admin || c.role(space) is Some
}

/// Whether the caller may administer a space (rename it, manage its
/// members): org admins, and the space's admins.
pub open spec fn can_admin_space(c: Caller, space: Seq<char>) -> bool {
    c.org_admin || c.role(space) == Some(Role::SpaceAdmin)
}

/// Whether the caller may manage the members of a space.
pub fn can_manage_members(c: &Caller, space: &str) -> (r: bool)
    ensures
        r == can_admin_space(*c, space@),
{
    if c.org_admin {
        return true;
    }
    match c.role_in(space) {
        Some(Role::SpaceAdmin) => true,
        _ => false,
    }
}

/// Whether the caller may see a space.
pub fn may_view_space(c: &Caller, space: &str) -> (r: bool)
    ensures
        r == can_view_space(*c, space@),
{
    c.org_admin || c.role_in(space).is_some()
}

/// The organisation check of every organisation-scoped endpoint: a caller
/// from another organisation is refused with `403 access denied`.
pub fn require_same_org(c: &Caller, org_id: &str) -> (r: Result<(), ApiError>)
    ensures
        c.org_id@ == org_id@ ==> r is Ok,
        c.org_id@ != org_id@ ==> r is Err && is_error(r->Err_0, 403, "access denied"@, false),
{
    if str_eq(c.org_id.as_str(), org_id) {
        Ok(())
    } else {
        Err(ApiError::text(403, "access denied"))
    }
}

/// The org-admin check: anyone else is refused with `403 org admin required`.
pub fn require_org_admin(c: &Caller) -> (r: Result<(), ApiError>)
    ensures
        c.org_admin ==> r is Ok,
        !c.org_admin ==> r is Err && is_error(r->Err_0, 403, "org admin required"@, false),
{
    if c.org_admin {
        Ok(())
    } else {
        Err(ApiError::text(403, "org admin required"))
    }
}

/// Administering a space includes seeing it.
pub proof fn law_admin_can_view(c: Caller, space: Seq<char>)
    ensures
        can_admin_space(c, space) ==> can_view_space(c, space),
{
}

} // verus!

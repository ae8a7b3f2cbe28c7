//! Turns group memberships and the configured role groups into a decision.

use vstd::prelude::*;

verus! {

/// The tier granted to an authenticated user.
#[derive(Debug, Clone, Copy, PartialEq, Eq, Structural)]
pub enum Role {
    Admin,
    User,
    NoRole,
}

/// The outcome of role resolution.
#[derive(Debug, Clone, Copy, PartialEq, Eq, Structural)]
pub struct Resolution {
    pub role: Role,
    pub accepted: bool,
}

/// The groups as character sequences.
pub open spec fn groups_view(groups: Seq<String>) -> Seq<Seq<char>> {
    groups.map_values(|g: String| g@)
}

/// The configured group name as a character sequence.
pub open spec fn name_view(name: Option<String>) -> Option<Seq<char>> {
    match name {
        Some(n) => Some(n@),
        None => None,
    }
}

/// Whether a group name is configured and among the groups.
pub open spec fn member_of(groups: Seq<Seq<char>>, name: Option<Seq<char>>) -> bool {
    match name {
        Some(n) => groups.contains(n),
        None => false,
    }
}

/// Role resolution: admin before user; with no role group configured every user is
/// accepted without a role; with one configured and none matched the user is rejected.
pub open spec fn spec_resolve(
    groups: Seq<Seq<char>>,
    admin: Option<Seq<char>>,
    user: Option<Seq<char>>,
) -> Resolution {
    if member_of(groups, admin) {
        Resolution { role: Role::Admin, accepted: true }
    } else if member_of(groups, user) {
        Resolution { role: Role::User, accepted: true }
    } else if admin is None && user is None {
        Resolution { role: Role::NoRole, accepted: true }
    } else {
        Resolution { role: Role::NoRole, accepted: false }
    }
}

/// Whether `name` is one of `names`.
pub(crate) fn contains_name(names: &Vec<String>, name: &String) -> (r: bool)
    ensures
        r == groups_view(names@).contains(name@),
{
    let ghost gs = groups_view(names@);
    let mut i: usize = 0;
    while i < names.len()
        invariant
            0 <= i <= names.len(),
            gs == groups_view(names@),
            gs.len() == names@.len(),
            forall|j: int| 0 <= j < i ==> gs[j] != name@,
        decreases names.len() - i,
    {
        if names[i] == *name {
            assert(gs[i as int] == name@);
            return true;
        }
        i = i + 1;
    }
    assert(!gs.contains(name@)) by {
        if gs.contains(name@) {
            let k = choose|k: int| 0 <= k < gs.len() && gs[k] == name@;
            assert(gs[k] != name@);
        }
    }
    false
}

/// Whether `name` is configured and one of `groups`.
fn is_member(groups: &Vec<String>, name: &Option<String>) -> (r: bool)
    ensures
        r == member_of(groups_view(groups@), name_view(*name)),
{
    match name {
        None => false,
        Some(n) => contains_name(groups, n),
    }
}

/// Decides the role of a user from the user's groups and the configured role groups.
pub fn resolve(
    groups: &Vec<String>,
    admin_group_name: &Option<String>,
    user_group_name: &Option<String>,
) -> (r: Resolution)
    ensures
        r == spec_resolve(
            groups_view(groups@),
            name_view(*admin_group_name),
            name_view(*user_group_name),
        ),
{
    if is_member(groups, admin_group_name) {
        Resolution { role: Role::Admin, accepted: true }
    } else if is_member(groups, user_group_name) {
        Resolution { role: Role::User, accepted: true }
    } else if admin_group_name.is_none() && user_group_name.is_none() {
        Resolution { role: Role::NoRole, accepted: true }
    } else {
        Resolution { role: Role::NoRole, accepted: false }
    }
}

/// Resolution depends on the groups and the configured names alone: equal inputs give
/// equal decisions.
pub proof fn lemma_resolve_deterministic(
    groups: Seq<Seq<char>>,
    admin: Option<Seq<char>>,
    user: Option<Seq<char>>,
    r1: Resolution,
    r2: Resolution,
)
    requires
        r1 == spec_resolve(groups, admin, user),
        r2 == spec_resolve(groups, admin, user),
    ensures
        r1 == r2,
{
}

/// A user in both configured groups is an administrator.
pub proof fn lemma_both_groups_is_admin(groups: Seq<Seq<char>>, admin: Seq<char>, user: Seq<char>)
    requires
        groups.contains(admin),
        groups.contains(user),
    ensures
        spec_resolve(groups, Some(admin), Some(user)) == (Resolution {
            role: Role::Admin,
            accepted: true,
        }),
{
}

/// With no role group configured, every user is accepted.
pub proof fn lemma_no_policy_accepts(groups: Seq<Seq<char>>)
    ensures
        spec_resolve(groups, None, None).accepted,
{
}

/// With exactly one role group configured and the user outside it, the user is rejected.
pub proof fn lemma_single_unmatched_group_rejects(groups: Seq<Seq<char>>, name: Seq<char>)
    requires
        !groups.contains(name),
    ensures
        !spec_resolve(groups, Some(name), None).accepted,
        !spec_resolve(groups, None, Some(name)).accepted,
{
}

} // verus!

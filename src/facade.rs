//! The last step of an authentication: the role policy applied to the backend's result,
//! and the lines that report a success to the host.

use crate::authentik::UserInfo;
use crate::config::Config;
use crate::role::{groups_view, name_view, resolve, spec_resolve, Role};
use vstd::prelude::*;

verus! {

/// Why an authentication attempt ends without success.
#[derive(Debug, Clone, Copy, PartialEq, Eq, Structural)]
pub enum AuthError {
    /// The backend did not authenticate the user.
    NotAuthenticated,
    /// The credentials were valid but the user is in none of the configured role groups.
    RoleRejected,
}

/// The role line reported for a role, if any.
pub open spec fn role_line(role: Role) -> Option<Seq<char>> {
    match role {
        Role::Admin => Some("group = system-admin"@),
        Role::User => Some("group = system-users"@),
        Role::NoRole => None,
    }
}

/// Whether `lines` report a success of `user` with `role`: the display name, then the
/// role line if the role has one.
pub open spec fn reports(lines: Seq<String>, user: UserInfo, role: Role) -> bool {
    &&& lines.len() == (if role_line(role) is Some { 2int } else { 1int })
    &&& lines[0]@ == "username = "@ + user.display_name@
    &&& role_line(role) matches Some(l) ==> lines[1]@ == l
}

/// Decides the outcome of an attempt from the backend's result and the configured role
/// groups, and gives the success lines.
pub fn decide(user: &Option<UserInfo>, config: &Config) -> (r: Result<Vec<String>, AuthError>)
    ensures
        match *user {
            None => r matches Err(AuthError::NotAuthenticated),
            Some(u) => {
                let res = spec_resolve(
                    groups_view(u.groups@),
                    name_view(config.admin_group_name),
                    name_view(config.user_group_name),
                );
                if res.accepted {
                    r matches Ok(lines) && reports(lines@, u, res.role)
                } else {
                    r matches Err(AuthError::RoleRejected)
                }
            },
        },
{
    let u = match user {
        Some(u) => u,
        None => return Err(AuthError::NotAuthenticated),
    };
    let res = resolve(&u.groups, &config.admin_group_name, &config.user_group_name);
    if !res.accepted {
        return Err(AuthError::RoleRejected);
    }
    let mut lines: Vec<String> = Vec::new();
    lines.push("username = ".to_owned().concat(u.display_name.as_str()));
    match res.role {
        Role::Admin => lines.push("group = system-admin".to_owned()),
        Role::User => lines.push("group = system-users".to_owned()),
        Role::NoRole => {},
    }
    Ok(lines)
}

} // verus!

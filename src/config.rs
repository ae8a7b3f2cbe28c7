//! The configuration record that the bridge reads once per invocation.

use vstd::prelude::*;

verus! {

/// Settings of both backends and of the role policy.
#[derive(Debug, Clone)]
pub struct Config {
    /// Base address of the identity-flow server.
    pub authentik_base_url: String,
    /// Identifier of the authentication flow to drive.
    pub flow_slug: String,
    /// Bound on each network operation, in seconds.
    pub timeout: usize,
    /// Group whose members are administrators.
    pub admin_group_name: Option<String>,
    /// Group whose members are ordinary users.
    pub user_group_name: Option<String>,
    /// Address of the directory server.
    pub ldap_url: String,
    /// Base under which user entries are searched and bound.
    pub user_base_dn: String,
    /// Identity of the service principal used for searches.
    pub bind_dn: String,
    /// Secret of the service principal.
    pub bind_pw: String,
}

/// The timeout used when the configuration gives none.
pub fn default_timeout() -> (r: usize)
    ensures
        r == 10,
{
    10
}

} // verus!

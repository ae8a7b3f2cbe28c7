//! The directory-bind backend: locating a user entry and classifying bind outcomes.
//!
//! The connection work happens outside; this module decides what the search results and
//! the bind result code mean.

use crate::authentik::UserInfo;
use crate::config::Config;
use crate::rfc4511::{is_defined_code, LdapResultCode};
use crate::role::name_view;
use vstd::prelude::*;

verus! {

/// One attribute of a directory entry, with its values in the order the server gave.
#[derive(Debug, Clone)]
pub struct Attribute {
    pub name: String,
    pub values: Vec<String>,
}

/// One entry returned by a directory search.
#[derive(Debug, Clone)]
pub struct DirectoryEntry {
    pub attrs: Vec<Attribute>,
}

/// The tracked attributes of a directory user.
#[derive(Debug, Clone)]
pub struct User {
    pub uid: String,
    pub cn: String,
    pub sn: String,
    pub mail: String,
    pub display_name: String,
    /// Group names: each group's identifier reduced to its leading relative name.
    pub member_of: Vec<String>,
}

/// Connection settings of the directory backend.
#[derive(Debug, Clone)]
pub struct UserChecking {
    pub ldap_url: String,
    pub user_base_dn: String,
    pub bind_dn: String,
    pub bind_pw: String,
}

/// Failures of the directory backend that are not ordinary rejections.
#[derive(Debug, Clone, Copy, PartialEq, Eq, Structural)]
pub enum DirectoryError {
    /// The configured server address is not a URL.
    InvalidUrl,
    /// The single matching entry lacks one of the tracked attributes.
    MissingAttribute,
    /// The bind returned a result code outside the registry.
    UnknownResultCode(u32),
}

/// Whether a text parses as a URL.
pub uninterp spec fn url_parses(s: Seq<char>) -> bool;

/// Relies on url::Url::parse: true exactly when the text parses as a URL.
#[verifier::external_body]
fn is_valid_url(s: &str) -> (r: bool)
    ensures
        r == url_parses(s@),
{
    url::Url::parse(s).is_ok()
}

/// The values of the first attribute called `name`, if any.
pub open spec fn attr_values(attrs: Seq<Attribute>, name: Seq<char>) -> Option<Seq<String>>
    decreases attrs.len(),
{
    if attrs.len() == 0 {
        None
    } else if attrs[0].name@ == name {
        Some(attrs[0].values@)
    } else {
        attr_values(attrs.drop_first(), name)
    }
}

/// The first value of the attribute called `name`, if it is present with a value.
pub open spec fn first_value(attrs: Seq<Attribute>, name: Seq<char>) -> Option<Seq<char>> {
    match attr_values(attrs, name) {
        Some(vs) => if vs.len() > 0 {
            Some(vs[0]@)
        } else {
            None
        },
        None => None,
    }
}

/// The length of the leading component of a distinguished name: the characters before the
/// first comma.
pub open spec fn leading_len(dn: Seq<char>) -> nat
    decreases dn.len(),
{
    if dn.len() == 0 || dn[0] == ',' {
        0
    } else {
        1 + leading_len(dn.drop_first())
    }
}

/// A component with a leading `cn=` removed.
pub open spec fn strip_cn(c: Seq<char>) -> Seq<char> {
    if c.len() >= 3 && c[0] == 'c' && c[1] == 'n' && c[2] == '=' {
        c.skip(3)
    } else {
        c
    }
}

/// The group name of a group's distinguished name.
pub open spec fn group_name(dn: Seq<char>) -> Seq<char> {
    strip_cn(dn.take(leading_len(dn) as int))
}

/// Whether an entry carries all six tracked attributes.
pub open spec fn entry_complete(attrs: Seq<Attribute>) -> bool {
    &&& first_value(attrs, "uid"@) is Some
    &&& first_value(attrs, "cn"@) is Some
    &&& first_value(attrs, "sn"@) is Some
    &&& first_value(attrs, "mail"@) is Some
    &&& first_value(attrs, "displayName"@) is Some
    &&& attr_values(attrs, "memberOf"@) is Some
}

/// Whether `names` holds the group name of each value in `dns`, in order.
pub open spec fn group_names_of(names: Seq<String>, dns: Seq<String>) -> bool {
    &&& names.len() == dns.len()
    &&& forall|j: int| 0 <= j < dns.len() ==> #[trigger] names[j]@ == group_name(dns[j]@)
}

/// Whether `u` holds what an entry with these attributes says.
pub open spec fn user_of_entry(u: User, attrs: Seq<Attribute>) -> bool {
    &&& first_value(attrs, "uid"@) == Some(u.uid@)
    &&& first_value(attrs, "cn"@) == Some(u.cn@)
    &&& first_value(attrs, "sn"@) == Some(u.sn@)
    &&& first_value(attrs, "mail"@) == Some(u.mail@)
    &&& first_value(attrs, "displayName"@) == Some(u.display_name@)
    &&& match attr_values(attrs, "memberOf"@) {
        Some(dns) => group_names_of(u.member_of@, dns),
        None => false,
    }
}

proof fn lemma_leading_len(dn: Seq<char>, i: int)
    requires
        0 <= i <= dn.len(),
        forall|j: int| 0 <= j < i ==> dn[j] != ',',
        i == dn.len() || dn[i] == ',',
    ensures
        leading_len(dn) == i,
    decreases i,
{
    if i > 0 {
        lemma_leading_len(dn.drop_first(), i - 1);
    }
}

/// Reduces a group's distinguished name to its group name.
pub fn group_name_of(dn: &str) -> (r: String)
    ensures
        r@ == group_name(dn@),
{
    let n = dn.unicode_len();
    let mut i: usize = 0;
    while i < n && dn.get_char(i) != ','
        invariant
            0 <= i <= n,
            n == dn@.len(),
            forall|j: int| 0 <= j < i ==> dn@[j] != ',',
        decreases n - i,
    {
        i = i + 1;
    }
    proof {
        lemma_leading_len(dn@, i as int);
    }
    let strip = i >= 3 && dn.get_char(0) == 'c' && dn.get_char(1) == 'n' && dn.get_char(2) == '=';
    let start: usize = if strip {
        3
    } else {
        0
    };
    let r = dn.substring_char(start, i).to_owned();
    assert(r@ =~= group_name(dn@));
    r
}

/// The group names of a list of group distinguished names.
fn group_names(dns: &Vec<String>) -> (r: Vec<String>)
    ensures
        group_names_of(r@, dns@),
{
    let mut r: Vec<String> = Vec::new();
    let mut i: usize = 0;
    while i < dns.len()
        invariant
            0 <= i <= dns.len(),
            r@.len() == i,
            forall|j: int| 0 <= j < i ==> #[trigger] r@[j]@ == group_name(dns@[j]@),
        decreases dns.len() - i,
    {
        r.push(group_name_of(dns[i].as_str()));
        i = i + 1;
    }
    r
}

/// The index of the first attribute called `name`.
fn find_attr(attrs: &Vec<Attribute>, name: &str) -> (r: Option<usize>)
    ensures
        match r {
            Some(k) => k < attrs@.len() && attr_values(attrs@, name@) == Some(attrs@[k as int].values@),
            None => attr_values(attrs@, name@) is None,
        },
{
    let key = name.to_owned();
    let mut i: usize = 0;
    assert(attrs@.skip(0) =~= attrs@);
    while i < attrs.len()
        invariant
            0 <= i <= attrs.len(),
            key@ == name@,
            attr_values(attrs@, name@) == attr_values(attrs@.skip(i as int), name@),
        decreases attrs.len() - i,
    {
        let ghost rest = attrs@.skip(i as int);
        assert(rest[0] == attrs@[i as int]);
        if attrs[i].name == key {
            return Some(i);
        }
        assert(rest.drop_first() =~= attrs@.skip(i + 1));
        i = i + 1;
    }
    None
}

/// The first value of the attribute called `name`.
fn first_value_of(attrs: &Vec<Attribute>, name: &str) -> (r: Option<String>)
    ensures
        name_view(r) == first_value(attrs@, name@),
{
    match find_attr(attrs, name) {
        Some(k) => {
            let values = &attrs[k].values;
            if values.len() > 0 {
                Some(values[0].clone())
            } else {
                None
            }
        },
        None => None,
    }
}

impl UserChecking {
    /// Takes the directory settings from the configuration; fails when the server address
    /// is not a URL.
    pub fn new(config: &Config) -> (r: Result<Self, DirectoryError>)
        ensures
            match r {
                Ok(u) => url_parses(config.ldap_url@) && u.ldap_url@ == config.ldap_url@
                    && u.user_base_dn@ == config.user_base_dn@ && u.bind_dn@ == config.bind_dn@
                    && u.bind_pw@ == config.bind_pw@,
                Err(e) => !url_parses(config.ldap_url@) && e == DirectoryError::InvalidUrl,
            },
    {
        if !is_valid_url(config.ldap_url.as_str()) {
            return Err(DirectoryError::InvalidUrl);
        }
        Ok(UserChecking {
            ldap_url: config.ldap_url.as_str().to_owned(),
            user_base_dn: config.user_base_dn.as_str().to_owned(),
            bind_dn: config.bind_dn.as_str().to_owned(),
            bind_pw: config.bind_pw.as_str().to_owned(),
        })
    }

    /// The search filter that selects the entries of `username`.
    pub fn search_filter(username: &str) -> (r: String)
        ensures
            r@ == "cn="@ + username@,
    {
        "cn=".to_owned().concat(username)
    }

    /// The distinguished name that `username` binds as.
    pub fn user_dn(&self, username: &str) -> (r: String)
        ensures
            r@ == "cn="@ + username@ + ","@ + self.user_base_dn@,
    {
        "cn=".to_owned().concat(username).concat(",").concat(self.user_base_dn.as_str())
    }

    /// Reads the user out of the entries that a search for one username returned: no
    /// user unless exactly one entry matched, and an error when that entry lacks a
    /// tracked attribute.
    pub fn get_user(&self, entries: &Vec<DirectoryEntry>) -> (r: Result<Option<User>, DirectoryError>)
        ensures
            match r {
                Ok(None) => entries@.len() != 1,
                Ok(Some(u)) => entries@.len() == 1 && entry_complete(entries@[0].attrs@)
                    && user_of_entry(u, entries@[0].attrs@),
                Err(e) => entries@.len() == 1 && !entry_complete(entries@[0].attrs@) && e
                    == DirectoryError::MissingAttribute,
            },
    {
        if entries.len() != 1 {
            return Ok(None);
        }
        let attrs = &entries[0].attrs;
        let uid = match first_value_of(attrs, "uid") {
            Some(v) => v,
            None => return Err(DirectoryError::MissingAttribute),
        };
        let cn = match first_value_of(attrs, "cn") {
            Some(v) => v,
            None => return Err(DirectoryError::MissingAttribute),
        };
        let sn = match first_value_of(attrs, "sn") {
            Some(v) => v,
            None => return Err(DirectoryError::MissingAttribute),
        };
        let mail = match first_value_of(attrs, "mail") {
            Some(v) => v,
            None => return Err(DirectoryError::MissingAttribute),
        };
        let display_name = match first_value_of(attrs, "displayName") {
            Some(v) => v,
            None => return Err(DirectoryError::MissingAttribute),
        };
        let member_of = match find_attr(attrs, "memberOf") {
            Some(k) => group_names(&attrs[k].values),
            None => return Err(DirectoryError::MissingAttribute),
        };
        Ok(Some(User { uid, cn, sn, mail, display_name, member_of }))
    }

    /// Classifies the result code of a bind with the user's credentials: true for
    /// success, false for every other registered code, an error for an unregistered one.
    pub fn verify_credentials(&self, rc: u32) -> (r: Result<bool, DirectoryError>)
        ensures
            is_defined_code(rc) ==> r == Ok::<bool, DirectoryError>(rc == 0),
            !is_defined_code(rc) ==> r == Err::<bool, DirectoryError>(
                DirectoryError::UnknownResultCode(rc),
            ),
            r matches Ok(b) ==> forall|c: LdapResultCode|
                #[trigger] c.code() == rc ==> (b <==> c == LdapResultCode::Success),
    {
        match LdapResultCode::from_u32(rc) {
            Some(code) => Ok(code == LdapResultCode::Success),
            None => Err(DirectoryError::UnknownResultCode(rc)),
        }
    }

    /// Combines the lookup and the credential check: a user only when one was found and
    /// the bind succeeded.
    pub fn authenticate(found: Option<User>, verified: bool) -> (r: Option<UserInfo>)
        ensures
            match r {
                Some(info) => found is Some && verified && info.display_name@
                    == found->0.display_name@ && info.groups@ == found->0.member_of@,
                None => found is None || !verified,
            },
    {
        match found {
            Some(user) => if verified {
                Some(UserInfo { display_name: user.display_name, groups: user.member_of })
            } else {
                None
            },
            None => None,
        }
    }
}

} // verus!

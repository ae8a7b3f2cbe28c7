use authentik_bridge::directory::group_name_of;
use authentik_bridge::{
    decide, resolve, Attribute, AuthError, Authentik, ChallengeStage, Config, DirectoryEntry,
    DirectoryError, FlowError, LdapResultCode, Profile, Resolution, Role, User, UserChecking,
    UserInfo,
};

fn s(x: &str) -> String {
    x.to_string()
}

fn config(admin: Option<&str>, user: Option<&str>) -> Config {
    Config {
        authentik_base_url: s("https://auth.example.org"),
        flow_slug: s("default-authentication-flow"),
        timeout: authentik_bridge::default_timeout(),
        admin_group_name: admin.map(s),
        user_group_name: user.map(s),
        ldap_url: s("ldap://ldap.example.org:389"),
        user_base_dn: s("ou=users,dc=example,dc=org"),
        bind_dn: s("cn=service,dc=example,dc=org"),
        bind_pw: s("secret"),
    }
}

fn checker() -> UserChecking {
    UserChecking::new(&config(None, None)).unwrap()
}

fn attr(name: &str, values: &[&str]) -> Attribute {
    Attribute { name: s(name), values: values.iter().map(|v| s(v)).collect() }
}

fn full_entry(member_of: &[&str]) -> DirectoryEntry {
    DirectoryEntry {
        attrs: vec![
            attr("cn", &["alice"]),
            attr("sn", &["Liddell"]),
            attr("uid", &["alice"]),
            attr("mail", &["alice@example.org"]),
            attr("memberOf", member_of),
            attr("displayName", &["Alice Liddell"]),
        ],
    }
}

fn groups(gs: &[&str]) -> Vec<String> {
    gs.iter().map(|g| s(g)).collect()
}

#[test]
fn classify_known_and_unknown_codes() {
    assert_eq!(LdapResultCode::from_u32(0), Some(LdapResultCode::Success));
    assert_eq!(LdapResultCode::from_u32(49), Some(LdapResultCode::InvalidCredentials));
    assert_eq!(LdapResultCode::from_u32(53), Some(LdapResultCode::UnwillingToPerform));
    assert_eq!(LdapResultCode::from_u32(80), Some(LdapResultCode::Other));
    assert_eq!(LdapResultCode::from_u32(9999), None);
    assert_eq!(LdapResultCode::from_u32(10), None);
    assert_eq!(LdapResultCode::from_u32(35), None);
    assert_eq!(LdapResultCode::from_u32(81), None);
}

#[test]
fn codes_round_trip_through_numbers() {
    for n in 0u32..200 {
        if let Some(c) = LdapResultCode::from_u32(n) {
            assert_eq!(c.to_u32(), n);
        }
    }
    let defined = (0u32..200).filter(|n| LdapResultCode::from_u32(*n).is_some()).count();
    assert_eq!(defined, 40);
}

#[test]
fn code_descriptions() {
    assert_eq!(LdapResultCode::Success.description(), "Success");
    assert_eq!(LdapResultCode::InvalidCredentials.description(), "Invalid Credentials");
    assert_eq!(LdapResultCode::NotAllowedOnNonLeaf.description(), "Not Allowed On Non-Leaf");
    assert_eq!(LdapResultCode::SaslBindInProgress.description(), "SASL Bind In Progress");
}

#[test]
fn resolve_both_groups_gives_admin() {
    let r = resolve(&groups(&["users", "admins"]), &Some(s("admins")), &Some(s("users")));
    assert_eq!(r, Resolution { role: Role::Admin, accepted: true });
}

#[test]
fn resolve_user_group_only() {
    let r = resolve(&groups(&["users"]), &Some(s("admins")), &Some(s("users")));
    assert_eq!(r, Resolution { role: Role::User, accepted: true });
}

#[test]
fn resolve_without_policy_accepts() {
    assert_eq!(resolve(&groups(&[]), &None, &None), Resolution { role: Role::NoRole, accepted: true });
    assert_eq!(
        resolve(&groups(&["anything"]), &None, &None),
        Resolution { role: Role::NoRole, accepted: true }
    );
}

#[test]
fn resolve_single_unmatched_group_rejects() {
    assert!(!resolve(&groups(&["guests"]), &Some(s("admins")), &None).accepted);
    assert!(!resolve(&groups(&["guests"]), &None, &Some(s("users"))).accepted);
}

#[test]
fn scenario_guest_is_rejected() {
    let info = UserInfo { display_name: s("Guest"), groups: groups(&["guests"]) };
    let r = resolve(&info.groups, &Some(s("admins")), &Some(s("users")));
    assert_eq!(r, Resolution { role: Role::NoRole, accepted: false });
    assert_eq!(decide(&Some(info), &config(Some("admins"), Some("users"))), Err(AuthError::RoleRejected));
}

#[test]
fn scenario_directory_admin() {
    let c = checker();
    let user = c.get_user(&vec![full_entry(&["cn=admins,ou=groups,dc=example,dc=org"])]).unwrap().unwrap();
    assert_eq!(user.member_of, groups(&["admins"]));
    let info = UserChecking::authenticate(Some(user), c.verify_credentials(0).unwrap()).unwrap();
    let lines = decide(&Some(info), &config(Some("admins"), None)).unwrap();
    assert_eq!(lines, vec![s("username = Alice Liddell"), s("group = system-admin")]);
}

#[test]
fn scenario_access_denied_first() {
    let r = Authentik::identification_response(&ChallengeStage::AccessDenied, "alice", "pw");
    assert!(matches!(r, Ok(None)));
    assert_eq!(decide(&None, &config(None, None)), Err(AuthError::NotAuthenticated));
}

#[test]
fn scenario_duplicate_entries() {
    let c = checker();
    let found = c.get_user(&vec![full_entry(&["cn=a,dc=x"]), full_entry(&["cn=b,dc=x"])]).unwrap();
    assert!(found.is_none());
    assert!(UserChecking::authenticate(found, true).is_none());
}

#[test]
fn lookup_without_match() {
    assert!(checker().get_user(&vec![]).unwrap().is_none());
}

#[test]
fn lookup_single_entry_fills_all_attributes() {
    let user: User = checker()
        .get_user(&vec![full_entry(&["cn=admins,ou=groups", "cn=staff,ou=groups", "ou=other"])])
        .unwrap()
        .unwrap();
    assert_eq!(user.uid, "alice");
    assert_eq!(user.cn, "alice");
    assert_eq!(user.sn, "Liddell");
    assert_eq!(user.mail, "alice@example.org");
    assert_eq!(user.display_name, "Alice Liddell");
    assert_eq!(user.member_of, groups(&["admins", "staff", "ou=other"]));
}

#[test]
fn lookup_missing_attribute_is_error() {
    let mut entry = full_entry(&["cn=admins"]);
    entry.attrs.retain(|a| a.name != "mail");
    assert_eq!(checker().get_user(&vec![entry]).unwrap_err(), DirectoryError::MissingAttribute);
    let mut entry = full_entry(&["cn=admins"]);
    entry.attrs.retain(|a| a.name != "memberOf");
    assert_eq!(checker().get_user(&vec![entry]).unwrap_err(), DirectoryError::MissingAttribute);
    let mut entry = full_entry(&["cn=admins"]);
    entry.attrs[0].values.clear();
    assert_eq!(checker().get_user(&vec![entry]).unwrap_err(), DirectoryError::MissingAttribute);
}

#[test]
fn group_name_reduction() {
    assert_eq!(group_name_of("cn=admins,ou=groups,dc=example,dc=org"), "admins");
    assert_eq!(group_name_of("cn=admins"), "admins");
    assert_eq!(group_name_of("ou=people,dc=x"), "ou=people");
    assert_eq!(group_name_of(""), "");
    assert_eq!(group_name_of("cn=,dc=x"), "");
}

#[test]
fn verify_classifies_bind_codes() {
    let c = checker();
    assert_eq!(c.verify_credentials(0), Ok(true));
    assert_eq!(c.verify_credentials(49), Ok(false));
    assert_eq!(c.verify_credentials(53), Ok(false));
    assert_eq!(c.verify_credentials(9999), Err(DirectoryError::UnknownResultCode(9999)));
}

#[test]
fn wrong_password_hides_user() {
    let c = checker();
    let user = c.get_user(&vec![full_entry(&["cn=admins"])]).unwrap();
    assert!(UserChecking::authenticate(user, c.verify_credentials(49).unwrap()).is_none());
}

#[test]
fn new_rejects_invalid_url() {
    let mut cfg = config(None, None);
    cfg.ldap_url = s("not a url");
    assert_eq!(UserChecking::new(&cfg).unwrap_err(), DirectoryError::InvalidUrl);
    let c = UserChecking::new(&config(None, None)).unwrap();
    assert_eq!(c.ldap_url, "ldap://ldap.example.org:389");
    assert_eq!(c.bind_dn, "cn=service,dc=example,dc=org");
}

#[test]
fn bind_names() {
    let c = checker();
    assert_eq!(c.user_dn("alice"), "cn=alice,ou=users,dc=example,dc=org");
    assert_eq!(UserChecking::search_filter("alice"), "cn=alice");
}

fn identification(fields: Option<&[&str]>, password: bool) -> ChallengeStage {
    ChallengeStage::Identification {
        component: s("ak-stage-identification"),
        user_fields: fields.map(groups),
        password_fields: password,
    }
}

#[test]
fn identification_without_username_field() {
    let r = Authentik::identification_response(&identification(Some(&["email"]), true), "a", "p");
    assert!(matches!(r, Err(FlowError::ProtocolShape)));
    let r = Authentik::identification_response(&identification(None, true), "a", "p");
    assert!(matches!(r, Err(FlowError::ProtocolShape)));
    let r = Authentik::identification_response(&identification(Some(&["username"]), false), "a", "p");
    assert!(matches!(r, Err(FlowError::ProtocolShape)));
}

#[test]
fn identification_answer_carries_credentials() {
    let stage = identification(Some(&["email", "username"]), true);
    let resp = Authentik::identification_response(&stage, "alice", "pw").unwrap().unwrap();
    assert_eq!(resp.component, "ak-stage-identification");
    assert_eq!(resp.uid_field, "alice");
    assert_eq!(resp.password, "pw");
}

#[test]
fn unexpected_first_stage() {
    let r = Authentik::identification_response(&ChallengeStage::Redirect, "a", "p");
    assert!(matches!(r, Err(FlowError::UnexpectedStage)));
    let r = Authentik::identification_response(&ChallengeStage::Unknown(s("ak-stage-captcha")), "a", "p");
    assert!(matches!(r, Err(FlowError::UnexpectedStage)));
}

#[test]
fn verdict_stages() {
    assert_eq!(Authentik::verdict(&ChallengeStage::Redirect), Ok(true));
    assert_eq!(Authentik::verdict(&ChallengeStage::AccessDenied), Ok(false));
    assert_eq!(Authentik::verdict(&identification(Some(&["username"]), true)), Err(FlowError::UnexpectedStage));
}

#[test]
fn profile_to_user_info() {
    let p = Profile { name: s("Alice"), groups: groups(&["users"]), is_active: true };
    let u = Authentik::user_info(p).unwrap();
    assert_eq!(u.display_name, "Alice");
    assert_eq!(u.groups, groups(&["users"]));
    let p = Profile { name: s("Bob"), groups: groups(&[]), is_active: false };
    assert!(matches!(Authentik::user_info(p), Err(FlowError::InactiveAccount)));
}

#[test]
fn decide_user_and_plain_lines() {
    let info = UserInfo { display_name: s("Bob"), groups: groups(&["users"]) };
    let lines = decide(&Some(info.clone()), &config(Some("admins"), Some("users"))).unwrap();
    assert_eq!(lines, vec![s("username = Bob"), s("group = system-users")]);
    let lines = decide(&Some(info), &config(None, None)).unwrap();
    assert_eq!(lines, vec![s("username = Bob")]);
}

#[test]
fn default_timeout_is_ten() {
    assert_eq!(authentik_bridge::default_timeout(), 10);
}

//! The challenge-flow backend: the decisions taken on each stage the flow server presents.
//!
//! One authentication drives the flow through three steps, each a function here: answer
//! the first challenge, read the verdict on the answer, and read the profile of the
//! authenticated user. The requests themselves are made by the caller.

use crate::role::{contains_name, groups_view};
use vstd::prelude::*;

verus! {

/// What a successful authentication reports.
#[derive(Debug, Clone)]
pub struct UserInfo {
    pub display_name: String,
    pub groups: Vec<String>,
}

/// The stage a flow presents.
#[derive(Debug, Clone)]
pub enum ChallengeStage {
    /// Asks who the user is; names the fields it accepts as the user's identifier and
    /// whether it takes the password too.
    Identification { component: String, user_fields: Option<Vec<String>>, password_fields: bool },
    /// The flow refuses the user.
    AccessDenied,
    /// The flow is complete and the session is authenticated.
    Redirect,
    /// Any other stage, by its component name.
    Unknown(String),
}

/// The answer to an identification stage.
#[derive(Debug, Clone)]
pub struct IdentificationResponse {
    pub component: String,
    pub uid_field: String,
    pub password: String,
}

/// The profile of the authenticated user.
#[derive(Debug, Clone)]
pub struct Profile {
    pub name: String,
    pub groups: Vec<String>,
    pub is_active: bool,
}

/// Failures of the flow backend that are not ordinary rejections.
#[derive(Debug, Clone, Copy, PartialEq, Eq, Structural)]
pub enum FlowError {
    /// The identification stage does not take a username and a password.
    ProtocolShape,
    /// The flow presented a stage that does not fit the expected sequence.
    UnexpectedStage,
    /// The credentials were valid but the account is disabled.
    InactiveAccount,
}

/// Namespace of the challenge-flow backend.
pub struct Authentik {}

/// Whether an identification stage takes a username and a password.
pub open spec fn takes_username_and_password(
    user_fields: Option<Vec<String>>,
    password_fields: bool,
) -> bool {
    match user_fields {
        Some(f) => groups_view(f@).contains("username"@) && password_fields,
        None => false,
    }
}

impl Authentik {
    /// Answers the first stage of a flow: the credentials for an identification stage
    /// that takes them, nothing when access is denied, an error otherwise.
    pub fn identification_response(stage: &ChallengeStage, username: &str, password: &str) -> (r:
        Result<Option<IdentificationResponse>, FlowError>)
        ensures
            match *stage {
                ChallengeStage::Identification { component, user_fields, password_fields } => {
                    if takes_username_and_password(user_fields, password_fields) {
                        r matches Ok(Some(resp)) && resp.component@ == component@
                            && resp.uid_field@ == username@ && resp.password@ == password@
                    } else {
                        r matches Err(FlowError::ProtocolShape)
                    }
                },
                ChallengeStage::AccessDenied => r matches Ok(None),
                _ => r matches Err(FlowError::UnexpectedStage),
            },
    {
        match stage {
            ChallengeStage::Identification { component, user_fields, password_fields } => {
                let fields = match user_fields {
                    Some(f) => f,
                    None => return Err(FlowError::ProtocolShape),
                };
                let key = "username".to_owned();
                if !contains_name(fields, &key) || !*password_fields {
                    return Err(FlowError::ProtocolShape);
                }
                Ok(
                    Some(
                        IdentificationResponse {
                            component: component.as_str().to_owned(),
                            uid_field: username.to_owned(),
                            password: password.to_owned(),
                        },
                    ),
                )
            },
            ChallengeStage::AccessDenied => Ok(None),
            _ => Err(FlowError::UnexpectedStage),
        }
    }

    /// Reads the stage that follows the answer: `true` when the flow completed, `false`
    /// when access is denied, an error for any other stage.
    pub fn verdict(stage: &ChallengeStage) -> (r: Result<bool, FlowError>)
        ensures
            match *stage {
                ChallengeStage::Redirect => r matches Ok(true),
                ChallengeStage::AccessDenied => r matches Ok(false),
                _ => r matches Err(FlowError::UnexpectedStage),
            },
    {
        match stage {
            ChallengeStage::Redirect => Ok(true),
            ChallengeStage::AccessDenied => Ok(false),
            _ => Err(FlowError::UnexpectedStage),
        }
    }

    /// Turns the profile of the authenticated user into the report; a disabled account is
    /// an error.
    pub fn user_info(profile: Profile) -> (r: Result<UserInfo, FlowError>)
        ensures
            profile.is_active ==> (r matches Ok(u) && u.display_name@ == profile.name@
                && u.groups@ == profile.groups@),
            !profile.is_active ==> r matches Err(FlowError::InactiveAccount),
    {
        if !profile.is_active {
            return Err(FlowError::InactiveAccount);
        }
        Ok(UserInfo { display_name: profile.name, groups: profile.groups })
    }
}

} // verus!

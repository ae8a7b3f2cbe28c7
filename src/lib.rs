//! Verified core of an external authentication bridge: result-code classification,
//! directory entry handling, the challenge-flow decisions and role resolution.

pub mod authentik;
pub mod config;
pub mod directory;
pub mod facade;
pub mod rfc4511;
pub mod role;

pub use authentik::{Authentik, ChallengeStage, FlowError, IdentificationResponse, Profile, UserInfo};
pub use config::{default_timeout, Config};
pub use directory::{Attribute, DirectoryEntry, DirectoryError, User, UserChecking};
pub use rfc4511::LdapResultCode;
pub use role::{resolve, Resolution, Role};
pub use facade::{decide, AuthError};

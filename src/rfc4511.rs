//! LDAP result codes (RFC 4511, appendix A) and their classification.

use vstd::prelude::*;

verus! {

/// An LDAP result code with a defined meaning.
#[derive(Debug, Clone, Copy, PartialEq, Eq, Structural)]
pub enum LdapResultCode {
    /// The operation completed successfully. (code 0)
    Success,
    /// The operation was not properly sequenced. (code 1)
    OperationsError,
    /// The server received data that is not well-formed. (code 2)
    ProtocolError,
    /// The time limit of the operation was exceeded. (code 3)
    TimeLimitExceeded,
    /// The size limit of the operation was exceeded. (code 4)
    SizeLimitExceeded,
    /// A compare operation evaluated to false. (code 5)
    CompareFalse,
    /// A compare operation evaluated to true. (code 6)
    CompareTrue,
    /// The authentication method is not supported. (code 7)
    AuthMethodNotSupported,
    /// The server requires strong authentication. (code 8)
    StrongAuthRequired,
    /// The request must be sent to another server. (code 9)
    Referral,
    /// An administrative limit was exceeded. (code 11)
    AdminLimitExceeded,
    /// A critical control is not available. (code 12)
    UnavailableCriticalExtension,
    /// The operation requires confidentiality. (code 13)
    ConfidentialityRequired,
    /// The SASL bind needs another round. (code 14)
    SaslBindInProgress,
    /// The named attribute does not exist in the entry. (code 16)
    NoSuchAttribute,
    /// The attribute type is not defined. (code 17)
    UndefinedAttributeType,
    /// The matching rule does not suit the attribute. (code 18)
    InappropriateMatching,
    /// A value violates a constraint. (code 19)
    ConstraintViolation,
    /// The attribute or value already exists. (code 20)
    AttributeOrValueExists,
    /// A value does not fit the attribute's syntax. (code 21)
    InvalidAttributeSyntax,
    /// The target entry does not exist. (code 32)
    NoSuchObject,
    /// An alias points to no entry. (code 33)
    AliasProblem,
    /// A distinguished name is malformed. (code 34)
    InvalidDNSyntax,
    /// An alias could not be dereferenced. (code 36)
    AliasDereferencingProblem,
    /// The authentication is not appropriate. (code 48)
    InappropriateAuthentication,
    /// The credentials are wrong. (code 49)
    InvalidCredentials,
    /// The client lacks the rights for the operation. (code 50)
    InsufficientAccessRights,
    /// The server is too busy. (code 51)
    Busy,
    /// The server is unavailable. (code 52)
    Unavailable,
    /// The server refuses the operation. (code 53)
    UnwillingToPerform,
    /// A loop was detected. (code 54)
    LoopDetect,
    /// The entry's name breaks a naming rule. (code 64)
    NamingViolation,
    /// The entry breaks its object class rules. (code 65)
    ObjectClassViolation,
    /// The operation is not allowed on an entry with children. (code 66)
    NotAllowedOnNonLeaf,
    /// The operation would change the relative name. (code 67)
    NotAllowedOnRDN,
    /// The entry already exists. (code 68)
    EntryAlreadyExists,
    /// The object class may not be changed. (code 69)
    ObjectClassModsProhibited,
    /// The results do not fit in a message. (code 70)
    ResultsTooLarge,
    /// The operation spans several servers. (code 71)
    AffectsMultipleDSAs,
    /// An error that no other code covers. (code 80)
    Other,
}

/// The numbers that are assigned a result code.
pub open spec fn is_defined_code(code: u32) -> bool {
    code <= 9 || (11 <= code && code <= 14) || (16 <= code && code <= 21) || (32 <= code
        && code <= 34) || code == 36 || (48 <= code && code <= 54) || (64 <= code && code <= 71)
        || code == 80
}

impl LdapResultCode {
    /// The protocol number of a result code.
    pub open spec fn code(self) -> u32 {
        match self {
            LdapResultCode::Success => 0,
            LdapResultCode::OperationsError => 1,
            LdapResultCode::ProtocolError => 2,
            LdapResultCode::TimeLimitExceeded => 3,
            LdapResultCode::SizeLimitExceeded => 4,
            LdapResultCode::CompareFalse => 5,
            LdapResultCode::CompareTrue => 6,
            LdapResultCode::AuthMethodNotSupported => 7,
            LdapResultCode::StrongAuthRequired => 8,
            LdapResultCode::Referral => 9,
            LdapResultCode::AdminLimitExceeded => 11,
            LdapResultCode::UnavailableCriticalExtension => 12,
            LdapResultCode::ConfidentialityRequired => 13,
            LdapResultCode::SaslBindInProgress => 14,
            LdapResultCode::NoSuchAttribute => 16,
            LdapResultCode::UndefinedAttributeType => 17,
            LdapResultCode::InappropriateMatching => 18,
            LdapResultCode::ConstraintViolation => 19,
            LdapResultCode::AttributeOrValueExists => 20,
            LdapResultCode::InvalidAttributeSyntax => 21,
            LdapResultCode::NoSuchObject => 32,
            LdapResultCode::AliasProblem => 33,
            LdapResultCode::InvalidDNSyntax => 34,
            LdapResultCode::AliasDereferencingProblem => 36,
            LdapResultCode::InappropriateAuthentication => 48,
            LdapResultCode::InvalidCredentials => 49,
            LdapResultCode::InsufficientAccessRights => 50,
            LdapResultCode::Busy => 51,
            LdapResultCode::Unavailable => 52,
            LdapResultCode::UnwillingToPerform => 53,
            LdapResultCode::LoopDetect => 54,
            LdapResultCode::NamingViolation => 64,
            LdapResultCode::ObjectClassViolation => 65,
            LdapResultCode::NotAllowedOnNonLeaf => 66,
            LdapResultCode::NotAllowedOnRDN => 67,
            LdapResultCode::EntryAlreadyExists => 68,
            LdapResultCode::ObjectClassModsProhibited => 69,
            LdapResultCode::ResultsTooLarge => 70,
            LdapResultCode::AffectsMultipleDSAs => 71,
            LdapResultCode::Other => 80,
        }
    }

    /// The human-readable description of a result code.
    pub open spec fn spec_description(self) -> Seq<char> {
        match self {
            LdapResultCode::Success => "Success"@,
            LdapResultCode::OperationsError => "Operations Error"@,
            LdapResultCode::ProtocolError => "Protocol Error"@,
            LdapResultCode::TimeLimitExceeded => "Time Limit Exceeded"@,
            LdapResultCode::SizeLimitExceeded => "Size Limit Exceeded"@,
            LdapResultCode::CompareFalse => "Compare False"@,
            LdapResultCode::CompareTrue => "Compare True"@,
            LdapResultCode::AuthMethodNotSupported => "Auth Method Not Supported"@,
            LdapResultCode::StrongAuthRequired => "Strong Authentication Required"@,
            LdapResultCode::Referral => "Referral"@,
            LdapResultCode::AdminLimitExceeded => "Admin Limit Exceeded"@,
            LdapResultCode::UnavailableCriticalExtension => "Unavailable Critical Extension"@,
            LdapResultCode::ConfidentialityRequired => "Confidentiality Required"@,
            LdapResultCode::SaslBindInProgress => "SASL Bind In Progress"@,
            LdapResultCode::NoSuchAttribute => "No Such Attribute"@,
            LdapResultCode::UndefinedAttributeType => "Undefined Attribute Type"@,
            LdapResultCode::InappropriateMatching => "Inappropriate Matching"@,
            LdapResultCode::ConstraintViolation => "Constraint Violation"@,
            LdapResultCode::AttributeOrValueExists => "Attribute Or Value Exists"@,
            LdapResultCode::InvalidAttributeSyntax => "Invalid Attribute Syntax"@,
            LdapResultCode::NoSuchObject => "No Such Object"@,
            LdapResultCode::AliasProblem => "Alias Problem"@,
            LdapResultCode::InvalidDNSyntax => "Invalid DN Syntax"@,
            LdapResultCode::AliasDereferencingProblem => "Alias Dereferencing Problem"@,
            LdapResultCode::InappropriateAuthentication => "Inappropriate Authentication"@,
            LdapResultCode::InvalidCredentials => "Invalid Credentials"@,
            LdapResultCode::InsufficientAccessRights => "Insufficient Access Rights"@,
            LdapResultCode::Busy => "Busy"@,
            LdapResultCode::Unavailable => "Unavailable"@,
            LdapResultCode::UnwillingToPerform => "Unwilling To Perform"@,
            LdapResultCode::LoopDetect => "Loop Detect"@,
            LdapResultCode::NamingViolation => "Naming Violation"@,
            LdapResultCode::ObjectClassViolation => "Object Class Violation"@,
            LdapResultCode::NotAllowedOnNonLeaf => "Not Allowed On Non-Leaf"@,
            LdapResultCode::NotAllowedOnRDN => "Not Allowed On RDN"@,
            LdapResultCode::EntryAlreadyExists => "Entry Already Exists"@,
            LdapResultCode::ObjectClassModsProhibited => "Object Class Mods Prohibited"@,
            LdapResultCode::ResultsTooLarge => "Results Too Large"@,
            LdapResultCode::AffectsMultipleDSAs => "Affects Multiple DSAs"@,
            LdapResultCode::Other => "Other"@,
        }
    }

    /// Classifies a protocol number: `Some` exactly for the defined numbers, with the code
    /// that carries that number.
    pub fn from_u32(code: u32) -> (r: Option<Self>)
        ensures
            r is Some <==> is_defined_code(code),
            r matches Some(c) ==> c.code() == code,
    {
        match code {
            0 => Some(LdapResultCode::Success),
            1 => Some(LdapResultCode::OperationsError),
            2 => Some(LdapResultCode::ProtocolError),
            3 => Some(LdapResultCode::TimeLimitExceeded),
            4 => Some(LdapResultCode::SizeLimitExceeded),
            5 => Some(LdapResultCode::CompareFalse),
            6 => Some(LdapResultCode::CompareTrue),
            7 => Some(LdapResultCode::AuthMethodNotSupported),
            8 => Some(LdapResultCode::StrongAuthRequired),
            9 => Some(LdapResultCode::Referral),
            11 => Some(LdapResultCode::AdminLimitExceeded),
            12 => Some(LdapResultCode::UnavailableCriticalExtension),
            13 => Some(LdapResultCode::ConfidentialityRequired),
            14 => Some(LdapResultCode::SaslBindInProgress),
            16 => Some(LdapResultCode::NoSuchAttribute),
            17 => Some(LdapResultCode::UndefinedAttributeType),
            18 => Some(LdapResultCode::InappropriateMatching),
            19 => Some(LdapResultCode::ConstraintViolation),
            20 => Some(LdapResultCode::AttributeOrValueExists),
            21 => Some(LdapResultCode::InvalidAttributeSyntax),
            32 => Some(LdapResultCode::NoSuchObject),
            33 => Some(LdapResultCode::AliasProblem),
            34 => Some(LdapResultCode::InvalidDNSyntax),
            36 => Some(LdapResultCode::AliasDereferencingProblem),
            48 => Some(LdapResultCode::InappropriateAuthentication),
            49 => Some(LdapResultCode::InvalidCredentials),
            50 => Some(LdapResultCode::InsufficientAccessRights),
            51 => Some(LdapResultCode::Busy),
            52 => Some(LdapResultCode::Unavailable),
            53 => Some(LdapResultCode::UnwillingToPerform),
            54 => Some(LdapResultCode::LoopDetect),
            64 => Some(LdapResultCode::NamingViolation),
            65 => Some(LdapResultCode::ObjectClassViolation),
            66 => Some(LdapResultCode::NotAllowedOnNonLeaf),
            67 => Some(LdapResultCode::NotAllowedOnRDN),
            68 => Some(LdapResultCode::EntryAlreadyExists),
            69 => Some(LdapResultCode::ObjectClassModsProhibited),
            70 => Some(LdapResultCode::ResultsTooLarge),
            71 => Some(LdapResultCode::AffectsMultipleDSAs),
            80 => Some(LdapResultCode::Other),
            _ => None,
        }
    }

    /// The protocol number of this code.
    pub fn to_u32(&self) -> (r: u32)
        ensures
            r == self.code(),
    {
        match self {
            LdapResultCode::Success => 0,
            LdapResultCode::OperationsError => 1,
            LdapResultCode::ProtocolError => 2,
            LdapResultCode::TimeLimitExceeded => 3,
            LdapResultCode::SizeLimitExceeded => 4,
            LdapResultCode::CompareFalse => 5,
            LdapResultCode::CompareTrue => 6,
            LdapResultCode::AuthMethodNotSupported => 7,
            LdapResultCode::StrongAuthRequired => 8,
            LdapResultCode::Referral => 9,
            LdapResultCode::AdminLimitExceeded => 11,
            LdapResultCode::UnavailableCriticalExtension => 12,
            LdapResultCode::ConfidentialityRequired => 13,
            LdapResultCode::SaslBindInProgress => 14,
            LdapResultCode::NoSuchAttribute => 16,
            LdapResultCode::UndefinedAttributeType => 17,
            LdapResultCode::InappropriateMatching => 18,
            LdapResultCode::ConstraintViolation => 19,
            LdapResultCode::AttributeOrValueExists => 20,
            LdapResultCode::InvalidAttributeSyntax => 21,
            LdapResultCode::NoSuchObject => 32,
            LdapResultCode::AliasProblem => 33,
            LdapResultCode::InvalidDNSyntax => 34,
            LdapResultCode::AliasDereferencingProblem => 36,
            LdapResultCode::InappropriateAuthentication => 48,
            LdapResultCode::InvalidCredentials => 49,
            LdapResultCode::InsufficientAccessRights => 50,
            LdapResultCode::Busy => 51,
            LdapResultCode::Unavailable => 52,
            LdapResultCode::UnwillingToPerform => 53,
            LdapResultCode::LoopDetect => 54,
            LdapResultCode::NamingViolation => 64,
            LdapResultCode::ObjectClassViolation => 65,
            LdapResultCode::NotAllowedOnNonLeaf => 66,
            LdapResultCode::NotAllowedOnRDN => 67,
            LdapResultCode::EntryAlreadyExists => 68,
            LdapResultCode::ObjectClassModsProhibited => 69,
            LdapResultCode::ResultsTooLarge => 70,
            LdapResultCode::AffectsMultipleDSAs => 71,
            LdapResultCode::Other => 80,
        }
    }

    /// Gets the human-readable description of this code.
    pub fn description(&self) -> (r: &'static str)
        ensures
            r@ == self.spec_description(),
    {
        match self {
            LdapResultCode::Success => "Success",
            LdapResultCode::OperationsError => "Operations Error",
            LdapResultCode::ProtocolError => "Protocol Error",
            LdapResultCode::TimeLimitExceeded => "Time Limit Exceeded",
            LdapResultCode::SizeLimitExceeded => "Size Limit Exceeded",
            LdapResultCode::CompareFalse => "Compare False",
            LdapResultCode::CompareTrue => "Compare True",
            LdapResultCode::AuthMethodNotSupported => "Auth Method Not Supported",
            LdapResultCode::StrongAuthRequired => "Strong Authentication Required",
            LdapResultCode::Referral => "Referral",
            LdapResultCode::AdminLimitExceeded => "Admin Limit Exceeded",
            LdapResultCode::UnavailableCriticalExtension => "Unavailable Critical Extension",
            LdapResultCode::ConfidentialityRequired => "Confidentiality Required",
            LdapResultCode::SaslBindInProgress => "SASL Bind In Progress",
            LdapResultCode::NoSuchAttribute => "No Such Attribute",
            LdapResultCode::UndefinedAttributeType => "Undefined Attribute Type",
            LdapResultCode::InappropriateMatching => "Inappropriate Matching",
            LdapResultCode::ConstraintViolation => "Constraint Violation",
            LdapResultCode::AttributeOrValueExists => "Attribute Or Value Exists",
            LdapResultCode::InvalidAttributeSyntax => "Invalid Attribute Syntax",
            LdapResultCode::NoSuchObject => "No Such Object",
            LdapResultCode::AliasProblem => "Alias Problem",
            LdapResultCode::InvalidDNSyntax => "Invalid DN Syntax",
            LdapResultCode::AliasDereferencingProblem => "Alias Dereferencing Problem",
            LdapResultCode::InappropriateAuthentication => "Inappropriate Authentication",
            LdapResultCode::InvalidCredentials => "Invalid Credentials",
            LdapResultCode::InsufficientAccessRights => "Insufficient Access Rights",
            LdapResultCode::Busy => "Busy",
            LdapResultCode::Unavailable => "Unavailable",
            LdapResultCode::UnwillingToPerform => "Unwilling To Perform",
            LdapResultCode::LoopDetect => "Loop Detect",
            LdapResultCode::NamingViolation => "Naming Violation",
            LdapResultCode::ObjectClassViolation => "Object Class Violation",
            LdapResultCode::NotAllowedOnNonLeaf => "Not Allowed On Non-Leaf",
            LdapResultCode::NotAllowedOnRDN => "Not Allowed On RDN",
            LdapResultCode::EntryAlreadyExists => "Entry Already Exists",
            LdapResultCode::ObjectClassModsProhibited => "Object Class Mods Prohibited",
            LdapResultCode::ResultsTooLarge => "Results Too Large",
            LdapResultCode::AffectsMultipleDSAs => "Affects Multiple DSAs",
            LdapResultCode::Other => "Other",
        }
    }
}

} // verus!

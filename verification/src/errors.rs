//! Failure conditions surfaced to callers.

use vstd::prelude::*;

verus! {

/// Why an instruction was refused or a callback was not applied.
#[derive(Clone, Copy, Debug, PartialEq, Eq, Structural)]
pub enum ErrorCode {
    AbortedComputation,
    ClusterNotSet,
    UsernameTooShort,
    UsernameTooLong,
    InvalidUsernameFormat,
    InvalidAge,
    DataTooLarge,
    PreferencesTooLarge,
    ProfileAlreadyExists,
    InvalidEncryptedData,
    AvatarRequired,
    LocationRequired,
    InvalidEncryptionKey,
    UnauthorizedUser,
    InvalidSession,
}

impl ErrorCode {
    /// The text shown to a caller for each condition.
    pub open spec fn message_text(self) -> Seq<char> {
        match self {
            ErrorCode::AbortedComputation => "The computation was aborted"@,
            ErrorCode::ClusterNotSet => "Cluster not set"@,
            ErrorCode::UsernameTooShort => "Username too short (minimum 3 characters)"@,
            ErrorCode::UsernameTooLong => "Username too long (maximum 32 characters)"@,
            ErrorCode::InvalidUsernameFormat => "Username can only contain letters, numbers and underscores"@,
            ErrorCode::InvalidAge => "Age must be between 18-99"@,
            ErrorCode::DataTooLarge => "Private data too large (maximum 1000 bytes)"@,
            ErrorCode::PreferencesTooLarge => "Preferences too large (maximum 500 bytes)"@,
            ErrorCode::ProfileAlreadyExists => "Profile already exists"@,
            ErrorCode::InvalidEncryptedData => "Invalid encrypted data"@,
            ErrorCode::AvatarRequired => "Avatar is required"@,
            ErrorCode::LocationRequired => "Location information is required"@,
            ErrorCode::InvalidEncryptionKey => "Invalid encryption key"@,
            ErrorCode::UnauthorizedUser => "User is not authorized to perform this action"@,
            ErrorCode::InvalidSession => "Invalid session"@,
        }
    }

    /// The text shown to a caller.
    pub fn message(&self) -> (text: &'static str)
        ensures
            text@ == self.message_text(),
    {
        match self {
            ErrorCode::AbortedComputation => "The computation was aborted",
            ErrorCode::ClusterNotSet => "Cluster not set",
            ErrorCode::UsernameTooShort => "Username too short (minimum 3 characters)",
            ErrorCode::UsernameTooLong => "Username too long (maximum 32 characters)",
            ErrorCode::InvalidUsernameFormat => "Username can only contain letters, numbers and underscores",
            ErrorCode::InvalidAge => "Age must be between 18-99",
            ErrorCode::DataTooLarge => "Private data too large (maximum 1000 bytes)",
            ErrorCode::PreferencesTooLarge => "Preferences too large (maximum 500 bytes)",
            ErrorCode::ProfileAlreadyExists => "Profile already exists",
            ErrorCode::InvalidEncryptedData => "Invalid encrypted data",
            ErrorCode::AvatarRequired => "Avatar is required",
            ErrorCode::LocationRequired => "Location information is required",
            ErrorCode::InvalidEncryptionKey => "Invalid encryption key",
            ErrorCode::UnauthorizedUser => "User is not authorized to perform this action",
            ErrorCode::InvalidSession => "Invalid session",
        }
    }
}

} // verus!

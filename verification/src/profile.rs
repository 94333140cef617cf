//! Public user profiles and the rules a new profile must meet.

use vstd::prelude::*;
use vstd::string::*;
use vstd::utf8::encode_utf8;
use crate::errors::ErrorCode;
use crate::keys::Pubkey;

verus! {

/// Fewest bytes a username may have.
pub const MIN_USERNAME_BYTES: usize = 3;

/// Most bytes a username may have.
pub const MAX_USERNAME_BYTES: usize = 32;

/// Youngest age accepted.
pub const MIN_AGE: u8 = 18;

/// Oldest age accepted.
pub const MAX_AGE: u8 = 99;

/// Most bytes of encrypted private data a profile may carry.
pub const MAX_PRIVATE_DATA_BYTES: usize = 1000;

/// Most bytes of encrypted preferences a profile may carry.
pub const MAX_PREFERENCES_BYTES: usize = 500;

/// What a user submits to create a profile. The sensitive parts arrive
/// already encrypted.
#[derive(Clone, Debug)]
pub struct CreateProfileData {
    pub username: String,
    pub avatar_url: String,
    pub age: u8,
    pub location_city: String,
    pub encrypted_private_data: Vec<u8>,
    pub encrypted_preferences: Vec<u8>,
    pub encryption_pubkey: [u8; 32],
    pub profile_version: u8,
}

/// Mathematical content of a [`CreateProfileData`].
pub struct CreateProfileDataView {
    pub username: Seq<char>,
    pub avatar_url: Seq<char>,
    pub age: u8,
    pub location_city: Seq<char>,
    pub encrypted_private_data: Seq<u8>,
    pub encrypted_preferences: Seq<u8>,
    pub encryption_pubkey: Seq<u8>,
    pub profile_version: u8,
}

impl View for CreateProfileData {
    type V = CreateProfileDataView;

    open spec fn view(&self) -> CreateProfileDataView {
        CreateProfileDataView {
            username: self.username@,
            avatar_url: self.avatar_url@,
            age: self.age,
            location_city: self.location_city@,
            encrypted_private_data: self.encrypted_private_data@,
            encrypted_preferences: self.encrypted_preferences@,
            encryption_pubkey: self.encryption_pubkey@,
            profile_version: self.profile_version,
        }
    }
}

/// The stored profile of one user.
#[derive(Clone, Debug)]
pub struct UserProfile {
    pub owner: Pubkey,
    pub bump: u8,
    pub created_at: i64,
    pub last_updated: i64,
    pub profile_version: u8,
    pub username: String,
    pub avatar_url: String,
    pub age: u8,
    pub location_city: String,
    pub is_active: bool,
    pub encryption_pubkey: [u8; 32],
    pub encrypted_private_data: Vec<u8>,
    pub encrypted_preferences: Vec<u8>,
    pub encrypted_likes_given: Vec<u8>,
    pub encrypted_likes_received: Vec<u8>,
    pub encrypted_matches: Vec<u8>,
    pub total_likes_given: u32,
    pub total_likes_received: u32,
    pub total_matches: u32,
}

/// Mathematical content of a [`UserProfile`].
pub struct UserProfileView {
    pub owner: Pubkey,
    pub bump: u8,
    pub created_at: i64,
    pub last_updated: i64,
    pub profile_version: u8,
    pub username: Seq<char>,
    pub avatar_url: Seq<char>,
    pub age: u8,
    pub location_city: Seq<char>,
    pub is_active: bool,
    pub encryption_pubkey: Seq<u8>,
    pub encrypted_private_data: Seq<u8>,
    pub encrypted_preferences: Seq<u8>,
    pub encrypted_likes_given: Seq<u8>,
    pub encrypted_likes_received: Seq<u8>,
    pub encrypted_matches: Seq<u8>,
    pub total_likes_given: u32,
    pub total_likes_received: u32,
    pub total_matches: u32,
}

impl View for UserProfile {
    type V = UserProfileView;

    open spec fn view(&self) -> UserProfileView {
        UserProfileView {
            owner: self.owner,
            bump: self.bump,
            created_at: self.created_at,
            last_updated: self.last_updated,
            profile_version: self.profile_version,
            username: self.username@,
            avatar_url: self.avatar_url@,
            age: self.age,
            location_city: self.location_city@,
            is_active: self.is_active,
            encryption_pubkey: self.encryption_pubkey@,
            encrypted_private_data: self.encrypted_private_data@,
            encrypted_preferences: self.encrypted_preferences@,
            encrypted_likes_given: self.encrypted_likes_given@,
            encrypted_likes_received: self.encrypted_likes_received@,
            encrypted_matches: self.encrypted_matches@,
            total_likes_given: self.total_likes_given,
            total_likes_received: self.total_likes_received,
            total_matches: self.total_matches,
        }
    }
}

impl UserProfile {
    /// Bytes reserved for a stored profile.
    pub const INIT_SPACE: usize = 32 + 1 + 8 + 8 + 1 + 32 + 200 + 1 + 50 + 1 + 32 + 1000 + 500
        + 500 + 500 + 300 + 4 + 4 + 4;
}

/// Announces that a profile now exists.
#[derive(Clone, Debug)]
pub struct ProfileCreatedEvent {
    pub user: Pubkey,
    pub profile_pda: Pubkey,
    pub username: String,
    pub age: u8,
    pub location_city: String,
    pub timestamp: i64,
}

/// Mathematical content of a [`ProfileCreatedEvent`].
pub struct ProfileCreatedEventView {
    pub user: Pubkey,
    pub profile_pda: Pubkey,
    pub username: Seq<char>,
    pub age: u8,
    pub location_city: Seq<char>,
    pub timestamp: i64,
}

impl View for ProfileCreatedEvent {
    type V = ProfileCreatedEventView;

    open spec fn view(&self) -> ProfileCreatedEventView {
        ProfileCreatedEventView {
            user: self.user,
            profile_pda: self.profile_pda,
            username: self.username@,
            age: self.age,
            location_city: self.location_city@,
            timestamp: self.timestamp,
        }
    }
}

/// Whether Unicode classes `c` as a letter or a number.
pub uninterp spec fn char_is_alphanumeric(c: char) -> bool;

/// `char::is_alphanumeric` of the standard library. Its answer depends on
/// the character alone; the contract gives that answer a name and claims
/// nothing else about it.
#[verifier::external_body]
fn is_alphanumeric(c: char) -> (r: bool)
    ensures
        r == char_is_alphanumeric(c),
{
    c.is_alphanumeric()
}

/// A character may stand in a username when it is a letter, a number or an
/// underscore.
pub open spec fn allowed_in_username(c: char) -> bool {
    char_is_alphanumeric(c) || c == '_'
}

/// Every character of `name` may stand in a username.
pub open spec fn username_chars_allowed(name: Seq<char>) -> bool {
    forall|i: int| 0 <= i < name.len() ==> allowed_in_username(#[trigger] name[i])
}

/// Decides one character of a username, given whether it is alphanumeric.
pub fn username_char_ok(c: char, alphanumeric: bool) -> (ok: bool)
    ensures
        ok == (alphanumeric || c == '_'),
{
    alphanumeric || c == '_'
}

/// Checks the character set of a username.
pub fn check_username_chars(username: &str) -> (ok: bool)
    ensures
        ok == username_chars_allowed(username@),
{
    let n = username.unicode_len();
    let mut i: usize = 0;
    while i < n
        invariant
            n == username@.len(),
            i <= n,
            forall|j: int| 0 <= j < i ==> allowed_in_username(#[trigger] username@[j]),
        decreases n - i,
    {
        let c = username.get_char(i);
        if !username_char_ok(c, is_alphanumeric(c)) {
            return false;
        }
        i = i + 1;
    }
    true
}

/// An encryption key of all zero bytes stands for "no key".
pub open spec fn is_zero_key(key: Seq<u8>) -> bool {
    forall|i: int| 0 <= i < key.len() ==> #[trigger] key[i] == 0
}

/// Tells whether every byte of `key` is zero.
pub fn key_is_zero(key: &[u8; 32]) -> (zero: bool)
    ensures
        zero == is_zero_key(key@),
{
    let mut i: usize = 0;
    while i < 32
        invariant
            i <= 32,
            forall|j: int| 0 <= j < i ==> #[trigger] key@[j] == 0,
        decreases 32 - i,
    {
        if key[i] != 0 {
            return false;
        }
        i = i + 1;
    }
    true
}

/// The first rule that `data` breaks, in the order in which the rules are
/// checked, or `None` when it breaks none.
pub open spec fn profile_rejection(data: CreateProfileDataView) -> Option<ErrorCode> {
    let username_bytes = encode_utf8(data.username).len();
    if username_bytes < MIN_USERNAME_BYTES {
        Some(ErrorCode::UsernameTooShort)
    } else if username_bytes > MAX_USERNAME_BYTES {
        Some(ErrorCode::UsernameTooLong)
    } else if !(MIN_AGE <= data.age <= MAX_AGE) {
        Some(ErrorCode::InvalidAge)
    } else if data.encrypted_private_data.len() > MAX_PRIVATE_DATA_BYTES {
        Some(ErrorCode::DataTooLarge)
    } else if data.encrypted_preferences.len() > MAX_PREFERENCES_BYTES {
        Some(ErrorCode::PreferencesTooLarge)
    } else if data.avatar_url.len() == 0 {
        Some(ErrorCode::AvatarRequired)
    } else if data.location_city.len() == 0 {
        Some(ErrorCode::LocationRequired)
    } else if is_zero_key(data.encryption_pubkey) {
        Some(ErrorCode::InvalidEncryptionKey)
    } else if !username_chars_allowed(data.username) {
        Some(ErrorCode::InvalidUsernameFormat)
    } else {
        None
    }
}

/// Checks a submission against the profile rules and reports the first one
/// it breaks.
pub fn validate_profile(profile_data: &CreateProfileData) -> (r: Result<(), ErrorCode>)
    ensures
        r == match profile_rejection(profile_data@) {
            Some(e) => Err::<(), ErrorCode>(e),
            None => Ok::<(), ErrorCode>(()),
        },
{
    let username_bytes = profile_data.username.as_str().as_bytes().len();
    if username_bytes < MIN_USERNAME_BYTES {
        return Err(ErrorCode::UsernameTooShort);
    }
    if username_bytes > MAX_USERNAME_BYTES {
        return Err(ErrorCode::UsernameTooLong);
    }
    if !(profile_data.age >= MIN_AGE && profile_data.age <= MAX_AGE) {
        return Err(ErrorCode::InvalidAge);
    }
    if profile_data.encrypted_private_data.len() > MAX_PRIVATE_DATA_BYTES {
        return Err(ErrorCode::DataTooLarge);
    }
    if profile_data.encrypted_preferences.len() > MAX_PREFERENCES_BYTES {
        return Err(ErrorCode::PreferencesTooLarge);
    }
    if profile_data.avatar_url.as_str().is_empty() {
        return Err(ErrorCode::AvatarRequired);
    }
    if profile_data.location_city.as_str().is_empty() {
        return Err(ErrorCode::LocationRequired);
    }
    if key_is_zero(&profile_data.encryption_pubkey) {
        return Err(ErrorCode::InvalidEncryptionKey);
    }
    if !check_username_chars(profile_data.username.as_str()) {
        return Err(ErrorCode::InvalidUsernameFormat);
    }
    Ok(())
}

/// The profile stored for `owner` when `data` is accepted at `now`: active,
/// with no interaction history yet.
pub open spec fn new_profile(
    owner: Pubkey,
    bump: u8,
    now: i64,
    data: CreateProfileDataView,
) -> UserProfileView {
    UserProfileView {
        owner,
        bump,
        created_at: now,
        last_updated: now,
        profile_version: data.profile_version,
        username: data.username,
        avatar_url: data.avatar_url,
        age: data.age,
        location_city: data.location_city,
        is_active: true,
        encryption_pubkey: data.encryption_pubkey,
        encrypted_private_data: data.encrypted_private_data,
        encrypted_preferences: data.encrypted_preferences,
        encrypted_likes_given: Seq::empty(),
        encrypted_likes_received: Seq::empty(),
        encrypted_matches: Seq::empty(),
        total_likes_given: 0,
        total_likes_received: 0,
        total_matches: 0,
    }
}

/// The announcement that goes with [`new_profile`].
pub open spec fn profile_created(
    owner: Pubkey,
    profile_pda: Pubkey,
    now: i64,
    data: CreateProfileDataView,
) -> ProfileCreatedEventView {
    ProfileCreatedEventView {
        user: owner,
        profile_pda,
        username: data.username,
        age: data.age,
        location_city: data.location_city,
        timestamp: now,
    }
}

/// Creates the profile of `owner` from `profile_data`, or refuses with the
/// first rule the submission breaks.
pub fn create_profile(
    owner: Pubkey,
    profile_pda: Pubkey,
    bump: u8,
    unix_timestamp: i64,
    profile_data: CreateProfileData,
) -> (r: Result<(UserProfile, ProfileCreatedEvent), ErrorCode>)
    ensures
        match profile_rejection(profile_data@) {
            Some(e) => r == Err::<(UserProfile, ProfileCreatedEvent), ErrorCode>(e),
            None => r matches Ok((profile, event))
                && profile@ == new_profile(owner, bump, unix_timestamp, profile_data@)
                && event@ == profile_created(owner, profile_pda, unix_timestamp, profile_data@),
        },
{
    match validate_profile(&profile_data) {
        Err(e) => {
            return Err(e);
        },
        Ok(_) => {},
    }
    let event = ProfileCreatedEvent {
        user: owner,
        profile_pda,
        username: profile_data.username.clone(),
        age: profile_data.age,
        location_city: profile_data.location_city.clone(),
        timestamp: unix_timestamp,
    };
    let profile = UserProfile {
        owner,
        bump,
        created_at: unix_timestamp,
        last_updated: unix_timestamp,
        profile_version: profile_data.profile_version,
        username: profile_data.username,
        avatar_url: profile_data.avatar_url,
        age: profile_data.age,
        location_city: profile_data.location_city,
        is_active: true,
        encryption_pubkey: profile_data.encryption_pubkey,
        encrypted_private_data: profile_data.encrypted_private_data,
        encrypted_preferences: profile_data.encrypted_preferences,
        encrypted_likes_given: Vec::new(),
        encrypted_likes_received: Vec::new(),
        encrypted_matches: Vec::new(),
        total_likes_given: 0,
        total_likes_received: 0,
        total_matches: 0,
    };
    Ok((profile, event))
}

} // verus!

//! A compatibility score between two users, computed inside the confidential
//! computation from what each is and what each looks for.

use vstd::prelude::*;

verus! {

/// Points for ages that suit both users.
pub const AGE_POINTS: u8 = 30;

/// Most points that shared interests can give.
pub const MAX_INTEREST_POINTS: u8 = 25;

/// Most points that location can give.
pub const MAX_LOCATION_POINTS: u8 = 25;

/// Points for wanting the same kind of relationship.
pub const RELATIONSHIP_POINTS: u8 = 20;

/// Highest score.
pub const MAX_SCORE: u8 = 100;

/// What a user looks for.
#[derive(Clone, Copy, Debug, PartialEq, Eq, Structural)]
pub struct UserPreferences {
    pub preferred_age_min: u8,
    pub preferred_age_max: u8,
    pub interests_count: u8,
    pub location_preference: u8,
    pub relationship_type: u8,
}

/// What a user is, as far as scoring goes.
#[derive(Clone, Copy, Debug, PartialEq, Eq, Structural)]
pub struct UserProfile {
    pub age: u8,
    pub interests_count: u8,
    pub location_score: u8,
    pub relationship_type: u8,
}

/// `profile`'s age lies in the range that `prefs` asks for.
pub open spec fn age_suits(prefs: UserPreferences, profile: UserProfile) -> bool {
    prefs.preferred_age_min <= profile.age <= prefs.preferred_age_max
}

/// The smaller of the two users' numbers of interests.
pub open spec fn shared_interests(a: UserProfile, b: UserProfile) -> int {
    if a.interests_count < b.interests_count {
        a.interests_count as int
    } else {
        b.interests_count as int
    }
}

/// 30 points when each user's age suits the other.
pub open spec fn age_points(
    a_prefs: UserPreferences,
    b_profile: UserProfile,
    b_prefs: UserPreferences,
    a_profile: UserProfile,
) -> int {
    if age_suits(a_prefs, b_profile) && age_suits(b_prefs, a_profile) {
        AGE_POINTS as int
    } else {
        0
    }
}

/// Two and a half points, rounded down, for each shared interest, up to 25.
pub open spec fn interest_points(a: UserProfile, b: UserProfile) -> int {
    if a.interests_count > 0 && b.interests_count > 0 {
        let scaled = shared_interests(a, b) * 25 / 10;
        if scaled > MAX_INTEREST_POINTS {
            MAX_INTEREST_POINTS as int
        } else {
            scaled
        }
    } else {
        0
    }
}

/// The mean of the two location scores, rounded down, up to 25.
pub open spec fn location_points(a: UserProfile, b: UserProfile) -> int {
    let mean = (a.location_score + b.location_score) / 2;
    if mean > MAX_LOCATION_POINTS {
        MAX_LOCATION_POINTS as int
    } else {
        mean
    }
}

/// 20 points when both want the same kind of relationship.
pub open spec fn relationship_points(a: UserProfile, b: UserProfile) -> int {
    if a.relationship_type == b.relationship_type {
        RELATIONSHIP_POINTS as int
    } else {
        0
    }
}

/// The compatibility score of two users: at most 100.
pub open spec fn compatibility(
    a_prefs: UserPreferences,
    b_profile: UserProfile,
    b_prefs: UserPreferences,
    a_profile: UserProfile,
) -> int {
    age_points(a_prefs, b_profile, b_prefs, a_profile) + interest_points(a_profile, b_profile)
        + location_points(a_profile, b_profile) + relationship_points(a_profile, b_profile)
}

/// The intermediate results fit in a byte: at most ten shared interests, and
/// location scores that add up to at most 255.
pub open spec fn scorable(a_profile: UserProfile, b_profile: UserProfile) -> bool {
    &&& a_profile.interests_count > 0 && b_profile.interests_count > 0 ==> shared_interests(
        a_profile,
        b_profile,
    ) * 25 <= u8::MAX
    &&& a_profile.location_score + b_profile.location_score <= u8::MAX
}

/// Scores how well two users suit each other.
///
/// All arithmetic is done in bytes, so the profiles must be
/// [`scorable`].
pub fn calculate_compatibility(
    user_a_prefs: UserPreferences,
    user_b_profile: UserProfile,
    user_b_prefs: UserPreferences,
    user_a_profile: UserProfile,
) -> (score: u8)
    requires
        scorable(user_a_profile, user_b_profile),
    ensures
        score == compatibility(user_a_prefs, user_b_profile, user_b_prefs, user_a_profile),
        score <= MAX_SCORE,
{
    let mut compatibility_score: u8 = 0;

    if user_b_profile.age >= user_a_prefs.preferred_age_min && user_b_profile.age
        <= user_a_prefs.preferred_age_max && user_a_profile.age >= user_b_prefs.preferred_age_min
        && user_a_profile.age <= user_b_prefs.preferred_age_max {
        compatibility_score += AGE_POINTS;
    }

    let interests_score: u8 = if user_a_profile.interests_count > 0
        && user_b_profile.interests_count > 0 {
        let min_interests: u8 = if user_a_profile.interests_count
            < user_b_profile.interests_count {
            user_a_profile.interests_count
        } else {
            user_b_profile.interests_count
        };
        (min_interests * 25) / 10
    } else {
        0
    };
    compatibility_score += if interests_score > MAX_INTEREST_POINTS {
        MAX_INTEREST_POINTS
    } else {
        interests_score
    };

    let location_score: u8 = (user_a_profile.location_score + user_b_profile.location_score) / 2;
    compatibility_score += if location_score > MAX_LOCATION_POINTS {
        MAX_LOCATION_POINTS
    } else {
        location_score
    };

    if user_a_profile.relationship_type == user_b_profile.relationship_type {
        compatibility_score += RELATIONSHIP_POINTS;
    }

    if compatibility_score > MAX_SCORE {
        MAX_SCORE
    } else {
        compatibility_score
    }
}

} // verus!

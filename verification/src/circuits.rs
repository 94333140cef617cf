//! The confidential session state and its transitions.
//!
//! Everything here works on plaintext and is meant to run inside the
//! confidential computation: a [`MatchSession`] never leaves it. What leaves
//! it is a [`LikeStatus`] or a [`MatchResult`], which are separate types and
//! carry no decision flag of a single side.

use vstd::prelude::*;

verus! {

/// The confidential state of one pair's matching session.
///
/// The two participants keep their slots (A and B) for the session's
/// lifetime. A like flag is `false` until its side has liked; once `true` it
/// is never reset.
#[derive(Clone, Copy, Debug, PartialEq, Eq, Structural)]
pub struct MatchSession {
    pub user_a_id: u64,
    pub user_b_id: u64,
    pub user_a_liked: bool,
    pub user_b_liked: bool,
    pub session_created_at: u64,
    pub last_updated: u64,
}

/// One user's decision about the other, submitted once per session.
#[derive(Clone, Copy, Debug, PartialEq, Eq, Structural)]
pub struct UserLikeAction {
    pub user_id: u64,
    pub target_id: u64,
    pub like_action: bool,
    pub timestamp: u64,
}

/// What a like submission reveals.
#[derive(Clone, Copy, Debug, PartialEq, Eq, Structural)]
pub enum LikeStatus {
    /// Nothing changed: wrong pairing, or that side had already liked.
    NoOp,
    /// The decision was recorded.
    Recorded,
    /// The decision was recorded and both sides have now liked.
    MutualInterest,
}

/// What a match check reveals about the session as a whole.
#[derive(Clone, Copy, Debug, PartialEq, Eq, Structural)]
pub enum SessionStatus {
    /// Exactly one side has liked.
    Pending,
    /// Both sides have liked.
    Match,
    /// Neither side has liked.
    NoAction,
}

/// The revealed outcome of a match check.
#[derive(Clone, Copy, Debug, PartialEq, Eq, Structural)]
pub struct MatchResult {
    pub is_mutual_match: bool,
    pub session_status: SessionStatus,
    /// When the match was confirmed; 0 when there is no match.
    pub match_timestamp: u64,
}

impl LikeStatus {
    /// The number under which the status is revealed.
    pub open spec fn spec_code(self) -> u8 {
        match self {
            LikeStatus::NoOp => 0,
            LikeStatus::Recorded => 1,
            LikeStatus::MutualInterest => 2,
        }
    }

    /// The status a revealed number stands for. Any number other than those
    /// of `Recorded` and `MutualInterest` means that nothing was processed.
    pub open spec fn spec_from_code(code: u8) -> LikeStatus {
        if code == 1 {
            LikeStatus::Recorded
        } else if code == 2 {
            LikeStatus::MutualInterest
        } else {
            LikeStatus::NoOp
        }
    }

    /// The number under which the status is revealed.
    pub fn code(&self) -> (code: u8)
        ensures
            code == self.spec_code(),
    {
        match self {
            LikeStatus::NoOp => 0,
            LikeStatus::Recorded => 1,
            LikeStatus::MutualInterest => 2,
        }
    }

    /// Reads a revealed number back.
    pub fn from_code(code: u8) -> (status: LikeStatus)
        ensures
            status == LikeStatus::spec_from_code(code),
    {
        if code == 1 {
            LikeStatus::Recorded
        } else if code == 2 {
            LikeStatus::MutualInterest
        } else {
            LikeStatus::NoOp
        }
    }
}

impl SessionStatus {
    /// The number under which the status is revealed. The numbers overlap
    /// with those of [`LikeStatus`] but mean something else.
    pub open spec fn spec_code(self) -> u8 {
        match self {
            SessionStatus::Pending => 0,
            SessionStatus::Match => 1,
            SessionStatus::NoAction => 2,
        }
    }

    /// The status a revealed number stands for, if any.
    pub open spec fn spec_from_code(code: u8) -> Option<SessionStatus> {
        if code == 0 {
            Some(SessionStatus::Pending)
        } else if code == 1 {
            Some(SessionStatus::Match)
        } else if code == 2 {
            Some(SessionStatus::NoAction)
        } else {
            None
        }
    }

    /// The number under which the status is revealed.
    pub fn code(&self) -> (code: u8)
        ensures
            code == self.spec_code(),
    {
        match self {
            SessionStatus::Pending => 0,
            SessionStatus::Match => 1,
            SessionStatus::NoAction => 2,
        }
    }

    /// Reads a revealed number back, if it stands for a status.
    pub fn from_code(code: u8) -> (status: Option<SessionStatus>)
        ensures
            status == SessionStatus::spec_from_code(code),
    {
        if code == 0 {
            Some(SessionStatus::Pending)
        } else if code == 1 {
            Some(SessionStatus::Match)
        } else if code == 2 {
            Some(SessionStatus::NoAction)
        } else {
            None
        }
    }
}

/// The session two users start with: nobody has liked yet.
pub open spec fn fresh_session(user_a_id: u64, user_b_id: u64, now: u64) -> MatchSession {
    MatchSession {
        user_a_id,
        user_b_id,
        user_a_liked: false,
        user_b_liked: false,
        session_created_at: now,
        last_updated: now,
    }
}

/// `action` is A acting on B, and A has not liked yet.
pub open spec fn accepted_for_a(action: UserLikeAction, session: MatchSession) -> bool {
    &&& action.user_id == session.user_a_id
    &&& action.target_id == session.user_b_id
    &&& !session.user_a_liked
}

/// `action` is B acting on A, B has not liked yet, and the action is not
/// already taken as A's.
pub open spec fn accepted_for_b(action: UserLikeAction, session: MatchSession) -> bool {
    &&& !accepted_for_a(action, session)
    &&& action.user_id == session.user_b_id
    &&& action.target_id == session.user_a_id
    &&& !session.user_b_liked
}

/// `action` changes the session (or would, did it not repeat what is there).
pub open spec fn accepted(action: UserLikeAction, session: MatchSession) -> bool {
    accepted_for_a(action, session) || accepted_for_b(action, session)
}

/// The session after `action` has been submitted to it.
pub open spec fn session_after_like(action: UserLikeAction, session: MatchSession) -> MatchSession {
    if accepted_for_a(action, session) {
        MatchSession { user_a_liked: action.like_action, last_updated: action.timestamp, ..session }
    } else if accepted_for_b(action, session) {
        MatchSession { user_b_liked: action.like_action, last_updated: action.timestamp, ..session }
    } else {
        session
    }
}

/// Both sides have liked.
pub open spec fn both_liked(session: MatchSession) -> bool {
    session.user_a_liked && session.user_b_liked
}

/// What submitting `action` to `session` reveals.
pub open spec fn like_status(action: UserLikeAction, session: MatchSession) -> LikeStatus {
    if !accepted(action, session) {
        LikeStatus::NoOp
    } else if both_liked(session_after_like(action, session)) {
        LikeStatus::MutualInterest
    } else {
        LikeStatus::Recorded
    }
}

/// What a match check of `session` at `now` reveals.
pub open spec fn match_result(session: MatchSession, now: u64) -> MatchResult {
    if session.user_a_liked && session.user_b_liked {
        MatchResult {
            is_mutual_match: true,
            session_status: SessionStatus::Match,
            match_timestamp: now,
        }
    } else if session.user_a_liked || session.user_b_liked {
        MatchResult {
            is_mutual_match: false,
            session_status: SessionStatus::Pending,
            match_timestamp: 0,
        }
    } else {
        MatchResult {
            is_mutual_match: false,
            session_status: SessionStatus::NoAction,
            match_timestamp: 0,
        }
    }
}

/// Starts a session between two users.
pub fn init_match_session(user_a_id: u64, user_b_id: u64, current_timestamp: u64) -> (session:
    MatchSession)
    ensures
        session == fresh_session(user_a_id, user_b_id, current_timestamp),
{
    MatchSession {
        user_a_id,
        user_b_id,
        user_a_liked: false,
        user_b_liked: false,
        session_created_at: current_timestamp,
        last_updated: current_timestamp,
    }
}

/// Applies one like submission to a session.
///
/// A side's decision is taken while that side has not liked: it sets the
/// side's flag and the time of last update. Anything else (a stranger, a
/// wrong target, a side that has liked already) leaves the session as it is
/// and reveals `NoOp`. Mutual interest is revealed exactly when a decision
/// was taken and both flags are set after it.
pub fn submit_like(like_action: UserLikeAction, match_session: MatchSession) -> (r: (
    MatchSession,
    LikeStatus,
))
    ensures
        r.0 == session_after_like(like_action, match_session),
        r.1 == like_status(like_action, match_session),
        r.1 == LikeStatus::MutualInterest <==> accepted(like_action, match_session) && both_liked(
            r.0,
        ),
        r.1 == LikeStatus::NoOp ==> r.0 == match_session,
        r.1 != LikeStatus::NoOp ==> r.0.last_updated == like_action.timestamp,
        r.0.user_a_id == match_session.user_a_id,
        r.0.user_b_id == match_session.user_b_id,
        r.0.session_created_at == match_session.session_created_at,
        match_session.user_a_liked ==> r.0.user_a_liked,
        match_session.user_b_liked ==> r.0.user_b_liked,
{
    let mut session = match_session;
    let mut status = LikeStatus::NoOp;
    if like_action.user_id == session.user_a_id && like_action.target_id == session.user_b_id
        && !session.user_a_liked {
        session.user_a_liked = like_action.like_action;
        session.last_updated = like_action.timestamp;
        status = LikeStatus::Recorded;
    } else if like_action.user_id == session.user_b_id && like_action.target_id
        == session.user_a_id && !session.user_b_liked {
        session.user_b_liked = like_action.like_action;
        session.last_updated = like_action.timestamp;
        status = LikeStatus::Recorded;
    }
    if status == LikeStatus::Recorded && session.user_a_liked && session.user_b_liked {
        status = LikeStatus::MutualInterest;
    }
    (session, status)
}

/// Reads the two flags of a session and says whether there is a match. The
/// session is not changed.
pub fn check_mutual_match(match_session: MatchSession, current_timestamp: u64) -> (result:
    MatchResult)
    ensures
        result == match_result(match_session, current_timestamp),
        result.is_mutual_match == both_liked(match_session),
        result.is_mutual_match <==> result.session_status == SessionStatus::Match,
        result.match_timestamp == if result.is_mutual_match {
            current_timestamp
        } else {
            0
        },
{
    let is_mutual = match_session.user_a_liked && match_session.user_b_liked;
    let session_status = if is_mutual {
        SessionStatus::Match
    } else if match_session.user_a_liked || match_session.user_b_liked {
        SessionStatus::Pending
    } else {
        SessionStatus::NoAction
    };
    let match_timestamp = if is_mutual {
        current_timestamp
    } else {
        0
    };
    MatchResult { is_mutual_match: is_mutual, session_status, match_timestamp }
}

/// The session after every action of `actions` has been submitted to it, in
/// order.
pub open spec fn session_after_all(session: MatchSession, actions: Seq<UserLikeAction>) -> MatchSession
    decreases actions.len(),
{
    if actions.len() == 0 {
        session
    } else {
        session_after_like(actions.last(), session_after_all(session, actions.drop_last()))
    }
}

/// Once a user's like has been taken, a second submission by the same user
/// is a no-op, whatever it says: it reveals `NoOp` and leaves the session as
/// the first submission left it.
///
/// This holds for a session between two different users and a first
/// submission that is a like. A pass leaves the side's flag unset, so a later
/// submission of that side is taken again.
pub proof fn lemma_second_submission_is_noop(
    session: MatchSession,
    first: UserLikeAction,
    second: UserLikeAction,
)
    requires
        session.user_a_id != session.user_b_id,
        first.like_action,
        like_status(first, session) != LikeStatus::NoOp,
        second.user_id == first.user_id,
    ensures
        like_status(second, session_after_like(first, session)) == LikeStatus::NoOp,
        session_after_like(second, session_after_like(first, session)) == session_after_like(
            first,
            session,
        ),
{
}

/// A side that has liked stays closed: after any further submissions, in any
/// number and order, a submission by that user is still a no-op.
pub proof fn lemma_liked_side_stays_closed(
    session: MatchSession,
    actions: Seq<UserLikeAction>,
    action: UserLikeAction,
)
    requires
        session.user_a_id != session.user_b_id,
        (session.user_a_liked && action.user_id == session.user_a_id) || (session.user_b_liked
            && action.user_id == session.user_b_id),
    ensures
        like_status(action, session_after_all(session, actions)) == LikeStatus::NoOp,
        session_after_like(action, session_after_all(session, actions)) == session_after_all(
            session,
            actions,
        ),
{
    lemma_submissions_keep_likes(session, actions);
}

/// Submissions never swap or replace the participants, never touch the time
/// of creation, and never take back a like.
pub proof fn lemma_submissions_keep_likes(session: MatchSession, actions: Seq<UserLikeAction>)
    ensures
        session_after_all(session, actions).user_a_id == session.user_a_id,
        session_after_all(session, actions).user_b_id == session.user_b_id,
        session_after_all(session, actions).session_created_at == session.session_created_at,
        session.user_a_liked ==> session_after_all(session, actions).user_a_liked,
        session.user_b_liked ==> session_after_all(session, actions).user_b_liked,
    decreases actions.len(),
{
    if actions.len() > 0 {
        lemma_submissions_keep_likes(session, actions.drop_last());
    }
}

/// Mutual interest is revealed if and only if a decision was taken and both
/// flags are set right after it.
pub proof fn lemma_mutual_interest_iff_both_liked(session: MatchSession, action: UserLikeAction)
    ensures
        like_status(action, session) == LikeStatus::MutualInterest <==> accepted(action, session)
            && both_liked(session_after_like(action, session)),
        like_status(action, session) == LikeStatus::MutualInterest ==> forall|now: u64|
            (#[trigger] match_result(session_after_like(action, session), now)).is_mutual_match,
{
}

/// The order of the two likes does not matter: whoever comes second reveals
/// mutual interest, and the first reveals only that a like was recorded.
pub proof fn lemma_mutual_interest_either_order(
    session: MatchSession,
    a_likes: UserLikeAction,
    b_likes: UserLikeAction,
)
    requires
        !session.user_a_liked,
        !session.user_b_liked,
        a_likes.user_id == session.user_a_id,
        a_likes.target_id == session.user_b_id,
        a_likes.like_action,
        b_likes.user_id == session.user_b_id,
        b_likes.target_id == session.user_a_id,
        b_likes.like_action,
    ensures
        like_status(a_likes, session) == LikeStatus::Recorded,
        like_status(b_likes, session_after_like(a_likes, session)) == LikeStatus::MutualInterest,
        like_status(b_likes, session) == LikeStatus::Recorded,
        like_status(a_likes, session_after_like(b_likes, session)) == LikeStatus::MutualInterest,
        both_liked(session_after_all(session, seq![a_likes, b_likes])),
        both_liked(session_after_all(session, seq![b_likes, a_likes])),
{
    reveal_with_fuel(session_after_all, 3);
    let ab = seq![a_likes, b_likes];
    assert(ab.drop_last() =~= seq![a_likes]);
    assert(ab.drop_last().drop_last() =~= Seq::<UserLikeAction>::empty());
    let ba = seq![b_likes, a_likes];
    assert(ba.drop_last() =~= seq![b_likes]);
    assert(ba.drop_last().drop_last() =~= Seq::<UserLikeAction>::empty());
}

/// A match check depends on the two like flags and on nothing else in the
/// session: sessions with the same flags give the same result, and a
/// submission that was a no-op does not change it. The time of the check
/// shows only in the timestamp of a match.
pub proof fn lemma_check_reads_flags_only(
    first: MatchSession,
    second: MatchSession,
    now: u64,
    later: u64,
)
    requires
        first.user_a_liked == second.user_a_liked,
        first.user_b_liked == second.user_b_liked,
    ensures
        match_result(first, now) == match_result(second, now),
        match_result(first, now).is_mutual_match == match_result(second, later).is_mutual_match,
        match_result(first, now).session_status == match_result(second, later).session_status,
        forall|action: UserLikeAction| #[trigger]
            like_status(action, first) == LikeStatus::NoOp ==> match_result(
                session_after_like(action, first),
                now,
            ) == match_result(first, now),
{
}

/// The revealed numbers of the two status types can be read back.
pub proof fn lemma_status_codes_round_trip(like: LikeStatus, status: SessionStatus)
    ensures
        LikeStatus::spec_from_code(like.spec_code()) == like,
        SessionStatus::spec_from_code(status.spec_code()) == Some(status),
{
}

} // verus!

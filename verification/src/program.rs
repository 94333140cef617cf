//! The orchestration layer: the durable record of a session, the requests
//! that are queued against the confidential engine, and what its answers do
//! to the record.
//!
//! Every entry point is a function from plain values to plain values. The
//! caller loads and stores the record, reads the clock, queues the request and
//! emits the signal. An answer is applied whole or not at all.
//!
//! A record that a match check has finalized stays finalized. Later requests
//! on it are not refused here: a like or a second check can still be queued,
//! and a second check may change `match_found`.

use vstd::prelude::*;
use crate::circuits::LikeStatus;
use crate::circuits::SessionStatus;
use crate::computation::Argument;
use crate::computation::CheckMutualMatchOutput;
use crate::computation::Circuit;
use crate::computation::ComputationOutputs;
use crate::computation::ComputationRequest;
use crate::computation::InitMatchSessionOutput;
use crate::computation::SubmitLikeOutput;
use crate::computation::request_for_session;
use crate::computation::session_request;
use crate::errors::ErrorCode;
use crate::keys::Pubkey;

verus! {

/// Where the ciphertext starts in a stored session record: after the type
/// tag, the session id and the two participants.
pub const ENCRYPTED_DATA_OFFSET: u32 = 8 + 8 + 32 + 32;

/// Bytes of ciphertext in a stored session record.
pub const ENCRYPTED_DATA_LEN: u32 = 32 * 6;

/// The durable record of a session between two users. The decisions are in
/// `encrypted_match_data`, which only the engine can read.
#[derive(Clone, Copy, Debug, PartialEq, Eq)]
pub struct MatchPairSession {
    pub session_id: u64,
    pub user_a: Pubkey,
    pub user_b: Pubkey,
    pub encrypted_match_data: [[u8; 32]; 6],
    pub nonce: u128,
    pub created_at: i64,
    pub last_updated: i64,
    pub is_finalized: bool,
    pub match_found: bool,
    pub bump: u8,
}

impl MatchPairSession {
    /// Bytes reserved for a stored session record.
    pub const INIT_SPACE: usize = 8 + 32 + 32 + 32 * 6 + 16 + 8 + 8 + 1 + 1 + 1;
}

/// Announces a new session.
#[derive(Clone, Copy, Debug, PartialEq, Eq)]
pub struct MatchSessionCreatedEvent {
    pub session_id: u64,
    pub user_a: Pubkey,
    pub user_b: Pubkey,
    pub created_at: i64,
}

/// Announces that a like was recorded. It does not say whose.
#[derive(Clone, Copy, Debug, PartialEq, Eq)]
pub struct LikeSubmittedEvent {
    pub session_id: u64,
    pub timestamp: i64,
}

/// Announces that both users have liked.
#[derive(Clone, Copy, Debug, PartialEq, Eq)]
pub struct MutualInterestDetectedEvent {
    pub session_id: u64,
    pub timestamp: i64,
}

/// Announces a confirmed match.
#[derive(Clone, Copy, Debug, PartialEq, Eq)]
pub struct MutualMatchFoundEvent {
    pub session_id: u64,
    pub user_a: Pubkey,
    pub user_b: Pubkey,
    pub matched_at: i64,
    pub can_start_conversation: bool,
}

/// Announces that a check found no match.
#[derive(Clone, Copy, Debug, PartialEq, Eq)]
pub struct NoMutualMatchEvent {
    pub session_id: u64,
    pub finalized_at: i64,
}

/// What the caller is told after a like was applied.
#[derive(Clone, Copy, Debug, PartialEq, Eq)]
pub enum LikeSignal {
    LikeSubmitted(LikeSubmittedEvent),
    MutualInterestDetected(MutualInterestDetectedEvent),
    /// A duplicate or a submission that did not fit the session.
    NotProcessed,
}

/// Why a check found no match.
#[derive(Clone, Copy, Debug, PartialEq, Eq, Structural)]
pub enum NoMatchReason {
    /// Only one user has liked.
    Pending,
    /// Neither user has liked.
    NoAction,
    /// The engine revealed a status that does not go with a failed check.
    Unknown,
}

/// What the caller is told after a match check was applied.
#[derive(Clone, Copy, Debug, PartialEq, Eq)]
pub enum MatchSignal {
    MutualMatchFound(MutualMatchFoundEvent),
    NoMutualMatch(NoMutualMatchEvent, NoMatchReason),
}

impl NoMatchReason {
    /// The reason in words.
    pub open spec fn description_text(self) -> Seq<char> {
        match self {
            NoMatchReason::Pending => "Pending - only one user has acted"@,
            NoMatchReason::NoAction => "No match - both users passed or no actions"@,
            NoMatchReason::Unknown => "Unknown status"@,
        }
    }

    /// The reason in words.
    pub fn description(&self) -> (text: &'static str)
        ensures
            text@ == self.description_text(),
    {
        match self {
            NoMatchReason::Pending => "Pending - only one user has acted",
            NoMatchReason::NoAction => "No match - both users passed or no actions",
            NoMatchReason::Unknown => "Unknown status",
        }
    }
}

/// The number by which the engine knows a user: the first eight bytes of the
/// user's address, least significant first.
pub open spec fn user_id(key: Pubkey) -> u64 {
    (key.bytes[0] + key.bytes[1] * 0x100 + key.bytes[2] * 0x1_0000 + key.bytes[3] * 0x100_0000
        + key.bytes[4] * 0x1_0000_0000 + key.bytes[5] * 0x100_0000_0000 + key.bytes[6]
        * 0x1_0000_0000_0000 + key.bytes[7] * 0x100_0000_0000_0000) as u64
}

/// Computes [`user_id`].
pub fn user_id_of(key: &Pubkey) -> (id: u64)
    ensures
        id == user_id(*key),
{
    let b0: u64 = key.bytes[0] as u64;
    let b1: u64 = key.bytes[1] as u64;
    let b2: u64 = key.bytes[2] as u64;
    let b3: u64 = key.bytes[3] as u64;
    let b4: u64 = key.bytes[4] as u64;
    let b5: u64 = key.bytes[5] as u64;
    let b6: u64 = key.bytes[6] as u64;
    let b7: u64 = key.bytes[7] as u64;
    b0 + b1 * 0x100 + b2 * 0x1_0000 + b3 * 0x100_0000 + b4 * 0x1_0000_0000 + b5
        * 0x100_0000_0000 + b6 * 0x1_0000_0000_0000 + b7 * 0x100_0000_0000_0000
}

/// A clock reading as the unsigned number the engine receives: the same 64
/// bits.
pub open spec fn timestamp_bits(unix_timestamp: i64) -> u64 {
    if unix_timestamp >= 0 {
        unix_timestamp as u64
    } else {
        (unix_timestamp + 0x1_0000_0000_0000_0000) as u64
    }
}

/// Computes [`timestamp_bits`].
pub fn timestamp_to_u64(unix_timestamp: i64) -> (bits: u64)
    ensures
        bits == timestamp_bits(unix_timestamp),
{
    if unix_timestamp >= 0 {
        unix_timestamp as u64
    } else {
        let wide: i128 = unix_timestamp as i128;
        (wide + 0x1_0000_0000_0000_0000) as u64
    }
}

/// `user` is one of the two participants of `session`.
pub open spec fn is_participant(session: MatchPairSession, user: Pubkey) -> bool {
    user == session.user_a || user == session.user_b
}

/// The record of a session that has just been opened: no ciphertext yet, not
/// finalized.
pub open spec fn opened_session(
    session_id: u64,
    user_a: Pubkey,
    user_b: Pubkey,
    nonce: u128,
    now: i64,
    bump: u8,
    encrypted_match_data: [[u8; 32]; 6],
) -> MatchPairSession {
    MatchPairSession {
        session_id,
        user_a,
        user_b,
        encrypted_match_data,
        nonce,
        created_at: now,
        last_updated: now,
        is_finalized: false,
        match_found: false,
        bump,
    }
}

/// The ciphertext of a record that the engine has not filled yet: all zero.
pub open spec fn is_blank(data: [[u8; 32]; 6]) -> bool {
    forall|i: int, j: int| 0 <= i < 6 && 0 <= j < 32 ==> #[trigger] data[i][j] == 0
}

/// Arguments of the instruction that starts a session.
pub open spec fn init_args(user_a: Pubkey, user_b: Pubkey, nonce: u128, now: i64) -> Seq<
    Argument,
> {
    seq![
        Argument::PlaintextU128(nonce),
        Argument::PlaintextU64(user_id(user_a)),
        Argument::PlaintextU64(user_id(user_b)),
        Argument::PlaintextU64(timestamp_bits(now)),
    ]
}

/// The stored ciphertext of the session at `session_key`, as an argument.
pub open spec fn stored_session_arg(session_key: Pubkey) -> Argument {
    Argument::Account(session_key, ENCRYPTED_DATA_OFFSET, ENCRYPTED_DATA_LEN)
}

/// Arguments of the instruction that applies a like: the user's encrypted
/// action, then the session's current ciphertext.
pub open spec fn like_args(
    session: MatchPairSession,
    session_key: Pubkey,
    encrypted_user_id: [u8; 32],
    encrypted_target_id: [u8; 32],
    encrypted_like_action: [u8; 32],
    encrypted_timestamp: [u8; 32],
    pub_key: [u8; 32],
    nonce: u128,
) -> Seq<Argument> {
    seq![
        Argument::ArcisPubkey(pub_key),
        Argument::PlaintextU128(nonce),
        Argument::EncryptedU8(encrypted_user_id),
        Argument::EncryptedU8(encrypted_target_id),
        Argument::EncryptedU8(encrypted_like_action),
        Argument::EncryptedU8(encrypted_timestamp),
        Argument::PlaintextU128(session.nonce),
        stored_session_arg(session_key),
    ]
}

/// Arguments of the instruction that checks for a match.
pub open spec fn check_args(session: MatchPairSession, session_key: Pubkey, now: i64) -> Seq<
    Argument,
> {
    seq![
        Argument::PlaintextU128(session.nonce),
        stored_session_arg(session_key),
        Argument::PlaintextU64(timestamp_bits(now)),
    ]
}

/// Opens a session between `user_a` and `user_b`: the new record, the request
/// that has the engine create the confidential state, and the announcement.
pub fn init_match_session(
    session_key: Pubkey,
    bump: u8,
    unix_timestamp: i64,
    computation_offset: u64,
    session_id: u64,
    user_a: Pubkey,
    user_b: Pubkey,
    nonce: u128,
) -> (r: (MatchPairSession, ComputationRequest, MatchSessionCreatedEvent))
    ensures
        r.0 == opened_session(
            session_id,
            user_a,
            user_b,
            nonce,
            unix_timestamp,
            bump,
            r.0.encrypted_match_data,
        ),
        is_blank(r.0.encrypted_match_data),
        r.1@ == session_request(
            Circuit::InitMatchSession,
            computation_offset,
            init_args(user_a, user_b, nonce, unix_timestamp),
            session_key,
        ),
        r.2 == (MatchSessionCreatedEvent { session_id, user_a, user_b, created_at: unix_timestamp }),
{
    let match_session = MatchPairSession {
        session_id,
        user_a,
        user_b,
        encrypted_match_data: [[0u8; 32]; 6],
        nonce,
        created_at: unix_timestamp,
        last_updated: unix_timestamp,
        is_finalized: false,
        match_found: false,
        bump,
    };
    let mut args: Vec<Argument> = Vec::new();
    args.push(Argument::PlaintextU128(nonce));
    args.push(Argument::PlaintextU64(user_id_of(&user_a)));
    args.push(Argument::PlaintextU64(user_id_of(&user_b)));
    args.push(Argument::PlaintextU64(timestamp_to_u64(unix_timestamp)));
    assert(args@ =~= init_args(user_a, user_b, nonce, unix_timestamp));
    let request = request_for_session(
        Circuit::InitMatchSession,
        computation_offset,
        args,
        session_key,
    );
    let event = MatchSessionCreatedEvent { session_id, user_a, user_b, created_at: unix_timestamp };
    (match_session, request, event)
}

/// The record after the engine has answered the request that opened it: it
/// now holds the encrypted state.
pub open spec fn session_after_init(
    session: MatchPairSession,
    output: InitMatchSessionOutput,
) -> MatchPairSession {
    MatchPairSession {
        encrypted_match_data: output.session.ciphertexts,
        nonce: output.session.nonce,
        ..session
    }
}

/// The record after a like was applied at `now`: new ciphertext, new nonce,
/// new time of last update.
pub open spec fn session_after_like_callback(
    session: MatchPairSession,
    output: SubmitLikeOutput,
    now: i64,
) -> MatchPairSession {
    MatchPairSession {
        encrypted_match_data: output.session.ciphertexts,
        nonce: output.session.nonce,
        last_updated: now,
        ..session
    }
}

/// The signal for a revealed like status.
pub open spec fn like_signal(session_id: u64, now: i64, status_flag: u8) -> LikeSignal {
    match LikeStatus::spec_from_code(status_flag) {
        LikeStatus::Recorded => LikeSignal::LikeSubmitted(
            LikeSubmittedEvent { session_id, timestamp: now },
        ),
        LikeStatus::MutualInterest => LikeSignal::MutualInterestDetected(
            MutualInterestDetectedEvent { session_id, timestamp: now },
        ),
        LikeStatus::NoOp => LikeSignal::NotProcessed,
    }
}

/// The record after a match check: finalized, with the verdict.
pub open spec fn session_after_check(
    session: MatchPairSession,
    output: CheckMutualMatchOutput,
) -> MatchPairSession {
    MatchPairSession { is_finalized: true, match_found: output.is_mutual_match, ..session }
}

/// Why a check that revealed `session_status` found no match.
pub open spec fn no_match_reason(session_status: u8) -> NoMatchReason {
    match SessionStatus::spec_from_code(session_status) {
        Some(SessionStatus::Pending) => NoMatchReason::Pending,
        Some(SessionStatus::NoAction) => NoMatchReason::NoAction,
        _ => NoMatchReason::Unknown,
    }
}

/// The signal for a revealed check result.
pub open spec fn match_signal(
    session: MatchPairSession,
    output: CheckMutualMatchOutput,
    now: i64,
) -> MatchSignal {
    if output.is_mutual_match {
        MatchSignal::MutualMatchFound(
            MutualMatchFoundEvent {
                session_id: session.session_id,
                user_a: session.user_a,
                user_b: session.user_b,
                matched_at: now,
                can_start_conversation: true,
            },
        )
    } else {
        MatchSignal::NoMutualMatch(
            NoMutualMatchEvent { session_id: session.session_id, finalized_at: now },
            no_match_reason(output.session_status),
        )
    }
}

/// Applies the engine's answer to the request that opened a session. A
/// failure leaves the record as it was.
pub fn init_match_session_callback(
    match_session: &mut MatchPairSession,
    output: ComputationOutputs<InitMatchSessionOutput>,
) -> (r: Result<(), ErrorCode>)
    ensures
        match output {
            ComputationOutputs::Success(out) => {
                &&& r == Ok::<(), ErrorCode>(())
                &&& *final(match_session) == session_after_init(*old(match_session), out)
            },
            ComputationOutputs::Failure => {
                &&& r == Err::<(), ErrorCode>(ErrorCode::AbortedComputation)
                &&& *final(match_session) == *old(match_session)
            },
        },
        final(match_session).is_finalized == old(match_session).is_finalized,
        final(match_session).match_found == old(match_session).match_found,
{
    let encrypted_session = match output {
        ComputationOutputs::Success(out) => out.session,
        ComputationOutputs::Failure => {
            return Err(ErrorCode::AbortedComputation);
        },
    };
    match_session.encrypted_match_data = encrypted_session.ciphertexts;
    match_session.nonce = encrypted_session.nonce;
    Ok(())
}

/// Prepares a like submission by `user`. Only a participant of the session
/// may submit; anyone else is refused before anything is queued.
pub fn submit_like(
    match_session: &MatchPairSession,
    session_key: Pubkey,
    user: Pubkey,
    computation_offset: u64,
    encrypted_user_id: [u8; 32],
    encrypted_target_id: [u8; 32],
    encrypted_like_action: [u8; 32],
    encrypted_timestamp: [u8; 32],
    pub_key: [u8; 32],
    nonce: u128,
) -> (r: Result<ComputationRequest, ErrorCode>)
    ensures
        if is_participant(*match_session, user) {
            r matches Ok(request) && request@ == session_request(
                Circuit::SubmitLike,
                computation_offset,
                like_args(
                    *match_session,
                    session_key,
                    encrypted_user_id,
                    encrypted_target_id,
                    encrypted_like_action,
                    encrypted_timestamp,
                    pub_key,
                    nonce,
                ),
                session_key,
            )
        } else {
            r == Err::<ComputationRequest, ErrorCode>(ErrorCode::UnauthorizedUser)
        },
{
    if !(user == match_session.user_a || user == match_session.user_b) {
        return Err(ErrorCode::UnauthorizedUser);
    }
    let mut args: Vec<Argument> = Vec::new();
    args.push(Argument::ArcisPubkey(pub_key));
    args.push(Argument::PlaintextU128(nonce));
    args.push(Argument::EncryptedU8(encrypted_user_id));
    args.push(Argument::EncryptedU8(encrypted_target_id));
    args.push(Argument::EncryptedU8(encrypted_like_action));
    args.push(Argument::EncryptedU8(encrypted_timestamp));
    args.push(Argument::PlaintextU128(match_session.nonce));
    args.push(Argument::Account(session_key, ENCRYPTED_DATA_OFFSET, ENCRYPTED_DATA_LEN));
    assert(args@ =~= like_args(
        *match_session,
        session_key,
        encrypted_user_id,
        encrypted_target_id,
        encrypted_like_action,
        encrypted_timestamp,
        pub_key,
        nonce,
    ));
    Ok(request_for_session(Circuit::SubmitLike, computation_offset, args, session_key))
}

/// Applies the engine's answer to a like submission and says what to tell
/// the caller. A failure leaves the record as it was.
pub fn submit_like_callback(
    match_session: &mut MatchPairSession,
    output: ComputationOutputs<SubmitLikeOutput>,
    unix_timestamp: i64,
) -> (r: Result<LikeSignal, ErrorCode>)
    ensures
        match output {
            ComputationOutputs::Success(out) => {
                &&& r == Ok::<LikeSignal, ErrorCode>(
                    like_signal(old(match_session).session_id, unix_timestamp, out.status_flag),
                )
                &&& *final(match_session) == session_after_like_callback(
                    *old(match_session),
                    out,
                    unix_timestamp,
                )
            },
            ComputationOutputs::Failure => {
                &&& r == Err::<LikeSignal, ErrorCode>(ErrorCode::AbortedComputation)
                &&& *final(match_session) == *old(match_session)
            },
        },
        final(match_session).is_finalized == old(match_session).is_finalized,
        final(match_session).match_found == old(match_session).match_found,
{
    let (updated_session, status_flag) = match output {
        ComputationOutputs::Success(out) => (out.session, out.status_flag),
        ComputationOutputs::Failure => {
            return Err(ErrorCode::AbortedComputation);
        },
    };
    match_session.encrypted_match_data = updated_session.ciphertexts;
    match_session.nonce = updated_session.nonce;
    match_session.last_updated = unix_timestamp;
    let signal = match LikeStatus::from_code(status_flag) {
        LikeStatus::Recorded => LikeSignal::LikeSubmitted(
            LikeSubmittedEvent {
                session_id: match_session.session_id,
                timestamp: match_session.last_updated,
            },
        ),
        LikeStatus::MutualInterest => LikeSignal::MutualInterestDetected(
            MutualInterestDetectedEvent {
                session_id: match_session.session_id,
                timestamp: match_session.last_updated,
            },
        ),
        LikeStatus::NoOp => LikeSignal::NotProcessed,
    };
    Ok(signal)
}

/// Prepares a match check of the session at `unix_timestamp`.
pub fn check_mutual_match(
    match_session: &MatchPairSession,
    session_key: Pubkey,
    unix_timestamp: i64,
    computation_offset: u64,
) -> (request: ComputationRequest)
    ensures
        request@ == session_request(
            Circuit::CheckMutualMatch,
            computation_offset,
            check_args(*match_session, session_key, unix_timestamp),
            session_key,
        ),
{
    let mut args: Vec<Argument> = Vec::new();
    args.push(Argument::PlaintextU128(match_session.nonce));
    args.push(Argument::Account(session_key, ENCRYPTED_DATA_OFFSET, ENCRYPTED_DATA_LEN));
    args.push(Argument::PlaintextU64(timestamp_to_u64(unix_timestamp)));
    assert(args@ =~= check_args(*match_session, session_key, unix_timestamp));
    request_for_session(Circuit::CheckMutualMatch, computation_offset, args, session_key)
}

/// Tells why a failed check found no match.
pub fn reason_of(session_status: u8) -> (reason: NoMatchReason)
    ensures
        reason == no_match_reason(session_status),
{
    match SessionStatus::from_code(session_status) {
        Some(SessionStatus::Pending) => NoMatchReason::Pending,
        Some(SessionStatus::NoAction) => NoMatchReason::NoAction,
        _ => NoMatchReason::Unknown,
    }
}

/// Applies the engine's answer to a match check: the record is finalized,
/// whatever the verdict, and the caller is told the verdict. A failure leaves
/// the record as it was, not finalized by this call.
pub fn check_mutual_match_callback(
    match_session: &mut MatchPairSession,
    output: ComputationOutputs<CheckMutualMatchOutput>,
    unix_timestamp: i64,
) -> (r: Result<MatchSignal, ErrorCode>)
    ensures
        match output {
            ComputationOutputs::Success(out) => {
                &&& r == Ok::<MatchSignal, ErrorCode>(
                    match_signal(*old(match_session), out, unix_timestamp),
                )
                &&& *final(match_session) == session_after_check(*old(match_session), out)
            },
            ComputationOutputs::Failure => {
                &&& r == Err::<MatchSignal, ErrorCode>(ErrorCode::AbortedComputation)
                &&& *final(match_session) == *old(match_session)
            },
        },
        old(match_session).is_finalized ==> final(match_session).is_finalized,
{
    let match_result = match output {
        ComputationOutputs::Success(out) => out,
        ComputationOutputs::Failure => {
            return Err(ErrorCode::AbortedComputation);
        },
    };
    match_session.is_finalized = true;
    if match_result.is_mutual_match {
        match_session.match_found = true;
        Ok(
            MatchSignal::MutualMatchFound(
                MutualMatchFoundEvent {
                    session_id: match_session.session_id,
                    user_a: match_session.user_a,
                    user_b: match_session.user_b,
                    matched_at: unix_timestamp,
                    can_start_conversation: true,
                },
            ),
        )
    } else {
        match_session.match_found = false;
        Ok(
            MatchSignal::NoMutualMatch(
                NoMutualMatchEvent {
                    session_id: match_session.session_id,
                    finalized_at: unix_timestamp,
                },
                reason_of(match_result.session_status),
            ),
        )
    }
}

} // verus!

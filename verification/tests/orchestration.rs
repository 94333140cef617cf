use encrypted_match::computation::Argument;
use encrypted_match::computation::CallbackAccount;
use encrypted_match::computation::CheckMutualMatchOutput;
use encrypted_match::computation::Circuit;
use encrypted_match::computation::ComputationOutputs;
use encrypted_match::computation::EncryptedSession;
use encrypted_match::computation::InitMatchSessionOutput;
use encrypted_match::computation::SubmitLikeOutput;
use encrypted_match::computation::request_for_session;
use encrypted_match::errors::ErrorCode;
use encrypted_match::keys::Pubkey;
use encrypted_match::program::check_mutual_match;
use encrypted_match::program::check_mutual_match_callback;
use encrypted_match::program::init_match_session;
use encrypted_match::program::init_match_session_callback;
use encrypted_match::program::reason_of;
use encrypted_match::program::submit_like;
use encrypted_match::program::submit_like_callback;
use encrypted_match::program::timestamp_to_u64;
use encrypted_match::program::user_id_of;
use encrypted_match::program::LikeSignal;
use encrypted_match::program::LikeSubmittedEvent;
use encrypted_match::program::MatchPairSession;
use encrypted_match::program::MatchSessionCreatedEvent;
use encrypted_match::program::MatchSignal;
use encrypted_match::program::MutualInterestDetectedEvent;
use encrypted_match::program::MutualMatchFoundEvent;
use encrypted_match::program::NoMatchReason;
use encrypted_match::program::NoMutualMatchEvent;
use encrypted_match::program::ENCRYPTED_DATA_LEN;
use encrypted_match::program::ENCRYPTED_DATA_OFFSET;

fn key(b: u8) -> Pubkey {
    Pubkey { bytes: [b; 32] }
}

fn counting_key() -> Pubkey {
    let mut bytes = [0u8; 32];
    let mut i = 0;
    while i < 32 {
        bytes[i] = (i as u8) + 1;
        i += 1;
    }
    Pubkey { bytes }
}

fn cipher(b: u8) -> [[u8; 32]; 6] {
    [[b; 32]; 6]
}

fn record() -> MatchPairSession {
    MatchPairSession {
        session_id: 77,
        user_a: key(1),
        user_b: key(2),
        encrypted_match_data: cipher(9),
        nonce: 1234,
        created_at: 100,
        last_updated: 150,
        is_finalized: false,
        match_found: false,
        bump: 253,
    }
}

#[test]
fn addresses_compare_by_their_bytes() {
    assert_eq!(key(1), key(1));
    assert_ne!(key(1), key(2));
    let mut k = key(1);
    k.bytes[31] = 0;
    assert_ne!(k, key(1));
}

#[test]
fn user_id_is_the_first_eight_bytes_least_significant_first() {
    assert_eq!(user_id_of(&counting_key()), 0x0807_0605_0403_0201);
    assert_eq!(user_id_of(&key(0)), 0);
    assert_eq!(user_id_of(&key(255)), u64::MAX);
    let mut k = key(0);
    k.bytes[0] = 1;
    assert_eq!(user_id_of(&k), 1);
    let mut k = key(0);
    k.bytes[7] = 1;
    assert_eq!(user_id_of(&k), 1u64 << 56);
    let mut k = key(0);
    k.bytes[8] = 1;
    assert_eq!(user_id_of(&k), 0);
}

#[test]
fn timestamps_keep_their_bits() {
    assert_eq!(timestamp_to_u64(0), 0);
    assert_eq!(timestamp_to_u64(1_700_000_000), 1_700_000_000);
    assert_eq!(timestamp_to_u64(i64::MAX), 0x7fff_ffff_ffff_ffff);
    assert_eq!(timestamp_to_u64(-1), u64::MAX);
    assert_eq!(timestamp_to_u64(i64::MIN), 0x8000_0000_0000_0000);
}

#[test]
fn definition_offsets_come_from_the_instruction_names() {
    assert_eq!(Circuit::InitMatchSession.name(), "init_match_session");
    assert_eq!(Circuit::SubmitLike.name(), "submit_like");
    assert_eq!(Circuit::CheckMutualMatch.name(), "check_mutual_match");
    assert_eq!(Circuit::CalculateCompatibility.name(), "calculate_compatibility");
    assert_eq!(Circuit::InitMatchSession.comp_def_offset(), 1293418628);
    assert_eq!(Circuit::SubmitLike.comp_def_offset(), 2357446335);
    assert_eq!(Circuit::CheckMutualMatch.comp_def_offset(), 676883467);
    assert_eq!(Circuit::CalculateCompatibility.comp_def_offset(), 1600173633);
}

#[test]
fn a_request_reports_to_its_session_alone() {
    let r = request_for_session(Circuit::SubmitLike, 5, vec![Argument::PlaintextU64(1)], key(8));
    assert_eq!(r.computation_offset, 5);
    assert_eq!(r.circuit, Circuit::SubmitLike);
    assert_eq!(r.comp_def_offset, 2357446335);
    assert_eq!(r.args, vec![Argument::PlaintextU64(1)]);
    assert_eq!(r.callback_accounts, vec![CallbackAccount { pubkey: key(8), is_writable: true }]);
}

#[test]
fn layout_of_a_stored_session() {
    assert_eq!(MatchPairSession::INIT_SPACE, 299);
    assert_eq!(ENCRYPTED_DATA_OFFSET, 80);
    assert_eq!(ENCRYPTED_DATA_LEN, 192);
}

#[test]
fn opening_a_session() {
    let (rec, req, ev) = init_match_session(key(8), 250, 1_000, 42, 77, counting_key(), key(2), 99);
    assert_eq!(
        rec,
        MatchPairSession {
            session_id: 77,
            user_a: counting_key(),
            user_b: key(2),
            encrypted_match_data: cipher(0),
            nonce: 99,
            created_at: 1_000,
            last_updated: 1_000,
            is_finalized: false,
            match_found: false,
            bump: 250,
        }
    );
    assert_eq!(req.computation_offset, 42);
    assert_eq!(req.circuit, Circuit::InitMatchSession);
    assert_eq!(req.comp_def_offset, 1293418628);
    assert_eq!(
        req.args,
        vec![
            Argument::PlaintextU128(99),
            Argument::PlaintextU64(0x0807_0605_0403_0201),
            Argument::PlaintextU64(0x0202_0202_0202_0202),
            Argument::PlaintextU64(1_000),
        ]
    );
    assert_eq!(req.callback_accounts, vec![CallbackAccount { pubkey: key(8), is_writable: true }]);
    assert_eq!(
        ev,
        MatchSessionCreatedEvent {
            session_id: 77,
            user_a: counting_key(),
            user_b: key(2),
            created_at: 1_000,
        }
    );
}

#[test]
fn opening_a_session_before_the_epoch() {
    let (rec, req, _) = init_match_session(key(8), 0, -2, 0, 1, key(1), key(2), 0);
    assert_eq!(rec.created_at, -2);
    assert_eq!(req.args[3], Argument::PlaintextU64(u64::MAX - 1));
}

#[test]
fn init_callback_stores_the_ciphertext() {
    let mut rec = record();
    let out = InitMatchSessionOutput { session: EncryptedSession { nonce: 5, ciphertexts: cipher(3) } };
    let r = init_match_session_callback(&mut rec, ComputationOutputs::Success(out));
    assert_eq!(r, Ok(()));
    assert_eq!(rec, MatchPairSession { encrypted_match_data: cipher(3), nonce: 5, ..record() });
}

#[test]
fn init_callback_failure_changes_nothing() {
    let mut rec = record();
    let r = init_match_session_callback(&mut rec, ComputationOutputs::Failure);
    assert_eq!(r, Err(ErrorCode::AbortedComputation));
    assert_eq!(rec, record());
}

#[test]
fn only_participants_may_submit() {
    let rec = record();
    let e = [1u8; 32];
    let r = submit_like(&rec, key(8), key(3), 1, e, e, e, e, e, 7);
    assert_eq!(r, Err(ErrorCode::UnauthorizedUser));
    assert!(submit_like(&rec, key(8), key(1), 1, e, e, e, e, e, 7).is_ok());
    assert!(submit_like(&rec, key(8), key(2), 1, e, e, e, e, e, 7).is_ok());
}

#[test]
fn like_request_carries_the_action_and_the_stored_session() {
    let rec = record();
    let r = submit_like(&rec, key(8), key(2), 66, [11; 32], [12; 32], [13; 32], [14; 32], [15; 32], 7);
    let req = match r {
        Ok(req) => req,
        Err(e) => panic!("refused: {:?}", e),
    };
    assert_eq!(req.computation_offset, 66);
    assert_eq!(req.circuit, Circuit::SubmitLike);
    assert_eq!(req.comp_def_offset, 2357446335);
    assert_eq!(
        req.args,
        vec![
            Argument::ArcisPubkey([15; 32]),
            Argument::PlaintextU128(7),
            Argument::EncryptedU8([11; 32]),
            Argument::EncryptedU8([12; 32]),
            Argument::EncryptedU8([13; 32]),
            Argument::EncryptedU8([14; 32]),
            Argument::PlaintextU128(1234),
            Argument::Account(key(8), 80, 192),
        ]
    );
    assert_eq!(req.callback_accounts, vec![CallbackAccount { pubkey: key(8), is_writable: true }]);
}

fn like_output(status_flag: u8) -> ComputationOutputs<SubmitLikeOutput> {
    ComputationOutputs::Success(SubmitLikeOutput {
        session: EncryptedSession { nonce: 500, ciphertexts: cipher(4) },
        status_flag,
    })
}

fn after_like() -> MatchPairSession {
    MatchPairSession { encrypted_match_data: cipher(4), nonce: 500, last_updated: 200, ..record() }
}

#[test]
fn like_callback_recorded() {
    let mut rec = record();
    let r = submit_like_callback(&mut rec, like_output(1), 200);
    assert_eq!(r, Ok(LikeSignal::LikeSubmitted(LikeSubmittedEvent { session_id: 77, timestamp: 200 })));
    assert_eq!(rec, after_like());
}

#[test]
fn like_callback_mutual_interest() {
    let mut rec = record();
    let r = submit_like_callback(&mut rec, like_output(2), 200);
    assert_eq!(
        r,
        Ok(LikeSignal::MutualInterestDetected(MutualInterestDetectedEvent {
            session_id: 77,
            timestamp: 200,
        }))
    );
    assert_eq!(rec, after_like());
    assert!(!rec.is_finalized);
}

#[test]
fn like_callback_not_processed() {
    let mut rec = record();
    let r = submit_like_callback(&mut rec, like_output(0), 200);
    assert_eq!(r, Ok(LikeSignal::NotProcessed));
    assert_eq!(rec, after_like());
    let mut rec = record();
    let r = submit_like_callback(&mut rec, like_output(3), 200);
    assert_eq!(r, Ok(LikeSignal::NotProcessed));
    assert_eq!(rec, after_like());
}

#[test]
fn like_callback_failure_changes_nothing() {
    let mut rec = record();
    let r = submit_like_callback(&mut rec, ComputationOutputs::Failure, 200);
    assert_eq!(r, Err(ErrorCode::AbortedComputation));
    assert_eq!(rec, record());
}

#[test]
fn check_request() {
    let rec = record();
    let req = check_mutual_match(&rec, key(8), 300, 67);
    assert_eq!(req.computation_offset, 67);
    assert_eq!(req.circuit, Circuit::CheckMutualMatch);
    assert_eq!(req.comp_def_offset, 676883467);
    assert_eq!(
        req.args,
        vec![
            Argument::PlaintextU128(1234),
            Argument::Account(key(8), 80, 192),
            Argument::PlaintextU64(300),
        ]
    );
    assert_eq!(req.callback_accounts, vec![CallbackAccount { pubkey: key(8), is_writable: true }]);
}

fn check_output(is_mutual_match: bool, session_status: u8) -> ComputationOutputs<CheckMutualMatchOutput> {
    ComputationOutputs::Success(CheckMutualMatchOutput {
        is_mutual_match,
        session_status,
        match_timestamp: if is_mutual_match { 300 } else { 0 },
    })
}

#[test]
fn check_callback_match() {
    let mut rec = record();
    let r = check_mutual_match_callback(&mut rec, check_output(true, 1), 310);
    assert_eq!(
        r,
        Ok(MatchSignal::MutualMatchFound(MutualMatchFoundEvent {
            session_id: 77,
            user_a: key(1),
            user_b: key(2),
            matched_at: 310,
            can_start_conversation: true,
        }))
    );
    assert_eq!(rec, MatchPairSession { is_finalized: true, match_found: true, ..record() });
}

#[test]
fn check_callback_pending_finalizes_too() {
    let mut rec = record();
    let r = check_mutual_match_callback(&mut rec, check_output(false, 0), 310);
    assert_eq!(
        r,
        Ok(MatchSignal::NoMutualMatch(
            NoMutualMatchEvent { session_id: 77, finalized_at: 310 },
            NoMatchReason::Pending,
        ))
    );
    assert_eq!(rec, MatchPairSession { is_finalized: true, match_found: false, ..record() });
}

#[test]
fn check_callback_no_action() {
    let mut rec = record();
    let r = check_mutual_match_callback(&mut rec, check_output(false, 2), 310);
    assert_eq!(
        r,
        Ok(MatchSignal::NoMutualMatch(
            NoMutualMatchEvent { session_id: 77, finalized_at: 310 },
            NoMatchReason::NoAction,
        ))
    );
    assert_eq!(rec, MatchPairSession { is_finalized: true, match_found: false, ..record() });
}

#[test]
fn check_callback_failure_changes_nothing() {
    let mut rec = record();
    let r = check_mutual_match_callback(&mut rec, ComputationOutputs::Failure, 310);
    assert_eq!(r, Err(ErrorCode::AbortedComputation));
    assert_eq!(rec, record());
    assert!(!rec.is_finalized);
}

#[test]
fn a_finalized_record_stays_finalized() {
    let mut rec = MatchPairSession { is_finalized: true, match_found: false, ..record() };
    let _ = submit_like_callback(&mut rec, like_output(2), 200);
    assert!(rec.is_finalized);
    assert!(!rec.match_found);
    let out = InitMatchSessionOutput { session: EncryptedSession { nonce: 5, ciphertexts: cipher(3) } };
    let _ = init_match_session_callback(&mut rec, ComputationOutputs::Success(out));
    assert!(rec.is_finalized);
    let _ = check_mutual_match_callback(&mut rec, check_output(true, 1), 400);
    assert!(rec.is_finalized);
    assert!(rec.match_found);
    let _ = check_mutual_match_callback(&mut rec, ComputationOutputs::Failure, 500);
    assert!(rec.is_finalized);
    assert!(rec.match_found);
}

#[test]
fn reasons_for_no_match() {
    assert_eq!(reason_of(0), NoMatchReason::Pending);
    assert_eq!(reason_of(2), NoMatchReason::NoAction);
    assert_eq!(reason_of(1), NoMatchReason::Unknown);
    assert_eq!(reason_of(3), NoMatchReason::Unknown);
    assert_eq!(reason_of(255), NoMatchReason::Unknown);
    assert_eq!(NoMatchReason::Pending.description(), "Pending - only one user has acted");
    assert_eq!(NoMatchReason::NoAction.description(), "No match - both users passed or no actions");
    assert_eq!(NoMatchReason::Unknown.description(), "Unknown status");
}

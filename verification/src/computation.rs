//! The boundary to the confidential computation engine.
//!
//! The engine is a black box. A computation is queued with a
//! [`ComputationRequest`] and answered later, exactly once, with a
//! [`ComputationOutputs`]: the circuit's output or a failure. Ciphertexts pass
//! through this library unread.

use vstd::prelude::*;
use crate::keys::Pubkey;

verus! {

/// Number of ciphertext blocks in an encrypted session: one per field of the
/// confidential state.
pub const SESSION_CIPHERTEXTS: usize = 6;

/// The confidential instructions the engine can run for this program.
#[derive(Clone, Copy, Debug, PartialEq, Eq, Structural)]
pub enum Circuit {
    InitMatchSession,
    SubmitLike,
    CheckMutualMatch,
    CalculateCompatibility,
}

/// The offset under which the engine files the definition of the
/// confidential instruction called `name`.
pub uninterp spec fn comp_def_offset_of(name: Seq<char>) -> u32;

/// `arcium_anchor::comp_def_offset`: the first four bytes, read as a
/// little-endian number, of the SHA-256 digest of the instruction's name. The
/// contract only names that number.
#[verifier::external_body]
fn comp_def_offset(conf_ix_name: &str) -> (offset: u32)
    ensures
        offset == comp_def_offset_of(conf_ix_name@),
{
    arcium_anchor::comp_def_offset(conf_ix_name)
}

impl Circuit {
    /// The instruction's name.
    pub open spec fn name_text(self) -> Seq<char> {
        match self {
            Circuit::InitMatchSession => "init_match_session"@,
            Circuit::SubmitLike => "submit_like"@,
            Circuit::CheckMutualMatch => "check_mutual_match"@,
            Circuit::CalculateCompatibility => "calculate_compatibility"@,
        }
    }

    /// The instruction's name.
    pub fn name(&self) -> (name: &'static str)
        ensures
            name@ == self.name_text(),
    {
        match self {
            Circuit::InitMatchSession => "init_match_session",
            Circuit::SubmitLike => "submit_like",
            Circuit::CheckMutualMatch => "check_mutual_match",
            Circuit::CalculateCompatibility => "calculate_compatibility",
        }
    }

    /// The offset of the instruction's definition.
    pub fn comp_def_offset(&self) -> (offset: u32)
        ensures
            offset == comp_def_offset_of(self.name_text()),
    {
        comp_def_offset(self.name())
    }
}

/// One argument handed to a confidential instruction.
#[derive(Clone, Copy, Debug, PartialEq, Eq)]
pub enum Argument {
    PlaintextU64(u64),
    PlaintextU128(u128),
    /// One encrypted value.
    EncryptedU8([u8; 32]),
    /// The public key the encrypted values were encrypted for.
    ArcisPubkey([u8; 32]),
    /// A range of bytes of a stored account: address, offset, length.
    Account(Pubkey, u32, u32),
}

/// An account that the engine hands back to the callback.
#[derive(Clone, Copy, Debug, PartialEq, Eq)]
pub struct CallbackAccount {
    pub pubkey: Pubkey,
    pub is_writable: bool,
}

/// Everything needed to queue one computation.
#[derive(Clone, Debug, PartialEq, Eq)]
pub struct ComputationRequest {
    pub computation_offset: u64,
    pub circuit: Circuit,
    pub comp_def_offset: u32,
    pub args: Vec<Argument>,
    pub callback_accounts: Vec<CallbackAccount>,
}

/// Mathematical content of a [`ComputationRequest`].
pub struct ComputationRequestView {
    pub computation_offset: u64,
    pub circuit: Circuit,
    pub comp_def_offset: u32,
    pub args: Seq<Argument>,
    pub callback_accounts: Seq<CallbackAccount>,
}

impl View for ComputationRequest {
    type V = ComputationRequestView;

    open spec fn view(&self) -> ComputationRequestView {
        ComputationRequestView {
            computation_offset: self.computation_offset,
            circuit: self.circuit,
            comp_def_offset: self.comp_def_offset,
            args: self.args@,
            callback_accounts: self.callback_accounts@,
        }
    }
}

/// The accounts handed back to the callback of a computation on the session
/// stored at `session_key`: that record alone, writable.
pub open spec fn session_callback(session_key: Pubkey) -> Seq<CallbackAccount> {
    seq![CallbackAccount { pubkey: session_key, is_writable: true }]
}

/// The request that runs `circuit` with `args` and reports to the session
/// stored at `session_key`.
pub open spec fn session_request(
    circuit: Circuit,
    computation_offset: u64,
    args: Seq<Argument>,
    session_key: Pubkey,
) -> ComputationRequestView {
    ComputationRequestView {
        computation_offset,
        circuit,
        comp_def_offset: comp_def_offset_of(circuit.name_text()),
        args,
        callback_accounts: session_callback(session_key),
    }
}

/// Builds the request for a computation on one session. The session's key is
/// the only callback account, which ties the eventual answer to that record
/// and to no other.
pub fn request_for_session(
    circuit: Circuit,
    computation_offset: u64,
    args: Vec<Argument>,
    session_key: Pubkey,
) -> (request: ComputationRequest)
    ensures
        request@ == session_request(circuit, computation_offset, args@, session_key),
{
    let mut callback_accounts: Vec<CallbackAccount> = Vec::new();
    callback_accounts.push(CallbackAccount { pubkey: session_key, is_writable: true });
    let request = ComputationRequest {
        computation_offset,
        circuit,
        comp_def_offset: circuit.comp_def_offset(),
        args,
        callback_accounts,
    };
    assert(request.callback_accounts@ =~= session_callback(session_key));
    request
}

/// How a computation ended: with the circuit's output, or not at all.
#[derive(Debug, PartialEq, Eq)]
pub enum ComputationOutputs<O> {
    Success(O),
    Failure,
}

/// A session's confidential state as the engine encrypted it. Only the engine
/// can read or produce one.
#[derive(Clone, Copy, Debug, PartialEq, Eq)]
pub struct EncryptedSession {
    pub nonce: u128,
    pub ciphertexts: [[u8; 32]; 6],
}

/// Output of the instruction that starts a session.
#[derive(Clone, Copy, Debug, PartialEq, Eq)]
pub struct InitMatchSessionOutput {
    pub session: EncryptedSession,
}

/// Output of the instruction that applies a like: the re-encrypted session
/// and the revealed status number.
#[derive(Clone, Copy, Debug, PartialEq, Eq)]
pub struct SubmitLikeOutput {
    pub session: EncryptedSession,
    pub status_flag: u8,
}

/// Output of the instruction that checks for a match: all revealed.
#[derive(Clone, Copy, Debug, PartialEq, Eq)]
pub struct CheckMutualMatchOutput {
    pub is_mutual_match: bool,
    pub session_status: u8,
    pub match_timestamp: u64,
}

} // verus!

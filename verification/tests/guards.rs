use settlement_engine::attestation::{check_attestation, ed25519_program_id, CompanionInstruction};
use settlement_engine::errors::{EngineError, QuoteError, RfqError};
use settlement_engine::config::Config;
use settlement_engine::quote::{CommitGuard, GuardRegistry};
use settlement_engine::trackers::{FacilitatorRewardTracker, RewardRegistry};

const GUARD_KEY: [u8; 32] = [11u8; 32];
const HASH: [u8; 32] = [22u8; 32];
const SIG: [u8; 64] = [33u8; 64];

/// A well-formed companion payload: one signature, all offsets referencing
/// this instruction's own data, a 32-byte message.
fn payload(signer: &[u8; 32], msg: &[u8; 32], sig: &[u8; 64]) -> Vec<u8> {
    let mut d = vec![0u8; 144];
    d[0] = 1;
    d[2..4].copy_from_slice(&16u16.to_le_bytes());
    d[4..6].copy_from_slice(&0xFFFFu16.to_le_bytes());
    d[6..8].copy_from_slice(&80u16.to_le_bytes());
    d[8..10].copy_from_slice(&0xFFFFu16.to_le_bytes());
    d[10..12].copy_from_slice(&112u16.to_le_bytes());
    d[12..14].copy_from_slice(&32u16.to_le_bytes());
    d[14..16].copy_from_slice(&0xFFFFu16.to_le_bytes());
    d[16..80].copy_from_slice(sig);
    d[80..112].copy_from_slice(signer);
    d[112..144].copy_from_slice(msg);
    d
}

fn companion(data: Vec<u8>) -> Option<CompanionInstruction> {
    Some(CompanionInstruction { program_id: ed25519_program_id(), data })
}

#[test]
fn attestation_accepts_well_formed_payload() {
    let c = companion(payload(&GUARD_KEY, &HASH, &SIG));
    assert_eq!(check_attestation(&c, &GUARD_KEY, &HASH, &SIG), Ok(()));
}

#[test]
fn attestation_requires_companion_instruction() {
    assert_eq!(
        check_attestation(&None, &GUARD_KEY, &HASH, &SIG),
        Err(QuoteError::NoEd25519Instruction)
    );
}

#[test]
fn attestation_requires_native_program() {
    let c = Some(CompanionInstruction {
        program_id: [1u8; 32],
        data: payload(&GUARD_KEY, &HASH, &SIG),
    });
    assert_eq!(
        check_attestation(&c, &GUARD_KEY, &HASH, &SIG),
        Err(QuoteError::InvalidEd25519Program)
    );
}

#[test]
fn attestation_rejects_short_payload() {
    let c = companion(vec![1u8; 100]);
    assert_eq!(
        check_attestation(&c, &GUARD_KEY, &HASH, &SIG),
        Err(QuoteError::InvalidEd25519Data)
    );
}

#[test]
fn attestation_rejects_signature_count() {
    let mut d = payload(&GUARD_KEY, &HASH, &SIG);
    d[0] = 2;
    assert_eq!(
        check_attestation(&companion(d), &GUARD_KEY, &HASH, &SIG),
        Err(QuoteError::InvalidSignatureCount)
    );
}

#[test]
fn attestation_rejects_cross_instruction_reference() {
    // a signature sourced from another instruction of the transaction
    let mut d = payload(&GUARD_KEY, &HASH, &SIG);
    d[4..6].copy_from_slice(&0u16.to_le_bytes());
    assert_eq!(
        check_attestation(&companion(d), &GUARD_KEY, &HASH, &SIG),
        Err(QuoteError::InvalidOffset)
    );
    let mut d2 = payload(&GUARD_KEY, &HASH, &SIG);
    d2[14..16].copy_from_slice(&3u16.to_le_bytes());
    assert_eq!(
        check_attestation(&companion(d2), &GUARD_KEY, &HASH, &SIG),
        Err(QuoteError::InvalidOffset)
    );
}

#[test]
fn attestation_rejects_wrong_message_size() {
    let mut d = payload(&GUARD_KEY, &HASH, &SIG);
    d[12..14].copy_from_slice(&31u16.to_le_bytes());
    assert_eq!(
        check_attestation(&companion(d), &GUARD_KEY, &HASH, &SIG),
        Err(QuoteError::InvalidMessageSize)
    );
}

#[test]
fn attestation_rejects_out_of_bounds_offsets() {
    let mut d = payload(&GUARD_KEY, &HASH, &SIG);
    d[2..4].copy_from_slice(&200u16.to_le_bytes());
    assert_eq!(
        check_attestation(&companion(d), &GUARD_KEY, &HASH, &SIG),
        Err(QuoteError::InvalidEd25519Data)
    );
}

#[test]
fn attestation_rejects_unauthorized_signer() {
    let c = companion(payload(&[12u8; 32], &HASH, &SIG));
    assert_eq!(
        check_attestation(&c, &GUARD_KEY, &HASH, &SIG),
        Err(QuoteError::UnauthorizedSigner)
    );
}

#[test]
fn attestation_binds_exact_message() {
    let mut other = HASH;
    other[31] ^= 1;
    let c = companion(payload(&GUARD_KEY, &other, &SIG));
    assert_eq!(
        check_attestation(&c, &GUARD_KEY, &HASH, &SIG),
        Err(QuoteError::CommitHashMismatch)
    );
}

#[test]
fn attestation_binds_exact_signature() {
    let mut other = SIG;
    other[0] ^= 1;
    let c = companion(payload(&GUARD_KEY, &HASH, &other));
    assert_eq!(
        check_attestation(&c, &GUARD_KEY, &HASH, &SIG),
        Err(QuoteError::LiquidityProofSignatureMismatch)
    );
}

#[test]
fn guard_registry_rejects_hash_reuse() {
    let mut reg = GuardRegistry::new();
    let g1 = CommitGuard { commit_hash: HASH, quote: [1u8; 32], committed_at: 5 };
    assert!(reg.insert(g1).is_ok());
    assert_eq!(reg.len(), 1);
    assert!(reg.contains(&HASH));
    // the same hash from a different quote record still collides
    let g2 = CommitGuard { commit_hash: HASH, quote: [2u8; 32], committed_at: 9 };
    assert_eq!(reg.insert(g2), Err(QuoteError::DuplicateCommitHash));
    assert_eq!(reg.len(), 1);
    let mut fresh = HASH;
    fresh[0] ^= 1;
    let g3 = CommitGuard { commit_hash: fresh, quote: [2u8; 32], committed_at: 9 };
    assert!(reg.insert(g3).is_ok());
    assert_eq!(reg.len(), 2);
}

#[test]
fn reward_registry_rejects_duplicate_claim() {
    let mut reg = RewardRegistry::new();
    let claim = FacilitatorRewardTracker {
        rfq: [1u8; 32],
        facilitator: [2u8; 32],
        usdc_mint: [3u8; 32],
        amount: 7,
        claimed_at: 10,
    };
    assert!(reg.insert(claim).is_ok());
    assert!(reg.contains(&[1u8; 32], &[2u8; 32]));
    let again = FacilitatorRewardTracker { amount: 9, claimed_at: 20, ..claim };
    assert_eq!(reg.insert(again), Err(RfqError::DuplicateRewardClaim));
    // the same facilitator on another RFQ is a distinct claim
    let other_rfq = FacilitatorRewardTracker { rfq: [4u8; 32], ..claim };
    assert!(reg.insert(other_rfq).is_ok());
}

#[test]
fn config_update_is_admin_gated() {
    let admin = [1u8; 32];
    let mut cfg = Config::new(admin, [2u8; 32], [3u8; 32], [4u8; 32]);
    let intruder = [9u8; 32];
    assert_eq!(
        cfg.update(&intruder, None, Some([7u8; 32]), None, None),
        Err(EngineError::Unauthorized)
    );
    assert_eq!(cfg.usdc_mint, [2u8; 32]);
    assert_eq!(cfg.update(&admin, None, Some([7u8; 32]), None, Some([8u8; 32])), Ok(()));
    assert_eq!(cfg.usdc_mint, [7u8; 32]);
    assert_eq!(cfg.liquidity_guard, [8u8; 32]);
    assert_eq!(cfg.admin, admin);
}

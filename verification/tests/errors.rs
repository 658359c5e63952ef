use settlement_engine::attestation::{ed25519_program_id, CompanionInstruction};
use settlement_engine::config::Config;
use settlement_engine::errors::RfqError;
use settlement_engine::lifecycle::{
    commit_quote, complete_settlement, create_rfq, open_rfq, refund_quote_bonds, reveal_quote,
    select_quote, withdraw_facilitator_reward, RfqParams,
};
use settlement_engine::quote::{GuardRegistry, Quote};
use settlement_engine::rfq::{Key, Rfq, RfqState};
use settlement_engine::settlement::Settlement;
use settlement_engine::trackers::{RewardRegistry, SlashedBondsTracker};

const MAKER: Key = [1u8; 32];
const TAKER_A: Key = [2u8; 32];
const TAKER_B: Key = [3u8; 32];
const GUARD_KEY: Key = [4u8; 32];
const RFQ_KEY: Key = [8u8; 32];
const VAULT: Key = [9u8; 32];
const MAKER_PAY: Key = [10u8; 32];
const FACILITATOR: Key = [20u8; 32];

fn config() -> Config {
    Config::new([5u8; 32], [6u8; 32], [7u8; 32], GUARD_KEY)
}

fn params() -> RfqParams {
    RfqParams {
        base_mint: [11u8; 32],
        quote_mint: [12u8; 32],
        bond_amount: 100,
        base_amount: 1000,
        min_quote_amount: 500,
        fee_amount: 10,
        facilitator_fee_bps: 0,
        commit_ttl_secs: 60,
        reveal_ttl_secs: 60,
        selection_ttl_secs: 60,
        fund_ttl_secs: 60,
    }
}

fn payload(signer: &[u8; 32], msg: &[u8; 32], sig: &[u8; 64]) -> Vec<u8> {
    let mut d = vec![0u8; 144];
    d[0] = 1;
    d[2..4].copy_from_slice(&16u16.to_le_bytes());
    d[4..6].copy_from_slice(&0xFFFFu16.to_le_bytes());
    d[6..8].copy_from_slice(&80u16.to_le_bytes());
    d[8..10].copy_from_slice(&0xFFFFu16.to_le_bytes());
    d[10..12].copy_from_slice(&112u16.to_le_bytes());
    d[12..14].copy_from_slice(&32u16.to_le_bytes());
    d[14..16].copy_from_slice(&0xFFFFu16.to_le_bytes());
    d[16..80].copy_from_slice(sig);
    d[80..112].copy_from_slice(signer);
    d[112..144].copy_from_slice(msg);
    d
}

fn attested(msg: &[u8; 32], sig: &[u8; 64]) -> Option<CompanionInstruction> {
    Some(CompanionInstruction {
        program_id: ed25519_program_id(),
        data: payload(&GUARD_KEY, msg, sig),
    })
}

fn honest_hash(salt: &[u8; 64], taker: &Key, amount: u64) -> [u8; 32] {
    let mut buf: Vec<u8> = Vec::new();
    buf.extend_from_slice(salt);
    buf.extend_from_slice(&RFQ_KEY);
    buf.extend_from_slice(taker);
    buf.extend_from_slice(&params().quote_mint);
    buf.extend_from_slice(&amount.to_le_bytes());
    buf.extend_from_slice(&100u64.to_le_bytes());
    buf.extend_from_slice(&10u64.to_le_bytes());
    solana_program::hash::hash(&buf).to_bytes()
}

/// An RFQ with taker A committed-only and taker B committed and revealed.
fn revealed_state() -> (Rfq, Quote, Quote, SlashedBondsTracker) {
    let cfg = config();
    let mut registry = GuardRegistry::new();
    let mut rfq = create_rfq(RFQ_KEY, MAKER, MAKER_PAY, VAULT, &params(), 0).unwrap();
    let (tracker, _) = open_rfq(&mut rfq, &cfg, &MAKER, 0).unwrap();
    let sig = [1u8; 64];
    let hash_a = [50u8; 32];
    let (quote_a, _, _) = commit_quote(
        &mut rfq,
        &mut registry,
        &cfg,
        &attested(&hash_a, &sig),
        hash_a,
        sig,
        TAKER_A,
        [60u8; 32],
        [61u8; 32],
        0,
    )
    .unwrap();
    let salt = [51u8; 64];
    let hash_b = honest_hash(&salt, &TAKER_B, 600);
    let (mut quote_b, _, _) = commit_quote(
        &mut rfq,
        &mut registry,
        &cfg,
        &attested(&hash_b, &sig),
        hash_b,
        sig,
        TAKER_B,
        [62u8; 32],
        [63u8; 32],
        10,
    )
    .unwrap();
    reveal_quote(&mut rfq, &mut quote_b, &TAKER_B, &salt, 600, 70).unwrap();
    (rfq, quote_a, quote_b, tracker)
}

fn select_b(rfq: &mut Rfq, quote_b: &mut Quote) -> Settlement {
    let (settlement, _) = select_quote(
        rfq,
        quote_b,
        &MAKER,
        [67u8; 32],
        [64u8; 32],
        [65u8; 32],
        [66u8; 32],
        125,
    )
    .unwrap();
    settlement
}

#[test]
fn selection_errors() {
    let (mut rfq, mut quote_a, mut quote_b, _tracker) = revealed_state();
    // only the maker selects
    assert_eq!(
        select_quote(
            &mut rfq,
            &mut quote_b,
            &TAKER_B,
            [67u8; 32],
            [64u8; 32],
            [65u8; 32],
            [66u8; 32],
            125,
        )
        .err(),
        Some(RfqError::Unauthorized)
    );
    // the selection window closes at the selection deadline (t = 180)
    assert_eq!(
        select_quote(
            &mut rfq,
            &mut quote_b,
            &MAKER,
            [67u8; 32],
            [64u8; 32],
            [65u8; 32],
            [66u8; 32],
            181,
        )
        .err(),
        Some(RfqError::SelectionTooLate)
    );
    // an unrevealed quote cannot win
    assert_eq!(
        select_quote(
            &mut rfq,
            &mut quote_a,
            &MAKER,
            [67u8; 32],
            [64u8; 32],
            [65u8; 32],
            [66u8; 32],
            125,
        )
        .err(),
        Some(RfqError::InvalidQuoteState)
    );
    // selection happens exactly once
    select_b(&mut rfq, &mut quote_b);
    assert_eq!(
        select_quote(
            &mut rfq,
            &mut quote_a,
            &MAKER,
            [67u8; 32],
            [64u8; 32],
            [65u8; 32],
            [66u8; 32],
            126,
        )
        .err(),
        Some(RfqError::InvalidRfqState)
    );
}

#[test]
fn completion_errors() {
    let (mut rfq, quote_a, mut quote_b, mut tracker) = revealed_state();
    let mut settlement = select_b(&mut rfq, &mut quote_b);
    // only the winning taker completes
    assert_eq!(
        complete_settlement(
            &mut rfq,
            &mut settlement,
            &quote_b,
            &mut tracker,
            &TAKER_A,
            [68u8; 32],
            [69u8; 32],
            150,
        )
        .err(),
        Some(RfqError::Unauthorized)
    );
    // the settlement references the winning quote, not another one
    assert_eq!(
        complete_settlement(
            &mut rfq,
            &mut settlement,
            &quote_a,
            &mut tracker,
            &TAKER_B,
            [68u8; 32],
            [69u8; 32],
            150,
        )
        .err(),
        Some(RfqError::InvalidQuote)
    );
    // the funding window closes at selected_at + fund_ttl (t = 185)
    assert_eq!(
        complete_settlement(
            &mut rfq,
            &mut settlement,
            &quote_b,
            &mut tracker,
            &TAKER_B,
            [68u8; 32],
            [69u8; 32],
            186,
        )
        .err(),
        Some(RfqError::FundingTooLate)
    );
    assert_eq!(rfq.state, RfqState::Selected);
}

#[test]
fn refund_errors() {
    let (mut rfq, mut quote_a, mut quote_b, mut tracker) = revealed_state();
    // only the quote's own taker may claim its bond
    let wrong_taker =
        refund_quote_bonds(&mut rfq, &mut quote_b, &mut tracker, &TAKER_A, 241).err();
    assert_eq!(wrong_taker, Some(RfqError::Unauthorized));
    // an unrevealed quote forfeits instead of being refunded
    assert_eq!(
        refund_quote_bonds(&mut rfq, &mut quote_a, &mut tracker, &TAKER_A, 241).err(),
        Some(RfqError::UnrevealedQuoteNotRefundable)
    );
    // the selected winner settles through completion, not refund
    select_b(&mut rfq, &mut quote_b);
    assert_eq!(
        refund_quote_bonds(&mut rfq, &mut quote_b, &mut tracker, &TAKER_B, 241).err(),
        Some(RfqError::SelectedQuoteNotRefundable)
    );
}

#[test]
fn refund_requires_a_revealed_rfq() {
    let cfg = config();
    let mut registry = GuardRegistry::new();
    let mut rfq = create_rfq(RFQ_KEY, MAKER, MAKER_PAY, VAULT, &params(), 0).unwrap();
    let (mut tracker, _) = open_rfq(&mut rfq, &cfg, &MAKER, 0).unwrap();
    let sig = [1u8; 64];
    let hash = [50u8; 32];
    let (mut quote, _, _) = commit_quote(
        &mut rfq,
        &mut registry,
        &cfg,
        &attested(&hash, &sig),
        hash,
        sig,
        TAKER_A,
        [60u8; 32],
        [61u8; 32],
        0,
    )
    .unwrap();
    assert_eq!(
        refund_quote_bonds(&mut rfq, &mut quote, &mut tracker, &TAKER_A, 500).err(),
        Some(RfqError::InvalidRfqState)
    );
}

#[test]
fn withdraw_requires_positive_share() {
    // facilitator rate of zero leaves nothing to withdraw
    let (mut rfq, _quote_a, mut quote_b, mut tracker) = revealed_state();
    rfq.facilitator = Some(FACILITATOR);
    quote_b.facilitator = Some(FACILITATOR);
    let mut settlement = select_b(&mut rfq, &mut quote_b);
    complete_settlement(
        &mut rfq,
        &mut settlement,
        &quote_b,
        &mut tracker,
        &TAKER_B,
        [68u8; 32],
        [69u8; 32],
        150,
    )
    .unwrap();
    let mut rewards = RewardRegistry::new();
    assert_eq!(
        withdraw_facilitator_reward(
            &rfq,
            &settlement,
            &quote_b,
            &mut rewards,
            &config(),
            &FACILITATOR,
            [70u8; 32],
            200,
        )
        .err(),
        Some(RfqError::InvalidParams)
    );
}

#[test]
fn withdraw_requires_settled_rfq() {
    let (rfq, _quote_a, quote_b, _tracker) = revealed_state();
    let mut rewards = RewardRegistry::new();
    let settlement = Settlement {
        key: [67u8; 32],
        rfq: rfq.key,
        quote: quote_b.key,
        maker: MAKER,
        taker: TAKER_B,
        base_mint: [11u8; 32],
        quote_mint: [12u8; 32],
        base_amount: 1000,
        quote_amount: 600,
        bond_amount: 100,
        fee_amount: 10,
        maker_payment_account: MAKER_PAY,
        taker_payment_account: [62u8; 32],
        bonds_fees_vault: VAULT,
        maker_base_account: [64u8; 32],
        taker_base_account: None,
        vault_base_ata: [65u8; 32],
        maker_quote_account: [66u8; 32],
        taker_quote_account: None,
        created_at: 125,
        completed_at: None,
        maker_funded_at: Some(125),
        taker_funded_at: None,
    };
    assert_eq!(
        withdraw_facilitator_reward(
            &rfq,
            &settlement,
            &quote_b,
            &mut rewards,
            &config(),
            &FACILITATOR,
            [70u8; 32],
            200,
        )
        .err(),
        Some(RfqError::InvalidRfqState)
    );
}

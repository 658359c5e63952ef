//! The RFQ lifecycle controller: the top-level state machine.
//!
//! External callers invoke one action at a time; each action validates the
//! current phase, deadline and authorization, delegates to the verifier,
//! accountant and distributor as needed, mutates the records, and returns
//! the exact asset transfers the host must perform. Every action either
//! fully succeeds or fails with a typed error before any fund movement.

use vstd::prelude::*;

use crate::MAX_TIMESTAMP;
use crate::attestation::check_attestation;
use crate::attestation::spec_attestation_error;
use crate::attestation::CompanionInstruction;
use crate::bytes::bytes32_eq;
use crate::config::Config;
use crate::errors::QuoteError;
use crate::errors::RfqError;
use crate::fees::compute_fee_split;
use crate::fees::spec_facilitator_share;
use crate::hashing::commit_digest;
use crate::hashing::spec_commit_digest;
use crate::quote::CommitGuard;
use crate::quote::GuardRegistry;
use crate::quote::Quote;
use crate::rfq::FacilitatorUpdate;
use crate::rfq::Key;
use crate::rfq::Rfq;
use crate::rfq::RfqState;
use crate::settlement::build_settlement;
use crate::settlement::spec_settlement_snapshot;
use crate::settlement::Settlement;
use crate::slashing::resolve_slashed_bonds;
use crate::slashing::spec_resolve;
use crate::slashing::spec_slash_total;
use crate::trackers::FacilitatorRewardTracker;
use crate::trackers::FeesTracker;
use crate::trackers::RewardRegistry;
use crate::trackers::SlashedBondsTracker;
use crate::transfers::TokenTransfer;

verus! {

/// Trade terms supplied when creating an RFQ.
pub struct RfqParams {
    /// Asset the maker delivers.
    pub base_mint: Key,
    /// Asset the taker delivers.
    pub quote_mint: Key,
    /// Forfeitable deposit each participant posts.
    pub bond_amount: u64,
    /// Exact base amount the maker will deliver.
    pub base_amount: u64,
    /// Minimum acceptable quote amount.
    pub min_quote_amount: u64,
    /// Fixed fee the winning taker pays.
    pub fee_amount: u64,
    /// Facilitator share of the fee, in basis points.
    pub facilitator_fee_bps: u16,
    /// Commit phase duration in seconds.
    pub commit_ttl_secs: u32,
    /// Reveal phase duration in seconds.
    pub reveal_ttl_secs: u32,
    /// Selection phase duration in seconds.
    pub selection_ttl_secs: u32,
    /// Funding phase duration in seconds.
    pub fund_ttl_secs: u32,
}

/// The first validation error in the supplied trade terms, if any: every
/// economic amount and every phase duration must be strictly positive, and
/// the facilitator fee rate must not exceed 10000 basis points.
pub open spec fn spec_create_error(params: RfqParams) -> Option<RfqError> {
    if params.bond_amount == 0 {
        Some(RfqError::InvalidBondAmount)
    } else if params.base_amount == 0 {
        Some(RfqError::InvalidBaseAmount)
    } else if params.min_quote_amount == 0 {
        Some(RfqError::InvalidMinQuoteAmount)
    } else if params.fee_amount == 0 {
        Some(RfqError::InvalidFeeAmount)
    } else if params.commit_ttl_secs == 0 {
        Some(RfqError::InvalidCommitTTL)
    } else if params.reveal_ttl_secs == 0 {
        Some(RfqError::InvalidRevealTTL)
    } else if params.selection_ttl_secs == 0 {
        Some(RfqError::InvalidSelectionTTL)
    } else if params.fund_ttl_secs == 0 {
        Some(RfqError::InvalidFundingTTL)
    } else if params.facilitator_fee_bps > 10000 {
        Some(RfqError::InvalidFacilitatorFeeRate)
    } else {
        None
    }
}

/// The RFQ record that `create_rfq` allocates on success: a draft with the
/// supplied terms, counters at zero, and no selection or settlement.
pub open spec fn spec_created_rfq(
    key: Key,
    maker: Key,
    maker_payment_account: Key,
    bonds_fees_vault: Key,
    params: RfqParams,
    now: i64,
) -> Rfq {
    Rfq {
        key,
        maker,
        state: RfqState::Draft,
        base_mint: params.base_mint,
        quote_mint: params.quote_mint,
        bond_amount: params.bond_amount,
        base_amount: params.base_amount,
        min_quote_amount: params.min_quote_amount,
        fee_amount: params.fee_amount,
        facilitator_fee_bps: params.facilitator_fee_bps,
        facilitator: None,
        commit_ttl_secs: params.commit_ttl_secs,
        reveal_ttl_secs: params.reveal_ttl_secs,
        selection_ttl_secs: params.selection_ttl_secs,
        fund_ttl_secs: params.fund_ttl_secs,
        created_at: now,
        opened_at: None,
        selected_at: None,
        completed_at: None,
        committed_count: 0,
        revealed_count: 0,
        selected_quote: None,
        settlement: None,
        bonds_fees_vault,
        maker_payment_account,
    }
}

/// Allocates a draft RFQ with validated trade terms.
pub fn create_rfq(
    key: Key,
    maker: Key,
    maker_payment_account: Key,
    bonds_fees_vault: Key,
    params: &RfqParams,
    now: i64,
) -> (r: Result<Rfq, RfqError>)
    requires
        0 <= now <= MAX_TIMESTAMP,
    ensures
        r is Ok <==> spec_create_error(*params) is None,
        r matches Err(e) ==> Some(e) == spec_create_error(*params),
        r matches Ok(rfq) ==> rfq == spec_created_rfq(
            key,
            maker,
            maker_payment_account,
            bonds_fees_vault,
            *params,
            now,
        ) && rfq.wf(),
{
    if params.bond_amount == 0 {
        return Err(RfqError::InvalidBondAmount);
    }
    if params.base_amount == 0 {
        return Err(RfqError::InvalidBaseAmount);
    }
    if params.min_quote_amount == 0 {
        return Err(RfqError::InvalidMinQuoteAmount);
    }
    if params.fee_amount == 0 {
        return Err(RfqError::InvalidFeeAmount);
    }
    if params.commit_ttl_secs == 0 {
        return Err(RfqError::InvalidCommitTTL);
    }
    if params.reveal_ttl_secs == 0 {
        return Err(RfqError::InvalidRevealTTL);
    }
    if params.selection_ttl_secs == 0 {
        return Err(RfqError::InvalidSelectionTTL);
    }
    if params.fund_ttl_secs == 0 {
        return Err(RfqError::InvalidFundingTTL);
    }
    if params.facilitator_fee_bps > 10000 {
        return Err(RfqError::InvalidFacilitatorFeeRate);
    }
    Ok(
        Rfq {
            key,
            maker,
            state: RfqState::Draft,
            base_mint: params.base_mint,
            quote_mint: params.quote_mint,
            bond_amount: params.bond_amount,
            base_amount: params.base_amount,
            min_quote_amount: params.min_quote_amount,
            fee_amount: params.fee_amount,
            facilitator_fee_bps: params.facilitator_fee_bps,
            facilitator: None,
            commit_ttl_secs: params.commit_ttl_secs,
            reveal_ttl_secs: params.reveal_ttl_secs,
            selection_ttl_secs: params.selection_ttl_secs,
            fund_ttl_secs: params.fund_ttl_secs,
            created_at: now,
            opened_at: None,
            selected_at: None,
            completed_at: None,
            committed_count: 0,
            revealed_count: 0,
            selected_quote: None,
            settlement: None,
            bonds_fees_vault,
            maker_payment_account,
        },
    )
}

/// Field patches a maker may apply to a draft RFQ.
pub struct RfqUpdate {
    pub new_base_mint: Option<Key>,
    pub new_quote_mint: Option<Key>,
    pub new_bond_amount: Option<u64>,
    pub new_base_amount: Option<u64>,
    pub new_min_quote_amount: Option<u64>,
    pub new_taker_fee: Option<u64>,
    pub new_commit_ttl_secs: Option<u32>,
    pub new_reveal_ttl_secs: Option<u32>,
    pub new_selection_ttl_secs: Option<u32>,
    pub new_fund_ttl_secs: Option<u32>,
}

/// The first validation error for a draft update, if any. Only the maker
/// may update, only while the RFQ is a draft, and every patched amount or
/// duration must be strictly positive — except the taker fee, which may be
/// lowered to zero while drafting (opening re-validates it).
pub open spec fn spec_update_error(rfq: Rfq, caller: Key, upd: RfqUpdate) -> Option<RfqError> {
    if caller@ != rfq.maker@ {
        Some(RfqError::Unauthorized)
    } else if !(rfq.state is Draft) {
        Some(RfqError::InvalidRfqState)
    } else if upd.new_bond_amount == Some(0u64) {
        Some(RfqError::InvalidBondAmount)
    } else if upd.new_base_amount == Some(0u64) {
        Some(RfqError::InvalidBaseAmount)
    } else if upd.new_min_quote_amount == Some(0u64) {
        Some(RfqError::InvalidMinQuoteAmount)
    } else if upd.new_commit_ttl_secs == Some(0u32) {
        Some(RfqError::InvalidCommitTTL)
    } else if upd.new_reveal_ttl_secs == Some(0u32) {
        Some(RfqError::InvalidRevealTTL)
    } else if upd.new_selection_ttl_secs == Some(0u32) {
        Some(RfqError::InvalidSelectionTTL)
    } else if upd.new_fund_ttl_secs == Some(0u32) {
        Some(RfqError::InvalidFundingTTL)
    } else {
        None
    }
}

/// The draft RFQ after applying the patches of `upd`.
pub open spec fn spec_updated_rfq(rfq: Rfq, upd: RfqUpdate) -> Rfq {
    Rfq {
        base_mint: if upd.new_base_mint is Some {
            upd.new_base_mint->Some_0
        } else {
            rfq.base_mint
        },
        quote_mint: if upd.new_quote_mint is Some {
            upd.new_quote_mint->Some_0
        } else {
            rfq.quote_mint
        },
        bond_amount: if upd.new_bond_amount is Some {
            upd.new_bond_amount->Some_0
        } else {
            rfq.bond_amount
        },
        base_amount: if upd.new_base_amount is Some {
            upd.new_base_amount->Some_0
        } else {
            rfq.base_amount
        },
        min_quote_amount: if upd.new_min_quote_amount is Some {
            upd.new_min_quote_amount->Some_0
        } else {
            rfq.min_quote_amount
        },
        fee_amount: if upd.new_taker_fee is Some {
            upd.new_taker_fee->Some_0
        } else {
            rfq.fee_amount
        },
        commit_ttl_secs: if upd.new_commit_ttl_secs is Some {
            upd.new_commit_ttl_secs->Some_0
        } else {
            rfq.commit_ttl_secs
        },
        reveal_ttl_secs: if upd.new_reveal_ttl_secs is Some {
            upd.new_reveal_ttl_secs->Some_0
        } else {
            rfq.reveal_ttl_secs
        },
        selection_ttl_secs: if upd.new_selection_ttl_secs is Some {
            upd.new_selection_ttl_secs->Some_0
        } else {
            rfq.selection_ttl_secs
        },
        fund_ttl_secs: if upd.new_fund_ttl_secs is Some {
            upd.new_fund_ttl_secs->Some_0
        } else {
            rfq.fund_ttl_secs
        },
        ..rfq
    }
}

/// Patches specific fields of a draft RFQ. Fails, changing nothing, unless
/// the caller is the maker, the RFQ is still a draft, and every patched
/// value passes validation.
#[verifier::rlimit(60)]
pub fn update_rfq(rfq: &mut Rfq, caller: &Key, upd: &RfqUpdate) -> (r: Result<(), RfqError>)
    requires
        old(rfq).wf(),
    ensures
        final(rfq).wf(),
        final(rfq).committed_count == old(rfq).committed_count,
        final(rfq).revealed_count == old(rfq).revealed_count,
        r is Ok <==> spec_update_error(*old(rfq), *caller, *upd) is None,
        r matches Err(e) ==> Some(e) == spec_update_error(*old(rfq), *caller, *upd)
            && *final(rfq) == *old(rfq),
        r is Ok ==> *final(rfq) == spec_updated_rfq(*old(rfq), *upd),
{
    if !bytes32_eq(caller, &rfq.maker) {
        return Err(RfqError::Unauthorized);
    }
    if !matches!(rfq.state, RfqState::Draft) {
        return Err(RfqError::InvalidRfqState);
    }
    if let Some(v) = upd.new_bond_amount {
        if v == 0 {
            return Err(RfqError::InvalidBondAmount);
        }
    }
    if let Some(v) = upd.new_base_amount {
        if v == 0 {
            return Err(RfqError::InvalidBaseAmount);
        }
    }
    if let Some(v) = upd.new_min_quote_amount {
        if v == 0 {
            return Err(RfqError::InvalidMinQuoteAmount);
        }
    }
    if let Some(v) = upd.new_commit_ttl_secs {
        if v == 0 {
            return Err(RfqError::InvalidCommitTTL);
        }
    }
    if let Some(v) = upd.new_reveal_ttl_secs {
        if v == 0 {
            return Err(RfqError::InvalidRevealTTL);
        }
    }
    if let Some(v) = upd.new_selection_ttl_secs {
        if v == 0 {
            return Err(RfqError::InvalidSelectionTTL);
        }
    }
    if let Some(v) = upd.new_fund_ttl_secs {
        if v == 0 {
            return Err(RfqError::InvalidFundingTTL);
        }
    }
    if let Some(v) = upd.new_base_mint {
        rfq.base_mint = v;
    }
    if let Some(v) = upd.new_quote_mint {
        rfq.quote_mint = v;
    }
    if let Some(v) = upd.new_bond_amount {
        rfq.bond_amount = v;
    }
    if let Some(v) = upd.new_base_amount {
        rfq.base_amount = v;
    }
    if let Some(v) = upd.new_min_quote_amount {
        rfq.min_quote_amount = v;
    }
    if let Some(v) = upd.new_taker_fee {
        rfq.fee_amount = v;
    }
    if let Some(v) = upd.new_commit_ttl_secs {
        rfq.commit_ttl_secs = v;
    }
    if let Some(v) = upd.new_reveal_ttl_secs {
        rfq.reveal_ttl_secs = v;
    }
    if let Some(v) = upd.new_selection_ttl_secs {
        rfq.selection_ttl_secs = v;
    }
    if let Some(v) = upd.new_fund_ttl_secs {
        rfq.fund_ttl_secs = v;
    }
    Ok(())
}

/// The first error for opening an RFQ, if any: only the maker may open,
/// only from the draft phase, and all economics and durations must be
/// strictly positive at the moment of opening.
pub open spec fn spec_open_error(rfq: Rfq, caller: Key) -> Option<RfqError> {
    if caller@ != rfq.maker@ {
        Some(RfqError::Unauthorized)
    } else if !(rfq.state is Draft) {
        Some(RfqError::InvalidRfqState)
    } else if rfq.bond_amount == 0 || rfq.base_amount == 0 || rfq.min_quote_amount == 0
        || rfq.fee_amount == 0 || rfq.commit_ttl_secs == 0 || rfq.reveal_ttl_secs == 0
        || rfq.selection_ttl_secs == 0 || rfq.fund_ttl_secs == 0 {
        Some(RfqError::InvalidParams)
    } else {
        None
    }
}

/// Opens a draft RFQ: re-validates the terms, moves the maker's bond into
/// escrow, opens the slashed-bonds tracker, and starts the commit window.
///
/// Returns the fresh (unresolved) tracker and the bond transfer the host
/// must perform. The tracker snapshots the settlement-asset and treasury
/// identities as of open time.
pub fn open_rfq(rfq: &mut Rfq, config: &Config, caller: &Key, now: i64) -> (r:
    Result<(SlashedBondsTracker, TokenTransfer), RfqError>)
    requires
        old(rfq).wf(),
        0 <= now <= MAX_TIMESTAMP,
    ensures
        final(rfq).wf(),
        final(rfq).committed_count == old(rfq).committed_count,
        final(rfq).revealed_count == old(rfq).revealed_count,
        r is Ok <==> spec_open_error(*old(rfq), *caller) is None,
        r matches Err(e) ==> Some(e) == spec_open_error(*old(rfq), *caller) && *final(rfq)
            == *old(rfq),
        r matches Ok(out) ==> {
            &&& *final(rfq) == (Rfq {
                state: RfqState::Open,
                opened_at: Some(now),
                ..*old(rfq)
            })
            &&& out.0 == (SlashedBondsTracker {
                rfq: old(rfq).key,
                usdc_mint: config.usdc_mint,
                treasury_usdc_owner: config.treasury_usdc_owner,
                amount: None,
                seized_at: None,
            })
            &&& !out.0.spec_is_resolved()
            &&& out.0.wf()
            &&& out.1 == (TokenTransfer {
                from: old(rfq).maker_payment_account,
                to: old(rfq).bonds_fees_vault,
                mint: config.usdc_mint,
                amount: old(rfq).bond_amount,
            })
        },
{
    if !bytes32_eq(caller, &rfq.maker) {
        return Err(RfqError::Unauthorized);
    }
    if !matches!(rfq.state, RfqState::Draft) {
        return Err(RfqError::InvalidRfqState);
    }
    if rfq.bond_amount == 0 || rfq.base_amount == 0 || rfq.min_quote_amount == 0
        || rfq.fee_amount == 0 || rfq.commit_ttl_secs == 0 || rfq.reveal_ttl_secs == 0
        || rfq.selection_ttl_secs == 0 || rfq.fund_ttl_secs == 0 {
        return Err(RfqError::InvalidParams);
    }
    let tracker = SlashedBondsTracker::new(rfq.key, config.usdc_mint, config.treasury_usdc_owner);
    let transfer = TokenTransfer {
        from: rfq.maker_payment_account,
        to: rfq.bonds_fees_vault,
        mint: config.usdc_mint,
        amount: rfq.bond_amount,
    };
    rfq.opened_at = Some(now);
    rfq.state = RfqState::Open;
    Ok((tracker, transfer))
}

/// The first error for cancelling an RFQ, if any: only the maker may
/// cancel, and only while the RFQ is still a draft.
pub open spec fn spec_cancel_error(rfq: Rfq, caller: Key) -> Option<RfqError> {
    if caller@ != rfq.maker@ {
        Some(RfqError::Unauthorized)
    } else if !(rfq.state is Draft) {
        Some(RfqError::InvalidRfqState)
    } else {
        None
    }
}

/// Authorizes discarding a draft RFQ. On success the host deletes the
/// record; no funds have moved yet in the draft phase, so nothing else is
/// owed.
pub fn cancel_rfq(rfq: &Rfq, caller: &Key) -> (r: Result<(), RfqError>)
    ensures
        r is Ok <==> spec_cancel_error(*rfq, *caller) is None,
        r matches Err(e) ==> Some(e) == spec_cancel_error(*rfq, *caller),
{
    if !bytes32_eq(caller, &rfq.maker) {
        return Err(RfqError::Unauthorized);
    }
    if !matches!(rfq.state, RfqState::Draft) {
        return Err(RfqError::InvalidRfqState);
    }
    Ok(())
}

/// Phases in which a facilitator reference may still be changed: any
/// phase before the trade settles or dies.
pub open spec fn spec_facilitator_phase_ok(state: RfqState) -> bool {
    state is Draft || state is Open || state is Committed || state is Revealed
        || state is Selected
}

/// The first error for changing the RFQ-level facilitator, if any.
pub open spec fn spec_set_rfq_facilitator_error(rfq: Rfq, caller: Key) -> Option<RfqError> {
    if caller@ != rfq.maker@ {
        Some(RfqError::Unauthorized)
    } else if !spec_facilitator_phase_ok(rfq.state) {
        Some(RfqError::InvalidRfqState)
    } else {
        None
    }
}

/// The facilitator reference after applying an update.
pub open spec fn spec_applied_facilitator(update: FacilitatorUpdate) -> Option<Key> {
    match update {
        FacilitatorUpdate::Clear => None,
        FacilitatorUpdate::Assign(k) => Some(k),
    }
}

/// Clears or sets the RFQ's facilitator reference. Maker-gated; allowed in
/// any phase before the trade settles or dies.
pub fn set_rfq_facilitator(rfq: &mut Rfq, caller: &Key, update: FacilitatorUpdate) -> (r: Result<
    (),
    RfqError,
>)
    requires
        old(rfq).wf(),
    ensures
        final(rfq).wf(),
        final(rfq).committed_count == old(rfq).committed_count,
        final(rfq).revealed_count == old(rfq).revealed_count,
        r is Ok <==> spec_set_rfq_facilitator_error(*old(rfq), *caller) is None,
        r matches Err(e) ==> Some(e) == spec_set_rfq_facilitator_error(*old(rfq), *caller)
            && *final(rfq) == *old(rfq),
        r is Ok ==> *final(rfq) == (Rfq {
            facilitator: spec_applied_facilitator(update),
            ..*old(rfq)
        }),
{
    if !bytes32_eq(caller, &rfq.maker) {
        return Err(RfqError::Unauthorized);
    }
    if !matches!(
        rfq.state,
        RfqState::Draft | RfqState::Open | RfqState::Committed | RfqState::Revealed
            | RfqState::Selected,
    ) {
        return Err(RfqError::InvalidRfqState);
    }
    match update {
        FacilitatorUpdate::Clear => {
            rfq.facilitator = None;
        },
        FacilitatorUpdate::Assign(k) => {
            rfq.facilitator = Some(k);
        },
    }
    Ok(())
}

/// The first error for changing a quote's facilitator, if any.
pub open spec fn spec_set_quote_facilitator_error(
    rfq: Rfq,
    quote: Quote,
    caller: Key,
) -> Option<RfqError> {
    if quote.rfq@ != rfq.key@ {
        Some(RfqError::InvalidRfqAssociation)
    } else if caller@ != quote.taker@ {
        Some(RfqError::Unauthorized)
    } else if !spec_facilitator_phase_ok(rfq.state) {
        Some(RfqError::InvalidRfqState)
    } else {
        None
    }
}

/// Clears or sets the facilitator a quote credits. Taker-gated; allowed in
/// any phase before the trade settles or dies.
pub fn set_quote_facilitator(
    quote: &mut Quote,
    rfq: &Rfq,
    caller: &Key,
    update: FacilitatorUpdate,
) -> (r: Result<(), RfqError>)
    requires
        old(quote).wf(),
    ensures
        final(quote).wf(),
        r is Ok <==> spec_set_quote_facilitator_error(*rfq, *old(quote), *caller) is None,
        r matches Err(e) ==> Some(e) == spec_set_quote_facilitator_error(
            *rfq,
            *old(quote),
            *caller,
        ) && *final(quote) == *old(quote),
        r is Ok ==> *final(quote) == (Quote {
            facilitator: spec_applied_facilitator(update),
            ..*old(quote)
        }),
{
    if !bytes32_eq(&quote.rfq, &rfq.key) {
        return Err(RfqError::InvalidRfqAssociation);
    }
    if !bytes32_eq(caller, &quote.taker) {
        return Err(RfqError::Unauthorized);
    }
    if !matches!(
        rfq.state,
        RfqState::Draft | RfqState::Open | RfqState::Committed | RfqState::Revealed
            | RfqState::Selected,
    ) {
        return Err(RfqError::InvalidRfqState);
    }
    match update {
        FacilitatorUpdate::Clear => {
            quote.facilitator = None;
        },
        FacilitatorUpdate::Assign(k) => {
            quote.facilitator = Some(k);
        },
    }
    Ok(())
}

/// The committed-quote counter after one more commitment: one more, capped
/// at the counter's width.
pub open spec fn spec_bumped_commit_count(c: u16) -> u16 {
    if c < u16::MAX {
        (c + 1) as u16
    } else {
        u16::MAX
    }
}

/// The first error for committing a quote, if any: the attestation must
/// verify (see the attestation module), the RFQ must be accepting commitments,
/// the commit window must still be open, and the commitment hash must
/// never have been used before, on any RFQ, by any taker.
pub open spec fn spec_commit_error(
    rfq: Rfq,
    registry: GuardRegistry,
    config: Config,
    companion: Option<CompanionInstruction>,
    commit_hash: [u8; 32],
    liquidity_proof: [u8; 64],
    now: i64,
) -> Option<QuoteError> {
    let att = spec_attestation_error(
        companion,
        config.liquidity_guard@,
        commit_hash@,
        liquidity_proof@,
    );
    if att is Some {
        att
    } else if !(rfq.state is Open || rfq.state is Committed) {
        Some(QuoteError::InvalidState)
    } else if now > rfq.spec_commit_deadline()->Some_0 {
        Some(QuoteError::CommitTooLate)
    } else if registry.contains_hash(commit_hash@) {
        Some(QuoteError::DuplicateCommitHash)
    } else {
        None
    }
}

/// Commits a sealed quote: verifies the liquidity attestation, checks the
/// phase and the commit window, records the replay guard, creates the
/// quote, and moves the taker's bond into escrow.
///
/// Returns the new quote, the replay-guard record bound to the hash, and
/// the bond transfer the host must perform. The committed counter never
/// decreases.
pub fn commit_quote(
    rfq: &mut Rfq,
    registry: &mut GuardRegistry,
    config: &Config,
    companion: &Option<CompanionInstruction>,
    commit_hash: [u8; 32],
    liquidity_proof: [u8; 64],
    taker: Key,
    taker_payment_account: Key,
    quote_key: Key,
    now: i64,
) -> (r: Result<(Quote, CommitGuard, TokenTransfer),
    QuoteError>)
    requires
        old(rfq).wf(),
        old(registry).wf(),
        0 <= now <= MAX_TIMESTAMP,
    ensures
        final(rfq).wf(),
        final(registry).wf(),
        final(rfq).committed_count >= old(rfq).committed_count,
        final(rfq).revealed_count == old(rfq).revealed_count,
        r is Ok <==> spec_commit_error(
            *old(rfq),
            *old(registry),
            *config,
            *companion,
            commit_hash,
            liquidity_proof,
            now,
        ) is None,
        r matches Err(e) ==> Some(e) == spec_commit_error(
            *old(rfq),
            *old(registry),
            *config,
            *companion,
            commit_hash,
            liquidity_proof,
            now,
        ) && *final(rfq) == *old(rfq) && *final(registry) == *old(registry),
        r matches Ok(out) ==> {
            &&& out.0 == (Quote {
                key: quote_key,
                rfq: old(rfq).key,
                taker,
                commit_hash,
                liquidity_proof,
                committed_at: now,
                revealed_at: None,
                quote_amount: None,
                max_funding_deadline: (old(rfq).spec_funding_deadline()->Some_0) as i64,
                bonds_refunded_at: None,
                taker_payment_account,
                selected: false,
                facilitator: None,
            })
            &&& out.0.wf()
            &&& out.1 == (CommitGuard { commit_hash, quote: quote_key, committed_at: now })
            &&& out.2 == (TokenTransfer {
                from: taker_payment_account,
                to: old(rfq).bonds_fees_vault,
                mint: config.usdc_mint,
                amount: old(rfq).bond_amount,
            })
            &&& final(registry).guards() == old(registry).guards().push(out.1)
            &&& final(registry).contains_hash(commit_hash@)
            &&& *final(rfq) == (Rfq {
                state: RfqState::Committed,
                committed_count: spec_bumped_commit_count(old(rfq).committed_count),
                ..*old(rfq)
            })
        },
{
    if let Err(e) = check_attestation(
        companion,
        &config.liquidity_guard,
        &commit_hash,
        &liquidity_proof,
    ) {
        return Err(e);
    }
    if !matches!(rfq.state, RfqState::Open | RfqState::Committed) {
        return Err(QuoteError::InvalidState);
    }
    let commit_deadline = match rfq.commit_deadline() {
        Some(d) => d,
        None => {
            return Err(QuoteError::InvalidState);
        },
    };
    if now > commit_deadline {
        return Err(QuoteError::CommitTooLate);
    }
    let max_funding_deadline = match rfq.funding_deadline() {
        Some(d) => d,
        None => 0,
    };
    let guard = CommitGuard { commit_hash, quote: quote_key, committed_at: now };
    if let Err(e) = registry.insert(guard) {
        return Err(e);
    }
    let quote = Quote {
        key: quote_key,
        rfq: rfq.key,
        taker,
        commit_hash,
        liquidity_proof,
        committed_at: now,
        revealed_at: None,
        quote_amount: None,
        max_funding_deadline,
        bonds_refunded_at: None,
        taker_payment_account,
        selected: false,
        facilitator: None,
    };
    let transfer = TokenTransfer {
        from: taker_payment_account,
        to: rfq.bonds_fees_vault,
        mint: config.usdc_mint,
        amount: rfq.bond_amount,
    };
    rfq.state = RfqState::Committed;
    rfq.committed_count = if rfq.committed_count < u16::MAX {
        rfq.committed_count + 1
    } else {
        u16::MAX
    };
    Ok((quote, guard, transfer))
}

/// Law: a commitment hash is accepted at most once, system-wide. Once the
/// replay guard holds a hash — as it does after any successful commit —
/// every further commit of that hash fails with the uniqueness error,
/// whatever RFQ or taker attempts it, even with a valid attestation inside
/// an open commit window.
pub proof fn lemma_replay_rejection(
    registry: GuardRegistry,
    rfq: Rfq,
    config: Config,
    companion: Option<CompanionInstruction>,
    commit_hash: [u8; 32],
    liquidity_proof: [u8; 64],
    now: i64,
)
    requires
        registry.contains_hash(commit_hash@),
        spec_attestation_error(
            companion,
            config.liquidity_guard@,
            commit_hash@,
            liquidity_proof@,
        ) is None,
        rfq.state is Open || rfq.state is Committed,
        now <= rfq.spec_commit_deadline()->Some_0,
    ensures
        spec_commit_error(rfq, registry, config, companion, commit_hash, liquidity_proof, now)
            == Some(QuoteError::DuplicateCommitHash),
{
}

/// The first error for revealing a quote, if any: the quote must belong to
/// this RFQ and this caller, the RFQ must be in the reveal phase, the
/// quote must not have been revealed before, the clock must be strictly
/// after the commit deadline and at or before the reveal deadline, the
/// revealed values must reproduce the stored commitment hash exactly, and
/// the amount must meet the price floor.
pub open spec fn spec_reveal_error(
    rfq: Rfq,
    quote: Quote,
    caller: Key,
    salt: [u8; 64],
    quote_amount: u64,
    now: i64,
) -> Option<RfqError> {
    if quote.rfq@ != rfq.key@ {
        Some(RfqError::InvalidRfqAssociation)
    } else if caller@ != quote.taker@ {
        Some(RfqError::Unauthorized)
    } else if !(rfq.state is Committed || rfq.state is Revealed) {
        Some(RfqError::InvalidRfqState)
    } else if quote.revealed_at is Some {
        Some(RfqError::QuoteAlreadyRevealed)
    } else if now > rfq.spec_reveal_deadline()->Some_0 {
        Some(RfqError::RevealTooLate)
    } else if now <= rfq.spec_commit_deadline()->Some_0 {
        Some(RfqError::RevealTooEarly)
    } else if spec_commit_digest(
        salt@,
        rfq.key@,
        quote.taker@,
        rfq.quote_mint@,
        quote_amount,
        rfq.bond_amount,
        rfq.fee_amount,
    ) != quote.commit_hash@ {
        Some(RfqError::CommitmentMismatch)
    } else if quote_amount < rfq.min_quote_amount {
        Some(RfqError::InvalidQuoteAmount)
    } else {
        None
    }
}

/// Reveals a committed quote: recomputes the commitment digest from the
/// salt and the claimed amount over the fixed preimage layout, requires
/// byte-exact equality with the stored hash, and enforces the price floor.
///
/// The reveal succeeds exactly when the recomputed digest matches the
/// stored commitment hash and every phase, window and floor check passes;
/// a quote reveals at most once. The revealed counter never decreases and
/// never passes the committed counter.
pub fn reveal_quote(
    rfq: &mut Rfq,
    quote: &mut Quote,
    caller: &Key,
    salt: &[u8; 64],
    quote_amount: u64,
    now: i64,
) -> (r: Result<(), RfqError>)
    requires
        old(rfq).wf(),
        old(quote).wf(),
        // every reveal answers an earlier commitment: while an unrevealed
        // quote exists, strictly fewer reveals than commits were counted
        old(rfq).revealed_count < old(rfq).committed_count,
        0 <= now <= MAX_TIMESTAMP,
    ensures
        final(rfq).wf(),
        final(quote).wf(),
        final(rfq).committed_count == old(rfq).committed_count,
        final(rfq).revealed_count >= old(rfq).revealed_count,
        final(rfq).revealed_count <= final(rfq).committed_count,
        r is Ok <==> spec_reveal_error(*old(rfq), *old(quote), *caller, *salt, quote_amount, now)
            is None,
        r matches Err(e) ==> Some(e) == spec_reveal_error(
            *old(rfq),
            *old(quote),
            *caller,
            *salt,
            quote_amount,
            now,
        ) && *final(rfq) == *old(rfq) && *final(quote) == *old(quote),
        r is Ok ==> {
            &&& *final(quote) == (Quote {
                revealed_at: Some(now),
                quote_amount: Some(quote_amount),
                ..*old(quote)
            })
            &&& *final(rfq) == (Rfq {
                state: RfqState::Revealed,
                revealed_count: (old(rfq).revealed_count + 1) as u16,
                ..*old(rfq)
            })
        },
{
    if !bytes32_eq(&quote.rfq, &rfq.key) {
        return Err(RfqError::InvalidRfqAssociation);
    }
    if !bytes32_eq(caller, &quote.taker) {
        return Err(RfqError::Unauthorized);
    }
    if !matches!(rfq.state, RfqState::Committed | RfqState::Revealed) {
        return Err(RfqError::InvalidRfqState);
    }
    if quote.revealed_at.is_some() {
        return Err(RfqError::QuoteAlreadyRevealed);
    }
    let reveal_deadline = match rfq.reveal_deadline() {
        Some(d) => d,
        None => {
            return Err(RfqError::InvalidRfqState);
        },
    };
    let commit_deadline = match rfq.commit_deadline() {
        Some(d) => d,
        None => {
            return Err(RfqError::InvalidRfqState);
        },
    };
    if now > reveal_deadline {
        return Err(RfqError::RevealTooLate);
    }
    if now <= commit_deadline {
        return Err(RfqError::RevealTooEarly);
    }
    let computed = commit_digest(
        salt,
        &rfq.key,
        &quote.taker,
        &rfq.quote_mint,
        quote_amount,
        rfq.bond_amount,
        rfq.fee_amount,
    );
    if !bytes32_eq(&computed, &quote.commit_hash) {
        return Err(RfqError::CommitmentMismatch);
    }
    if quote_amount < rfq.min_quote_amount {
        return Err(RfqError::InvalidQuoteAmount);
    }
    quote.revealed_at = Some(now);
    quote.quote_amount = Some(quote_amount);
    rfq.revealed_count = rfq.revealed_count + 1;
    rfq.state = RfqState::Revealed;
    Ok(())
}

/// The first error for selecting a winning quote, if any: only the maker
/// selects, only inside the selection window, only a revealed and not yet
/// selected quote of this RFQ, and only once per RFQ.
pub open spec fn spec_select_error(
    rfq: Rfq,
    quote: Quote,
    caller: Key,
    now: i64,
) -> Option<RfqError> {
    if caller@ != rfq.maker@ {
        Some(RfqError::Unauthorized)
    } else if quote.rfq@ != rfq.key@ {
        Some(RfqError::InvalidRfqAssociation)
    } else if !(rfq.state is Revealed) {
        Some(RfqError::InvalidRfqState)
    } else if now <= rfq.spec_reveal_deadline()->Some_0 {
        Some(RfqError::SelectionTooEarly)
    } else if now > rfq.spec_selection_deadline()->Some_0 {
        Some(RfqError::SelectionTooLate)
    } else if quote.revealed_at is None {
        Some(RfqError::InvalidQuoteState)
    } else if quote.selected {
        Some(RfqError::InvalidQuoteState)
    } else if rfq.selected_at is Some || rfq.selected_quote is Some {
        Some(RfqError::AlreadySelected)
    } else {
        None
    }
}

/// Selects the winning quote: moves the maker's base asset into escrow,
/// materializes the immutable settlement snapshot, marks the quote
/// selected, and anchors the funding deadline to the selection time.
///
/// Returns the settlement record and the base-asset escrow transfer the
/// host must perform.
pub fn select_quote(
    rfq: &mut Rfq,
    quote: &mut Quote,
    caller: &Key,
    settlement_key: Key,
    maker_base_account: Key,
    vault_base_ata: Key,
    maker_quote_account: Key,
    now: i64,
) -> (r: Result<(Settlement, TokenTransfer), RfqError>)
    requires
        old(rfq).wf(),
        old(quote).wf(),
        0 <= now <= MAX_TIMESTAMP,
    ensures
        final(rfq).wf(),
        final(quote).wf(),
        final(rfq).committed_count == old(rfq).committed_count,
        final(rfq).revealed_count == old(rfq).revealed_count,
        r is Ok <==> spec_select_error(*old(rfq), *old(quote), *caller, now) is None,
        r matches Err(e) ==> Some(e) == spec_select_error(*old(rfq), *old(quote), *caller, now)
            && *final(rfq) == *old(rfq) && *final(quote) == *old(quote),
        r matches Ok(out) ==> {
            &&& out.0 == spec_settlement_snapshot(
                settlement_key,
                *old(rfq),
                *old(quote),
                maker_base_account,
                vault_base_ata,
                maker_quote_account,
                now,
            )
            &&& out.0.wf()
            &&& out.1 == (TokenTransfer {
                from: maker_base_account,
                to: vault_base_ata,
                mint: old(rfq).base_mint,
                amount: old(rfq).base_amount,
            })
            &&& *final(rfq) == (Rfq {
                state: RfqState::Selected,
                selected_at: Some(now),
                selected_quote: Some(old(quote).key),
                settlement: Some(settlement_key),
                ..*old(rfq)
            })
            &&& *final(quote) == (Quote { selected: true, ..*old(quote) })
        },
{
    if !bytes32_eq(caller, &rfq.maker) {
        return Err(RfqError::Unauthorized);
    }
    if !bytes32_eq(&quote.rfq, &rfq.key) {
        return Err(RfqError::InvalidRfqAssociation);
    }
    if !matches!(rfq.state, RfqState::Revealed) {
        return Err(RfqError::InvalidRfqState);
    }
    let reveal_deadline = match rfq.reveal_deadline() {
        Some(d) => d,
        None => {
            return Err(RfqError::InvalidRfqState);
        },
    };
    let selection_deadline = match rfq.selection_deadline() {
        Some(d) => d,
        None => {
            return Err(RfqError::InvalidRfqState);
        },
    };
    if now <= reveal_deadline {
        return Err(RfqError::SelectionTooEarly);
    }
    if now > selection_deadline {
        return Err(RfqError::SelectionTooLate);
    }
    if quote.revealed_at.is_none() {
        return Err(RfqError::InvalidQuoteState);
    }
    if quote.selected {
        return Err(RfqError::InvalidQuoteState);
    }
    if rfq.selected_at.is_some() || rfq.selected_quote.is_some() {
        return Err(RfqError::AlreadySelected);
    }
    let settlement = build_settlement(
        settlement_key,
        rfq,
        quote,
        maker_base_account,
        vault_base_ata,
        maker_quote_account,
        now,
    );
    let transfer = TokenTransfer {
        from: maker_base_account,
        to: vault_base_ata,
        mint: rfq.base_mint,
        amount: rfq.base_amount,
    };
    rfq.state = RfqState::Selected;
    rfq.selected_at = Some(now);
    rfq.selected_quote = Some(quote.key);
    rfq.settlement = Some(settlement_key);
    quote.selected = true;
    Ok((settlement, transfer))
}

/// The first error for completing a settlement, if any: the settlement
/// must belong to this RFQ and reference this quote, only the winning
/// taker completes, the funding window must still be open, the RFQ must
/// be in the selected phase, and the unrevealed-bond forfeiture must not
/// overflow.
pub open spec fn spec_complete_error(
    rfq: Rfq,
    settlement: Settlement,
    quote: Quote,
    tracker: SlashedBondsTracker,
    caller: Key,
) -> Option<RfqError> {
    if settlement.rfq@ != rfq.key@ {
        Some(RfqError::InvalidRfqAssociation)
    } else if tracker.rfq@ != rfq.key@ {
        Some(RfqError::InvalidRfqAssociation)
    } else if quote.key@ != settlement.quote@ {
        Some(RfqError::InvalidQuote)
    } else if caller@ != settlement.taker@ {
        Some(RfqError::Unauthorized)
    } else {
        None
    }
}

/// The timing and arithmetic error for completing a settlement, if any,
/// checked after the association errors of `spec_complete_error`.
pub open spec fn spec_complete_gate_error(
    rfq: Rfq,
    tracker: SlashedBondsTracker,
    now: i64,
) -> Option<RfqError> {
    if now > rfq.spec_funding_deadline()->Some_0 {
        Some(RfqError::FundingTooLate)
    } else if !(rfq.state is Selected) {
        Some(RfqError::InvalidRfqState)
    } else if !tracker.spec_is_resolved() && spec_slash_total(rfq, false)
        > u64::MAX {
        Some(RfqError::ArithmeticOverflow)
    } else {
        None
    }
}

/// The transfers settlement completion owes, in order: refund the maker's
/// bond and the taker's bond from escrow, collect the taker's fee into
/// escrow, pay the treasury its fee share (the facilitator share stays in
/// escrow until withdrawn), deliver the base asset to the taker and the
/// quote asset to the maker, then any unrevealed-bond forfeiture.
pub open spec fn spec_complete_transfers(
    rfq: Rfq,
    settlement: Settlement,
    quote: Quote,
    tracker: SlashedBondsTracker,
    taker_base_account: Key,
    taker_quote_account: Key,
    now: i64,
) -> Seq<TokenTransfer> {
    let facilitator_share = spec_facilitator_share(
        settlement.fee_amount,
        rfq.facilitator_fee_bps,
        rfq.facilitator,
        quote.facilitator,
    );
    let treasury_share = settlement.fee_amount - facilitator_share;
    let main = seq![
        TokenTransfer {
            from: settlement.bonds_fees_vault,
            to: settlement.maker_payment_account,
            mint: tracker.usdc_mint,
            amount: settlement.bond_amount,
        },
        TokenTransfer {
            from: settlement.bonds_fees_vault,
            to: settlement.taker_payment_account,
            mint: tracker.usdc_mint,
            amount: settlement.bond_amount,
        },
        TokenTransfer {
            from: settlement.taker_payment_account,
            to: settlement.bonds_fees_vault,
            mint: tracker.usdc_mint,
            amount: settlement.fee_amount,
        },
        TokenTransfer {
            from: settlement.bonds_fees_vault,
            to: tracker.treasury_usdc_owner,
            mint: tracker.usdc_mint,
            amount: treasury_share as u64,
        },
        TokenTransfer {
            from: settlement.vault_base_ata,
            to: taker_base_account,
            mint: settlement.base_mint,
            amount: settlement.base_amount,
        },
        TokenTransfer {
            from: taker_quote_account,
            to: settlement.maker_quote_account,
            mint: settlement.quote_mint,
            amount: settlement.quote_amount,
        },
    ];
    match spec_resolve(tracker, rfq, false, now).1 {
        Some(t) => main.push(t),
        None => main,
    }
}

/// Completes the settlement: the winning taker finances the trade before
/// the funding deadline. Both bonds are refunded in full, the taker's fee
/// is collected and split (the treasury share moves out at once, the
/// facilitator share stays in escrow), the base asset goes to the taker
/// and the quote asset to the maker; if the slashed-bonds tracker is
/// still unresolved, only the unrevealed bonds are forfeited — the
/// selected taker performed, so its bond is not counted.
///
/// Returns the owed transfers in order and the fee-payment record.
pub fn complete_settlement(
    rfq: &mut Rfq,
    settlement: &mut Settlement,
    quote: &Quote,
    tracker: &mut SlashedBondsTracker,
    caller: &Key,
    taker_base_account: Key,
    taker_quote_account: Key,
    now: i64,
) -> (r: Result<(Vec<TokenTransfer>, FeesTracker), RfqError>)
    requires
        old(rfq).wf(),
        old(settlement).wf(),
        old(tracker).wf(),
        0 <= now <= MAX_TIMESTAMP,
    ensures
        final(rfq).wf(),
        final(settlement).wf(),
        final(tracker).wf(),
        final(rfq).committed_count == old(rfq).committed_count,
        final(rfq).revealed_count == old(rfq).revealed_count,
        r is Ok <==> spec_complete_error(*old(rfq), *old(settlement), *quote, *old(tracker),
        *caller) is None && spec_complete_gate_error(*old(rfq), *old(tracker), now) is None,
        r matches Err(e) ==> {
            &&& (spec_complete_error(*old(rfq), *old(settlement), *quote, *old(tracker), *caller)
                is Some ==> Some(e) == spec_complete_error(*old(rfq), *old(settlement), *quote,
            *old(tracker), *caller))
            &&& (spec_complete_error(*old(rfq), *old(settlement), *quote, *old(tracker), *caller)
                is None ==> Some(e) == spec_complete_gate_error(*old(rfq), *old(tracker), now))
            &&& *final(rfq) == *old(rfq)
            &&& *final(settlement) == *old(settlement)
            &&& *final(tracker) == *old(tracker)
        },
        r matches Ok(out) ==> {
            &&& out.0@ == spec_complete_transfers(
                *old(rfq),
                *old(settlement),
                *quote,
                *old(tracker),
                taker_base_account,
                taker_quote_account,
                now,
            )
            &&& out.1 == (FeesTracker {
                rfq: old(settlement).rfq,
                taker: old(settlement).taker,
                usdc_mint: old(tracker).usdc_mint,
                treasury_usdc_owner: old(tracker).treasury_usdc_owner,
                amount: old(settlement).fee_amount,
                payed_at: now,
            })
            &&& *final(rfq) == (Rfq {
                state: RfqState::Settled,
                completed_at: Some(now),
                ..*old(rfq)
            })
            &&& *final(settlement) == (Settlement {
                completed_at: Some(now),
                taker_funded_at: Some(now),
                taker_base_account: Some(taker_base_account),
                taker_quote_account: Some(taker_quote_account),
                ..*old(settlement)
            })
            &&& *final(tracker) == spec_resolve(*old(tracker), *old(rfq), false, now).0
            &&& final(tracker).spec_is_resolved()
        },
{
    if !bytes32_eq(&settlement.rfq, &rfq.key) {
        return Err(RfqError::InvalidRfqAssociation);
    }
    if !bytes32_eq(&tracker.rfq, &rfq.key) {
        return Err(RfqError::InvalidRfqAssociation);
    }
    if !bytes32_eq(&quote.key, &settlement.quote) {
        return Err(RfqError::InvalidQuote);
    }
    if !bytes32_eq(caller, &settlement.taker) {
        return Err(RfqError::Unauthorized);
    }
    let funding_deadline = match rfq.funding_deadline() {
        Some(d) => d,
        None => {
            return Err(RfqError::InvalidRfqState);
        },
    };
    if now > funding_deadline {
        return Err(RfqError::FundingTooLate);
    }
    if !matches!(rfq.state, RfqState::Selected) {
        return Err(RfqError::InvalidRfqState);
    }
    let (_facilitator_share, treasury_share) = compute_fee_split(
        settlement.fee_amount,
        rfq.facilitator_fee_bps,
        &rfq.facilitator,
        &quote.facilitator,
    );
    let slash_opt = match resolve_slashed_bonds(tracker, rfq, false, now) {
        Ok(t) => t,
        Err(e) => {
            return Err(e);
        },
    };
    let mut transfers: Vec<TokenTransfer> = Vec::new();
    transfers.push(
        TokenTransfer {
            from: settlement.bonds_fees_vault,
            to: settlement.maker_payment_account,
            mint: tracker.usdc_mint,
            amount: settlement.bond_amount,
        },
    );
    transfers.push(
        TokenTransfer {
            from: settlement.bonds_fees_vault,
            to: settlement.taker_payment_account,
            mint: tracker.usdc_mint,
            amount: settlement.bond_amount,
        },
    );
    transfers.push(
        TokenTransfer {
            from: settlement.taker_payment_account,
            to: settlement.bonds_fees_vault,
            mint: tracker.usdc_mint,
            amount: settlement.fee_amount,
        },
    );
    transfers.push(
        TokenTransfer {
            from: settlement.bonds_fees_vault,
            to: tracker.treasury_usdc_owner,
            mint: tracker.usdc_mint,
            amount: treasury_share,
        },
    );
    transfers.push(
        TokenTransfer {
            from: settlement.vault_base_ata,
            to: taker_base_account,
            mint: settlement.base_mint,
            amount: settlement.base_amount,
        },
    );
    transfers.push(
        TokenTransfer {
            from: taker_quote_account,
            to: settlement.maker_quote_account,
            mint: settlement.quote_mint,
            amount: settlement.quote_amount,
        },
    );
    if let Some(t) = slash_opt {
        transfers.push(t);
    }
    let fees_tracker = FeesTracker {
        rfq: settlement.rfq,
        taker: settlement.taker,
        usdc_mint: tracker.usdc_mint,
        treasury_usdc_owner: tracker.treasury_usdc_owner,
        amount: settlement.fee_amount,
        payed_at: now,
    };
    rfq.state = RfqState::Settled;
    rfq.completed_at = Some(now);
    settlement.completed_at = Some(now);
    settlement.taker_funded_at = Some(now);
    settlement.taker_base_account = Some(taker_base_account);
    settlement.taker_quote_account = Some(taker_quote_account);
    proof {
        assert(transfers@ =~= spec_complete_transfers(
            *old(rfq),
            *old(settlement),
            *quote,
            *old(tracker),
            taker_base_account,
            taker_quote_account,
            now,
        ));
    }
    Ok((transfers, fees_tracker))
}

/// The deadline after which an RFQ with no reveals may be expired: the
/// commit deadline when nothing was ever committed, the reveal deadline
/// otherwise.
pub open spec fn spec_expiry_deadline(rfq: Rfq) -> int {
    if rfq.committed_count == 0 {
        rfq.spec_commit_deadline()->Some_0
    } else {
        rfq.spec_reveal_deadline()->Some_0
    }
}

/// The first error for expiring an RFQ, if any: expiry applies only to an
/// open or committed RFQ that never saw a reveal, once its expiry deadline
/// has passed, and the forfeiture must not overflow. Anyone may invoke it.
pub open spec fn spec_close_expired_error(
    rfq: Rfq,
    tracker: SlashedBondsTracker,
    now: i64,
) -> Option<RfqError> {
    if tracker.rfq@ != rfq.key@ {
        Some(RfqError::InvalidRfqAssociation)
    } else if !(rfq.state is Open || rfq.state is Committed) {
        Some(RfqError::InvalidRfqState)
    } else if rfq.revealed_count != 0 {
        Some(RfqError::InvalidRfqState)
    } else if now <= spec_expiry_deadline(rfq) {
        Some(RfqError::ExpireTooEarly)
    } else if !tracker.spec_is_resolved() && spec_slash_total(rfq, false)
        > u64::MAX {
        Some(RfqError::ArithmeticOverflow)
    } else {
        None
    }
}

/// The transfers expiry owes: the maker's bond back, then any forfeiture
/// of the committed-but-never-revealed bonds.
pub open spec fn spec_close_expired_transfers(
    rfq: Rfq,
    tracker: SlashedBondsTracker,
    now: i64,
) -> Seq<TokenTransfer> {
    let refund = TokenTransfer {
        from: rfq.bonds_fees_vault,
        to: rfq.maker_payment_account,
        mint: tracker.usdc_mint,
        amount: rfq.bond_amount,
    };
    match spec_resolve(tracker, rfq, false, now).1 {
        Some(t) => seq![refund, t],
        None => seq![refund],
    }
}

/// Expires an RFQ that produced no usable outcome: no quote was ever
/// revealed and the window has passed. Permissionless. The maker's bond is
/// refunded; if the slashed-bonds tracker is still unresolved, every
/// committed-but-never-revealed bond is forfeited to the treasury — zero
/// when nothing was ever committed.
pub fn close_expired(rfq: &mut Rfq, tracker: &mut SlashedBondsTracker, now: i64) -> (r: Result<
    Vec<TokenTransfer>,
    RfqError,
>)
    requires
        old(rfq).wf(),
        old(tracker).wf(),
        0 <= now <= MAX_TIMESTAMP,
    ensures
        final(rfq).wf(),
        final(tracker).wf(),
        final(rfq).committed_count == old(rfq).committed_count,
        final(rfq).revealed_count == old(rfq).revealed_count,
        r is Ok <==> spec_close_expired_error(*old(rfq), *old(tracker), now) is None,
        r matches Err(e) ==> Some(e) == spec_close_expired_error(*old(rfq), *old(tracker), now)
            && *final(rfq) == *old(rfq) && *final(tracker) == *old(tracker),
        r matches Ok(out) ==> {
            &&& out@ == spec_close_expired_transfers(*old(rfq), *old(tracker), now)
            &&& *final(rfq) == (Rfq {
                state: RfqState::Expired,
                completed_at: Some(now),
                ..*old(rfq)
            })
            &&& *final(tracker) == spec_resolve(*old(tracker), *old(rfq), false, now).0
            &&& final(tracker).spec_is_resolved()
        },
{
    if !bytes32_eq(&tracker.rfq, &rfq.key) {
        return Err(RfqError::InvalidRfqAssociation);
    }
    if !matches!(rfq.state, RfqState::Open | RfqState::Committed) {
        return Err(RfqError::InvalidRfqState);
    }
    if rfq.revealed_count != 0 {
        return Err(RfqError::InvalidRfqState);
    }
    let deadline = if rfq.committed_count == 0 {
        match rfq.commit_deadline() {
            Some(d) => d,
            None => {
                return Err(RfqError::InvalidRfqState);
            },
        }
    } else {
        match rfq.reveal_deadline() {
            Some(d) => d,
            None => {
                return Err(RfqError::InvalidRfqState);
            },
        }
    };
    if now <= deadline {
        return Err(RfqError::ExpireTooEarly);
    }
    let slash_opt = match resolve_slashed_bonds(tracker, rfq, false, now) {
        Ok(t) => t,
        Err(e) => {
            return Err(e);
        },
    };
    let mut transfers: Vec<TokenTransfer> = Vec::new();
    transfers.push(
        TokenTransfer {
            from: rfq.bonds_fees_vault,
            to: rfq.maker_payment_account,
            mint: tracker.usdc_mint,
            amount: rfq.bond_amount,
        },
    );
    if let Some(t) = slash_opt {
        transfers.push(t);
    }
    rfq.state = RfqState::Expired;
    rfq.completed_at = Some(now);
    proof {
        assert(transfers@ =~= spec_close_expired_transfers(*old(rfq), *old(tracker), now));
    }
    Ok(transfers)
}

/// The first error for closing an unfunded selection, if any: the
/// settlement and tracker must belong to this RFQ, the RFQ must be in the
/// selected phase with the funding deadline passed, and the forfeiture —
/// the unrevealed bonds plus the non-performing selected taker's own bond
/// — must not overflow. Anyone may invoke it.
pub open spec fn spec_close_incomplete_error(
    rfq: Rfq,
    settlement: Settlement,
    tracker: SlashedBondsTracker,
    now: i64,
) -> Option<RfqError> {
    if settlement.rfq@ != rfq.key@ {
        Some(RfqError::InvalidRfqAssociation)
    } else if tracker.rfq@ != rfq.key@ {
        Some(RfqError::InvalidRfqAssociation)
    } else if !(rfq.state is Selected) {
        Some(RfqError::InvalidRfqState)
    } else if now <= rfq.spec_funding_deadline()->Some_0 {
        Some(RfqError::TooEarly)
    } else if !tracker.spec_is_resolved() && spec_slash_total(rfq, true)
        > u64::MAX {
        Some(RfqError::ArithmeticOverflow)
    } else {
        None
    }
}

/// The transfers an incomplete close owes: the maker's bond and the
/// maker's escrowed base asset back, then any forfeiture of the unrevealed
/// bonds plus the selected taker's bond.
pub open spec fn spec_close_incomplete_transfers(
    rfq: Rfq,
    settlement: Settlement,
    tracker: SlashedBondsTracker,
    now: i64,
) -> Seq<TokenTransfer> {
    let bond_refund = TokenTransfer {
        from: rfq.bonds_fees_vault,
        to: rfq.maker_payment_account,
        mint: tracker.usdc_mint,
        amount: rfq.bond_amount,
    };
    let base_refund = TokenTransfer {
        from: settlement.vault_base_ata,
        to: settlement.maker_base_account,
        mint: settlement.base_mint,
        amount: rfq.base_amount,
    };
    match spec_resolve(tracker, rfq, true, now).1 {
        Some(t) => seq![bond_refund, base_refund, t],
        None => seq![bond_refund, base_refund],
    }
}

/// Closes a selected RFQ whose taker never funded: past the funding
/// deadline the maker's bond and escrowed base asset are returned, and if
/// the slashed-bonds tracker is still unresolved, the unrevealed bonds
/// plus one extra bond unit — the non-performing selected taker's — are
/// forfeited. Permissionless. The settlement record is discarded by the
/// host afterwards.
pub fn close_incomplete(
    rfq: &mut Rfq,
    settlement: &Settlement,
    tracker: &mut SlashedBondsTracker,
    now: i64,
) -> (r: Result<Vec<TokenTransfer>, RfqError>)
    requires
        old(rfq).wf(),
        old(tracker).wf(),
        0 <= now <= MAX_TIMESTAMP,
    ensures
        final(rfq).wf(),
        final(tracker).wf(),
        final(rfq).committed_count == old(rfq).committed_count,
        final(rfq).revealed_count == old(rfq).revealed_count,
        r is Ok <==> spec_close_incomplete_error(*old(rfq), *settlement, *old(tracker), now)
            is None,
        r matches Err(e) ==> Some(e) == spec_close_incomplete_error(
            *old(rfq),
            *settlement,
            *old(tracker),
            now,
        ) && *final(rfq) == *old(rfq) && *final(tracker) == *old(tracker),
        r matches Ok(out) ==> {
            &&& out@ == spec_close_incomplete_transfers(*old(rfq), *settlement, *old(tracker), now)
            &&& *final(rfq) == (Rfq {
                state: RfqState::Incomplete,
                settlement: None,
                completed_at: Some(now),
                ..*old(rfq)
            })
            &&& *final(tracker) == spec_resolve(*old(tracker), *old(rfq), true, now).0
            &&& final(tracker).spec_is_resolved()
        },
{
    if !bytes32_eq(&settlement.rfq, &rfq.key) {
        return Err(RfqError::InvalidRfqAssociation);
    }
    if !bytes32_eq(&tracker.rfq, &rfq.key) {
        return Err(RfqError::InvalidRfqAssociation);
    }
    if !matches!(rfq.state, RfqState::Selected) {
        return Err(RfqError::InvalidRfqState);
    }
    let deadline = match rfq.funding_deadline() {
        Some(d) => d,
        None => {
            return Err(RfqError::InvalidRfqState);
        },
    };
    if now <= deadline {
        return Err(RfqError::TooEarly);
    }
    let slash_opt = match resolve_slashed_bonds(tracker, rfq, true, now) {
        Ok(t) => t,
        Err(e) => {
            return Err(e);
        },
    };
    let mut transfers: Vec<TokenTransfer> = Vec::new();
    transfers.push(
        TokenTransfer {
            from: rfq.bonds_fees_vault,
            to: rfq.maker_payment_account,
            mint: tracker.usdc_mint,
            amount: rfq.bond_amount,
        },
    );
    transfers.push(
        TokenTransfer {
            from: settlement.vault_base_ata,
            to: settlement.maker_base_account,
            mint: settlement.base_mint,
            amount: rfq.base_amount,
        },
    );
    if let Some(t) = slash_opt {
        transfers.push(t);
    }
    rfq.state = RfqState::Incomplete;
    rfq.settlement = None;
    rfq.completed_at = Some(now);
    proof {
        assert(transfers@ =~= spec_close_incomplete_transfers(
            *old(rfq),
            *settlement,
            *old(tracker),
            now,
        ));
    }
    Ok(transfers)
}

/// The first error for refunding one quote's bond, if any: the quote and
/// tracker must belong to this RFQ, only the quote's taker may claim, the
/// RFQ must be past selection with at least one reveal, the quote must be
/// revealed, not selected and not already refunded, the funding deadline
/// must have passed, and — on the maker-never-selected path — the
/// forfeiture must not overflow.
pub open spec fn spec_refund_error(
    rfq: Rfq,
    quote: Quote,
    tracker: SlashedBondsTracker,
    caller: Key,
    now: i64,
) -> Option<RfqError> {
    if quote.rfq@ != rfq.key@ {
        Some(RfqError::InvalidRfqAssociation)
    } else if tracker.rfq@ != rfq.key@ {
        Some(RfqError::InvalidRfqAssociation)
    } else if caller@ != quote.taker@ {
        Some(RfqError::Unauthorized)
    } else if !(rfq.state is Revealed || rfq.state is Selected || rfq.state is Settled
        || rfq.state is Ignored || rfq.state is Incomplete) {
        Some(RfqError::InvalidRfqState)
    } else if rfq.revealed_count == 0 {
        Some(RfqError::InvalidRfqState)
    } else if quote.selected {
        Some(RfqError::SelectedQuoteNotRefundable)
    } else if quote.revealed_at is None {
        Some(RfqError::UnrevealedQuoteNotRefundable)
    } else if quote.bonds_refunded_at is Some {
        Some(RfqError::QuoteBondsAlreadyRefunded)
    } else if now <= rfq.spec_funding_deadline()->Some_0 {
        Some(RfqError::QuoteRefundBeforeFundingDeadline)
    } else if rfq.state is Revealed && !tracker.spec_is_resolved()
        && spec_slash_total(rfq, false) > u64::MAX {
        Some(RfqError::ArithmeticOverflow)
    } else {
        None
    }
}

/// The transfers a per-quote refund owes: this taker's bond back, and — on
/// the maker-never-selected path only — any forfeiture of the unrevealed
/// bonds.
pub open spec fn spec_refund_transfers(
    rfq: Rfq,
    quote: Quote,
    tracker: SlashedBondsTracker,
    now: i64,
) -> Seq<TokenTransfer> {
    let refund = TokenTransfer {
        from: rfq.bonds_fees_vault,
        to: quote.taker_payment_account,
        mint: tracker.usdc_mint,
        amount: rfq.bond_amount,
    };
    if rfq.state is Revealed {
        match spec_resolve(tracker, rfq, false, now).1 {
            Some(t) => seq![refund, t],
            None => seq![refund],
        }
    } else {
        seq![refund]
    }
}

/// Refunds the bond of one revealed, non-selected quote after the funding
/// deadline. If the RFQ is still in the revealed phase the maker never
/// selected in time: the RFQ moves to the ignored terminal phase and, if
/// the slashed-bonds tracker is still unresolved, the unrevealed bonds
/// are forfeited.
pub fn refund_quote_bonds(
    rfq: &mut Rfq,
    quote: &mut Quote,
    tracker: &mut SlashedBondsTracker,
    caller: &Key,
    now: i64,
) -> (r: Result<Vec<TokenTransfer>, RfqError>)
    requires
        old(rfq).wf(),
        old(quote).wf(),
        old(tracker).wf(),
        0 <= now <= MAX_TIMESTAMP,
    ensures
        final(rfq).wf(),
        final(quote).wf(),
        final(tracker).wf(),
        final(rfq).committed_count == old(rfq).committed_count,
        final(rfq).revealed_count == old(rfq).revealed_count,
        r is Ok <==> spec_refund_error(*old(rfq), *old(quote), *old(tracker), *caller, now)
            is None,
        r matches Err(e) ==> Some(e) == spec_refund_error(
            *old(rfq),
            *old(quote),
            *old(tracker),
            *caller,
            now,
        ) && *final(rfq) == *old(rfq) && *final(quote) == *old(quote) && *final(tracker) == *old(
            tracker,
        ),
        r matches Ok(out) ==> {
            &&& out@ == spec_refund_transfers(*old(rfq), *old(quote), *old(tracker), now)
            &&& *final(quote) == (Quote {
                bonds_refunded_at: Some(now),
                ..*old(quote)
            })
            &&& (old(rfq).state is Revealed ==> *final(rfq) == (Rfq {
                state: RfqState::Ignored,
                completed_at: Some(now),
                ..*old(rfq)
            }) && *final(tracker) == spec_resolve(
                *old(tracker),
                *old(rfq),
                false,
                now,
            ).0 && final(tracker).spec_is_resolved())
            &&& (!(old(rfq).state is Revealed) ==> *final(rfq) == *old(rfq) && *final(tracker)
                == *old(tracker))
        },
{
    if !bytes32_eq(&quote.rfq, &rfq.key) {
        return Err(RfqError::InvalidRfqAssociation);
    }
    if !bytes32_eq(&tracker.rfq, &rfq.key) {
        return Err(RfqError::InvalidRfqAssociation);
    }
    if !bytes32_eq(caller, &quote.taker) {
        return Err(RfqError::Unauthorized);
    }
    if !matches!(
        rfq.state,
        RfqState::Revealed | RfqState::Selected | RfqState::Settled | RfqState::Ignored
            | RfqState::Incomplete,
    ) {
        return Err(RfqError::InvalidRfqState);
    }
    if rfq.revealed_count == 0 {
        return Err(RfqError::InvalidRfqState);
    }
    if quote.selected {
        return Err(RfqError::SelectedQuoteNotRefundable);
    }
    if quote.revealed_at.is_none() {
        return Err(RfqError::UnrevealedQuoteNotRefundable);
    }
    if quote.bonds_refunded_at.is_some() {
        return Err(RfqError::QuoteBondsAlreadyRefunded);
    }
    let deadline = match rfq.funding_deadline() {
        Some(d) => d,
        None => {
            return Err(RfqError::InvalidRfqState);
        },
    };
    if now <= deadline {
        return Err(RfqError::QuoteRefundBeforeFundingDeadline);
    }
    let mut transfers: Vec<TokenTransfer> = Vec::new();
    let refund = TokenTransfer {
        from: rfq.bonds_fees_vault,
        to: quote.taker_payment_account,
        mint: tracker.usdc_mint,
        amount: rfq.bond_amount,
    };
    if matches!(rfq.state, RfqState::Revealed) {
        let slash_opt = match resolve_slashed_bonds(tracker, rfq, false, now) {
            Ok(t) => t,
            Err(e) => {
                return Err(e);
            },
        };
        transfers.push(refund);
        if let Some(t) = slash_opt {
            transfers.push(t);
        }
        rfq.state = RfqState::Ignored;
        rfq.completed_at = Some(now);
    } else {
        transfers.push(refund);
    }
    quote.bonds_refunded_at = Some(now);
    proof {
        assert(transfers@ =~= spec_refund_transfers(*old(rfq), *old(quote), *old(tracker), now));
    }
    Ok(transfers)
}

/// The first error for withdrawing a facilitator reward, if any: the
/// settlement must belong to this RFQ and reference this quote, the trade
/// must have settled completely, the quote must be the selected and
/// revealed winner, both the RFQ and the winning quote must name the
/// caller as their facilitator, the computed share must be positive, and
/// no claim for this (RFQ, facilitator) pair may exist yet.
pub open spec fn spec_withdraw_error(
    rfq: Rfq,
    settlement: Settlement,
    quote: Quote,
    registry: RewardRegistry,
    caller: Key,
) -> Option<RfqError> {
    if settlement.rfq@ != rfq.key@ {
        Some(RfqError::InvalidRfqAssociation)
    } else if settlement.quote@ != quote.key@ {
        Some(RfqError::InvalidQuote)
    } else if quote.rfq@ != rfq.key@ {
        Some(RfqError::InvalidRfqAssociation)
    } else if !(rfq.state is Settled) {
        Some(RfqError::InvalidRfqState)
    } else if !(settlement.maker_funded_at is Some && settlement.taker_funded_at is Some
        && settlement.completed_at is Some) {
        Some(RfqError::InvalidRfqState)
    } else if !quote.selected || quote.revealed_at is None {
        Some(RfqError::InvalidQuoteState)
    } else if !(rfq.facilitator matches Some(f) && f@ == caller@) || !(quote.facilitator
        matches Some(g) && g@ == caller@) {
        Some(RfqError::Unauthorized)
    } else if spec_facilitator_share(
        settlement.fee_amount,
        rfq.facilitator_fee_bps,
        rfq.facilitator,
        quote.facilitator,
    ) == 0 {
        Some(RfqError::InvalidParams)
    } else if registry.contains_claim(rfq.key@, caller@) {
        Some(RfqError::DuplicateRewardClaim)
    } else {
        None
    }
}

/// Withdraws the facilitator's share of the settled trade's fee from
/// escrow. The share is `floor(fee * rate / 10000)`, owed only when the
/// RFQ and the winning quote both name the caller as facilitator; the
/// claim record's creation is itself the double-claim guard.
///
/// Returns the claim record and the escrow-to-facilitator transfer the
/// host must perform.
pub fn withdraw_facilitator_reward(
    rfq: &Rfq,
    settlement: &Settlement,
    quote: &Quote,
    registry: &mut RewardRegistry,
    config: &Config,
    caller: &Key,
    facilitator_account: Key,
    now: i64,
) -> (r: Result<(FacilitatorRewardTracker, TokenTransfer), RfqError>)
    requires
        rfq.wf(),
        old(registry).wf(),
        0 <= now <= MAX_TIMESTAMP,
    ensures
        final(registry).wf(),
        r is Ok <==> spec_withdraw_error(*rfq, *settlement, *quote, *old(registry), *caller)
            is None,
        r matches Err(e) ==> Some(e) == spec_withdraw_error(
            *rfq,
            *settlement,
            *quote,
            *old(registry),
            *caller,
        ) && *final(registry) == *old(registry),
        r matches Ok(out) ==> {
            &&& out.0 == (FacilitatorRewardTracker {
                rfq: rfq.key,
                facilitator: *caller,
                usdc_mint: config.usdc_mint,
                amount: spec_facilitator_share(
                    settlement.fee_amount,
                    rfq.facilitator_fee_bps,
                    rfq.facilitator,
                    quote.facilitator,
                ) as u64,
                claimed_at: now,
            })
            &&& out.1 == (TokenTransfer {
                from: settlement.bonds_fees_vault,
                to: facilitator_account,
                mint: config.usdc_mint,
                amount: out.0.amount,
            })
            &&& out.0.amount > 0
            &&& out.0.amount <= settlement.fee_amount
            &&& final(registry).claims() == old(registry).claims().push(out.0)
            &&& final(registry).contains_claim(rfq.key@, caller@)
        },
{
    if !bytes32_eq(&settlement.rfq, &rfq.key) {
        return Err(RfqError::InvalidRfqAssociation);
    }
    if !bytes32_eq(&settlement.quote, &quote.key) {
        return Err(RfqError::InvalidQuote);
    }
    if !bytes32_eq(&quote.rfq, &rfq.key) {
        return Err(RfqError::InvalidRfqAssociation);
    }
    if !matches!(rfq.state, RfqState::Settled) {
        return Err(RfqError::InvalidRfqState);
    }
    if !settlement.is_complete() {
        return Err(RfqError::InvalidRfqState);
    }
    if !quote.selected || quote.revealed_at.is_none() {
        return Err(RfqError::InvalidQuoteState);
    }
    let rfq_names_caller = match &rfq.facilitator {
        Some(f) => bytes32_eq(f, caller),
        None => false,
    };
    let quote_names_caller = match &quote.facilitator {
        Some(g) => bytes32_eq(g, caller),
        None => false,
    };
    if !rfq_names_caller || !quote_names_caller {
        return Err(RfqError::Unauthorized);
    }
    let (facilitator_share, _treasury_share) = compute_fee_split(
        settlement.fee_amount,
        rfq.facilitator_fee_bps,
        &rfq.facilitator,
        &quote.facilitator,
    );
    if facilitator_share == 0 {
        return Err(RfqError::InvalidParams);
    }
    let claim = FacilitatorRewardTracker {
        rfq: rfq.key,
        facilitator: *caller,
        usdc_mint: config.usdc_mint,
        amount: facilitator_share,
        claimed_at: now,
    };
    if let Err(e) = registry.insert(claim) {
        return Err(e);
    }
    let transfer = TokenTransfer {
        from: settlement.bonds_fees_vault,
        to: facilitator_account,
        mint: config.usdc_mint,
        amount: facilitator_share,
    };
    Ok((claim, transfer))
}

} // verus!

//! The settlement record: an immutable snapshot of the trade terms,
//! materialized exactly once when the maker selects a winning quote and
//! consumed by final settlement.
//!
//! Both participants' payment accounts are recorded here so that final
//! settlement routes funds to exact, pre-declared accounts rather than
//! caller-supplied ones.

use vstd::prelude::*;

use crate::MAX_TIMESTAMP;
use crate::quote::Quote;
use crate::rfq::Key;
use crate::rfq::Rfq;

verus! {

/// Immutable snapshot of final trade terms, created at selection time.
pub struct Settlement {
    /// Identity of this settlement record.
    pub key: Key,
    /// The RFQ being settled.
    pub rfq: Key,
    /// The winning quote.
    pub quote: Key,
    /// The maker.
    pub maker: Key,
    /// The winning taker.
    pub taker: Key,
    /// Asset the maker delivers.
    pub base_mint: Key,
    /// Asset the taker delivers.
    pub quote_mint: Key,
    /// Exact base amount the maker delivers.
    pub base_amount: u64,
    /// The taker's revealed quote amount.
    pub quote_amount: u64,
    /// Bond posted by each participant.
    pub bond_amount: u64,
    /// Fee the taker pays.
    pub fee_amount: u64,
    /// The maker's pre-declared settlement-asset account.
    pub maker_payment_account: Key,
    /// The taker's pre-declared settlement-asset account.
    pub taker_payment_account: Key,
    /// Escrow vault holding bonds and fees.
    pub bonds_fees_vault: Key,
    /// The maker's base-asset account the escrowed base came from.
    pub maker_base_account: Key,
    /// The taker's base-asset account; set at completion.
    pub taker_base_account: Option<Key>,
    /// Escrow account holding the maker's base asset.
    pub vault_base_ata: Key,
    /// The maker's quote-asset account.
    pub maker_quote_account: Key,
    /// The taker's quote-asset account; set at completion.
    pub taker_quote_account: Option<Key>,
    /// When the snapshot was created.
    pub created_at: i64,
    /// When final settlement completed.
    pub completed_at: Option<i64>,
    /// When the maker's base asset entered escrow (at selection).
    pub maker_funded_at: Option<i64>,
    /// When the taker financed the trade.
    pub taker_funded_at: Option<i64>,
}

impl Settlement {
    /// Well-formedness: timestamps within protocol bounds, and the maker
    /// leg funded from creation.
    pub open spec fn wf(self) -> bool {
        &&& 0 <= self.created_at <= MAX_TIMESTAMP
        &&& self.maker_funded_at == Some(self.created_at)
        &&& (self.completed_at matches Some(t) ==> 0 <= t <= MAX_TIMESTAMP)
        &&& (self.taker_funded_at matches Some(t) ==> 0 <= t <= MAX_TIMESTAMP)
    }

    /// Whether the maker's base asset is in escrow.
    pub fn maker_funded(&self) -> (r: bool)
        ensures
            r == (self.maker_funded_at is Some),
    {
        self.maker_funded_at.is_some()
    }

    /// Whether the taker financed the trade.
    pub fn taker_funded(&self) -> (r: bool)
        ensures
            r == (self.taker_funded_at is Some),
    {
        self.taker_funded_at.is_some()
    }

    /// Whether final settlement has fully completed.
    pub fn is_complete(&self) -> (r: bool)
        ensures
            r == (self.maker_funded_at is Some && self.taker_funded_at is Some
                && self.completed_at is Some),
    {
        self.maker_funded_at.is_some() && self.taker_funded_at.is_some()
            && self.completed_at.is_some()
    }
}

/// The snapshot `build_settlement` owes for a given RFQ, winning quote and
/// routing accounts: trade terms copied from the RFQ, the revealed amount
/// from the quote, the maker leg funded at creation, and the taker-side
/// references left unset until completion.
pub open spec fn spec_settlement_snapshot(
    key: Key,
    rfq: Rfq,
    quote: Quote,
    maker_base_account: Key,
    vault_base_ata: Key,
    maker_quote_account: Key,
    now: i64,
) -> Settlement {
    Settlement {
        key,
        rfq: rfq.key,
        quote: quote.key,
        maker: rfq.maker,
        taker: quote.taker,
        base_mint: rfq.base_mint,
        quote_mint: rfq.quote_mint,
        base_amount: rfq.base_amount,
        quote_amount: quote.quote_amount->Some_0,
        bond_amount: rfq.bond_amount,
        fee_amount: rfq.fee_amount,
        maker_payment_account: rfq.maker_payment_account,
        taker_payment_account: quote.taker_payment_account,
        bonds_fees_vault: rfq.bonds_fees_vault,
        maker_base_account,
        taker_base_account: None,
        vault_base_ata,
        maker_quote_account,
        taker_quote_account: None,
        created_at: now,
        completed_at: None,
        maker_funded_at: Some(now),
        taker_funded_at: None,
    }
}

/// Materializes the settlement snapshot for a selected quote. Invoked only
/// inside quote selection; `maker_funded_at` is set at creation because the
/// maker's base asset moves into escrow synchronously during selection.
pub fn build_settlement(
    key: Key,
    rfq: &Rfq,
    quote: &Quote,
    maker_base_account: Key,
    vault_base_ata: Key,
    maker_quote_account: Key,
    now: i64,
) -> (r: Settlement)
    requires
        quote.quote_amount is Some,
        0 <= now <= MAX_TIMESTAMP,
    ensures
        r == spec_settlement_snapshot(
            key,
            *rfq,
            *quote,
            maker_base_account,
            vault_base_ata,
            maker_quote_account,
            now,
        ),
        r.wf(),
{
    let quote_amount = match quote.quote_amount {
        Some(a) => a,
        None => 0,
    };
    Settlement {
        key,
        rfq: rfq.key,
        quote: quote.key,
        maker: rfq.maker,
        taker: quote.taker,
        base_mint: rfq.base_mint,
        quote_mint: rfq.quote_mint,
        base_amount: rfq.base_amount,
        quote_amount,
        bond_amount: rfq.bond_amount,
        fee_amount: rfq.fee_amount,
        maker_payment_account: rfq.maker_payment_account,
        taker_payment_account: quote.taker_payment_account,
        bonds_fees_vault: rfq.bonds_fees_vault,
        maker_base_account,
        taker_base_account: None,
        vault_base_ata,
        maker_quote_account,
        taker_quote_account: None,
        created_at: now,
        completed_at: None,
        maker_funded_at: Some(now),
        taker_funded_at: None,
    }
}

} // verus!

//! The fee and facilitator distributor.
//!
//! The winning taker's fee splits between the treasury and an optional
//! referring facilitator. The facilitator earns `floor(fee * rate / 10000)`
//! only when the RFQ's configured facilitator and the winning quote's
//! facilitator reference agree on the same non-empty identity; a mismatch
//! or absent facilitator yields a zero facilitator share. The treasury
//! always receives exactly the remainder.

use vstd::prelude::*;

use crate::bytes::key_option_matches;
use crate::rfq::Key;

verus! {

/// Whether the referral is consistent end-to-end: both the RFQ and the
/// winning quote name the same facilitator.
pub open spec fn spec_facilitator_consistent(rfq_fac: Option<Key>, quote_fac: Option<Key>) -> bool {
    rfq_fac matches Some(a) && quote_fac matches Some(b) && a@ == b@
}

/// The facilitator's share of the fee: `floor(fee * bps / 10000)` when the
/// referral is consistent, zero otherwise.
pub open spec fn spec_facilitator_share(
    fee_amount: u64,
    bps: u16,
    rfq_fac: Option<Key>,
    quote_fac: Option<Key>,
) -> int {
    if spec_facilitator_consistent(rfq_fac, quote_fac) {
        (fee_amount * bps) / 10000
    } else {
        0
    }
}

/// Splits the fee between facilitator and treasury.
///
/// Returns `(facilitator_share, treasury_share)`; the two always sum to
/// exactly the fee amount, with no rounding loss beyond floor division.
/// The widened intermediate product cannot overflow, so this is total.
pub fn compute_fee_split(
    fee_amount: u64,
    facilitator_fee_bps: u16,
    rfq_facilitator: &Option<Key>,
    quote_facilitator: &Option<Key>,
) -> (r: (u64, u64))
    requires
        facilitator_fee_bps <= 10000,
    ensures
        r.0 == spec_facilitator_share(
            fee_amount,
            facilitator_fee_bps,
            *rfq_facilitator,
            *quote_facilitator,
        ),
        r.0 + r.1 == fee_amount,
        r.0 <= fee_amount,
{
    if key_option_matches(rfq_facilitator, quote_facilitator) {
        proof {
            assert(fee_amount as int * facilitator_fee_bps as int <= fee_amount as int
                * 10000) by (nonlinear_arith)
                requires
                    facilitator_fee_bps <= 10000,
                    fee_amount >= 0,
            ;
        }
        let wide: u128 = (fee_amount as u128) * (facilitator_fee_bps as u128);
        let share_wide: u128 = wide / 10000;
        proof {
            assert((fee_amount as int * 10000) / 10000 == fee_amount as int) by (nonlinear_arith);
            assert(fee_amount as int * facilitator_fee_bps as int / 10000 <= fee_amount as int
                * 10000 / 10000) by (nonlinear_arith)
                requires
                    fee_amount as int * facilitator_fee_bps as int <= fee_amount as int * 10000,
            ;
        }
        let share: u64 = share_wide as u64;
        (share, fee_amount - share)
    } else {
        (0, fee_amount)
    }
}

} // verus!

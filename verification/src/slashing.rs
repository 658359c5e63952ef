//! The bond slashing accountant.
//!
//! Every committed-but-never-revealed taker forfeits its bond; some exit
//! paths additionally forfeit one more bond unit (the non-performing
//! actor). The computation is pure; idempotency across the several exit
//! paths rests on the slashed-bonds tracker, which `resolve_slashed_bonds`
//! moves from unresolved to resolved at most once.

use vstd::prelude::*;

use crate::MAX_TIMESTAMP;
use crate::errors::RfqError;
use crate::rfq::Rfq;
use crate::trackers::SlashedBondsTracker;
use crate::transfers::TokenTransfer;

verus! {

/// The forfeited amount owed for an RFQ: one bond per unrevealed
/// commitment, plus one more when the active party's bond is included.
pub open spec fn spec_slash_total(rfq: Rfq, include_actor_bond: bool) -> int {
    (rfq.committed_count - rfq.revealed_count + (if include_actor_bond {
        1int
    } else {
        0int
    })) * rfq.bond_amount
}

/// Computes the total slashed amount for an RFQ. Overflow is a fatal
/// error, never a silent wraparound.
pub fn compute_slashed_amount(rfq: &Rfq, include_actor_bond: bool) -> (r: Result<u64, RfqError>)
    requires
        rfq.wf(),
    ensures
        r is Ok <==> spec_slash_total(*rfq, include_actor_bond) <= u64::MAX,
        r matches Ok(v) ==> v == spec_slash_total(*rfq, include_actor_bond),
        r matches Err(e) ==> e == RfqError::ArithmeticOverflow,
{
    let committed: u64 = rfq.committed_count as u64;
    let revealed: u64 = rfq.revealed_count as u64;
    let base: u64 = committed - revealed;
    let total: u64 = if include_actor_bond {
        base + 1
    } else {
        base
    };
    match total.checked_mul(rfq.bond_amount) {
        Some(v) => Ok(v),
        None => Err(RfqError::ArithmeticOverflow),
    }
}

/// What one resolution attempt does to the tracker and what transfer it
/// owes, assuming the slash total fits in `u64`: a resolved tracker is
/// left untouched and owes nothing; an unresolved one records the slash
/// total and the seizure time, owing an escrow-to-treasury transfer when
/// the total is non-zero.
pub open spec fn spec_resolve(
    tracker: SlashedBondsTracker,
    rfq: Rfq,
    include_actor_bond: bool,
    now: i64,
) -> (SlashedBondsTracker, Option<TokenTransfer>) {
    if tracker.spec_is_resolved() {
        (tracker, None)
    } else {
        let total = spec_slash_total(rfq, include_actor_bond);
        (
            SlashedBondsTracker { amount: Some(total as u64), seized_at: Some(now), ..tracker },
            if total == 0 {
                None
            } else {
                Some(
                    TokenTransfer {
                        from: rfq.bonds_fees_vault,
                        to: tracker.treasury_usdc_owner,
                        mint: tracker.usdc_mint,
                        amount: total as u64,
                    },
                )
            },
        )
    }
}

/// Resolves the slashed-bonds tracker for an RFQ, at most once.
///
/// If the tracker is already resolved, nothing changes and no transfer is
/// owed. Otherwise the slashed amount is computed, the tracker records it
/// together with the seizure time, and the owed transfer (escrow vault to
/// treasury) is returned — `None` when the amount is zero, since nothing
/// needs to move. Overflow in the slash computation is fatal and leaves
/// the tracker unresolved.
pub fn resolve_slashed_bonds(
    tracker: &mut SlashedBondsTracker,
    rfq: &Rfq,
    include_actor_bond: bool,
    now: i64,
) -> (r: Result<Option<TokenTransfer>, RfqError>)
    requires
        old(tracker).wf(),
        rfq.wf(),
        0 <= now <= MAX_TIMESTAMP,
    ensures
        final(tracker).wf(),
        r is Err <==> !old(tracker).spec_is_resolved() && spec_slash_total(
            *rfq,
            include_actor_bond,
        ) > u64::MAX,
        r matches Err(e) ==> e == RfqError::ArithmeticOverflow && *final(tracker) == *old(
            tracker,
        ),
        r matches Ok(t) ==> (*final(tracker), t) == spec_resolve(
            *old(tracker),
            *rfq,
            include_actor_bond,
            now,
        ),
        r is Ok ==> final(tracker).spec_is_resolved(),
{
    if tracker.is_resolved() {
        return Ok(None);
    }
    let seized = match compute_slashed_amount(rfq, include_actor_bond) {
        Ok(v) => v,
        Err(e) => {
            return Err(e);
        },
    };
    tracker.amount = Some(seized);
    tracker.seized_at = Some(now);
    if seized > 0 {
        Ok(
            Some(
                TokenTransfer {
                    from: rfq.bonds_fees_vault,
                    to: tracker.treasury_usdc_owner,
                    mint: tracker.usdc_mint,
                    amount: seized,
                },
            ),
        )
    } else {
        Ok(None)
    }
}

/// Law: the slashed-bonds tracker resolves at most once. A first
/// resolution attempt on an unresolved tracker resolves it; any later
/// attempt — from whichever exit path, with whatever counters, actor-bond
/// policy or time — leaves the tracker exactly as it was and moves no
/// funds.
pub proof fn lemma_at_most_one_resolution(
    t0: SlashedBondsTracker,
    rfq1: Rfq,
    inc1: bool,
    now1: i64,
    rfq2: Rfq,
    inc2: bool,
    now2: i64,
)
    ensures
        ({
            let (t1, _x1) = spec_resolve(t0, rfq1, inc1, now1);
            t1.spec_is_resolved()
        }),
        ({
            let (t1, _x1) = spec_resolve(t0, rfq1, inc1, now1);
            let (t2, x2) = spec_resolve(t1, rfq2, inc2, now2);
            t2 == t1 && x2 is None
        }),
{
}

} // verus!
